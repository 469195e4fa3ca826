//! Promotion: moving approved submissions out of the review queue and into
//! the catalog.
//!
//! An entry enters the catalog under the identifier of its submission. That
//! makes a repeated promotion harmless: where the catalog holds the entry
//! already, nothing is inserted and the submission is only deleted.

use crate::catalog::{
    add_fumo_to_db, cdn_url, entry_ids_unique, has_entry, insert_entry, upload_view, CatalogError,
    Fumo, FumoView, UploadError,
};
use crate::config::{Config, ConfigView};
use crate::handler::{Data, DataView};
use crate::reply::{Reply, ReplyView};
use crate::store::{
    approved_of, delete_in, find, ids_unique, lemma_delete_removes, lemma_filter_keeps_none,
    lemma_only_at, store_wf, unapproved_of,
};
use crate::submission::{clone_opt, SubmissionDoc, SubmissionView};
use vstd::prelude::*;

verus! {

/// The entry that a submission becomes, still under the address that the
/// image was submitted with.
pub open spec fn entry_of(r: SubmissionView) -> FumoView {
    FumoView {
        id: r.id,
        caption: r.caption,
        image_url: r.image_url,
        source: r.source,
        credit: r.credit,
        featured: r.featured,
    }
}

/// The entry that a submission becomes, under the durable address of its
/// image.
pub open spec fn promoted_entry(r: SubmissionView) -> FumoView {
    FumoView { image_url: cdn_url(r.image_url), ..entry_of(r) }
}

/// The catalog after the promotion of `promoted`: it gains the entry of each
/// submission whose identifier it did not hold, in the order of the queue.
pub open spec fn catalog_after(c: Seq<FumoView>, promoted: Seq<SubmissionView>) -> Seq<FumoView> {
    c + promoted.filter(|r: SubmissionView| !has_entry(c, r.id)).map_values(
        |r: SubmissionView| promoted_entry(r),
    )
}

/// The promotion batch job. Only a curator may run it. It takes every
/// approved submission out of the queue and into the catalog, and reports
/// how many it took.
pub open spec fn push_step(c: ConfigView, d: DataView, actor: u64) -> (DataView, ReplyView) {
    if !c.curators.contains(actor) {
        (d, ReplyView::PushDenied)
    } else {
        (
            DataView {
                submissions: unapproved_of(d.submissions),
                catalog: catalog_after(d.catalog, approved_of(d.submissions)),
            },
            ReplyView::Pushed { count: approved_of(d.submissions).len() },
        )
    }
}

/// Whether the record that goes by `id` exists and is approved.
pub open spec fn is_approved_in(s: Seq<SubmissionView>, id: Seq<char>) -> bool {
    exists|i: int| 0 <= i < s.len() && (#[trigger] s[i]).id == id && s[i].approved
}

/// How the promotion of one submission ended.
#[derive(Clone, Copy, Debug, PartialEq, Eq, Structural)]
pub enum Promotion {
    /// The submission is in the catalog and out of the queue.
    Promoted,
    /// No approved submission goes by this identifier.
    NotApproved,
    /// The media host failed: the submission stays approved, for the next
    /// run.
    UploadFailed,
}

/// The promotion of the one submission that goes by `id`, once the media
/// host has answered. Without an approved submission of that name, and on a
/// failed upload, nothing changes. Else the entry goes into the catalog
/// under the durable address, unless the catalog holds it already, and the
/// submission leaves the queue.
pub open spec fn promote_step(
    d: DataView,
    id: Seq<char>,
    upload: Result<Seq<char>, UploadError>,
) -> (DataView, Promotion) {
    if !is_approved_in(d.submissions, id) {
        (d, Promotion::NotApproved)
    } else {
        match upload {
            Err(_) => (d, Promotion::UploadFailed),
            Ok(url) => (
                DataView {
                    submissions: delete_in(d.submissions, id),
                    catalog: insert_entry(
                        d.catalog,
                        FumoView {
                            image_url: url,
                            ..entry_of(d.submissions[find(d.submissions, id)])
                        },
                    ),
                },
                Promotion::Promoted,
            ),
        }
    }
}

/// The entry that a submission becomes, still under the address that the
/// image was submitted with.
pub fn fumo_of(record: &SubmissionDoc) -> (r: Fumo)
    ensures
        r@ == entry_of(record@),
{
    Fumo {
        _id: record.id().clone(),
        caption: clone_opt(record.caption()),
        image: record.image_url().clone(),
        source: clone_opt(record.source()),
        credit: clone_opt(record.credit()),
        featured: clone_opt(record.featured()),
    }
}

/// Promotes the one submission that goes by `id`, given what the media host
/// answered for its image: see [`promote_step`].
pub fn promote_one(
    data: &mut Data,
    id: &String,
    upload: Result<String, UploadError>,
) -> (r: Promotion)
    ensures
        final(data).wf(),
        (final(data)@, r) == promote_step(old(data)@, id@, upload_view(upload)),
{
    let ghost before = data@.submissions;
    proof {
        use_type_invariant(&data.submissions_collection);
        use_type_invariant(&data.fumos_collection);
    }
    let fumo = match data.submissions_collection.get(id) {
        Some(record) => {
            proof {
                lemma_approved_at(before, id@, find(before, id@));
            }
            if !record.approved() {
                return Promotion::NotApproved;
            }
            fumo_of(record)
        },
        None => {
            return Promotion::NotApproved;
        },
    };
    match data.fumos_collection.insert_uploaded(fumo, upload) {
        Err(CatalogError::UploadFailed) => Promotion::UploadFailed,
        _ => {
            data.submissions_collection.delete(id);
            Promotion::Promoted
        },
    }
}

/// In a queue with unique identifiers, the record at `i` alone decides
/// whether its identifier is approved.
pub proof fn lemma_approved_at(s: Seq<SubmissionView>, id: Seq<char>, i: int)
    requires
        ids_unique(s),
        0 <= i < s.len(),
        s[i].id == id,
    ensures
        is_approved_in(s, id) == s[i].approved,
{
    lemma_only_at(s, id, i);
}

/// Promoting one more submission, whose identifier none of the earlier ones
/// has, inserts its entry into the catalog unless the identifier is taken.
pub proof fn lemma_catalog_after_push(
    c: Seq<FumoView>,
    promoted: Seq<SubmissionView>,
    r: SubmissionView,
)
    requires
        forall|j: int| 0 <= j < promoted.len() ==> (#[trigger] promoted[j]).id != r.id,
    ensures
        catalog_after(c, promoted.push(r)) == insert_entry(
            catalog_after(c, promoted),
            promoted_entry(r),
        ),
{
    let fresh = |x: SubmissionView| !has_entry(c, x.id);
    let entry = |x: SubmissionView| promoted_entry(x);
    let kept = promoted.filter(fresh);
    let sofar = catalog_after(c, promoted);
    promoted.lemma_filter_push(r, fresh);
    assert forall|j: int| 0 <= j < kept.len() implies (#[trigger] kept[j]).id != r.id by {
        assert(kept.contains(kept[j]));
        promoted.lemma_filter_contains_rev(fresh, kept[j]);
        let k = choose|k: int| 0 <= k < promoted.len() && promoted[k] == kept[j];
        assert(promoted[k].id != r.id);
    }
    if has_entry(c, r.id) {
        let w = choose|w: int| 0 <= w < c.len() && (#[trigger] c[w]).id == r.id;
        assert(sofar[w] == c[w]);
        assert(has_entry(sofar, r.id));
    } else {
        assert(!has_entry(sofar, r.id)) by {
            assert forall|w: int| 0 <= w < sofar.len() implies (#[trigger] sofar[w]).id
                != r.id by {
                if w < c.len() {
                    assert(sofar[w] == c[w]);
                } else {
                    assert(sofar[w] == promoted_entry(kept[w - c.len()]));
                }
            }
        }
        assert(c + kept.push(r).map_values(entry) =~= (c + kept.map_values(entry)).push(
            promoted_entry(r),
        ));
    }
}

/// Promoting within a queue and a catalog with unique identifiers leaves
/// the identifiers of the catalog unique.
pub proof fn lemma_insert_entry_unique(c: Seq<FumoView>, e: FumoView)
    requires
        entry_ids_unique(c),
    ensures
        entry_ids_unique(insert_entry(c, e)),
{
    if !has_entry(c, e.id) {
        let t = c.push(e);
        assert forall|i: int, j: int| 0 <= i < j < t.len() implies (#[trigger] t[i]).id != (
        #[trigger] t[j]).id by {
            if j < c.len() {
                assert(t[i] == c[i] && t[j] == c[j]);
            } else {
                assert(t[i] == c[i]);
            }
        }
    }
}

/// Runs the promotion batch job for `actor`: see [`push_step`].
pub fn push(config: &Config, data: &mut Data, actor: u64) -> (reply: Reply)
    ensures
        final(data).wf(),
        (final(data)@, reply@) == push_step(config@, old(data)@, actor),
{
    proof {
        use_type_invariant(&data.submissions_collection);
        use_type_invariant(&data.fumos_collection);
    }
    if !config.is_curator(actor) {
        return Reply::PushDenied;
    }
    let ghost s0 = data@.submissions;
    let ghost c0 = data@.catalog;
    let total = data.submissions_collection.len();
    let mut kept: usize = 0;
    let mut count: usize = 0;
    proof {
        assert(s0.take(0) =~= Seq::<SubmissionView>::empty());
        lemma_filter_keeps_none(s0.take(0), |r: SubmissionView| r.approved);
        lemma_filter_keeps_none(s0.take(0), |r: SubmissionView| !r.approved);
        lemma_filter_keeps_none(
            Seq::<SubmissionView>::empty(),
            |r: SubmissionView| !has_entry(c0, r.id),
        );
        assert(data@.submissions =~= unapproved_of(s0.take(0)) + s0.skip(0));
        assert(data@.catalog =~= catalog_after(c0, approved_of(s0.take(0))));
    }
    while kept < data.submissions_collection.len()
        invariant
            data.wf(),
            store_wf(s0),
            total == s0.len(),
            kept + count <= s0.len(),
            kept == unapproved_of(s0.take(kept + count)).len(),
            count == approved_of(s0.take(kept + count)).len(),
            data@.submissions == unapproved_of(s0.take(kept + count)) + s0.skip(kept + count),
            data@.catalog == catalog_after(c0, approved_of(s0.take(kept + count))),
        decreases s0.len() - (kept + count),
    {
        let ghost seen: int = kept + count;
        let ghost cur = data@.submissions;
        let ghost cat = data@.catalog;
        let ghost r = s0[seen];
        proof {
            assert(cur.len() == kept + (s0.len() - seen));
            assert(cur[kept as int] == s0.skip(seen)[0]);
            assert(s0.take(seen + 1) =~= s0.take(seen).push(r));
            s0.take(seen).lemma_filter_push(r, |x: SubmissionView| x.approved);
            s0.take(seen).lemma_filter_push(r, |x: SubmissionView| !x.approved);
        }
        let record = data.submissions_collection.record(kept);
        if record.approved() {
            let fumo = fumo_of(record);
            let id = record.id().clone();
            proof {
                let earlier = approved_of(s0.take(seen));
                assert forall|j: int| 0 <= j < earlier.len() implies (#[trigger] earlier[j]).id
                    != r.id by {
                    assert(earlier.contains(earlier[j]));
                    s0.take(seen).lemma_filter_contains_rev(
                        |x: SubmissionView| x.approved,
                        earlier[j],
                    );
                    let k = choose|k: int|
                        0 <= k < s0.take(seen).len() && s0.take(seen)[k] == earlier[j];
                    assert(s0[k].id != s0[seen].id);
                }
                lemma_catalog_after_push(c0, earlier, r);
                lemma_insert_entry_unique(cat, promoted_entry(r));
            }
            match add_fumo_to_db(&mut data.fumos_collection, fumo) {
                Err(CatalogError::UploadFailed) => {
                    kept += 1;
                },
                _ => {
                    data.submissions_collection.delete(&id);
                    proof {
                        lemma_delete_removes(cur, id@, kept as int);
                        assert(cur.remove(kept as int) =~= unapproved_of(s0.take(seen + 1))
                            + s0.skip(seen + 1));
                    }
                    count += 1;
                },
            }
        } else {
            proof {
                assert(cur =~= unapproved_of(s0.take(seen + 1)) + s0.skip(seen + 1));
            }
            kept += 1;
        }
    }
    proof {
        assert(s0.take(s0.len() as int) =~= s0);
        assert(s0.skip(s0.len() as int) =~= Seq::<SubmissionView>::empty());
        assert(data@.submissions =~= unapproved_of(s0));
    }
    Reply::Pushed { count }
}

} // verus!
