//! What holds of the lifecycle as a whole, proved from the steps that the
//! handlers implement.

use crate::catalog::{has_entry, FumoView, UploadError};
use crate::config::ConfigView;
use crate::event::{
    action_of, ActionTag, EventView, InfoSubmissionView, InteractionView, MessageView,
};
use crate::handler::{data_wf, event_step, info_step, interaction_step, message_step, DataView};
use crate::promotion::{
    catalog_after, entry_of, lemma_insert_entry_unique, promote_step, push_step,
};
use crate::reply::ReplyView;
use crate::store::{
    approve_in, approved_of, find, flags_exclusive, has_id, is_pending_in,
    lemma_add_info_keeps_wf, lemma_approve_keeps_wf, lemma_filter_keeps_all,
    lemma_filter_keeps_none, lemma_find_unique, lemma_only_at, lemma_reject_keeps_wf, store_wf,
    unapproved_of,
};
use crate::submission::{is_blank, MoreInfoView, SubmissionView};
use crate::text::{decimal, lemma_decimal_injective};
use vstd::prelude::*;

verus! {

/// Filtering keeps the queue's invariant.
pub proof fn lemma_filter_keeps_wf(s: Seq<SubmissionView>, p: spec_fn(SubmissionView) -> bool)
    requires
        store_wf(s),
    ensures
        store_wf(s.filter(p)),
    decreases s.len(),
{
    reveal(Seq::filter);
    if s.len() > 0 {
        let rest = s.drop_last();
        assert(store_wf(rest)) by {
            assert forall|a: int, b: int| 0 <= a < b < rest.len() implies (#[trigger] rest[a]).id
                != (#[trigger] rest[b]).id by {
                assert(rest[a] == s[a] && rest[b] == s[b]);
            }
            assert forall|a: int| 0 <= a < rest.len() implies (#[trigger] rest[a]).wf() by {
                assert(rest[a] == s[a]);
            }
        }
        lemma_filter_keeps_wf(rest, p);
        let kept = rest.filter(p);
        if p(s.last()) {
            let t = kept.push(s.last());
            assert forall|a: int, b: int| 0 <= a < b < t.len() implies (#[trigger] t[a]).id != (
            #[trigger] t[b]).id by {
                if b < kept.len() {
                    assert(t[a] == kept[a] && t[b] == kept[b]);
                } else {
                    assert(t[a] == kept[a]);
                    assert(kept.contains(kept[a]));
                    rest.lemma_filter_contains_rev(p, kept[a]);
                    let k = choose|k: int| 0 <= k < rest.len() && rest[k] == kept[a];
                    assert(s[k].id != s[s.len() - 1].id);
                }
            }
            assert forall|a: int| 0 <= a < t.len() implies (#[trigger] t[a]).wf() by {
                if a < kept.len() {
                    assert(t[a] == kept[a]);
                } else {
                    assert(t[a] == s[s.len() - 1]);
                }
            }
        }
    }
}

/// No event leads out of the valid states of the review queue: afterwards
/// identifiers are still unique, and no submission is both approved and
/// discarded.
pub proof fn flags_stay_exclusive_under_events(c: ConfigView, s: Seq<SubmissionView>, e: EventView)
    requires
        store_wf(s),
    ensures
        store_wf(event_step(c, s, e).0),
        flags_exclusive(event_step(c, s, e).0),
{
    match e {
        EventView::Message(m) => {
            let t = message_step(c, s, m).0;
            if t != s {
                let r = SubmissionView::fresh(
                    decimal(m.id as nat),
                    m.attachments[0],
                    decimal(m.author_id as nat),
                    m.timestamp,
                );
                assert(t == s.push(r));
                assert forall|a: int, b: int| 0 <= a < b < t.len() implies (#[trigger] t[a]).id
                    != (#[trigger] t[b]).id by {
                    if b < s.len() {
                        assert(t[a] == s[a] && t[b] == s[b]);
                    } else {
                        assert(t[a] == s[a]);
                    }
                }
                assert forall|a: int| 0 <= a < t.len() implies (#[trigger] t[a]).wf() by {
                    if a < s.len() {
                        assert(t[a] == s[a]);
                    }
                }
            }
        },
        EventView::Interaction(i) => {
            match i.referenced_message {
                Some(message) => {
                    lemma_approve_keeps_wf(s, decimal(message as nat));
                    lemma_reject_keeps_wf(s, decimal(message as nat));
                },
                None => {},
            }
        },
        EventView::InfoSubmitted(f) => {
            match (f.form, f.referenced_message) {
                (Some(info), Some(message)) => {
                    lemma_add_info_keeps_wf(s, decimal(message as nat), info);
                },
                _ => {},
            }
        },
        EventView::Other => {},
    }
}

/// Promotion does not lead out of the valid states either, neither as a
/// batch nor one submission at a time, whatever the media host answers.
pub proof fn flags_stay_exclusive_under_promotion(
    c: ConfigView,
    d: DataView,
    actor: u64,
    id: Seq<char>,
    upload: Result<Seq<char>, UploadError>,
)
    requires
        data_wf(d),
    ensures
        store_wf(push_step(c, d, actor).0.submissions),
        flags_exclusive(push_step(c, d, actor).0.submissions),
        data_wf(promote_step(d, id, upload).0),
        flags_exclusive(promote_step(d, id, upload).0.submissions),
{
    lemma_filter_keeps_wf(d.submissions, |r: SubmissionView| !r.approved);
    lemma_filter_keeps_wf(d.submissions, |r: SubmissionView| r.id != id);
    match upload {
        Ok(url) => {
            lemma_insert_entry_unique(
                d.catalog,
                FumoView { image_url: url, ..entry_of(d.submissions[find(d.submissions, id)]) },
            );
        },
        Err(_) => {},
    }
}

/// An approve that is delivered twice makes one transition: where the first
/// delivery approves the submission, the second changes nothing and is
/// answered as stale. Where the first delivery does not apply, the second
/// gets the same answer, and the queue stays as it was throughout.
pub proof fn approve_twice_applies_once(c: ConfigView, s: Seq<SubmissionView>, i: InteractionView)
    requires
        store_wf(s),
        action_of(i.custom_id) == Some(ActionTag::Approve),
    ensures
        ({
            let first = interaction_step(c, s, i);
            let second = interaction_step(c, first.0, i);
            &&& second.0 == first.0
            &&& first.1 is Approved ==> second.1 == ReplyView::Stale
            &&& !(first.1 is Approved) ==> first.0 == s && second.1 == first.1
        }),
{
    let first = interaction_step(c, s, i);
    if first.1 is Approved {
        let id = decimal(i.referenced_message->0 as nat);
        let t = approve_in(s, id);
        assert(!is_pending_in(t, id)) by {
            assert forall|k: int| 0 <= k < t.len() && (#[trigger] t[k]).id == id implies !t[k]
                .is_pending() by {
                assert(s[k].id == id);
            }
        }
    }
}

/// An event that is delivered twice is applied once: the second delivery
/// leaves the queue exactly as the first one left it.
pub proof fn duplicate_delivery_changes_nothing(c: ConfigView, s: Seq<SubmissionView>, e: EventView)
    requires
        store_wf(s),
    ensures
        event_step(c, event_step(c, s, e).0, e).0 == event_step(c, s, e).0,
{
    let t = event_step(c, s, e).0;
    match e {
        EventView::Message(m) => {
            if t != s {
                assert(t[s.len() as int].id == decimal(m.id as nat));
            }
        },
        EventView::Interaction(i) => {
            if t != s {
                let id = decimal(i.referenced_message->0 as nat);
                assert(!is_pending_in(t, id)) by {
                    assert forall|k: int|
                        0 <= k < t.len() && (#[trigger] t[k]).id == id implies !t[k]
                        .is_pending() by {
                        assert(s[k].id == id);
                    }
                }
            }
        },
        EventView::InfoSubmitted(f) => {
            if t != s {
                let id = decimal(f.referenced_message->0 as nat);
                let info = f.form->0;
                let u = event_step(c, t, e).0;
                assert(is_pending_in(t, id)) by {
                    let w = choose|w: int|
                        0 <= w < s.len() && (#[trigger] s[w]).id == id && s[w].is_pending();
                    assert(t[w].id == id && t[w].is_pending());
                }
                assert(u =~= t) by {
                    assert forall|k: int| 0 <= k < t.len() implies u[k] == t[k] by {
                        assert(t[k].id == s[k].id);
                    }
                }
            }
        },
        EventView::Other => {},
    }
}

/// A decision on a submission that was decided already, whichever way, is
/// answered as stale and changes nothing: so a reject after an approve
/// leaves the submission approved.
pub proof fn decided_submission_stays_decided(
    c: ConfigView,
    s: Seq<SubmissionView>,
    i: InteractionView,
    message: u64,
    k: int,
)
    requires
        store_wf(s),
        action_of(i.custom_id) is Some,
        c.curators.contains(i.user_id),
        i.referenced_message == Some(message),
        0 <= k < s.len(),
        s[k].id == decimal(message as nat),
        s[k].approved || s[k].discarded,
    ensures
        interaction_step(c, s, i) == (s, ReplyView::Stale),
{
    lemma_only_at(s, decimal(message as nat), k);
}

/// The annotation form is merged, not written over: in the submission it is
/// handed in for, a field that the form leaves blank keeps its value, a
/// field that the form fills takes the form's value, and nothing else
/// about the submission changes. Every other submission stays as it was.
pub proof fn add_info_merges(
    c: ConfigView,
    s: Seq<SubmissionView>,
    f: InfoSubmissionView,
    info: MoreInfoView,
    message: u64,
)
    requires
        store_wf(s),
        c.curators.contains(f.user_id),
        f.form == Some(info),
        f.referenced_message == Some(message),
        is_pending_in(s, decimal(message as nat)),
    ensures
        ({
            let id = decimal(message as nat);
            let k = find(s, id);
            let t = info_step(c, s, f).0;
            &&& info_step(c, s, f).1 == ReplyView::InfoAdded
            &&& t.len() == s.len()
            &&& 0 <= k < s.len()
            &&& forall|j: int| 0 <= j < s.len() && j != k ==> t[j] == s[j]
            &&& t[k].caption == if is_blank(info.caption) { s[k].caption } else { info.caption }
            &&& t[k].source == if is_blank(info.source) { s[k].source } else { info.source }
            &&& t[k].credit == if is_blank(info.credit) { s[k].credit } else { info.credit }
            &&& t[k].featured == if is_blank(info.featured) { s[k].featured } else { info.featured }
            &&& t[k] == (SubmissionView {
                caption: t[k].caption,
                source: t[k].source,
                credit: t[k].credit,
                featured: t[k].featured,
                ..s[k]
            })
        }),
{
    let id = decimal(message as nat);
    let w = choose|w: int| 0 <= w < s.len() && (#[trigger] s[w]).id == id && s[w].is_pending();
    lemma_find_unique(s, id, w);
    lemma_only_at(s, id, w);
}

/// A message without an attachment never creates a submission, and in the
/// intake channel its sender, unless a bot or blacklisted, is told to attach
/// an image.
pub proof fn no_attachment_no_submission(c: ConfigView, s: Seq<SubmissionView>, m: MessageView)
    requires
        m.attachments.len() == 0,
    ensures
        message_step(c, s, m).0 == s,
        m.channel_id == c.channel_id && !m.author_is_bot && !c.blacklist.contains(m.author_id)
            ==> message_step(c, s, m).1 == ReplyView::AttachmentRequired,
{
}

/// Two messages have the same submission identifier only if they are the
/// same message.
pub proof fn distinct_messages_get_distinct_ids(a: u64, b: u64)
    ensures
        decimal(a as nat) == decimal(b as nat) <==> a == b,
{
    if decimal(a as nat) == decimal(b as nat) {
        lemma_decimal_injective(a as nat, b as nat);
    }
}

/// A message with an attachment, posted in the intake channel by somebody
/// who is neither a bot nor blacklisted, is queued as a pending submission
/// unless that very message is in the queue already; and a second such
/// message, different from the first, is queued after it.
pub proof fn each_message_is_queued_once(
    c: ConfigView,
    s: Seq<SubmissionView>,
    first: MessageView,
    second: MessageView,
)
    requires
        first.channel_id == c.channel_id && second.channel_id == c.channel_id,
        !first.author_is_bot && !second.author_is_bot,
        !c.blacklist.contains(first.author_id) && !c.blacklist.contains(second.author_id),
        first.attachments.len() > 0 && second.attachments.len() > 0,
        !has_id(s, decimal(first.id as nat)),
        !has_id(s, decimal(second.id as nat)),
        first.id != second.id,
    ensures
        ({
            let one = message_step(c, s, first);
            let two = message_step(c, one.0, second);
            let again = message_step(c, two.0, first);
            &&& one.1 is ReviewPrompt
            &&& two.1 is ReviewPrompt
            &&& two.0.len() == s.len() + 2
            &&& two.0[s.len() as int].is_pending()
            &&& two.0[s.len() as int].image_url == first.attachments[0]
            &&& two.0[s.len() as int + 1].is_pending()
            &&& two.0[s.len() as int + 1].image_url == second.attachments[0]
            &&& again == (two.0, ReplyView::AlreadyQueued)
        }),
{
    distinct_messages_get_distinct_ids(first.id, second.id);
    let one = message_step(c, s, first);
    let two = message_step(c, one.0, second);
    assert(!has_id(one.0, decimal(second.id as nat))) by {
        assert forall|i: int| 0 <= i < one.0.len() implies (#[trigger] one.0[i]).id != decimal(
            second.id as nat,
        ) by {
            if i < s.len() {
                assert(one.0[i] == s[i]);
            }
        }
    }
    assert(two.0[s.len() as int].id == decimal(first.id as nat));
}

/// Somebody who is no curator changes nothing, whatever they click, hand in
/// or run, and is told so.
pub proof fn non_curator_changes_nothing(
    c: ConfigView,
    d: DataView,
    i: InteractionView,
    f: InfoSubmissionView,
    actor: u64,
)
    requires
        !c.curators.contains(i.user_id),
        !c.curators.contains(f.user_id),
        !c.curators.contains(actor),
    ensures
        interaction_step(c, d.submissions, i).0 == d.submissions,
        action_of(i.custom_id) is Some ==> interaction_step(c, d.submissions, i).1
            == ReplyView::NotCurator,
        info_step(c, d.submissions, f) == (d.submissions, ReplyView::NotCurator),
        push_step(c, d, actor) == (d, ReplyView::PushDenied),
{
}

/// After a promotion no approved submission is left in the queue.
pub proof fn push_leaves_none_approved(c: ConfigView, d: DataView, actor: u64)
    requires
        c.curators.contains(actor),
    ensures
        approved_of(push_step(c, d, actor).0.submissions) == Seq::<SubmissionView>::empty(),
        forall|j: int|
            0 <= j < push_step(c, d, actor).0.submissions.len() ==> !(
            #[trigger] push_step(c, d, actor).0.submissions[j]).approved,
{
    let rest = unapproved_of(d.submissions);
    assert forall|j: int| 0 <= j < rest.len() implies !(#[trigger] rest[j]).approved by {
        d.submissions.lemma_filter_pred(|r: SubmissionView| !r.approved, j);
    }
    lemma_filter_keeps_none(rest, |r: SubmissionView| r.approved);
}

/// A promotion that runs right after another promotes nothing: it reports
/// zero and leaves the queue and the catalog as the first run left them.
pub proof fn push_twice_promotes_once(
    c: ConfigView,
    d: DataView,
    first_actor: u64,
    second_actor: u64,
)
    requires
        c.curators.contains(first_actor),
        c.curators.contains(second_actor),
    ensures
        ({
            let first = push_step(c, d, first_actor);
            push_step(c, first.0, second_actor) == (first.0, ReplyView::Pushed { count: 0 })
        }),
{
    let first = push_step(c, d, first_actor).0;
    let rest = first.submissions;
    push_leaves_none_approved(c, d, first_actor);
    lemma_filter_keeps_all(rest, |r: SubmissionView| !r.approved);
    let none = Seq::<SubmissionView>::empty();
    lemma_filter_keeps_none(none, |r: SubmissionView| !has_entry(first.catalog, r.id));
    assert(catalog_after(first.catalog, none) =~= first.catalog);
}

} // verus!
