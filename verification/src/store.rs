//! The submission store: the review queue, keyed by the identifier of the
//! message that each submission came from.
//!
//! Every change to a record goes through a conditional update: it applies
//! only while the record is pending, so a decision is taken at most once
//! however often or in whatever order the requests arrive.

use crate::submission::{MoreInfoModal, MoreInfoView, SubmissionDoc, SubmissionView};
use vstd::prelude::*;

verus! {

/// Whether some record of `s` goes by `id`.
pub open spec fn has_id(s: Seq<SubmissionView>, id: Seq<char>) -> bool {
    exists|i: int| 0 <= i < s.len() && (#[trigger] s[i]).id == id
}

/// No two records share an identifier.
pub open spec fn ids_unique(s: Seq<SubmissionView>) -> bool {
    forall|i: int, j: int| 0 <= i < j < s.len() ==> (#[trigger] s[i]).id != (#[trigger] s[j]).id
}

/// In no record are both decision flags set.
pub open spec fn flags_exclusive(s: Seq<SubmissionView>) -> bool {
    forall|i: int| 0 <= i < s.len() ==> (#[trigger] s[i]).wf()
}

/// The invariant of the review queue.
pub open spec fn store_wf(s: Seq<SubmissionView>) -> bool {
    ids_unique(s) && flags_exclusive(s)
}

/// The position of the record that goes by `id`, where there is one.
pub open spec fn find(s: Seq<SubmissionView>, id: Seq<char>) -> int {
    choose|i: int| 0 <= i < s.len() && (#[trigger] s[i]).id == id
}

/// Whether the record that goes by `id` exists and is still undecided.
pub open spec fn is_pending_in(s: Seq<SubmissionView>, id: Seq<char>) -> bool {
    exists|i: int| 0 <= i < s.len() && (#[trigger] s[i]).id == id && s[i].is_pending()
}

/// The queue after an attempt to insert `record`: it is appended unless its
/// identifier is taken, in which case nothing changes.
pub open spec fn insert_record(s: Seq<SubmissionView>, record: SubmissionView) -> Seq<
    SubmissionView,
> {
    if has_id(s, record.id) {
        s
    } else {
        s.push(record)
    }
}

/// The queue after the conditional approve of `id`.
pub open spec fn approve_in(s: Seq<SubmissionView>, id: Seq<char>) -> Seq<SubmissionView> {
    s.map_values(
        |r: SubmissionView|
            if r.id == id {
                r.approve()
            } else {
                r
            },
    )
}

/// The queue after the conditional reject of `id`.
pub open spec fn reject_in(s: Seq<SubmissionView>, id: Seq<char>) -> Seq<SubmissionView> {
    s.map_values(
        |r: SubmissionView|
            if r.id == id {
                r.reject()
            } else {
                r
            },
    )
}

/// The queue after the conditional merge of `info` into `id`.
pub open spec fn add_info_in(s: Seq<SubmissionView>, id: Seq<char>, info: MoreInfoView) -> Seq<
    SubmissionView,
> {
    s.map_values(
        |r: SubmissionView|
            if r.id == id {
                r.add_info(info)
            } else {
                r
            },
    )
}

/// The queue without the record that goes by `id`.
pub open spec fn delete_in(s: Seq<SubmissionView>, id: Seq<char>) -> Seq<SubmissionView> {
    s.filter(|r: SubmissionView| r.id != id)
}

/// In a queue with unique identifiers, a record found under `id` is the one
/// that `find` names.
pub proof fn lemma_find_unique(s: Seq<SubmissionView>, id: Seq<char>, i: int)
    requires
        ids_unique(s),
        0 <= i < s.len(),
        s[i].id == id,
    ensures
        has_id(s, id),
        find(s, id) == i,
{
    let k = find(s, id);
    assert(0 <= k < s.len() && s[k].id == id);
    if k < i {
        assert(s[k].id != s[i].id);
    } else if i < k {
        assert(s[i].id != s[k].id);
    }
}

/// Where no record is excluded, filtering keeps the whole sequence.
pub proof fn lemma_filter_keeps_all(s: Seq<SubmissionView>, p: spec_fn(SubmissionView) -> bool)
    requires
        forall|i: int| 0 <= i < s.len() ==> p(#[trigger] s[i]),
    ensures
        s.filter(p) == s,
    decreases s.len(),
{
    reveal(Seq::filter);
    if s.len() > 0 {
        let rest = s.drop_last();
        assert forall|i: int| 0 <= i < rest.len() implies p(#[trigger] rest[i]) by {
            assert(rest[i] == s[i]);
        }
        lemma_filter_keeps_all(rest, p);
        assert(rest.push(s.last()) =~= s);
    }
}

/// Where every record is excluded, filtering keeps nothing.
pub proof fn lemma_filter_keeps_none(s: Seq<SubmissionView>, p: spec_fn(SubmissionView) -> bool)
    requires
        forall|i: int| 0 <= i < s.len() ==> !p(#[trigger] s[i]),
    ensures
        s.filter(p) == Seq::<SubmissionView>::empty(),
    decreases s.len(),
{
    reveal(Seq::filter);
    if s.len() > 0 {
        let rest = s.drop_last();
        assert forall|i: int| 0 <= i < rest.len() implies !p(#[trigger] rest[i]) by {
            assert(rest[i] == s[i]);
        }
        lemma_filter_keeps_none(rest, p);
    } else {
        assert(s =~= Seq::<SubmissionView>::empty());
    }
}

/// In a queue with unique identifiers, deleting by identifier removes the one
/// record at its position.
pub proof fn lemma_delete_removes(s: Seq<SubmissionView>, id: Seq<char>, i: int)
    requires
        ids_unique(s),
        0 <= i < s.len(),
        s[i].id == id,
    ensures
        delete_in(s, id) == s.remove(i),
    decreases s.len(),
{
    let p = |r: SubmissionView| r.id != id;
    reveal(Seq::filter);
    let rest = s.drop_last();
    if i == s.len() - 1 {
        assert forall|j: int| 0 <= j < rest.len() implies p(#[trigger] rest[j]) by {
            assert(rest[j] == s[j]);
        }
        lemma_filter_keeps_all(rest, p);
        assert(s.remove(i) =~= rest);
    } else {
        assert(rest[i] == s[i]);
        assert(ids_unique(rest)) by {
            assert forall|a: int, b: int| 0 <= a < b < rest.len() implies (#[trigger] rest[a]).id
                != (#[trigger] rest[b]).id by {
                assert(rest[a] == s[a] && rest[b] == s[b]);
            }
        }
        lemma_delete_removes(rest, id, i);
        assert(s[i].id != s.last().id);
        assert(rest.remove(i).push(s.last()) =~= s.remove(i));
    }
}

/// Deleting an identifier that no record goes by changes nothing.
pub proof fn lemma_delete_absent(s: Seq<SubmissionView>, id: Seq<char>)
    requires
        !has_id(s, id),
    ensures
        delete_in(s, id) == s,
{
    lemma_filter_keeps_all(s, |r: SubmissionView| r.id != id);
}

/// The review queue.
#[derive(Debug)]
pub struct SubmissionStore {
    records: Vec<SubmissionDoc>,
}

impl View for SubmissionStore {
    type V = Seq<SubmissionView>;

    closed spec fn view(&self) -> Seq<SubmissionView> {
        self.records@.map_values(|r: SubmissionDoc| r@)
    }
}

impl SubmissionStore {
    /// The store's invariant: identifiers are unique, and in no record are
    /// both decision flags set.
    #[verifier::type_invariant]
    pub open spec fn wf(&self) -> bool {
        store_wf(self@)
    }

    /// Takes the records out and leaves the store empty.
    fn take(&mut self) -> (records: Vec<SubmissionDoc>)
        ensures
            docs_view(records@) == old(self)@,
            store_wf(docs_view(records@)),
            final(self)@ == Seq::<SubmissionView>::empty(),
    {
        proof {
            use_type_invariant(&*self);
        }
        let mut records: Vec<SubmissionDoc> = Vec::new();
        assert(docs_view(records@) =~= Seq::<SubmissionView>::empty());
        core::mem::swap(&mut self.records, &mut records);
        records
    }

    /// Puts records into the store, in place of what it holds.
    fn put(&mut self, records: Vec<SubmissionDoc>)
        requires
            store_wf(docs_view(records@)),
        ensures
            final(self)@ == docs_view(records@),
    {
        let mut records = records;
        core::mem::swap(&mut self.records, &mut records);
    }

    pub fn new() -> (r: SubmissionStore)
        ensures
            r@ == Seq::<SubmissionView>::empty(),
            r.wf(),
    {
        let r = SubmissionStore { records: Vec::new() };
        assert(r@ =~= Seq::<SubmissionView>::empty());
        r
    }

    pub fn len(&self) -> (n: usize)
        ensures
            n == self@.len(),
    {
        self.records.len()
    }

    /// The record at position `i`, in insertion order.
    pub fn record_at(&self, i: usize) -> (r: Option<&SubmissionDoc>)
        ensures
            r is Some <==> i < self@.len(),
            r matches Some(d) ==> d@ == self@[i as int],
    {
        if i < self.records.len() {
            Some(&self.records[i])
        } else {
            None
        }
    }

    /// The record at position `i`, which has to be one.
    pub(crate) fn record(&self, i: usize) -> (r: &SubmissionDoc)
        requires
            i < self@.len(),
        ensures
            r@ == self@[i as int],
    {
        &self.records[i]
    }

    fn position(&self, id: &String) -> (r: Option<usize>)
        ensures
            r is Some <==> has_id(self@, id@),
            r matches Some(i) ==> i < self@.len() && self@[i as int].id == id@,
    {
        let mut i: usize = 0;
        while i < self.records.len()
            invariant
                i <= self.records.len(),
                forall|j: int| 0 <= j < i ==> (#[trigger] self@[j]).id != id@,
            decreases self.records.len() - i,
        {
            if *self.records[i].id() == *id {
                return Some(i);
            }
            i += 1;
        }
        None
    }

    /// Whether a record goes by `id`.
    pub fn contains(&self, id: &String) -> (r: bool)
        ensures
            r == has_id(self@, id@),
    {
        self.position(id).is_some()
    }

    /// The record that goes by `id`.
    pub fn get(&self, id: &String) -> (r: Option<&SubmissionDoc>)
        ensures
            r is Some <==> has_id(self@, id@),
            r matches Some(d) ==> d@ == self@[find(self@, id@)],
    {
        match self.position(id) {
            Some(i) => {
                proof {
                    use_type_invariant(self);
                    lemma_find_unique(self@, id@, i as int);
                }
                Some(&self.records[i])
            },
            None => None,
        }
    }

    /// Inserts `record` unless its identifier is taken. Says whether it did.
    pub fn insert(&mut self, record: SubmissionDoc) -> (inserted: bool)
        ensures
            final(self).wf(),
            inserted == !has_id(old(self)@, record@.id),
            final(self)@ == insert_record(old(self)@, record@),
    {
        proof {
            use_type_invariant(&*self);
            use_type_invariant(&record);
        }
        if self.position(record.id()).is_some() {
            false
        } else {
            let ghost before = self@;
            let ghost r = record@;
            let mut records = self.take();
            records.push(record);
            assert(docs_view(records@) =~= before.push(r));
            self.put(records);
            true
        }
    }

    /// The conditional approve: sets `approved` on the record that goes by
    /// `id` if that record is pending. Says whether it did.
    pub fn approve(&mut self, id: &String) -> (applied: bool)
        ensures
            final(self).wf(),
            applied == is_pending_in(old(self)@, id@),
            final(self)@ == approve_in(old(self)@, id@),
    {
        let ghost before = self@;
        proof {
            use_type_invariant(&*self);
            lemma_approve_keeps_wf(before, id@);
        }
        match self.position(id) {
            Some(i) => {
                let mut records = self.take();
                let mut record = records.remove(i);
                let applied = record.approve();
                let ghost after = record@;
                records.insert(i, record);
                proof {
                    lemma_only_at(before, id@, i as int);
                    assert(docs_view(records@) =~= before.update(i as int, after));
                    assert(before.update(i as int, after) =~= approve_in(before, id@));
                }
                self.put(records);
                applied
            },
            None => {
                proof {
                    assert(before =~= approve_in(before, id@));
                }
                false
            },
        }
    }

    /// The conditional reject: sets `discarded` on the record that goes by
    /// `id` if that record is pending. Says whether it did.
    pub fn reject(&mut self, id: &String) -> (applied: bool)
        ensures
            final(self).wf(),
            applied == is_pending_in(old(self)@, id@),
            final(self)@ == reject_in(old(self)@, id@),
    {
        let ghost before = self@;
        proof {
            use_type_invariant(&*self);
            lemma_reject_keeps_wf(before, id@);
        }
        match self.position(id) {
            Some(i) => {
                let mut records = self.take();
                let mut record = records.remove(i);
                let applied = record.reject();
                let ghost after = record@;
                records.insert(i, record);
                proof {
                    lemma_only_at(before, id@, i as int);
                    assert(docs_view(records@) =~= before.update(i as int, after));
                    assert(before.update(i as int, after) =~= reject_in(before, id@));
                }
                self.put(records);
                applied
            },
            None => {
                proof {
                    assert(before =~= reject_in(before, id@));
                }
                false
            },
        }
    }

    /// The conditional merge: merges `info` into the record that goes by `id`
    /// if that record is pending. Says whether it did.
    pub fn add_info(&mut self, id: &String, info: MoreInfoModal) -> (applied: bool)
        ensures
            final(self).wf(),
            applied == is_pending_in(old(self)@, id@),
            final(self)@ == add_info_in(old(self)@, id@, info@),
    {
        let ghost before = self@;
        let ghost form = info@;
        proof {
            use_type_invariant(&*self);
            lemma_add_info_keeps_wf(before, id@, form);
        }
        match self.position(id) {
            Some(i) => {
                let mut records = self.take();
                let mut record = records.remove(i);
                let applied = record.add_info(info);
                let ghost after = record@;
                records.insert(i, record);
                proof {
                    lemma_only_at(before, id@, i as int);
                    assert(docs_view(records@) =~= before.update(i as int, after));
                    assert(before.update(i as int, after) =~= add_info_in(before, id@, form));
                }
                self.put(records);
                applied
            },
            None => {
                proof {
                    assert(before =~= add_info_in(before, id@, form));
                }
                false
            },
        }
    }

    /// Removes the record that goes by `id` and hands it out.
    pub fn delete(&mut self, id: &String) -> (removed: Option<SubmissionDoc>)
        ensures
            final(self).wf(),
            removed is Some <==> has_id(old(self)@, id@),
            removed matches Some(d) ==> d@ == old(self)@[find(old(self)@, id@)],
            final(self)@ == delete_in(old(self)@, id@),
    {
        let ghost before = self@;
        proof {
            use_type_invariant(&*self);
        }
        match self.position(id) {
            Some(i) => {
                let mut records = self.take();
                let record = records.remove(i);
                proof {
                    lemma_find_unique(before, id@, i as int);
                    lemma_delete_removes(before, id@, i as int);
                    assert(docs_view(records@) =~= before.remove(i as int));
                    lemma_remove_keeps_wf(before, i as int);
                }
                self.put(records);
                Some(record)
            },
            None => {
                proof {
                    lemma_delete_absent(before, id@);
                }
                None
            },
        }
    }

    /// Copies of the approved records, in the order of the queue: what the
    /// next promotion will take.
    pub fn approved(&self) -> (found: Vec<SubmissionDoc>)
        ensures
            docs_view(found@) == approved_of(self@),
    {
        let mut found: Vec<SubmissionDoc> = Vec::new();
        let mut i: usize = 0;
        assert(self@.take(0) =~= Seq::<SubmissionView>::empty());
        proof {
            lemma_filter_keeps_none(self@.take(0), |r: SubmissionView| r.approved);
        }
        assert(docs_view(found@) =~= approved_of(self@.take(0)));
        while i < self.records.len()
            invariant
                i <= self.records.len(),
                docs_view(found@) == approved_of(self@.take(i as int)),
            decreases self.records.len() - i,
        {
            let ghost seen = self@.take(i as int);
            let ghost sofar = found@;
            assert(self@.take(i + 1) =~= seen.push(self@[i as int]));
            proof {
                seen.lemma_filter_push(self@[i as int], |r: SubmissionView| r.approved);
            }
            if self.records[i].approved() {
                found.push(self.records[i].clone());
                assert(docs_view(found@) =~= docs_view(sofar).push(self@[i as int]));
            }
            i += 1;
        }
        assert(self@.take(i as int) =~= self@);
        found
    }
}

/// The views of a sequence of records.
pub open spec fn docs_view(docs: Seq<SubmissionDoc>) -> Seq<SubmissionView> {
    docs.map_values(|d: SubmissionDoc| d@)
}

/// The approved records of the queue, in its order.
pub open spec fn approved_of(s: Seq<SubmissionView>) -> Seq<SubmissionView> {
    s.filter(|r: SubmissionView| r.approved)
}

/// The records of the queue that are not approved, in its order.
pub open spec fn unapproved_of(s: Seq<SubmissionView>) -> Seq<SubmissionView> {
    s.filter(|r: SubmissionView| !r.approved)
}

/// In a queue with unique identifiers, the record at `i` is the only one
/// that goes by its identifier, and the only one whose state decides whether
/// that identifier is pending.
pub proof fn lemma_only_at(s: Seq<SubmissionView>, id: Seq<char>, i: int)
    requires
        ids_unique(s),
        0 <= i < s.len(),
        s[i].id == id,
    ensures
        forall|j: int| 0 <= j < s.len() && j != i ==> (#[trigger] s[j]).id != id,
        is_pending_in(s, id) == s[i].is_pending(),
{
    assert forall|j: int| 0 <= j < s.len() && j != i implies (#[trigger] s[j]).id != id by {
        if j < i {
            assert(s[j].id != s[i].id);
        } else {
            assert(s[i].id != s[j].id);
        }
    }
}

/// The conditional approve keeps the queue's invariant.
pub proof fn lemma_approve_keeps_wf(s: Seq<SubmissionView>, id: Seq<char>)
    requires
        store_wf(s),
    ensures
        store_wf(approve_in(s, id)),
{
    let t = approve_in(s, id);
    assert forall|i: int, j: int| 0 <= i < j < t.len() implies (#[trigger] t[i]).id != (
    #[trigger] t[j]).id by {
        assert(t[i].id == s[i].id && t[j].id == s[j].id);
    }
    assert forall|i: int| 0 <= i < t.len() implies (#[trigger] t[i]).wf() by {
        assert(s[i].wf());
    }
}

/// The conditional reject keeps the queue's invariant.
pub proof fn lemma_reject_keeps_wf(s: Seq<SubmissionView>, id: Seq<char>)
    requires
        store_wf(s),
    ensures
        store_wf(reject_in(s, id)),
{
    let t = reject_in(s, id);
    assert forall|i: int, j: int| 0 <= i < j < t.len() implies (#[trigger] t[i]).id != (
    #[trigger] t[j]).id by {
        assert(t[i].id == s[i].id && t[j].id == s[j].id);
    }
    assert forall|i: int| 0 <= i < t.len() implies (#[trigger] t[i]).wf() by {
        assert(s[i].wf());
    }
}

/// The conditional merge keeps the queue's invariant.
pub proof fn lemma_add_info_keeps_wf(s: Seq<SubmissionView>, id: Seq<char>, info: MoreInfoView)
    requires
        store_wf(s),
    ensures
        store_wf(add_info_in(s, id, info)),
{
    let t = add_info_in(s, id, info);
    assert forall|i: int, j: int| 0 <= i < j < t.len() implies (#[trigger] t[i]).id != (
    #[trigger] t[j]).id by {
        assert(t[i].id == s[i].id && t[j].id == s[j].id);
    }
    assert forall|i: int| 0 <= i < t.len() implies (#[trigger] t[i]).wf() by {
        assert(s[i].wf());
    }
}

/// Taking a record out keeps the queue's invariant.
pub proof fn lemma_remove_keeps_wf(s: Seq<SubmissionView>, i: int)
    requires
        store_wf(s),
        0 <= i < s.len(),
    ensures
        store_wf(s.remove(i)),
{
    let t = s.remove(i);
    assert forall|a: int, b: int| 0 <= a < b < t.len() implies (#[trigger] t[a]).id != (
    #[trigger] t[b]).id by {
        let a0 = if a < i { a } else { a + 1 };
        let b0 = if b < i { b } else { b + 1 };
        assert(t[a] == s[a0] && t[b] == s[b0]);
    }
    assert forall|a: int| 0 <= a < t.len() implies (#[trigger] t[a]).wf() by {
        let a0 = if a < i { a } else { a + 1 };
        assert(t[a] == s[a0]);
    }
}

impl Clone for SubmissionStore {
    fn clone(&self) -> (r: SubmissionStore)
        ensures
            r@ == self@,
    {
        proof {
            use_type_invariant(self);
        }
        let mut records: Vec<SubmissionDoc> = Vec::new();
        let mut i: usize = 0;
        while i < self.records.len()
            invariant
                i <= self.records.len(),
                docs_view(records@) == self@.take(i as int),
            decreases self.records.len() - i,
        {
            let ghost sofar = records@;
            let copy = self.records[i].clone();
            assert(copy@ == self@[i as int]);
            records.push(copy);
            assert(docs_view(records@) =~= docs_view(sofar).push(self@[i as int]));
            assert(self@.take(i + 1) =~= self@.take(i as int).push(self@[i as int]));
            i += 1;
        }
        assert(self@.take(i as int) =~= self@);
        SubmissionStore { records }
    }
}

} // verus!
