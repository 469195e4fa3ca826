//! The submission record and its three-state lifecycle.
//!
//! A record starts out pending. A curator may approve it or discard it, once;
//! either decision is final. Annotations can be merged in while it is pending.

use vstd::prelude::*;

verus! {

/// The view of an optional string.
pub open spec fn opt_view(o: Option<String>) -> Option<Seq<char>> {
    match o {
        Some(s) => Some(s@),
        None => None,
    }
}

/// A form field is blank when it is absent or holds no character.
pub open spec fn is_blank(field: Option<Seq<char>>) -> bool {
    match field {
        Some(s) => s.len() == 0,
        None => true,
    }
}

/// Merging one annotation: a blank field keeps what was there before.
pub open spec fn merge_field(prior: Option<Seq<char>>, given: Option<Seq<char>>) -> Option<
    Seq<char>,
> {
    if is_blank(given) {
        prior
    } else {
        given
    }
}

/// Where a submission stands in its lifecycle.
#[derive(Clone, Copy, Debug, PartialEq, Eq, Structural)]
pub enum Status {
    Pending,
    Approved,
    Discarded,
}

/// What a curator entered into the annotation form. Every field is optional.
#[derive(Clone, Debug, PartialEq, Eq)]
pub struct MoreInfoModal {
    pub credit: Option<String>,
    pub source: Option<String>,
    pub caption: Option<String>,
    /// The plushie featured in the image.
    pub featured: Option<String>,
}

/// The mathematical content of a [`MoreInfoModal`].
pub struct MoreInfoView {
    pub credit: Option<Seq<char>>,
    pub source: Option<Seq<char>>,
    pub caption: Option<Seq<char>>,
    pub featured: Option<Seq<char>>,
}

impl View for MoreInfoModal {
    type V = MoreInfoView;

    open spec fn view(&self) -> MoreInfoView {
        MoreInfoView {
            credit: opt_view(self.credit),
            source: opt_view(self.source),
            caption: opt_view(self.caption),
            featured: opt_view(self.featured),
        }
    }
}

/// A candidate entry awaiting curation.
#[derive(Debug, PartialEq, Eq)]
pub struct SubmissionDoc {
    _id: String,
    image_url: String,
    caption: Option<String>,
    source: Option<String>,
    credit: Option<String>,
    featured: Option<String>,
    approved: bool,
    discarded: bool,
    discord_submitter_id: String,
    time_of_submission: i64,
}

/// The mathematical content of a [`SubmissionDoc`].
pub struct SubmissionView {
    pub id: Seq<char>,
    pub image_url: Seq<char>,
    pub caption: Option<Seq<char>>,
    pub source: Option<Seq<char>>,
    pub credit: Option<Seq<char>>,
    pub featured: Option<Seq<char>>,
    pub approved: bool,
    pub discarded: bool,
    pub submitter_id: Seq<char>,
    pub submitted_at: i64,
}

impl SubmissionView {
    /// A record as ingestion creates it: undecided and without annotations.
    pub open spec fn fresh(
        id: Seq<char>,
        image_url: Seq<char>,
        submitter_id: Seq<char>,
        submitted_at: i64,
    ) -> SubmissionView {
        SubmissionView {
            id,
            image_url,
            caption: None,
            source: None,
            credit: None,
            featured: None,
            approved: false,
            discarded: false,
            submitter_id,
            submitted_at,
        }
    }

    /// The two decision flags exclude each other.
    pub open spec fn wf(self) -> bool {
        !(self.approved && self.discarded)
    }

    pub open spec fn is_pending(self) -> bool {
        !self.approved && !self.discarded
    }

    pub open spec fn status(self) -> Status {
        if self.approved {
            Status::Approved
        } else if self.discarded {
            Status::Discarded
        } else {
            Status::Pending
        }
    }

    /// The approve transition: applies to a pending record, and to no other.
    pub open spec fn approve(self) -> SubmissionView {
        if self.is_pending() {
            SubmissionView { approved: true, ..self }
        } else {
            self
        }
    }

    /// The reject transition: applies to a pending record, and to no other.
    pub open spec fn reject(self) -> SubmissionView {
        if self.is_pending() {
            SubmissionView { discarded: true, ..self }
        } else {
            self
        }
    }

    /// The annotate transition: merges the form into a pending record field
    /// by field, and leaves a decided record alone.
    pub open spec fn add_info(self, info: MoreInfoView) -> SubmissionView {
        if self.is_pending() {
            SubmissionView {
                caption: merge_field(self.caption, info.caption),
                source: merge_field(self.source, info.source),
                credit: merge_field(self.credit, info.credit),
                featured: merge_field(self.featured, info.featured),
                ..self
            }
        } else {
            self
        }
    }
}

impl View for SubmissionDoc {
    type V = SubmissionView;

    closed spec fn view(&self) -> SubmissionView {
        SubmissionView {
            id: self._id@,
            image_url: self.image_url@,
            caption: opt_view(self.caption),
            source: opt_view(self.source),
            credit: opt_view(self.credit),
            featured: opt_view(self.featured),
            approved: self.approved,
            discarded: self.discarded,
            submitter_id: self.discord_submitter_id@,
            submitted_at: self.time_of_submission,
        }
    }
}

/// Copies an optional string.
pub fn clone_opt(o: &Option<String>) -> (r: Option<String>)
    ensures
        opt_view(r) == opt_view(*o),
{
    match o {
        Some(s) => Some(s.clone()),
        None => None,
    }
}

/// Merges one form field into an annotation that a record already has.
pub fn merge_into(prior: Option<String>, given: Option<String>) -> (r: Option<String>)
    ensures
        opt_view(r) == merge_field(opt_view(prior), opt_view(given)),
{
    match given {
        Some(s) => {
            if s.as_str().is_empty() {
                prior
            } else {
                Some(s)
            }
        },
        None => prior,
    }
}

impl SubmissionDoc {
    /// The record's invariant: the two decision flags exclude each other.
    #[verifier::type_invariant]
    pub open spec fn wf(&self) -> bool {
        self@.wf()
    }

    /// Creates the record for a newly submitted image.
    pub fn new(
        id: String,
        image_url: String,
        submitter_id: String,
        submitted_at: i64,
    ) -> (r: SubmissionDoc)
        ensures
            r@ == SubmissionView::fresh(id@, image_url@, submitter_id@, submitted_at),
    {
        SubmissionDoc {
            _id: id,
            image_url,
            caption: None,
            source: None,
            credit: None,
            featured: None,
            approved: false,
            discarded: false,
            discord_submitter_id: submitter_id,
            time_of_submission: submitted_at,
        }
    }

    /// Rebuilds a record from what was persisted earlier. A record that claims
    /// to be both approved and discarded is refused.
    pub fn restore(
        id: String,
        image_url: String,
        info: MoreInfoModal,
        approved: bool,
        discarded: bool,
        submitter_id: String,
        submitted_at: i64,
    ) -> (r: Option<SubmissionDoc>)
        ensures
            r is Some <==> !(approved && discarded),
            r matches Some(doc) ==> doc@ == (SubmissionView {
                id: id@,
                image_url: image_url@,
                caption: info@.caption,
                source: info@.source,
                credit: info@.credit,
                featured: info@.featured,
                approved,
                discarded,
                submitter_id: submitter_id@,
                submitted_at,
            }),
    {
        if approved && discarded {
            None
        } else {
            Some(
                SubmissionDoc {
                    _id: id,
                    image_url,
                    caption: info.caption,
                    source: info.source,
                    credit: info.credit,
                    featured: info.featured,
                    approved,
                    discarded,
                    discord_submitter_id: submitter_id,
                    time_of_submission: submitted_at,
                },
            )
        }
    }

    pub fn id(&self) -> (r: &String)
        ensures
            r@ == self@.id,
    {
        &self._id
    }

    pub fn image_url(&self) -> (r: &String)
        ensures
            r@ == self@.image_url,
    {
        &self.image_url
    }

    pub fn caption(&self) -> (r: &Option<String>)
        ensures
            opt_view(*r) == self@.caption,
    {
        &self.caption
    }

    pub fn source(&self) -> (r: &Option<String>)
        ensures
            opt_view(*r) == self@.source,
    {
        &self.source
    }

    pub fn credit(&self) -> (r: &Option<String>)
        ensures
            opt_view(*r) == self@.credit,
    {
        &self.credit
    }

    pub fn featured(&self) -> (r: &Option<String>)
        ensures
            opt_view(*r) == self@.featured,
    {
        &self.featured
    }

    pub fn approved(&self) -> (r: bool)
        ensures
            r == self@.approved,
    {
        self.approved
    }

    pub fn discarded(&self) -> (r: bool)
        ensures
            r == self@.discarded,
    {
        self.discarded
    }

    pub fn submitter_id(&self) -> (r: &String)
        ensures
            r@ == self@.submitter_id,
    {
        &self.discord_submitter_id
    }

    pub fn submitted_at(&self) -> (r: i64)
        ensures
            r == self@.submitted_at,
    {
        self.time_of_submission
    }

    pub fn is_pending(&self) -> (r: bool)
        ensures
            r == self@.is_pending(),
    {
        !self.approved && !self.discarded
    }

    /// Where the record stands. Whatever record this is, its two decision
    /// flags are not both set.
    pub fn status(&self) -> (r: Status)
        ensures
            r == self@.status(),
            !(self@.approved && self@.discarded),
    {
        proof {
            use_type_invariant(self);
        }
        if self.approved {
            Status::Approved
        } else if self.discarded {
            Status::Discarded
        } else {
            Status::Pending
        }
    }

    /// Approves the record if it is pending. Says whether it did.
    pub fn approve(&mut self) -> (applied: bool)
        ensures
            applied == old(self)@.is_pending(),
            final(self)@ == old(self)@.approve(),
    {
        if !self.approved && !self.discarded {
            self.approved = true;
            true
        } else {
            false
        }
    }

    /// Discards the record if it is pending. Says whether it did.
    pub fn reject(&mut self) -> (applied: bool)
        ensures
            applied == old(self)@.is_pending(),
            final(self)@ == old(self)@.reject(),
    {
        if !self.approved && !self.discarded {
            self.discarded = true;
            true
        } else {
            false
        }
    }

    /// Merges the form into the record if it is pending. Says whether it did.
    pub fn add_info(&mut self, info: MoreInfoModal) -> (applied: bool)
        ensures
            applied == old(self)@.is_pending(),
            final(self)@ == old(self)@.add_info(info@),
    {
        if !self.approved && !self.discarded {
            let MoreInfoModal { credit, source, caption, featured } = info;
            self.caption = merge_into(clone_opt(&self.caption), caption);
            self.source = merge_into(clone_opt(&self.source), source);
            self.credit = merge_into(clone_opt(&self.credit), credit);
            self.featured = merge_into(clone_opt(&self.featured), featured);
            true
        } else {
            false
        }
    }
}

impl Clone for SubmissionDoc {
    fn clone(&self) -> (r: SubmissionDoc)
        ensures
            r@ == self@,
    {
        proof {
            use_type_invariant(self);
        }
        SubmissionDoc {
            _id: self._id.clone(),
            image_url: self.image_url.clone(),
            caption: clone_opt(&self.caption),
            source: clone_opt(&self.source),
            credit: clone_opt(&self.credit),
            featured: clone_opt(&self.featured),
            approved: self.approved,
            discarded: self.discarded,
            discord_submitter_id: self.discord_submitter_id.clone(),
            time_of_submission: self.time_of_submission,
        }
    }
}

} // verus!
