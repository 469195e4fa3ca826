//! The handlers: each takes the configuration, the two stores and one event,
//! changes the stores as the lifecycle allows, and returns the reply that the
//! caller delivers.

use crate::catalog::{entry_ids_unique, CatalogStore, FumoView};
use crate::config::{Config, ConfigView};
use crate::event::{
    action_of, ActionTag, Event, EventView, InfoSubmission, InfoSubmissionView, Interaction,
    InteractionView, MessageView, NewMessage,
};
use crate::reply::{Reply, ReplyView};
use crate::store::{
    add_info_in, approve_in, find, has_id, is_pending_in, lemma_only_at, reject_in, store_wf,
    SubmissionStore,
};
use crate::submission::{SubmissionDoc, SubmissionView};
use crate::text::{decimal, decimal_string, is_ping, lowercase, to_lowercase};
use vstd::prelude::*;

verus! {

/// The state that the handlers share: the review queue and the catalog.
#[derive(Clone, Debug)]
pub struct Data {
    pub submissions_collection: SubmissionStore,
    pub fumos_collection: CatalogStore,
}

/// The mathematical content of a [`Data`].
pub struct DataView {
    pub submissions: Seq<SubmissionView>,
    pub catalog: Seq<FumoView>,
}

/// The invariant of the shared state: that of each store.
pub open spec fn data_wf(d: DataView) -> bool {
    store_wf(d.submissions) && entry_ids_unique(d.catalog)
}

impl View for Data {
    type V = DataView;

    open spec fn view(&self) -> DataView {
        DataView { submissions: self.submissions_collection@, catalog: self.fumos_collection@ }
    }
}

impl Data {
    pub open spec fn wf(&self) -> bool {
        data_wf(self@)
    }

    /// Two empty stores.
    pub fn new() -> (r: Data)
        ensures
            r@.submissions == Seq::<SubmissionView>::empty(),
            r@.catalog == Seq::<FumoView>::empty(),
            r.wf(),
    {
        Data {
            submissions_collection: SubmissionStore::new(),
            fumos_collection: CatalogStore::new(),
        }
    }
}

/// Ingestion. A message of a bot or of a blacklisted user is dropped. In the
/// intake channel a message without an attachment is turned away, and any
/// other becomes a pending submission, keyed by the message's identifier
/// and holding the first attachment; a message that is queued already is
/// not queued again. Elsewhere a ping of another user is answered.
pub open spec fn message_step(c: ConfigView, s: Seq<SubmissionView>, m: MessageView) -> (
    Seq<SubmissionView>,
    ReplyView,
) {
    if m.author_is_bot || c.blacklist.contains(m.author_id) {
        (s, ReplyView::Nothing)
    } else if m.channel_id == c.channel_id {
        if m.attachments.len() == 0 {
            (s, ReplyView::AttachmentRequired)
        } else if has_id(s, decimal(m.id as nat)) {
            (s, ReplyView::AlreadyQueued)
        } else {
            (
                s.push(
                    SubmissionView::fresh(
                        decimal(m.id as nat),
                        m.attachments[0],
                        decimal(m.author_id as nat),
                        m.timestamp,
                    ),
                ),
                ReplyView::ReviewPrompt {
                    submitter: decimal(m.author_id as nat),
                    message: m.id,
                },
            )
        }
    } else if lowercase(m.content) == "ping"@ && m.author_id != c.bot_user_id {
        (s, ReplyView::Pong)
    } else {
        (s, ReplyView::Nothing)
    }
}

/// A decision. An unknown tag is ignored. Otherwise the actor has to be a
/// curator, the prompt has to lead back to a message, and the submission of
/// that message has to be pending: then approve and reject set their flag
/// and tell the submitter, and add-info opens the form. In every other case
/// the queue stays as it is.
pub open spec fn interaction_step(c: ConfigView, s: Seq<SubmissionView>, i: InteractionView) -> (
    Seq<SubmissionView>,
    ReplyView,
) {
    match action_of(i.custom_id) {
        None => (s, ReplyView::Nothing),
        Some(action) => if !c.curators.contains(i.user_id) {
            (s, ReplyView::NotCurator)
        } else {
            match i.referenced_message {
                None => (s, ReplyView::LookupFailed),
                Some(message) => {
                    let id = decimal(message as nat);
                    if !is_pending_in(s, id) {
                        (s, ReplyView::Stale)
                    } else {
                        match action {
                            ActionTag::Approve => (
                                approve_in(s, id),
                                ReplyView::Approved { submitter: s[find(s, id)].submitter_id, id },
                            ),
                            ActionTag::Reject => (
                                reject_in(s, id),
                                ReplyView::Denied { submitter: s[find(s, id)].submitter_id },
                            ),
                            ActionTag::AddInfo => (s, ReplyView::OpenForm),
                        }
                    }
                },
            }
        },
    }
}

/// The end of an annotation form. The actor has to be a curator. A form that
/// lapsed changes nothing and is answered with nothing. A form that was
/// handed in is merged into the submission if the prompt leads back to a
/// message and the submission of that message is pending.
pub open spec fn info_step(c: ConfigView, s: Seq<SubmissionView>, f: InfoSubmissionView) -> (
    Seq<SubmissionView>,
    ReplyView,
) {
    if !c.curators.contains(f.user_id) {
        (s, ReplyView::NotCurator)
    } else {
        match f.form {
            None => (s, ReplyView::Nothing),
            Some(info) => match f.referenced_message {
                None => (s, ReplyView::LookupFailed),
                Some(message) => {
                    let id = decimal(message as nat);
                    if is_pending_in(s, id) {
                        (add_info_in(s, id, info), ReplyView::InfoAdded)
                    } else {
                        (s, ReplyView::Stale)
                    }
                },
            },
        }
    }
}

/// The queue and the reply after one event.
pub open spec fn event_step(c: ConfigView, s: Seq<SubmissionView>, e: EventView) -> (
    Seq<SubmissionView>,
    ReplyView,
) {
    match e {
        EventView::Message(m) => message_step(c, s, m),
        EventView::Interaction(i) => interaction_step(c, s, i),
        EventView::InfoSubmitted(f) => info_step(c, s, f),
        EventView::Other => (s, ReplyView::Nothing),
    }
}

/// Handles a new message: see [`message_step`].
pub fn handle_message(
    config: &Config,
    submissions: &mut SubmissionStore,
    msg: NewMessage,
) -> (reply: Reply)
    ensures
        final(submissions).wf(),
        (final(submissions)@, reply@) == message_step(config@, old(submissions)@, msg@),
{
    proof {
        use_type_invariant(&*submissions);
    }
    if msg.author_is_bot || config.is_blacklisted(msg.author_id) {
        return Reply::Nothing;
    }
    if msg.channel_id == config.channel_id {
        if msg.attachments.len() == 0 {
            return Reply::AttachmentRequired;
        }
        let ghost first = msg@.attachments[0];
        let mut attachments = msg.attachments;
        assert(attachments@[0]@ == first);
        let image = attachments.remove(0);
        let id = decimal_string(msg.id);
        let submitter = decimal_string(msg.author_id);
        let record = SubmissionDoc::new(id, image, submitter.clone(), msg.timestamp);
        if submissions.insert(record) {
            Reply::ReviewPrompt { submitter, message: msg.id }
        } else {
            Reply::AlreadyQueued
        }
    } else {
        let lowered = to_lowercase(&msg.content);
        if is_ping(&lowered) && msg.author_id != config.bot_user_id {
            Reply::Pong
        } else {
            Reply::Nothing
        }
    }
}

/// Handles a click on an action of a review prompt: see
/// [`interaction_step`].
pub fn handle_interaction(
    config: &Config,
    submissions: &mut SubmissionStore,
    interaction: &Interaction,
) -> (reply: Reply)
    ensures
        final(submissions).wf(),
        (final(submissions)@, reply@) == interaction_step(
            config@,
            old(submissions)@,
            interaction@,
        ),
{
    proof {
        use_type_invariant(&*submissions);
    }
    let action = match ActionTag::parse(&interaction.custom_id) {
        Some(action) => action,
        None => {
            return Reply::Nothing;
        },
    };
    if !config.is_curator(interaction.user_id) {
        return Reply::NotCurator;
    }
    let message = match interaction.referenced_message {
        Some(message) => message,
        None => {
            return Reply::LookupFailed;
        },
    };
    let id = decimal_string(message);
    let ghost before = submissions@;
    let submitter = match submissions.get(&id) {
        Some(record) => {
            proof {
                lemma_only_at(before, id@, find(before, id@));
            }
            if !record.is_pending() {
                return Reply::Stale;
            }
            record.submitter_id().clone()
        },
        None => {
            return Reply::Stale;
        },
    };
    match action {
        ActionTag::Approve => {
            submissions.approve(&id);
            Reply::Approved { submitter, id }
        },
        ActionTag::Reject => {
            submissions.reject(&id);
            Reply::Denied { submitter }
        },
        ActionTag::AddInfo => Reply::OpenForm,
    }
}

/// Handles the end of an annotation form: see [`info_step`].
pub fn handle_info(
    config: &Config,
    submissions: &mut SubmissionStore,
    submission: InfoSubmission,
) -> (reply: Reply)
    ensures
        final(submissions).wf(),
        (final(submissions)@, reply@) == info_step(config@, old(submissions)@, submission@),
{
    proof {
        use_type_invariant(&*submissions);
    }
    if !config.is_curator(submission.user_id) {
        return Reply::NotCurator;
    }
    let info = match submission.form {
        Some(info) => info,
        None => {
            return Reply::Nothing;
        },
    };
    let message = match submission.referenced_message {
        Some(message) => message,
        None => {
            return Reply::LookupFailed;
        },
    };
    let id = decimal_string(message);
    if submissions.add_info(&id, info) {
        Reply::InfoAdded
    } else {
        proof {
            assert(submissions@ =~= old(submissions)@);
        }
        Reply::Stale
    }
}

/// Handles one inbound event: a new message is ingested, a click on a review
/// prompt is decided, the end of an annotation form is merged, and anything
/// else is passed over. The catalog is never touched.
pub fn event_handler(config: &Config, data: &mut Data, event: Event) -> (reply: Reply)
    ensures
        final(data).wf(),
        final(data)@.catalog == old(data)@.catalog,
        (final(data)@.submissions, reply@) == event_step(
            config@,
            old(data)@.submissions,
            event@,
        ),
{
    proof {
        use_type_invariant(&data.submissions_collection);
        use_type_invariant(&data.fumos_collection);
    }
    match event {
        Event::Message(msg) => handle_message(config, &mut data.submissions_collection, msg),
        Event::Interaction(interaction) => handle_interaction(
            config,
            &mut data.submissions_collection,
            &interaction,
        ),
        Event::InfoSubmitted(submission) => handle_info(
            config,
            &mut data.submissions_collection,
            submission,
        ),
        Event::Other => Reply::Nothing,
    }
}

} // verus!
