//! What a handler asks its caller to deliver, and the words it is delivered
//! in.

use crate::text::{decimal, decimal_string};
use vstd::prelude::*;
use vstd::string::StringExecFns;

verus! {

/// The answer to one event.
#[derive(Clone, Debug, PartialEq, Eq)]
pub enum Reply {
    /// Nothing is to be said.
    Nothing,
    /// A message in the intake channel came without an image.
    AttachmentRequired,
    /// The message is in the review queue already.
    AlreadyQueued,
    /// A submission was queued: post the review prompt with its three
    /// actions, addressed to the submitter and referring to the message.
    ReviewPrompt { submitter: String, message: u64 },
    /// The answer to a ping.
    Pong,
    /// Somebody who is no curator tried to decide on a submission.
    NotCurator,
    /// The prompt no longer leads back to a message.
    LookupFailed,
    /// The submission was decided earlier, or is gone.
    Stale,
    /// The submission was approved: tell the submitter.
    Approved { submitter: String, id: String },
    /// The submission was discarded: tell the submitter.
    Denied { submitter: String },
    /// Open the annotation form for the curator.
    OpenForm,
    /// The annotations were merged: mark the prompt.
    InfoAdded,
    /// Somebody who is no curator tried to promote.
    PushDenied,
    /// The promotion ran: so many submissions went into the catalog.
    Pushed { count: usize },
}

/// The mathematical content of a [`Reply`].
pub enum ReplyView {
    Nothing,
    AttachmentRequired,
    AlreadyQueued,
    ReviewPrompt { submitter: Seq<char>, message: u64 },
    Pong,
    NotCurator,
    LookupFailed,
    Stale,
    Approved { submitter: Seq<char>, id: Seq<char> },
    Denied { submitter: Seq<char> },
    OpenForm,
    InfoAdded,
    PushDenied,
    Pushed { count: nat },
}

impl View for Reply {
    type V = ReplyView;

    open spec fn view(&self) -> ReplyView {
        match self {
            Reply::Nothing => ReplyView::Nothing,
            Reply::AttachmentRequired => ReplyView::AttachmentRequired,
            Reply::AlreadyQueued => ReplyView::AlreadyQueued,
            Reply::ReviewPrompt { submitter, message } => ReplyView::ReviewPrompt {
                submitter: submitter@,
                message: *message,
            },
            Reply::Pong => ReplyView::Pong,
            Reply::NotCurator => ReplyView::NotCurator,
            Reply::LookupFailed => ReplyView::LookupFailed,
            Reply::Stale => ReplyView::Stale,
            Reply::Approved { submitter, id } => ReplyView::Approved {
                submitter: submitter@,
                id: id@,
            },
            Reply::Denied { submitter } => ReplyView::Denied { submitter: submitter@ },
            Reply::OpenForm => ReplyView::OpenForm,
            Reply::InfoAdded => ReplyView::InfoAdded,
            Reply::PushDenied => ReplyView::PushDenied,
            Reply::Pushed { count } => ReplyView::Pushed { count: *count as nat },
        }
    }
}

/// The words of a reply; `None` where a reply is not put in words.
pub open spec fn text_of(reply: ReplyView) -> Option<Seq<char>> {
    match reply {
        ReplyView::Nothing => None,
        ReplyView::AttachmentRequired => Some("Please attach a fumo image to your message"@),
        ReplyView::AlreadyQueued => Some("This message is already in the review queue"@),
        ReplyView::ReviewPrompt { submitter, message } => Some(
            "<@"@ + submitter
                + "> Fumo submission succesfully sent to review \n -# Only the first media attachment is going to be considered"@,
        ),
        ReplyView::Pong => Some("Pong!!!"@),
        ReplyView::NotCurator => Some("You are not a curator, you can't approve fumos"@),
        ReplyView::LookupFailed => Some(
            "The message this submission came from can no longer be found"@,
        ),
        ReplyView::Stale => Some(
            "This submission was already decided or is no longer in the review queue"@,
        ),
        ReplyView::Approved { submitter, id } => Some(
            "<@"@ + submitter
                + "> Your fumo submission has been approved \u{1F389}. You can check it out with id `"@
                + id + "`"@,
        ),
        ReplyView::Denied { submitter } => Some(
            "<@"@ + submitter + "> Your fumo submission has been denied \u{1F61F}."@,
        ),
        ReplyView::OpenForm => None,
        ReplyView::InfoAdded => Some("More info succesfully added"@),
        ReplyView::PushDenied => Some("You are not a curator"@),
        ReplyView::Pushed { count } => Some(
            "Pushed "@ + decimal(count) + " fumos to production database"@,
        ),
    }
}

impl Reply {
    /// The words in which this reply is delivered; `None` where it is not
    /// put in words.
    pub fn text(&self) -> (r: Option<String>)
        ensures
            r is Some <==> text_of(self@) is Some,
            r matches Some(t) ==> t@ == text_of(self@)->0,
    {
        match self {
            Reply::Nothing => None,
            Reply::AttachmentRequired => Some(
                String::from_str("Please attach a fumo image to your message"),
            ),
            Reply::AlreadyQueued => Some(
                String::from_str("This message is already in the review queue"),
            ),
            Reply::ReviewPrompt { submitter, message } => {
                let mut t = String::from_str("<@");
                t.append(submitter.as_str());
                t.append(
                    "> Fumo submission succesfully sent to review \n -# Only the first media attachment is going to be considered",
                );
                Some(t)
            },
            Reply::Pong => Some(String::from_str("Pong!!!")),
            Reply::NotCurator => Some(
                String::from_str("You are not a curator, you can't approve fumos"),
            ),
            Reply::LookupFailed => Some(
                String::from_str("The message this submission came from can no longer be found"),
            ),
            Reply::Stale => Some(
                String::from_str(
                    "This submission was already decided or is no longer in the review queue",
                ),
            ),
            Reply::Approved { submitter, id } => {
                let mut t = String::from_str("<@");
                t.append(submitter.as_str());
                t.append(
                    "> Your fumo submission has been approved \u{1F389}. You can check it out with id `",
                );
                t.append(id.as_str());
                t.append("`");
                Some(t)
            },
            Reply::Denied { submitter } => {
                let mut t = String::from_str("<@");
                t.append(submitter.as_str());
                t.append("> Your fumo submission has been denied \u{1F61F}.");
                Some(t)
            },
            Reply::OpenForm => None,
            Reply::InfoAdded => Some(String::from_str("More info succesfully added")),
            Reply::PushDenied => Some(String::from_str("You are not a curator")),
            Reply::Pushed { count } => {
                let mut t = String::from_str("Pushed ");
                let n = decimal_string(*count as u64);
                t.append(n.as_str());
                t.append(" fumos to production database");
                Some(t)
            },
        }
    }
}

} // verus!
