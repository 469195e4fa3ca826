//! What the chat platform delivers: new messages, clicks on the actions of a
//! review prompt, and annotation forms that a curator handed in or let lapse.

use crate::submission::{MoreInfoModal, MoreInfoView};
use vstd::prelude::*;
use vstd::string::StringExecFns;

verus! {

/// A message that somebody posted.
#[derive(Clone, Debug)]
pub struct NewMessage {
    pub id: u64,
    pub channel_id: u64,
    pub author_id: u64,
    pub author_is_bot: bool,
    /// The addresses of the attachments, in the order of the message.
    pub attachments: Vec<String>,
    /// Seconds since the epoch.
    pub timestamp: i64,
    pub content: String,
}

/// The mathematical content of a [`NewMessage`].
pub struct MessageView {
    pub id: u64,
    pub channel_id: u64,
    pub author_id: u64,
    pub author_is_bot: bool,
    pub attachments: Seq<Seq<char>>,
    pub timestamp: i64,
    pub content: Seq<char>,
}

impl View for NewMessage {
    type V = MessageView;

    open spec fn view(&self) -> MessageView {
        MessageView {
            id: self.id,
            channel_id: self.channel_id,
            author_id: self.author_id,
            author_is_bot: self.author_is_bot,
            attachments: self.attachments@.map_values(|a: String| a@),
            timestamp: self.timestamp,
            content: self.content@,
        }
    }
}

/// The three actions that a review prompt offers.
#[derive(Clone, Copy, Debug, PartialEq, Eq, Structural)]
pub enum ActionTag {
    Approve,
    Reject,
    AddInfo,
}

/// How an action's button is drawn.
#[derive(Clone, Copy, Debug, PartialEq, Eq, Structural)]
pub enum ButtonStyle {
    Primary,
    Secondary,
    Danger,
}

/// The tag that an action's button carries.
pub open spec fn tag_of(action: ActionTag) -> Seq<char> {
    match action {
        ActionTag::Approve => "approve"@,
        ActionTag::Reject => "reject"@,
        ActionTag::AddInfo => "add-info"@,
    }
}

/// The action that a tag names, if it names one.
pub open spec fn action_of(tag: Seq<char>) -> Option<ActionTag> {
    if tag == "approve"@ {
        Some(ActionTag::Approve)
    } else if tag == "reject"@ {
        Some(ActionTag::Reject)
    } else if tag == "add-info"@ {
        Some(ActionTag::AddInfo)
    } else {
        None
    }
}

/// The caption of an action's button.
pub open spec fn label_of(action: ActionTag) -> Seq<char> {
    match action {
        ActionTag::Approve => "Approve Fumo"@,
        ActionTag::Reject => "Reject Fumo"@,
        ActionTag::AddInfo => "Add Info about the submission"@,
    }
}

impl ActionTag {
    /// The tag that this action's button carries.
    pub fn custom_id(self) -> (r: &'static str)
        ensures
            r@ == tag_of(self),
    {
        match self {
            ActionTag::Approve => "approve",
            ActionTag::Reject => "reject",
            ActionTag::AddInfo => "add-info",
        }
    }

    /// The caption of this action's button.
    pub fn label(self) -> (r: &'static str)
        ensures
            r@ == label_of(self),
    {
        match self {
            ActionTag::Approve => "Approve Fumo",
            ActionTag::Reject => "Reject Fumo",
            ActionTag::AddInfo => "Add Info about the submission",
        }
    }

    /// How this action's button is drawn.
    pub fn style(self) -> (r: ButtonStyle)
        ensures
            r == match self {
                ActionTag::Approve => ButtonStyle::Primary,
                ActionTag::Reject => ButtonStyle::Danger,
                ActionTag::AddInfo => ButtonStyle::Secondary,
            },
    {
        match self {
            ActionTag::Approve => ButtonStyle::Primary,
            ActionTag::Reject => ButtonStyle::Danger,
            ActionTag::AddInfo => ButtonStyle::Secondary,
        }
    }

    /// Reads the tag of an interaction. A tag that names none of the three
    /// actions gives `None`.
    pub fn parse(tag: &String) -> (r: Option<ActionTag>)
        ensures
            r == action_of(tag@),
    {
        if *tag == String::from_str("approve") {
            Some(ActionTag::Approve)
        } else if *tag == String::from_str("reject") {
            Some(ActionTag::Reject)
        } else if *tag == String::from_str("add-info") {
            Some(ActionTag::AddInfo)
        } else {
            None
        }
    }
}

/// The actions that a review prompt offers, in the order of their buttons.
pub fn review_actions() -> (r: Vec<ActionTag>)
    ensures
        r@ == seq![ActionTag::Approve, ActionTag::Reject, ActionTag::AddInfo],
{
    let mut r: Vec<ActionTag> = Vec::new();
    r.push(ActionTag::Approve);
    r.push(ActionTag::Reject);
    r.push(ActionTag::AddInfo);
    assert(r@ =~= seq![ActionTag::Approve, ActionTag::Reject, ActionTag::AddInfo]);
    r
}

/// Every action is read back from its own tag.
pub proof fn lemma_tag_round_trip(action: ActionTag)
    ensures
        action_of(tag_of(action)) == Some(action),
{
    reveal_strlit("approve");
    reveal_strlit("reject");
    reveal_strlit("add-info");
    assert("reject"@[0] == 'r' && "approve"@[0] == 'a');
    assert("add-info"@[1] == 'd' && "approve"@[1] == 'p');
}

/// A click on one of the actions of a review prompt.
#[derive(Clone, Debug)]
pub struct Interaction {
    /// The tag of the button that was clicked.
    pub custom_id: String,
    /// Who clicked.
    pub user_id: u64,
    /// The message that the prompt refers back to, while it can be resolved.
    pub referenced_message: Option<u64>,
}

/// The mathematical content of an [`Interaction`].
pub struct InteractionView {
    pub custom_id: Seq<char>,
    pub user_id: u64,
    pub referenced_message: Option<u64>,
}

impl View for Interaction {
    type V = InteractionView;

    open spec fn view(&self) -> InteractionView {
        InteractionView {
            custom_id: self.custom_id@,
            user_id: self.user_id,
            referenced_message: self.referenced_message,
        }
    }
}

/// The end of an annotation form: handed in, or lapsed.
#[derive(Clone, Debug)]
pub struct InfoSubmission {
    /// The curator the form was opened for.
    pub user_id: u64,
    /// The message that the prompt refers back to, while it can be resolved.
    pub referenced_message: Option<u64>,
    /// What was entered; `None` where the form was not handed in in time.
    pub form: Option<MoreInfoModal>,
}

/// The mathematical content of an [`InfoSubmission`].
pub struct InfoSubmissionView {
    pub user_id: u64,
    pub referenced_message: Option<u64>,
    pub form: Option<MoreInfoView>,
}

impl View for InfoSubmission {
    type V = InfoSubmissionView;

    open spec fn view(&self) -> InfoSubmissionView {
        InfoSubmissionView {
            user_id: self.user_id,
            referenced_message: self.referenced_message,
            form: match self.form {
                Some(f) => Some(f@),
                None => None,
            },
        }
    }
}

/// An inbound event.
#[derive(Clone, Debug)]
pub enum Event {
    Message(NewMessage),
    Interaction(Interaction),
    InfoSubmitted(InfoSubmission),
    /// Anything else the platform delivers.
    Other,
}

/// The mathematical content of an [`Event`].
pub enum EventView {
    Message(MessageView),
    Interaction(InteractionView),
    InfoSubmitted(InfoSubmissionView),
    Other,
}

impl View for Event {
    type V = EventView;

    open spec fn view(&self) -> EventView {
        match self {
            Event::Message(m) => EventView::Message(m@),
            Event::Interaction(i) => EventView::Interaction(i@),
            Event::InfoSubmitted(f) => EventView::InfoSubmitted(f@),
            Event::Other => EventView::Other,
        }
    }
}

} // verus!
