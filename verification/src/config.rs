//! The bot's configuration: read once when the process starts, and handed to
//! every handler by reference.

use vstd::prelude::*;

verus! {

/// Who may curate, who is shut out, and where submissions come in.
#[derive(Clone, Debug)]
pub struct Config {
    /// The channel in which a message with an attachment is a submission.
    pub channel_id: u64,
    /// The bot's own user.
    pub bot_user_id: u64,
    /// The users who may decide on submissions and promote them.
    pub curators: Vec<u64>,
    /// The users whose messages are dropped.
    pub blacklist: Vec<u64>,
    /// Where the content service listens.
    pub fumo_api_endpoint: String,
}

/// The mathematical content of a [`Config`].
pub struct ConfigView {
    pub channel_id: u64,
    pub bot_user_id: u64,
    pub curators: Seq<u64>,
    pub blacklist: Seq<u64>,
    pub fumo_api_endpoint: Seq<char>,
}

impl View for Config {
    type V = ConfigView;

    open spec fn view(&self) -> ConfigView {
        ConfigView {
            channel_id: self.channel_id,
            bot_user_id: self.bot_user_id,
            curators: self.curators@,
            blacklist: self.blacklist@,
            fumo_api_endpoint: self.fumo_api_endpoint@,
        }
    }
}

/// Whether `user` is among `users`.
pub fn is_listed(users: &Vec<u64>, user: u64) -> (r: bool)
    ensures
        r == users@.contains(user),
{
    let mut i: usize = 0;
    while i < users.len()
        invariant
            i <= users.len(),
            forall|j: int| 0 <= j < i ==> users@[j] != user,
        decreases users.len() - i,
    {
        if users[i] == user {
            return true;
        }
        i += 1;
    }
    false
}

impl Config {
    /// Whether `user` may approve, reject, annotate and promote.
    pub fn is_curator(&self, user: u64) -> (r: bool)
        ensures
            r == self@.curators.contains(user),
    {
        is_listed(&self.curators, user)
    }

    /// Whether messages of `user` are dropped.
    pub fn is_blacklisted(&self, user: u64) -> (r: bool)
        ensures
            r == self@.blacklist.contains(user),
    {
        is_listed(&self.blacklist, user)
    }
}

} // verus!
