use std::collections::HashMap;
use vstd::prelude::*;

verus! {

// Entities.
/// A channel: its defaults apply to users without an override of their own.
#[derive(Clone, Debug, Default)]
pub struct Channel {
    pub default_mode_bot: u8,
    pub default_mode_user: u8,
    pub id: usize,
    pub name: String,
    pub private: bool,
}

/// A message; `text` is opaque bytes, not necessarily UTF-8.
#[derive(Clone, Debug, Default)]
pub struct Message {
    pub author: usize,
    pub channel: usize,
    pub id: usize,
    pub text: Vec<u8>,
    pub timestamp: i64,
    pub timestamp_edit: Option<i64>,
}

/// A user, with a permission override per channel id in `modes`.
#[derive(Clone, Debug, Default)]
pub struct User {
    pub admin: bool,
    pub ban: bool,
    pub bot: bool,
    pub id: usize,
    pub modes: HashMap<usize, u8>,
    pub name: String,
}

// Requests, from client to server.
#[derive(Clone, Debug, Default)]
pub struct ChannelCreate {
    pub default_mode_bot: u8,
    pub default_mode_user: u8,
    pub name: String,
    pub recipient: Option<usize>,
}

#[derive(Clone, Debug, Default)]
pub struct ChannelDelete {
    pub id: usize,
}

#[derive(Clone, Debug, Default)]
pub struct ChannelUpdate {
    pub inner: Channel,
}

#[derive(Clone, Debug, Default)]
pub struct Command {
    pub args: Vec<String>,
    pub recipient: usize,
}

#[derive(Clone, Debug, Default)]
pub struct Login {
    pub bot: bool,
    pub name: String,
    pub password: Option<String>,
    pub token: Option<String>,
}

/// A new password implies `reset_token`, whatever it holds.
#[derive(Clone, Debug, Default)]
pub struct LoginUpdate {
    pub name: Option<String>,
    pub password_current: Option<String>,
    pub password_new: Option<String>,
    pub reset_token: bool,
}

#[derive(Clone, Debug, Default)]
pub struct MessageCreate {
    pub channel: usize,
    pub text: Vec<u8>,
}

#[derive(Clone, Debug, Default)]
pub struct MessageDelete {
    pub id: usize,
}

#[derive(Clone, Debug, Default)]
pub struct MessageDeleteBulk {
    pub channel: usize,
    pub ids: Vec<usize>,
}

#[derive(Clone, Debug, Default)]
pub struct MessageList {
    pub after: Option<usize>,
    pub before: Option<usize>,
    pub channel: usize,
    pub limit: usize,
}

#[derive(Clone, Debug, Default)]
pub struct MessageUpdate {
    pub id: usize,
    pub text: Vec<u8>,
}

#[derive(Clone, Debug, Default)]
pub struct Typing {
    pub channel: usize,
}

#[derive(Clone, Debug, Default)]
pub struct UserUpdate {
    pub admin: Option<bool>,
    pub ban: Option<bool>,
    pub channel_mode: Option<(usize, Option<u8>)>,
    pub id: usize,
}

// Responses, from server to client.
#[derive(Clone, Debug, Default)]
pub struct ChannelDeleteReceive {
    pub inner: Channel,
}

#[derive(Clone, Debug, Default)]
pub struct ChannelReceive {
    pub inner: Channel,
}

#[derive(Clone, Debug, Default)]
pub struct CommandReceive {
    pub args: Vec<String>,
    pub author: usize,
}

#[derive(Clone, Debug, Default)]
pub struct LoginSuccess {
    pub created: bool,
    pub id: usize,
    pub token: String,
}

#[derive(Clone, Debug, Default)]
pub struct MessageDeleteReceive {
    pub id: usize,
}

#[derive(Clone, Debug, Default)]
pub struct MessageReceive {
    pub inner: Message,
    pub new: bool,
}

#[derive(Clone, Debug, Default)]
pub struct TypingReceive {
    pub author: usize,
    pub channel: usize,
}

#[derive(Clone, Debug, Default)]
pub struct UserReceive {
    pub inner: User,
}

impl User {
    /// The permission bits that apply to this user in `channel`: the user's own
    /// override for it where one is set, else the channel's default for bots or for
    /// humans.
    pub fn mode_in(&self, channel: &Channel) -> (r: u8)
        ensures
            r == if self.modes@.contains_key(channel.id) {
                self.modes@[channel.id]
            } else if self.bot {
                channel.default_mode_bot
            } else {
                channel.default_mode_user
            },
    {
        broadcast use vstd::std_specs::hash::group_hash_axioms;

        match self.modes.get(&channel.id) {
            Some(m) => *m,
            None => if self.bot {
                channel.default_mode_bot
            } else {
                channel.default_mode_user
            },
        }
    }
}

impl LoginUpdate {
    /// Whether the update resets the login token: asked for, or implied by a new password.
    pub fn resets_token(&self) -> (r: bool)
        ensures
            r == (self.reset_token || self.password_new is Some),
    {
        self.reset_token || self.password_new.is_some()
    }
}

} // verus!
