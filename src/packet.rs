use vstd::prelude::*;
use vstd::string::*;
use crate::model::{
    ChannelCreate, ChannelDelete, ChannelUpdate, Command, Login, LoginUpdate, MessageCreate,
    MessageDelete, MessageDeleteBulk, MessageList, MessageUpdate, Typing, UserUpdate,
    ChannelDeleteReceive, ChannelReceive, CommandReceive, LoginSuccess, MessageDeleteReceive,
    MessageReceive, TypingReceive, UserReceive,
};

verus! {

/// One protocol message: a closed set of requests and responses.
#[derive(Clone, Debug)]
pub enum Packet {
    /// An error was received; its code is one of the ERR_ constants.
    Error(u8),
    /// The sender must wait this many seconds.
    RateLimited(u64),
    /// Create a new channel.
    ChannelCreate(ChannelCreate),
    /// Delete a channel.
    ChannelDelete(ChannelDelete),
    /// Edit a channel.
    ChannelUpdate(ChannelUpdate),
    /// Send a bot command.
    Command(Command),
    /// Log in; required before anything else.
    Login(Login),
    /// Update the login credentials.
    LoginUpdate(LoginUpdate),
    /// Send a new message.
    MessageCreate(MessageCreate),
    /// Delete a message.
    MessageDelete(MessageDelete),
    /// Delete a bunch of messages.
    MessageDeleteBulk(MessageDeleteBulk),
    /// List the `limit` most recent messages, optionally before or after an id.
    MessageList(MessageList),
    /// Update a message.
    MessageUpdate(MessageUpdate),
    /// Send a typing indicator, which lapses after TYPING_TIMEOUT seconds.
    Typing(Typing),
    /// Update a user (login data goes through LoginUpdate).
    UserUpdate(UserUpdate),
    /// A channel was deleted.
    ChannelDeleteReceive(ChannelDeleteReceive),
    /// A channel was created, edited or initially sent.
    ChannelReceive(ChannelReceive),
    /// A command was received (bots only).
    CommandReceive(CommandReceive),
    /// Login succeeded; the token serves the next login.
    LoginSuccess(LoginSuccess),
    /// A message was deleted.
    MessageDeleteReceive(MessageDeleteReceive),
    /// A message list operation has finished.
    MessageListReceived,
    /// A message was created, edited or initially sent.
    MessageReceive(MessageReceive),
    /// A typing event was received.
    TypingReceive(TypingReceive),
    /// A user was created or edited.
    UserReceive(UserReceive),
}

/// The variant of a packet, without its payload.
#[derive(Clone, Copy, Debug, PartialEq, Eq, Structural)]
pub enum PacketKind {
    Error,
    RateLimited,
    ChannelCreate,
    ChannelDelete,
    ChannelUpdate,
    Command,
    Login,
    LoginUpdate,
    MessageCreate,
    MessageDelete,
    MessageDeleteBulk,
    MessageList,
    MessageUpdate,
    Typing,
    UserUpdate,
    ChannelDeleteReceive,
    ChannelReceive,
    CommandReceive,
    LoginSuccess,
    MessageDeleteReceive,
    MessageListReceived,
    MessageReceive,
    TypingReceive,
    UserReceive,
}

impl Packet {
    pub open spec fn spec_kind(&self) -> PacketKind {
        match self {
            Packet::Error(_) => PacketKind::Error,
            Packet::RateLimited(_) => PacketKind::RateLimited,
            Packet::ChannelCreate(_) => PacketKind::ChannelCreate,
            Packet::ChannelDelete(_) => PacketKind::ChannelDelete,
            Packet::ChannelUpdate(_) => PacketKind::ChannelUpdate,
            Packet::Command(_) => PacketKind::Command,
            Packet::Login(_) => PacketKind::Login,
            Packet::LoginUpdate(_) => PacketKind::LoginUpdate,
            Packet::MessageCreate(_) => PacketKind::MessageCreate,
            Packet::MessageDelete(_) => PacketKind::MessageDelete,
            Packet::MessageDeleteBulk(_) => PacketKind::MessageDeleteBulk,
            Packet::MessageList(_) => PacketKind::MessageList,
            Packet::MessageUpdate(_) => PacketKind::MessageUpdate,
            Packet::Typing(_) => PacketKind::Typing,
            Packet::UserUpdate(_) => PacketKind::UserUpdate,
            Packet::ChannelDeleteReceive(_) => PacketKind::ChannelDeleteReceive,
            Packet::ChannelReceive(_) => PacketKind::ChannelReceive,
            Packet::CommandReceive(_) => PacketKind::CommandReceive,
            Packet::LoginSuccess(_) => PacketKind::LoginSuccess,
            Packet::MessageDeleteReceive(_) => PacketKind::MessageDeleteReceive,
            Packet::MessageListReceived => PacketKind::MessageListReceived,
            Packet::MessageReceive(_) => PacketKind::MessageReceive,
            Packet::TypingReceive(_) => PacketKind::TypingReceive,
            Packet::UserReceive(_) => PacketKind::UserReceive,
        }
    }

    /// The variant of this packet.
    pub fn kind(&self) -> (r: PacketKind)
        ensures
            r == self.spec_kind(),
    {
        match self {
            Packet::Error(_) => PacketKind::Error,
            Packet::RateLimited(_) => PacketKind::RateLimited,
            Packet::ChannelCreate(_) => PacketKind::ChannelCreate,
            Packet::ChannelDelete(_) => PacketKind::ChannelDelete,
            Packet::ChannelUpdate(_) => PacketKind::ChannelUpdate,
            Packet::Command(_) => PacketKind::Command,
            Packet::Login(_) => PacketKind::Login,
            Packet::LoginUpdate(_) => PacketKind::LoginUpdate,
            Packet::MessageCreate(_) => PacketKind::MessageCreate,
            Packet::MessageDelete(_) => PacketKind::MessageDelete,
            Packet::MessageDeleteBulk(_) => PacketKind::MessageDeleteBulk,
            Packet::MessageList(_) => PacketKind::MessageList,
            Packet::MessageUpdate(_) => PacketKind::MessageUpdate,
            Packet::Typing(_) => PacketKind::Typing,
            Packet::UserUpdate(_) => PacketKind::UserUpdate,
            Packet::ChannelDeleteReceive(_) => PacketKind::ChannelDeleteReceive,
            Packet::ChannelReceive(_) => PacketKind::ChannelReceive,
            Packet::CommandReceive(_) => PacketKind::CommandReceive,
            Packet::LoginSuccess(_) => PacketKind::LoginSuccess,
            Packet::MessageDeleteReceive(_) => PacketKind::MessageDeleteReceive,
            Packet::MessageListReceived => PacketKind::MessageListReceived,
            Packet::MessageReceive(_) => PacketKind::MessageReceive,
            Packet::TypingReceive(_) => PacketKind::TypingReceive,
            Packet::UserReceive(_) => PacketKind::UserReceive,
        }
    }
}

/// Number of packet variants.
pub const KIND_COUNT: usize = 24;

/// The name that tags a variant on the wire: its identifier in snake case.
pub open spec fn tag_of(k: PacketKind) -> Seq<char> {
    match k {
        PacketKind::Error => "err"@,
        PacketKind::RateLimited => "rate_limited"@,
        PacketKind::ChannelCreate => "channel_create"@,
        PacketKind::ChannelDelete => "channel_delete"@,
        PacketKind::ChannelUpdate => "channel_update"@,
        PacketKind::Command => "command"@,
        PacketKind::Login => "login"@,
        PacketKind::LoginUpdate => "login_update"@,
        PacketKind::MessageCreate => "message_create"@,
        PacketKind::MessageDelete => "message_delete"@,
        PacketKind::MessageDeleteBulk => "message_delete_bulk"@,
        PacketKind::MessageList => "message_list"@,
        PacketKind::MessageUpdate => "message_update"@,
        PacketKind::Typing => "typing"@,
        PacketKind::UserUpdate => "user_update"@,
        PacketKind::ChannelDeleteReceive => "channel_delete_receive"@,
        PacketKind::ChannelReceive => "channel_receive"@,
        PacketKind::CommandReceive => "command_receive"@,
        PacketKind::LoginSuccess => "login_success"@,
        PacketKind::MessageDeleteReceive => "message_delete_receive"@,
        PacketKind::MessageListReceived => "message_list_received"@,
        PacketKind::MessageReceive => "message_receive"@,
        PacketKind::TypingReceive => "typing_receive"@,
        PacketKind::UserReceive => "user_receive"@,
    }
}

/// The tag of a variant as the bytes that stand for it on the wire.
pub open spec fn tag_bytes(k: PacketKind) -> Seq<u8> {
    tag_of(k).map_values(|c: char| c as u8)
}

/// Whether the variant carries a payload; the one that carries none is sent as a bare tag.
pub open spec fn has_payload(k: PacketKind) -> bool {
    k != PacketKind::MessageListReceived
}

/// The tag of variant `k` on the wire.
pub fn tag_name(k: PacketKind) -> (r: &'static str)
    ensures
        r@ == tag_of(k),
{
    match k {
        PacketKind::Error => "err",
        PacketKind::RateLimited => "rate_limited",
        PacketKind::ChannelCreate => "channel_create",
        PacketKind::ChannelDelete => "channel_delete",
        PacketKind::ChannelUpdate => "channel_update",
        PacketKind::Command => "command",
        PacketKind::Login => "login",
        PacketKind::LoginUpdate => "login_update",
        PacketKind::MessageCreate => "message_create",
        PacketKind::MessageDelete => "message_delete",
        PacketKind::MessageDeleteBulk => "message_delete_bulk",
        PacketKind::MessageList => "message_list",
        PacketKind::MessageUpdate => "message_update",
        PacketKind::Typing => "typing",
        PacketKind::UserUpdate => "user_update",
        PacketKind::ChannelDeleteReceive => "channel_delete_receive",
        PacketKind::ChannelReceive => "channel_receive",
        PacketKind::CommandReceive => "command_receive",
        PacketKind::LoginSuccess => "login_success",
        PacketKind::MessageDeleteReceive => "message_delete_receive",
        PacketKind::MessageListReceived => "message_list_received",
        PacketKind::MessageReceive => "message_receive",
        PacketKind::TypingReceive => "typing_receive",
        PacketKind::UserReceive => "user_receive",
    }
}

/// Position of each variant in the catalog.
pub open spec fn kind_index(k: PacketKind) -> nat {
    match k {
        PacketKind::Error => 0,
        PacketKind::RateLimited => 1,
        PacketKind::ChannelCreate => 2,
        PacketKind::ChannelDelete => 3,
        PacketKind::ChannelUpdate => 4,
        PacketKind::Command => 5,
        PacketKind::Login => 6,
        PacketKind::LoginUpdate => 7,
        PacketKind::MessageCreate => 8,
        PacketKind::MessageDelete => 9,
        PacketKind::MessageDeleteBulk => 10,
        PacketKind::MessageList => 11,
        PacketKind::MessageUpdate => 12,
        PacketKind::Typing => 13,
        PacketKind::UserUpdate => 14,
        PacketKind::ChannelDeleteReceive => 15,
        PacketKind::ChannelReceive => 16,
        PacketKind::CommandReceive => 17,
        PacketKind::LoginSuccess => 18,
        PacketKind::MessageDeleteReceive => 19,
        PacketKind::MessageListReceived => 20,
        PacketKind::MessageReceive => 21,
        PacketKind::TypingReceive => 22,
        PacketKind::UserReceive => 23,
    }
}

/// The variant at position `i` of the catalog.
pub fn kind_at(i: usize) -> (r: PacketKind)
    requires
        i < KIND_COUNT,
    ensures
        kind_index(r) == i,
{
    match i {
        0 => PacketKind::Error,
        1 => PacketKind::RateLimited,
        2 => PacketKind::ChannelCreate,
        3 => PacketKind::ChannelDelete,
        4 => PacketKind::ChannelUpdate,
        5 => PacketKind::Command,
        6 => PacketKind::Login,
        7 => PacketKind::LoginUpdate,
        8 => PacketKind::MessageCreate,
        9 => PacketKind::MessageDelete,
        10 => PacketKind::MessageDeleteBulk,
        11 => PacketKind::MessageList,
        12 => PacketKind::MessageUpdate,
        13 => PacketKind::Typing,
        14 => PacketKind::UserUpdate,
        15 => PacketKind::ChannelDeleteReceive,
        16 => PacketKind::ChannelReceive,
        17 => PacketKind::CommandReceive,
        18 => PacketKind::LoginSuccess,
        19 => PacketKind::MessageDeleteReceive,
        20 => PacketKind::MessageListReceived,
        21 => PacketKind::MessageReceive,
        22 => PacketKind::TypingReceive,
        _ => PacketKind::UserReceive,
    }
}

/// A few bytes of a tag that tell the tags of the catalog apart: its length and
/// its bytes at 0, 1 and 8.
pub open spec fn tag_signature(t: Seq<u8>) -> (nat, u8, u8, u8) {
    (t.len(), t[0], t[1], t[8])
}

/// The signature of each variant's tag.
pub open spec fn kind_signature(k: PacketKind) -> (nat, u8, u8, u8) {
    match k {
        PacketKind::Error => (3, 101, 114, tag_bytes(k)[8]),
        PacketKind::RateLimited => (12, 114, 97, 105),
        PacketKind::ChannelCreate => (14, 99, 104, 99),
        PacketKind::ChannelDelete => (14, 99, 104, 100),
        PacketKind::ChannelUpdate => (14, 99, 104, 117),
        PacketKind::Command => (7, 99, 111, tag_bytes(k)[8]),
        PacketKind::Login => (5, 108, 111, tag_bytes(k)[8]),
        PacketKind::LoginUpdate => (12, 108, 111, 100),
        PacketKind::MessageCreate => (14, 109, 101, 99),
        PacketKind::MessageDelete => (14, 109, 101, 100),
        PacketKind::MessageDeleteBulk => (19, 109, 101, 100),
        PacketKind::MessageList => (12, 109, 101, 108),
        PacketKind::MessageUpdate => (14, 109, 101, 117),
        PacketKind::Typing => (6, 116, 121, tag_bytes(k)[8]),
        PacketKind::UserUpdate => (11, 117, 115, 97),
        PacketKind::ChannelDeleteReceive => (22, 99, 104, 100),
        PacketKind::ChannelReceive => (15, 99, 104, 114),
        PacketKind::CommandReceive => (15, 99, 111, 114),
        PacketKind::LoginSuccess => (13, 108, 111, 99),
        PacketKind::MessageDeleteReceive => (22, 109, 101, 100),
        PacketKind::MessageListReceived => (21, 109, 101, 108),
        PacketKind::MessageReceive => (15, 109, 101, 114),
        PacketKind::TypingReceive => (14, 116, 121, 101),
        PacketKind::UserReceive => (12, 117, 115, 101),
    }
}

pub(crate) proof fn lemma_tag_signature(k: PacketKind)
    ensures
        tag_signature(tag_bytes(k)) == kind_signature(k),
{
    match k {
        PacketKind::Error => reveal_strlit("err"),
        PacketKind::RateLimited => reveal_strlit("rate_limited"),
        PacketKind::ChannelCreate => reveal_strlit("channel_create"),
        PacketKind::ChannelDelete => reveal_strlit("channel_delete"),
        PacketKind::ChannelUpdate => reveal_strlit("channel_update"),
        PacketKind::Command => reveal_strlit("command"),
        PacketKind::Login => reveal_strlit("login"),
        PacketKind::LoginUpdate => reveal_strlit("login_update"),
        PacketKind::MessageCreate => reveal_strlit("message_create"),
        PacketKind::MessageDelete => reveal_strlit("message_delete"),
        PacketKind::MessageDeleteBulk => reveal_strlit("message_delete_bulk"),
        PacketKind::MessageList => reveal_strlit("message_list"),
        PacketKind::MessageUpdate => reveal_strlit("message_update"),
        PacketKind::Typing => reveal_strlit("typing"),
        PacketKind::UserUpdate => reveal_strlit("user_update"),
        PacketKind::ChannelDeleteReceive => reveal_strlit("channel_delete_receive"),
        PacketKind::ChannelReceive => reveal_strlit("channel_receive"),
        PacketKind::CommandReceive => reveal_strlit("command_receive"),
        PacketKind::LoginSuccess => reveal_strlit("login_success"),
        PacketKind::MessageDeleteReceive => reveal_strlit("message_delete_receive"),
        PacketKind::MessageListReceived => reveal_strlit("message_list_received"),
        PacketKind::MessageReceive => reveal_strlit("message_receive"),
        PacketKind::TypingReceive => reveal_strlit("typing_receive"),
        PacketKind::UserReceive => reveal_strlit("user_receive"),
    }
}

/// No two variants share a tag, so a tag names one variant at most.
pub proof fn lemma_tags_distinct(k1: PacketKind, k2: PacketKind)
    requires
        tag_bytes(k1) == tag_bytes(k2),
    ensures
        k1 == k2,
{
    lemma_tag_signature(k1);
    lemma_tag_signature(k2);
}

} // verus!
