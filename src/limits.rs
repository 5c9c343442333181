use vstd::prelude::*;

verus! {

/// Port a server listens on unless told otherwise.
pub const DEFAULT_PORT: u16 = 8439;
/// Key length used by the authentication layer.
pub const RSA_LENGTH: u32 = 3072;
/// Seconds after which a typing indicator lapses.
pub const TYPING_TIMEOUT: u8 = 10;

pub const LIMIT_USER_NAME: usize = 128;
pub const LIMIT_CHANNEL_NAME: usize = 128;
pub const LIMIT_MESSAGE: usize = 16384;

/// Most ids that one bulk operation may name.
pub const LIMIT_BULK: usize = 64;

pub const ERR_ALREADY_EXISTS: u8 = 0;
pub const ERR_LIMIT_REACHED: u8 = 1;
pub const ERR_LOGIN_BANNED: u8 = 2;
pub const ERR_LOGIN_BOT: u8 = 3;
pub const ERR_LOGIN_INVALID: u8 = 4;
pub const ERR_MAX_CONN_PER_IP: u8 = 5;
pub const ERR_MISSING_FIELD: u8 = 6;
pub const ERR_MISSING_PERMISSION: u8 = 7;
pub const ERR_SELF_PM: u8 = 8;
pub const ERR_UNKNOWN_BOT: u8 = 9;
pub const ERR_UNKNOWN_CHANNEL: u8 = 10;
pub const ERR_UNKNOWN_MESSAGE: u8 = 11;
pub const ERR_UNKNOWN_USER: u8 = 12;

pub const PERM_READ: u8 = 1;
pub const PERM_WRITE: u8 = 1 << 1;

pub const PERM_MANAGE_CHANNELS: u8 = 1 << 2;
pub const PERM_MANAGE_MESSAGES: u8 = 1 << 3;
pub const PERM_MANAGE_MODES: u8 = 1 << 4;

pub const PERM_ALL: u8 = PERM_READ | PERM_WRITE | PERM_MANAGE_CHANNELS | PERM_MANAGE_MESSAGES
    | PERM_MANAGE_MODES;

/// Largest body that one frame can carry: its length must fit the two-byte prefix.
pub const MAX_PACKET_SIZE: usize = 65535;

} // verus!
