//! Wire protocol shared by the chat client and server: the entities, the
//! packet catalog and its tag table, the check that a packet body is one
//! well-formed MessagePack envelope naming a known variant, and the
//! length-prefixed framing of one packet on a byte stream.

pub mod limits;
pub mod frame;
pub mod model;
pub mod packet;
pub mod envelope;
pub mod value;

pub use frame::{Error, encode_u16, decode_u16, read};
pub use packet::{Packet, PacketKind, tag_name};
pub use envelope::packet_kind;
