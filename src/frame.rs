use vstd::prelude::*;
use vstd::slice::{slice_subrange, slice_to_vec};
use crate::envelope::{envelope_names, envelope_of, packet_kind, lemma_envelope_round_trip};
use crate::packet::has_payload;
use crate::value::one_value;
use crate::limits::MAX_PACKET_SIZE;
use crate::packet::PacketKind;

verus! {

/// Why a packet could not be framed or read back.
#[derive(Clone, Copy, Debug, PartialEq, Eq, Structural)]
pub enum Error {
    /// The payload bytes are malformed or name no known variant.
    DecodeError,
    /// The packet could not be represented as bytes.
    EncodeError,
    /// The stream ended before a whole frame was read.
    IoError,
    /// The payload is longer than a two-byte length can state.
    PacketTooBigError,
}

/// The two big-endian bytes of `n`, high byte first.
pub open spec fn u16_bytes(n: nat) -> Seq<u8> {
    seq![(n / 256) as u8, (n % 256) as u8]
}

/// The number that two big-endian bytes stand for.
pub open spec fn u16_value(hi: u8, lo: u8) -> nat {
    (hi as nat) * 256 + (lo as nat)
}

/// Splits `input` into its high and its low byte.
pub fn encode_u16(input: u16) -> (r: [u8; 2])
    ensures
        r@ == u16_bytes(input as nat),
        u16_value(r[0], r[1]) == input,
{
    let r = [(input >> 8) as u8, (input % 256) as u8];
    assert((input >> 8) as u8 == input / 256) by (bit_vector);
    assert(r@ =~= u16_bytes(input as nat));
    r
}

/// Reads a big-endian 16-bit number from exactly two bytes.
pub fn decode_u16(bytes: &[u8]) -> (r: u16)
    requires
        bytes@.len() == 2,
    ensures
        r == u16_value(bytes@[0], bytes@[1]),
{
    let hi = bytes[0];
    let lo = bytes[1];
    assert(((hi as u16) << 8) as u16 == (hi as u16) * 256) by (bit_vector);
    ((hi as u16) << 8) + lo as u16
}

/// A frame: the length of `body` in two big-endian bytes, then `body`.
pub open spec fn frame_of(body: Seq<u8>) -> Seq<u8> {
    u16_bytes(body.len()) + body
}

/// What a stream holds from position `pos` on.
pub open spec fn remaining(stream: Seq<u8>, pos: int) -> Seq<u8> {
    if 0 <= pos <= stream.len() {
        stream.subrange(pos, stream.len() as int)
    } else {
        Seq::empty()
    }
}

/// What reading one frame off the front of `rest` gives: the stream ends too early,
/// or the body names no variant, or the body.
pub open spec fn frame_result(rest: Seq<u8>) -> Result<Seq<u8>, Error> {
    if rest.len() < 2 {
        Err(Error::IoError)
    } else if rest.len() < 2 + u16_value(rest[0], rest[1]) {
        Err(Error::IoError)
    } else {
        let body = rest.subrange(2, 2 + u16_value(rest[0], rest[1]) as int);
        if exists|k| envelope_names(body, k) {
            Ok(body)
        } else {
            Err(Error::DecodeError)
        }
    }
}

/// Appends the frame of the encoded packet `body` to `writer`. A body over
/// `MAX_PACKET_SIZE` bytes is refused before anything is written.
pub fn write(writer: &mut Vec<u8>, body: &[u8]) -> (r: Result<(), Error>)
    ensures
        body@.len() <= MAX_PACKET_SIZE ==> r is Ok && final(writer)@ == old(writer)@ + frame_of(
            body@,
        ),
        body@.len() > MAX_PACKET_SIZE ==> r == Err::<(), Error>(Error::PacketTooBigError)
            && final(writer)@ == old(writer)@,
{
    if body.len() > MAX_PACKET_SIZE {
        return Err(Error::PacketTooBigError);
    }
    let size = encode_u16(body.len() as u16);
    writer.push(size[0]);
    writer.push(size[1]);
    assert(writer@ =~= old(writer)@ + u16_bytes(body@.len()) + body@.subrange(0, 0));
    let mut i: usize = 0;
    while i < body.len()
        invariant
            i <= body@.len(),
            writer@ =~= old(writer)@ + u16_bytes(body@.len()) + body@.subrange(0, i as int),
        decreases body@.len() - i,
    {
        writer.push(body[i]);
        assert(body@.subrange(0, i + 1) =~= body@.subrange(0, i as int).push(body@[i as int]));
        i += 1;
    }
    assert(body@.subrange(0, body@.len() as int) =~= body@);
    assert(writer@ =~= old(writer)@ + frame_of(body@));
    Ok(())
}

/// Reads one frame from `stream` at `*pos`: its two-byte length `n`, then `n` bytes,
/// which must be a well-formed envelope. On success `*pos` moves past the frame and the
/// body comes back; on failure `*pos` stays where it was.
pub fn read(stream: &[u8], pos: &mut usize) -> (r: Result<Vec<u8>, Error>)
    ensures
        match r {
            Ok(body) => frame_result(remaining(stream@, *old(pos) as int)) == Ok::<Seq<u8>, Error>(
                body@,
            ) && *final(pos) == *old(pos) + 2 + body@.len(),
            Err(e) => frame_result(remaining(stream@, *old(pos) as int)) == Err::<Seq<u8>, Error>(e)
                && *final(pos) == *old(pos),
        },
{
    let p = *pos;
    let len = stream.len();
    if p > len || len - p < 2 {
        return Err(Error::IoError);
    }
    let prefix = slice_subrange(stream, p, p + 2);
    let n = decode_u16(prefix) as usize;
    let ghost rest = remaining(stream@, p as int);
    assert(rest[0] == prefix@[0] && rest[1] == prefix@[1]);
    if len - p - 2 < n {
        return Err(Error::IoError);
    }
    let body = slice_subrange(stream, p + 2, p + 2 + n);
    assert(body@ =~= rest.subrange(2, 2 + n));
    match packet_kind(body) {
        Some(_) => {
            *pos = p + 2 + n;
            Ok(slice_to_vec(body))
        },
        None => Err(Error::DecodeError),
    }
}

/// Decoding the two bytes of `x` gives `x` back.
pub proof fn lemma_u16_round_trip(x: u16)
    ensures
        u16_value(u16_bytes(x as nat)[0], u16_bytes(x as nat)[1]) == x,
{
}

/// Reading at the place where a frame was written gives back the body that was framed,
/// whatever stood before it and whatever follows it.
pub proof fn lemma_read_after_write(earlier: Seq<u8>, body: Seq<u8>, later: Seq<u8>, k: PacketKind)
    requires
        body.len() <= MAX_PACKET_SIZE,
        envelope_names(body, k),
    ensures
        frame_result(remaining(earlier + frame_of(body) + later, earlier.len() as int)) == Ok::<
            Seq<u8>,
            Error,
        >(body),
{
    let s = earlier + frame_of(body) + later;
    let rest = remaining(s, earlier.len() as int);
    assert(rest =~= frame_of(body) + later);
    lemma_u16_round_trip(body.len() as u16);
    assert(rest.subrange(2, 2 + body.len() as int) =~= body);
}

/// A stream that ends after the length of a frame but before the whole body
/// gives an I/O error, never a body.
pub proof fn lemma_truncated_frame(body: Seq<u8>, kept: nat)
    requires
        body.len() <= MAX_PACKET_SIZE,
        kept < body.len(),
    ensures
        frame_result(frame_of(body).subrange(0, 2 + kept as int)) == Err::<Seq<u8>, Error>(
            Error::IoError,
        ),
{
    lemma_u16_round_trip(body.len() as u16);
}

/// A whole frame whose body names no variant gives a decode error.
pub proof fn lemma_unknown_tag(body: Seq<u8>)
    requires
        body.len() <= MAX_PACKET_SIZE,
        forall|k: PacketKind| !envelope_names(body, k),
    ensures
        frame_result(frame_of(body)) == Err::<Seq<u8>, Error>(Error::DecodeError),
{
    lemma_u16_round_trip(body.len() as u16);
    assert(frame_of(body).subrange(2, 2 + body.len() as int) =~= body);
}

/// A packet envelope that fits in a frame reads back whole from a stream it was
/// written to: the same variant, the same payload bytes.
pub proof fn lemma_packet_round_trip(
    earlier: Seq<u8>,
    k: PacketKind,
    payload: Seq<u8>,
    later: Seq<u8>,
)
    requires
        has_payload(k) ==> one_value(payload),
        envelope_of(k, payload).len() <= MAX_PACKET_SIZE,
    ensures
        frame_result(remaining(earlier + frame_of(envelope_of(k, payload)) + later, earlier.len() as int))
            == Ok::<Seq<u8>, Error>(envelope_of(k, payload)),
{
    lemma_envelope_round_trip(k, payload);
    lemma_read_after_write(earlier, envelope_of(k, payload), later, k);
}

} // verus!
