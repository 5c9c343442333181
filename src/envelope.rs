use vstd::prelude::*;
use vstd::string::*;
use crate::value::{
    one_value, is_one_value, skip_values, item_head, lemma_skip_after_prefix, be16, be32, read_be16,
    read_be32,
};
use crate::packet::{
    PacketKind, KIND_COUNT, tag_bytes, has_payload, tag_name, kind_index, kind_at, lemma_tags_distinct,
    lemma_tag_signature,
};

verus! {

/// Marker of a MessagePack map with one entry.
pub const MAP_ONE: u8 = 0x81;
/// Lowest marker of a MessagePack string of fewer than 32 bytes; its low five bits are the length.
pub const FIXSTR_LOW: u8 = 0xa0;
/// Highest such marker.
pub const FIXSTR_HIGH: u8 = 0xbf;
/// Marker of a MessagePack string whose length stands in the next byte.
pub const STR8: u8 = 0xd9;
/// Marker of a MessagePack string whose length stands in the next two bytes.
pub const STR16: u8 = 0xda;
/// Marker of a MessagePack string whose length stands in the next four bytes.
pub const STR32: u8 = 0xdb;
/// Marker of a MessagePack map whose entry count stands in the next two bytes.
pub const MAP16: u8 = 0xde;
/// Marker of a MessagePack map whose entry count stands in the next four bytes.
pub const MAP32: u8 = 0xdf;

/// Where the text of a MessagePack string whose header starts at `at` lies in `b`,
/// as its start and its length, when the header and the text fit in `b`. Every string
/// form is taken, not only the shortest one that fits the text.
pub open spec fn str_span(b: Seq<u8>, at: int) -> Option<(int, int)> {
    if 0 <= at < b.len() && FIXSTR_LOW <= b[at] <= FIXSTR_HIGH {
        let l = b[at] - FIXSTR_LOW;
        if at + 1 + l <= b.len() {
            Some((at + 1, l))
        } else {
            None
        }
    } else if 0 <= at && at + 2 <= b.len() && b[at] == STR8 {
        let l = b[at + 1] as int;
        if at + 2 + l <= b.len() {
            Some((at + 2, l))
        } else {
            None
        }
    } else if 0 <= at && at + 3 <= b.len() && b[at] == STR16 {
        let l = be16(b, at + 1) as int;
        if at + 3 + l <= b.len() {
            Some((at + 3, l))
        } else {
            None
        }
    } else if 0 <= at && at + 5 <= b.len() && b[at] == STR32 {
        let l = be32(b, at + 1) as int;
        if at + 5 + l <= b.len() {
            Some((at + 5, l))
        } else {
            None
        }
    } else {
        None
    }
}

/// Where the key of a MessagePack map with exactly one entry starts, when `b` begins
/// with the header of one, in any of the map forms.
pub open spec fn map_one_key(b: Seq<u8>) -> Option<int> {
    if b.len() >= 1 && b[0] == MAP_ONE {
        Some(1)
    } else if b.len() >= 3 && b[0] == MAP16 && be16(b, 1) == 1 {
        Some(3)
    } else if b.len() >= 5 && b[0] == MAP32 && be32(b, 1) == 1 {
        Some(5)
    } else {
        None
    }
}

/// Whether the text at `span` of `b` is the tag of `k`.
pub open spec fn span_is_tag(b: Seq<u8>, span: (int, int), k: PacketKind) -> bool {
    b.subrange(span.0, span.0 + span.1) == tag_bytes(k)
}

/// Whether `b` is the envelope of a packet of variant `k`: one MessagePack value with
/// nothing after it. A variant without payload is its tag alone, as a string; any other
/// is a one-entry map from its tag to its payload. Any string or map form is taken.
pub open spec fn envelope_names(b: Seq<u8>, k: PacketKind) -> bool {
    one_value(b) && if has_payload(k) {
        match map_one_key(b) {
            Some(at) => match str_span(b, at) {
                Some(span) => span_is_tag(b, span, k) && span.0 + span.1 < b.len(),
                None => false,
            },
            None => false,
        }
    } else {
        match str_span(b, 0) {
            Some(span) => span_is_tag(b, span, k) && span.0 + span.1 == b.len(),
            None => false,
        }
    }
}

/// The text of the MessagePack string whose header starts at `at`.
fn string_at(b: &[u8], at: usize) -> (r: Option<(usize, usize)>)
    ensures
        match r {
            Some((s, l)) => str_span(b@, at as int) == Some((s as int, l as int)) && s + l
                <= b@.len(),
            None => str_span(b@, at as int) is None,
        },
{
    if at >= b.len() {
        return None;
    }
    let rest = b.len() - at;
    let m = b[at];
    if FIXSTR_LOW <= m && m <= FIXSTR_HIGH {
        let l = (m - FIXSTR_LOW) as usize;
        if l <= rest - 1 {
            Some((at + 1, l))
        } else {
            None
        }
    } else if rest >= 2 && m == STR8 {
        let l = b[at + 1] as usize;
        if l <= rest - 2 {
            Some((at + 2, l))
        } else {
            None
        }
    } else if rest >= 3 && m == STR16 {
        let l = read_be16(b, at + 1);
        if l <= (rest - 3) as u64 {
            Some((at + 3, l as usize))
        } else {
            None
        }
    } else if rest >= 5 && m == STR32 {
        let l = read_be32(b, at + 1);
        if l <= (rest - 5) as u64 {
            Some((at + 5, l as usize))
        } else {
            None
        }
    } else {
        None
    }
}

/// Where the key of the one-entry map that `b` begins with starts.
fn map_one_at(b: &[u8]) -> (r: Option<usize>)
    ensures
        match r {
            Some(at) => map_one_key(b@) == Some(at as int),
            None => map_one_key(b@) is None,
        },
{
    let len = b.len();
    if len >= 1 && b[0] == MAP_ONE {
        Some(1)
    } else if len >= 3 && b[0] == MAP16 && read_be16(b, 1) == 1 {
        Some(3)
    } else if len >= 5 && b[0] == MAP32 && read_be32(b, 1) == 1 {
        Some(5)
    } else {
        None
    }
}

/// Whether the `l` bytes of `b` from `s` on spell the tag of `k`.
fn is_tag(b: &[u8], s: usize, l: usize, k: PacketKind) -> (r: bool)
    requires
        s + l <= b@.len(),
    ensures
        r == (b@.subrange(s as int, s + l) == tag_bytes(k)),
{
    let name = tag_name(k);
    let n = name.unicode_len();
    if n != l {
        assert(b@.subrange(s as int, s + l).len() != tag_bytes(k).len());
        return false;
    }
    let len = b.len();
    let mut i: usize = 0;
    while i < l
        invariant
            len == b@.len(),
            i <= l,
            s + l <= b@.len(),
            name@.len() == l,
            name@ == crate::packet::tag_of(k),
            forall|j: int| 0 <= j < i ==> b@[s + j] == name@[j] as u8,
        decreases l - i,
    {
        if b[s + i] != name.get_char(i) as u8 {
            assert(b@.subrange(s as int, s + l)[i as int] != tag_bytes(k)[i as int]);
            return false;
        }
        i += 1;
    }
    assert(b@.subrange(s as int, s + l) =~= tag_bytes(k));
    true
}

/// The variant, among those with a payload or those without as `payload` says,
/// whose tag the `l` bytes of `b` from `s` on spell.
fn find_kind(b: &[u8], s: usize, l: usize, payload: bool) -> (r: Option<PacketKind>)
    requires
        s + l <= b@.len(),
    ensures
        match r {
            Some(k) => has_payload(k) == payload && span_is_tag(b@, (s as int, l as int), k),
            None => forall|k: PacketKind|
                has_payload(k) == payload ==> !span_is_tag(b@, (s as int, l as int), k),
        },
{
    let mut i: usize = 0;
    while i < KIND_COUNT
        invariant
            s + l <= b@.len(),
            forall|k: PacketKind|
                kind_index(k) < i && has_payload(k) == payload ==> !span_is_tag(
                    b@,
                    (s as int, l as int),
                    k,
                ),
        decreases KIND_COUNT - i,
    {
        let k = kind_at(i);
        let p = k != PacketKind::MessageListReceived;
        if p == payload && is_tag(b, s, l, k) {
            return Some(k);
        }
        proof {
            assert forall|k2: PacketKind| kind_index(k2) == i implies k2 == k by {}
        }
        i += 1;
    }
    proof {
        assert forall|k: PacketKind| #[trigger] kind_index(k) < KIND_COUNT by {}
    }
    None
}

/// The variant that the envelope `body` names, if it is a well-formed one.
pub fn packet_kind(body: &[u8]) -> (r: Option<PacketKind>)
    ensures
        match r {
            Some(k) => envelope_names(body@, k),
            None => forall|k: PacketKind| !envelope_names(body@, k),
        },
{
    if !is_one_value(body) {
        return None;
    }
    if let Some(at) = map_one_at(body) {
        assert(str_span(body@, 0) is None);
        match string_at(body, at) {
            Some((s, l)) => {
                if l < body.len() - s {
                    find_kind(body, s, l, true)
                } else {
                    None
                }
            },
            None => None,
        }
    } else {
        match string_at(body, 0) {
            Some((s, l)) => {
                if l == body.len() - s {
                    find_kind(body, s, l, false)
                } else {
                    None
                }
            },
            None => None,
        }
    }
}

/// An envelope names one variant at most, so `packet_kind` has one right answer.
pub proof fn lemma_envelope_unique(b: Seq<u8>, k1: PacketKind, k2: PacketKind)
    requires
        envelope_names(b, k1),
        envelope_names(b, k2),
    ensures
        k1 == k2,
{
    lemma_tags_distinct(k1, k2);
}

/// The envelope that carries `payload` as a packet of variant `k`: the bare tag for the
/// variant without payload, else a one-entry map from the tag to `payload`.
pub open spec fn envelope_of(k: PacketKind, payload: Seq<u8>) -> Seq<u8> {
    let name = seq![(FIXSTR_LOW + tag_bytes(k).len()) as u8] + tag_bytes(k);
    if has_payload(k) {
        seq![MAP_ONE] + name + payload
    } else {
        name
    }
}

/// The envelope built for a variant is read as that variant, and as no other,
/// whatever single value its payload is.
pub proof fn lemma_envelope_round_trip(k: PacketKind, payload: Seq<u8>)
    requires
        has_payload(k) ==> one_value(payload),
    ensures
        envelope_names(envelope_of(k, payload), k),
        forall|k2: PacketKind| envelope_names(envelope_of(k, payload), k2) ==> k2 == k,
{
    lemma_tag_signature(k);
    let tag = tag_bytes(k);
    let name = seq![(FIXSTR_LOW + tag.len()) as u8] + tag;
    let b = envelope_of(k, payload);
    if has_payload(k) {
        let head = seq![MAP_ONE] + name;
        assert(b == head + payload);
        assert(b[0] == MAP_ONE);
        assert(b[1] == (FIXSTR_LOW + tag.len()) as u8);
        assert(str_span(b, 1) == Some((2int, tag.len() as int)));
        assert(b.subrange(2, 2 + tag.len() as int) =~= tag);
        assert(payload.len() > 0);
        lemma_skip_after_prefix(head, payload, 0, 1);
        assert(item_head(b, 0) == Some((0nat, 2nat)));
        assert(item_head(b, 1) == Some((tag.len(), 0nat)));
        assert(skip_values(b, 1, 2) == skip_values(b, 2 + tag.len() as int, 1));
        assert(skip_values(b, 0, 1) == skip_values(b, 1, 2));
        assert(one_value(b));
    } else {
        assert(b[0] == (FIXSTR_LOW + tag.len()) as u8);
        assert(str_span(b, 0) == Some((1int, tag.len() as int)));
        assert(b.subrange(1, 1 + tag.len() as int) =~= tag);
        assert(item_head(b, 0) == Some((tag.len(), 0nat)));
        assert(skip_values(b, 1 + tag.len() as int, 0) == Some(b.len() as int));
        assert(one_value(b));
    }
    assert forall|k2: PacketKind| envelope_names(b, k2) implies k2 == k by {
        lemma_envelope_unique(b, k, k2);
    }
}

} // verus!
