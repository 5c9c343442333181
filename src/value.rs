use vstd::prelude::*;

verus! {

/// The number that the two big-endian bytes of `b` at `at` stand for.
pub open spec fn be16(b: Seq<u8>, at: int) -> nat {
    (b[at] as nat) * 256 + (b[at + 1] as nat)
}

/// The number that the four big-endian bytes of `b` at `at` stand for.
pub open spec fn be32(b: Seq<u8>, at: int) -> nat {
    (b[at] as nat) * 16777216 + (b[at + 1] as nat) * 65536 + (b[at + 2] as nat) * 256 + (
    b[at + 3] as nat)
}

/// What the MessagePack marker at `pos` of `b` announces: how many bytes the item
/// takes after its marker, and how many values nest directly in it (the entries of
/// an array, keys and values of a map). `None` for the unused marker, and where the
/// bytes that hold a length run past the end of `b`.
pub open spec fn item_head(b: Seq<u8>, pos: int) -> Option<(nat, nat)> {
    let m = b[pos];
    let rest = b.len() - pos;
    if m <= 0x7f || m >= 0xe0 || m == 0xc0 || m == 0xc2 || m == 0xc3 {
        Some((0, 0))
    } else if 0x80 <= m <= 0x8f {
        Some((0, 2 * ((m - 0x80) as nat)))
    } else if 0x90 <= m <= 0x9f {
        Some((0, (m - 0x90) as nat))
    } else if 0xa0 <= m <= 0xbf {
        Some(((m - 0xa0) as nat, 0))
    } else if m == 0xc4 || m == 0xd9 {
        if rest >= 2 { Some((1 + b[pos + 1] as nat, 0)) } else { None }
    } else if m == 0xc5 || m == 0xda {
        if rest >= 3 { Some((2 + be16(b, pos + 1), 0)) } else { None }
    } else if m == 0xc6 || m == 0xdb {
        if rest >= 5 { Some((4 + be32(b, pos + 1), 0)) } else { None }
    } else if m == 0xc7 {
        if rest >= 2 { Some((2 + b[pos + 1] as nat, 0)) } else { None }
    } else if m == 0xc8 {
        if rest >= 3 { Some((3 + be16(b, pos + 1), 0)) } else { None }
    } else if m == 0xc9 {
        if rest >= 5 { Some((5 + be32(b, pos + 1), 0)) } else { None }
    } else if m == 0xcc || m == 0xd0 {
        Some((1, 0))
    } else if m == 0xcd || m == 0xd1 || m == 0xd4 {
        Some((2, 0))
    } else if m == 0xd5 {
        Some((3, 0))
    } else if m == 0xca || m == 0xce || m == 0xd2 {
        Some((4, 0))
    } else if m == 0xcb || m == 0xcf || m == 0xd3 {
        Some((8, 0))
    } else if m == 0xd6 {
        Some((5, 0))
    } else if m == 0xd7 {
        Some((9, 0))
    } else if m == 0xd8 {
        Some((17, 0))
    } else if m == 0xdc {
        if rest >= 3 { Some((2, be16(b, pos + 1))) } else { None }
    } else if m == 0xdd {
        if rest >= 5 { Some((4, be32(b, pos + 1))) } else { None }
    } else if m == 0xde {
        if rest >= 3 { Some((2, 2 * be16(b, pos + 1))) } else { None }
    } else if m == 0xdf {
        if rest >= 5 { Some((4, 2 * be32(b, pos + 1))) } else { None }
    } else {
        None
    }
}

/// Where `pending` whole MessagePack values, read one after another from `pos`,
/// end in `b`; `None` where `b` ends first or holds a marker that no value starts with.
pub open spec fn skip_values(b: Seq<u8>, pos: int, pending: nat) -> Option<int>
    decreases b.len() - pos,
{
    if pending == 0 {
        Some(pos)
    } else if pos < 0 || pos >= b.len() {
        None
    } else {
        match item_head(b, pos) {
            Some((extra, kids)) => if pos + 1 + extra > b.len() {
                None
            } else {
                skip_values(b, pos + 1 + extra, (pending - 1 + kids) as nat)
            },
            None => None,
        }
    }
}

/// Whether `b` is exactly one MessagePack value, with no byte left over.
pub open spec fn one_value(b: Seq<u8>) -> bool {
    skip_values(b, 0, 1) == Some(b.len() as int)
}

/// Each value takes a byte at least, so more pending values than bytes left never end.
proof fn lemma_values_need_bytes(b: Seq<u8>, pos: int, pending: nat)
    requires
        0 <= pos <= b.len(),
        skip_values(b, pos, pending) is Some,
    ensures
        pending <= b.len() - pos,
    decreases b.len() - pos,
{
    if pending > 0 {
        let (extra, kids) = item_head(b, pos).unwrap();
        lemma_values_need_bytes(b, pos + 1 + extra, (pending - 1 + kids) as nat);
    }
}

/// The head of the item at `pos`, as `item_head` states it.
fn read_head(b: &[u8], pos: usize) -> (r: Option<(u64, u64)>)
    requires
        pos < b@.len(),
    ensures
        match r {
            Some((extra, kids)) => item_head(b@, pos as int) == Some((extra as nat, kids as nat)),
            None => item_head(b@, pos as int) is None,
        },
{
    let m = b[pos];
    let rest = b.len() - pos;
    if m <= 0x7f || m >= 0xe0 || m == 0xc0 || m == 0xc2 || m == 0xc3 {
        Some((0, 0))
    } else if 0x80 <= m && m <= 0x8f {
        Some((0, 2 * ((m - 0x80) as u64)))
    } else if 0x90 <= m && m <= 0x9f {
        Some((0, (m - 0x90) as u64))
    } else if 0xa0 <= m && m <= 0xbf {
        Some(((m - 0xa0) as u64, 0))
    } else if m == 0xc4 || m == 0xd9 {
        if rest >= 2 { Some((1 + b[pos + 1] as u64, 0)) } else { None }
    } else if m == 0xc5 || m == 0xda {
        if rest >= 3 { Some((2 + read_be16(b, pos + 1), 0)) } else { None }
    } else if m == 0xc6 || m == 0xdb {
        if rest >= 5 { Some((4 + read_be32(b, pos + 1), 0)) } else { None }
    } else if m == 0xc7 {
        if rest >= 2 { Some((2 + b[pos + 1] as u64, 0)) } else { None }
    } else if m == 0xc8 {
        if rest >= 3 { Some((3 + read_be16(b, pos + 1), 0)) } else { None }
    } else if m == 0xc9 {
        if rest >= 5 { Some((5 + read_be32(b, pos + 1), 0)) } else { None }
    } else if m == 0xcc || m == 0xd0 {
        Some((1, 0))
    } else if m == 0xcd || m == 0xd1 || m == 0xd4 {
        Some((2, 0))
    } else if m == 0xd5 {
        Some((3, 0))
    } else if m == 0xca || m == 0xce || m == 0xd2 {
        Some((4, 0))
    } else if m == 0xcb || m == 0xcf || m == 0xd3 {
        Some((8, 0))
    } else if m == 0xd6 {
        Some((5, 0))
    } else if m == 0xd7 {
        Some((9, 0))
    } else if m == 0xd8 {
        Some((17, 0))
    } else if m == 0xdc {
        if rest >= 3 { Some((2, read_be16(b, pos + 1))) } else { None }
    } else if m == 0xdd {
        if rest >= 5 { Some((4, read_be32(b, pos + 1))) } else { None }
    } else if m == 0xde {
        if rest >= 3 { Some((2, 2 * read_be16(b, pos + 1))) } else { None }
    } else if m == 0xdf {
        if rest >= 5 { Some((4, 2 * read_be32(b, pos + 1))) } else { None }
    } else {
        None
    }
}

pub(crate) fn read_be16(b: &[u8], at: usize) -> (r: u64)
    requires
        at + 2 <= b@.len(),
    ensures
        r == be16(b@, at as int),
        r < 0x10000,
{
    (b[at] as u64) * 256 + (b[at + 1] as u64)
}

pub(crate) fn read_be32(b: &[u8], at: usize) -> (r: u64)
    requires
        at + 4 <= b@.len(),
    ensures
        r == be32(b@, at as int),
        r < 0x1_0000_0000,
{
    (b[at] as u64) * 16777216 + (b[at + 1] as u64) * 65536 + (b[at + 2] as u64) * 256 + (b[at
        + 3] as u64)
}

/// Where the MessagePack value that starts at `start` of `b` ends.
pub fn value_end(b: &[u8], start: usize) -> (r: Option<usize>)
    requires
        start <= b@.len(),
    ensures
        match r {
            Some(e) => skip_values(b@, start as int, 1) == Some(e as int),
            None => skip_values(b@, start as int, 1) is None,
        },
{
    let len = b.len();
    let mut pos = start;
    let mut pending: u64 = 1;
    while pending > 0
        invariant
            len == b@.len(),
            pos <= len,
            skip_values(b@, start as int, 1) == skip_values(b@, pos as int, pending as nat),
        decreases len - pos,
    {
        if pos >= len {
            return None;
        }
        match read_head(b, pos) {
            None => {
                return None;
            },
            Some((extra, kids)) => {
                let rest = (len - pos) as u64;
                if extra >= rest {
                    return None;
                }
                let next = pos + 1 + extra as usize;
                let after = rest - 1 - extra;
                if pending - 1 > after || kids > after - (pending - 1) {
                    proof {
                        if skip_values(b@, next as int, (pending - 1 + kids) as nat) is Some {
                            lemma_values_need_bytes(b@, next as int, (pending - 1 + kids) as nat);
                        }
                    }
                    return None;
                }
                pos = next;
                pending = pending - 1 + kids;
            },
        }
    }
    Some(pos)
}

/// Whether `b` is exactly one MessagePack value.
pub fn is_one_value(b: &[u8]) -> (r: bool)
    ensures
        r == one_value(b@),
{
    match value_end(b, 0) {
        Some(e) => e == b.len(),
        None => false,
    }
}

/// Values read from inside `q` end at the same place when `q` follows other bytes.
pub(crate) proof fn lemma_skip_after_prefix(a: Seq<u8>, q: Seq<u8>, i: int, n: nat)
    requires
        0 <= i <= q.len(),
    ensures
        skip_values(a + q, a.len() + i, n) == match skip_values(q, i, n) {
            Some(e) => Some(a.len() + e),
            None => None::<int>,
        },
    decreases q.len() - i,
{
    let b = a + q;
    let p = a.len() + i;
    if n > 0 && i < q.len() {
        assert(b[p] == q[i]);
        if i + 1 < q.len() {
            assert(b[p + 1] == q[i + 1]);
        }
        if i + 2 < q.len() {
            assert(b[p + 2] == q[i + 2]);
        }
        if i + 3 < q.len() {
            assert(b[p + 3] == q[i + 3]);
        }
        if i + 4 < q.len() {
            assert(b[p + 4] == q[i + 4]);
        }
        assert(item_head(b, p) == item_head(q, i));
        match item_head(q, i) {
            Some((extra, kids)) => {
                if i + 1 + extra <= q.len() {
                    lemma_skip_after_prefix(a, q, i + 1 + extra, (n - 1 + kids) as nat);
                    assert(a.len() + (i + 1 + extra) == p + 1 + extra);
                }
            },
            None => {},
        }
    }
}

} // verus!
