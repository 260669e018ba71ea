//! Compressed state events: a short state key and a short event id, eight
//! bytes each, most significant byte first.

use vstd::arithmetic::div_mod::lemma_div_denominator;
use vstd::prelude::*;

verus! {

/// The eight bytes of a number, most significant first.
pub open spec fn be_bytes(v: u64) -> Seq<u8> {
    seq![
        ((v / 0x100_0000_0000_0000) % 256) as u8,
        ((v / 0x1_0000_0000_0000) % 256) as u8,
        ((v / 0x100_0000_0000) % 256) as u8,
        ((v / 0x1_0000_0000) % 256) as u8,
        ((v / 0x100_0000) % 256) as u8,
        ((v / 0x1_0000) % 256) as u8,
        ((v / 0x100) % 256) as u8,
        (v % 256) as u8,
    ]
}

/// The number that eight bytes stand for, most significant first.
pub open spec fn be_value(b: Seq<u8>) -> int
    recommends
        b.len() == 8,
{
    b[0] * 0x100_0000_0000_0000 + b[1] * 0x1_0000_0000_0000 + b[2] * 0x100_0000_0000 + b[3]
        * 0x1_0000_0000 + b[4] * 0x100_0000 + b[5] * 0x1_0000 + b[6] * 0x100 + b[7]
}

/// Reading the bytes of a number gives the number back.
pub proof fn lemma_be_roundtrip(v: u64)
    ensures
        be_bytes(v).len() == 8,
        be_value(be_bytes(v)) == v,
{
    let x = v as int;
    let q1 = x / 256;
    let q2 = q1 / 256;
    let q3 = q2 / 256;
    let q4 = q3 / 256;
    let q5 = q4 / 256;
    let q6 = q5 / 256;
    let q7 = q6 / 256;
    lemma_div_denominator(x, 256, 256);
    lemma_div_denominator(x, 0x1_0000, 256);
    lemma_div_denominator(x, 0x100_0000, 256);
    lemma_div_denominator(x, 0x1_0000_0000, 256);
    lemma_div_denominator(x, 0x100_0000_0000, 256);
    lemma_div_denominator(x, 0x1_0000_0000_0000, 256);
    assert(q2 == x / 0x1_0000);
    assert(q3 == x / 0x100_0000);
    assert(q4 == x / 0x1_0000_0000);
    assert(q5 == x / 0x100_0000_0000);
    assert(q6 == x / 0x1_0000_0000_0000);
    assert(q7 == x / 0x100_0000_0000_0000);
    assert(0 <= q7 < 256);
    let b = be_bytes(v);
    assert(b[7] == x % 256);
    assert(b[6] == q1 % 256);
    assert(b[5] == q2 % 256);
    assert(b[4] == q3 % 256);
    assert(b[3] == q4 % 256);
    assert(b[2] == q5 % 256);
    assert(b[1] == q6 % 256);
    assert(b[0] == q7);
}

/// A compressed state event: the bytes of the short state key, then those
/// of the short event id.
pub open spec fn compressed(shortstatekey: u64, shorteventid: u64) -> Seq<u8> {
    be_bytes(shortstatekey) + be_bytes(shorteventid)
}

fn push_be(out: &mut Vec<u8>, v: u64)
    ensures
        final(out)@ == old(out)@ + be_bytes(v),
{
    out.push(((v / 0x100_0000_0000_0000) % 256) as u8);
    out.push(((v / 0x1_0000_0000_0000) % 256) as u8);
    out.push(((v / 0x100_0000_0000) % 256) as u8);
    out.push(((v / 0x1_0000_0000) % 256) as u8);
    out.push(((v / 0x100_0000) % 256) as u8);
    out.push(((v / 0x1_0000) % 256) as u8);
    out.push(((v / 0x100) % 256) as u8);
    out.push((v % 256) as u8);
    assert(out@ =~= old(out)@ + be_bytes(v));
}

/// Packs a short state key and a short event id into sixteen bytes.
pub fn compress_state_event(shortstatekey: u64, shorteventid: u64) -> (r: Vec<u8>)
    ensures
        r@ == compressed(shortstatekey, shorteventid),
        r@.len() == 16,
{
    let mut out: Vec<u8> = Vec::new();
    push_be(&mut out, shortstatekey);
    push_be(&mut out, shorteventid);
    out
}

fn read_be(b: &Vec<u8>, at: usize) -> (v: u64)
    requires
        at + 8 <= b@.len(),
    ensures
        v == be_value(b@.subrange(at as int, at + 8)),
{
    let n = b.len();
    assert(at + 8 <= n);
    let ghost s = b@.subrange(at as int, at + 8);
    assert(s[0] == b@[at + 0] && s[1] == b@[at + 1] && s[2] == b@[at + 2] && s[3] == b@[at + 3]
        && s[4] == b@[at + 4] && s[5] == b@[at + 5] && s[6] == b@[at + 6] && s[7] == b@[at + 7]);
    (b[at] as u64) * 0x100_0000_0000_0000 + (b[at + 1] as u64) * 0x1_0000_0000_0000 + (b[at
        + 2] as u64) * 0x100_0000_0000 + (b[at + 3] as u64) * 0x1_0000_0000 + (b[at + 4] as u64)
        * 0x100_0000 + (b[at + 5] as u64) * 0x1_0000 + (b[at + 6] as u64) * 0x100 + (b[at
        + 7] as u64)
}

/// Unpacks a compressed state event into its short state key and its
/// short event id. Anything but sixteen bytes is no compressed state event.
pub fn parse_compressed_state_event(bytes: &Vec<u8>) -> (r: Option<(u64, u64)>)
    ensures
        r is Some <==> bytes@.len() == 16,
        r matches Some(p) ==> p.0 == be_value(bytes@.subrange(0, 8)) && p.1 == be_value(
            bytes@.subrange(8, 16),
        ),
{
    if bytes.len() != 16 {
        return None;
    }
    Some((read_be(bytes, 0), read_be(bytes, 8)))
}

/// Unpacking a compressed state event gives back what was packed.
pub proof fn lemma_compress_roundtrip(shortstatekey: u64, shorteventid: u64)
    ensures
        compressed(shortstatekey, shorteventid).len() == 16,
        be_value(compressed(shortstatekey, shorteventid).subrange(0, 8)) == shortstatekey,
        be_value(compressed(shortstatekey, shorteventid).subrange(8, 16)) == shorteventid,
{
    let c = compressed(shortstatekey, shorteventid);
    assert(c.subrange(0, 8) =~= be_bytes(shortstatekey));
    assert(c.subrange(8, 16) =~= be_bytes(shorteventid));
    lemma_be_roundtrip(shortstatekey);
    lemma_be_roundtrip(shorteventid);
}

} // verus!
