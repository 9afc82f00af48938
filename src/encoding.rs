//! Length-prefixed framing of byte strings. Each field is written as eight
//! big-endian length bytes followed by the field's bytes, so a sequence of
//! framed fields can be split back into its fields unambiguously.
use vstd::prelude::*;
use vstd::utf8::encode_utf8;

verus! {

broadcast use vstd::utf8::encode_utf8_decode_utf8;

/// The eight big-endian bytes of `n`.
pub open spec fn be8(n: u64) -> Seq<u8> {
    seq![
        (n >> 56u64) as u8,
        (n >> 48u64) as u8,
        (n >> 40u64) as u8,
        (n >> 32u64) as u8,
        (n >> 24u64) as u8,
        (n >> 16u64) as u8,
        (n >> 8u64) as u8,
        n as u8,
    ]
}

/// A byte string framed by its length.
pub open spec fn frame(b: Seq<u8>) -> Seq<u8> {
    be8(b.len() as u64) + b
}

/// The UTF-8 bytes of a string, framed by their length.
pub open spec fn frame_str(s: Seq<char>) -> Seq<u8> {
    frame(encode_utf8(s))
}

/// A string whose UTF-8 encoding has a length that a frame can record.
pub open spec fn frameable(s: Seq<char>) -> bool {
    encode_utf8(s).len() <= u64::MAX
}

pub proof fn lemma_be8_injective(a: u64, b: u64)
    requires
        be8(a) == be8(b),
    ensures
        a == b,
{
    assert(be8(a)[0] == be8(b)[0] && be8(a)[1] == be8(b)[1] && be8(a)[2] == be8(b)[2]
        && be8(a)[3] == be8(b)[3] && be8(a)[4] == be8(b)[4] && be8(a)[5] == be8(b)[5]
        && be8(a)[6] == be8(b)[6] && be8(a)[7] == be8(b)[7]);
    assert(a == b) by (bit_vector)
        requires
            (a >> 56u64) as u8 == (b >> 56u64) as u8,
            (a >> 48u64) as u8 == (b >> 48u64) as u8,
            (a >> 40u64) as u8 == (b >> 40u64) as u8,
            (a >> 32u64) as u8 == (b >> 32u64) as u8,
            (a >> 24u64) as u8 == (b >> 24u64) as u8,
            (a >> 16u64) as u8 == (b >> 16u64) as u8,
            (a >> 8u64) as u8 == (b >> 8u64) as u8,
            a as u8 == b as u8,
    ;
}

/// A framed field followed by anything else splits back into that field and
/// the rest.
pub proof fn lemma_frame_split(x1: Seq<u8>, r1: Seq<u8>, x2: Seq<u8>, r2: Seq<u8>)
    requires
        x1.len() <= u64::MAX,
        x2.len() <= u64::MAX,
        frame(x1) + r1 == frame(x2) + r2,
    ensures
        x1 == x2,
        r1 == r2,
{
    let s1 = frame(x1) + r1;
    let s2 = frame(x2) + r2;
    assert(be8(x1.len() as u64) =~= s1.subrange(0, 8));
    assert(be8(x2.len() as u64) =~= s2.subrange(0, 8));
    lemma_be8_injective(x1.len() as u64, x2.len() as u64);
    assert(x1 =~= s1.subrange(8, 8 + x1.len() as int));
    assert(x2 =~= s2.subrange(8, 8 + x2.len() as int));
    assert(r1 =~= s1.subrange(8 + x1.len() as int, s1.len() as int));
    assert(r2 =~= s2.subrange(8 + x2.len() as int, s2.len() as int));
}

/// The same, for framed strings.
pub proof fn lemma_frame_str_split(a: Seq<char>, r1: Seq<u8>, b: Seq<char>, r2: Seq<u8>)
    requires
        frameable(a),
        frameable(b),
        frame_str(a) + r1 == frame_str(b) + r2,
    ensures
        a == b,
        r1 == r2,
{
    lemma_frame_split(encode_utf8(a), r1, encode_utf8(b), r2);
    assert(vstd::utf8::decode_utf8(encode_utf8(a)) == a);
    assert(vstd::utf8::decode_utf8(encode_utf8(b)) == b);
}

/// Appends the eight big-endian bytes of `n`.
pub fn push_be8(out: &mut Vec<u8>, n: u64)
    ensures
        final(out)@ == old(out)@ + be8(n),
{
    out.push((n >> 56u64) as u8);
    out.push((n >> 48u64) as u8);
    out.push((n >> 40u64) as u8);
    out.push((n >> 32u64) as u8);
    out.push((n >> 24u64) as u8);
    out.push((n >> 16u64) as u8);
    out.push((n >> 8u64) as u8);
    out.push(n as u8);
    assert(final(out)@ =~= old(out)@ + be8(n));
}

/// Appends the UTF-8 bytes of `s`, framed by their length.
pub fn push_frame_str(out: &mut Vec<u8>, s: &str)
    ensures
        final(out)@ == old(out)@ + frame_str(s@),
{
    let ghost start = out@;
    let b: &[u8] = s.as_bytes();
    push_be8(out, b.len() as u64);
    let ghost head = out@;
    let mut i: usize = 0;
    while i < b.len()
        invariant
            i <= b@.len(),
            b@ == encode_utf8(s@),
            head == start + be8(b@.len() as u64),
            out@ == head + b@.subrange(0, i as int),
        decreases b@.len() - i,
    {
        out.push(b[i]);
        i = i + 1;
        assert(out@ =~= head + b@.subrange(0, i as int));
    }
    assert(b@.subrange(0, b@.len() as int) =~= b@);
    assert(out@ =~= start + frame_str(s@));
}

} // verus!
