//! Canonical serialization of a cache key.
//!
//! A cache record must be a deterministic, injective function of the pair
//! (note text, synthesis configuration): two pairs are equal exactly when
//! their serialized forms are byte-identical.  The encoding is fixed and
//! self-delimiting: the character count of the text as eight little-endian
//! bytes, each character as four little-endian bytes of its scalar value,
//! then the byte count of the configuration as eight little-endian bytes,
//! then the configuration bytes themselves.

use vstd::prelude::*;

verus! {

/// The eight little-endian bytes of a 64-bit value.
pub open spec fn spec_u64_le(n: u64) -> Seq<u8> {
    seq![
        (n & 0xff) as u8,
        ((n >> 8) & 0xff) as u8,
        ((n >> 16) & 0xff) as u8,
        ((n >> 24) & 0xff) as u8,
        ((n >> 32) & 0xff) as u8,
        ((n >> 40) & 0xff) as u8,
        ((n >> 48) & 0xff) as u8,
        ((n >> 56) & 0xff) as u8,
    ]
}

/// The four little-endian bytes of a 32-bit value.
pub open spec fn spec_u32_le(n: u32) -> Seq<u8> {
    seq![
        (n & 0xff) as u8,
        ((n >> 8) & 0xff) as u8,
        ((n >> 16) & 0xff) as u8,
        ((n >> 24) & 0xff) as u8,
    ]
}

/// The four-byte encoding of one character.
pub open spec fn spec_char_le(c: char) -> Seq<u8> {
    spec_u32_le(c as u32)
}

/// The concatenated four-byte encodings of a text.
pub open spec fn spec_text_bytes(t: Seq<char>) -> Seq<u8>
    decreases t.len(),
{
    if t.len() == 0 {
        Seq::empty()
    } else {
        spec_char_le(t[0]) + spec_text_bytes(t.drop_first())
    }
}

/// The canonical cache record for a (text, configuration) pair.
pub open spec fn spec_cache_record(text: Seq<char>, config: Seq<u8>) -> Seq<u8> {
    spec_u64_le(text.len() as u64) + spec_text_bytes(text) + spec_u64_le(config.len() as u64)
        + config
}

pub proof fn lemma_u64_le_injective(a: u64, b: u64)
    requires
        spec_u64_le(a) == spec_u64_le(b),
    ensures
        a == b,
{
    assert(spec_u64_le(a)[0] == spec_u64_le(b)[0]);
    assert(spec_u64_le(a)[1] == spec_u64_le(b)[1]);
    assert(spec_u64_le(a)[2] == spec_u64_le(b)[2]);
    assert(spec_u64_le(a)[3] == spec_u64_le(b)[3]);
    assert(spec_u64_le(a)[4] == spec_u64_le(b)[4]);
    assert(spec_u64_le(a)[5] == spec_u64_le(b)[5]);
    assert(spec_u64_le(a)[6] == spec_u64_le(b)[6]);
    assert(spec_u64_le(a)[7] == spec_u64_le(b)[7]);
    assert((a & 0xff) as u8 == (b & 0xff) as u8 && ((a >> 8) & 0xff) as u8 == ((b >> 8) & 0xff)
        as u8 && ((a >> 16) & 0xff) as u8 == ((b >> 16) & 0xff) as u8 && ((a >> 24) & 0xff) as u8
        == ((b >> 24) & 0xff) as u8 && ((a >> 32) & 0xff) as u8 == ((b >> 32) & 0xff) as u8 && ((a
        >> 40) & 0xff) as u8 == ((b >> 40) & 0xff) as u8 && ((a >> 48) & 0xff) as u8 == ((b >> 48)
        & 0xff) as u8 && ((a >> 56) & 0xff) as u8 == ((b >> 56) & 0xff) as u8 ==> a == b)
        by (bit_vector);
}

pub proof fn lemma_u32_le_injective(a: u32, b: u32)
    requires
        spec_u32_le(a) == spec_u32_le(b),
    ensures
        a == b,
{
    assert(spec_u32_le(a)[0] == spec_u32_le(b)[0]);
    assert(spec_u32_le(a)[1] == spec_u32_le(b)[1]);
    assert(spec_u32_le(a)[2] == spec_u32_le(b)[2]);
    assert(spec_u32_le(a)[3] == spec_u32_le(b)[3]);
    assert((a & 0xff) as u8 == (b & 0xff) as u8 && ((a >> 8) & 0xff) as u8 == ((b >> 8) & 0xff)
        as u8 && ((a >> 16) & 0xff) as u8 == ((b >> 16) & 0xff) as u8 && ((a >> 24) & 0xff) as u8
        == ((b >> 24) & 0xff) as u8 ==> a == b) by (bit_vector);
}

pub proof fn lemma_char_le_injective(a: char, b: char)
    requires
        spec_char_le(a) == spec_char_le(b),
    ensures
        a == b,
{
    lemma_u32_le_injective(a as u32, b as u32);
}

pub proof fn lemma_text_bytes_len(t: Seq<char>)
    ensures
        spec_text_bytes(t).len() == 4 * t.len(),
    decreases t.len(),
{
    if t.len() > 0 {
        lemma_text_bytes_len(t.drop_first());
    }
}

/// Texts of the same length with the same encoding are the same text.
pub proof fn lemma_text_bytes_injective(t1: Seq<char>, t2: Seq<char>)
    requires
        t1.len() == t2.len(),
        spec_text_bytes(t1) == spec_text_bytes(t2),
    ensures
        t1 == t2,
    decreases t1.len(),
{
    if t1.len() > 0 {
        lemma_text_bytes_len(t1.drop_first());
        lemma_text_bytes_len(t2.drop_first());
        let b1 = spec_text_bytes(t1);
        let b2 = spec_text_bytes(t2);
        assert(spec_char_le(t1[0]) =~= b1.subrange(0, 4)) by {
            assert(forall|i: int| 0 <= i < 4 ==> b1[i] == spec_char_le(t1[0])[i]);
        }
        assert(spec_char_le(t2[0]) =~= b2.subrange(0, 4)) by {
            assert(forall|i: int| 0 <= i < 4 ==> b2[i] == spec_char_le(t2[0])[i]);
        }
        lemma_char_le_injective(t1[0], t2[0]);
        assert(spec_text_bytes(t1.drop_first()) =~= b1.subrange(4, b1.len() as int)) by {
            assert(forall|i: int| 0 <= i < b1.len() - 4 ==> spec_text_bytes(t1.drop_first())[i]
                == b1[i + 4]);
        }
        assert(spec_text_bytes(t2.drop_first()) =~= b2.subrange(4, b2.len() as int)) by {
            assert(forall|i: int| 0 <= i < b2.len() - 4 ==> spec_text_bytes(t2.drop_first())[i]
                == b2[i + 4]);
        }
        lemma_text_bytes_injective(t1.drop_first(), t2.drop_first());
        assert forall|i: int| 0 <= i < t1.len() implies t1[i] == t2[i] by {
            if i > 0 {
                assert(t1[i] == t1.drop_first()[i - 1]);
                assert(t2[i] == t2.drop_first()[i - 1]);
            }
        }
        assert(t1 =~= t2);
    } else {
        assert(t1 =~= t2);
    }
}

/// Serialization is injective: byte-identical cache records can only come
/// from the same note text and the same configuration bytes.  (Machine
/// limits bound both lengths; every `String` and `Vec` satisfies them.)
pub proof fn lemma_cache_record_injective(
    t1: Seq<char>,
    c1: Seq<u8>,
    t2: Seq<char>,
    c2: Seq<u8>,
)
    requires
        t1.len() <= u64::MAX,
        t2.len() <= u64::MAX,
        c1.len() <= u64::MAX,
        c2.len() <= u64::MAX,
        spec_cache_record(t1, c1) == spec_cache_record(t2, c2),
    ensures
        t1 == t2,
        c1 == c2,
{
    let r1 = spec_cache_record(t1, c1);
    let r2 = spec_cache_record(t2, c2);
    lemma_text_bytes_len(t1);
    lemma_text_bytes_len(t2);
    assert(spec_u64_le(t1.len() as u64) =~= r1.subrange(0, 8)) by {
        assert(forall|i: int| 0 <= i < 8 ==> r1[i] == spec_u64_le(t1.len() as u64)[i]);
    }
    assert(spec_u64_le(t2.len() as u64) =~= r2.subrange(0, 8)) by {
        assert(forall|i: int| 0 <= i < 8 ==> r2[i] == spec_u64_le(t2.len() as u64)[i]);
    }
    lemma_u64_le_injective(t1.len() as u64, t2.len() as u64);
    assert(t1.len() == t2.len());
    let n = t1.len() as int;
    assert(spec_text_bytes(t1) =~= r1.subrange(8, 8 + 4 * n)) by {
        assert(forall|i: int| 0 <= i < 4 * n ==> spec_text_bytes(t1)[i] == r1[8 + i]);
    }
    assert(spec_text_bytes(t2) =~= r2.subrange(8, 8 + 4 * n)) by {
        assert(forall|i: int| 0 <= i < 4 * n ==> spec_text_bytes(t2)[i] == r2[8 + i]);
    }
    lemma_text_bytes_injective(t1, t2);
    let off = 8 + 4 * n;
    assert(spec_u64_le(c1.len() as u64) =~= r1.subrange(off, off + 8)) by {
        assert(forall|i: int| 0 <= i < 8 ==> r1[off + i] == #[trigger] spec_u64_le(
            c1.len() as u64)[i]);
    }
    assert(spec_u64_le(c2.len() as u64) =~= r2.subrange(off, off + 8)) by {
        assert(forall|i: int| 0 <= i < 8 ==> r2[off + i] == #[trigger] spec_u64_le(
            c2.len() as u64)[i]);
    }
    lemma_u64_le_injective(c1.len() as u64, c2.len() as u64);
    assert(c1.len() == c2.len());
    assert(c1 =~= c2) by {
        assert(forall|i: int| 0 <= i < c1.len() ==> #[trigger] c1[i] == r1[off + 8 + i] && c2[i]
            == r2[off + 8 + i]);
    }
}

/// Appends every byte of `src` to `dst`, in order.
pub fn push_bytes(dst: &mut Vec<u8>, src: &Vec<u8>)
    ensures
        final(dst)@ == old(dst)@ + src@,
{
    let mut i: usize = 0;
    while i < src.len()
        invariant
            i <= src@.len(),
            dst@ == old(dst)@ + src@.subrange(0, i as int),
        decreases src@.len() - i,
    {
        dst.push(src[i]);
        proof {
            assert(old(dst)@ + src@.subrange(0, i + 1) =~= (old(dst)@ + src@.subrange(0, i as int)).push(
                src@[i as int]));
        }
        i = i + 1;
    }
    proof {
        assert(src@.subrange(0, src@.len() as int) =~= src@);
    }
}

/// A copy of the given bytes.
pub fn clone_bytes(src: &Vec<u8>) -> (r: Vec<u8>)
    ensures
        r@ == src@,
{
    let mut v: Vec<u8> = Vec::new();
    push_bytes(&mut v, src);
    proof {
        assert(v@ =~= src@);
    }
    v
}

/// The eight little-endian bytes of `n`, as executable code.
pub fn u64_le(n: u64) -> (r: Vec<u8>)
    ensures
        r@ == spec_u64_le(n),
{
    let mut v: Vec<u8> = Vec::new();
    v.push((n & 0xff) as u8);
    v.push(((n >> 8) & 0xff) as u8);
    v.push(((n >> 16) & 0xff) as u8);
    v.push(((n >> 24) & 0xff) as u8);
    v.push(((n >> 32) & 0xff) as u8);
    v.push(((n >> 40) & 0xff) as u8);
    v.push(((n >> 48) & 0xff) as u8);
    v.push(((n >> 56) & 0xff) as u8);
    proof {
        assert(v@ =~= spec_u64_le(n));
    }
    v
}

/// The four-byte encodings of the characters of `text`, concatenated.
pub fn text_bytes(text: &str) -> (r: Vec<u8>)
    ensures
        r@ == spec_text_bytes(text@),
{
    let n = text.unicode_len();
    let mut v: Vec<u8> = Vec::new();
    let mut i: usize = 0;
    while i < n
        invariant
            n == text@.len(),
            i <= n,
            v@ == spec_text_bytes(text@.subrange(0, i as int)),
        decreases n - i,
    {
        let c = text.get_char(i);
        let u = c as u32;
        v.push((u & 0xff) as u8);
        v.push(((u >> 8) & 0xff) as u8);
        v.push(((u >> 16) & 0xff) as u8);
        v.push(((u >> 24) & 0xff) as u8);
        proof {
            lemma_text_bytes_push(text@.subrange(0, i as int), text@[i as int]);
            assert(text@.subrange(0, i + 1) =~= text@.subrange(0, i as int).push(text@[i as int]));
            assert(v@ =~= spec_text_bytes(text@.subrange(0, i as int)) + spec_char_le(
                text@[i as int]));
        }
        i = i + 1;
    }
    proof {
        assert(text@.subrange(0, text@.len() as int) =~= text@);
    }
    v
}

proof fn lemma_text_bytes_push(t: Seq<char>, c: char)
    ensures
        spec_text_bytes(t.push(c)) == spec_text_bytes(t) + spec_char_le(c),
    decreases t.len(),
{
    if t.len() == 0 {
        assert(t.push(c).len() == 1);
        assert(t.push(c)[0] == c);
        assert(t.push(c).drop_first() =~= t);
        assert(spec_text_bytes(t.push(c)) == spec_char_le(c) + spec_text_bytes(t));
        assert(spec_text_bytes(t.push(c)) =~= spec_text_bytes(t) + spec_char_le(c));
    } else {
        assert(t.push(c).drop_first() =~= t.drop_first().push(c));
        lemma_text_bytes_push(t.drop_first(), c);
        assert(spec_text_bytes(t.push(c)) =~= spec_text_bytes(t) + spec_char_le(c));
    }
}

} // verus!
