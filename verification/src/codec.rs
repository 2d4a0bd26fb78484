//! Explicit little-endian codecs for the fixed-width scalars that vertex
//! attributes are built from.
//!
//! Every attribute component is serialized as a 1, 2 or 4 byte little-endian
//! word. A component value is carried around as its bit pattern widened to
//! `u32`; the codecs below turn such a value into bytes and back, and the
//! round-trip lemma shows the encoding is lossless, so buffers can be encoded
//! once and patched or read back byte-exactly on any platform.
use vstd::prelude::*;
use vstd::arithmetic::div_mod::{
    lemma_div_denominator, lemma_fundamental_div_mod, lemma_fundamental_div_mod_converse,
    lemma_multiply_divide_lt,
};

verus! {

/// `256^n`: the number of distinct values of an `n`-byte scalar.
pub open spec fn pow256(n: nat) -> int
    decreases n,
{
    if n == 0 {
        1
    } else {
        256 * pow256((n - 1) as nat)
    }
}

/// Byte `j` of the little-endian encoding of the (non-negative) value `x`.
pub open spec fn le_byte(x: int, j: nat) -> u8 {
    ((x / pow256(j)) % 256) as u8
}

/// The `size`-byte little-endian encoding of `x`.
pub open spec fn le_bytes_of(x: int, size: nat) -> Seq<u8> {
    Seq::new(size, |j: int| le_byte(x, j as nat))
}

/// The value denoted by a little-endian byte string.
pub open spec fn scalar_of_le(s: Seq<u8>) -> int
    decreases s.len(),
{
    if s.len() == 0 {
        0
    } else {
        s[0] + 256 * scalar_of_le(s.drop_first())
    }
}

pub proof fn lemma_pow256_positive(n: nat)
    ensures
        pow256(n) >= 1,
    decreases n,
{
    if n > 0 {
        lemma_pow256_positive((n - 1) as nat);
    }
}

pub proof fn lemma_pow256_values()
    ensures
        pow256(0) == 1,
        pow256(1) == 0x100,
        pow256(2) == 0x10000,
        pow256(3) == 0x1000000,
        pow256(4) == 0x100000000,
{
}

/// Shifting the value one byte to the right shifts its encoding: byte `j + 1`
/// of `x` is byte `j` of `x / 256`.
proof fn lemma_le_byte_shift(x: int, j: nat)
    requires
        x >= 0,
    ensures
        le_byte(x, (j + 1) as nat) == le_byte(x / 256, j),
{
    lemma_pow256_positive(j);
    lemma_div_denominator(x, 256, pow256(j));
    assert(pow256((j + 1) as nat) == 256 * pow256(j));
    assert(x / (256 * pow256(j)) == (x / 256) / pow256(j));
}

proof fn lemma_le_bytes_of_shift(x: int, size: nat)
    requires
        x >= 0,
    ensures
        le_bytes_of(x, (size + 1) as nat).drop_first() == le_bytes_of(x / 256, size),
{
    let lhs = le_bytes_of(x, (size + 1) as nat).drop_first();
    let rhs = le_bytes_of(x / 256, size);
    assert forall|j: int| 0 <= j < size implies lhs[j] == rhs[j] by {
        lemma_le_byte_shift(x, j as nat);
    }
    assert(lhs =~= rhs);
}

/// Decoding the encoding of `x` gives `x` back: the codec loses nothing.
pub proof fn lemma_le_round_trip(x: int, size: nat)
    requires
        0 <= x < pow256(size),
    ensures
        scalar_of_le(le_bytes_of(x, size)) == x,
    decreases size,
{
    if size == 0 {
    } else {
        let s = le_bytes_of(x, size);
        lemma_pow256_positive((size - 1) as nat);
        lemma_fundamental_div_mod(x, 256);
        lemma_multiply_divide_lt(x, 256, pow256((size - 1) as nat));
        assert(x / 256 < pow256((size - 1) as nat));
        lemma_le_bytes_of_shift(x, (size - 1) as nat);
        lemma_le_round_trip(x / 256, (size - 1) as nat);
        assert(s[0] == le_byte(x, 0));
        assert(pow256(0) == 1);
        assert(x / 1 == x) by {
            lemma_fundamental_div_mod_converse(x, 1, x, 0);
        }
        assert(s[0] == x % 256);
        assert(scalar_of_le(s) == x % 256 + 256 * (x / 256));
    }
}

/// Writes the `size`-byte little-endian encoding of `x` at `bytes[at ..]`,
/// leaving every other byte as it was.
pub fn write_scalar_le(bytes: &mut Vec<u8>, at: usize, x: u32, size: usize)
    requires
        size == 1 || size == 2 || size == 4,
        x < pow256(size as nat),
        at + size <= old(bytes).len(),
    ensures
        final(bytes).len() == old(bytes).len(),
        forall|i: int|
            at <= i < at + size ==> #[trigger] final(bytes)[i] == le_byte(x as int, (i - at) as nat),
        forall|i: int|
            0 <= i < old(bytes).len() && !(at <= i < at + size) ==> final(bytes)[i] == old(
                bytes,
            )[i],
{
    proof {
        lemma_pow256_values();
        lemma_fundamental_div_mod_converse(x as int, 1, x as int, 0);
    }
    bytes.set(at, (x % 256) as u8);
    if size >= 2 {
        bytes.set(at + 1, ((x / 256) % 256) as u8);
    }
    if size == 4 {
        bytes.set(at + 2, ((x / 65536) % 256) as u8);
        bytes.set(at + 3, ((x / 16777216) % 256) as u8);
        proof {
            lemma_div_denominator(x as int, 256, 256);
            lemma_div_denominator(x as int, 65536, 256);
        }
    }
}

/// Reads back the `size`-byte little-endian scalar stored at `bytes[at ..]`.
pub fn read_scalar_le(bytes: &Vec<u8>, at: usize, size: usize) -> (x: u32)
    requires
        size == 1 || size == 2 || size == 4,
        at + size <= bytes.len(),
    ensures
        x < pow256(size as nat),
        x as int == scalar_of_le(bytes@.subrange(at as int, at + size)),
{
    proof {
        lemma_pow256_values();
    }
    let b0 = bytes[at] as u32;
    if size == 1 {
        proof {
            let s = bytes@.subrange(at as int, at + 1);
            assert(s.drop_first() =~= Seq::<u8>::empty());
            assert(scalar_of_le(s.drop_first()) == 0);
            assert(scalar_of_le(s) == s[0] + 256 * 0);
        }
        b0
    } else if size == 2 {
        let b1 = bytes[at + 1] as u32;
        proof {
            let s = bytes@.subrange(at as int, at + 2);
            let s1 = bytes@.subrange(at + 1, at + 2);
            assert(s.drop_first() =~= s1);
            assert(s1.drop_first() =~= Seq::<u8>::empty());
            assert(scalar_of_le(s1.drop_first()) == 0);
            assert(scalar_of_le(s1) == s1[0] + 256 * 0);
            assert(scalar_of_le(s) == s[0] + 256 * scalar_of_le(s1));
            assert(s[0] == b0 && s1[0] == b1);
        }
        b0 + b1 * 256
    } else {
        let b1 = bytes[at + 1] as u32;
        let b2 = bytes[at + 2] as u32;
        let b3 = bytes[at + 3] as u32;
        proof {
            let s = bytes@.subrange(at as int, at + 4);
            let s1 = bytes@.subrange(at + 1, at + 4);
            let s2 = bytes@.subrange(at + 2, at + 4);
            let s3 = bytes@.subrange(at + 3, at + 4);
            assert(s.drop_first() =~= s1);
            assert(s1.drop_first() =~= s2);
            assert(s2.drop_first() =~= s3);
            assert(s3.drop_first() =~= Seq::<u8>::empty());
            assert(scalar_of_le(s3.drop_first()) == 0);
            assert(scalar_of_le(s3) == s3[0] + 256 * 0);
            assert(scalar_of_le(s2) == s2[0] + 256 * scalar_of_le(s3));
            assert(scalar_of_le(s1) == s1[0] + 256 * scalar_of_le(s2));
            assert(scalar_of_le(s) == s[0] + 256 * scalar_of_le(s1));
            assert(s[0] == b0 && s1[0] == b1 && s2[0] == b2 && s3[0] == b3);
        }
        b0 + b1 * 256 + b2 * 65536 + b3 * 16777216
    }
}

/// A zero-initialized byte buffer of the given length, the blank canvas every
/// packed buffer starts from.
pub fn zeroed(len: usize) -> (bytes: Vec<u8>)
    ensures
        bytes@.len() == len,
        forall|i: int| 0 <= i < len ==> bytes@[i] == 0,
{
    let mut bytes: Vec<u8> = Vec::new();
    let mut i: usize = 0;
    while i < len
        invariant
            i <= len,
            bytes@.len() == i,
            forall|j: int| 0 <= j < i ==> bytes@[j] == 0,
        decreases len - i,
    {
        bytes.push(0);
        i = i + 1;
    }
    bytes
}

} // verus!
