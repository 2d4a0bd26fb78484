//! Parsing of OBJ face corners.
//!
//! A face corner in an OBJ file is written `position/uv/normal`: three
//! one-based decimal indices separated by slashes. The parser here turns one
//! such token into its three indices, with the full decimal grammar pinned
//! down: a segment is a valid index exactly when it is an optional `+`
//! followed by one or more ASCII digits whose value fits in 32 bits.
//!
//! Reading the file itself and converting the float-valued vertex records
//! happen outside this crate; only the index grammar lives here.
use vstd::prelude::*;

use vstd::slice::{slice_index_get, slice_subrange};
use vstd::string::StringSliceAdditionalSpecFns;

verus! {

/// Everything that can be wrong with an OBJ document.
#[derive(Clone, Debug, PartialEq, Eq)]
pub enum OBJParseError {
    MissingData,
    InvalidFaceIndex,
    UnsupportedCommand(String),
    CommandHasTooManyParameters,
    InvalidInt,
    InvalidFloat,
}

/// ASCII decimal digit.
pub open spec fn is_digit(b: u8) -> bool {
    0x30 <= b <= 0x39
}

pub open spec fn all_digits(s: Seq<u8>) -> bool {
    forall|i: int| 0 <= i < s.len() ==> is_digit(#[trigger] s[i])
}

/// The number an ASCII digit string denotes, most significant digit first.
pub open spec fn dec_value(s: Seq<u8>) -> int
    decreases s.len(),
{
    if s.len() == 0 {
        0
    } else {
        10 * dec_value(s.drop_last()) + (s.last() - 0x30)
    }
}

/// The digit part of a decimal token: a single leading `+` is allowed.
pub open spec fn digits_of(s: Seq<u8>) -> Seq<u8> {
    if s.len() > 0 && s[0] == 0x2b {
        s.drop_first()
    } else {
        s
    }
}

/// Whether a byte string is a decimal `u32`: optional `+`, then at least one
/// digit, and a value that fits 32 bits.
pub open spec fn is_u32_decimal(s: Seq<u8>) -> bool {
    digits_of(s).len() > 0 && all_digits(digits_of(s)) && dec_value(digits_of(s)) <= u32::MAX
}

proof fn lemma_dec_value_nonneg(s: Seq<u8>)
    requires
        all_digits(s),
    ensures
        dec_value(s) >= 0,
    decreases s.len(),
{
    if s.len() > 0 {
        assert(all_digits(s.drop_last())) by {
            assert(forall|i: int|
                0 <= i < s.len() - 1 ==> is_digit(#[trigger] s.drop_last()[i]) && s.drop_last()[i]
                    == s[i]);
        }
        lemma_dec_value_nonneg(s.drop_last());
    }
}

/// A digit string is worth at least any of its prefixes: appending digits
/// never shrinks the value.
proof fn lemma_dec_value_prefix(s: Seq<u8>, k: int)
    requires
        all_digits(s),
        0 <= k <= s.len(),
    ensures
        dec_value(s.take(k)) <= dec_value(s),
    decreases s.len() - k,
{
    if k == s.len() {
        assert(s.take(k) =~= s);
    } else {
        lemma_dec_value_prefix(s, k + 1);
        let p = s.take(k + 1);
        assert(p.drop_last() =~= s.take(k));
        assert(all_digits(s.take(k))) by {
            assert(forall|i: int|
                0 <= i < k ==> is_digit(#[trigger] s.take(k)[i]) && s.take(k)[i] == s[i]);
        }
        lemma_dec_value_nonneg(s.take(k));
        assert(dec_value(p) == 10 * dec_value(s.take(k)) + (p.last() - 0x30));
        assert(is_digit(s[k]));
    }
}

/// Parses an optionally `+`-signed decimal `u32`, rejecting empty or
/// non-digit input and values past `u32::MAX` as invalid integers.
pub fn parse_u32(digits: &[u8]) -> (parsed: Result<u32, OBJParseError>)
    ensures
        is_u32_decimal(digits@) ==> parsed == Ok::<u32, OBJParseError>(
            dec_value(digits_of(digits@)) as u32,
        ),
        !is_u32_decimal(digits@) ==> parsed == Err::<u32, OBJParseError>(OBJParseError::InvalidInt),
{
    let ghost d = digits_of(digits@);
    let start: usize = if digits.len() > 0 && *slice_index_get(digits, 0) == 0x2b {
        1
    } else {
        0
    };
    proof {
        assert(d =~= digits@.subrange(start as int, digits@.len() as int));
    }
    if start == digits.len() {
        return Err(OBJParseError::InvalidInt);
    }
    let mut acc: u64 = 0;
    let mut j: usize = start;
    while j < digits.len()
        invariant
            start <= j <= digits.len(),
            d == digits_of(digits@),
            d == digits@.subrange(start as int, digits@.len() as int),
            acc <= u32::MAX,
            all_digits(digits@.subrange(start as int, j as int)),
            acc == dec_value(digits@.subrange(start as int, j as int)),
        decreases digits.len() - j,
    {
        let b = *slice_index_get(digits, j);
        if !(0x30 <= b && b <= 0x39) {
            proof {
                assert(d[j - start] == b);
                assert(!all_digits(d));
                assert(!is_u32_decimal(digits@));
            }
            return Err(OBJParseError::InvalidInt);
        }
        proof {
            let p = digits@.subrange(start as int, j + 1);
            assert(p.drop_last() =~= digits@.subrange(start as int, j as int));
            assert(forall|i: int|
                0 <= i < p.len() - 1 ==> #[trigger] p[i] == digits@.subrange(
                    start as int,
                    j as int,
                )[i]);
        }
        acc = acc * 10 + (b - 0x30) as u64;
        if acc > u32::MAX as u64 {
            proof {
                if is_u32_decimal(digits@) {
                    assert(all_digits(d));
                    lemma_dec_value_prefix(d, j + 1 - start);
                    assert(d.take(j + 1 - start) =~= digits@.subrange(start as int, j + 1));
                }
            }
            return Err(OBJParseError::InvalidInt);
        }
        j = j + 1;
    }
    proof {
        assert(digits@.subrange(start as int, digits@.len() as int) =~= d);
    }
    Ok(acc as u32)
}

/// Position of the first `/` in `s` at or after `from`, or `s.len()`.
pub open spec fn first_slash(s: Seq<u8>, from: int) -> int
    decreases s.len() - from,
{
    if from < 0 || from >= s.len() {
        s.len() as int
    } else if s[from] == 0x2f {
        from
    } else {
        first_slash(s, from + 1)
    }
}

fn find_slash(bytes: &[u8], from: usize) -> (position: usize)
    requires
        from <= bytes.len(),
    ensures
        position == first_slash(bytes@, from as int),
        from <= position <= bytes.len(),
        position < bytes.len() ==> bytes@[position as int] == 0x2f,
{
    let mut j: usize = from;
    while j < bytes.len()
        invariant
            from <= j <= bytes.len(),
            first_slash(bytes@, from as int) == first_slash(bytes@, j as int),
        decreases bytes.len() - j,
    {
        if *slice_index_get(bytes, j) == 0x2f {
            return j;
        }
        j = j + 1;
    }
    j
}

/// Parses one face corner `a/b/c` into its three indices.
///
/// The three segments are parsed left to right, so a malformed first segment
/// reports an invalid integer even when later separators are missing; a
/// missing separator reports missing data; a third separator means the
/// corner has a fourth part, which is one parameter too many.
pub fn parse_face(face: &str) -> (parsed: Result<[u32; 3], OBJParseError>)
    ensures
        ({
            let bs = face.spec_bytes();
            let i = first_slash(bs, 0);
            let j = first_slash(bs, i + 1);
            let k = first_slash(bs, j + 1);
            let seg0 = bs.subrange(0, i);
            let seg1 = bs.subrange(i + 1, j);
            let seg2 = bs.subrange(j + 1, k);
            if !is_u32_decimal(seg0) {
                parsed == Err::<[u32; 3], OBJParseError>(OBJParseError::InvalidInt)
            } else if i == bs.len() {
                parsed == Err::<[u32; 3], OBJParseError>(OBJParseError::MissingData)
            } else if !is_u32_decimal(seg1) {
                parsed == Err::<[u32; 3], OBJParseError>(OBJParseError::InvalidInt)
            } else if j == bs.len() {
                parsed == Err::<[u32; 3], OBJParseError>(OBJParseError::MissingData)
            } else if !is_u32_decimal(seg2) {
                parsed == Err::<[u32; 3], OBJParseError>(OBJParseError::InvalidInt)
            } else if k != bs.len() {
                parsed == Err::<[u32; 3], OBJParseError>(OBJParseError::CommandHasTooManyParameters)
            } else {
                parsed matches Ok(indices) && indices[0] == dec_value(digits_of(seg0))
                    && indices[1] == dec_value(digits_of(seg1)) && indices[2] == dec_value(
                    digits_of(seg2),
                )
            }
        }),
{
    let bytes = face.as_bytes();
    let i = find_slash(bytes, 0);
    let x = match parse_u32(slice_subrange(bytes, 0, i)) {
        Ok(x) => x,
        Err(e) => {
            return Err(e);
        },
    };
    if i == bytes.len() {
        return Err(OBJParseError::MissingData);
    }
    let j = find_slash(bytes, i + 1);
    let y = match parse_u32(slice_subrange(bytes, i + 1, j)) {
        Ok(y) => y,
        Err(e) => {
            return Err(e);
        },
    };
    if j == bytes.len() {
        return Err(OBJParseError::MissingData);
    }
    let k = find_slash(bytes, j + 1);
    let z = match parse_u32(slice_subrange(bytes, j + 1, k)) {
        Ok(z) => z,
        Err(e) => {
            return Err(e);
        },
    };
    if k != bytes.len() {
        return Err(OBJParseError::CommandHasTooManyParameters);
    }
    let indices = [x, y, z];
    proof {
        let bs = face.spec_bytes();
        let gi = first_slash(bs, 0);
        let gj = first_slash(bs, gi + 1);
        let gk = first_slash(bs, gj + 1);
        lemma_dec_value_nonneg(digits_of(bs.subrange(0, gi)));
        lemma_dec_value_nonneg(digits_of(bs.subrange(gi + 1, gj)));
        lemma_dec_value_nonneg(digits_of(bs.subrange(gj + 1, gk)));
        assert(indices[0] == x && indices[1] == y && indices[2] == z);
    }
    Ok(indices)
}

} // verus!
