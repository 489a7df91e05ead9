//! Amount arithmetic: decimal amount strings and big-endian byte amounts.
//!
//! An amount is carried in two forms: a decimal string (as it arrives in a
//! transfer request) and a big-endian byte string (as it stands in a
//! transaction output). Both denote the same unbounded non-negative integer;
//! the spec functions below give that denotation, and the exec functions
//! move between the forms. The unbounded arithmetic itself is done by
//! `num_bigint` behind trusted wrappers whose contracts are exact.

use vstd::prelude::*;

use crate::Error;

verus! {

/// The numeric value denoted by a big-endian byte string; the empty string
/// denotes zero.
pub open spec fn be_val(b: Seq<u8>) -> int
    decreases b.len(),
{
    if b.len() == 0 {
        0
    } else {
        be_val(b.drop_last()) * 256 + b.last()
    }
}

/// A canonical big-endian byte string: non-empty and without a leading zero
/// byte unless it is the single byte zero.
pub open spec fn canon_bytes(b: Seq<u8>) -> bool {
    b.len() >= 1 && (b.len() > 1 ==> b[0] != 0)
}

pub open spec fn is_dec_digit(c: char) -> bool {
    48 <= c as u32 <= 57
}

pub open spec fn dec_digit_val(c: char) -> int {
    c as u32 - 48
}

/// A well-formed decimal amount string: non-empty, digits only.
pub open spec fn is_dec_string(s: Seq<char>) -> bool {
    s.len() > 0 && (forall|i: int| 0 <= i < s.len() ==> is_dec_digit(#[trigger] s[i]))
}

/// The numeric value denoted by a decimal digit string.
pub open spec fn dec_val(s: Seq<char>) -> int
    decreases s.len(),
{
    if s.len() == 0 {
        0
    } else {
        dec_val(s.drop_last()) * 10 + dec_digit_val(s.last())
    }
}

pub proof fn lemma_dec_val_nonneg(s: Seq<char>)
    requires
        forall|i: int| 0 <= i < s.len() ==> is_dec_digit(#[trigger] s[i]),
    ensures
        dec_val(s) >= 0,
    decreases s.len(),
{
    if s.len() > 0 {
        assert(forall|i: int|
            0 <= i < s.drop_last().len() ==> is_dec_digit(#[trigger] s.drop_last()[i]));
        lemma_dec_val_nonneg(s.drop_last());
    }
}

/// On an all-digit string, every prefix denotes at most the whole string.
pub proof fn lemma_dec_val_prefix_le(s: Seq<char>, i: int)
    requires
        0 <= i <= s.len(),
        forall|j: int| 0 <= j < s.len() ==> is_dec_digit(#[trigger] s[j]),
    ensures
        dec_val(s.subrange(0, i)) <= dec_val(s),
    decreases s.len() - i,
{
    if i == s.len() {
        assert(s.subrange(0, i) =~= s);
    } else {
        lemma_dec_val_prefix_le(s, i + 1);
        let p = s.subrange(0, i);
        let q = s.subrange(0, i + 1);
        assert(q.drop_last() =~= p);
        assert(forall|j: int| 0 <= j < p.len() ==> is_dec_digit(#[trigger] p[j]));
        lemma_dec_val_nonneg(p);
        assert(dec_val(q) == dec_val(p) * 10 + dec_digit_val(s[i]));
        assert(dec_val(p) <= dec_val(p) * 10 + dec_digit_val(s[i]));
    }
}

/// Re-serializing a parsed amount denotes the same number: a byte string that
/// carries the value of a decimal string, rendered back as a decimal string,
/// denotes the same value (leading zeros aside).
pub proof fn lemma_amount_roundtrip(s: Seq<char>, b: Seq<u8>, t: Seq<char>)
    requires
        is_dec_string(s),
        be_val(b) == dec_val(s),
        dec_val(t) == be_val(b),
    ensures
        dec_val(t) == dec_val(s),
{
}

/// Relies on `num_bigint::BigUint::from_str_radix` (through `str::parse`),
/// which on a non-empty all-digit string returns the base-10 number the
/// digits denote, and on `BigUint::to_bytes_be`, which returns the minimal
/// big-endian byte form (a single zero byte for zero).
#[verifier::external_body]
pub(crate) fn dec_to_bytes(s: &str) -> (r: Vec<u8>)
    requires
        is_dec_string(s@),
    ensures
        be_val(r@) == dec_val(s@),
        canon_bytes(r@),
{
    let n: num_bigint::BigUint = s.parse().unwrap();
    n.to_bytes_be()
}

/// Relies on `num_bigint::BigUint::to_str_radix` with radix 10, which renders
/// the number as its decimal digits without leading zeros ("0" for zero);
/// the argument is read with `BigUint::from_bytes_be`.
#[verifier::external_body]
pub(crate) fn bytes_to_dec(b: &Vec<u8>) -> (r: String)
    ensures
        is_dec_string(r@),
        dec_val(r@) == be_val(b@),
        r@.len() > 1 ==> r@[0] != '0',
{
    num_bigint::BigUint::from_bytes_be(b).to_str_radix(10)
}

/// Relies on `num_bigint::BigUint` addition; the arguments are read with
/// `BigUint::from_bytes_be` and the sum is written with `to_bytes_be`.
#[verifier::external_body]
pub(crate) fn add_bytes(a: &Vec<u8>, b: &Vec<u8>) -> (r: Vec<u8>)
    ensures
        be_val(r@) == be_val(a@) + be_val(b@),
        canon_bytes(r@),
{
    let x = num_bigint::BigUint::from_bytes_be(a);
    let y = num_bigint::BigUint::from_bytes_be(b);
    (x + y).to_bytes_be()
}

/// Relies on `num_bigint::BigUint` subtraction, which panics only when the
/// subtrahend is larger (ruled out here); arguments and result move through
/// `from_bytes_be` / `to_bytes_be`.
#[verifier::external_body]
pub(crate) fn sub_bytes(a: &Vec<u8>, b: &Vec<u8>) -> (r: Vec<u8>)
    requires
        be_val(b@) <= be_val(a@),
    ensures
        be_val(r@) == be_val(a@) - be_val(b@),
        canon_bytes(r@),
{
    let x = num_bigint::BigUint::from_bytes_be(a);
    let y = num_bigint::BigUint::from_bytes_be(b);
    (x - y).to_bytes_be()
}

/// Relies on `num_bigint::BigUint`'s order, which is the numeric order;
/// arguments are read with `from_bytes_be`.
#[verifier::external_body]
pub(crate) fn gt_bytes(a: &Vec<u8>, b: &Vec<u8>) -> (r: bool)
    ensures
        r == (be_val(a@) > be_val(b@)),
{
    num_bigint::BigUint::from_bytes_be(a) > num_bigint::BigUint::from_bytes_be(b)
}

/// Whether a string is a well-formed decimal amount: non-empty, digits only.
pub fn check_decimal(s: &str) -> (r: bool)
    ensures
        r == is_dec_string(s@),
{
    let n: usize = s.unicode_len();
    if n == 0 {
        return false;
    }
    let mut i: usize = 0;
    while i < n
        invariant
            0 < n == s@.len(),
            0 <= i <= n,
            forall|j: int| 0 <= j < i ==> is_dec_digit(#[trigger] s@[j]),
        decreases n - i,
    {
        let c: char = s.get_char(i);
        let u: u32 = c as u32;
        if u < 48 || u > 57 {
            assert(!is_dec_digit(s@[i as int]));
            return false;
        }
        i += 1;
    }
    true
}

/// Parse a decimal amount string into its big-endian byte form; this is the
/// unbounded representation used for output amounts.
pub fn parse_decimal(s: &str) -> (r: Result<Vec<u8>, Error>)
    ensures
        r is Ok <==> is_dec_string(s@),
        r matches Ok(b) ==> be_val(b@) == dec_val(s@) && canon_bytes(b@),
        r matches Err(e) ==> e == Error::ParseError,
{
    if check_decimal(s) {
        Ok(dec_to_bytes(s))
    } else {
        Err(Error::ParseError)
    }
}

/// Render a big-endian byte amount back as its decimal string, without
/// leading zeros.
pub fn to_decimal(b: &Vec<u8>) -> (r: String)
    ensures
        is_dec_string(r@),
        dec_val(r@) == be_val(b@),
        r@.len() > 1 ==> r@[0] != '0',
{
    bytes_to_dec(b)
}

/// Parse a decimal amount string as a signed 64-bit integer; this is the
/// bounded representation used for request-level validation, so a value past
/// `i64::MAX` is rejected rather than wrapped.
pub fn parse_i64(s: &str) -> (r: Result<i64, Error>)
    ensures
        r is Ok <==> (is_dec_string(s@) && dec_val(s@) <= i64::MAX),
        r matches Ok(v) ==> v == dec_val(s@) && v >= 0,
        r matches Err(e) ==> e == Error::ParseError,
{
    let n: usize = s.unicode_len();
    if n == 0 {
        return Err(Error::ParseError);
    }
    let mut acc: i64 = 0;
    let mut i: usize = 0;
    while i < n
        invariant
            0 < n == s@.len(),
            0 <= i <= n,
            forall|j: int| 0 <= j < i ==> is_dec_digit(#[trigger] s@[j]),
            acc == dec_val(s@.subrange(0, i as int)),
            acc >= 0,
        decreases n - i,
    {
        let c: char = s.get_char(i);
        let u: u32 = c as u32;
        if u < 48 || u > 57 {
            assert(!is_dec_digit(s@[i as int]));
            return Err(Error::ParseError);
        }
        let d: i64 = (u - 48) as i64;
        proof {
            assert(s@.subrange(0, i as int + 1).drop_last() =~= s@.subrange(0, i as int));
            assert(dec_val(s@.subrange(0, i as int + 1)) == acc * 10 + d);
        }
        if acc > (i64::MAX - d) / 10 {
            proof {
                if is_dec_string(s@) {
                    lemma_dec_val_prefix_le(s@, i as int + 1);
                }
            }
            return Err(Error::ParseError);
        }
        acc = acc * 10 + d;
        i += 1;
    }
    proof {
        assert(s@.subrange(0, n as int) =~= s@);
    }
    Ok(acc)
}

} // verus!
