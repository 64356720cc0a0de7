//! Unsigned integers in their canonical form: big-endian, without a leading
//! zero byte, zero being the empty byte string.

use vstd::prelude::*;
use vstd::slice::slice_subrange;
use crate::error::DecodeError;

verus! {

/// An unsigned integer of 256 bits, kept as two halves of 128 bits.
#[derive(Debug, Clone, Copy, PartialEq, Eq)]
pub struct U256 {
    pub hi: u128,
    pub lo: u128,
}

impl View for U256 {
    type V = nat;

    /// The number: the upper half counts in units of 2^128.
    open spec fn view(&self) -> nat {
        (self.hi * 0x1_0000_0000_0000_0000_0000_0000_0000_0000 + self.lo) as nat
    }
}

/// 256 to the power `n`.
pub open spec fn pow256(n: nat) -> nat
    decreases n,
{
    if n == 0 {
        1
    } else {
        256 * pow256((n - 1) as nat)
    }
}

/// The number that `bytes` spells in base 256, most significant byte first.
pub open spec fn be_value(bytes: Seq<u8>) -> nat
    decreases bytes.len(),
{
    if bytes.len() == 0 {
        0
    } else {
        be_value(bytes.drop_last()) * 256 + bytes.last() as nat
    }
}

/// The integer that a byte string stands for in a field `width` bytes wide.
/// A leading zero byte is refused before the length is looked at.
pub open spec fn uint_of(bytes: Seq<u8>, width: nat) -> Result<nat, DecodeError> {
    if bytes.len() > 0 && bytes[0] == 0 {
        Err(DecodeError::NonCanonicalInteger)
    } else if bytes.len() > width {
        Err(DecodeError::IntegerTooLarge { max_len: width as usize, actual: bytes.len() as usize })
    } else {
        Ok(be_value(bytes))
    }
}

/// Powers of 256 are positive and grow with the exponent.
pub proof fn lemma_pow256_monotonic(i: nat, j: nat)
    requires
        i <= j,
    ensures
        0 < pow256(i) <= pow256(j),
    decreases j,
{
    if j > 0 {
        if i < j {
            lemma_pow256_monotonic(i, (j - 1) as nat);
        } else {
            lemma_pow256_monotonic((i - 1) as nat, (j - 1) as nat);
        }
    }
}

/// A number of `n` digits in base 256 is below 256 to the power `n`.
pub proof fn lemma_be_value_bound(bytes: Seq<u8>)
    ensures
        be_value(bytes) < pow256(bytes.len()),
    decreases bytes.len(),
{
    if bytes.len() > 0 {
        lemma_be_value_bound(bytes.drop_last());
    }
}

/// Without a leading zero byte, a number of `n > 0` digits is at least 256 to
/// the power `n - 1`: no shorter byte string spells it.
pub proof fn lemma_be_value_minimal(bytes: Seq<u8>)
    requires
        bytes.len() > 0,
        bytes[0] != 0,
    ensures
        be_value(bytes) >= pow256((bytes.len() - 1) as nat),
    decreases bytes.len(),
{
    if bytes.len() == 1 {
        assert(bytes.drop_last().len() == 0);
        assert(be_value(bytes.drop_last()) == 0);
    } else {
        lemma_be_value_minimal(bytes.drop_last());
    }
}

/// Digits written behind a number shift it up by as many places.
pub proof fn lemma_be_value_concat(high: Seq<u8>, low: Seq<u8>)
    ensures
        be_value(high + low) == be_value(high) * pow256(low.len()) + be_value(low),
    decreases low.len(),
{
    if low.len() == 0 {
        assert(high + low =~= high);
        assert(be_value(high) * pow256(low.len()) == be_value(high)) by (nonlinear_arith)
            requires
                pow256(low.len()) == 1,
        ;
    } else {
        let shorter = low.drop_last();
        lemma_be_value_concat(high, shorter);
        assert((high + low).drop_last() =~= high + shorter);
        assert((high + low).last() == low.last());
        let h = be_value(high) as int;
        let p = pow256(shorter.len()) as int;
        let l = be_value(shorter) as int;
        assert(pow256(low.len()) == 256 * p);
        assert(be_value(high + low) == (h * p + l) * 256 + low.last());
        assert(be_value(low) == l * 256 + low.last());
        assert((h * p + l) * 256 == h * pow256(low.len()) + l * 256) by (nonlinear_arith)
            requires
                pow256(low.len()) == 256 * p,
        ;
    }
}

/// Byte strings of one length that spell one number are one byte string.
pub proof fn lemma_be_value_injective(a: Seq<u8>, b: Seq<u8>)
    requires
        a.len() == b.len(),
        be_value(a) == be_value(b),
    ensures
        a == b,
    decreases a.len(),
{
    if a.len() > 0 {
        lemma_be_value_injective(a.drop_last(), b.drop_last());
        assert(a =~= a.drop_last().push(a.last()));
        assert(b =~= b.drop_last().push(b.last()));
    } else {
        assert(a =~= b);
    }
}

/// An integer has one canonical form: two byte strings that are read as the
/// same number are the same byte string.
pub proof fn lemma_canonical_form_is_unique(a: Seq<u8>, b: Seq<u8>, width: nat)
    requires
        uint_of(a, width) is Ok,
        uint_of(a, width) == uint_of(b, width),
    ensures
        a == b,
{
    lemma_be_value_bound(a);
    lemma_be_value_bound(b);
    if a.len() < b.len() {
        lemma_be_value_minimal(b);
        lemma_pow256_monotonic(a.len(), (b.len() - 1) as nat);
    } else if b.len() < a.len() {
        lemma_be_value_minimal(a);
        lemma_pow256_monotonic(b.len(), (a.len() - 1) as nat);
    } else {
        lemma_be_value_injective(a, b);
    }
}

/// The value of at most sixteen bytes.
fn be_u128(bytes: &[u8]) -> (n: u128)
    requires
        bytes@.len() <= 16,
    ensures
        n == be_value(bytes@),
{
    let mut n: u128 = 0;
    let mut i: usize = 0;
    while i < bytes.len()
        invariant
            i <= bytes@.len() <= 16,
            n == be_value(bytes@.take(i as int)),
        decreases bytes@.len() - i,
    {
        proof {
            lemma_be_value_bound(bytes@.take(i as int));
            lemma_pow256_monotonic(i as nat, 15);
            assert(pow256(15) == 0x100_0000_0000_0000_0000_0000_0000_0000) by {
                reveal_with_fuel(pow256, 16);
            }
            assert(bytes@.take(i + 1).drop_last() =~= bytes@.take(i as int));
        }
        n = n * 256 + bytes[i] as u128;
        i = i + 1;
    }
    proof {
        assert(bytes@.take(i as int) =~= bytes@);
    }
    n
}

/// Reads a field of at most eight bytes as an integer.
pub fn parse_u64(bytes: &[u8]) -> (r: Result<u64, DecodeError>)
    ensures
        r matches Ok(n) ==> uint_of(bytes@, 8) == Ok::<nat, DecodeError>(n as nat),
        r matches Err(e) ==> uint_of(bytes@, 8) == Err::<nat, DecodeError>(e),
{
    if bytes.len() > 0 && bytes[0] == 0 {
        Err(DecodeError::NonCanonicalInteger)
    } else if bytes.len() > 8 {
        Err(DecodeError::IntegerTooLarge { max_len: 8, actual: bytes.len() })
    } else {
        let n = be_u128(bytes);
        proof {
            lemma_be_value_bound(bytes@);
            lemma_pow256_monotonic(bytes@.len(), 8);
            assert(pow256(8) == 0x1_0000_0000_0000_0000) by {
                reveal_with_fuel(pow256, 9);
            }
        }
        Ok(n as u64)
    }
}

/// Reads a field of at most sixteen bytes as an integer.
pub fn parse_u128(bytes: &[u8]) -> (r: Result<u128, DecodeError>)
    ensures
        r matches Ok(n) ==> uint_of(bytes@, 16) == Ok::<nat, DecodeError>(n as nat),
        r matches Err(e) ==> uint_of(bytes@, 16) == Err::<nat, DecodeError>(e),
{
    if bytes.len() > 0 && bytes[0] == 0 {
        Err(DecodeError::NonCanonicalInteger)
    } else if bytes.len() > 16 {
        Err(DecodeError::IntegerTooLarge { max_len: 16, actual: bytes.len() })
    } else {
        Ok(be_u128(bytes))
    }
}

/// Reads a field of at most thirty-two bytes as an integer.
pub fn parse_u256(bytes: &[u8]) -> (r: Result<U256, DecodeError>)
    ensures
        r matches Ok(n) ==> uint_of(bytes@, 32) == Ok::<nat, DecodeError>(n@),
        r matches Err(e) ==> uint_of(bytes@, 32) == Err::<nat, DecodeError>(e),
{
    if bytes.len() > 0 && bytes[0] == 0 {
        Err(DecodeError::NonCanonicalInteger)
    } else if bytes.len() > 32 {
        Err(DecodeError::IntegerTooLarge { max_len: 32, actual: bytes.len() })
    } else if bytes.len() <= 16 {
        Ok(U256 { hi: 0, lo: be_u128(bytes) })
    } else {
        let split: usize = bytes.len() - 16;
        let high = slice_subrange(bytes, 0, split);
        let low = slice_subrange(bytes, split, bytes.len());
        proof {
            lemma_be_value_concat(high@, low@);
            assert(high@ + low@ =~= bytes@);
            assert(pow256(16) == 0x1_0000_0000_0000_0000_0000_0000_0000_0000) by {
                reveal_with_fuel(pow256, 17);
            }
        }
        Ok(U256 { hi: be_u128(high), lo: be_u128(low) })
    }
}

} // verus!
