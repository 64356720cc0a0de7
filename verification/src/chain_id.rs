//! What the recovery value `v` of a signature says: the chain a legacy
//! transaction is bound to, and the parity of the recovered point.

use vstd::prelude::*;
use crate::error::DecodeError;

verus! {

/// The chain id that a legacy `v` carries: none for 27 and 28, and
/// `(v - 35) / 2`, rounded down, from 35 on. No other `v` is valid.
pub open spec fn legacy_chain_id(v: nat) -> Result<Option<nat>, DecodeError> {
    if v == 27 || v == 28 {
        Ok(None)
    } else if v >= 35 {
        Ok(Some(((v - 35) / 2) as nat))
    } else {
        Err(DecodeError::InvalidSignatureV { v: v as u64 })
    }
}

/// The parity bit that a legacy `v` carries: `v - 27` for 27 and 28, and
/// `(v - 35) mod 2` from 35 on.
pub open spec fn legacy_parity(v: nat) -> Result<nat, DecodeError> {
    if v == 27 || v == 28 {
        Ok((v - 27) as nat)
    } else if v >= 35 {
        Ok(((v - 35) % 2) as nat)
    } else {
        Err(DecodeError::InvalidSignatureV { v: v as u64 })
    }
}

/// The parity bit of a typed transaction is `v` itself, which must be 0 or 1.
pub open spec fn typed_parity(v: nat) -> Result<nat, DecodeError> {
    if v <= 1 {
        Ok(v)
    } else {
        Err(DecodeError::InvalidSignatureV { v: v as u64 })
    }
}

/// Derives the chain id of a legacy transaction from its `v`.
pub fn resolve_chain_id(v: u64) -> (r: Result<Option<u64>, DecodeError>)
    ensures
        r matches Ok(Some(id)) ==> legacy_chain_id(v as nat) == Ok::<Option<nat>, DecodeError>(
            Some(id as nat),
        ),
        r matches Ok(None) ==> legacy_chain_id(v as nat) == Ok::<Option<nat>, DecodeError>(None),
        r matches Err(e) ==> legacy_chain_id(v as nat) == Err::<Option<nat>, DecodeError>(e),
{
    if v == 27 || v == 28 {
        Ok(None)
    } else if v >= 35 {
        Ok(Some((v - 35) / 2))
    } else {
        Err(DecodeError::InvalidSignatureV { v })
    }
}

/// Derives the parity bit of a legacy signature from its `v`.
pub fn recovery_parity(v: u64) -> (r: Result<u8, DecodeError>)
    ensures
        r matches Ok(bit) ==> legacy_parity(v as nat) == Ok::<nat, DecodeError>(bit as nat),
        r matches Err(e) ==> legacy_parity(v as nat) == Err::<nat, DecodeError>(e),
{
    if v == 27 || v == 28 {
        Ok((v - 27) as u8)
    } else if v >= 35 {
        Ok(((v - 35) % 2) as u8)
    } else {
        Err(DecodeError::InvalidSignatureV { v })
    }
}

/// Checks the `v` of a typed transaction, which is the parity bit itself.
pub fn check_typed_parity(v: u64) -> (r: Result<u8, DecodeError>)
    ensures
        r matches Ok(bit) ==> typed_parity(v as nat) == Ok::<nat, DecodeError>(bit as nat),
        r matches Err(e) ==> typed_parity(v as nat) == Err::<nat, DecodeError>(e),
{
    if v <= 1 {
        Ok(v as u8)
    } else {
        Err(DecodeError::InvalidSignatureV { v })
    }
}

} // verus!
