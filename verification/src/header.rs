//! The boundary to the `rlp` crate, which reads the length prefix of an item.

use vstd::prelude::*;
use crate::error::DecodeError;

verus! {

/// The least first byte of an encoded list.
pub const LIST_PREFIX: u8 = 0xc0;

/// The two lengths a prefix announces: its own, and that of the payload behind it.
#[derive(Debug, Clone, Copy, PartialEq, Eq)]
pub struct Header {
    pub header_len: usize,
    pub value_len: usize,
}

/// Why `rlp` could not read a prefix: one variant for each `rlp::DecoderError`
/// that its header reader gives, and one for all the others.
#[derive(Debug, Clone, Copy, PartialEq, Eq)]
pub enum HeaderFault {
    /// `RlpIsTooShort`: the input ends before the prefix or the payload does.
    TooShort,
    /// `RlpIsTooBig`: the length does not fit a machine word.
    TooBig,
    /// `RlpDataLenWithZeroPrefix`: a length that starts with a zero byte.
    ZeroPrefix,
    /// `RlpInvalidIndirection`: a length in the long form that the short form
    /// could hold.
    Indirection,
    /// Any other `rlp::DecoderError`.
    Other,
}

/// What `rlp::Rlp::payload_info` returns for a view onto `bytes`: the lengths
/// of the prefix and of the payload of the first item, or the reader's fault.
/// Which bytes make which header is `rlp`'s matter and is stated nowhere in
/// this library.
pub uninterp spec fn rlp_header(bytes: Seq<u8>) -> Result<Header, HeaderFault>;

/// Calls `rlp::Rlp::payload_info` on a view onto `bytes`, and hands on its two
/// lengths or its error, variant for variant. Trusted: the result is a
/// function of the bytes alone, named `rlp_header`. Nothing is claimed about
/// the lengths it reports; `check_header` judges them.
#[verifier::external_body]
pub(crate) fn read_header(bytes: &[u8]) -> (r: Result<Header, HeaderFault>)
    ensures
        r == rlp_header(bytes@),
{
    match rlp::Rlp::new(bytes).payload_info() {
        Ok(info) => Ok(Header { header_len: info.header_len, value_len: info.value_len }),
        Err(rlp::DecoderError::RlpIsTooShort) => Err(HeaderFault::TooShort),
        Err(rlp::DecoderError::RlpIsTooBig) => Err(HeaderFault::TooBig),
        Err(rlp::DecoderError::RlpDataLenWithZeroPrefix) => Err(HeaderFault::ZeroPrefix),
        Err(rlp::DecoderError::RlpInvalidIndirection) => Err(HeaderFault::Indirection),
        Err(_) => Err(HeaderFault::Other),
    }
}

/// Calls `rlp::Rlp::is_list` on a view onto `bytes`. Trusted: it answers whether
/// there is a first byte and that byte is `LIST_PREFIX` (`0xc0`) or more.
#[verifier::external_body]
pub(crate) fn starts_list(bytes: &[u8]) -> (r: bool)
    ensures
        r == (bytes@.len() > 0 && bytes@[0] >= LIST_PREFIX),
{
    rlp::Rlp::new(bytes).is_list()
}

/// The decoding failure that a fault of the header reader stands for.
pub open spec fn fault_error(fault: HeaderFault) -> DecodeError {
    match fault {
        HeaderFault::TooShort | HeaderFault::TooBig => DecodeError::Truncated,
        HeaderFault::ZeroPrefix | HeaderFault::Indirection => DecodeError::NonCanonicalLength,
        HeaderFault::Other => DecodeError::RlpError,
    }
}

/// A header is accepted for `len` bytes when the item it announces lies within
/// them and is not empty.
pub open spec fn checked_header(header: Header, len: nat) -> Result<Header, DecodeError> {
    if header.header_len + header.value_len > len {
        Err(DecodeError::Truncated)
    } else if header.header_len + header.value_len == 0 {
        Err(DecodeError::RlpError)
    } else {
        Ok(header)
    }
}

/// The accepted header of the first item in `bytes`, or why there is none.
pub open spec fn span_of(bytes: Seq<u8>) -> Result<Header, DecodeError> {
    match rlp_header(bytes) {
        Ok(header) => checked_header(header, bytes.len()),
        Err(fault) => Err(fault_error(fault)),
    }
}

/// Maps a fault of the header reader to the decoding failure it stands for.
pub fn error_of_fault(fault: HeaderFault) -> (e: DecodeError)
    ensures
        e == fault_error(fault),
{
    match fault {
        HeaderFault::TooShort | HeaderFault::TooBig => DecodeError::Truncated,
        HeaderFault::ZeroPrefix | HeaderFault::Indirection => DecodeError::NonCanonicalLength,
        HeaderFault::Other => DecodeError::RlpError,
    }
}

/// Accepts `header` for an input of `len` bytes, or says why not: an item that
/// would end behind the input is truncated, whatever the reader made of it.
pub fn check_header(header: Header, len: usize) -> (r: Result<Header, DecodeError>)
    ensures
        r == checked_header(header, len as nat),
{
    if header.header_len > len || header.value_len > len - header.header_len {
        Err(DecodeError::Truncated)
    } else if header.header_len == 0 && header.value_len == 0 {
        Err(DecodeError::RlpError)
    } else {
        Ok(header)
    }
}

/// Reads and checks the header of the first item in `bytes`.
pub fn read_span(bytes: &[u8]) -> (r: Result<Header, DecodeError>)
    ensures
        r == span_of(bytes@),
{
    match read_header(bytes) {
        Ok(header) => check_header(header, bytes.len()),
        Err(fault) => Err(error_of_fault(fault)),
    }
}

} // verus!
