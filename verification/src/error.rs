//! The errors a decode can end in, and the five kinds they fall into.

use vstd::prelude::*;

verus! {

/// Why a byte sequence was not decoded.
#[derive(Debug, Clone, Copy, PartialEq, Eq)]
pub enum DecodeError {
    /// The input holds no bytes at all.
    EmptyInput,
    /// The first byte is neither a known type selector nor a list prefix.
    UnsupportedTxType { selector: u8 },
    /// A length prefix announces more bytes than remain.
    Truncated,
    /// A length is written in a longer form than it needs.
    NonCanonicalLength,
    /// Bytes follow the outermost item.
    TrailingBytes,
    /// Lists are nested deeper than `MAX_DEPTH`.
    NestingTooDeep,
    /// The header reader failed in a way that has no variant of its own.
    RlpError,
    /// An integer starts with a zero byte.
    NonCanonicalInteger,
    /// An integer takes more bytes than its field is wide.
    IntegerTooLarge { max_len: usize, actual: usize },
    /// An item is a byte string where a list must stand.
    NotRlpList,
    /// An item is a list where a byte string must stand.
    ExpectedBytes,
    /// A list has another number of items than its layout asks for.
    InvalidFieldCount { expected: usize, actual: usize },
    /// A list of `count` items has no item at `index`.
    MissingField { index: usize, count: usize },
    /// A byte string of fixed length has another length.
    InvalidFieldLength { expected: usize, actual: usize },
    /// The recovery value `v` is outside the values its transaction type admits.
    InvalidSignatureV { v: u64 },
}

/// The five families of decoding failures.
#[derive(Debug, Clone, Copy, PartialEq, Eq)]
pub enum ErrorKind {
    MalformedEncoding,
    StructuralMismatch,
    FieldShapeMismatch,
    UnsupportedTypeSelector,
    InvalidSignatureEncoding,
}

/// A result with its value seen through the value's view.
pub open spec fn result_view<T: View>(r: Result<T, DecodeError>) -> Result<T::V, DecodeError> {
    match r {
        Ok(value) => Ok(value@),
        Err(e) => Err(e),
    }
}

/// `done`, followed by what came out of the rest of a sequence; a failure in
/// the rest is the failure of the whole.
pub open spec fn prepend<T>(done: Seq<T>, rest: Result<Seq<T>, DecodeError>) -> Result<
    Seq<T>,
    DecodeError,
> {
    match rest {
        Ok(items) => Ok(done + items),
        Err(e) => Err(e),
    }
}

impl DecodeError {
    /// The family of `self`.
    pub open spec fn spec_kind(self) -> ErrorKind {
        match self {
            DecodeError::EmptyInput
            | DecodeError::Truncated
            | DecodeError::NonCanonicalLength
            | DecodeError::TrailingBytes
            | DecodeError::NestingTooDeep
            | DecodeError::RlpError
            | DecodeError::NonCanonicalInteger => ErrorKind::MalformedEncoding,
            DecodeError::NotRlpList
            | DecodeError::ExpectedBytes
            | DecodeError::InvalidFieldCount { .. }
            | DecodeError::MissingField { .. } => ErrorKind::StructuralMismatch,
            DecodeError::IntegerTooLarge { .. }
            | DecodeError::InvalidFieldLength { .. } => ErrorKind::FieldShapeMismatch,
            DecodeError::UnsupportedTxType { .. } => ErrorKind::UnsupportedTypeSelector,
            DecodeError::InvalidSignatureV { .. } => ErrorKind::InvalidSignatureEncoding,
        }
    }

    /// The family of `self`.
    pub fn kind(&self) -> (k: ErrorKind)
        ensures
            k == self.spec_kind(),
    {
        match self {
            DecodeError::EmptyInput
            | DecodeError::Truncated
            | DecodeError::NonCanonicalLength
            | DecodeError::TrailingBytes
            | DecodeError::NestingTooDeep
            | DecodeError::RlpError
            | DecodeError::NonCanonicalInteger => ErrorKind::MalformedEncoding,
            DecodeError::NotRlpList
            | DecodeError::ExpectedBytes
            | DecodeError::InvalidFieldCount { .. }
            | DecodeError::MissingField { .. } => ErrorKind::StructuralMismatch,
            DecodeError::IntegerTooLarge { .. }
            | DecodeError::InvalidFieldLength { .. } => ErrorKind::FieldShapeMismatch,
            DecodeError::UnsupportedTxType { .. } => ErrorKind::UnsupportedTypeSelector,
            DecodeError::InvalidSignatureV { .. } => ErrorKind::InvalidSignatureEncoding,
        }
    }
}

} // verus!
