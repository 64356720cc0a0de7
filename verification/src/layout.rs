//! The layouts of the three transaction types as a table: which shape of
//! field stands at which index.

use vstd::prelude::*;
use crate::error::DecodeError;
use crate::fields::{access_list_of, bytes_of, optional_field, uint_field};
use crate::item::ItemView;
use crate::tx::TxType;

verus! {

/// The shapes a field of a transaction can have.
pub enum FieldShape {
    /// An unsigned integer of at most `width` bytes.
    Uint { width: nat },
    /// An address, or the empty byte string where a contract is created.
    Recipient,
    /// A byte string of any length.
    Data,
    /// A list of access-list entries.
    AccessList,
}

/// The shape of the field at `index` in the layout of `tx_type`.
///
/// Legacy: nonce, gas price, gas limit, to, value, data, v, r, s.
/// EIP-2930: chain id, nonce, gas price, gas limit, to, value, data, access
/// list, v, r, s.
/// EIP-1559: chain id, nonce, max priority fee per gas, max fee per gas, gas
/// limit, to, value, data, access list, v, r, s.
pub open spec fn field_shape(tx_type: TxType, index: nat) -> FieldShape {
    match tx_type {
        TxType::Legacy => if index == 0 || index == 2 || index == 6 {
            FieldShape::Uint { width: 8 }
        } else if index == 1 || index == 4 {
            FieldShape::Uint { width: 16 }
        } else if index == 3 {
            FieldShape::Recipient
        } else if index == 5 {
            FieldShape::Data
        } else {
            FieldShape::Uint { width: 32 }
        },
        TxType::EIP2930 => if index == 0 || index == 1 || index == 3 || index == 8 {
            FieldShape::Uint { width: 8 }
        } else if index == 2 || index == 5 {
            FieldShape::Uint { width: 16 }
        } else if index == 4 {
            FieldShape::Recipient
        } else if index == 6 {
            FieldShape::Data
        } else if index == 7 {
            FieldShape::AccessList
        } else {
            FieldShape::Uint { width: 32 }
        },
        TxType::EIP1559 => if index == 0 || index == 1 || index == 4 || index == 9 {
            FieldShape::Uint { width: 8 }
        } else if index == 2 || index == 3 || index == 6 {
            FieldShape::Uint { width: 16 }
        } else if index == 5 {
            FieldShape::Recipient
        } else if index == 7 {
            FieldShape::Data
        } else if index == 8 {
            FieldShape::AccessList
        } else {
            FieldShape::Uint { width: 32 }
        },
    }
}

/// The index of the recipient in the layout of `tx_type`.
pub open spec fn recipient_index(tx_type: TxType) -> nat {
    match tx_type {
        TxType::Legacy => 3,
        TxType::EIP2930 => 4,
        TxType::EIP1559 => 5,
    }
}

/// Why `field` cannot be read as a field of `shape`, if it cannot.
pub open spec fn unreadable(shape: FieldShape, field: ItemView) -> Option<DecodeError> {
    match shape {
        FieldShape::Uint { width } => match uint_field(field, width) {
            Ok(_) => None,
            Err(e) => Some(e),
        },
        FieldShape::Recipient => match optional_field(field, 20) {
            Ok(_) => None,
            Err(e) => Some(e),
        },
        FieldShape::Data => match bytes_of(field) {
            Ok(_) => None,
            Err(e) => Some(e),
        },
        FieldShape::AccessList => match access_list_of(field) {
            Ok(_) => None,
            Err(e) => Some(e),
        },
    }
}

/// Every field before `index` can be read in the layout of `tx_type`.
pub open spec fn readable_before(tx_type: TxType, fields: Seq<ItemView>, index: nat) -> bool {
    forall|j: nat| j < index ==> (#[trigger] unreadable(field_shape(tx_type, j), fields[j as int])) is None
}

} // verus!
