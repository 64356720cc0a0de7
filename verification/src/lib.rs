//! Decoding of serialized Ethereum transactions (legacy, EIP-2930 and EIP-1559)
//! into typed records, with every decoding rule stated as a contract.

pub mod chain_id;
pub mod decode;
pub mod error;
pub mod fields;
pub mod header;
pub mod item;
pub mod laws;
pub mod layout;
pub mod tx;
pub mod uint;

pub use crate::decode::{decode_eip1559, decode_eip2930, decode_legacy};
pub use crate::error::{DecodeError, ErrorKind};
pub use crate::item::{decode_item, Item};
pub use crate::tx::{
    AccessList, AccessListItem, Eip1559Tx, Eip2930Tx, LegacyTx, Signature, Transaction, TxType,
    UnsignedTx,
};
pub use crate::uint::U256;
