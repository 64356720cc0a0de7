//! The records a decode produces, and their mathematical values.

use vstd::prelude::*;
use crate::chain_id::legacy_chain_id;
use crate::error::DecodeError;
use crate::uint::U256;

verus! {

/// The three envelope formats.
#[derive(Debug, Clone, Copy, PartialEq, Eq)]
pub enum TxType {
    Legacy,
    EIP2930,
    EIP1559,
}

/// A signature as it stands in the encoding. `v` is 0 or 1 in the two typed
/// formats; in a legacy transaction it is 27 or 28, or 35 and more with the
/// chain id folded in.
#[derive(Debug, Clone, Copy, PartialEq, Eq)]
pub struct Signature {
    pub r: U256,
    pub s: U256,
    pub v: u64,
}

pub struct SignatureView {
    pub r: nat,
    pub s: nat,
    pub v: nat,
}

impl View for Signature {
    type V = SignatureView;

    open spec fn view(&self) -> SignatureView {
        SignatureView { r: self.r@, s: self.s@, v: self.v as nat }
    }
}

/// An address and the storage keys a transaction declares it will touch there.
#[derive(Debug, Clone, PartialEq, Eq)]
pub struct AccessListItem {
    pub address: [u8; 20],
    pub storage_keys: Vec<[u8; 32]>,
}

/// Entries in the order of the encoding; an entry may occur more than once.
pub type AccessList = Vec<AccessListItem>;

pub struct AccessListItemView {
    pub address: Seq<u8>,
    pub storage_keys: Seq<Seq<u8>>,
}

impl View for AccessListItem {
    type V = AccessListItemView;

    open spec fn view(&self) -> AccessListItemView {
        AccessListItemView {
            address: self.address@,
            storage_keys: self.storage_keys@.map_values(|key: [u8; 32]| key@),
        }
    }
}

/// The values of the entries of an access list.
pub open spec fn access_list_view(list: Seq<AccessListItem>) -> Seq<AccessListItemView> {
    list.map_values(|entry: AccessListItem| entry@)
}

/// The payload of a legacy transaction. `to` is absent where the transaction
/// creates a contract.
#[derive(Debug, Clone, PartialEq, Eq)]
pub struct LegacyTx {
    pub nonce: u64,
    pub gas_price: u128,
    pub gas_limit: u64,
    pub to: Option<[u8; 20]>,
    pub value: u128,
    pub data: Vec<u8>,
}

pub struct LegacyTxView {
    pub nonce: nat,
    pub gas_price: nat,
    pub gas_limit: nat,
    pub to: Option<Seq<u8>>,
    pub value: nat,
    pub data: Seq<u8>,
}

/// The value of an optional address.
pub open spec fn recipient_view(to: Option<[u8; 20]>) -> Option<Seq<u8>> {
    match to {
        Some(address) => Some(address@),
        None => None,
    }
}

impl View for LegacyTx {
    type V = LegacyTxView;

    open spec fn view(&self) -> LegacyTxView {
        LegacyTxView {
            nonce: self.nonce as nat,
            gas_price: self.gas_price as nat,
            gas_limit: self.gas_limit as nat,
            to: recipient_view(self.to),
            value: self.value as nat,
            data: self.data@,
        }
    }
}

/// The payload of an access-list transaction.
#[derive(Debug, Clone, PartialEq, Eq)]
pub struct Eip2930Tx {
    pub nonce: u64,
    pub gas_price: u128,
    pub gas_limit: u64,
    pub to: Option<[u8; 20]>,
    pub value: u128,
    pub data: Vec<u8>,
    pub access_list: AccessList,
}

pub struct Eip2930TxView {
    pub nonce: nat,
    pub gas_price: nat,
    pub gas_limit: nat,
    pub to: Option<Seq<u8>>,
    pub value: nat,
    pub data: Seq<u8>,
    pub access_list: Seq<AccessListItemView>,
}

impl View for Eip2930Tx {
    type V = Eip2930TxView;

    open spec fn view(&self) -> Eip2930TxView {
        Eip2930TxView {
            nonce: self.nonce as nat,
            gas_price: self.gas_price as nat,
            gas_limit: self.gas_limit as nat,
            to: recipient_view(self.to),
            value: self.value as nat,
            data: self.data@,
            access_list: access_list_view(self.access_list@),
        }
    }
}

/// The payload of a fee-market transaction.
#[derive(Debug, Clone, PartialEq, Eq)]
pub struct Eip1559Tx {
    pub nonce: u64,
    pub max_priority_fee_per_gas: u128,
    pub max_fee_per_gas: u128,
    pub gas_limit: u64,
    pub to: Option<[u8; 20]>,
    pub value: u128,
    pub data: Vec<u8>,
    pub access_list: AccessList,
}

pub struct Eip1559TxView {
    pub nonce: nat,
    pub max_priority_fee_per_gas: nat,
    pub max_fee_per_gas: nat,
    pub gas_limit: nat,
    pub to: Option<Seq<u8>>,
    pub value: nat,
    pub data: Seq<u8>,
    pub access_list: Seq<AccessListItemView>,
}

impl View for Eip1559Tx {
    type V = Eip1559TxView;

    open spec fn view(&self) -> Eip1559TxView {
        Eip1559TxView {
            nonce: self.nonce as nat,
            max_priority_fee_per_gas: self.max_priority_fee_per_gas as nat,
            max_fee_per_gas: self.max_fee_per_gas as nat,
            gas_limit: self.gas_limit as nat,
            to: recipient_view(self.to),
            value: self.value as nat,
            data: self.data@,
            access_list: access_list_view(self.access_list@),
        }
    }
}

/// The payload of a transaction, in the layout of its type.
#[derive(Debug, Clone, PartialEq, Eq)]
pub enum UnsignedTx {
    Legacy(LegacyTx),
    EIP1559(Eip1559Tx),
    EIP2930(Eip2930Tx),
}

pub enum UnsignedTxView {
    Legacy(LegacyTxView),
    EIP1559(Eip1559TxView),
    EIP2930(Eip2930TxView),
}

impl View for UnsignedTx {
    type V = UnsignedTxView;

    open spec fn view(&self) -> UnsignedTxView {
        match self {
            UnsignedTx::Legacy(tx) => UnsignedTxView::Legacy(tx@),
            UnsignedTx::EIP1559(tx) => UnsignedTxView::EIP1559(tx@),
            UnsignedTx::EIP2930(tx) => UnsignedTxView::EIP2930(tx@),
        }
    }
}

impl UnsignedTxView {
    /// The type whose layout this payload has.
    pub open spec fn tx_type(self) -> TxType {
        match self {
            UnsignedTxView::Legacy(_) => TxType::Legacy,
            UnsignedTxView::EIP1559(_) => TxType::EIP1559,
            UnsignedTxView::EIP2930(_) => TxType::EIP2930,
        }
    }
}

/// A decoded transaction.
#[derive(Debug, Clone, PartialEq, Eq)]
pub struct Transaction {
    pub tx_type: TxType,
    pub chain_id: Option<u64>,
    pub unsigned: UnsignedTx,
    pub signature: Signature,
}

pub struct TransactionView {
    pub tx_type: TxType,
    pub chain_id: Option<nat>,
    pub unsigned: UnsignedTxView,
    pub signature: SignatureView,
}

impl TransactionView {
    /// What holds of every transaction that a decode hands out: the payload
    /// has the layout of the type; a legacy transaction has a valid `v` and
    /// the chain id that this `v` carries; a typed transaction has a chain id
    /// and a parity bit for `v`.
    pub open spec fn well_formed(self) -> bool {
        &&& self.unsigned.tx_type() == self.tx_type
        &&& match self.tx_type {
            TxType::Legacy => legacy_chain_id(self.signature.v) == Ok::<Option<nat>, DecodeError>(
                self.chain_id,
            ),
            _ => self.chain_id is Some && self.signature.v <= 1,
        }
    }
}

impl View for Transaction {
    type V = TransactionView;

    open spec fn view(&self) -> TransactionView {
        TransactionView {
            tx_type: self.tx_type,
            chain_id: match self.chain_id {
                Some(id) => Some(id as nat),
                None => None,
            },
            unsigned: self.unsigned@,
            signature: self.signature@,
        }
    }
}

} // verus!
