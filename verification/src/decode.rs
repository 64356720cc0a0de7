//! From bytes to a transaction: the type is read off the first byte, the item
//! tree is decoded, and the fields are taken from it in the order of the
//! type's layout.

use vstd::prelude::*;
use vstd::slice::slice_subrange;
use crate::chain_id::{check_typed_parity, legacy_chain_id, resolve_chain_id, typed_parity};
use crate::error::{DecodeError, result_view};
use crate::fields::{access_list_of, bytes_of, optional_field, uint_field};
use crate::header::LIST_PREFIX;
use crate::item::{Item, ItemView, decode_item, parse_item, views};
use crate::tx::{
    Eip1559Tx, Eip1559TxView, Eip2930Tx, Eip2930TxView, LegacyTx, LegacyTxView, Signature,
    SignatureView, Transaction, TransactionView, TxType, UnsignedTx, UnsignedTxView,
};

verus! {

/// The selector byte of an access-list transaction.
pub const EIP2930_SELECTOR: u8 = 0x01;

/// The selector byte of a fee-market transaction.
pub const EIP1559_SELECTOR: u8 = 0x02;

/// The number of fields of a legacy transaction.
pub const LEGACY_FIELDS: usize = 9;

/// The number of fields of an access-list transaction.
pub const EIP2930_FIELDS: usize = 11;

/// The number of fields of a fee-market transaction.
pub const EIP1559_FIELDS: usize = 12;

/// The type that the first byte of `raw` selects.
pub open spec fn tx_type_of(raw: Seq<u8>) -> Result<TxType, DecodeError> {
    if raw.len() == 0 {
        Err(DecodeError::EmptyInput)
    } else if raw[0] == EIP2930_SELECTOR {
        Ok(TxType::EIP2930)
    } else if raw[0] == EIP1559_SELECTOR {
        Ok(TxType::EIP1559)
    } else if raw[0] >= LIST_PREFIX {
        Ok(TxType::Legacy)
    } else {
        Err(DecodeError::UnsupportedTxType { selector: raw[0] })
    }
}

impl TxType {
    /// The number of fields in the layout of this type.
    pub open spec fn spec_field_count(self) -> nat {
        match self {
            TxType::Legacy => LEGACY_FIELDS as nat,
            TxType::EIP2930 => EIP2930_FIELDS as nat,
            TxType::EIP1559 => EIP1559_FIELDS as nat,
        }
    }

    /// The number of fields in the layout of this type.
    pub fn field_count(&self) -> (n: usize)
        ensures
            n == self.spec_field_count(),
    {
        match self {
            TxType::Legacy => LEGACY_FIELDS,
            TxType::EIP2930 => EIP2930_FIELDS,
            TxType::EIP1559 => EIP1559_FIELDS,
        }
    }

    /// Classifies `raw` by its first byte: `0x01` and `0x02` select the two
    /// typed formats, a list prefix starts a legacy transaction, and any other
    /// byte is refused, as is an input without a first byte.
    pub fn get_tx_type(raw: &[u8]) -> (r: Result<TxType, DecodeError>)
        ensures
            r == tx_type_of(raw@),
    {
        if raw.len() == 0 {
            Err(DecodeError::EmptyInput)
        } else if raw[0] == EIP2930_SELECTOR {
            Ok(TxType::EIP2930)
        } else if raw[0] == EIP1559_SELECTOR {
            Ok(TxType::EIP1559)
        } else if raw[0] >= LIST_PREFIX {
            Ok(TxType::Legacy)
        } else {
            Err(DecodeError::UnsupportedTxType { selector: raw[0] })
        }
    }
}

/// The fields of a transaction: the items of a list that has exactly
/// `expected` of them.
pub open spec fn fields_of(item: ItemView, expected: nat) -> Result<Seq<ItemView>, DecodeError> {
    match item {
        ItemView::Bytes(_) => Err(DecodeError::NotRlpList),
        ItemView::List(items) => if items.len() != expected {
            Err(
                DecodeError::InvalidFieldCount {
                    expected: expected as usize,
                    actual: items.len() as usize,
                },
            )
        } else {
            Ok(items)
        },
    }
}

/// The payload and signature that the nine fields of a legacy transaction
/// hold. Fields are read in their order, and the first that cannot be read
/// gives the failure.
pub open spec fn legacy_of(item: ItemView) -> Result<(LegacyTxView, SignatureView), DecodeError> {
    match fields_of(item, LEGACY_FIELDS as nat) {
        Err(e) => Err(e),
        Ok(f) => {
            let nonce = uint_field(f[0], 8);
            let gas_price = uint_field(f[1], 16);
            let gas_limit = uint_field(f[2], 8);
            let to = optional_field(f[3], 20);
            let value = uint_field(f[4], 16);
            let data = bytes_of(f[5]);
            let v = uint_field(f[6], 8);
            let r = uint_field(f[7], 32);
            let s = uint_field(f[8], 32);
            if nonce is Err {
                Err(nonce->Err_0)
            } else if gas_price is Err {
                Err(gas_price->Err_0)
            } else if gas_limit is Err {
                Err(gas_limit->Err_0)
            } else if to is Err {
                Err(to->Err_0)
            } else if value is Err {
                Err(value->Err_0)
            } else if data is Err {
                Err(data->Err_0)
            } else if v is Err {
                Err(v->Err_0)
            } else if r is Err {
                Err(r->Err_0)
            } else if s is Err {
                Err(s->Err_0)
            } else {
                Ok(
                    (
                        LegacyTxView {
                            nonce: nonce->Ok_0,
                            gas_price: gas_price->Ok_0,
                            gas_limit: gas_limit->Ok_0,
                            to: to->Ok_0,
                            value: value->Ok_0,
                            data: data->Ok_0,
                        },
                        SignatureView { r: r->Ok_0, s: s->Ok_0, v: v->Ok_0 },
                    ),
                )
            }
        },
    }
}

impl Item {
    /// The fields of a transaction in this item, which must be a list of
    /// exactly `expected` items.
    pub fn expect_fields(&self, expected: usize) -> (r: Result<&Vec<Item>, DecodeError>)
        ensures
            r matches Ok(items) ==> fields_of(self@, expected as nat) == Ok::<
                Seq<ItemView>,
                DecodeError,
            >(views(items@)),
            r matches Err(e) ==> fields_of(self@, expected as nat) == Err::<
                Seq<ItemView>,
                DecodeError,
            >(e),
    {
        match self {
            Item::Bytes(_) => Err(DecodeError::NotRlpList),
            Item::List(items) => if items.len() != expected {
                Err(DecodeError::InvalidFieldCount { expected, actual: items.len() })
            } else {
                Ok(items)
            },
        }
    }
}

/// Takes the payload and the signature of a legacy transaction from its item
/// tree.
pub fn legacy_from_item(item: &Item) -> (r: Result<(LegacyTx, Signature), DecodeError>)
    ensures
        r matches Ok(pair) ==> legacy_of(item@) == Ok::<(LegacyTxView, SignatureView), DecodeError>(
            (pair.0@, pair.1@),
        ),
        r matches Err(e) ==> legacy_of(item@) == Err::<(LegacyTxView, SignatureView), DecodeError>(
            e,
        ),
{
    let f = item.expect_fields(LEGACY_FIELDS)?;
    proof {
        assert forall|i: int| 0 <= i < 9 implies views(f@)[i] == f@[i]@ by {}
    }
    let nonce = f[0].as_u64()?;
    let gas_price = f[1].as_u128()?;
    let gas_limit = f[2].as_u64()?;
    let to = f[3].as_optional_address()?;
    let value = f[4].as_u128()?;
    let data = f[5].as_bytes()?.clone();
    let v = f[6].as_u64()?;
    let r = f[7].as_u256()?;
    let s = f[8].as_u256()?;
    Ok((LegacyTx { nonce, gas_price, gas_limit, to, value, data }, Signature { r, s, v }))
}

/// The chain id, payload and signature that the eleven fields of an
/// access-list transaction hold, read as those of a legacy transaction are.
pub open spec fn eip2930_of(item: ItemView) -> Result<
    (nat, Eip2930TxView, SignatureView),
    DecodeError,
> {
    match fields_of(item, EIP2930_FIELDS as nat) {
        Err(e) => Err(e),
        Ok(f) => {
            let chain_id = uint_field(f[0], 8);
            let nonce = uint_field(f[1], 8);
            let gas_price = uint_field(f[2], 16);
            let gas_limit = uint_field(f[3], 8);
            let to = optional_field(f[4], 20);
            let value = uint_field(f[5], 16);
            let data = bytes_of(f[6]);
            let access_list = access_list_of(f[7]);
            let v = uint_field(f[8], 8);
            let r = uint_field(f[9], 32);
            let s = uint_field(f[10], 32);
            if chain_id is Err {
                Err(chain_id->Err_0)
            } else if nonce is Err {
                Err(nonce->Err_0)
            } else if gas_price is Err {
                Err(gas_price->Err_0)
            } else if gas_limit is Err {
                Err(gas_limit->Err_0)
            } else if to is Err {
                Err(to->Err_0)
            } else if value is Err {
                Err(value->Err_0)
            } else if data is Err {
                Err(data->Err_0)
            } else if access_list is Err {
                Err(access_list->Err_0)
            } else if v is Err {
                Err(v->Err_0)
            } else if r is Err {
                Err(r->Err_0)
            } else if s is Err {
                Err(s->Err_0)
            } else {
                Ok(
                    (
                        chain_id->Ok_0,
                        Eip2930TxView {
                            nonce: nonce->Ok_0,
                            gas_price: gas_price->Ok_0,
                            gas_limit: gas_limit->Ok_0,
                            to: to->Ok_0,
                            value: value->Ok_0,
                            data: data->Ok_0,
                            access_list: access_list->Ok_0,
                        },
                        SignatureView { r: r->Ok_0, s: s->Ok_0, v: v->Ok_0 },
                    ),
                )
            }
        },
    }
}

/// The chain id, payload and signature that the twelve fields of a fee-market
/// transaction hold, read as those of a legacy transaction are.
pub open spec fn eip1559_of(item: ItemView) -> Result<
    (nat, Eip1559TxView, SignatureView),
    DecodeError,
> {
    match fields_of(item, EIP1559_FIELDS as nat) {
        Err(e) => Err(e),
        Ok(f) => {
            let chain_id = uint_field(f[0], 8);
            let nonce = uint_field(f[1], 8);
            let max_priority_fee_per_gas = uint_field(f[2], 16);
            let max_fee_per_gas = uint_field(f[3], 16);
            let gas_limit = uint_field(f[4], 8);
            let to = optional_field(f[5], 20);
            let value = uint_field(f[6], 16);
            let data = bytes_of(f[7]);
            let access_list = access_list_of(f[8]);
            let v = uint_field(f[9], 8);
            let r = uint_field(f[10], 32);
            let s = uint_field(f[11], 32);
            if chain_id is Err {
                Err(chain_id->Err_0)
            } else if nonce is Err {
                Err(nonce->Err_0)
            } else if max_priority_fee_per_gas is Err {
                Err(max_priority_fee_per_gas->Err_0)
            } else if max_fee_per_gas is Err {
                Err(max_fee_per_gas->Err_0)
            } else if gas_limit is Err {
                Err(gas_limit->Err_0)
            } else if to is Err {
                Err(to->Err_0)
            } else if value is Err {
                Err(value->Err_0)
            } else if data is Err {
                Err(data->Err_0)
            } else if access_list is Err {
                Err(access_list->Err_0)
            } else if v is Err {
                Err(v->Err_0)
            } else if r is Err {
                Err(r->Err_0)
            } else if s is Err {
                Err(s->Err_0)
            } else {
                Ok(
                    (
                        chain_id->Ok_0,
                        Eip1559TxView {
                            nonce: nonce->Ok_0,
                            max_priority_fee_per_gas: max_priority_fee_per_gas->Ok_0,
                            max_fee_per_gas: max_fee_per_gas->Ok_0,
                            gas_limit: gas_limit->Ok_0,
                            to: to->Ok_0,
                            value: value->Ok_0,
                            data: data->Ok_0,
                            access_list: access_list->Ok_0,
                        },
                        SignatureView { r: r->Ok_0, s: s->Ok_0, v: v->Ok_0 },
                    ),
                )
            }
        },
    }
}

/// Takes the chain id, the payload and the signature of an access-list
/// transaction from its item tree.
pub fn eip2930_from_item(item: &Item) -> (r: Result<(u64, Eip2930Tx, Signature), DecodeError>)
    ensures
        r matches Ok(parts) ==> eip2930_of(item@) == Ok::<
            (nat, Eip2930TxView, SignatureView),
            DecodeError,
        >((parts.0 as nat, parts.1@, parts.2@)),
        r matches Err(e) ==> eip2930_of(item@) == Err::<
            (nat, Eip2930TxView, SignatureView),
            DecodeError,
        >(e),
{
    let f = item.expect_fields(EIP2930_FIELDS)?;
    proof {
        assert forall|i: int| 0 <= i < 11 implies views(f@)[i] == f@[i]@ by {}
    }
    let chain_id = f[0].as_u64()?;
    let nonce = f[1].as_u64()?;
    let gas_price = f[2].as_u128()?;
    let gas_limit = f[3].as_u64()?;
    let to = f[4].as_optional_address()?;
    let value = f[5].as_u128()?;
    let data = f[6].as_bytes()?.clone();
    let access_list = f[7].as_access_list()?;
    let v = f[8].as_u64()?;
    let r = f[9].as_u256()?;
    let s = f[10].as_u256()?;
    Ok(
        (
            chain_id,
            Eip2930Tx { nonce, gas_price, gas_limit, to, value, data, access_list },
            Signature { r, s, v },
        ),
    )
}

/// Takes the chain id, the payload and the signature of a fee-market
/// transaction from its item tree.
pub fn eip1559_from_item(item: &Item) -> (r: Result<(u64, Eip1559Tx, Signature), DecodeError>)
    ensures
        r matches Ok(parts) ==> eip1559_of(item@) == Ok::<
            (nat, Eip1559TxView, SignatureView),
            DecodeError,
        >((parts.0 as nat, parts.1@, parts.2@)),
        r matches Err(e) ==> eip1559_of(item@) == Err::<
            (nat, Eip1559TxView, SignatureView),
            DecodeError,
        >(e),
{
    let f = item.expect_fields(EIP1559_FIELDS)?;
    proof {
        assert forall|i: int| 0 <= i < 12 implies views(f@)[i] == f@[i]@ by {}
    }
    let chain_id = f[0].as_u64()?;
    let nonce = f[1].as_u64()?;
    let max_priority_fee_per_gas = f[2].as_u128()?;
    let max_fee_per_gas = f[3].as_u128()?;
    let gas_limit = f[4].as_u64()?;
    let to = f[5].as_optional_address()?;
    let value = f[6].as_u128()?;
    let data = f[7].as_bytes()?.clone();
    let access_list = f[8].as_access_list()?;
    let v = f[9].as_u64()?;
    let r = f[10].as_u256()?;
    let s = f[11].as_u256()?;
    Ok(
        (
            chain_id,
            Eip1559Tx {
                nonce,
                max_priority_fee_per_gas,
                max_fee_per_gas,
                gas_limit,
                to,
                value,
                data,
                access_list,
            },
            Signature { r, s, v },
        ),
    )
}

/// The transaction in an item tree of the layout of `tx_type`. After the
/// fields, `v` is read: a legacy `v` gives the chain id, a typed `v` must be
/// a parity bit and the chain id is the first field.
pub open spec fn transaction_of_item(tx_type: TxType, item: ItemView) -> Result<
    TransactionView,
    DecodeError,
> {
    match tx_type {
        TxType::Legacy => match legacy_of(item) {
            Err(e) => Err(e),
            Ok((payload, signature)) => match legacy_chain_id(signature.v) {
                Err(e) => Err(e),
                Ok(chain_id) => Ok(
                    TransactionView {
                        tx_type,
                        chain_id,
                        unsigned: UnsignedTxView::Legacy(payload),
                        signature,
                    },
                ),
            },
        },
        TxType::EIP2930 => match eip2930_of(item) {
            Err(e) => Err(e),
            Ok((chain_id, payload, signature)) => match typed_parity(signature.v) {
                Err(e) => Err(e),
                Ok(_) => Ok(
                    TransactionView {
                        tx_type,
                        chain_id: Some(chain_id),
                        unsigned: UnsignedTxView::EIP2930(payload),
                        signature,
                    },
                ),
            },
        },
        TxType::EIP1559 => match eip1559_of(item) {
            Err(e) => Err(e),
            Ok((chain_id, payload, signature)) => match typed_parity(signature.v) {
                Err(e) => Err(e),
                Ok(_) => Ok(
                    TransactionView {
                        tx_type,
                        chain_id: Some(chain_id),
                        unsigned: UnsignedTxView::EIP1559(payload),
                        signature,
                    },
                ),
            },
        },
    }
}

/// The bytes that encode the list of fields: all of a legacy transaction, and
/// what follows the selector byte of a typed one.
pub open spec fn field_bytes(tx_type: TxType, raw: Seq<u8>) -> Seq<u8> {
    match tx_type {
        TxType::Legacy => raw,
        _ => raw.subrange(1, raw.len() as int),
    }
}

/// The transaction that `raw` encodes.
pub open spec fn transaction_of(raw: Seq<u8>) -> Result<TransactionView, DecodeError> {
    match tx_type_of(raw) {
        Err(e) => Err(e),
        Ok(tx_type) => match parse_item(field_bytes(tx_type, raw)) {
            Err(e) => Err(e),
            Ok(item) => transaction_of_item(tx_type, item),
        },
    }
}

impl UnsignedTx {
    /// The type whose layout this payload has.
    pub fn tx_type(&self) -> (t: TxType)
        ensures
            t == self@.tx_type(),
    {
        match self {
            UnsignedTx::Legacy(_) => TxType::Legacy,
            UnsignedTx::EIP1559(_) => TxType::EIP1559,
            UnsignedTx::EIP2930(_) => TxType::EIP2930,
        }
    }
}

impl Transaction {
    /// Puts a transaction together. Its type is that of the payload's layout,
    /// so the two cannot disagree.
    pub fn assemble(chain_id: Option<u64>, unsigned: UnsignedTx, signature: Signature) -> (tx:
        Transaction)
        ensures
            tx.tx_type == unsigned@.tx_type(),
            tx.chain_id == chain_id,
            tx.unsigned == unsigned,
            tx.signature == signature,
    {
        let tx_type = unsigned.tx_type();
        Transaction { tx_type, chain_id, unsigned, signature }
    }

    /// Takes a transaction of the layout of `tx_type` from its item tree.
    pub fn from_item(tx_type: TxType, item: &Item) -> (r: Result<Transaction, DecodeError>)
        ensures
            result_view(r) == transaction_of_item(tx_type, item@),
            r matches Ok(tx) ==> tx.tx_type == tx_type && tx@.well_formed(),
    {
        match tx_type {
            TxType::Legacy => {
                let (payload, signature) = legacy_from_item(item)?;
                let chain_id = resolve_chain_id(signature.v)?;
                Ok(Transaction::assemble(chain_id, UnsignedTx::Legacy(payload), signature))
            },
            TxType::EIP2930 => {
                let (chain_id, payload, signature) = eip2930_from_item(item)?;
                let _ = check_typed_parity(signature.v)?;
                Ok(Transaction::assemble(Some(chain_id), UnsignedTx::EIP2930(payload), signature))
            },
            TxType::EIP1559 => {
                let (chain_id, payload, signature) = eip1559_from_item(item)?;
                let _ = check_typed_parity(signature.v)?;
                Ok(Transaction::assemble(Some(chain_id), UnsignedTx::EIP1559(payload), signature))
            },
        }
    }

    /// Decodes a serialized transaction of any of the three types.
    pub fn decode(raw: &[u8]) -> (r: Result<Transaction, DecodeError>)
        ensures
            result_view(r) == transaction_of(raw@),
            r matches Ok(tx) ==> tx_type_of(raw@) == Ok::<TxType, DecodeError>(tx.tx_type)
                && tx@.well_formed(),
    {
        let tx_type = TxType::get_tx_type(raw)?;
        let body = match tx_type {
            TxType::Legacy => raw,
            _ => slice_subrange(raw, 1, raw.len()),
        };
        let item = decode_item(body)?;
        Transaction::from_item(tx_type, &item)
    }
}

/// The payload and signature of the legacy transaction that `raw` encodes.
pub open spec fn legacy_of_bytes(raw: Seq<u8>) -> Result<(LegacyTxView, SignatureView), DecodeError> {
    match parse_item(raw) {
        Err(e) => Err(e),
        Ok(item) => legacy_of(item),
    }
}

/// The chain id, payload and signature of the access-list transaction whose
/// list of fields `body` encodes.
pub open spec fn eip2930_of_bytes(body: Seq<u8>) -> Result<
    (nat, Eip2930TxView, SignatureView),
    DecodeError,
> {
    match parse_item(body) {
        Err(e) => Err(e),
        Ok(item) => eip2930_of(item),
    }
}

/// The chain id, payload and signature of the fee-market transaction whose
/// list of fields `body` encodes.
pub open spec fn eip1559_of_bytes(body: Seq<u8>) -> Result<
    (nat, Eip1559TxView, SignatureView),
    DecodeError,
> {
    match parse_item(body) {
        Err(e) => Err(e),
        Ok(item) => eip1559_of(item),
    }
}

/// Decodes the list of fields of a legacy transaction into its payload and
/// signature. The chain id is not derived here, and `v` is not judged.
pub fn decode_legacy(raw: &[u8]) -> (r: Result<(LegacyTx, Signature), DecodeError>)
    ensures
        r matches Ok(pair) ==> legacy_of_bytes(raw@) == Ok::<
            (LegacyTxView, SignatureView),
            DecodeError,
        >((pair.0@, pair.1@)),
        r matches Err(e) ==> legacy_of_bytes(raw@) == Err::<
            (LegacyTxView, SignatureView),
            DecodeError,
        >(e),
{
    let item = decode_item(raw)?;
    legacy_from_item(&item)
}

/// Decodes the list of fields of an access-list transaction, the bytes behind
/// the selector, into its chain id, payload and signature. `v` is not judged.
pub fn decode_eip2930(body: &[u8]) -> (r: Result<(u64, Eip2930Tx, Signature), DecodeError>)
    ensures
        r matches Ok(parts) ==> eip2930_of_bytes(body@) == Ok::<
            (nat, Eip2930TxView, SignatureView),
            DecodeError,
        >((parts.0 as nat, parts.1@, parts.2@)),
        r matches Err(e) ==> eip2930_of_bytes(body@) == Err::<
            (nat, Eip2930TxView, SignatureView),
            DecodeError,
        >(e),
{
    let item = decode_item(body)?;
    eip2930_from_item(&item)
}

/// Decodes the list of fields of a fee-market transaction, the bytes behind
/// the selector, into its chain id, payload and signature. `v` is not judged.
pub fn decode_eip1559(body: &[u8]) -> (r: Result<(u64, Eip1559Tx, Signature), DecodeError>)
    ensures
        r matches Ok(parts) ==> eip1559_of_bytes(body@) == Ok::<
            (nat, Eip1559TxView, SignatureView),
            DecodeError,
        >((parts.0 as nat, parts.1@, parts.2@)),
        r matches Err(e) ==> eip1559_of_bytes(body@) == Err::<
            (nat, Eip1559TxView, SignatureView),
            DecodeError,
        >(e),
{
    let item = decode_item(body)?;
    eip1559_from_item(&item)
}

} // verus!
