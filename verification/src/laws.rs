//! What holds of every decode, proved from the definitions.

use vstd::prelude::*;
use crate::chain_id::{legacy_chain_id, legacy_parity, typed_parity};
use crate::decode::{field_bytes, transaction_of, transaction_of_item, tx_type_of};
use crate::error::{DecodeError, ErrorKind};
use crate::fields::{access_entry_of, fixed_field, optional_field, uint_field};
use crate::header::{Header, HeaderFault, rlp_header, span_of};
use crate::item::{ItemView, item_of, items_of, parse_item};
use crate::layout::{FieldShape, field_shape, readable_before, recipient_index, unreadable};
use crate::tx::{AccessListItemView, TransactionView, TxType};
use crate::uint::uint_of;

verus! {

/// The failure of a transaction's fields is the failure of the first field,
/// in the order of the layout, that cannot be read.
pub proof fn lemma_first_unreadable_field_fails(tx_type: TxType, fields: Seq<ItemView>, index: nat)
    requires
        fields.len() == tx_type.spec_field_count(),
        index < fields.len(),
        readable_before(tx_type, fields, index),
        unreadable(field_shape(tx_type, index), fields[index as int]) is Some,
    ensures
        transaction_of_item(tx_type, ItemView::List(fields)) == Err::<TransactionView, DecodeError>(
            unreadable(field_shape(tx_type, index), fields[index as int])->Some_0,
        ),
{
    if index > 0 { assert(unreadable(field_shape(tx_type, 0), fields[0]) is None); }
    if index > 1 { assert(unreadable(field_shape(tx_type, 1), fields[1]) is None); }
    if index > 2 { assert(unreadable(field_shape(tx_type, 2), fields[2]) is None); }
    if index > 3 { assert(unreadable(field_shape(tx_type, 3), fields[3]) is None); }
    if index > 4 { assert(unreadable(field_shape(tx_type, 4), fields[4]) is None); }
    if index > 5 { assert(unreadable(field_shape(tx_type, 5), fields[5]) is None); }
    if index > 6 { assert(unreadable(field_shape(tx_type, 6), fields[6]) is None); }
    if index > 7 { assert(unreadable(field_shape(tx_type, 7), fields[7]) is None); }
    if index > 8 { assert(unreadable(field_shape(tx_type, 8), fields[8]) is None); }
    if index > 9 { assert(unreadable(field_shape(tx_type, 9), fields[9]) is None); }
    if index > 10 { assert(unreadable(field_shape(tx_type, 10), fields[10]) is None); }
}

/// Where a field cannot be read, the transaction is not decoded, whatever
/// stands in the other fields.
pub proof fn lemma_unreadable_field_fails(tx_type: TxType, fields: Seq<ItemView>, index: nat)
    requires
        fields.len() == tx_type.spec_field_count(),
        index < fields.len(),
        unreadable(field_shape(tx_type, index), fields[index as int]) is Some,
    ensures
        transaction_of_item(tx_type, ItemView::List(fields)) is Err,
{
}

/// The index of `v` in the layout of `tx_type`.
pub open spec fn v_index(tx_type: TxType) -> nat {
    match tx_type {
        TxType::Legacy => 6,
        TxType::EIP2930 => 8,
        TxType::EIP1559 => 9,
    }
}

/// Where every field can be read, the transaction is decoded if and only if
/// its `v` is valid for its type: success is owed on every such input.
pub proof fn lemma_readable_fields_decode(tx_type: TxType, fields: Seq<ItemView>)
    requires
        fields.len() == tx_type.spec_field_count(),
        readable_before(tx_type, fields, fields.len()),
    ensures
        uint_field(fields[v_index(tx_type) as int], 8) is Ok,
        transaction_of_item(tx_type, ItemView::List(fields)) is Ok <==> {
            let v = uint_field(fields[v_index(tx_type) as int], 8)->Ok_0;
            match tx_type {
                TxType::Legacy => legacy_chain_id(v) is Ok,
                _ => typed_parity(v) is Ok,
            }
        },
{
    assert(unreadable(field_shape(tx_type, 0), fields[0]) is None);
    assert(unreadable(field_shape(tx_type, 1), fields[1]) is None);
    assert(unreadable(field_shape(tx_type, 2), fields[2]) is None);
    assert(unreadable(field_shape(tx_type, 3), fields[3]) is None);
    assert(unreadable(field_shape(tx_type, 4), fields[4]) is None);
    assert(unreadable(field_shape(tx_type, 5), fields[5]) is None);
    assert(unreadable(field_shape(tx_type, 6), fields[6]) is None);
    assert(unreadable(field_shape(tx_type, 7), fields[7]) is None);
    assert(unreadable(field_shape(tx_type, 8), fields[8]) is None);
    if fields.len() > 9 {
        assert(unreadable(field_shape(tx_type, 9), fields[9]) is None);
        assert(unreadable(field_shape(tx_type, 10), fields[10]) is None);
    }
    if fields.len() > 11 {
        assert(unreadable(field_shape(tx_type, 11), fields[11]) is None);
    }
}

/// A decoded transaction has the type that its first byte selects, a payload
/// in the layout of that type, and all that `well_formed` asks for.
pub proof fn lemma_decoded_type_matches_selector(raw: Seq<u8>)
    ensures
        transaction_of(raw) matches Ok(tx) ==> {
            &&& tx_type_of(raw) == Ok::<TxType, DecodeError>(tx.tx_type)
            &&& tx.unsigned.tx_type() == tx.tx_type
            &&& tx.well_formed()
            &&& raw[0] == 0x01 <==> tx.tx_type == TxType::EIP2930
            &&& raw[0] == 0x02 <==> tx.tx_type == TxType::EIP1559
            &&& raw[0] >= 0xc0 <==> tx.tx_type == TxType::Legacy
        },
{
}

/// A first byte that is neither `0x01` nor `0x02` nor a list prefix is an
/// unsupported selector, whatever follows it.
pub proof fn lemma_unsupported_selector(raw: Seq<u8>)
    requires
        raw.len() > 0,
        raw[0] != 0x01,
        raw[0] != 0x02,
        raw[0] < 0xc0,
    ensures
        transaction_of(raw) == Err::<TransactionView, DecodeError>(
            DecodeError::UnsupportedTxType { selector: raw[0] },
        ),
        transaction_of(raw)->Err_0.spec_kind() == ErrorKind::UnsupportedTypeSelector,
{
}

/// A legacy `v` of 27 or 28 carries no chain id; from 35 on it carries
/// `(v - 35) / 2`, rounded down, which is never negative and which, with the
/// parity bit, gives `v` back; every other `v` is refused.
pub proof fn lemma_legacy_chain_id(v: nat)
    ensures
        v == 27 || v == 28 ==> legacy_chain_id(v) == Ok::<Option<nat>, DecodeError>(None),
        v >= 35 ==> legacy_chain_id(v) == Ok::<Option<nat>, DecodeError>(
            Some(((v - 35) / 2) as nat),
        ),
        v >= 35 ==> (v - 35) / 2 >= 0,
        v >= 35 ==> v == 35 + 2 * legacy_chain_id(v)->Ok_0->Some_0 + legacy_parity(v)->Ok_0,
        v >= 35 ==> legacy_parity(v)->Ok_0 <= 1,
        v != 27 && v != 28 && v < 35 ==> legacy_chain_id(v) is Err
            && legacy_chain_id(v)->Err_0.spec_kind() == ErrorKind::InvalidSignatureEncoding,
{
}

/// The chain id of a decoded legacy transaction is the one that its `v`
/// carries, and that of a decoded typed transaction is present.
pub proof fn lemma_decoded_chain_id(tx_type: TxType, item: ItemView)
    ensures
        transaction_of_item(tx_type, item) matches Ok(tx) ==> match tx_type {
            TxType::Legacy => legacy_chain_id(tx.signature.v) == Ok::<Option<nat>, DecodeError>(
                tx.chain_id,
            ),
            _ => tx.chain_id is Some,
        },
{
}

/// A list with another number of items than the layout of its type has is
/// refused with both numbers, for each of the three types.
pub proof fn lemma_wrong_field_count(tx_type: TxType, items: Seq<ItemView>)
    requires
        items.len() != tx_type.spec_field_count(),
    ensures
        transaction_of_item(tx_type, ItemView::List(items)) == Err::<TransactionView, DecodeError>(
            DecodeError::InvalidFieldCount {
                expected: tx_type.spec_field_count() as usize,
                actual: items.len() as usize,
            },
        ),
        transaction_of_item(tx_type, ItemView::List(items))->Err_0.spec_kind()
            == ErrorKind::StructuralMismatch,
        tx_type.spec_field_count() == match tx_type {
            TxType::Legacy => 9nat,
            TxType::EIP2930 => 11nat,
            TxType::EIP1559 => 12nat,
        },
{
}

/// The same for an encoded transaction: where its bytes decode to a list of
/// the wrong length, the failure names the length asked for and the length
/// found.
pub proof fn lemma_wrong_field_count_encoded(raw: Seq<u8>, items: Seq<ItemView>)
    requires
        tx_type_of(raw) is Ok,
        parse_item(field_bytes(tx_type_of(raw)->Ok_0, raw)) == Ok::<ItemView, DecodeError>(
            ItemView::List(items),
        ),
        items.len() != tx_type_of(raw)->Ok_0.spec_field_count(),
    ensures
        transaction_of(raw) == Err::<TransactionView, DecodeError>(
            DecodeError::InvalidFieldCount {
                expected: tx_type_of(raw)->Ok_0.spec_field_count() as usize,
                actual: items.len() as usize,
            },
        ),
{
    lemma_wrong_field_count(tx_type_of(raw)->Ok_0, items);
}

/// An address is a byte string of exactly twenty bytes: any other length,
/// none included, is a failure of the field's shape.
pub proof fn lemma_address_length(bytes: Seq<u8>)
    ensures
        bytes.len() == 20 ==> fixed_field(ItemView::Bytes(bytes), 20) == Ok::<
            Seq<u8>,
            DecodeError,
        >(bytes),
        bytes.len() != 20 ==> fixed_field(ItemView::Bytes(bytes), 20) == Err::<
            Seq<u8>,
            DecodeError,
        >(DecodeError::InvalidFieldLength { expected: 20, actual: bytes.len() as usize }),
        bytes.len() != 20 ==> fixed_field(ItemView::Bytes(bytes), 20)->Err_0.spec_kind()
            == ErrorKind::FieldShapeMismatch,
{
}

/// The address of an access-list entry is required: an entry whose first
/// item is a byte string of another length than twenty fails on it.
pub proof fn lemma_entry_address_length(bytes: Seq<u8>, keys: ItemView)
    requires
        bytes.len() != 20,
    ensures
        access_entry_of(ItemView::List(seq![ItemView::Bytes(bytes), keys])) == Err::<
            AccessListItemView,
            DecodeError,
        >(DecodeError::InvalidFieldLength { expected: 20, actual: bytes.len() as usize }),
{
}

/// A recipient is an address or nothing: the empty byte string is valid and
/// stands for the creation of a contract, twenty bytes are an address, and
/// any other length is a failure of the field's shape.
pub proof fn lemma_optional_address_length(bytes: Seq<u8>)
    ensures
        bytes.len() == 0 ==> optional_field(ItemView::Bytes(bytes), 20) == Ok::<
            Option<Seq<u8>>,
            DecodeError,
        >(None),
        bytes.len() == 20 ==> optional_field(ItemView::Bytes(bytes), 20) == Ok::<
            Option<Seq<u8>>,
            DecodeError,
        >(Some(bytes)),
        bytes.len() != 0 && bytes.len() != 20 ==> optional_field(ItemView::Bytes(bytes), 20)
            == Err::<Option<Seq<u8>>, DecodeError>(
            DecodeError::InvalidFieldLength { expected: 20, actual: bytes.len() as usize },
        ),
{
}

/// A transaction whose recipient is neither empty nor twenty bytes long is
/// not decoded; where every field before the recipient can be read, the
/// failure is that of the recipient's length.
pub proof fn lemma_recipient_length(tx_type: TxType, fields: Seq<ItemView>, bytes: Seq<u8>)
    requires
        fields.len() == tx_type.spec_field_count(),
        fields[recipient_index(tx_type) as int] == ItemView::Bytes(bytes),
        bytes.len() != 0,
        bytes.len() != 20,
    ensures
        transaction_of_item(tx_type, ItemView::List(fields)) is Err,
        readable_before(tx_type, fields, recipient_index(tx_type)) ==> transaction_of_item(
            tx_type,
            ItemView::List(fields),
        ) == Err::<TransactionView, DecodeError>(
            DecodeError::InvalidFieldLength { expected: 20, actual: bytes.len() as usize },
        ),
{
    let index = recipient_index(tx_type);
    assert(field_shape(tx_type, index) == FieldShape::Recipient);
    lemma_unreadable_field_fails(tx_type, fields, index);
    if readable_before(tx_type, fields, index) {
        lemma_first_unreadable_field_fails(tx_type, fields, index);
    }
}

/// An integer with a leading zero byte is refused as malformed, whatever
/// its width; without one, and no longer than its field, it is the number
/// that its bytes spell.
pub proof fn lemma_leading_zero(bytes: Seq<u8>, width: nat)
    ensures
        bytes.len() > 0 && bytes[0] == 0 ==> uint_of(bytes, width) == Err::<nat, DecodeError>(
            DecodeError::NonCanonicalInteger,
        ),
        DecodeError::NonCanonicalInteger.spec_kind() == ErrorKind::MalformedEncoding,
        bytes.len() == 0 ==> uint_of(bytes, width) == Ok::<nat, DecodeError>(0),
        uint_of(bytes, width) is Ok ==> bytes.len() <= width && (bytes.len() > 0 ==> bytes[0] != 0),
{
}

/// A transaction with an integer field that starts with a zero byte is not
/// decoded; where every field before it can be read, the failure is that of
/// the integer's form.
pub proof fn lemma_leading_zero_field(
    tx_type: TxType,
    fields: Seq<ItemView>,
    index: nat,
    bytes: Seq<u8>,
)
    requires
        fields.len() == tx_type.spec_field_count(),
        index < fields.len(),
        field_shape(tx_type, index) is Uint,
        fields[index as int] == ItemView::Bytes(bytes),
        bytes.len() > 0,
        bytes[0] == 0,
    ensures
        transaction_of_item(tx_type, ItemView::List(fields)) is Err,
        readable_before(tx_type, fields, index) ==> transaction_of_item(
            tx_type,
            ItemView::List(fields),
        ) == Err::<TransactionView, DecodeError>(DecodeError::NonCanonicalInteger),
{
    lemma_unreadable_field_fails(tx_type, fields, index);
    if readable_before(tx_type, fields, index) {
        lemma_first_unreadable_field_fails(tx_type, fields, index);
    }
}

/// An item that its header lets end behind the input is truncated, and so is
/// one whose header the reader found too short to read.
pub proof fn lemma_truncated_span(bytes: Seq<u8>)
    ensures
        rlp_header(bytes) matches Ok(header) && header.header_len + header.value_len > bytes.len()
            ==> span_of(bytes) == Err::<Header, DecodeError>(DecodeError::Truncated),
        rlp_header(bytes) == Err::<Header, HeaderFault>(HeaderFault::TooShort) ==> span_of(bytes)
            == Err::<Header, DecodeError>(DecodeError::Truncated),
        span_of(bytes) matches Ok(header) ==> 0 < header.header_len + header.value_len
            <= bytes.len(),
        DecodeError::Truncated.spec_kind() == ErrorKind::MalformedEncoding,
{
}

/// Truncated input is refused as truncated, as the outermost item and as
/// the first item of a list's payload.
pub proof fn lemma_truncated_input(bytes: Seq<u8>, depth: nat)
    requires
        bytes.len() > 0,
        span_of(bytes) == Err::<Header, DecodeError>(DecodeError::Truncated),
    ensures
        parse_item(bytes) == Err::<ItemView, DecodeError>(DecodeError::Truncated),
        items_of(bytes, depth) == Err::<Seq<ItemView>, DecodeError>(DecodeError::Truncated),
{
}

/// A failure behind the first item of a payload is the failure of the
/// payload: what was decoded before it does not hide it.
pub proof fn lemma_failure_behind_first_item(payload: Seq<u8>, depth: nat, e: DecodeError)
    requires
        payload.len() > 0,
        span_of(payload) is Ok,
        ({
            let header = span_of(payload)->Ok_0;
            let end = header.header_len + header.value_len;
            &&& item_of(payload.subrange(0, end), header, depth) is Ok
            &&& items_of(payload.subrange(end, payload.len() as int), depth) == Err::<
                Seq<ItemView>,
                DecodeError,
            >(e)
        }),
    ensures
        items_of(payload, depth) == Err::<Seq<ItemView>, DecodeError>(e),
{
}

/// A transaction whose list of fields is truncated at its outermost header
/// is refused as truncated, for each of the three types.
pub proof fn lemma_truncated_transaction(raw: Seq<u8>)
    requires
        tx_type_of(raw) is Ok,
        field_bytes(tx_type_of(raw)->Ok_0, raw).len() > 0,
        span_of(field_bytes(tx_type_of(raw)->Ok_0, raw)) == Err::<Header, DecodeError>(
            DecodeError::Truncated,
        ),
    ensures
        transaction_of(raw) == Err::<TransactionView, DecodeError>(DecodeError::Truncated),
{
}

} // verus!
