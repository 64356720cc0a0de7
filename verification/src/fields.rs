//! Typed readings of items: unsigned integers, byte strings of fixed length,
//! optional addresses, raw bytes and access lists.

use vstd::prelude::*;
use crate::error::{DecodeError, prepend, result_view};
use crate::item::{Item, ItemView, views};
use crate::tx::{AccessListItem, AccessListItemView, access_list_view, recipient_view};
use crate::uint::{U256, parse_u128, parse_u256, parse_u64, uint_of};

verus! {

/// The length of an address in bytes.
pub const ADDRESS_LEN: usize = 20;

/// The length of a storage key in bytes.
pub const STORAGE_KEY_LEN: usize = 32;

/// The items of a list.
pub open spec fn list_of(item: ItemView) -> Result<Seq<ItemView>, DecodeError> {
    match item {
        ItemView::List(items) => Ok(items),
        ItemView::Bytes(_) => Err(DecodeError::NotRlpList),
    }
}

/// The item at `index` of a list.
pub open spec fn field_at(list: ItemView, index: nat) -> Result<ItemView, DecodeError> {
    match list_of(list) {
        Err(e) => Err(e),
        Ok(items) => if index < items.len() {
            Ok(items[index as int])
        } else {
            Err(DecodeError::MissingField { index: index as usize, count: items.len() as usize })
        },
    }
}

/// The bytes of a byte string.
pub open spec fn bytes_of(item: ItemView) -> Result<Seq<u8>, DecodeError> {
    match item {
        ItemView::Bytes(bytes) => Ok(bytes),
        ItemView::List(_) => Err(DecodeError::ExpectedBytes),
    }
}

/// A byte string read as an unsigned integer of at most `width` bytes.
pub open spec fn uint_field(item: ItemView, width: nat) -> Result<nat, DecodeError> {
    match bytes_of(item) {
        Err(e) => Err(e),
        Ok(bytes) => uint_of(bytes, width),
    }
}

/// A byte string of exactly `len` bytes.
pub open spec fn fixed_field(item: ItemView, len: nat) -> Result<Seq<u8>, DecodeError> {
    match bytes_of(item) {
        Err(e) => Err(e),
        Ok(bytes) => if bytes.len() == len {
            Ok(bytes)
        } else {
            Err(DecodeError::InvalidFieldLength { expected: len as usize, actual: bytes.len() as usize })
        },
    }
}

/// A byte string of exactly `len` bytes, or the empty byte string for none.
pub open spec fn optional_field(item: ItemView, len: nat) -> Result<Option<Seq<u8>>, DecodeError> {
    match bytes_of(item) {
        Err(e) => Err(e),
        Ok(bytes) => if bytes.len() == 0 {
            Ok(None)
        } else if bytes.len() == len {
            Ok(Some(bytes))
        } else {
            Err(DecodeError::InvalidFieldLength { expected: len as usize, actual: bytes.len() as usize })
        },
    }
}

/// Storage keys, one from each item; the first item that is no key fails the
/// whole.
pub open spec fn storage_keys_of(items: Seq<ItemView>) -> Result<Seq<Seq<u8>>, DecodeError>
    decreases items.len(),
{
    if items.len() == 0 {
        Ok(Seq::empty())
    } else {
        match fixed_field(items[0], STORAGE_KEY_LEN as nat) {
            Err(e) => Err(e),
            Ok(key) => prepend(seq![key], storage_keys_of(items.drop_first())),
        }
    }
}

/// One entry of an access list: a list of two items, an address and a list of
/// storage keys.
pub open spec fn access_entry_of(item: ItemView) -> Result<AccessListItemView, DecodeError> {
    match list_of(item) {
        Err(e) => Err(e),
        Ok(parts) => if parts.len() != 2 {
            Err(DecodeError::InvalidFieldCount { expected: 2, actual: parts.len() as usize })
        } else {
            match fixed_field(parts[0], ADDRESS_LEN as nat) {
                Err(e) => Err(e),
                Ok(address) => match list_of(parts[1]) {
                    Err(e) => Err(e),
                    Ok(key_items) => match storage_keys_of(key_items) {
                        Err(e) => Err(e),
                        Ok(storage_keys) => Ok(AccessListItemView { address, storage_keys }),
                    },
                },
            }
        },
    }
}

/// Access-list entries, one from each item; the first item that is no entry
/// fails the whole.
pub open spec fn access_entries_of(items: Seq<ItemView>) -> Result<
    Seq<AccessListItemView>,
    DecodeError,
>
    decreases items.len(),
{
    if items.len() == 0 {
        Ok(Seq::empty())
    } else {
        match access_entry_of(items[0]) {
            Err(e) => Err(e),
            Ok(entry) => prepend(seq![entry], access_entries_of(items.drop_first())),
        }
    }
}

/// An access list: a list whose items are entries, in their order.
pub open spec fn access_list_of(item: ItemView) -> Result<Seq<AccessListItemView>, DecodeError> {
    match list_of(item) {
        Err(e) => Err(e),
        Ok(items) => access_entries_of(items),
    }
}

/// Copies `N` bytes into an array.
fn to_array<const N: usize>(bytes: &[u8]) -> (array: [u8; N])
    requires
        bytes@.len() == N,
    ensures
        array@ == bytes@,
{
    let mut array = [0u8; N];
    let mut i: usize = 0;
    while i < N
        invariant
            i <= N,
            bytes@.len() == N,
            forall|j: int| 0 <= j < i ==> array@[j] == bytes@[j],
        decreases N - i,
    {
        array[i] = bytes[i];
        i = i + 1;
    }
    proof {
        assert(array@ =~= bytes@);
    }
    array
}

/// Reads storage keys from `items`, first to last.
fn storage_keys(items: &Vec<Item>) -> (r: Result<Vec<[u8; 32]>, DecodeError>)
    ensures
        r matches Ok(keys) ==> storage_keys_of(views(items@)) == Ok::<Seq<Seq<u8>>, DecodeError>(
            keys@.map_values(|key: [u8; 32]| key@),
        ),
        r matches Err(e) ==> storage_keys_of(views(items@)) == Err::<Seq<Seq<u8>>, DecodeError>(e),
{
    let ghost all = views(items@);
    let mut keys: Vec<[u8; 32]> = Vec::new();
    let mut i: usize = 0;
    proof {
        assert(all.skip(0) =~= all);
        assert(keys@.map_values(|key: [u8; 32]| key@) =~= Seq::<Seq<u8>>::empty());
        if let Ok(rest) = storage_keys_of(all) {
            assert(Seq::<Seq<u8>>::empty() + rest =~= rest);
        }
    }
    while i < items.len()
        invariant
            i <= items@.len(),
            all == views(items@),
            storage_keys_of(all) == prepend(
                keys@.map_values(|key: [u8; 32]| key@),
                storage_keys_of(all.skip(i as int)),
            ),
        decreases items@.len() - i,
    {
        let key = match items[i].as_storage_key() {
            Ok(key) => key,
            Err(e) => { return Err(e); },
        };
        proof {
            let done = keys@.map_values(|key: [u8; 32]| key@);
            assert(all.skip(i as int).drop_first() =~= all.skip(i + 1));
            assert(keys@.push(key).map_values(|key: [u8; 32]| key@) =~= done + seq![key@]);
            if let Ok(rest) = storage_keys_of(all.skip(i + 1)) {
                assert(done + (seq![key@] + rest) =~= (done + seq![key@]) + rest);
            }
        }
        keys.push(key);
        i = i + 1;
    }
    proof {
        let done = keys@.map_values(|key: [u8; 32]| key@);
        assert(done + Seq::<Seq<u8>>::empty() =~= done);
    }
    Ok(keys)
}

/// Reads one entry of an access list.
fn access_entry(item: &Item) -> (r: Result<AccessListItem, DecodeError>)
    ensures
        result_view(r) == access_entry_of(item@),
{
    let parts = match item {
        Item::List(parts) => parts,
        Item::Bytes(_) => { return Err(DecodeError::NotRlpList); },
    };
    if parts.len() != 2 {
        return Err(DecodeError::InvalidFieldCount { expected: 2, actual: parts.len() });
    }
    proof {
        assert(views(parts@)[0] == parts@[0]@);
        assert(views(parts@)[1] == parts@[1]@);
    }
    let address = match parts[0].as_address() {
        Ok(address) => address,
        Err(e) => { return Err(e); },
    };
    let key_items = match &parts[1] {
        Item::List(key_items) => key_items,
        Item::Bytes(_) => { return Err(DecodeError::NotRlpList); },
    };
    match storage_keys(key_items) {
        Ok(storage_keys) => Ok(AccessListItem { address, storage_keys }),
        Err(e) => Err(e),
    }
}

impl Item {
    /// The item at `index` of this list.
    pub fn field(&self, index: usize) -> (r: Result<&Item, DecodeError>)
        ensures
            result_view(r) == field_at(self@, index as nat),
    {
        match self {
            Item::List(items) => if index < items.len() {
                Ok(&items[index])
            } else {
                Err(DecodeError::MissingField { index, count: items.len() })
            },
            Item::Bytes(_) => Err(DecodeError::NotRlpList),
        }
    }

    /// The bytes of this byte string, as they are.
    pub fn as_bytes(&self) -> (r: Result<&Vec<u8>, DecodeError>)
        ensures
            result_view(r) == bytes_of(self@),
    {
        match self {
            Item::Bytes(bytes) => Ok(bytes),
            Item::List(_) => Err(DecodeError::ExpectedBytes),
        }
    }

    /// This byte string as an integer of at most eight bytes.
    pub fn as_u64(&self) -> (r: Result<u64, DecodeError>)
        ensures
            r matches Ok(n) ==> uint_field(self@, 8) == Ok::<nat, DecodeError>(n as nat),
            r matches Err(e) ==> uint_field(self@, 8) == Err::<nat, DecodeError>(e),
    {
        match self {
            Item::Bytes(bytes) => parse_u64(bytes.as_slice()),
            Item::List(_) => Err(DecodeError::ExpectedBytes),
        }
    }

    /// This byte string as an integer of at most sixteen bytes.
    pub fn as_u128(&self) -> (r: Result<u128, DecodeError>)
        ensures
            r matches Ok(n) ==> uint_field(self@, 16) == Ok::<nat, DecodeError>(n as nat),
            r matches Err(e) ==> uint_field(self@, 16) == Err::<nat, DecodeError>(e),
    {
        match self {
            Item::Bytes(bytes) => parse_u128(bytes.as_slice()),
            Item::List(_) => Err(DecodeError::ExpectedBytes),
        }
    }

    /// This byte string as an integer of at most thirty-two bytes.
    pub fn as_u256(&self) -> (r: Result<U256, DecodeError>)
        ensures
            result_view(r) == uint_field(self@, 32),
    {
        match self {
            Item::Bytes(bytes) => parse_u256(bytes.as_slice()),
            Item::List(_) => Err(DecodeError::ExpectedBytes),
        }
    }

    /// This byte string as an address: exactly twenty bytes.
    pub fn as_address(&self) -> (r: Result<[u8; 20], DecodeError>)
        ensures
            result_view(r) == fixed_field(self@, ADDRESS_LEN as nat),
    {
        match self {
            Item::Bytes(bytes) => if bytes.len() == ADDRESS_LEN {
                Ok(to_array::<20>(bytes.as_slice()))
            } else {
                Err(DecodeError::InvalidFieldLength { expected: ADDRESS_LEN, actual: bytes.len() })
            },
            Item::List(_) => Err(DecodeError::ExpectedBytes),
        }
    }

    /// This byte string as a storage key: exactly thirty-two bytes.
    pub fn as_storage_key(&self) -> (r: Result<[u8; 32], DecodeError>)
        ensures
            result_view(r) == fixed_field(self@, STORAGE_KEY_LEN as nat),
    {
        match self {
            Item::Bytes(bytes) => if bytes.len() == STORAGE_KEY_LEN {
                Ok(to_array::<32>(bytes.as_slice()))
            } else {
                Err(DecodeError::InvalidFieldLength {
                    expected: STORAGE_KEY_LEN,
                    actual: bytes.len(),
                })
            },
            Item::List(_) => Err(DecodeError::ExpectedBytes),
        }
    }

    /// This byte string as a recipient: an address, or nothing where it is
    /// empty, which marks the creation of a contract.
    pub fn as_optional_address(&self) -> (r: Result<Option<[u8; 20]>, DecodeError>)
        ensures
            r matches Ok(to) ==> optional_field(self@, ADDRESS_LEN as nat) == Ok::<
                Option<Seq<u8>>,
                DecodeError,
            >(recipient_view(to)),
            r matches Err(e) ==> optional_field(self@, ADDRESS_LEN as nat) == Err::<
                Option<Seq<u8>>,
                DecodeError,
            >(e),
    {
        match self {
            Item::Bytes(bytes) => if bytes.len() == 0 {
                Ok(None)
            } else if bytes.len() == ADDRESS_LEN {
                Ok(Some(to_array::<20>(bytes.as_slice())))
            } else {
                Err(DecodeError::InvalidFieldLength { expected: ADDRESS_LEN, actual: bytes.len() })
            },
            Item::List(_) => Err(DecodeError::ExpectedBytes),
        }
    }

    /// This list as an access list.
    pub fn as_access_list(&self) -> (r: Result<Vec<AccessListItem>, DecodeError>)
        ensures
            r matches Ok(list) ==> access_list_of(self@) == Ok::<
                Seq<AccessListItemView>,
                DecodeError,
            >(access_list_view(list@)),
            r matches Err(e) ==> access_list_of(self@) == Err::<Seq<AccessListItemView>, DecodeError>(
                e,
            ),
    {
        let items = match self {
            Item::List(items) => items,
            Item::Bytes(_) => { return Err(DecodeError::NotRlpList); },
        };
        let ghost all = views(items@);
        let mut list: Vec<AccessListItem> = Vec::new();
        let mut i: usize = 0;
        proof {
            assert(all.skip(0) =~= all);
            assert(access_list_view(list@) =~= Seq::<AccessListItemView>::empty());
            if let Ok(rest) = access_entries_of(all) {
                assert(Seq::<AccessListItemView>::empty() + rest =~= rest);
            }
        }
        while i < items.len()
            invariant
                i <= items@.len(),
                all == views(items@),
                access_list_of(self@) == access_entries_of(all),
                access_entries_of(all) == prepend(
                    access_list_view(list@),
                    access_entries_of(all.skip(i as int)),
                ),
            decreases items@.len() - i,
        {
            let entry = match access_entry(&items[i]) {
                Ok(entry) => entry,
                Err(e) => { return Err(e); },
            };
            proof {
                let done = access_list_view(list@);
                assert(all.skip(i as int).drop_first() =~= all.skip(i + 1));
                assert(access_list_view(list@.push(entry)) =~= done + seq![entry@]);
                if let Ok(rest) = access_entries_of(all.skip(i + 1)) {
                    assert(done + (seq![entry@] + rest) =~= (done + seq![entry@]) + rest);
                }
            }
            list.push(entry);
            i = i + 1;
        }
        proof {
            let done = access_list_view(list@);
            assert(done + Seq::<AccessListItemView>::empty() =~= done);
        }
        Ok(list)
    }
}

} // verus!
