use evm_tx::error::{DecodeError, ErrorKind};
use evm_tx::item::Item;
use evm_tx::tx::AccessListItem;
use evm_tx::uint::{parse_u128, parse_u256, parse_u64, U256};

fn entry_item(address: Vec<u8>, keys: Vec<Vec<u8>>) -> Item {
    Item::List(vec![
        Item::Bytes(address),
        Item::List(keys.into_iter().map(Item::Bytes).collect()),
    ])
}

#[test]
fn empty_bytes_are_zero() {
    assert_eq!(parse_u64(&[]), Ok(0));
    assert_eq!(parse_u128(&[]), Ok(0));
    assert_eq!(parse_u256(&[]), Ok(U256 { hi: 0, lo: 0 }));
}

#[test]
fn big_endian_values() {
    assert_eq!(parse_u64(&[0x01]), Ok(1));
    assert_eq!(parse_u64(&[0x7f]), Ok(127));
    assert_eq!(parse_u64(&[0x80]), Ok(128));
    assert_eq!(parse_u64(&[0x52, 0x08]), Ok(21000));
    assert_eq!(parse_u64(&[0x01, 0x00]), Ok(256));
    assert_eq!(parse_u64(&[0x01, 0x02, 0x03]), Ok(0x010203));
    assert_eq!(parse_u128(&[0x3b, 0x9a, 0xca, 0x00]), Ok(1_000_000_000));
    assert_eq!(parse_u128(&[0x0d, 0xe0, 0xb6, 0xb3, 0xa7, 0x64, 0x00, 0x00]), Ok(1_000_000_000_000_000_000));
}

#[test]
fn widest_values_fit() {
    assert_eq!(parse_u64(&[0xff; 8]), Ok(u64::MAX));
    assert_eq!(parse_u128(&[0xff; 16]), Ok(u128::MAX));
    assert_eq!(parse_u256(&[0xff; 32]), Ok(U256 { hi: u128::MAX, lo: u128::MAX }));
}

#[test]
fn too_long_integers_are_refused() {
    assert_eq!(parse_u64(&[0x01; 9]), Err(DecodeError::IntegerTooLarge { max_len: 8, actual: 9 }));
    assert_eq!(
        parse_u128(&[0x01; 17]),
        Err(DecodeError::IntegerTooLarge { max_len: 16, actual: 17 })
    );
    assert_eq!(
        parse_u256(&[0x01; 33]),
        Err(DecodeError::IntegerTooLarge { max_len: 32, actual: 33 })
    );
    assert_eq!(
        DecodeError::IntegerTooLarge { max_len: 8, actual: 9 }.kind(),
        ErrorKind::FieldShapeMismatch
    );
}

#[test]
fn leading_zero_is_refused() {
    assert_eq!(parse_u64(&[0x00, 0x01]), Err(DecodeError::NonCanonicalInteger));
    assert_eq!(parse_u64(&[0x00]), Err(DecodeError::NonCanonicalInteger));
    assert_eq!(parse_u128(&[0x00, 0xff, 0xff]), Err(DecodeError::NonCanonicalInteger));
    assert_eq!(parse_u256(&[0x00; 32]), Err(DecodeError::NonCanonicalInteger));
    assert_eq!(DecodeError::NonCanonicalInteger.kind(), ErrorKind::MalformedEncoding);
}

#[test]
fn leading_zero_is_reported_before_the_length() {
    assert_eq!(parse_u64(&[0x00; 9]), Err(DecodeError::NonCanonicalInteger));
    assert_eq!(parse_u256(&[0x00; 40]), Err(DecodeError::NonCanonicalInteger));
}

#[test]
fn u256_splits_into_halves() {
    let mut bytes = vec![0x01];
    bytes.extend([0u8; 16]);
    assert_eq!(parse_u256(&bytes), Ok(U256 { hi: 1, lo: 0 }));

    let mut bytes = vec![0x12, 0x34];
    bytes.extend([0u8; 15]);
    bytes.push(0x56);
    assert_eq!(parse_u256(&bytes), Ok(U256 { hi: 0x1234, lo: 0x56 }));

    let bytes: Vec<u8> = (1u8..=32).collect();
    assert_eq!(
        parse_u256(&bytes),
        Ok(U256 {
            hi: 0x0102030405060708090a0b0c0d0e0f10,
            lo: 0x1112131415161718191a1b1c1d1e1f20,
        })
    );

    let bytes: Vec<u8> = (1u8..=16).collect();
    assert_eq!(parse_u256(&bytes), Ok(U256 { hi: 0, lo: 0x0102030405060708090a0b0c0d0e0f10 }));
}

#[test]
fn item_integers() {
    assert_eq!(Item::Bytes(vec![]).as_u64(), Ok(0));
    assert_eq!(Item::Bytes(vec![0x52, 0x08]).as_u64(), Ok(21000));
    assert_eq!(Item::Bytes(vec![0x52, 0x08]).as_u128(), Ok(21000));
    assert_eq!(Item::Bytes(vec![0x52, 0x08]).as_u256(), Ok(U256 { hi: 0, lo: 21000 }));
    assert_eq!(Item::Bytes(vec![0x00, 0x08]).as_u64(), Err(DecodeError::NonCanonicalInteger));
    assert_eq!(Item::Bytes(vec![0x00, 0x08]).as_u128(), Err(DecodeError::NonCanonicalInteger));
    assert_eq!(Item::Bytes(vec![0x00, 0x08]).as_u256(), Err(DecodeError::NonCanonicalInteger));
    assert_eq!(Item::List(vec![]).as_u64(), Err(DecodeError::ExpectedBytes));
    assert_eq!(Item::List(vec![]).as_u128(), Err(DecodeError::ExpectedBytes));
    assert_eq!(Item::List(vec![]).as_u256(), Err(DecodeError::ExpectedBytes));
    assert_eq!(DecodeError::ExpectedBytes.kind(), ErrorKind::StructuralMismatch);
}

#[test]
fn item_bytes_are_returned_as_they_are() {
    assert_eq!(Item::Bytes(vec![0, 0, 1]).as_bytes(), Ok(&vec![0, 0, 1]));
    assert_eq!(Item::Bytes(vec![]).as_bytes(), Ok(&vec![]));
    assert_eq!(Item::List(vec![]).as_bytes(), Err(DecodeError::ExpectedBytes));
}

#[test]
fn field_by_index() {
    let list = Item::List(vec![Item::Bytes(vec![1]), Item::Bytes(vec![2]), Item::List(vec![])]);
    assert_eq!(list.field(0), Ok(&Item::Bytes(vec![1])));
    assert_eq!(list.field(1), Ok(&Item::Bytes(vec![2])));
    assert_eq!(list.field(2), Ok(&Item::List(vec![])));
    assert_eq!(list.field(3), Err(DecodeError::MissingField { index: 3, count: 3 }));
    assert_eq!(
        list.field(usize::MAX),
        Err(DecodeError::MissingField { index: usize::MAX, count: 3 })
    );
    assert_eq!(Item::Bytes(vec![1]).field(0), Err(DecodeError::NotRlpList));
    assert_eq!(
        DecodeError::MissingField { index: 3, count: 3 }.kind(),
        ErrorKind::StructuralMismatch
    );
    assert_eq!(DecodeError::NotRlpList.kind(), ErrorKind::StructuralMismatch);
}

#[test]
fn expect_fields_checks_the_count() {
    let list = Item::List(vec![Item::Bytes(vec![1]), Item::Bytes(vec![2])]);
    assert_eq!(list.expect_fields(2).map(|f| f.len()), Ok(2));
    assert_eq!(
        list.expect_fields(3).map(|f| f.len()),
        Err(DecodeError::InvalidFieldCount { expected: 3, actual: 2 })
    );
    assert_eq!(
        list.expect_fields(1).map(|f| f.len()),
        Err(DecodeError::InvalidFieldCount { expected: 1, actual: 2 })
    );
    assert_eq!(Item::Bytes(vec![]).expect_fields(0).map(|f| f.len()), Err(DecodeError::NotRlpList));
}

#[test]
fn address_must_be_twenty_bytes() {
    let address: Vec<u8> = (0u8..20).collect();
    let mut expected = [0u8; 20];
    expected.copy_from_slice(&address);
    assert_eq!(Item::Bytes(address).as_address(), Ok(expected));
    for len in [0usize, 1, 19, 21, 32] {
        assert_eq!(
            Item::Bytes(vec![0xaa; len]).as_address(),
            Err(DecodeError::InvalidFieldLength { expected: 20, actual: len })
        );
    }
    assert_eq!(Item::List(vec![]).as_address(), Err(DecodeError::ExpectedBytes));
    assert_eq!(
        DecodeError::InvalidFieldLength { expected: 20, actual: 19 }.kind(),
        ErrorKind::FieldShapeMismatch
    );
}

#[test]
fn storage_key_must_be_thirty_two_bytes() {
    let key: Vec<u8> = (100u8..132).collect();
    let mut expected = [0u8; 32];
    expected.copy_from_slice(&key);
    assert_eq!(Item::Bytes(key).as_storage_key(), Ok(expected));
    for len in [0usize, 20, 31, 33] {
        assert_eq!(
            Item::Bytes(vec![0xaa; len]).as_storage_key(),
            Err(DecodeError::InvalidFieldLength { expected: 32, actual: len })
        );
    }
    assert_eq!(Item::List(vec![]).as_storage_key(), Err(DecodeError::ExpectedBytes));
}

#[test]
fn empty_recipient_means_contract_creation() {
    assert_eq!(Item::Bytes(vec![]).as_optional_address(), Ok(None));
    assert_eq!(Item::Bytes(vec![0x11; 20]).as_optional_address(), Ok(Some([0x11; 20])));
    for len in [1usize, 19, 21] {
        assert_eq!(
            Item::Bytes(vec![0x11; len]).as_optional_address(),
            Err(DecodeError::InvalidFieldLength { expected: 20, actual: len })
        );
    }
    assert_eq!(Item::List(vec![]).as_optional_address(), Err(DecodeError::ExpectedBytes));
}

#[test]
fn empty_access_list() {
    assert_eq!(Item::List(vec![]).as_access_list(), Ok(vec![]));
}

#[test]
fn access_list_keeps_order_and_duplicates() {
    let a = entry_item(vec![0xaa; 20], vec![vec![1; 32], vec![2; 32]]);
    let b = entry_item(vec![0xbb; 20], vec![]);
    let c = entry_item(vec![0xaa; 20], vec![vec![1; 32]]);
    assert_eq!(
        Item::List(vec![a, b, c]).as_access_list(),
        Ok(vec![
            AccessListItem { address: [0xaa; 20], storage_keys: vec![[1; 32], [2; 32]] },
            AccessListItem { address: [0xbb; 20], storage_keys: vec![] },
            AccessListItem { address: [0xaa; 20], storage_keys: vec![[1; 32]] },
        ])
    );
}

#[test]
fn access_list_must_be_a_list() {
    assert_eq!(Item::Bytes(vec![]).as_access_list(), Err(DecodeError::NotRlpList));
    assert_eq!(Item::Bytes(vec![0xc0]).as_access_list(), Err(DecodeError::NotRlpList));
}

#[test]
fn access_list_entry_must_be_a_pair() {
    assert_eq!(
        Item::List(vec![Item::Bytes(vec![0xaa; 20])]).as_access_list(),
        Err(DecodeError::NotRlpList)
    );
    assert_eq!(
        Item::List(vec![Item::List(vec![Item::Bytes(vec![0xaa; 20])])]).as_access_list(),
        Err(DecodeError::InvalidFieldCount { expected: 2, actual: 1 })
    );
    assert_eq!(
        Item::List(vec![Item::List(vec![
            Item::Bytes(vec![0xaa; 20]),
            Item::List(vec![]),
            Item::List(vec![]),
        ])])
        .as_access_list(),
        Err(DecodeError::InvalidFieldCount { expected: 2, actual: 3 })
    );
    assert_eq!(
        Item::List(vec![Item::List(vec![])]).as_access_list(),
        Err(DecodeError::InvalidFieldCount { expected: 2, actual: 0 })
    );
}

#[test]
fn access_list_address_is_required() {
    for len in [0usize, 19, 21] {
        assert_eq!(
            Item::List(vec![entry_item(vec![0xaa; len], vec![])]).as_access_list(),
            Err(DecodeError::InvalidFieldLength { expected: 20, actual: len })
        );
    }
    assert_eq!(
        Item::List(vec![Item::List(vec![Item::List(vec![]), Item::List(vec![])])]).as_access_list(),
        Err(DecodeError::ExpectedBytes)
    );
}

#[test]
fn access_list_keys_are_checked() {
    assert_eq!(
        Item::List(vec![entry_item(vec![0xaa; 20], vec![vec![1; 32], vec![2; 31]])])
            .as_access_list(),
        Err(DecodeError::InvalidFieldLength { expected: 32, actual: 31 })
    );
    assert_eq!(
        Item::List(vec![Item::List(vec![Item::Bytes(vec![0xaa; 20]), Item::Bytes(vec![1; 32])])])
            .as_access_list(),
        Err(DecodeError::NotRlpList)
    );
    assert_eq!(
        Item::List(vec![Item::List(vec![
            Item::Bytes(vec![0xaa; 20]),
            Item::List(vec![Item::List(vec![])]),
        ])])
        .as_access_list(),
        Err(DecodeError::ExpectedBytes)
    );
}

#[test]
fn first_bad_entry_gives_the_failure() {
    let good = entry_item(vec![0xaa; 20], vec![vec![1; 32]]);
    let short_key = entry_item(vec![0xbb; 20], vec![vec![1; 5]]);
    let short_address = entry_item(vec![0xcc; 3], vec![]);
    assert_eq!(
        Item::List(vec![good, short_key, short_address]).as_access_list(),
        Err(DecodeError::InvalidFieldLength { expected: 32, actual: 5 })
    );
}
