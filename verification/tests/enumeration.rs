//! Tests for the paged enumeration protocol, the enumerated items, the
//! owned buffers, and the wide-string utilities.

use wfp::{
    string_to_null_terminated_utf16, wcslen, wide_to_string, ActionType, BlobOrigin, FilterBuilder,
    FilterEngine, FilterEngineBuilder, FilterEnumItem, FilterEnumerator, Guid, OwnedByteBlob,
    Transaction, WfpError,
};

fn engine_with_filters(count: usize) -> FilterEngine {
    let mut engine = FilterEngineBuilder::default().dynamic().open().unwrap();
    let mut txn = Transaction::new(&mut engine).unwrap();
    for i in 0..count {
        FilterBuilder::default()
            .name(&format!("filter {i}"))
            .description("one of many")
            .action(ActionType::Permit)
            .add(&mut txn)
            .unwrap();
    }
    txn.commit(&mut engine).unwrap();
    engine
}

#[test]
fn empty_set_yields_zero_items_and_terminates() {
    let mut engine = FilterEngineBuilder::default().open().unwrap();
    let txn = Transaction::new(&mut engine).unwrap();
    let mut enumerator = FilterEnumerator::new(&txn).unwrap();
    assert!(enumerator.next(&engine).is_none());
    assert_eq!(enumerator.pages_fetched, 1);
    // Exhaustion is permanent: no further native calls, no items.
    assert!(enumerator.next(&engine).is_none());
    assert!(enumerator.next(&engine).is_none());
    assert_eq!(enumerator.pages_fetched, 1);
}

#[test]
fn one_hundred_twenty_filters_come_out_in_order_across_three_fetches() {
    let mut engine = engine_with_filters(120);
    let txn = Transaction::new(&mut engine).unwrap();
    let mut enumerator = FilterEnumerator::new(&txn).unwrap();

    let mut ids = Vec::new();
    while let Some(item) = enumerator.next(&engine) {
        ids.push(item.unwrap().id());
    }
    assert_eq!(ids.len(), 120);
    let expected: Vec<u64> = (1..=120).collect();
    assert_eq!(ids, expected);
    // 120 filters at 50 a page: two full pages and one short one.
    assert_eq!(enumerator.pages_fetched, 3);
    assert!(enumerator.exhausted);
    assert!(enumerator.next(&engine).is_none());
}

#[test]
fn seventy_five_filters_need_two_fetches() {
    let mut engine = engine_with_filters(75);
    let txn = Transaction::new(&mut engine).unwrap();
    let mut enumerator = FilterEnumerator::new(&txn).unwrap();
    let items = enumerator.collect_all(&engine);
    assert_eq!(items.len(), 75);
    assert_eq!(enumerator.pages_fetched, 2);
}

#[test]
fn a_multiple_of_the_page_size_costs_one_extra_empty_fetch() {
    let mut engine = engine_with_filters(50);
    let txn = Transaction::new(&mut engine).unwrap();
    let mut enumerator = FilterEnumerator::new(&txn).unwrap();
    let items = enumerator.collect_all(&engine);
    assert_eq!(items.len(), 50);
    // One full page, then the empty fetch that signals exhaustion.
    assert_eq!(enumerator.pages_fetched, 2);
}

#[test]
fn enumerated_items_expose_the_record_fields() {
    let mut engine = FilterEngineBuilder::default().open().unwrap();
    let mut txn = Transaction::new(&mut engine).unwrap();
    FilterBuilder::default()
        .name("observed")
        .description("looked at closely")
        .action(ActionType::Block)
        .add(&mut txn)
        .unwrap();
    txn.commit(&mut engine).unwrap();

    let txn = Transaction::new(&mut engine).unwrap();
    let mut enumerator = FilterEnumerator::new(&txn).unwrap();
    let item = enumerator.next(&engine).unwrap().unwrap();
    assert_eq!(item.id(), 1);
    assert_eq!(item.guid(), Guid::from_u128(1));
    assert_eq!(item.provider(), None);
    assert_eq!(item.name().unwrap(), Some("observed".to_string()));
    assert_eq!(
        item.description().unwrap(),
        Some("looked at closely".to_string())
    );
}

#[test]
fn a_malformed_wide_name_surfaces_a_decode_error() {
    // A lone high surrogate is not valid UTF-16.
    let item = FilterEnumItem::new(
        9,
        Guid::from_u128(9),
        None,
        Some(vec![0xd800u16, 0u16]),
        None,
    );
    assert!(matches!(item.name(), Err(WfpError::Decode)));
    assert!(matches!(item.description(), Ok(None)));
}

#[test]
fn wcslen_stops_at_the_first_zero() {
    assert_eq!(wcslen(&[]), 0);
    assert_eq!(wcslen(&[0]), 0);
    assert_eq!(wcslen(&[0x61, 0x62, 0, 0x63]), 2);
    assert_eq!(wcslen(&[0x61, 0x62, 0x63]), 3);
}

#[test]
fn wide_to_string_decodes_or_refuses() {
    assert_eq!(wide_to_string(&[0x68, 0x69]).unwrap(), "hi");
    assert!(matches!(wide_to_string(&[0xd800]), Err(WfpError::Decode)));
}

#[test]
fn encoding_appends_exactly_one_terminator() {
    assert_eq!(string_to_null_terminated_utf16(""), vec![0u16]);
    assert_eq!(
        string_to_null_terminated_utf16("ab"),
        vec![0x61u16, 0x62u16, 0u16]
    );
}

#[test]
fn owned_blob_round_trips_its_bytes() {
    let data = vec![0u8, 1, 2, 250, 255];
    let blob = OwnedByteBlob::from(data.clone());
    assert_eq!(blob.as_bytes(), &data);
    assert_eq!(blob.origin(), BlobOrigin::Local);

    let empty = OwnedByteBlob::from(Vec::new());
    assert_eq!(empty.as_bytes(), &Vec::<u8>::new());

    let native = OwnedByteBlob::from_native(data.clone());
    assert_eq!(native.as_bytes(), &data);
    assert_eq!(native.origin(), BlobOrigin::Native);

    let copied = blob.clone();
    assert_eq!(copied.as_bytes(), &data);
}

#[test]
fn guid_from_u128_splits_big_endian() {
    let g = Guid::from_u128(0x0102030405060708090a0b0c0d0e0f10);
    assert_eq!(g.data1, 0x01020304);
    assert_eq!(g.data2, 0x0506);
    assert_eq!(g.data3, 0x0708);
    assert_eq!(g.data4, 0x090a0b0c0d0e0f10);
}
