//! Tests for the session, the transaction state machine, and filter
//! submission and deletion.

use wfp::{
    delete_filter, delete_filter_by_guid, ActionType, FilterBuilder, FilterEngineBuilder,
    FilterEnumerator, Guid, Layer, MissingField, PortConditionBuilder, ProtocolConditionBuilder,
    SubLayerBuilder, Transaction, WfpError, STATUS_FILTER_NOT_FOUND, STATUS_NO_TXN_IN_PROGRESS,
    STATUS_TXN_IN_PROGRESS,
};

#[test]
fn test_add_filters_and_sublayer() {
    let mut engine = FilterEngineBuilder::default()
        .dynamic()
        .open()
        .expect("Should be able to open filter engine");

    let mut transaction =
        Transaction::new(&mut engine).expect("Should be able to create transaction");

    // Create a test sublayer
    let test_guid = Guid::from_u128(0x12345678_1234_5678_9abc_def012345678);

    SubLayerBuilder::default()
        .name("Test Sublayer")
        .description("Test sublayer for integration tests")
        .weight(100)
        .guid(test_guid)
        .add(&mut transaction)
        .expect("Should be able to add sublayer");

    // Create multiple filters in the same transaction
    let http_condition = PortConditionBuilder::remote().equal(80).build();
    let https_condition = PortConditionBuilder::remote().equal(443).build();
    let tcp_condition = ProtocolConditionBuilder::tcp().build();

    // HTTP block filter
    FilterBuilder::default()
        .name("HTTP Block Filter")
        .description("Blocks HTTP traffic")
        .action(ActionType::Block)
        .layer(Layer::ConnectV4)
        .condition(http_condition)
        .condition(tcp_condition.clone())
        .sublayer(test_guid)
        .add(&mut transaction)
        .expect("Should be able to add HTTP filter");

    // HTTPS permit filter
    FilterBuilder::default()
        .name("HTTPS Permit Filter")
        .description("Permits HTTPS traffic")
        .action(ActionType::Permit)
        .layer(Layer::ConnectV4)
        .condition(https_condition)
        .condition(tcp_condition)
        .sublayer(test_guid)
        .add(&mut transaction)
        .expect("Should be able to add HTTPS filter");

    transaction
        .commit(&mut engine)
        .expect("Should be able to commit multiple filters");
}

fn enumerate_names(engine: &wfp::FilterEngine, transaction: &Transaction) -> Vec<String> {
    let mut enumerator =
        FilterEnumerator::new(transaction).expect("enumeration handle must open");
    let mut names = Vec::new();
    while let Some(item) = enumerator.next(engine) {
        let item = item.expect("the model never surfaces an enumeration error");
        if let Some(name) = item.name().expect("names written by builders decode") {
            names.push(name);
        }
    }
    names
}

#[test]
fn abort_rolls_back_both_filters() {
    let mut engine = FilterEngineBuilder::default().dynamic().open().unwrap();
    let mut txn = Transaction::new(&mut engine).unwrap();

    let builder = FilterBuilder::default()
        .name("first")
        .description("one of two")
        .action(ActionType::Block);
    builder.add(&mut txn).unwrap();
    FilterBuilder::default()
        .name("second")
        .description("two of two")
        .action(ActionType::Permit)
        .add(&mut txn)
        .unwrap();

    txn.abort(&mut engine).expect("abort must succeed");

    let fresh = Transaction::new(&mut engine).unwrap();
    let names = enumerate_names(&engine, &fresh);
    assert!(names.is_empty());
}

#[test]
fn commit_makes_both_filters_visible_in_order() {
    let mut engine = FilterEngineBuilder::default().dynamic().open().unwrap();
    let mut txn = Transaction::new(&mut engine).unwrap();

    FilterBuilder::default()
        .name("first")
        .description("one of two")
        .action(ActionType::Block)
        .add(&mut txn)
        .unwrap();
    FilterBuilder::default()
        .name("second")
        .description("two of two")
        .action(ActionType::Permit)
        .add(&mut txn)
        .unwrap();

    txn.commit(&mut engine).expect("commit must succeed");

    let fresh = Transaction::new(&mut engine).unwrap();
    let names = enumerate_names(&engine, &fresh);
    assert_eq!(names, vec!["first".to_string(), "second".to_string()]);
}

#[test]
fn dropping_a_transaction_acts_like_abort() {
    let mut engine = FilterEngineBuilder::default().dynamic().open().unwrap();

    // Explicit abort first, as the baseline.
    let mut txn = Transaction::new(&mut engine).unwrap();
    FilterBuilder::default()
        .name("doomed")
        .description("never committed")
        .action(ActionType::Block)
        .add(&mut txn)
        .unwrap();
    txn.abort(&mut engine).unwrap();
    let fresh = Transaction::new(&mut engine).unwrap();
    let after_abort = enumerate_names(&engine, &fresh);
    fresh.abort(&mut engine).unwrap();

    // Now the same changes, but the transaction is dropped instead.
    let mut txn = Transaction::new(&mut engine).unwrap();
    FilterBuilder::default()
        .name("doomed")
        .description("never committed")
        .action(ActionType::Block)
        .add(&mut txn)
        .unwrap();
    drop(txn);
    engine.abort_abandoned();
    let fresh = Transaction::new(&mut engine).unwrap();
    let after_drop = enumerate_names(&engine, &fresh);

    assert_eq!(after_abort, after_drop);
    assert!(after_drop.is_empty());
}

#[test]
fn a_second_transaction_cannot_begin_while_one_is_active() {
    let mut engine = FilterEngineBuilder::default().open().unwrap();
    let _txn = Transaction::new(&mut engine).unwrap();
    match Transaction::new(&mut engine) {
        Err(WfpError::Os(status)) => assert_eq!(status, STATUS_TXN_IN_PROGRESS),
        _ => panic!("a second transaction must be refused"),
    }
}

#[test]
fn commit_consumes_the_transaction_and_frees_the_session() {
    let mut engine = FilterEngineBuilder::default().open().unwrap();
    let txn = Transaction::new(&mut engine).unwrap();
    txn.commit(&mut engine).unwrap();
    // The committed transaction is gone; the session takes a new one.
    let txn2 = Transaction::new(&mut engine).expect("the session must be free again");
    txn2.abort(&mut engine).unwrap();
}

#[test]
fn commit_without_a_transaction_in_progress_fails() {
    let mut engine = FilterEngineBuilder::default().open().unwrap();
    let txn = Transaction::new(&mut engine).unwrap();
    engine.abort_abandoned();
    match txn.commit(&mut engine) {
        Err(WfpError::Os(status)) => assert_eq!(status, STATUS_NO_TXN_IN_PROGRESS),
        _ => panic!("commit must be refused without a transaction in progress"),
    }
}

#[test]
fn filter_without_description_is_incomplete() {
    let mut engine = FilterEngineBuilder::default().open().unwrap();
    let mut txn = Transaction::new(&mut engine).unwrap();
    let result = FilterBuilder::default()
        .name("unnamed intent")
        .action(ActionType::Block)
        .add(&mut txn);
    match result {
        Err(WfpError::Incomplete(missing)) => {
            assert_eq!(missing, vec![MissingField::Description]);
        }
        _ => panic!("a filter without a description must be refused"),
    }
    // Nothing was submitted.
    txn.commit(&mut engine).unwrap();
    let fresh = Transaction::new(&mut engine).unwrap();
    assert!(enumerate_names(&engine, &fresh).is_empty());
}

#[test]
fn sublayer_without_description_is_incomplete() {
    let mut engine = FilterEngineBuilder::default().open().unwrap();
    let mut txn = Transaction::new(&mut engine).unwrap();
    let result = SubLayerBuilder::default().name("bare").add(&mut txn);
    match result {
        Err(WfpError::Incomplete(missing)) => {
            assert_eq!(missing, vec![MissingField::Description]);
        }
        _ => panic!("a sublayer without a description must be refused"),
    }
}

#[test]
fn delete_filter_removes_exactly_the_named_one() {
    let mut engine = FilterEngineBuilder::default().open().unwrap();
    let mut txn = Transaction::new(&mut engine).unwrap();
    FilterBuilder::default()
        .name("keep")
        .description("stays")
        .action(ActionType::Permit)
        .add(&mut txn)
        .unwrap();
    FilterBuilder::default()
        .name("drop")
        .description("goes")
        .action(ActionType::Block)
        .add(&mut txn)
        .unwrap();

    // Ids are assigned in order, starting at 1.
    delete_filter(&mut txn, 2).expect("the second filter exists");
    txn.commit(&mut engine).unwrap();

    let fresh = Transaction::new(&mut engine).unwrap();
    assert_eq!(enumerate_names(&engine, &fresh), vec!["keep".to_string()]);
}

#[test]
fn delete_filter_of_unknown_id_surfaces_not_found() {
    let mut engine = FilterEngineBuilder::default().open().unwrap();
    let mut txn = Transaction::new(&mut engine).unwrap();
    match delete_filter(&mut txn, 99) {
        Err(WfpError::Os(status)) => assert_eq!(status, STATUS_FILTER_NOT_FOUND),
        _ => panic!("deleting a missing filter must fail"),
    }
}

#[test]
fn delete_filter_by_guid_uses_the_derived_key() {
    let mut engine = FilterEngineBuilder::default().open().unwrap();
    let mut txn = Transaction::new(&mut engine).unwrap();
    FilterBuilder::default()
        .name("only")
        .description("keyed by its id")
        .action(ActionType::Block)
        .add(&mut txn)
        .unwrap();

    // The engine derives the key of an unkeyed filter from its id.
    let missing = Guid::from_u128(7);
    match delete_filter_by_guid(&mut txn, &missing) {
        Err(WfpError::Os(status)) => assert_eq!(status, STATUS_FILTER_NOT_FOUND),
        _ => panic!("an unknown key must fail"),
    }
    let key = Guid::from_u128(1);
    delete_filter_by_guid(&mut txn, &key).expect("the first filter's key");
    txn.commit(&mut engine).unwrap();

    let fresh = Transaction::new(&mut engine).unwrap();
    assert!(enumerate_names(&engine, &fresh).is_empty());
}

#[test]
fn sublayer_weight_defaults_to_zero() {
    let builder = SubLayerBuilder::default().name("weightless");
    assert_eq!(builder.weight, 0);
}

#[test]
fn dynamic_flag_is_recorded() {
    let engine = FilterEngineBuilder::default().dynamic().open().unwrap();
    assert!(engine.is_dynamic());
    let engine = FilterEngineBuilder::default().open().unwrap();
    assert!(!engine.is_dynamic());
}

#[test]
fn abort_without_a_transaction_in_progress_fails() {
    let mut engine = FilterEngineBuilder::default().open().unwrap();
    let txn = Transaction::new(&mut engine).unwrap();
    engine.abort_abandoned();
    match txn.abort(&mut engine) {
        Err(WfpError::Os(status)) => assert_eq!(status, STATUS_NO_TXN_IN_PROGRESS),
        _ => panic!("abort must be refused without a transaction in progress"),
    }
}
