use token_ledger::ledger::TokenLedger;
use token_ledger::models::CreateReceiveTokenTransaction;
use token_ledger::models::CreateSendTokenTransaction;
use token_ledger::models::ServiceError;
use token_ledger::models::ServiceId;
use token_ledger::models::TokenTransactionFromDb;
use token_ledger::models::TonEventStatus;
use token_ledger::models::TonTokenTransactionStatus;
use token_ledger::models::TonTransactionDirection;
use token_ledger::models::UpdateSendTokenTransaction;

fn send_payload(id: u64, service: u64, message_hash: &str) -> CreateSendTokenTransaction {
    CreateSendTokenTransaction {
        id,
        service_id: ServiceId { raw: service },
        message_hash: message_hash.to_owned(),
        account_workchain_id: 0,
        account_hex: "abcdef".to_owned(),
        value: 1000,
        root_address: "root".to_owned(),
        direction: TonTransactionDirection::Send,
        status: TonTokenTransactionStatus::New,
    }
}

fn receive_payload(id: u64, transaction_hash: &str, message_hash: &str) -> CreateReceiveTokenTransaction {
    CreateReceiveTokenTransaction {
        id,
        transaction_hash: transaction_hash.to_owned(),
        message_hash: message_hash.to_owned(),
        account_workchain_id: 0,
        account_hex: "abcdef".to_owned(),
        value: 500,
        root_address: "root".to_owned(),
        payload: Some("payload".to_owned()),
        error: None,
        block_hash: "block".to_owned(),
        block_time: 42,
        direction: TonTransactionDirection::Receive,
        status: TonTokenTransactionStatus::Done,
    }
}

fn confirmation(transaction_hash: &str) -> UpdateSendTokenTransaction {
    UpdateSendTokenTransaction {
        transaction_hash: transaction_hash.to_owned(),
        payload: Some("confirmed payload".to_owned()),
        block_hash: "block".to_owned(),
        block_time: 77,
        status: TonTokenTransactionStatus::Done,
        error: None,
    }
}

#[test]
fn round_trip_scenario_a() {
    let mut l = TokenLedger::new();
    let (t, e) = l
        .create_send_token_transaction(send_payload(1, 7, "M1"), 100)
        .unwrap();
    assert_eq!(t.transaction_hash, None);
    assert_eq!(t.status, TonTokenTransactionStatus::New);
    assert_eq!(e.event_status, TonEventStatus::New);
    assert_eq!(e.token_transaction_id, 1);
    let first_event_id = e.id;

    let (t2, e2) = l
        .update_send_token_transaction(
            "M1".to_owned(),
            0,
            "abcdef".to_owned(),
            "root".to_owned(),
            confirmation("H1"),
            200,
        )
        .unwrap();
    assert_eq!(t2.transaction_hash, Some("H1".to_owned()));
    assert_eq!(t2.status, TonTokenTransactionStatus::Done);
    assert_eq!(e2.transaction_status, TonTokenTransactionStatus::Done);
    assert_eq!(e2.id, first_event_id);
    assert_eq!(l.transaction_count(), 1);
    assert_eq!(l.event_count(), 1);
}

#[test]
fn scenario_b_second_confirmation_not_found() {
    let mut l = TokenLedger::new();
    l.create_send_token_transaction(send_payload(1, 7, "M1"), 100)
        .unwrap();
    l.update_send_token_transaction(
        "M1".to_owned(),
        0,
        "abcdef".to_owned(),
        "root".to_owned(),
        confirmation("H1"),
        200,
    )
    .unwrap();
    let second = l.update_send_token_transaction(
        "M1".to_owned(),
        0,
        "abcdef".to_owned(),
        "root".to_owned(),
        confirmation("H1"),
        300,
    );
    assert_eq!(second, Err(ServiceError::NotFound));
}

#[test]
fn scenario_c_receive_then_lookup_by_hash() {
    let mut l = TokenLedger::new();
    let (t, e) = l
        .create_receive_token_transaction(receive_payload(9, "H9", "M9"), ServiceId { raw: 3 }, 50)
        .unwrap();
    assert_eq!(t.transaction_hash, Some("H9".to_owned()));
    assert_eq!(t.direction, TonTransactionDirection::Receive);
    assert_eq!(e.event_status, TonEventStatus::New);
    assert_eq!(l.transaction_count(), 1);
    assert_eq!(l.event_count(), 1);
    let found = l
        .get_token_transaction_by_h(ServiceId { raw: 3 }, "H9")
        .unwrap();
    assert_eq!(found, t);
}

fn pending_send_row(id: u64, service: u64, message_hash: &str) -> TokenTransactionFromDb {
    TokenTransactionFromDb {
        id,
        service_id: ServiceId { raw: service },
        transaction_hash: None,
        message_hash: message_hash.to_owned(),
        account_workchain_id: 0,
        account_hex: "abcdef".to_owned(),
        value: 1000,
        root_address: "root".to_owned(),
        payload: None,
        error: None,
        block_hash: None,
        block_time: None,
        direction: TonTransactionDirection::Send,
        status: TonTokenTransactionStatus::New,
        created_at: 100,
        updated_at: 100,
    }
}

#[test]
fn atomicity_create_dropped_unit_of_work_leaves_no_rows() {
    let l = TokenLedger::new();
    let mut uow = l.begin();
    uow.insert_transaction(pending_send_row(1, 7, "M1")).unwrap();
    // a failure strikes between the transaction write and the event write:
    // the unit of work is dropped without commit
    drop(uow);
    assert_eq!(l.transaction_count(), 0);
    assert_eq!(l.event_count(), 0);
}

#[test]
fn atomicity_update_missing_event_row_changes_nothing() {
    let mut l = TokenLedger::new();
    // a pending outbound row without its event row: the first write of the
    // update succeeds, the second finds nothing, so nothing may be kept
    let mut uow = l.begin();
    uow.insert_transaction(pending_send_row(1, 7, "M1")).unwrap();
    l.commit(uow);
    assert_eq!(l.transaction_count(), 1);
    assert_eq!(l.event_count(), 0);

    let r = l.update_send_token_transaction(
        "M1".to_owned(),
        0,
        "abcdef".to_owned(),
        "root".to_owned(),
        confirmation("H1"),
        200,
    );
    assert_eq!(r, Err(ServiceError::NotFound));
    let still_pending = l
        .get_token_transaction_by_mh(ServiceId { raw: 7 }, "M1")
        .unwrap();
    assert_eq!(still_pending.transaction_hash, None);
    assert_eq!(still_pending.status, TonTokenTransactionStatus::New);
}

#[test]
fn conflict_on_duplicate_id_leaves_tables_untouched() {
    let mut l = TokenLedger::new();
    l.create_send_token_transaction(send_payload(1, 7, "M1"), 100)
        .unwrap();
    let r = l.create_send_token_transaction(send_payload(1, 7, "M2"), 200);
    assert_eq!(r, Err(ServiceError::Conflict));
    assert_eq!(l.transaction_count(), 1);
    assert_eq!(l.event_count(), 1);

    let r2 = l.create_receive_token_transaction(
        receive_payload(1, "H1", "M3"),
        ServiceId { raw: 7 },
        300,
    );
    assert_eq!(r2, Err(ServiceError::Conflict));
    assert_eq!(l.transaction_count(), 1);
}

#[test]
fn derivation_copies_identity_and_fixes_event_status() {
    let mut l = TokenLedger::new();
    // the caller picks a non-default status; the event status must come from
    // the fixed creation mapping, not from the caller's status
    let mut p = send_payload(4, 11, "M4");
    p.status = TonTokenTransactionStatus::Done;
    let (t, e) = l.create_send_token_transaction(p, 100).unwrap();
    assert_eq!(e.service_id, t.service_id);
    assert_eq!(e.token_transaction_id, t.id);
    assert_eq!(e.message_hash, t.message_hash);
    assert_eq!(e.account_workchain_id, t.account_workchain_id);
    assert_eq!(e.account_hex, t.account_hex);
    assert_eq!(e.value, t.value);
    assert_eq!(e.root_address, t.root_address);
    assert_eq!(e.transaction_direction, t.direction);
    assert_eq!(e.transaction_status, TonTokenTransactionStatus::Done);
    assert_eq!(e.event_status, TonEventStatus::New);
}

#[test]
fn update_event_keeps_event_status_and_id() {
    let mut l = TokenLedger::new();
    let (_, e) = l
        .create_send_token_transaction(send_payload(1, 7, "M1"), 100)
        .unwrap();
    let (_, e2) = l
        .update_send_token_transaction(
            "M1".to_owned(),
            0,
            "abcdef".to_owned(),
            "root".to_owned(),
            confirmation("H1"),
            200,
        )
        .unwrap();
    assert_eq!(e2.id, e.id);
    assert_eq!(e2.event_status, e.event_status);
    assert_eq!(e2.message_hash, e.message_hash);
    assert_eq!(e2.value, e.value);
}

#[test]
fn scoping_by_message_hash_across_identities() {
    let mut l = TokenLedger::new();
    l.create_send_token_transaction(send_payload(1, 7, "M1"), 100)
        .unwrap();
    l.create_send_token_transaction(send_payload(2, 8, "M1"), 110)
        .unwrap();
    let a = l
        .get_token_transaction_by_mh(ServiceId { raw: 7 }, "M1")
        .unwrap();
    assert_eq!(a.service_id, ServiceId { raw: 7 });
    assert_eq!(a.id, 1);
    let b = l
        .get_token_transaction_by_mh(ServiceId { raw: 8 }, "M1")
        .unwrap();
    assert_eq!(b.service_id, ServiceId { raw: 8 });
    assert_eq!(b.id, 2);
    let none = l.get_token_transaction_by_mh(ServiceId { raw: 9 }, "M1");
    assert_eq!(none, Err(ServiceError::NotFound));
}

#[test]
fn scoping_by_transaction_hash_across_identities() {
    let mut l = TokenLedger::new();
    l.create_receive_token_transaction(receive_payload(1, "H", "Ma"), ServiceId { raw: 7 }, 100)
        .unwrap();
    l.create_receive_token_transaction(receive_payload(2, "H", "Mb"), ServiceId { raw: 8 }, 110)
        .unwrap();
    let a = l
        .get_token_transaction_by_h(ServiceId { raw: 7 }, "H")
        .unwrap();
    assert_eq!(a.service_id, ServiceId { raw: 7 });
    assert_eq!(a.id, 1);
    let b = l
        .get_token_transaction_by_h(ServiceId { raw: 8 }, "H")
        .unwrap();
    assert_eq!(b.service_id, ServiceId { raw: 8 });
    assert_eq!(b.id, 2);
    let none = l.get_token_transaction_by_h(ServiceId { raw: 9 }, "H");
    assert_eq!(none, Err(ServiceError::NotFound));
}

#[test]
fn lookups_on_empty_ledger_fail_not_found() {
    let l = TokenLedger::new();
    assert_eq!(
        l.get_token_transaction_by_mh(ServiceId { raw: 1 }, "M"),
        Err(ServiceError::NotFound)
    );
    assert_eq!(
        l.get_token_transaction_by_h(ServiceId { raw: 1 }, "H"),
        Err(ServiceError::NotFound)
    );
}

#[test]
fn pending_row_not_found_by_transaction_hash() {
    let mut l = TokenLedger::new();
    l.create_send_token_transaction(send_payload(1, 7, "M1"), 100)
        .unwrap();
    // the row exists but its hash is unset: a hash lookup must not match it
    assert_eq!(
        l.get_token_transaction_by_h(ServiceId { raw: 7 }, "H1"),
        Err(ServiceError::NotFound)
    );
}

#[test]
fn update_requires_whole_correlation_key() {
    let mut l = TokenLedger::new();
    l.create_send_token_transaction(send_payload(1, 7, "M1"), 100)
        .unwrap();
    // wrong message hash
    let r = l.update_send_token_transaction(
        "M2".to_owned(),
        0,
        "abcdef".to_owned(),
        "root".to_owned(),
        confirmation("H1"),
        200,
    );
    assert_eq!(r, Err(ServiceError::NotFound));
    // wrong account
    let r = l.update_send_token_transaction(
        "M1".to_owned(),
        0,
        "other".to_owned(),
        "root".to_owned(),
        confirmation("H1"),
        200,
    );
    assert_eq!(r, Err(ServiceError::NotFound));
    // wrong workchain
    let r = l.update_send_token_transaction(
        "M1".to_owned(),
        1,
        "abcdef".to_owned(),
        "root".to_owned(),
        confirmation("H1"),
        200,
    );
    assert_eq!(r, Err(ServiceError::NotFound));
    // wrong root
    let r = l.update_send_token_transaction(
        "M1".to_owned(),
        0,
        "abcdef".to_owned(),
        "other".to_owned(),
        confirmation("H1"),
        200,
    );
    assert_eq!(r, Err(ServiceError::NotFound));
}

#[test]
fn update_never_touches_receive_rows() {
    let mut l = TokenLedger::new();
    let mut p = receive_payload(1, "H1", "M1");
    p.account_hex = "abcdef".to_owned();
    p.root_address = "root".to_owned();
    l.create_receive_token_transaction(p, ServiceId { raw: 7 }, 100)
        .unwrap();
    let r = l.update_send_token_transaction(
        "M1".to_owned(),
        0,
        "abcdef".to_owned(),
        "root".to_owned(),
        confirmation("H2"),
        200,
    );
    assert_eq!(r, Err(ServiceError::NotFound));
}

#[test]
fn duplicate_pending_rows_are_confirmed_in_insertion_order() {
    // the correlation key is meant to identify exactly one pending transfer;
    // when callers nevertheless created two, each confirmation lands on the
    // earliest still-pending row, and the guard trips once both are confirmed
    let mut l = TokenLedger::new();
    l.create_send_token_transaction(send_payload(1, 7, "M1"), 100)
        .unwrap();
    l.create_send_token_transaction(send_payload(2, 7, "M1"), 110)
        .unwrap();
    let (t, _) = l
        .update_send_token_transaction(
            "M1".to_owned(),
            0,
            "abcdef".to_owned(),
            "root".to_owned(),
            confirmation("H1"),
            200,
        )
        .unwrap();
    assert_eq!(t.id, 1);
    let (t2, _) = l
        .update_send_token_transaction(
            "M1".to_owned(),
            0,
            "abcdef".to_owned(),
            "root".to_owned(),
            confirmation("H2"),
            210,
        )
        .unwrap();
    assert_eq!(t2.id, 2);
    let third = l.update_send_token_transaction(
        "M1".to_owned(),
        0,
        "abcdef".to_owned(),
        "root".to_owned(),
        confirmation("H3"),
        220,
    );
    assert_eq!(third, Err(ServiceError::NotFound));
}

#[test]
fn event_ids_are_distinct_per_transaction() {
    let mut l = TokenLedger::new();
    let (_, e1) = l
        .create_send_token_transaction(send_payload(1, 7, "M1"), 100)
        .unwrap();
    let (_, e2) = l
        .create_send_token_transaction(send_payload(2, 7, "M2"), 110)
        .unwrap();
    assert_ne!(e1.id, e2.id);
}
