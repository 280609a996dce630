//! Derivation of event rows from transaction rows.
//!
//! Every writer operation derives its event from the just-written transaction
//! row, never from the caller's original payload, so the event always
//! reflects the authoritative post-write state.

use vstd::prelude::*;

use crate::models::TokenTransactionEventDb;
use crate::models::TokenTransactionFromDb;
use crate::models::TonEventStatus;
use crate::models::TonTokenTransactionStatus;

verus! {

/// The event status given to a creation event: a fixed mapping, independent
/// of the transaction status the caller chose.
pub open spec fn creation_event_status(status: TonTokenTransactionStatus) -> TonEventStatus {
    TonEventStatus::New
}

/// Executable counterpart of [`creation_event_status`].
pub fn event_status_on_creation(status: TonTokenTransactionStatus) -> (r: TonEventStatus)
    ensures
        r == creation_event_status(status),
{
    TonEventStatus::New
}

/// The event row derived from a freshly inserted transaction row: identity
/// fields are copied from the row, the event status comes from the fixed
/// creation mapping, and the id is assigned by the store.
pub open spec fn creation_event_row(
    t: TokenTransactionFromDb,
    event_id: u64,
    now: i64,
) -> TokenTransactionEventDb {
    TokenTransactionEventDb {
        id: event_id,
        service_id: t.service_id,
        token_transaction_id: t.id,
        message_hash: t.message_hash,
        account_workchain_id: t.account_workchain_id,
        account_hex: t.account_hex,
        value: t.value,
        root_address: t.root_address,
        transaction_direction: t.direction,
        transaction_status: t.status,
        event_status: creation_event_status(t.status),
        created_at: now,
        updated_at: now,
    }
}

/// An event row after a confirmation update: only the transaction-status
/// snapshot and the update timestamp change; the id and every identity field
/// stay as they were, so one transaction keeps one event row with one stable
/// id over its whole lifetime.
pub open spec fn restatused_event_row(
    e: TokenTransactionEventDb,
    status: TonTokenTransactionStatus,
    now: i64,
) -> TokenTransactionEventDb {
    TokenTransactionEventDb { transaction_status: status, updated_at: now, ..e }
}

/// Builds the creation event for a just-written transaction row.
pub fn derive_creation_event(
    t: &TokenTransactionFromDb,
    event_id: u64,
    now: i64,
) -> (e: TokenTransactionEventDb)
    ensures
        e == creation_event_row(*t, event_id, now),
{
    TokenTransactionEventDb {
        id: event_id,
        service_id: t.service_id,
        token_transaction_id: t.id,
        message_hash: t.message_hash.clone(),
        account_workchain_id: t.account_workchain_id,
        account_hex: t.account_hex.clone(),
        value: t.value,
        root_address: t.root_address.clone(),
        transaction_direction: t.direction,
        transaction_status: t.status,
        event_status: event_status_on_creation(t.status),
        created_at: now,
        updated_at: now,
    }
}

} // verus!
