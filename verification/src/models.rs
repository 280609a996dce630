//! Row shapes, command payloads, and the enumerations they share.

use vstd::prelude::*;

verus! {

/// Direction of a transfer: outbound (`Send`) or inbound (`Receive`).
#[derive(Clone, Copy, PartialEq, Eq, Structural, Debug)]
pub enum TonTransactionDirection {
    Send,
    Receive,
}

/// Lifecycle status of a transaction record.
#[derive(Clone, Copy, PartialEq, Eq, Structural, Debug)]
pub enum TonTokenTransactionStatus {
    New,
    Done,
    Error,
}

/// Status attached to an event row, independent of the transaction's own
/// status; it drives downstream notification and consumption.
#[derive(Clone, Copy, PartialEq, Eq, Structural, Debug)]
pub enum TonEventStatus {
    New,
    Notified,
    Error,
}

/// Owner scope of a record: the service identity a row belongs to.
#[derive(Clone, Copy, PartialEq, Eq, Structural, Debug)]
pub struct ServiceId {
    pub raw: u64,
}

/// Failure taxonomy of the ledger.
///
/// `Conflict`: a creation collided with an existing id. `NotFound`: a lookup
/// or an update matched no row (for updates this includes the "already
/// confirmed" case). `StoreUnavailable`: a transport-level failure of an
/// underlying store, propagated by unverified callers; the in-memory ledger
/// itself never produces it.
#[derive(Clone, Copy, PartialEq, Eq, Structural, Debug)]
pub enum ServiceError {
    Conflict,
    NotFound,
    StoreUnavailable,
}

/// One row of the transaction table: the current state of one transfer.
#[derive(Debug, PartialEq, Eq)]
pub struct TokenTransactionFromDb {
    pub id: u64,
    pub service_id: ServiceId,
    pub transaction_hash: Option<String>,
    pub message_hash: String,
    pub account_workchain_id: i32,
    pub account_hex: String,
    pub value: u128,
    pub root_address: String,
    pub payload: Option<String>,
    pub error: Option<String>,
    pub block_hash: Option<String>,
    pub block_time: Option<i32>,
    pub direction: TonTransactionDirection,
    pub status: TonTokenTransactionStatus,
    pub created_at: i64,
    pub updated_at: i64,
}

/// One row of the event table: a fact derived from a transaction row.
#[derive(Debug, PartialEq, Eq)]
pub struct TokenTransactionEventDb {
    pub id: u64,
    pub service_id: ServiceId,
    pub token_transaction_id: u64,
    pub message_hash: String,
    pub account_workchain_id: i32,
    pub account_hex: String,
    pub value: u128,
    pub root_address: String,
    pub transaction_direction: TonTransactionDirection,
    pub transaction_status: TonTokenTransactionStatus,
    pub event_status: TonEventStatus,
    pub created_at: i64,
    pub updated_at: i64,
}

/// Command payload for creating an outbound transfer. The transaction hash
/// and the confirmation metadata are not yet known.
pub struct CreateSendTokenTransaction {
    pub id: u64,
    pub service_id: ServiceId,
    pub message_hash: String,
    pub account_workchain_id: i32,
    pub account_hex: String,
    pub value: u128,
    pub root_address: String,
    pub direction: TonTransactionDirection,
    pub status: TonTokenTransactionStatus,
}

/// Confirmation data applied to a pending outbound transfer.
pub struct UpdateSendTokenTransaction {
    pub transaction_hash: String,
    pub payload: Option<String>,
    pub block_hash: String,
    pub block_time: i32,
    pub status: TonTokenTransactionStatus,
    pub error: Option<String>,
}

/// Command payload for recording an inbound transfer, observed post hoc from
/// the chain: every field is known up front.
pub struct CreateReceiveTokenTransaction {
    pub id: u64,
    pub transaction_hash: String,
    pub message_hash: String,
    pub account_workchain_id: i32,
    pub account_hex: String,
    pub value: u128,
    pub root_address: String,
    pub payload: Option<String>,
    pub error: Option<String>,
    pub block_hash: String,
    pub block_time: i32,
    pub direction: TonTransactionDirection,
    pub status: TonTokenTransactionStatus,
}

fn clone_opt_string(v: &Option<String>) -> (r: Option<String>)
    ensures
        r == *v,
{
    match v {
        Some(s) => Some(s.clone()),
        None => None,
    }
}

impl Clone for TokenTransactionFromDb {
    /// A clone is the same record value.
    fn clone(&self) -> (r: Self)
        ensures
            r == *self,
    {
        TokenTransactionFromDb {
            id: self.id,
            service_id: self.service_id,
            transaction_hash: clone_opt_string(&self.transaction_hash),
            message_hash: self.message_hash.clone(),
            account_workchain_id: self.account_workchain_id,
            account_hex: self.account_hex.clone(),
            value: self.value,
            root_address: self.root_address.clone(),
            payload: clone_opt_string(&self.payload),
            error: clone_opt_string(&self.error),
            block_hash: clone_opt_string(&self.block_hash),
            block_time: self.block_time,
            direction: self.direction,
            status: self.status,
            created_at: self.created_at,
            updated_at: self.updated_at,
        }
    }
}

impl Clone for TokenTransactionEventDb {
    /// A clone is the same record value.
    fn clone(&self) -> (r: Self)
        ensures
            r == *self,
    {
        TokenTransactionEventDb {
            id: self.id,
            service_id: self.service_id,
            token_transaction_id: self.token_transaction_id,
            message_hash: self.message_hash.clone(),
            account_workchain_id: self.account_workchain_id,
            account_hex: self.account_hex.clone(),
            value: self.value,
            root_address: self.root_address.clone(),
            transaction_direction: self.transaction_direction,
            transaction_status: self.transaction_status,
            event_status: self.event_status,
            created_at: self.created_at,
            updated_at: self.updated_at,
        }
    }
}

} // verus!
