//! The guarantees the ledger gives across its operations, stated and proved
//! once and for all, over the same spec functions the operations' contracts
//! use.

use vstd::prelude::*;

use crate::events::creation_event_row;
use crate::events::creation_event_status;
use crate::events::restatused_event_row;
use crate::ledger::confirmed_transaction_row;
use crate::ledger::first_correlation_match;
use crate::ledger::matches_correlation;
use crate::models::TokenTransactionEventDb;
use crate::models::TokenTransactionFromDb;
use crate::models::TonTokenTransactionStatus;
use crate::models::UpdateSendTokenTransaction;

verus! {

/// Derivation correctness for creation events: the event derived from a
/// just-written transaction row carries exactly that row's identity fields —
/// owner scope, parent id, message hash, account coordinates, amount, token
/// root, direction — snapshots the row's status, and takes its event status
/// from the fixed creation mapping, never from a caller-supplied value.
pub proof fn lemma_creation_event_faithful(t: TokenTransactionFromDb, event_id: u64, now: i64)
    ensures
        creation_event_row(t, event_id, now).id == event_id,
        creation_event_row(t, event_id, now).service_id == t.service_id,
        creation_event_row(t, event_id, now).token_transaction_id == t.id,
        creation_event_row(t, event_id, now).message_hash == t.message_hash,
        creation_event_row(t, event_id, now).account_workchain_id == t.account_workchain_id,
        creation_event_row(t, event_id, now).account_hex == t.account_hex,
        creation_event_row(t, event_id, now).value == t.value,
        creation_event_row(t, event_id, now).root_address == t.root_address,
        creation_event_row(t, event_id, now).transaction_direction == t.direction,
        creation_event_row(t, event_id, now).transaction_status == t.status,
        creation_event_row(t, event_id, now).event_status == creation_event_status(t.status),
{
}

/// Derivation correctness for confirmation updates: the event row keeps its
/// id, its identity fields, and its event status; only the
/// transaction-status snapshot and the update timestamp change, and the
/// snapshot is exactly the status just applied to the transaction row.
pub proof fn lemma_update_event_keeps_identity(
    e: TokenTransactionEventDb,
    status: TonTokenTransactionStatus,
    now: i64,
)
    ensures
        restatused_event_row(e, status, now).id == e.id,
        restatused_event_row(e, status, now).service_id == e.service_id,
        restatused_event_row(e, status, now).token_transaction_id == e.token_transaction_id,
        restatused_event_row(e, status, now).message_hash == e.message_hash,
        restatused_event_row(e, status, now).account_workchain_id == e.account_workchain_id,
        restatused_event_row(e, status, now).account_hex == e.account_hex,
        restatused_event_row(e, status, now).value == e.value,
        restatused_event_row(e, status, now).root_address == e.root_address,
        restatused_event_row(e, status, now).transaction_direction == e.transaction_direction,
        restatused_event_row(e, status, now).event_status == e.event_status,
        restatused_event_row(e, status, now).transaction_status == status,
{
}

/// The idempotency guard: when the correlation key identifies exactly one
/// pending row — the intended use, since the key exists to pick out a single
/// outbound transfer — a successful confirmation leaves a table in which no
/// row matches that key any more: the one match now carries a hash. A second
/// delivery of the same confirmation therefore finds no row, and by the
/// update operation's contract it returns `NotFound` and writes nothing.
pub proof fn lemma_confirmation_applies_once(
    txs: Seq<TokenTransactionFromDb>,
    i: int,
    upd: UpdateSendTokenTransaction,
    now: i64,
    message_hash: Seq<char>,
    account_workchain_id: i32,
    account_hex: Seq<char>,
    root_address: Seq<char>,
)
    requires
        first_correlation_match(
            txs,
            i,
            message_hash,
            account_workchain_id,
            account_hex,
            root_address,
        ),
        forall|j: int|
            0 <= j < txs.len() && j != i ==> !matches_correlation(
                txs[j],
                message_hash,
                account_workchain_id,
                account_hex,
                root_address,
            ),
    ensures
        forall|j: int|
            0 <= j < txs.update(i, confirmed_transaction_row(txs[i], upd, now)).len()
                ==> !matches_correlation(
                txs.update(i, confirmed_transaction_row(txs[i], upd, now))[j],
                message_hash,
                account_workchain_id,
                account_hex,
                root_address,
            ),
{
    let post = txs.update(i, confirmed_transaction_row(txs[i], upd, now));
    assert forall|j: int| 0 <= j < post.len() implies !matches_correlation(
        post[j],
        message_hash,
        account_workchain_id,
        account_hex,
        root_address,
    ) by {
        if j == i {
            assert(post[j].transaction_hash is Some);
        } else {
            assert(post[j] == txs[j]);
        }
    }
}

} // verus!
