//! The ledger: an in-memory model of the two tables, the unit-of-work
//! boundary, the three atomic write protocols, and the two lookups.

use vstd::prelude::*;

use crate::events::creation_event_row;
use crate::events::derive_creation_event;
use crate::events::restatused_event_row;
use crate::models::CreateReceiveTokenTransaction;
use crate::models::CreateSendTokenTransaction;
use crate::models::ServiceError;
use crate::models::ServiceId;
use crate::models::TokenTransactionEventDb;
use crate::models::TokenTransactionFromDb;
use crate::models::TonTokenTransactionStatus;
use crate::models::TonTransactionDirection;
use crate::models::UpdateSendTokenTransaction;

verus! {

/// Some transaction row already carries this id.
pub open spec fn tx_id_taken(txs: Seq<TokenTransactionFromDb>, id: u64) -> bool {
    exists|i: int| 0 <= i < txs.len() && txs[i].id == id
}

/// The correlation key of a pending outbound transfer: message hash, account
/// coordinates, and token root, with direction `Send` and the transaction
/// hash still unset. The unset hash is the idempotency guard: a confirmed row
/// never matches again.
pub open spec fn matches_correlation(
    t: TokenTransactionFromDb,
    message_hash: Seq<char>,
    account_workchain_id: i32,
    account_hex: Seq<char>,
    root_address: Seq<char>,
) -> bool {
    &&& t.message_hash@ == message_hash
    &&& t.account_workchain_id == account_workchain_id
    &&& t.account_hex@ == account_hex
    &&& t.root_address@ == root_address
    &&& t.direction == TonTransactionDirection::Send
    &&& t.transaction_hash is None
}

/// Index `i` holds the first row matching the correlation key.
pub open spec fn first_correlation_match(
    txs: Seq<TokenTransactionFromDb>,
    i: int,
    message_hash: Seq<char>,
    account_workchain_id: i32,
    account_hex: Seq<char>,
    root_address: Seq<char>,
) -> bool {
    &&& 0 <= i < txs.len()
    &&& matches_correlation(txs[i], message_hash, account_workchain_id, account_hex, root_address)
    &&& forall|j: int|
        0 <= j < i ==> !matches_correlation(
            txs[j],
            message_hash,
            account_workchain_id,
            account_hex,
            root_address,
        )
}

/// The correlation key of an event row: message hash plus `Send` direction.
pub open spec fn matches_event_correlation(
    e: TokenTransactionEventDb,
    message_hash: Seq<char>,
) -> bool {
    e.message_hash@ == message_hash && e.transaction_direction == TonTransactionDirection::Send
}

/// Index `k` holds the first event row matching the event correlation key.
pub open spec fn first_event_correlation_match(
    events: Seq<TokenTransactionEventDb>,
    k: int,
    message_hash: Seq<char>,
) -> bool {
    &&& 0 <= k < events.len()
    &&& matches_event_correlation(events[k], message_hash)
    &&& forall|j: int| 0 <= j < k ==> !matches_event_correlation(events[j], message_hash)
}

/// Lookup key of `get_token_transaction_by_mh`: owner scope and message hash.
pub open spec fn matches_message_hash(
    t: TokenTransactionFromDb,
    service_id: ServiceId,
    message_hash: Seq<char>,
) -> bool {
    t.service_id == service_id && t.message_hash@ == message_hash
}

/// Index `i` holds the first row matching the message-hash lookup key.
pub open spec fn first_message_hash_match(
    txs: Seq<TokenTransactionFromDb>,
    i: int,
    service_id: ServiceId,
    message_hash: Seq<char>,
) -> bool {
    &&& 0 <= i < txs.len()
    &&& matches_message_hash(txs[i], service_id, message_hash)
    &&& forall|j: int| 0 <= j < i ==> !matches_message_hash(txs[j], service_id, message_hash)
}

/// Lookup key of `get_token_transaction_by_h`: owner scope and on-chain hash.
pub open spec fn matches_transaction_hash(
    t: TokenTransactionFromDb,
    service_id: ServiceId,
    transaction_hash: Seq<char>,
) -> bool {
    &&& t.service_id == service_id
    &&& match t.transaction_hash {
        Some(h) => h@ == transaction_hash,
        None => false,
    }
}

/// Index `i` holds the first row matching the transaction-hash lookup key.
pub open spec fn first_transaction_hash_match(
    txs: Seq<TokenTransactionFromDb>,
    i: int,
    service_id: ServiceId,
    transaction_hash: Seq<char>,
) -> bool {
    &&& 0 <= i < txs.len()
    &&& matches_transaction_hash(txs[i], service_id, transaction_hash)
    &&& forall|j: int| 0 <= j < i ==> !matches_transaction_hash(txs[j], service_id, transaction_hash)
}

/// The transaction row inserted for an outbound transfer: identity and
/// amount come from the payload; the hash and all confirmation metadata are
/// unset; both timestamps are the insertion instant.
pub open spec fn send_transaction_row(
    p: CreateSendTokenTransaction,
    now: i64,
) -> TokenTransactionFromDb {
    TokenTransactionFromDb {
        id: p.id,
        service_id: p.service_id,
        transaction_hash: None,
        message_hash: p.message_hash,
        account_workchain_id: p.account_workchain_id,
        account_hex: p.account_hex,
        value: p.value,
        root_address: p.root_address,
        payload: None,
        error: None,
        block_hash: None,
        block_time: None,
        direction: p.direction,
        status: p.status,
        created_at: now,
        updated_at: now,
    }
}

/// The transaction row inserted for an inbound transfer: every field is
/// known up front, and the owner scope is passed separately from the payload
/// so that ownership cannot be spoofed.
pub open spec fn receive_transaction_row(
    p: CreateReceiveTokenTransaction,
    service_id: ServiceId,
    now: i64,
) -> TokenTransactionFromDb {
    TokenTransactionFromDb {
        id: p.id,
        service_id: service_id,
        transaction_hash: Some(p.transaction_hash),
        message_hash: p.message_hash,
        account_workchain_id: p.account_workchain_id,
        account_hex: p.account_hex,
        value: p.value,
        root_address: p.root_address,
        payload: p.payload,
        error: p.error,
        block_hash: Some(p.block_hash),
        block_time: Some(p.block_time),
        direction: p.direction,
        status: p.status,
        created_at: now,
        updated_at: now,
    }
}

/// A pending outbound row after its confirmation update: the hash and the
/// confirmation metadata are set, the status moves to the caller's new
/// status, and the update timestamp is refreshed; identity fields, amount,
/// direction, and the creation timestamp stay as they were.
pub open spec fn confirmed_transaction_row(
    t: TokenTransactionFromDb,
    u: UpdateSendTokenTransaction,
    now: i64,
) -> TokenTransactionFromDb {
    TokenTransactionFromDb {
        transaction_hash: Some(u.transaction_hash),
        payload: u.payload,
        block_hash: Some(u.block_hash),
        block_time: Some(u.block_time),
        status: u.status,
        error: u.error,
        updated_at: now,
        ..t
    }
}

/// Two ledgers hold the same rows and the same id counter.
pub open spec fn same_state(a: TokenLedger, b: TokenLedger) -> bool {
    &&& a.transactions@ == b.transactions@
    &&& a.events@ == b.events@
    &&& a.next_event_id == b.next_event_id
}

/// The in-memory ledger: the transaction table, the event table, and the
/// counter from which event ids are assigned.
pub struct TokenLedger {
    pub transactions: Vec<TokenTransactionFromDb>,
    pub events: Vec<TokenTransactionEventDb>,
    pub next_event_id: u64,
}

impl TokenLedger {
    /// Well-formedness: transaction ids are unique (the table's primary
    /// key), event ids are unique, and every event id was assigned below the
    /// counter.
    pub open spec fn wf(self) -> bool {
        &&& forall|i: int, j: int|
            0 <= i < j < self.transactions@.len() ==> self.transactions@[i].id
                != self.transactions@[j].id
        &&& forall|i: int, j: int|
            0 <= i < j < self.events@.len() ==> self.events@[i].id != self.events@[j].id
        &&& forall|i: int| 0 <= i < self.events@.len() ==> self.events@[i].id < self.next_event_id
    }

    /// An empty ledger.
    pub fn new() -> (l: TokenLedger)
        ensures
            l.transactions@ == Seq::<TokenTransactionFromDb>::empty(),
            l.events@ == Seq::<TokenTransactionEventDb>::empty(),
            l.next_event_id == 0,
            l.wf(),
    {
        TokenLedger { transactions: Vec::new(), events: Vec::new(), next_event_id: 0 }
    }

    /// How many transaction rows the ledger holds.
    pub fn transaction_count(&self) -> (n: usize)
        ensures
            n == self.transactions@.len(),
    {
        self.transactions.len()
    }

    /// How many event rows the ledger holds.
    pub fn event_count(&self) -> (n: usize)
        ensures
            n == self.events@.len(),
    {
        self.events.len()
    }
}

fn clone_transaction_rows(v: &Vec<TokenTransactionFromDb>) -> (r: Vec<TokenTransactionFromDb>)
    ensures
        r@ == v@,
{
    let mut r: Vec<TokenTransactionFromDb> = Vec::new();
    let mut i: usize = 0;
    while i < v.len()
        invariant
            i <= v@.len(),
            r@ =~= v@.subrange(0, i as int),
        decreases v@.len() - i,
    {
        r.push(v[i].clone());
        i = i + 1;
    }
    proof {
        assert(r@ =~= v@);
    }
    r
}

fn clone_event_rows(v: &Vec<TokenTransactionEventDb>) -> (r: Vec<TokenTransactionEventDb>)
    ensures
        r@ == v@,
{
    let mut r: Vec<TokenTransactionEventDb> = Vec::new();
    let mut i: usize = 0;
    while i < v.len()
        invariant
            i <= v@.len(),
            r@ =~= v@.subrange(0, i as int),
        decreases v@.len() - i,
    {
        r.push(v[i].clone());
        i = i + 1;
    }
    proof {
        assert(r@ =~= v@);
    }
    r
}

/// One unit of work: a private working copy of the ledger. Writes land on
/// the copy; they reach the shared ledger only through [`TokenLedger::commit`],
/// all together. Dropping the unit of work instead discards every write made
/// within it, so a failure between the transaction write and the event write
/// leaves no trace in either table.
pub struct UnitOfWork {
    pub working: TokenLedger,
}

impl TokenLedger {
    /// Acquires a unit of work over the current state.
    pub fn begin(&self) -> (u: UnitOfWork)
        ensures
            same_state(u.working, *self),
    {
        UnitOfWork {
            working: TokenLedger {
                transactions: clone_transaction_rows(&self.transactions),
                events: clone_event_rows(&self.events),
                next_event_id: self.next_event_id,
            },
        }
    }

    /// Commits a unit of work: the ledger takes over every write made within
    /// it, as one atomic step.
    pub fn commit(&mut self, u: UnitOfWork)
        ensures
            same_state(*final(self), u.working),
    {
        *self = u.working;
    }
}

impl UnitOfWork {
    /// Inserts a new transaction row, or fails with `Conflict` when a row
    /// with the same id already exists. Returns the row as written.
    pub fn insert_transaction(&mut self, row: TokenTransactionFromDb) -> (r: Result<
        TokenTransactionFromDb,
        ServiceError,
    >)
        ensures
            match r {
                Ok(t) => {
                    &&& !tx_id_taken(old(self).working.transactions@, row.id)
                    &&& t == row
                    &&& final(self).working.transactions@ == old(
                        self,
                    ).working.transactions@.push(row)
                    &&& final(self).working.events@ == old(self).working.events@
                    &&& final(self).working.next_event_id == old(self).working.next_event_id
                },
                Err(e) => {
                    &&& e == ServiceError::Conflict
                    &&& tx_id_taken(old(self).working.transactions@, row.id)
                    &&& same_state(final(self).working, old(self).working)
                },
            },
    {
        let n = self.working.transactions.len();
        let mut i: usize = 0;
        while i < n
            invariant
                n == self.working.transactions@.len(),
                i <= n,
                same_state(self.working, old(self).working),
                forall|j: int| 0 <= j < i ==> self.working.transactions@[j].id != row.id,
            decreases n - i,
        {
            if self.working.transactions[i].id == row.id {
                return Err(ServiceError::Conflict);
            }
            i = i + 1;
        }
        let stored = row.clone();
        self.working.transactions.push(stored);
        Ok(row)
    }

    /// Derives and inserts the creation event for a just-written transaction
    /// row; the event id is assigned from the ledger's counter.
    pub fn insert_event(&mut self, t: &TokenTransactionFromDb, now: i64) -> (e:
        TokenTransactionEventDb)
        requires
            old(self).working.next_event_id < u64::MAX,
        ensures
            e == creation_event_row(*t, old(self).working.next_event_id, now),
            final(self).working.events@ == old(self).working.events@.push(e),
            final(self).working.transactions@ == old(self).working.transactions@,
            final(self).working.next_event_id == old(self).working.next_event_id + 1,
    {
        let e = derive_creation_event(t, self.working.next_event_id, now);
        let stored = e.clone();
        self.working.events.push(stored);
        self.working.next_event_id = self.working.next_event_id + 1;
        e
    }

    /// Applies confirmation data to the first transaction row matching the
    /// correlation key. A row already confirmed (hash set) never matches, so
    /// a redelivered confirmation fails with `NotFound` instead of being
    /// applied twice. Returns the row as updated.
    pub fn update_transaction(
        &mut self,
        message_hash: &String,
        account_workchain_id: i32,
        account_hex: &String,
        root_address: &String,
        upd: UpdateSendTokenTransaction,
        now: i64,
    ) -> (r: Result<TokenTransactionFromDb, ServiceError>)
        ensures
            match r {
                Ok(t) => {
                    &&& exists|i: int|
                        {
                            &&& #[trigger] first_correlation_match(
                                old(self).working.transactions@,
                                i,
                                message_hash@,
                                account_workchain_id,
                                account_hex@,
                                root_address@,
                            )
                            &&& t == confirmed_transaction_row(
                                old(self).working.transactions@[i],
                                upd,
                                now,
                            )
                            &&& final(self).working.transactions@ == old(
                                self,
                            ).working.transactions@.update(i, t)
                        }
                    &&& final(self).working.transactions@.len() == old(
                        self,
                    ).working.transactions@.len()
                    &&& forall|j: int|
                        0 <= j < old(self).working.transactions@.len()
                            ==> final(self).working.transactions@[j].id == old(
                            self,
                        ).working.transactions@[j].id
                    &&& final(self).working.events@ == old(self).working.events@
                    &&& final(self).working.next_event_id == old(self).working.next_event_id
                },
                Err(e) => {
                    &&& e == ServiceError::NotFound
                    &&& same_state(final(self).working, old(self).working)
                    &&& forall|i: int|
                        0 <= i < old(self).working.transactions@.len()
                            ==> !matches_correlation(
                            old(self).working.transactions@[i],
                            message_hash@,
                            account_workchain_id,
                            account_hex@,
                            root_address@,
                        )
                },
            },
    {
        let n = self.working.transactions.len();
        let mut i: usize = 0;
        while i < n
            invariant
                n == self.working.transactions@.len(),
                i <= n,
                same_state(self.working, old(self).working),
                forall|j: int|
                    0 <= j < i ==> !matches_correlation(
                        self.working.transactions@[j],
                        message_hash@,
                        account_workchain_id,
                        account_hex@,
                        root_address@,
                    ),
            decreases n - i,
        {
            let row_matches = {
                let t = &self.working.transactions[i];
                t.message_hash == *message_hash && t.account_workchain_id == account_workchain_id
                    && t.account_hex == *account_hex && t.root_address == *root_address
                    && t.direction == TonTransactionDirection::Send && t.transaction_hash.is_none()
            };
            if row_matches {
                let new_row = {
                    let t = &self.working.transactions[i];
                    TokenTransactionFromDb {
                        id: t.id,
                        service_id: t.service_id,
                        transaction_hash: Some(upd.transaction_hash),
                        message_hash: t.message_hash.clone(),
                        account_workchain_id: t.account_workchain_id,
                        account_hex: t.account_hex.clone(),
                        value: t.value,
                        root_address: t.root_address.clone(),
                        payload: upd.payload,
                        error: upd.error,
                        block_hash: Some(upd.block_hash),
                        block_time: Some(upd.block_time),
                        direction: t.direction,
                        status: upd.status,
                        created_at: t.created_at,
                        updated_at: now,
                    }
                };
                proof {
                    assert(first_correlation_match(
                        old(self).working.transactions@,
                        i as int,
                        message_hash@,
                        account_workchain_id,
                        account_hex@,
                        root_address@,
                    ));
                    assert(new_row == confirmed_transaction_row(
                        old(self).working.transactions@[i as int],
                        upd,
                        now,
                    ));
                }
                let stored = new_row.clone();
                self.working.transactions[i] = stored;
                proof {
                    assert(self.working.transactions@ == old(
                        self,
                    ).working.transactions@.update(i as int, new_row));
                    assert forall|j: int|
                        0 <= j < old(self).working.transactions@.len() implies self.working.transactions@[j].id == old(
                        self,
                    ).working.transactions@[j].id by {
                        if j != i as int {
                            assert(self.working.transactions@[j] == old(
                                self,
                            ).working.transactions@[j]);
                        }
                    }
                }
                return Ok(new_row);
            }
            i = i + 1;
        }
        Err(ServiceError::NotFound)
    }

    /// Writes the new transaction-status snapshot onto the first event row
    /// matching the event correlation key; the row keeps its id and its
    /// event status. Returns the row as updated.
    pub fn update_event_status(
        &mut self,
        message_hash: &String,
        status: TonTokenTransactionStatus,
        now: i64,
    ) -> (r: Result<TokenTransactionEventDb, ServiceError>)
        ensures
            match r {
                Ok(e) => {
                    &&& exists|k: int|
                        {
                            &&& #[trigger] first_event_correlation_match(
                                old(self).working.events@,
                                k,
                                message_hash@,
                            )
                            &&& e == restatused_event_row(old(self).working.events@[k], status, now)
                            &&& final(self).working.events@ == old(self).working.events@.update(
                                k,
                                e,
                            )
                        }
                    &&& final(self).working.events@.len() == old(self).working.events@.len()
                    &&& forall|j: int|
                        0 <= j < old(self).working.events@.len()
                            ==> final(self).working.events@[j].id == old(
                            self,
                        ).working.events@[j].id
                    &&& final(self).working.transactions@ == old(self).working.transactions@
                    &&& final(self).working.next_event_id == old(self).working.next_event_id
                },
                Err(e) => {
                    &&& e == ServiceError::NotFound
                    &&& same_state(final(self).working, old(self).working)
                    &&& forall|k: int|
                        0 <= k < old(self).working.events@.len() ==> !matches_event_correlation(
                            old(self).working.events@[k],
                            message_hash@,
                        )
                },
            },
    {
        let n = self.working.events.len();
        let mut k: usize = 0;
        while k < n
            invariant
                n == self.working.events@.len(),
                k <= n,
                same_state(self.working, old(self).working),
                forall|j: int|
                    0 <= j < k ==> !matches_event_correlation(
                        self.working.events@[j],
                        message_hash@,
                    ),
            decreases n - k,
        {
            let row_matches = {
                let e = &self.working.events[k];
                e.message_hash == *message_hash && e.transaction_direction
                    == TonTransactionDirection::Send
            };
            if row_matches {
                proof {
                    assert(first_event_correlation_match(
                        old(self).working.events@,
                        k as int,
                        message_hash@,
                    ));
                }
                let mut e = self.working.events[k].clone();
                e.transaction_status = status;
                e.updated_at = now;
                proof {
                    assert(e == restatused_event_row(
                        old(self).working.events@[k as int],
                        status,
                        now,
                    ));
                }
                let stored = e.clone();
                self.working.events[k] = stored;
                proof {
                    assert(self.working.events@ == old(self).working.events@.update(k as int, e));
                    assert forall|j: int|
                        0 <= j < old(self).working.events@.len() implies self.working.events@[j].id
                        == old(self).working.events@[j].id by {
                        if j != k as int {
                            assert(self.working.events@[j] == old(self).working.events@[j]);
                        }
                    }
                }
                return Ok(e);
            }
            k = k + 1;
        }
        Err(ServiceError::NotFound)
    }
}

impl TokenLedger {
    /// Records an outbound transfer: inserts its transaction row with the
    /// hash and all confirmation metadata unset, derives and inserts the
    /// creation event from the just-written row, and commits both writes as
    /// one unit of work. Fails with `Conflict`, writing nothing, when a row
    /// with the payload's id already exists.
    pub fn create_send_token_transaction(
        &mut self,
        payload: CreateSendTokenTransaction,
        now: i64,
    ) -> (r: Result<(TokenTransactionFromDb, TokenTransactionEventDb), ServiceError>)
        requires
            old(self).wf(),
            old(self).next_event_id < u64::MAX,
            payload.direction == TonTransactionDirection::Send,
        ensures
            final(self).wf(),
            match r {
                Ok(p) => {
                    &&& !tx_id_taken(old(self).transactions@, payload.id)
                    &&& p.0 == send_transaction_row(payload, now)
                    &&& p.1 == creation_event_row(p.0, old(self).next_event_id, now)
                    &&& final(self).transactions@ == old(self).transactions@.push(p.0)
                    &&& final(self).events@ == old(self).events@.push(p.1)
                    &&& final(self).next_event_id == old(self).next_event_id + 1
                },
                Err(e) => {
                    &&& e == ServiceError::Conflict
                    &&& tx_id_taken(old(self).transactions@, payload.id)
                    &&& same_state(*final(self), *old(self))
                },
            },
    {
        let row = TokenTransactionFromDb {
            id: payload.id,
            service_id: payload.service_id,
            transaction_hash: None,
            message_hash: payload.message_hash,
            account_workchain_id: payload.account_workchain_id,
            account_hex: payload.account_hex,
            value: payload.value,
            root_address: payload.root_address,
            payload: None,
            error: None,
            block_hash: None,
            block_time: None,
            direction: payload.direction,
            status: payload.status,
            created_at: now,
            updated_at: now,
        };
        let mut uow = self.begin();
        let t = match uow.insert_transaction(row) {
            Ok(t) => t,
            Err(e) => {
                return Err(e);
            },
        };
        let e = uow.insert_event(&t, now);
        self.commit(uow);
        proof {
            lemma_push_keeps_wf(*old(self), *self, t, e);
        }
        Ok((t, e))
    }

    /// Records an inbound transfer, observed post hoc from the chain: inserts
    /// its complete transaction row (hash and confirmation metadata already
    /// known), derives and inserts the creation event from the just-written
    /// row, and commits both writes as one unit of work. The owner scope is
    /// passed separately from the payload so ownership cannot be spoofed.
    /// Fails with `Conflict`, writing nothing, on a duplicate id.
    pub fn create_receive_token_transaction(
        &mut self,
        payload: CreateReceiveTokenTransaction,
        service_id: ServiceId,
        now: i64,
    ) -> (r: Result<(TokenTransactionFromDb, TokenTransactionEventDb), ServiceError>)
        requires
            old(self).wf(),
            old(self).next_event_id < u64::MAX,
            payload.direction == TonTransactionDirection::Receive,
        ensures
            final(self).wf(),
            match r {
                Ok(p) => {
                    &&& !tx_id_taken(old(self).transactions@, payload.id)
                    &&& p.0 == receive_transaction_row(payload, service_id, now)
                    &&& p.1 == creation_event_row(p.0, old(self).next_event_id, now)
                    &&& final(self).transactions@ == old(self).transactions@.push(p.0)
                    &&& final(self).events@ == old(self).events@.push(p.1)
                    &&& final(self).next_event_id == old(self).next_event_id + 1
                },
                Err(e) => {
                    &&& e == ServiceError::Conflict
                    &&& tx_id_taken(old(self).transactions@, payload.id)
                    &&& same_state(*final(self), *old(self))
                },
            },
    {
        let row = TokenTransactionFromDb {
            id: payload.id,
            service_id: service_id,
            transaction_hash: Some(payload.transaction_hash),
            message_hash: payload.message_hash,
            account_workchain_id: payload.account_workchain_id,
            account_hex: payload.account_hex,
            value: payload.value,
            root_address: payload.root_address,
            payload: payload.payload,
            error: payload.error,
            block_hash: Some(payload.block_hash),
            block_time: Some(payload.block_time),
            direction: payload.direction,
            status: payload.status,
            created_at: now,
            updated_at: now,
        };
        let mut uow = self.begin();
        let t = match uow.insert_transaction(row) {
            Ok(t) => t,
            Err(e) => {
                return Err(e);
            },
        };
        let e = uow.insert_event(&t, now);
        self.commit(uow);
        proof {
            lemma_push_keeps_wf(*old(self), *self, t, e);
        }
        Ok((t, e))
    }

    /// Applies a confirmation to the pending outbound transfer identified by
    /// the correlation key, then writes the new status snapshot onto that
    /// transfer's event row, and commits both writes as one unit of work.
    /// The event row is updated in place rather than appended: one event row
    /// per transaction, with a stable id, is what downstream consumers rely
    /// on. Fails with `NotFound`, writing nothing, when no pending row
    /// matches — a redelivered confirmation lands here, since the first one
    /// set the hash and the guard no longer matches.
    pub fn update_send_token_transaction(
        &mut self,
        message_hash: String,
        account_workchain_id: i32,
        account_hex: String,
        root_address: String,
        payload: UpdateSendTokenTransaction,
        now: i64,
    ) -> (r: Result<(TokenTransactionFromDb, TokenTransactionEventDb), ServiceError>)
        requires
            old(self).wf(),
        ensures
            final(self).wf(),
            r is Ok <==> ((exists|i: int|
                0 <= i < old(self).transactions@.len() && #[trigger] matches_correlation(
                    old(self).transactions@[i],
                    message_hash@,
                    account_workchain_id,
                    account_hex@,
                    root_address@,
                )) && (exists|k: int|
                0 <= k < old(self).events@.len() && #[trigger] matches_event_correlation(
                    old(self).events@[k],
                    message_hash@,
                ))),
            match r {
                Ok(p) => {
                    &&& exists|i: int|
                        {
                            &&& #[trigger] first_correlation_match(
                                old(self).transactions@,
                                i,
                                message_hash@,
                                account_workchain_id,
                                account_hex@,
                                root_address@,
                            )
                            &&& p.0 == confirmed_transaction_row(
                                old(self).transactions@[i],
                                payload,
                                now,
                            )
                            &&& final(self).transactions@ == old(self).transactions@.update(i, p.0)
                        }
                    &&& exists|k: int|
                        {
                            &&& #[trigger] first_event_correlation_match(
                                old(self).events@,
                                k,
                                message_hash@,
                            )
                            &&& p.1 == restatused_event_row(old(self).events@[k], payload.status, now)
                            &&& final(self).events@ == old(self).events@.update(k, p.1)
                        }
                    &&& final(self).next_event_id == old(self).next_event_id
                },
                Err(e) => {
                    &&& e == ServiceError::NotFound
                    &&& same_state(*final(self), *old(self))
                },
            },
    {
        let mut uow = self.begin();
        let t = match uow.update_transaction(
            &message_hash,
            account_workchain_id,
            &account_hex,
            &root_address,
            payload,
            now,
        ) {
            Ok(t) => t,
            Err(e) => {
                return Err(e);
            },
        };
        let e = match uow.update_event_status(&message_hash, t.status, now) {
            Ok(e) => e,
            Err(e) => {
                return Err(e);
            },
        };
        self.commit(uow);
        proof {
            lemma_pointwise_ids_keep_wf(*old(self), *self);
        }
        Ok((t, e))
    }

    /// Looks up the transfer with the given message hash inside the given
    /// owner scope. Read-only: no unit of work. Returns the first matching
    /// row, or `NotFound` when the scope holds none; a row of another
    /// service identity is never returned, even when message hashes collide
    /// across identities.
    pub fn get_token_transaction_by_mh(
        &self,
        service_id: ServiceId,
        message_hash: &str,
    ) -> (r: Result<TokenTransactionFromDb, ServiceError>)
        ensures
            match r {
                Ok(t) => {
                    &&& exists|i: int|
                        #[trigger] first_message_hash_match(
                            self.transactions@,
                            i,
                            service_id,
                            message_hash@,
                        ) && t == self.transactions@[i]
                    &&& t.service_id == service_id
                },
                Err(e) => {
                    &&& e == ServiceError::NotFound
                    &&& forall|i: int|
                        0 <= i < self.transactions@.len() ==> !matches_message_hash(
                            self.transactions@[i],
                            service_id,
                            message_hash@,
                        )
                },
            },
    {
        let key: String = message_hash.to_owned();
        let n = self.transactions.len();
        let mut i: usize = 0;
        while i < n
            invariant
                n == self.transactions@.len(),
                i <= n,
                key@ == message_hash@,
                forall|j: int|
                    0 <= j < i ==> !matches_message_hash(
                        self.transactions@[j],
                        service_id,
                        message_hash@,
                    ),
            decreases n - i,
        {
            let row_matches = {
                let t = &self.transactions[i];
                t.service_id == service_id && t.message_hash == key
            };
            if row_matches {
                proof {
                    assert(first_message_hash_match(
                        self.transactions@,
                        i as int,
                        service_id,
                        message_hash@,
                    ));
                }
                return Ok(self.transactions[i].clone());
            }
            i = i + 1;
        }
        Err(ServiceError::NotFound)
    }

    /// Looks up the transfer with the given on-chain transaction hash inside
    /// the given owner scope. Read-only: no unit of work. Returns the first
    /// matching row, or `NotFound` when the scope holds none; a row of
    /// another service identity is never returned. A row whose hash is still
    /// unset never matches.
    pub fn get_token_transaction_by_h(
        &self,
        service_id: ServiceId,
        transaction_hash: &str,
    ) -> (r: Result<TokenTransactionFromDb, ServiceError>)
        ensures
            match r {
                Ok(t) => {
                    &&& exists|i: int|
                        #[trigger] first_transaction_hash_match(
                            self.transactions@,
                            i,
                            service_id,
                            transaction_hash@,
                        ) && t == self.transactions@[i]
                    &&& t.service_id == service_id
                },
                Err(e) => {
                    &&& e == ServiceError::NotFound
                    &&& forall|i: int|
                        0 <= i < self.transactions@.len() ==> !matches_transaction_hash(
                            self.transactions@[i],
                            service_id,
                            transaction_hash@,
                        )
                },
            },
    {
        let key: String = transaction_hash.to_owned();
        let n = self.transactions.len();
        let mut i: usize = 0;
        while i < n
            invariant
                n == self.transactions@.len(),
                i <= n,
                key@ == transaction_hash@,
                forall|j: int|
                    0 <= j < i ==> !matches_transaction_hash(
                        self.transactions@[j],
                        service_id,
                        transaction_hash@,
                    ),
            decreases n - i,
        {
            let row_matches = {
                let t = &self.transactions[i];
                t.service_id == service_id && match &t.transaction_hash {
                    Some(h) => *h == key,
                    None => false,
                }
            };
            if row_matches {
                proof {
                    assert(first_transaction_hash_match(
                        self.transactions@,
                        i as int,
                        service_id,
                        transaction_hash@,
                    ));
                }
                return Ok(self.transactions[i].clone());
            }
            i = i + 1;
        }
        Err(ServiceError::NotFound)
    }
}

/// Pushing one fresh transaction row and one fresh event row keeps the
/// ledger well formed: the new transaction id was checked against every
/// existing row, and the new event id comes from the counter, above every id
/// assigned before.
proof fn lemma_push_keeps_wf(
    pre: TokenLedger,
    post: TokenLedger,
    t: TokenTransactionFromDb,
    e: TokenTransactionEventDb,
)
    requires
        pre.wf(),
        !tx_id_taken(pre.transactions@, t.id),
        e.id == pre.next_event_id,
        post.transactions@ == pre.transactions@.push(t),
        post.events@ == pre.events@.push(e),
        post.next_event_id == pre.next_event_id + 1,
    ensures
        post.wf(),
{
    assert forall|i: int, j: int|
        0 <= i < j < post.transactions@.len() implies post.transactions@[i].id
        != post.transactions@[j].id by {
        if j < pre.transactions@.len() {
        } else {
            assert(post.transactions@[i] == pre.transactions@[i]);
            assert(pre.transactions@[i].id != t.id);
        }
    }
    assert forall|i: int, j: int|
        0 <= i < j < post.events@.len() implies post.events@[i].id != post.events@[j].id by {
        if j < pre.events@.len() {
        } else {
            assert(post.events@[i] == pre.events@[i]);
        }
    }
    assert forall|i: int| 0 <= i < post.events@.len() implies post.events@[i].id
        < post.next_event_id by {
        if i < pre.events@.len() {
            assert(post.events@[i] == pre.events@[i]);
        }
    }
}

/// An update that keeps every row's id in place, keeps the row counts, and
/// keeps the id counter also keeps the ledger well formed.
proof fn lemma_pointwise_ids_keep_wf(pre: TokenLedger, post: TokenLedger)
    requires
        pre.wf(),
        post.transactions@.len() == pre.transactions@.len(),
        forall|j: int|
            0 <= j < pre.transactions@.len() ==> post.transactions@[j].id
                == pre.transactions@[j].id,
        post.events@.len() == pre.events@.len(),
        forall|j: int| 0 <= j < pre.events@.len() ==> post.events@[j].id == pre.events@[j].id,
        post.next_event_id == pre.next_event_id,
    ensures
        post.wf(),
{
}

} // verus!
