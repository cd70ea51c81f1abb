//! An explicit model of the subscriber store.
//!
//! The backing database is a collaborator of the core (the design treats it as
//! a capability providing transactions), so the core works against an explicit
//! [`Storage`] value: the two tables that the workflow touches, plus a fault
//! switch standing for the backing store refusing a statement.  Writes go
//! through a [`StorageTransaction`]: rows are staged on the transaction and
//! become observable only when [`Storage::commit`] succeeds, which is what
//! makes the subscriber-plus-token write all-or-nothing.

use vstd::prelude::*;
use vstd::std_specs::vec::vec_index_mut;
use crate::text::str_eq;

verus! {

/// Lifecycle state of a subscriber row.
#[derive(Clone, Copy, PartialEq, Eq, Structural, Debug)]
pub enum SubscriberStatus {
    PendingConfirmation,
    Confirmed,
}

/// A statement the backing store is currently refusing, standing for an
/// injected database failure.
#[derive(Clone, Copy, PartialEq, Eq, Structural, Debug)]
pub enum StorageFault {
    SubscriberInsert,
    TokenInsert,
    Commit,
}

/// Why a storage operation failed; the cause stays server-side.
#[derive(Clone, Copy, PartialEq, Eq, Structural, Debug)]
pub enum StorageError {
    SubscriberInsertFailed,
    TokenInsertFailed,
    CommitFailed,
}

/// Server-side description of a storage failure.
pub open spec fn spec_storage_description(e: StorageError) -> Seq<char> {
    match e {
        StorageError::SubscriberInsertFailed => "Failed to insert new subscriber in the database."@,
        StorageError::TokenInsertFailed => "Failed to store the confirmation token for a new subscriber."@,
        StorageError::CommitFailed => "Failed to commit SQL transaction to store a new subscriber."@,
    }
}

impl StorageError {
    /// Server-side description of the failure.
    pub fn description(&self) -> (r: &'static str)
        ensures
            r@ == spec_storage_description(*self),
    {
        match self {
            StorageError::SubscriberInsertFailed => "Failed to insert new subscriber in the database.",
            StorageError::TokenInsertFailed => "Failed to store the confirmation token for a new subscriber.",
            StorageError::CommitFailed => "Failed to commit SQL transaction to store a new subscriber.",
        }
    }
}

/// One row of the subscriptions table.
pub struct SubscriberRow {
    pub id: u128,
    pub email: String,
    pub name: String,
    pub subscribed_at_millis: i64,
    pub status: SubscriberStatus,
}

/// Mathematical value of a subscriber row.
pub struct SubscriberRowView {
    pub id: u128,
    pub email: Seq<char>,
    pub name: Seq<char>,
    pub subscribed_at_millis: i64,
    pub status: SubscriberStatus,
}

impl View for SubscriberRow {
    type V = SubscriberRowView;

    open spec fn view(&self) -> SubscriberRowView {
        SubscriberRowView {
            id: self.id,
            email: self.email@,
            name: self.name@,
            subscribed_at_millis: self.subscribed_at_millis,
            status: self.status,
        }
    }
}

/// One row of the subscription-tokens table.
pub struct TokenRow {
    pub token: String,
    pub subscriber_id: u128,
}

/// Mathematical value of a token row.
pub struct TokenRowView {
    pub token: Seq<char>,
    pub subscriber_id: u128,
}

impl View for TokenRow {
    type V = TokenRowView;

    open spec fn view(&self) -> TokenRowView {
        TokenRowView { token: self.token@, subscriber_id: self.subscriber_id }
    }
}

/// The views of a sequence of subscriber rows.
pub open spec fn subscriber_rows_view(rows: Seq<SubscriberRow>) -> Seq<SubscriberRowView> {
    rows.map_values(|r: SubscriberRow| r@)
}

/// The views of a sequence of token rows.
pub open spec fn token_rows_view(rows: Seq<TokenRow>) -> Seq<TokenRowView> {
    rows.map_values(|r: TokenRow| r@)
}

/// Mathematical value of the whole store: the two tables.
pub struct StorageView {
    pub subscribers: Seq<SubscriberRowView>,
    pub tokens: Seq<TokenRowView>,
}

/// The subscriber store: both tables, and the fault switch standing for the
/// backing database refusing a statement.
pub struct Storage {
    pub subscribers: Vec<SubscriberRow>,
    pub tokens: Vec<TokenRow>,
    pub fault: Option<StorageFault>,
}

impl View for Storage {
    type V = StorageView;

    open spec fn view(&self) -> StorageView {
        StorageView {
            subscribers: subscriber_rows_view(self.subscribers@),
            tokens: token_rows_view(self.tokens@),
        }
    }
}

/// An open transaction: rows staged against the store, observable only after
/// a successful commit.  Dropping the transaction is a rollback.
pub struct StorageTransaction {
    staged_subscribers: Vec<SubscriberRow>,
    staged_tokens: Vec<TokenRow>,
    fault: Option<StorageFault>,
}

/// Mathematical value of an open transaction.
pub struct StorageTransactionView {
    pub staged_subscribers: Seq<SubscriberRowView>,
    pub staged_tokens: Seq<TokenRowView>,
    pub fault: Option<StorageFault>,
}

impl View for StorageTransaction {
    type V = StorageTransactionView;

    closed spec fn view(&self) -> StorageTransactionView {
        StorageTransactionView {
            staged_subscribers: subscriber_rows_view(self.staged_subscribers@),
            staged_tokens: token_rows_view(self.staged_tokens@),
            fault: self.fault,
        }
    }
}

/// The subscriber id the token row store maps a token to, searching in row
/// order.
pub open spec fn spec_lookup_token(tokens: Seq<TokenRowView>, token: Seq<char>) -> Option<u128>
    decreases tokens.len(),
{
    if tokens.len() == 0 {
        None
    } else if tokens[0].token == token {
        Some(tokens[0].subscriber_id)
    } else {
        spec_lookup_token(tokens.skip(1), token)
    }
}

/// Every subscriber row with the given id moved to the given status; all
/// other rows unchanged.
pub open spec fn spec_set_status(
    subscribers: Seq<SubscriberRowView>,
    id: u128,
    status: SubscriberStatus,
) -> Seq<SubscriberRowView> {
    subscribers.map_values(
        |r: SubscriberRowView|
            if r.id == id {
                SubscriberRowView {
                    id: r.id,
                    email: r.email,
                    name: r.name,
                    subscribed_at_millis: r.subscribed_at_millis,
                    status: status,
                }
            } else {
                r
            },
    )
}

proof fn lemma_subscriber_rows_view_push(rows: Seq<SubscriberRow>, row: SubscriberRow)
    ensures
        subscriber_rows_view(rows.push(row)) == subscriber_rows_view(rows).push(row@),
{
    assert(subscriber_rows_view(rows.push(row)) =~= subscriber_rows_view(rows).push(row@));
}

proof fn lemma_token_rows_view_push(rows: Seq<TokenRow>, row: TokenRow)
    ensures
        token_rows_view(rows.push(row)) == token_rows_view(rows).push(row@),
{
    assert(token_rows_view(rows.push(row)) =~= token_rows_view(rows).push(row@));
}

proof fn lemma_subscriber_rows_view_add(a: Seq<SubscriberRow>, b: Seq<SubscriberRow>)
    ensures
        subscriber_rows_view(a + b) == subscriber_rows_view(a) + subscriber_rows_view(b),
{
    assert(subscriber_rows_view(a + b) =~= subscriber_rows_view(a) + subscriber_rows_view(b));
}

proof fn lemma_token_rows_view_add(a: Seq<TokenRow>, b: Seq<TokenRow>)
    ensures
        token_rows_view(a + b) == token_rows_view(a) + token_rows_view(b),
{
    assert(token_rows_view(a + b) =~= token_rows_view(a) + token_rows_view(b));
}

impl Storage {
    /// An empty store with no injected fault.
    pub fn new() -> (s: Storage)
        ensures
            s@.subscribers == Seq::<SubscriberRowView>::empty(),
            s@.tokens == Seq::<TokenRowView>::empty(),
            s.fault is None,
    {
        let s = Storage { subscribers: Vec::new(), tokens: Vec::new(), fault: None };
        proof {
            assert(s@.subscribers =~= Seq::<SubscriberRowView>::empty());
            assert(s@.tokens =~= Seq::<TokenRowView>::empty());
        }
        s
    }

    /// Opens a transaction against the store.  Nothing is observable in the
    /// store until the transaction is committed.
    pub fn begin(&self) -> (tx: StorageTransaction)
        ensures
            tx@.staged_subscribers == Seq::<SubscriberRowView>::empty(),
            tx@.staged_tokens == Seq::<TokenRowView>::empty(),
            tx@.fault == self.fault,
    {
        let tx = StorageTransaction {
            staged_subscribers: Vec::new(),
            staged_tokens: Vec::new(),
            fault: self.fault,
        };
        proof {
            assert(tx@.staged_subscribers =~= Seq::<SubscriberRowView>::empty());
            assert(tx@.staged_tokens =~= Seq::<TokenRowView>::empty());
        }
        tx
    }

    /// Commits a transaction: on success, and only then, the staged rows are
    /// appended to the tables.  On failure the store is exactly as it was.
    pub fn commit(&mut self, transaction: StorageTransaction) -> (r: Result<(), StorageError>)
        ensures
            final(self).fault == old(self).fault,
            match r {
                Ok(()) => transaction@.fault != Some(StorageFault::Commit)
                    && final(self)@.subscribers == old(self)@.subscribers
                    + transaction@.staged_subscribers && final(self)@.tokens == old(self)@.tokens
                    + transaction@.staged_tokens,
                Err(e) => transaction@.fault == Some(StorageFault::Commit) && e
                    == StorageError::CommitFailed && *final(self) == *old(self),
            },
    {
        let StorageTransaction { staged_subscribers, staged_tokens, fault } = transaction;
        let ghost staged_subscribers_ghost = staged_subscribers@;
        let ghost staged_tokens_ghost = staged_tokens@;
        match fault {
            Some(StorageFault::Commit) => Err(StorageError::CommitFailed),
            _ => {
                let mut staged_subscribers = staged_subscribers;
                let mut staged_tokens = staged_tokens;
                self.subscribers.append(&mut staged_subscribers);
                self.tokens.append(&mut staged_tokens);
                proof {
                    lemma_subscriber_rows_view_add(
                        old(self).subscribers@,
                        staged_subscribers_ghost,
                    );
                    lemma_token_rows_view_add(old(self).tokens@, staged_tokens_ghost);
                }
                Ok(())
            },
        }
    }

    /// The subscriber id stored for a token, if any.
    pub fn lookup_token(&self, token: &str) -> (r: Option<u128>)
        ensures
            r == spec_lookup_token(self@.tokens, token@),
    {
        let n = self.tokens.len();
        let mut i: usize = 0;
        proof {
            assert(self@.tokens.skip(0) =~= self@.tokens);
        }
        while i < n
            invariant
                i <= n,
                n == self.tokens@.len(),
                spec_lookup_token(self@.tokens.skip(i as int), token@) == spec_lookup_token(
                    self@.tokens,
                    token@,
                ),
            decreases n - i,
        {
            let row = &self.tokens[i];
            if str_eq(row.token.as_str(), token) {
                return Some(row.subscriber_id);
            }
            proof {
                assert(self@.tokens.skip(i as int)[0] == self@.tokens[i as int]);
                assert(self@.tokens.skip(i as int).skip(1) =~= self@.tokens.skip(i + 1));
            }
            i += 1;
        }
        proof {
            assert(self@.tokens.skip(n as int) =~= Seq::<TokenRowView>::empty());
        }
        None
    }

    /// Moves every subscriber row with the given id to the given status; a
    /// single-row update when ids are unique.
    pub fn set_status(&mut self, id: u128, status: SubscriberStatus)
        ensures
            final(self)@.subscribers == spec_set_status(old(self)@.subscribers, id, status),
            final(self)@.tokens == old(self)@.tokens,
            final(self).fault == old(self).fault,
    {
        let n = self.subscribers.len();
        let mut updated: Vec<SubscriberRow> = Vec::new();
        let mut i: usize = 0;
        while i < n
            invariant
                i <= n,
                n == self.subscribers@.len(),
                *self == *old(self),
                updated@.len() == i,
                forall|j: int|
                    0 <= j < i ==> updated@[j]@ == spec_set_status(
                        old(self)@.subscribers,
                        id,
                        status,
                    )[j],
            decreases n - i,
        {
            let row = &self.subscribers[i];
            let new_status = if row.id == id {
                status
            } else {
                row.status
            };
            let new_row = SubscriberRow {
                id: row.id,
                email: row.email.clone(),
                name: row.name.clone(),
                subscribed_at_millis: row.subscribed_at_millis,
                status: new_status,
            };
            updated.push(new_row);
            i += 1;
        }
        self.subscribers = updated;
        proof {
            assert(self@.subscribers =~= spec_set_status(old(self)@.subscribers, id, status));
        }
    }
}

impl StorageTransaction {
    /// Runs the insert of a subscriber row inside the transaction.
    pub fn execute_insert_subscriber(&mut self, row: SubscriberRow) -> (r: Result<
        (),
        StorageError,
    >)
        ensures
            final(self)@.fault == old(self)@.fault,
            final(self)@.staged_tokens == old(self)@.staged_tokens,
            match r {
                Ok(()) => old(self)@.fault != Some(StorageFault::SubscriberInsert) && final(self)@.staged_subscribers == old(self)@.staged_subscribers.push(row@),
                Err(e) => old(self)@.fault == Some(StorageFault::SubscriberInsert) && e
                    == StorageError::SubscriberInsertFailed && final(self)@.staged_subscribers
                    == old(self)@.staged_subscribers,
            },
    {
        match self.fault {
            Some(StorageFault::SubscriberInsert) => Err(StorageError::SubscriberInsertFailed),
            _ => {
                proof {
                    lemma_subscriber_rows_view_push(self.staged_subscribers@, row);
                }
                self.staged_subscribers.push(row);
                Ok(())
            },
        }
    }

    /// Runs the insert of a token row inside the transaction.
    pub fn execute_insert_token(&mut self, row: TokenRow) -> (r: Result<(), StorageError>)
        ensures
            final(self)@.fault == old(self)@.fault,
            final(self)@.staged_subscribers == old(self)@.staged_subscribers,
            match r {
                Ok(()) => old(self)@.fault != Some(StorageFault::TokenInsert) && final(self)@.staged_tokens == old(self)@.staged_tokens.push(row@),
                Err(e) => old(self)@.fault == Some(StorageFault::TokenInsert) && e
                    == StorageError::TokenInsertFailed && final(self)@.staged_tokens == old(self)@.staged_tokens,
            },
    {
        match self.fault {
            Some(StorageFault::TokenInsert) => Err(StorageError::TokenInsertFailed),
            _ => {
                proof {
                    lemma_token_rows_view_push(self.staged_tokens@, row);
                }
                self.staged_tokens.push(row);
                Ok(())
            },
        }
    }
}

} // verus!
