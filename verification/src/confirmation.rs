//! The confirmation handler.
//!
//! A visitor presents the token from their confirmation email; the handler
//! resolves it to a subscriber and marks that subscriber confirmed.  An
//! unknown token fails without touching anything.  Confirmation is a
//! monotone state transition, not a counter: presenting the same valid token
//! again succeeds and changes nothing further.

use vstd::prelude::*;
use crate::storage::{
    spec_lookup_token,
    spec_set_status,
    Storage,
    StorageView,
    SubscriberStatus,
};

verus! {

/// Confirming failed: the token resolves to no subscriber.
#[derive(Clone, Copy, PartialEq, Eq, Structural, Debug)]
pub enum ConfirmError {
    UnknownToken,
}

impl ConfirmError {
    /// The HTTP status code of the failure.
    pub fn status_code(&self) -> (c: u16)
        ensures
            c == 400,
    {
        400
    }
}

/// What confirming a token does to the store: nothing for an unknown token;
/// otherwise every row of the resolved subscriber moves to `confirmed` and
/// the token table is untouched.
pub open spec fn spec_confirm(v: StorageView, token: Seq<char>) -> StorageView {
    match spec_lookup_token(v.tokens, token) {
        None => v,
        Some(id) => StorageView {
            subscribers: spec_set_status(v.subscribers, id, SubscriberStatus::Confirmed),
            tokens: v.tokens,
        },
    }
}

/// Looks the token up and marks the corresponding subscriber confirmed.
/// Fails with `UnknownToken`, mutating nothing, exactly when the token is
/// not in the store.
pub fn confirm(token: &str, storage: &mut Storage) -> (r: Result<(), ConfirmError>)
    ensures
        final(storage)@ == spec_confirm(old(storage)@, token@),
        final(storage).fault == old(storage).fault,
        r is Ok <==> spec_lookup_token(old(storage)@.tokens, token@) is Some,
        r is Err ==> *final(storage) == *old(storage) && r == Err::<(), ConfirmError>(
            ConfirmError::UnknownToken,
        ),
{
    match storage.lookup_token(token) {
        None => Err(ConfirmError::UnknownToken),
        Some(id) => {
            storage.set_status(id, SubscriberStatus::Confirmed);
            Ok(())
        },
    }
}

/// Confirming is idempotent: after one successful confirmation the same
/// token still resolves, confirming again succeeds, it changes nothing
/// further, and the resolved subscriber's rows read `confirmed`.
pub proof fn lemma_confirm_idempotent(v: StorageView, token: Seq<char>)
    requires
        spec_lookup_token(v.tokens, token) is Some,
    ensures
        spec_lookup_token(spec_confirm(v, token).tokens, token) == spec_lookup_token(
            v.tokens,
            token,
        ),
        spec_confirm(spec_confirm(v, token), token) == spec_confirm(v, token),
        forall|i: int|
            0 <= i < spec_confirm(v, token).subscribers.len() && spec_confirm(
                v,
                token,
            ).subscribers[i].id == spec_lookup_token(v.tokens, token).unwrap() ==> spec_confirm(
                v,
                token,
            ).subscribers[i].status is Confirmed,
{
    let id = spec_lookup_token(v.tokens, token).unwrap();
    let once = spec_confirm(v, token);
    let twice = spec_confirm(once, token);
    assert(spec_set_status(
        spec_set_status(v.subscribers, id, SubscriberStatus::Confirmed),
        id,
        SubscriberStatus::Confirmed,
    ) =~= spec_set_status(v.subscribers, id, SubscriberStatus::Confirmed));
    assert(twice == once);
}

/// A subscriber's status only ever moves forward: confirming a token leaves
/// every row's status as it was or moves it to `confirmed`, and a row that
/// already reads `confirmed` stays so.
pub proof fn lemma_confirm_monotone(v: StorageView, token: Seq<char>)
    ensures
        spec_confirm(v, token).subscribers.len() == v.subscribers.len(),
        forall|i: int|
            0 <= i < v.subscribers.len() ==> (#[trigger] spec_confirm(v, token).subscribers[i].status
                == v.subscribers[i].status || spec_confirm(v, token).subscribers[i].status
                is Confirmed),
        forall|i: int|
            0 <= i < v.subscribers.len() && v.subscribers[i].status is Confirmed
                ==> (#[trigger] spec_confirm(v, token).subscribers[i].status) is Confirmed,
{
}

} // verus!
