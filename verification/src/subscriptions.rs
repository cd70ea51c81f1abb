//! The subscription registration workflow.
//!
//! `register` is the transaction manager: inside one storage transaction it
//! inserts the subscriber row (status `pending_confirmation`, fresh id) and
//! the confirmation-token row, commits, and only then hands the confirmation
//! email to the mailer.  The two rows become observable together or not at
//! all; a mail failure is reported but never rolls the committed rows back.
//! `subscribe` is the route-level flow: validate the form, register, and map
//! errors to the HTTP-facing [`SubscribeError`].

use vstd::prelude::*;
use vstd::string::StringExecFns;
use crate::configuration::ApplicationBaseUrl;
use crate::domain::{NewSubscriber, SubscriberEmail, SubscriberName};
use crate::domain::{is_valid_email, is_valid_subscriber_name};
use crate::email::{EmailSender, EmailView, SendError};
use crate::storage::{
    spec_storage_description,
    Storage,
    StorageError,
    StorageFault,
    StorageTransaction,
    StorageView,
    SubscriberRow,
    SubscriberRowView,
    SubscriberStatus,
    TokenRow,
    TokenRowView,
};
use crate::token::{generate_subscription_token, is_subscription_token};

verus! {

/// Why a registration failed, one variant per stage of the workflow.
#[derive(Debug)]
pub enum RegistrationError {
    /// The form did not yield a valid subscriber; nothing was attempted.
    Validation(String),
    /// The transactional write failed and was rolled back in full.
    Storage(StorageError),
    /// The rows are committed, only the confirmation email did not go out.
    EmailDeliveryFailed(SendError),
}

/// The route-level error of `POST /subscriptions`, carrying the status code
/// the client sees.
#[derive(Debug)]
pub enum SubscribeError {
    ValidationError(String),
    UnexpectedError(String),
}

/// A database failure while storing a subscription token.
#[derive(Clone, Copy, PartialEq, Eq, Structural, Debug)]
pub struct StoreTokenError(pub StorageError);

/// The fields of the subscription form.
pub struct FormData {
    pub email: String,
    pub name: String,
}

impl SubscribeError {
    /// The HTTP status code of the failure: bad input is the client's
    /// mistake, anything else is the server's.
    pub fn status_code(&self) -> (c: u16)
        ensures
            self is ValidationError ==> c == 400,
            self is UnexpectedError ==> c == 500,
    {
        match self {
            SubscribeError::ValidationError(_) => 400,
            SubscribeError::UnexpectedError(_) => 500,
        }
    }

    /// The message shown for the failure.
    pub fn message(&self) -> (r: &str)
        ensures
            (match self {
                SubscribeError::ValidationError(m) => r@ == m@,
                SubscribeError::UnexpectedError(m) => r@ == m@,
            }),
    {
        match self {
            SubscribeError::ValidationError(m) => m.as_str(),
            SubscribeError::UnexpectedError(m) => m.as_str(),
        }
    }

    /// The mapping from workflow errors to the route-level error.
    pub fn from_registration(e: RegistrationError) -> (r: SubscribeError)
        ensures
            (match e {
                RegistrationError::Validation(m) => r matches SubscribeError::ValidationError(m2)
                    && m2@ == m@,
                RegistrationError::Storage(se) => r matches SubscribeError::UnexpectedError(m2)
                    && m2@ == spec_storage_description(se),
                RegistrationError::EmailDeliveryFailed(_) => r matches
                    SubscribeError::UnexpectedError(m2) && m2@
                    == "Failed to send a confirmation email."@,
            }),
    {
        match e {
            RegistrationError::Validation(m) => SubscribeError::ValidationError(m),
            RegistrationError::Storage(se) => SubscribeError::UnexpectedError(
                String::from_str(se.description()),
            ),
            RegistrationError::EmailDeliveryFailed(_) => SubscribeError::UnexpectedError(
                String::from_str("Failed to send a confirmation email."),
            ),
        }
    }
}

/// An error report: the top-level message, then each cause on its own
/// "Caused by" line, outermost first.
pub open spec fn spec_error_chain(top: Seq<char>, causes: Seq<Seq<char>>) -> Seq<char>
    decreases causes.len(),
{
    if causes.len() == 0 {
        top + "\n\n"@
    } else {
        spec_error_chain(top, causes.drop_last()) + "Caused by:\n\t"@ + causes.last() + "\n"@
    }
}

/// The views of a sequence of cause messages.
pub open spec fn spec_causes_view(causes: Seq<String>) -> Seq<Seq<char>> {
    causes.map_values(|c: String| c@)
}

/// Renders an error and its chain of causes, outermost cause first, in the
/// layout the service logs: the message, a blank line, then one indented
/// "Caused by" line per cause.
pub fn error_chain_fmt(error: &str, causes: &Vec<String>) -> (r: String)
    ensures
        r@ == spec_error_chain(error@, spec_causes_view(causes@)),
{
    let mut out = String::from_str(error).concat("\n\n");
    let n = causes.len();
    let mut i: usize = 0;
    proof {
        assert(spec_causes_view(causes@).take(0) =~= Seq::<Seq<char>>::empty());
    }
    while i < n
        invariant
            i <= n,
            n == causes@.len(),
            out@ == spec_error_chain(error@, spec_causes_view(causes@).take(i as int)),
        decreases n - i,
    {
        out = out.concat("Caused by:\n\t").concat(causes[i].as_str()).concat("\n");
        proof {
            let cv = spec_causes_view(causes@);
            assert(cv.take(i + 1).drop_last() =~= cv.take(i as int));
            assert(cv.take(i + 1).last() == causes@[i as int]@);
        }
        i += 1;
    }
    proof {
        assert(spec_causes_view(causes@).take(n as int) =~= spec_causes_view(causes@));
    }
    out
}

/// The confirmation link formed against the application's base URL.
pub open spec fn spec_confirmation_link(base_url: Seq<char>, token: Seq<char>) -> Seq<char> {
    base_url + "/subscriptions/confirm?subscription_token="@ + token
}

/// The plain-text body of the confirmation email.
pub open spec fn spec_text_body(link: Seq<char>) -> Seq<char> {
    "Welcome to our newsletter!\nVisit "@ + link + " to confirm your subscription."@
}

/// The HTML body of the confirmation email.
pub open spec fn spec_html_body(link: Seq<char>) -> Seq<char> {
    "Welcome to our newsletter!<br />Click <a href=\""@ + link
        + "\">here</a> to confirm your subscription."@
}

/// The confirmation email sent to a new subscriber.
pub open spec fn spec_confirmation_email(
    recipient: Seq<char>,
    base_url: Seq<char>,
    token: Seq<char>,
) -> EmailView {
    EmailView {
        recipient,
        subject: "welcome title"@,
        html: spec_html_body(spec_confirmation_link(base_url, token)),
        text: spec_text_body(spec_confirmation_link(base_url, token)),
    }
}

/// What a successful registration does to the store, and nothing else: one
/// new subscriber row in `pending_confirmation` carrying the validated
/// fields, and one new token row referencing exactly that subscriber, with
/// a well-formed confirmation token.  All earlier rows are untouched:
/// never a subscriber row without its token row or the other way round.
pub open spec fn spec_registration_effect(
    old_v: StorageView,
    new_v: StorageView,
    email: Seq<char>,
    name: Seq<char>,
) -> bool {
    &&& new_v.subscribers.len() == old_v.subscribers.len() + 1
    &&& new_v.tokens.len() == old_v.tokens.len() + 1
    &&& new_v.subscribers == old_v.subscribers.push(new_v.subscribers.last())
    &&& new_v.tokens == old_v.tokens.push(new_v.tokens.last())
    &&& new_v.subscribers.last().email == email
    &&& new_v.subscribers.last().name == name
    &&& new_v.subscribers.last().status == SubscriberStatus::PendingConfirmation
    &&& new_v.tokens.last().subscriber_id == new_v.subscribers.last().id
    &&& is_subscription_token(new_v.tokens.last().token)
}

/// Relies on uuid's `Uuid::new_v4`: a fresh random version-4 UUID from the
/// process's secure source, carried as its 128-bit value.  Nothing can be
/// promised of which value comes back.
#[verifier::external_body]
fn fresh_subscriber_id() -> (id: u128) {
    uuid::Uuid::new_v4().as_u128()
}

/// Relies on chrono's `Utc::now`: the current wall-clock time in
/// milliseconds since the Unix epoch.  The result depends on the clock, so
/// nothing is promised of it.
#[verifier::external_body]
fn now_millis() -> (t: i64) {
    chrono::Utc::now().timestamp_millis()
}

/// Validates the form fields into a `NewSubscriber`, the only way a
/// subscriber enters the write path.
pub fn parse_subscriber(form: FormData) -> (r: Result<NewSubscriber, String>)
    ensures
        r is Ok <==> is_valid_subscriber_name(form.name@) && is_valid_email(form.email@),
        (match r {
            Ok(ns) => ns.name@ == form.name@ && ns.email@ == form.email@,
            Err(m) => m@ == (if !is_valid_subscriber_name(form.name@) {
                form.name@ + " is not a valid subscriber name."@
            } else {
                form.email@ + " is not a valid subscriber email."@
            }),
        }),
{
    let name = match SubscriberName::parse(form.name) {
        Ok(n) => n,
        Err(e) => return Err(e),
    };
    let email = match SubscriberEmail::parse(form.email) {
        Ok(e) => e,
        Err(e) => return Err(e),
    };
    Ok(NewSubscriber { email, name })
}

/// Stages the insert of the subscriber row: a fresh id, the validated name
/// and address, the current time, status `pending_confirmation`.
pub fn insert_subscriber(
    transaction: &mut StorageTransaction,
    new_subscriber: &NewSubscriber,
) -> (r: Result<u128, StorageError>)
    ensures
        final(transaction)@.fault == old(transaction)@.fault,
        final(transaction)@.staged_tokens == old(transaction)@.staged_tokens,
        r is Ok ==> old(transaction)@.fault != Some(StorageFault::SubscriberInsert),
        (match r {
            Ok(id) => final(transaction)@.staged_subscribers == old(transaction)@.staged_subscribers.push(final(transaction)@.staged_subscribers.last()) && final(transaction)@.staged_subscribers.last() == (SubscriberRowView {
                id,
                email: new_subscriber.email@,
                name: new_subscriber.name@,
                subscribed_at_millis: final(transaction)@.staged_subscribers.last().subscribed_at_millis,
                status: SubscriberStatus::PendingConfirmation,
            }),
            Err(e) => old(transaction)@.fault == Some(StorageFault::SubscriberInsert) && e
                == StorageError::SubscriberInsertFailed && final(transaction)@.staged_subscribers
                == old(transaction)@.staged_subscribers,
        }),
{
    let subscriber_id = fresh_subscriber_id();
    let subscribed_at_millis = now_millis();
    let row = SubscriberRow {
        id: subscriber_id,
        email: String::from_str(new_subscriber.email.as_ref()),
        name: String::from_str(new_subscriber.name.as_ref()),
        subscribed_at_millis,
        status: SubscriberStatus::PendingConfirmation,
    };
    match transaction.execute_insert_subscriber(row) {
        Ok(()) => Ok(subscriber_id),
        Err(e) => Err(e),
    }
}

/// Stages the insert of the token row referencing the new subscriber.
pub fn store_token(
    transaction: &mut StorageTransaction,
    subscriber_id: u128,
    subscription_token: &str,
) -> (r: Result<(), StoreTokenError>)
    ensures
        final(transaction)@.fault == old(transaction)@.fault,
        final(transaction)@.staged_subscribers == old(transaction)@.staged_subscribers,
        (match r {
            Ok(()) => old(transaction)@.fault != Some(StorageFault::TokenInsert) && final(transaction)@.staged_tokens == old(transaction)@.staged_tokens.push(
                (TokenRowView { token: subscription_token@, subscriber_id }),
            ),
            Err(e) => old(transaction)@.fault == Some(StorageFault::TokenInsert) && e
                == StoreTokenError(StorageError::TokenInsertFailed) && final(transaction)@.staged_tokens == old(transaction)@.staged_tokens,
        }),
{
    let row = TokenRow { token: String::from_str(subscription_token), subscriber_id };
    match transaction.execute_insert_token(row) {
        Ok(()) => Ok(()),
        Err(e) => Err(StoreTokenError(e)),
    }
}

/// Builds the confirmation link and both bodies, and hands the email to the
/// mailer.
pub fn send_confirmation_email<M: EmailSender>(
    email_client: &mut M,
    new_subscriber: &NewSubscriber,
    base_url: &str,
    subscription_token: &str,
) -> (r: Result<(), SendError>)
    ensures
        r is Ok ==> final(email_client).sent() == old(email_client).sent().push(
            spec_confirmation_email(new_subscriber.email@, base_url@, subscription_token@),
        ),
        r is Err ==> final(email_client).sent() == old(email_client).sent(),
{
    let confirmation_link = String::from_str(base_url).concat(
        "/subscriptions/confirm?subscription_token=",
    ).concat(subscription_token);
    let plain_body = String::from_str("Welcome to our newsletter!\nVisit ").concat(
        confirmation_link.as_str(),
    ).concat(" to confirm your subscription.");
    let html_body = String::from_str("Welcome to our newsletter!<br />Click <a href=\"").concat(
        confirmation_link.as_str(),
    ).concat("\">here</a> to confirm your subscription.");
    email_client.send(
        &new_subscriber.email,
        "welcome title",
        html_body.as_str(),
        plain_body.as_str(),
    )
}

/// The subscription transaction manager.  Within one transaction the
/// subscriber row and its token row are staged and committed together: on
/// any storage failure the store is left exactly as it was (atomicity),
/// never one row without the other.  Only after the commit is the
/// confirmation email handed to the mailer; a mail failure leaves the
/// committed rows in place.
pub fn register<M: EmailSender>(
    new_subscriber: NewSubscriber,
    storage: &mut Storage,
    mailer: &mut M,
    base_url: &str,
) -> (r: Result<(), RegistrationError>)
    ensures
        final(storage).fault == old(storage).fault,
        (match old(storage).fault {
            Some(StorageFault::SubscriberInsert) => r matches Err(RegistrationError::Storage(e))
                && e == StorageError::SubscriberInsertFailed,
            Some(StorageFault::TokenInsert) => r matches Err(RegistrationError::Storage(e)) && e
                == StorageError::TokenInsertFailed,
            Some(StorageFault::Commit) => r matches Err(RegistrationError::Storage(e)) && e
                == StorageError::CommitFailed,
            None => r is Ok || r matches Err(RegistrationError::EmailDeliveryFailed(_)),
        }),
        (match r {
            Ok(()) => spec_registration_effect(
                old(storage)@,
                final(storage)@,
                new_subscriber.email@,
                new_subscriber.name@,
            ) && final(mailer).sent() == old(mailer).sent().push(
                spec_confirmation_email(
                    new_subscriber.email@,
                    base_url@,
                    final(storage)@.tokens.last().token,
                ),
            ),
            Err(RegistrationError::Storage(_)) => final(storage)@.subscribers == old(storage)@.subscribers && final(storage)@.tokens == old(storage)@.tokens && final(mailer).sent() == old(mailer).sent(),
            Err(RegistrationError::EmailDeliveryFailed(_)) => spec_registration_effect(
                old(storage)@,
                final(storage)@,
                new_subscriber.email@,
                new_subscriber.name@,
            ) && final(mailer).sent() == old(mailer).sent(),
            Err(RegistrationError::Validation(_)) => false,
        }),
{
    let mut transaction = storage.begin();
    let subscriber_id = match insert_subscriber(&mut transaction, &new_subscriber) {
        Ok(id) => id,
        Err(e) => {
            return Err(RegistrationError::Storage(e));
        },
    };
    let subscription_token = generate_subscription_token();
    match store_token(&mut transaction, subscriber_id, subscription_token.as_str()) {
        Ok(()) => (),
        Err(StoreTokenError(e)) => {
            return Err(RegistrationError::Storage(e));
        },
    }
    let ghost staged = transaction@;
    match storage.commit(transaction) {
        Ok(()) => (),
        Err(e) => {
            return Err(RegistrationError::Storage(e));
        },
    }
    proof {
        assert(storage@.subscribers =~= old(storage)@.subscribers.push(
            staged.staged_subscribers.last(),
        ));
        assert(storage@.tokens =~= old(storage)@.tokens.push(staged.staged_tokens.last()));
        assert(storage@.subscribers.last() == staged.staged_subscribers.last());
        assert(storage@.tokens.last() == staged.staged_tokens.last());
        assert(storage@.tokens.last().token == subscription_token@);
        assert(spec_registration_effect(
            old(storage)@,
            storage@,
            new_subscriber.email@,
            new_subscriber.name@,
        ));
    }
    match send_confirmation_email(mailer, &new_subscriber, base_url, subscription_token.as_str()) {
        Ok(()) => Ok(()),
        Err(e) => Err(RegistrationError::EmailDeliveryFailed(e)),
    }
}

/// The route-level subscription flow: validate, register, map the error.
/// A bad form never reaches storage; a storage failure changes nothing; on
/// success exactly one pending subscriber row, one token row and one
/// confirmation email carrying that token are added.
pub fn subscribe<M: EmailSender>(
    form: FormData,
    storage: &mut Storage,
    mailer: &mut M,
    base_url: &ApplicationBaseUrl,
) -> (r: Result<(), SubscribeError>)
    ensures
        final(storage).fault == old(storage).fault,
        (r matches Err(SubscribeError::ValidationError(_))) <==> !(is_valid_subscriber_name(
            form.name@,
        ) && is_valid_email(form.email@)),
        !(is_valid_subscriber_name(form.name@) && is_valid_email(form.email@)) ==> final(storage)@.subscribers == old(storage)@.subscribers && final(storage)@.tokens == old(storage)@.tokens && final(mailer).sent() == old(mailer).sent(),
        is_valid_subscriber_name(form.name@) && is_valid_email(form.email@) && old(storage).fault is Some ==> (r matches Err(SubscribeError::UnexpectedError(_))) && final(storage)@.subscribers == old(storage)@.subscribers && final(storage)@.tokens == old(storage)@.tokens && final(mailer).sent() == old(mailer).sent(),
        is_valid_subscriber_name(form.name@) && is_valid_email(form.email@) && old(storage).fault is None ==> spec_registration_effect(
            old(storage)@,
            final(storage)@,
            form.email@,
            form.name@,
        ) && (r is Ok ==> final(mailer).sent() == old(mailer).sent().push(
            spec_confirmation_email(form.email@, base_url.0@, final(storage)@.tokens.last().token),
        )) && (r is Err ==> (r matches Err(SubscribeError::UnexpectedError(_))) && final(mailer).sent() == old(mailer).sent()),
{
    let new_subscriber = match parse_subscriber(form) {
        Ok(ns) => ns,
        Err(e) => {
            return Err(SubscribeError::ValidationError(e));
        },
    };
    match register(new_subscriber, storage, mailer, base_url.0.as_str()) {
        Ok(()) => Ok(()),
        Err(e) => Err(SubscribeError::from_registration(e)),
    }
}

} // verus!
