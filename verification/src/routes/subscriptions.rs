//! The intake of a subscription: from the submitted form to the row that is
//! stored, and from the outcome of storing it to the answer.

use crate::domain::error::ValidationError;
use crate::domain::new_subscriber::NewSubscriber;
use crate::domain::subscriber_email::is_valid_email;
use crate::domain::subscriber_name::is_valid_name;
use chrono::Utc;
use uuid::Uuid;
use vstd::prelude::*;

verus! {

/// The two fields of a subscription form, as submitted.
#[derive(Debug)]
pub struct FormData {
    name: String,
    email: String,
}

/// The texts of a form's two fields.
pub ghost struct FormFields {
    pub name: Seq<char>,
    pub email: Seq<char>,
}

impl View for FormData {
    type V = FormFields;

    closed spec fn view(&self) -> FormFields {
        FormFields { name: self.name@, email: self.email@ }
    }
}

impl FormData {
    /// The subscriber that the form converts to, or the error of the first
    /// field that fails.
    pub closed spec fn converted(self) -> Result<NewSubscriber, ValidationError> {
        NewSubscriber::converted(self.name, self.email)
    }

    /// What [`FormData::converted`] yields: an error that carries the name
    /// if the name is invalid, whatever the email address; else an error
    /// that carries the email address if that is invalid; else the
    /// subscriber with both fields unchanged.
    pub proof fn lemma_converted(self)
        ensures
            !is_valid_name(self@.name) ==> (self.converted() matches Err(e) && e is InvalidName
                && e.input() == self@.name),
            is_valid_name(self@.name) && !is_valid_email(self@.email) ==> (
            self.converted() matches Err(e) && e is InvalidEmail && e.input() == self@.email),
            is_valid_name(self@.name) && is_valid_email(self@.email) ==> (
            self.converted() matches Ok(subscriber) && subscriber.name@ == self@.name
                && subscriber.email@ == self@.email),
    {
        NewSubscriber::lemma_converted(self.name, self.email);
    }

    /// A form with the given fields.
    pub fn new(name: String, email: String) -> (form: FormData)
        ensures
            form@ == (FormFields { name: name@, email: email@ }),
    {
        FormData { name, email }
    }

    /// The submitted name.
    pub fn name(&self) -> (name: &str)
        ensures
            name@ == self@.name,
    {
        self.name.as_str()
    }

    /// The submitted email address.
    pub fn email(&self) -> (email: &str)
        ensures
            email@ == self@.email,
    {
        self.email.as_str()
    }
}

impl TryFrom<FormData> for NewSubscriber {
    type Error = ValidationError;

    /// Converts a form with [`NewSubscriber::convert`].
    fn try_from(value: FormData) -> (res: Result<NewSubscriber, ValidationError>)
        ensures
            !is_valid_name(value@.name) ==> (res matches Err(e) && e is InvalidName && e.input()
                == value@.name),
            is_valid_name(value@.name) && !is_valid_email(value@.email) ==> (res matches Err(e)
                && e is InvalidEmail && e.input() == value@.email),
            is_valid_name(value@.name) && is_valid_email(value@.email) ==> (res matches Ok(
                subscriber,
            ) && subscriber.name@ == value@.name && subscriber.email@ == value@.email),
    {
        NewSubscriber::convert(value.name, value.email)
    }
}

impl vstd::std_specs::convert::TryFromSpecImpl<FormData> for NewSubscriber {
    open spec fn obeys_try_from_spec() -> bool {
        true
    }

    open spec fn try_from_spec(value: FormData) -> Result<NewSubscriber, ValidationError> {
        value.converted()
    }
}

/// The bits of an identifier that hold its version and its variant.
pub const VERSION_AND_VARIANT: u128 = 0x0000_0000_0000_f000_c000_0000_0000_0000;

/// The version and variant bits of a random identifier: version 4, variant
/// `10`.
pub const RANDOM_IDENTIFIER: u128 = 0x0000_0000_0000_4000_8000_0000_0000_0000;

/// One second in nanoseconds.
pub const NANOSECONDS_PER_SECOND: u32 = 1_000_000_000;

/// Whether `id` is marked as a random UUID. Of its 128 bits these six are
/// fixed and the others are free.
pub open spec fn is_random_identifier(id: u128) -> bool {
    id & VERSION_AND_VARIANT == RANDOM_IDENTIFIER
}

/// A moment in UTC: whole seconds since the start of 1970 and the
/// nanoseconds into the second.
#[derive(Debug, Clone, Copy, PartialEq, Eq, Structural)]
pub struct Timestamp {
    pub seconds: i64,
    pub nanoseconds: u32,
}

impl Timestamp {
    /// Whether the nanoseconds stay within the second.
    pub open spec fn is_valid(self) -> bool {
        self.nanoseconds < NANOSECONDS_PER_SECOND
    }
}

/// Draws an identifier with `uuid::Uuid::new_v4` and hands it out as
/// `uuid::Uuid::as_u128` packs it. The value is random; whatever it is, the
/// generator has set its version to 4 and its variant to `10`.
#[verifier::external_body]
fn fresh_identifier() -> (id: u128)
    ensures
        is_random_identifier(id),
{
    Uuid::new_v4().as_u128()
}

/// Reads the clock with `chrono::Utc::now`. Whatever the moment, the clock
/// stands at or after the start of 1970 and the nanoseconds are those of a
/// `std::time::Duration`, below one second.
#[verifier::external_body]
fn current_time() -> (now: Timestamp)
    ensures
        now.seconds >= 0,
        now.is_valid(),
{
    let now = Utc::now();
    Timestamp { seconds: now.timestamp(), nanoseconds: now.timestamp_subsec_nanos() }
}

/// The state of a stored subscription.
#[derive(Debug, Clone, Copy, PartialEq, Eq, Structural)]
pub enum SubscriptionStatus {
    Pending,
    Confirmed,
}

impl SubscriptionStatus {
    /// The status as the table spells it.
    pub open spec fn text(self) -> Seq<char> {
        match self {
            SubscriptionStatus::Pending => "pending"@,
            SubscriptionStatus::Confirmed => "confirmed"@,
        }
    }

    /// The status as the table spells it.
    pub fn as_str(&self) -> (text: &'static str)
        ensures
            text@ == self.text(),
    {
        match self {
            SubscriptionStatus::Pending => "pending",
            SubscriptionStatus::Confirmed => "confirmed",
        }
    }
}

/// The statement that stores one [`SubscriptionRecord`]. Its parameters are,
/// in order, the record's identifier, email address, name and time; the
/// status it writes is [`SubscriptionStatus::Confirmed`].
pub const INSERT_SUBSCRIPTION: &'static str =
    "INSERT INTO subscriptions(id, email, name, subscribed_at, status) VALUES ($1, $2, $3, $4, 'confirmed')";

/// One row of the subscriptions table, ready to be stored. The identifier is
/// a random one, email address and name are valid, the time is a valid
/// timestamp and the status is confirmed.
#[derive(Debug)]
pub struct SubscriptionRecord {
    id: u128,
    email: String,
    name: String,
    subscribed_at: Timestamp,
    status: SubscriptionStatus,
}

/// The values of one row.
pub ghost struct SubscriptionRow {
    pub id: u128,
    pub email: Seq<char>,
    pub name: Seq<char>,
    pub subscribed_at: Timestamp,
    pub status: SubscriptionStatus,
}

impl SubscriptionRow {
    /// Whether the row holds what a stored subscription must hold: a random
    /// identifier, a valid email address and name, a valid time, and the
    /// status confirmed.
    pub open spec fn is_storable(self) -> bool {
        &&& is_random_identifier(self.id)
        &&& is_valid_email(self.email)
        &&& is_valid_name(self.name)
        &&& self.subscribed_at.is_valid()
        &&& self.status == SubscriptionStatus::Confirmed
    }

    /// Whether this is a row for `subscriber`: its email address and name,
    /// with the status confirmed.
    pub open spec fn stores(self, subscriber: NewSubscriber) -> bool {
        &&& self.email == subscriber.email@
        &&& self.name == subscriber.name@
        &&& self.status == SubscriptionStatus::Confirmed
    }
}

impl View for SubscriptionRecord {
    type V = SubscriptionRow;

    closed spec fn view(&self) -> SubscriptionRow {
        SubscriptionRow {
            id: self.id,
            email: self.email@,
            name: self.name@,
            subscribed_at: self.subscribed_at,
            status: self.status,
        }
    }
}

impl SubscriptionRecord {
    #[verifier::type_invariant]
    spec fn well_formed(self) -> bool {
        self@.is_storable()
    }

    /// The row that stores `subscriber` under `id`, made at `subscribed_at`.
    pub open spec fn row_of(
        subscriber: NewSubscriber,
        id: u128,
        subscribed_at: Timestamp,
    ) -> SubscriptionRow {
        SubscriptionRow {
            id,
            email: subscriber.email@,
            name: subscriber.name@,
            subscribed_at,
            status: SubscriptionStatus::Confirmed,
        }
    }

    /// The row for `subscriber` under the given identifier and time.
    pub fn new(subscriber: &NewSubscriber, id: u128, subscribed_at: Timestamp) -> (record:
        SubscriptionRecord)
        requires
            is_random_identifier(id),
            subscribed_at.is_valid(),
        ensures
            record@ == SubscriptionRecord::row_of(*subscriber, id, subscribed_at),
            record@.is_storable(),
    {
        SubscriptionRecord {
            id,
            email: subscriber.email.as_ref().to_owned(),
            name: subscriber.name.as_ref().to_owned(),
            subscribed_at,
            status: SubscriptionStatus::Confirmed,
        }
    }

    /// The row's identifier, a random one.
    pub fn id(&self) -> (id: u128)
        ensures
            id == self@.id,
            is_random_identifier(id),
    {
        proof {
            use_type_invariant(self);
        }
        self.id
    }

    /// The subscriber's email address, a valid one.
    pub fn email(&self) -> (email: &str)
        ensures
            email@ == self@.email,
            is_valid_email(email@),
    {
        proof {
            use_type_invariant(self);
        }
        self.email.as_str()
    }

    /// The subscriber's name, a valid one.
    pub fn name(&self) -> (name: &str)
        ensures
            name@ == self@.name,
            is_valid_name(name@),
    {
        proof {
            use_type_invariant(self);
        }
        self.name.as_str()
    }

    /// When the subscription was made, a valid timestamp.
    pub fn subscribed_at(&self) -> (at: Timestamp)
        ensures
            at == self@.subscribed_at,
            at.is_valid(),
    {
        proof {
            use_type_invariant(self);
        }
        self.subscribed_at
    }

    /// The row's status, which is confirmed.
    pub fn status(&self) -> (status: SubscriptionStatus)
        ensures
            status == self@.status,
            status == SubscriptionStatus::Confirmed,
    {
        proof {
            use_type_invariant(self);
        }
        self.status
    }
}

/// The row that stores `new_subscriber`: under an identifier drawn now and
/// owed to nothing the caller supplied, with the present time. Each call
/// draws anew, so two calls for one subscriber give two rows.
pub fn insert_subscriber(new_subscriber: &NewSubscriber) -> (record: SubscriptionRecord)
    ensures
        record@.stores(*new_subscriber),
        record@.is_storable(),
        record@.subscribed_at.seconds >= 0,
{
    let id = fresh_identifier();
    let now = current_time();
    SubscriptionRecord::new(new_subscriber, id, now)
}

/// A failure of the storage backend. The detail is for the service's own
/// log; no answer to a client carries it.
#[derive(Debug)]
pub struct StorageError {
    detail: String,
}

impl View for StorageError {
    type V = Seq<char>;

    closed spec fn view(&self) -> Seq<char> {
        self.detail@
    }
}

impl StorageError {
    /// A failure with the backend's report.
    pub fn new(detail: String) -> (error: StorageError)
        ensures
            error@ == detail@,
    {
        StorageError { detail }
    }

    /// What the backend reported, for the log.
    pub fn detail(&self) -> (detail: &str)
        ensures
            detail@ == self@,
    {
        self.detail.as_str()
    }
}

/// Why an intake ended without a stored subscription.
#[derive(Debug)]
pub enum Rejection {
    /// A field of the form was invalid; the error keeps the field for the
    /// log.
    InvalidInput(ValidationError),
    /// The backend failed to store the row.
    StorageFailed(StorageError),
}

/// The answer to a stored subscription.
pub const STATUS_OK: u16 = 200;

/// The answer to a form with an invalid field.
pub const STATUS_BAD_REQUEST: u16 = 400;

/// The answer when the backend failed.
pub const STATUS_INTERNAL_SERVER_ERROR: u16 = 500;

/// Where the intake of one form stands.
#[derive(Debug)]
pub enum IntakeState {
    /// The form has arrived.
    Received(FormData),
    /// The form is about to be converted.
    Converting(FormData),
    /// The form was valid; the row waits to be stored.
    Storing(SubscriptionRecord),
    /// The row is stored.
    Accepted,
    /// The intake has failed.
    Rejected(Rejection),
}

impl IntakeState {
    /// Whether the intake has ended.
    pub open spec fn is_terminal(self) -> bool {
        self is Accepted || self is Rejected
    }

    /// How far the intake has come.
    pub open spec fn progress(self) -> nat {
        match self {
            IntakeState::Received(_) => 0,
            IntakeState::Converting(_) => 1,
            IntakeState::Storing(_) => 2,
            IntakeState::Accepted => 3,
            IntakeState::Rejected(_) => 3,
        }
    }

    /// The transitions of the intake: a received form is converted; a valid
    /// form gives a row to store for it and an invalid one is rejected with
    /// the field that failed first; a stored row is accepted and a failed
    /// store is rejected.
    pub open spec fn steps_to(self, next: IntakeState) -> bool {
        match self {
            IntakeState::Received(form) => next matches IntakeState::Converting(same) && same
                == form,
            IntakeState::Converting(form) => match form.converted() {
                Ok(subscriber) => next matches IntakeState::Storing(record) && record@.stores(
                    subscriber,
                ) && record@.is_storable(),
                Err(e) => next matches IntakeState::Rejected(Rejection::InvalidInput(error))
                    && error == e,
            },
            IntakeState::Storing(_) => next is Accepted || next matches IntakeState::Rejected(
                Rejection::StorageFailed(_),
            ),
            IntakeState::Accepted => false,
            IntakeState::Rejected(_) => false,
        }
    }

    /// The answer that a state owes the client: 200 once accepted, 400 after
    /// an invalid form, 500 after a failed store, none before the end.
    pub open spec fn answer(self) -> Option<u16> {
        match self {
            IntakeState::Accepted => Some(STATUS_OK),
            IntakeState::Rejected(Rejection::InvalidInput(_)) => Some(STATUS_BAD_REQUEST),
            IntakeState::Rejected(Rejection::StorageFailed(_)) => Some(
                STATUS_INTERNAL_SERVER_ERROR,
            ),
            _ => None,
        }
    }

    /// Takes the next step that needs nothing from outside: a received form
    /// moves on to conversion, and conversion to storing or to rejection.
    /// A state that waits for the store, or has ended, stays as it is.
    pub fn advance(self) -> (next: IntakeState)
        ensures
            self is Received || self is Converting ==> self.steps_to(next),
            !(self is Received || self is Converting) ==> next == self,
    {
        match self {
            IntakeState::Received(form) => IntakeState::Converting(form),
            IntakeState::Converting(form) => {
                match NewSubscriber::convert(form.name, form.email) {
                    Ok(subscriber) => IntakeState::Storing(insert_subscriber(&subscriber)),
                    Err(e) => IntakeState::Rejected(Rejection::InvalidInput(e)),
                }
            },
            other => other,
        }
    }

    /// Takes the step that follows the attempt to store the row: accepted if
    /// it succeeded, rejected with the backend's failure if not. There is no
    /// second attempt. A state that does not wait for the store stays as it
    /// is.
    pub fn stored(self, outcome: Result<(), StorageError>) -> (next: IntakeState)
        ensures
            self is Storing ==> self.steps_to(next),
            self is Storing && outcome is Ok ==> next is Accepted && next.answer() == Some(
                STATUS_OK,
            ),
            self is Storing ==> (outcome matches Err(e) ==> next == IntakeState::Rejected(
                Rejection::StorageFailed(e),
            ) && next.answer() == Some(STATUS_INTERNAL_SERVER_ERROR)),
            !(self is Storing) ==> next == self,
    {
        match self {
            IntakeState::Storing(_) => match outcome {
                Ok(()) => IntakeState::Accepted,
                Err(e) => IntakeState::Rejected(Rejection::StorageFailed(e)),
            },
            other => other,
        }
    }

    /// The status code that answers the client, once the intake has ended.
    /// It says nothing of the input or of the backend's report.
    pub fn status_code(&self) -> (code: Option<u16>)
        ensures
            code == self.answer(),
            code is Some <==> self.is_terminal(),
    {
        match self {
            IntakeState::Accepted => Some(STATUS_OK),
            IntakeState::Rejected(Rejection::InvalidInput(_)) => Some(STATUS_BAD_REQUEST),
            IntakeState::Rejected(Rejection::StorageFailed(_)) => Some(
                STATUS_INTERNAL_SERVER_ERROR,
            ),
            _ => None,
        }
    }
}

/// Every step moves the intake forward, so no state is entered twice, and an
/// intake that has ended takes no further step.
pub proof fn lemma_steps_move_forward(state: IntakeState, next: IntakeState)
    requires
        state.steps_to(next),
    ensures
        state.progress() < next.progress(),
        !state.is_terminal(),
{
}

/// Takes a submitted form as far as it goes without the backend: to the row
/// that is to be stored if both fields are valid, to rejection if not.
pub fn subscribe(form: FormData) -> (state: IntakeState)
    ensures
        match form.converted() {
            Ok(subscriber) => state matches IntakeState::Storing(record) && record@.stores(
                subscriber,
            ) && record@.is_storable(),
            Err(e) => state == IntakeState::Rejected(Rejection::InvalidInput(e)),
        },
        is_valid_name(form@.name) && is_valid_email(form@.email) <==> state is Storing,
        !is_valid_name(form@.name) ==> (state matches IntakeState::Rejected(
            Rejection::InvalidInput(e),
        ) && e is InvalidName && e.input() == form@.name),
        is_valid_name(form@.name) && !is_valid_email(form@.email) ==> (
        state matches IntakeState::Rejected(Rejection::InvalidInput(e)) && e is InvalidEmail
            && e.input() == form@.email),
        state matches IntakeState::Storing(record) ==> record@.name == form@.name
            && record@.email == form@.email,
        state is Storing || state.answer() == Some(STATUS_BAD_REQUEST),
{
    proof {
        form.lemma_converted();
    }
    IntakeState::Received(form).advance().advance()
}

} // verus!
