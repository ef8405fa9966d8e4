use std::time::{SystemTime, UNIX_EPOCH};
use zero2prod::domain::{NewSubscriber, ValidationError};
use zero2prod::routes::subscriptions::{
    INSERT_SUBSCRIPTION, NANOSECONDS_PER_SECOND, RANDOM_IDENTIFIER, STATUS_BAD_REQUEST,
    STATUS_INTERNAL_SERVER_ERROR, STATUS_OK, VERSION_AND_VARIANT,
};
use zero2prod::routes::{
    insert_subscriber, subscribe, FormData, IntakeState, Rejection, StorageError,
    SubscriptionRecord, SubscriptionStatus, Timestamp,
};

fn form(name: &str, email: &str) -> FormData {
    FormData::new(name.to_string(), email.to_string())
}

fn subscriber() -> NewSubscriber {
    NewSubscriber::convert("Kristofers Solo".to_string(), "dev@kristofers.solo".to_string())
        .unwrap()
}

fn seconds_now() -> i64 {
    SystemTime::now().duration_since(UNIX_EPOCH).unwrap().as_secs() as i64
}

#[test]
fn subscriptions_subscribe_returns_200_for_valid_form_data() {
    // name=Kristofers%20Solo&email=dev%40kristofers.solo, decoded
    let state = subscribe(form("Kristofers Solo", "dev@kristofers.solo"));
    let record = match &state {
        IntakeState::Storing(record) => record,
        other => panic!("the form was not taken to storing: {:?}", other),
    };
    assert_eq!(record.name(), "Kristofers Solo");
    assert_eq!(record.email(), "dev@kristofers.solo");
    assert_eq!(state.status_code(), None);

    let state = state.stored(Ok(()));
    assert_eq!(state.status_code(), Some(200));
}

#[test]
fn subscriptions_subscribe_returns_400_when_fields_are_present_but_invalid() {
    let test_cases = vec![
        // name=&email=dev%40kristofers.solo
        (form("", "dev@kristofers.solo"), "empty name"),
        // name=kristofers%20solo&email=
        (form("kristofers solo", ""), "empty email"),
        // name=solo&email=definetely-not-an-email
        (form("solo", "definetely-not-an-email"), "invalid email"),
    ];
    for (body, description) in test_cases {
        let state = subscribe(body);
        assert_eq!(
            Some(400),
            state.status_code(),
            "The API did not return 400 Bad Request when the payload was {}.",
            description
        );
    }
}

#[test]
fn a_failed_store_is_answered_with_500_and_nothing_else() {
    let state = subscribe(form("Kristofers Solo", "dev@kristofers.solo"));
    let failure = StorageError::new("connection refused (os error 111)".to_string());
    let state = state.stored(Err(failure));
    assert_eq!(state.status_code(), Some(500));
    match state {
        IntakeState::Rejected(Rejection::StorageFailed(error)) => {
            assert_eq!(error.detail(), "connection refused (os error 111)")
        }
        other => panic!("the failure was not kept: {:?}", other),
    }
}

#[test]
fn a_rejected_form_keeps_the_field_that_failed_first() {
    match subscribe(form("<Kristofers>", "nope")) {
        IntakeState::Rejected(Rejection::InvalidInput(error)) => {
            assert_eq!(error, ValidationError::InvalidName("<Kristofers>".to_string()))
        }
        other => panic!("the form was not rejected: {:?}", other),
    }
    match subscribe(form("Kristofers", "nope")) {
        IntakeState::Rejected(Rejection::InvalidInput(error)) => {
            assert_eq!(error, ValidationError::InvalidEmail("nope".to_string()))
        }
        other => panic!("the form was not rejected: {:?}", other),
    }
}

#[test]
fn the_intake_goes_step_by_step() {
    let state = IntakeState::Received(form("Kristofers Solo", "dev@kristofers.solo"));
    assert_eq!(state.status_code(), None);
    let state = state.advance();
    assert!(matches!(state, IntakeState::Converting(_)));
    assert_eq!(state.status_code(), None);
    let state = state.advance();
    assert!(matches!(state, IntakeState::Storing(_)));
    // Waiting for the store, the intake does not move by itself.
    let state = state.advance();
    assert!(matches!(state, IntakeState::Storing(_)));
    let state = state.stored(Ok(()));
    assert!(matches!(state, IntakeState::Accepted));
}

#[test]
fn an_intake_that_has_ended_stays_as_it_is() {
    let accepted = IntakeState::Accepted;
    let accepted = accepted.advance();
    assert!(matches!(accepted, IntakeState::Accepted));
    let accepted = accepted.stored(Err(StorageError::new("late".to_string())));
    assert_eq!(accepted.status_code(), Some(200));

    let rejected = subscribe(form("", ""));
    let rejected = rejected.stored(Ok(()));
    assert_eq!(rejected.status_code(), Some(400));
    let rejected = rejected.advance();
    assert_eq!(rejected.status_code(), Some(400));
}

#[test]
fn the_outcome_of_storing_is_ignored_before_there_is_a_row() {
    let state = IntakeState::Received(form("Kristofers Solo", "dev@kristofers.solo"));
    let state = state.stored(Ok(()));
    assert!(matches!(state, IntakeState::Received(_)));
    let state = state.advance().stored(Err(StorageError::new("early".to_string())));
    assert!(matches!(state, IntakeState::Converting(_)));
}

#[test]
fn the_status_codes_are_200_400_and_500() {
    assert_eq!(STATUS_OK, 200);
    assert_eq!(STATUS_BAD_REQUEST, 400);
    assert_eq!(STATUS_INTERNAL_SERVER_ERROR, 500);
}

#[test]
fn a_row_holds_the_subscriber_a_random_identifier_and_the_present_time() {
    let before = seconds_now();
    let record = insert_subscriber(&subscriber());
    let after = seconds_now();

    assert_eq!(record.name(), "Kristofers Solo");
    assert_eq!(record.email(), "dev@kristofers.solo");
    assert_eq!(record.status(), SubscriptionStatus::Confirmed);
    // version 4, variant 10
    assert_eq!(record.id() & VERSION_AND_VARIANT, RANDOM_IDENTIFIER);
    assert_eq!((record.id() >> 76) & 0xf, 4);
    assert_eq!((record.id() >> 62) & 0x3, 2);
    let at = record.subscribed_at();
    assert!(before <= at.seconds && at.seconds <= after);
    assert!(at.nanoseconds < NANOSECONDS_PER_SECOND);
}

#[test]
fn two_rows_for_one_subscriber_have_two_identifiers() {
    let subscriber = subscriber();
    let first = insert_subscriber(&subscriber);
    let second = insert_subscriber(&subscriber);
    assert_ne!(first.id(), second.id());
    assert_eq!(first.email(), second.email());
    assert_eq!(first.name(), second.name());
}

#[test]
fn a_row_can_be_made_for_a_given_identifier_and_time() {
    let id = 0x67e55044_10b1_426f_9247_bb680e5fe0c8u128;
    let at = Timestamp { seconds: 1_700_000_000, nanoseconds: 999_999_999 };
    let record = SubscriptionRecord::new(&subscriber(), id, at);
    assert_eq!(record.id(), id);
    assert_eq!(record.subscribed_at(), at);
    assert_eq!(record.name(), "Kristofers Solo");
    assert_eq!(record.email(), "dev@kristofers.solo");
    assert_eq!(record.status(), SubscriptionStatus::Confirmed);
}

#[test]
fn the_statement_inserts_one_confirmed_row() {
    assert_eq!(
        INSERT_SUBSCRIPTION,
        "INSERT INTO subscriptions(id, email, name, subscribed_at, status) VALUES ($1, $2, $3, $4, 'confirmed')"
    );
    assert_eq!(SubscriptionStatus::Confirmed.as_str(), "confirmed");
    assert_eq!(SubscriptionStatus::Pending.as_str(), "pending");
    assert!(INSERT_SUBSCRIPTION.contains(&format!("'{}'", SubscriptionStatus::Confirmed.as_str())));
}
