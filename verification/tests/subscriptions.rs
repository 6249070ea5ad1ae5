use subscriber_service::subscriptions::{
    begin_subscribe, finish_subscribe, Severity, SubscriptionForm, STATUS_INTERNAL_ERROR,
    STATUS_OK,
};

fn ursula() -> SubscriptionForm {
    SubscriptionForm { email: "ursula@example.com".to_string(), name: "ursula".to_string() }
}

#[test]
fn accepted_form_is_stored_and_answered_with_200() {
    let started_at: i64 = 1_700_000_000;
    let attempt = begin_subscribe(ursula(), 0x1234_5678_9abc_def0, 42, started_at);
    assert_eq!(attempt.record.id, 42);
    assert_eq!(attempt.record.email, "ursula@example.com");
    assert_eq!(attempt.record.name, "ursula");
    assert!(attempt.record.subscribed_at >= started_at);
    assert_eq!(attempt.record.subscribed_at, started_at);

    let response = finish_subscribe(&attempt.context, Ok(()));
    assert_eq!(response.status, 200);
    assert_eq!(response.status, STATUS_OK);
    assert!(response.body.is_empty());
    assert_eq!(response.event.level, Severity::Info);
    assert_eq!(response.event.request_id, 0x1234_5678_9abc_def0);
    assert_eq!(response.event.message, "New subscriber details have been saved");
}

#[test]
fn refused_insert_is_answered_with_500_and_one_error_event() {
    let attempt = begin_subscribe(ursula(), 7, 8, 0);
    let failure = "duplicate key value violates unique constraint \"subscriptions_email_key\"";
    let response = finish_subscribe(&attempt.context, Err(failure.to_string()));
    assert_eq!(response.status, 500);
    assert_eq!(response.status, STATUS_INTERNAL_ERROR);
    assert!(response.body.is_empty());
    assert_eq!(response.event.level, Severity::Error);
    assert_eq!(response.event.request_id, 7);
    assert_eq!(
        response.event.message,
        format!("Failed to execute query: {}", failure)
    );
    assert!(attempt.events.iter().all(|event| event.level == Severity::Info));
}

#[test]
fn context_carries_the_identifier_and_the_submitted_fields() {
    let attempt = begin_subscribe(ursula(), 99, 100, -5);
    assert_eq!(attempt.context.request_id, 99);
    assert_eq!(attempt.context.email, "ursula@example.com");
    assert_eq!(attempt.context.name, "ursula");
    assert_eq!(attempt.record.subscribed_at, -5);
}

#[test]
fn opening_events_announce_the_attempt() {
    let attempt = begin_subscribe(ursula(), 3, 4, 10);
    assert_eq!(attempt.events.len(), 2);
    assert_eq!(attempt.events[0].level, Severity::Info);
    assert_eq!(attempt.events[0].message, "Adding a new subscriber");
    assert_eq!(attempt.events[1].level, Severity::Info);
    assert_eq!(attempt.events[1].message, "Saving new subscriber details in the database");
}

#[test]
fn every_event_of_a_request_carries_its_identifier() {
    let first = begin_subscribe(ursula(), 1, 10, 0);
    let second = begin_subscribe(ursula(), 2, 11, 0);
    let first_end = finish_subscribe(&first.context, Err("connection reset".to_string()));
    let second_end = finish_subscribe(&second.context, Ok(()));

    let mut first_trail = first.events.clone();
    first_trail.push(first_end.event.clone());
    let mut second_trail = second.events.clone();
    second_trail.push(second_end.event.clone());

    assert_eq!(first_trail.len(), 3);
    assert_eq!(second_trail.len(), 3);
    assert!(first_trail.iter().all(|event| event.request_id == 1));
    assert!(second_trail.iter().all(|event| event.request_id == 2));
    assert!(first_trail.iter().all(|event| event.request_id != 2));
    assert!(second_trail.iter().all(|event| event.request_id != 1));
}

#[test]
fn empty_failure_description_leaves_the_bare_prefix() {
    let attempt = begin_subscribe(ursula(), 5, 6, 0);
    let response = finish_subscribe(&attempt.context, Err(String::new()));
    assert_eq!(response.status, 500);
    assert_eq!(response.event.message, "Failed to execute query: ");
}

#[test]
fn empty_form_fields_are_passed_on_as_they_are() {
    let form = SubscriptionForm { email: String::new(), name: String::new() };
    let attempt = begin_subscribe(form, u128::MAX, 0, i64::MIN);
    assert_eq!(attempt.context.request_id, u128::MAX);
    assert_eq!(attempt.record.email, "");
    assert_eq!(attempt.record.name, "");
    assert_eq!(attempt.record.subscribed_at, i64::MIN);
}

#[test]
fn same_form_with_different_draws_gives_different_records() {
    let started_at: i64 = 1_700_000_000_000;
    let first = begin_subscribe(ursula(), 11, 21, started_at);
    let second = begin_subscribe(ursula(), 12, 22, started_at + 5);
    assert_ne!(first.record.id, second.record.id);
    assert_ne!(first.context.request_id, second.context.request_id);
    assert_eq!(first.record.email, second.record.email);
    assert_eq!(first.record.name, second.record.name);
    assert!(first.record.subscribed_at >= started_at);
    assert!(second.record.subscribed_at >= started_at);
    assert!(first.events.iter().all(|event| event.request_id != 12));
    assert!(second.events.iter().all(|event| event.request_id != 11));
}
