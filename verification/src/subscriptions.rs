//! The decisions of one subscription request.
//!
//! A request is handled in two steps around a single attempt to store a
//! record. `begin_subscribe` turns the submitted form and the identifiers
//! drawn for it into the correlation context, the record to store and the
//! events that announce the attempt. `finish_subscribe` turns the outcome of
//! the attempt into the answer and the event that closes the trail. Every
//! event of a request carries that request's correlation identifier.

use vstd::prelude::*;
use vstd::string::StringExecFns;

verus! {

/// Status of the answer to a request whose record was stored.
pub const STATUS_OK: u16 = 200;

/// Status of the answer to a request whose record could not be stored.
pub const STATUS_INTERNAL_ERROR: u16 = 500;

/// How serious an event is.
#[derive(Clone, Copy, Debug, PartialEq, Eq, Structural)]
pub enum Severity {
    Info,
    Error,
}

/// The fields that a caller submits to subscribe.
#[derive(Clone, Debug)]
pub struct SubscriptionForm {
    pub email: String,
    pub name: String,
}

/// One accepted subscription, as it is stored.
#[derive(Clone, Debug)]
pub struct SubscriberRecord {
    /// The identifier drawn for this record.
    pub id: u128,
    pub email: String,
    pub name: String,
    /// The time of acceptance, in milliseconds since the Unix epoch.
    pub subscribed_at: i64,
}

/// The identifier of one request and the fields that tag its scope.
#[derive(Clone, Debug)]
pub struct CorrelationContext {
    pub request_id: u128,
    pub email: String,
    pub name: String,
}

/// One event of a request's trail.
#[derive(Clone, Debug)]
pub struct LogEvent {
    pub level: Severity,
    pub request_id: u128,
    pub message: String,
}

/// What `begin_subscribe` hands to the caller: the scope to open, the record
/// to store inside it, and the events emitted before the store is asked.
#[derive(Clone, Debug)]
pub struct Attempt {
    pub context: CorrelationContext,
    pub record: SubscriberRecord,
    pub events: Vec<LogEvent>,
}

/// The answer to a request, with the event that closes its trail.
#[derive(Clone, Debug)]
pub struct Response {
    pub status: u16,
    pub body: Vec<u8>,
    pub event: LogEvent,
}

/// A `LogEvent` with its message as a sequence of characters.
pub ghost struct EventModel {
    pub level: Severity,
    pub request_id: u128,
    pub message: Seq<char>,
}

impl View for LogEvent {
    type V = EventModel;

    open spec fn view(&self) -> EventModel {
        EventModel { level: self.level, request_id: self.request_id, message: self.message@ }
    }
}

/// Message of the event that opens a request's trail.
pub open spec fn accepted_message() -> Seq<char> {
    "Adding a new subscriber"@
}

/// Name of the nested scope in which the record is stored, and message of the
/// event emitted on entering it.
pub open spec fn saving_message() -> Seq<char> {
    "Saving new subscriber details in the database"@
}

/// Message of the event that closes the trail of a stored record.
pub open spec fn saved_message() -> Seq<char> {
    "New subscriber details have been saved"@
}

/// What precedes the store's own description in the message of the event
/// that closes the trail of a failed attempt.
pub open spec fn failure_prefix() -> Seq<char> {
    "Failed to execute query: "@
}

/// The events emitted before the store is asked.
pub open spec fn opening_events(request_id: u128) -> Seq<EventModel> {
    seq![
        EventModel { level: Severity::Info, request_id, message: accepted_message() },
        EventModel { level: Severity::Info, request_id, message: saving_message() },
    ]
}

/// The event emitted once the store has answered: a marker of success, or an
/// error that holds the store's description of the failure.
pub open spec fn closing_event(request_id: u128, outcome: Result<(), Seq<char>>) -> EventModel {
    match outcome {
        Ok(_) => EventModel { level: Severity::Info, request_id, message: saved_message() },
        Err(description) => EventModel {
            level: Severity::Error,
            request_id,
            message: failure_prefix() + description,
        },
    }
}

/// Every event of one request, in the order of emission.
pub open spec fn trail(request_id: u128, outcome: Result<(), Seq<char>>) -> Seq<EventModel> {
    opening_events(request_id).push(closing_event(request_id, outcome))
}

/// The status that answers an outcome of the store.
pub open spec fn status_of(outcome: Result<(), Seq<char>>) -> u16 {
    if outcome is Ok {
        STATUS_OK
    } else {
        STATUS_INTERNAL_ERROR
    }
}

/// The views of a vector of events.
pub open spec fn events_view(events: Seq<LogEvent>) -> Seq<EventModel> {
    Seq::new(events.len(), |i: int| events[i]@)
}

/// An outcome of the store with its description as a sequence of characters.
pub open spec fn outcome_view(outcome: Result<(), String>) -> Result<(), Seq<char>> {
    match outcome {
        Ok(_) => Ok(()),
        Err(description) => Err(description@),
    }
}

/// What `begin_subscribe` makes of a form, the two identifiers drawn for the
/// request and the time of acceptance: the context carries the correlation
/// identifier and the submitted fields, the record its own identifier, the
/// submitted fields and the time, and the events are those that precede the
/// store.
pub open spec fn begun(
    attempt: Attempt,
    form: SubscriptionForm,
    request_id: u128,
    record_id: u128,
    now: i64,
) -> bool {
    &&& attempt.context.request_id == request_id
    &&& attempt.context.email@ == form.email@
    &&& attempt.context.name@ == form.name@
    &&& attempt.record.id == record_id
    &&& attempt.record.email@ == form.email@
    &&& attempt.record.name@ == form.name@
    &&& attempt.record.subscribed_at == now
    &&& events_view(attempt.events@) == opening_events(request_id)
}

fn info_event(request_id: u128, message: &str) -> (event: LogEvent)
    ensures
        event@ == (EventModel { level: Severity::Info, request_id, message: message@ }),
{
    LogEvent { level: Severity::Info, request_id, message: String::from_str(message) }
}

/// Starts the handling of one submission. `request_id` is the correlation
/// identifier drawn for this request, `record_id` the identifier drawn for
/// the record, and `now` the time of acceptance. The context carries the
/// correlation identifier and the submitted fields; the record carries its
/// own identifier, the submitted fields and the time of acceptance; the
/// events are the two that precede the store, each with the correlation
/// identifier.
pub fn begin_subscribe(
    form: SubscriptionForm,
    request_id: u128,
    record_id: u128,
    now: i64,
) -> (attempt: Attempt)
    ensures
        begun(attempt, form, request_id, record_id, now),
{
    let context = CorrelationContext {
        request_id,
        email: form.email.clone(),
        name: form.name.clone(),
    };
    let record = SubscriberRecord {
        id: record_id,
        email: form.email,
        name: form.name,
        subscribed_at: now,
    };
    let mut events: Vec<LogEvent> = Vec::new();
    events.push(info_event(request_id, "Adding a new subscriber"));
    events.push(info_event(request_id, "Saving new subscriber details in the database"));
    assert(events_view(events@) =~= opening_events(request_id));
    Attempt { context, record, events }
}

/// Ends the handling of one submission with the store's outcome. A stored
/// record is answered with status 200 and an informational event; a failure
/// with status 500 and one error event that holds the store's description.
/// The body is empty either way, and the event carries the correlation
/// identifier of the context.
pub fn finish_subscribe(
    context: &CorrelationContext,
    outcome: Result<(), String>,
) -> (response: Response)
    ensures
        response.status == status_of(outcome_view(outcome)),
        response.body@ == Seq::<u8>::empty(),
        response.event@ == closing_event(context.request_id, outcome_view(outcome)),
{
    match outcome {
        Ok(_) => Response {
            status: STATUS_OK,
            body: Vec::new(),
            event: info_event(context.request_id, "New subscriber details have been saved"),
        },
        Err(description) => {
            let message = String::from_str("Failed to execute query: ").concat(description.as_str());
            Response {
                status: STATUS_INTERNAL_ERROR,
                body: Vec::new(),
                event: LogEvent { level: Severity::Error, request_id: context.request_id, message },
            }
        },
    }
}

/// Every event of a request's trail carries that request's correlation
/// identifier, whatever the store answered.
pub proof fn trail_is_correlated(request_id: u128, outcome: Result<(), Seq<char>>)
    ensures
        trail(request_id, outcome).len() == 3,
        forall|i: int|
            0 <= i < trail(request_id, outcome).len() ==> (#[trigger] trail(
                request_id,
                outcome,
            )[i]).request_id == request_id,
{
}

/// No event of one request's trail carries the correlation identifier of a
/// request that was given another.
pub proof fn trails_do_not_mix(
    request_id: u128,
    outcome: Result<(), Seq<char>>,
    other_id: u128,
)
    requires
        request_id != other_id,
    ensures
        forall|i: int|
            0 <= i < trail(request_id, outcome).len() ==> (#[trigger] trail(
                request_id,
                outcome,
            )[i]).request_id != other_id,
{
    trail_is_correlated(request_id, outcome);
}

/// Two submissions that were given different identifiers stay apart, even
/// with the same form: their records and contexts differ in their
/// identifiers, and no event of one carries the correlation identifier of the
/// other.
pub proof fn distinct_draws_keep_requests_apart(
    first: Attempt,
    second: Attempt,
    form: SubscriptionForm,
    first_request: u128,
    first_record: u128,
    first_now: i64,
    second_request: u128,
    second_record: u128,
    second_now: i64,
)
    requires
        begun(first, form, first_request, first_record, first_now),
        begun(second, form, second_request, second_record, second_now),
        first_request != second_request,
        first_record != second_record,
    ensures
        first.record.id != second.record.id,
        first.context.request_id != second.context.request_id,
        forall|i: int|
            0 <= i < first.events@.len() ==> (#[trigger] first.events@[i]).request_id
                != second.context.request_id,
        forall|i: int|
            0 <= i < second.events@.len() ==> (#[trigger] second.events@[i]).request_id
                != first.context.request_id,
{
    assert forall|i: int| 0 <= i < first.events@.len() implies (#[trigger] first.events@[i]).request_id
        != second.context.request_id by {
        assert(events_view(first.events@)[i] == first.events@[i]@);
        assert(events_view(first.events@).len() == first.events@.len());
        assert(opening_events(first_request).len() == 2);
        assert(i == 0 || i == 1);
        assert(opening_events(first_request)[i].request_id == first_request);
    }
    assert forall|i: int| 0 <= i < second.events@.len() implies (#[trigger] second.events@[i]).request_id
        != first.context.request_id by {
        assert(events_view(second.events@)[i] == second.events@[i]@);
        assert(events_view(second.events@).len() == second.events@.len());
        assert(opening_events(second_request).len() == 2);
        assert(i == 0 || i == 1);
        assert(opening_events(second_request)[i].request_id == second_request);
    }
}

/// A record accepted no earlier than its request began is stamped no earlier
/// than that, and its identifier is the one drawn for it, whatever the form.
pub proof fn record_is_stamped_at_acceptance(
    attempt: Attempt,
    form: SubscriptionForm,
    request_id: u128,
    record_id: u128,
    started: i64,
    now: i64,
)
    requires
        begun(attempt, form, request_id, record_id, now),
        started <= now,
    ensures
        attempt.record.subscribed_at >= started,
        attempt.record.id == record_id,
{
}

/// The events that the two steps of a request hand out are that request's
/// trail.
pub proof fn steps_emit_the_trail(
    attempt: Attempt,
    response: Response,
    outcome: Result<(), Seq<char>>,
)
    requires
        events_view(attempt.events@) == opening_events(attempt.context.request_id),
        response.event@ == closing_event(attempt.context.request_id, outcome),
    ensures
        events_view(attempt.events@).push(response.event@) == trail(
            attempt.context.request_id,
            outcome,
        ),
{
}

} // verus!
