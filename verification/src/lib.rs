//! Request-scoped observability for a small subscription service: the
//! composition and one-shot installation of a structured logging pipeline,
//! and the decisions that a subscription request takes between its arrival
//! and its answer.

pub mod directive;
pub mod subscriptions;
pub mod telemetry;
