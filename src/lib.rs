//! Validation, record construction and response envelopes for a service that
//! stores people.
pub mod envelope;
pub mod handler;
pub mod json;
pub mod person;
pub mod validate;
