//! A verified client library for a task-based captcha-solving service.
//!
//! The library builds typed, validated task payloads for the service's
//! many challenge families, frames them as exact JSON wire bytes,
//! classifies every response envelope into a single error taxonomy, and
//! drives the polling state machine that waits for a task's solution.
//! All network traffic is left to the embedding application: the library
//! consumes and produces plain values and verified wire bytes.

pub mod client;
pub mod error;
pub mod json;
pub mod poll;
pub mod recognition;
pub mod session;
pub mod solutions;
pub mod task;
pub mod token;
