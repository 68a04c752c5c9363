//! A fluent assertion library for test suites: matchers paired with a
//! synchronous single-shot evaluator and a polling evaluator that checks a
//! value-producing operation either *eventually* or *consistently* against a
//! matcher within a bounded timeout.
//!
//! Assertion failure is reported as an explicit `Err` carrying the matcher's
//! diagnostic message; success is an `Ok(())` return.

pub mod dsl;
