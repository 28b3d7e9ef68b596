//! Error bridge between a native computation core and a managed host
//! runtime.
//!
//! Native operations fail with a structured error value: a classified cause
//! (used here only in its rendered text form) and an optional captured
//! call-stack trace.  The host runtime observes failures only through its
//! own exception mechanism.  This crate models and verifies the one-way
//! conversion protocol: every native error becomes exactly one host
//! exception of a single distinguished kind, carrying the cause's rendered
//! text, while a captured trace is routed to a diagnostic sink and never
//! into the exception payload.

pub mod bridge;
pub mod diag;
pub mod error;
