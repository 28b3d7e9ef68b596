//! The native side of the boundary: the error value produced by a fallible
//! core operation.
//!
//! The bridge never interprets the cause; it depends only on the cause's
//! rendered text and on the trace's capture status and rendered text, so
//! those are exactly what this model holds.

use vstd::prelude::*;

verus! {

/// Whether a call-stack trace was captured when the error was constructed.
#[derive(Clone, Copy, Debug, PartialEq, Eq, Structural)]
pub enum TraceStatus {
    /// Stack capture was not active at the error's origin.
    NotRequested,
    /// Capture was active and succeeded: a snapshot is available.
    Captured,
    /// Capture was attempted but failed: no snapshot is available.
    Unavailable,
}

/// An optional call-stack snapshot, in its rendered text form, together
/// with the status describing whether capture succeeded.
#[derive(Debug)]
pub struct Trace {
    pub status: TraceStatus,
    pub text: String,
}

impl Trace {
    /// A captured trace always has something to show: its rendered text is
    /// non-empty.
    pub open spec fn wf(&self) -> bool {
        self.status == TraceStatus::Captured ==> self.text@.len() > 0
    }

    /// A trace for an error raised while stack capture was not active.
    pub fn not_requested() -> (t: Trace)
        ensures
            t.status == TraceStatus::NotRequested,
            t.text@ == Seq::<char>::empty(),
            t.wf(),
    {
        Trace { status: TraceStatus::NotRequested, text: String::new() }
    }

    /// A successfully captured trace with the given rendered text.
    pub fn captured(text: String) -> (t: Trace)
        requires
            text@.len() > 0,
        ensures
            t.status == TraceStatus::Captured,
            t.text == text,
            t.wf(),
    {
        Trace { status: TraceStatus::Captured, text }
    }

    /// A trace for an error whose stack capture was attempted but failed.
    pub fn unavailable() -> (t: Trace)
        ensures
            t.status == TraceStatus::Unavailable,
            t.text@ == Seq::<char>::empty(),
            t.wf(),
    {
        Trace { status: TraceStatus::Unavailable, text: String::new() }
    }
}

/// The value produced by any fallible core operation: a classified cause,
/// held here in its canonical rendered text form, and an optional captured
/// call-stack trace.
///
/// Created at the point of native failure, immutable afterwards, and owned
/// by the failing call frame until the bridge consumes it.
#[derive(Debug)]
pub struct NativeError {
    /// The rendered text of the classified cause; the bridge uses nothing
    /// else of the cause.
    pub cause: String,
    pub trace: Trace,
}

impl NativeError {
    pub open spec fn wf(&self) -> bool {
        self.trace.wf()
    }

    pub fn new(cause: String, trace: Trace) -> (e: NativeError)
        ensures
            e.cause == cause,
            e.trace == trace,
            trace.wf() ==> e.wf(),
    {
        NativeError { cause, trace }
    }
}

} // verus!
