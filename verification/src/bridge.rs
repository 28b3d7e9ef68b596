//! The bridge itself: the one-way conversion from a native error to a host
//! exception, and the process-wide registration of the single exception
//! identity.

use crate::diag::DiagnosticLog;
use crate::error::NativeError;
use crate::error::TraceStatus;
use vstd::prelude::*;

verus! {

/// The single distinguished exception identity raised by the bridge,
/// registered once per embedding session under a fixed symbolic name and
/// inheriting from the host runtime's generic exception base.
#[derive(Clone, Copy, Debug, PartialEq, Eq, Structural)]
pub enum HostExceptionKind {
    WafelError,
}

/// A host-visible exception: the distinguished kind, plus the message text
/// attached at raise time.  It carries no other structure: no error code,
/// no trace, no retained native object.
#[derive(Debug)]
pub struct HostException {
    pub kind: HostExceptionKind,
    pub message: String,
}

/// The message a conversion attaches to the exception: exactly the cause's
/// rendered text, untruncated and unwrapped.
pub open spec fn spec_message(e: NativeError) -> Seq<char> {
    e.cause@
}

/// Whether a conversion emits a diagnostic payload: when and only when a
/// trace was captured at the error's origin.
pub open spec fn spec_emits(e: NativeError) -> bool {
    e.trace.status == TraceStatus::Captured
}

/// The diagnostic log after converting `e`, given the log before: the
/// captured trace text is appended, or the log is left untouched.
pub open spec fn spec_log_after(e: NativeError, log: Seq<Seq<char>>) -> Seq<Seq<char>> {
    if spec_emits(e) {
        log.push(e.trace.text@)
    } else {
        log
    }
}

/// Convert one native error into one host exception, consuming the error.
///
/// The conversion is total: every native error converts, whatever its
/// cause, and the bridge introduces no failure mode of its own.  The
/// exception's message is exactly the cause's rendered text.  When a trace
/// was captured, its text is emitted to the diagnostic sink before the
/// exception is returned; otherwise the sink is left untouched.  The trace
/// never reaches the exception payload.
pub fn convert(err: NativeError, log: &mut DiagnosticLog) -> (exc: HostException)
    ensures
        exc.kind == HostExceptionKind::WafelError,
        exc.message@ == spec_message(err),
        final(log)@ == spec_log_after(err, old(log)@),
{
    let NativeError { cause, trace } = err;
    match trace.status {
        TraceStatus::Captured => {
            log.emit(trace.text);
        },
        TraceStatus::NotRequested => {},
        TraceStatus::Unavailable => {},
    }
    HostException { kind: HostExceptionKind::WafelError, message: cause }
}

/// The process-wide registration state of the exception identity: absent
/// until the embedding session registers it, then present until teardown,
/// never unregistered and never mutated.
#[derive(Clone, Copy, Debug, PartialEq, Eq, Structural)]
pub struct ExceptionRegistry {
    pub registered: bool,
}

/// The registry after one registration step: the identity is present,
/// whether or not it already was.
pub open spec fn spec_register(r: ExceptionRegistry) -> ExceptionRegistry {
    ExceptionRegistry { registered: true }
}

impl ExceptionRegistry {
    /// The state at the start of an embedding session: nothing registered.
    pub fn new() -> (r: ExceptionRegistry)
        ensures
            r == (ExceptionRegistry { registered: false }),
    {
        ExceptionRegistry { registered: false }
    }

    /// Register the exception identity, returning it.  Registering when the
    /// identity is already present neither fails nor duplicates anything,
    /// and always yields the same identity.
    pub fn register(&mut self) -> (kind: HostExceptionKind)
        ensures
            *final(self) == spec_register(*old(self)),
            kind == HostExceptionKind::WafelError,
    {
        self.registered = true;
        HostExceptionKind::WafelError
    }

    /// Whether the identity has been registered.
    pub fn is_registered(&self) -> (b: bool)
        ensures
            b == self.registered,
    {
        self.registered
    }
}

/// Registering the exception identity twice within one process leaves the
/// registry exactly as a single registration does: reinitialization is
/// idempotent, and the identity is present either way.
pub proof fn lemma_register_idempotent(r: ExceptionRegistry)
    ensures
        spec_register(spec_register(r)) == spec_register(r),
        spec_register(r).registered,
{
}

/// Conversions of two native errors are independently paired: each
/// exception's message is its own error's rendered cause, so errors whose
/// causes render differently can never receive each other's message.
pub proof fn lemma_conversions_independent(e1: NativeError, e2: NativeError)
    ensures
        spec_message(e1) == e1.cause@,
        spec_message(e2) == e2.cause@,
        e1.cause@ != e2.cause@ ==> spec_message(e1) != spec_message(e2),
{
}

/// A conversion emits a diagnostic payload when and only when the trace was
/// captured; the payload is the trace's full rendered text, appended after
/// everything emitted before; and for a well-formed error it is non-empty.
pub proof fn lemma_diagnostic_iff_captured(e: NativeError, log: Seq<Seq<char>>)
    ensures
        spec_emits(e) <==> e.trace.status == TraceStatus::Captured,
        spec_emits(e) ==> spec_log_after(e, log) == log.push(e.trace.text@),
        !spec_emits(e) ==> spec_log_after(e, log) == log,
        e.wf() && spec_emits(e) ==> e.trace.text@.len() > 0,
{
}

} // verus!
