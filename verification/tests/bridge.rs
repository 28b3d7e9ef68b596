use wafel_bridge::bridge::convert;
use wafel_bridge::bridge::ExceptionRegistry;
use wafel_bridge::bridge::HostExceptionKind;
use wafel_bridge::diag::DiagnosticLog;
use wafel_bridge::error::NativeError;
use wafel_bridge::error::Trace;
use wafel_bridge::error::TraceStatus;

#[test]
fn scenario_file_not_found_no_trace() {
    let mut log = DiagnosticLog::new();
    let e = NativeError::new("file not found: save.m64".to_string(), Trace::not_requested());
    let exc = convert(e, &mut log);
    assert_eq!(exc.kind, HostExceptionKind::WafelError);
    assert_eq!(exc.message, "file not found: save.m64");
    assert!(log.is_empty());
}

#[test]
fn scenario_invalid_frame_index_captured() {
    let trace_text = "frame 0: decode_frame\nframe 1: run_op\nframe 2: main_loop".to_string();
    let mut log = DiagnosticLog::new();
    let e = NativeError::new(
        "invalid frame index: -1".to_string(),
        Trace::captured(trace_text.clone()),
    );
    let exc = convert(e, &mut log);
    assert_eq!(log.len(), 1);
    assert_eq!(log.entry(0), &trace_text);
    assert_eq!(exc.kind, HostExceptionKind::WafelError);
    assert_eq!(exc.message, "invalid frame index: -1");
    assert!(!exc.message.contains("frame 0"));
}

#[test]
fn scenario_unavailable_like_not_requested() {
    let mut log_unavailable = DiagnosticLog::new();
    let e1 = NativeError::new("emulator halted".to_string(), Trace::unavailable());
    let exc1 = convert(e1, &mut log_unavailable);

    let mut log_not_requested = DiagnosticLog::new();
    let e2 = NativeError::new("emulator halted".to_string(), Trace::not_requested());
    let exc2 = convert(e2, &mut log_not_requested);

    assert!(log_unavailable.is_empty());
    assert!(log_not_requested.is_empty());
    assert_eq!(exc1.kind, exc2.kind);
    assert_eq!(exc1.message, exc2.message);
}

#[test]
fn every_cause_same_kind() {
    let causes = vec![
        "file not found: save.m64",
        "invalid frame index: -1",
        "memory read out of bounds",
        "",
    ];
    for cause in causes {
        let mut log = DiagnosticLog::new();
        let e = NativeError::new(cause.to_string(), Trace::not_requested());
        let exc = convert(e, &mut log);
        assert_eq!(exc.kind, HostExceptionKind::WafelError);
        assert_eq!(exc.message, cause);
    }
}

#[test]
fn diagnostic_iff_captured() {
    let mut log = DiagnosticLog::new();

    let captured = NativeError::new(
        "bad state".to_string(),
        Trace::captured("capture site".to_string()),
    );
    convert(captured, &mut log);
    assert_eq!(log.len(), 1);
    assert!(!log.entry(0).is_empty());

    let not_requested = NativeError::new("bad state".to_string(), Trace::not_requested());
    convert(not_requested, &mut log);
    assert_eq!(log.len(), 1);

    let unavailable = NativeError::new("bad state".to_string(), Trace::unavailable());
    convert(unavailable, &mut log);
    assert_eq!(log.len(), 1);
}

#[test]
fn register_twice_idempotent() {
    let mut registry = ExceptionRegistry::new();
    assert!(!registry.is_registered());

    let first = registry.register();
    let once = registry;
    let second = registry.register();

    assert_eq!(registry, once);
    assert!(registry.is_registered());
    assert_eq!(first, second);

    let mut log = DiagnosticLog::new();
    let e = NativeError::new("late failure".to_string(), Trace::not_requested());
    let exc = convert(e, &mut log);
    assert_eq!(exc.kind, first);
}

#[test]
fn conversions_independently_paired() {
    let mut log1 = DiagnosticLog::new();
    let mut log2 = DiagnosticLog::new();
    let e1 = NativeError::new("first failure".to_string(), Trace::not_requested());
    let e2 = NativeError::new("second failure".to_string(), Trace::not_requested());
    let exc1 = convert(e1, &mut log1);
    let exc2 = convert(e2, &mut log2);
    assert_eq!(exc1.message, "first failure");
    assert_eq!(exc2.message, "second failure");
    assert_ne!(exc1.message, exc2.message);
}

#[test]
fn trace_constructors_set_status() {
    assert_eq!(Trace::not_requested().status, TraceStatus::NotRequested);
    assert_eq!(Trace::unavailable().status, TraceStatus::Unavailable);
    let t = Trace::captured("at fault site".to_string());
    assert_eq!(t.status, TraceStatus::Captured);
    assert_eq!(t.text, "at fault site");
    assert_eq!(Trace::not_requested().text, "");
    assert_eq!(Trace::unavailable().text, "");
}

#[test]
fn sink_orders_payloads() {
    let mut log = DiagnosticLog::new();
    assert!(log.is_empty());
    assert_eq!(log.len(), 0);
    log.emit("one".to_string());
    log.emit("two".to_string());
    assert!(!log.is_empty());
    assert_eq!(log.len(), 2);
    assert_eq!(log.entry(0), "one");
    assert_eq!(log.entry(1), "two");
}
