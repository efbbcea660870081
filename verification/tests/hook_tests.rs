use machine_tracer::hook::{format_record, trace_callback, CallEvent};
use machine_tracer::tracer::Tracer;

fn ready_tracer() -> Tracer {
    let mut t = Tracer::new();
    assert!(t.init("127.0.0.1".to_owned(), 9999, "/app/main.src".to_owned()).is_ok());
    assert!(t.create_udp_sender().is_ok());
    t
}

fn watched_event() -> CallEvent {
    CallEvent {
        source_file_identity: "/app/main.src".to_owned(),
        function_name: "handle".to_owned(),
        line_number: 42,
    }
}

#[test]
fn matching_entry_event_sends_the_exact_record() {
    let t = ready_tracer();
    let ev = watched_event();
    let d = trace_callback(&t, "call", Some(&ev)).unwrap();
    assert_eq!(d.payload, "/app/main.src | 42 | handle");
    assert_eq!(d.host, "127.0.0.1");
    assert_eq!(d.port, 9999);
}

#[test]
fn end_to_end_single_datagram() {
    let mut t = Tracer::new();
    assert!(t.init("127.0.0.1".to_owned(), 9999, "/app/main.src".to_owned()).is_ok());
    assert!(t.create_udp_sender().is_ok());
    let ev = CallEvent {
        source_file_identity: "/app/main.src".to_owned(),
        function_name: "handle".to_owned(),
        line_number: 42,
    };
    let out = trace_callback(&t, "call", Some(&ev));
    let d = out.expect("one datagram owed for the matching entry event");
    assert_eq!(d.payload, "/app/main.src | 42 | handle");
    assert_eq!(d.port, 9999);
    let again = trace_callback(&t, "return", Some(&ev));
    assert!(again.is_none());
}

#[test]
fn other_file_sends_nothing() {
    let t = ready_tracer();
    let ev = CallEvent {
        source_file_identity: "/app/other.src".to_owned(),
        function_name: "handle".to_owned(),
        line_number: 42,
    };
    assert!(trace_callback(&t, "call", Some(&ev)).is_none());
}

#[test]
fn file_identity_match_is_exact_and_case_sensitive() {
    let t = ready_tracer();
    let ev = CallEvent {
        source_file_identity: "/app/MAIN.src".to_owned(),
        function_name: "handle".to_owned(),
        line_number: 42,
    };
    assert!(trace_callback(&t, "call", Some(&ev)).is_none());
    let prefix = CallEvent {
        source_file_identity: "/app/main.sr".to_owned(),
        function_name: "handle".to_owned(),
        line_number: 42,
    };
    assert!(trace_callback(&t, "call", Some(&prefix)).is_none());
}

#[test]
fn non_entry_events_send_nothing() {
    let t = ready_tracer();
    let ev = watched_event();
    assert!(trace_callback(&t, "return", Some(&ev)).is_none());
    assert!(trace_callback(&t, "line", Some(&ev)).is_none());
    assert!(trace_callback(&t, "exception", Some(&ev)).is_none());
    assert!(trace_callback(&t, "", Some(&ev)).is_none());
}

#[test]
fn hook_survives_every_missing_piece() {
    // missing frame metadata
    let t = ready_tracer();
    assert!(trace_callback(&t, "call", None).is_none());
    // missing config and sender
    let bare = Tracer::new();
    let ev = watched_event();
    assert!(trace_callback(&bare, "call", Some(&ev)).is_none());
    assert!(trace_callback(&bare, "call", None).is_none());
    assert!(trace_callback(&bare, "return", None).is_none());
    // config present, sender missing: the failed send is swallowed
    let mut half = Tracer::new();
    assert!(half.init("127.0.0.1".to_owned(), 9999, "/app/main.src".to_owned()).is_ok());
    assert!(trace_callback(&half, "call", Some(&ev)).is_none());
    // sender present, config missing
    let mut other_half = Tracer::new();
    assert!(other_half.create_udp_sender().is_ok());
    assert!(trace_callback(&other_half, "call", Some(&ev)).is_none());
}

#[test]
fn record_format_is_file_line_name() {
    let ev = CallEvent {
        source_file_identity: "/srv/x.src".to_owned(),
        function_name: "loop_body".to_owned(),
        line_number: 7,
    };
    assert_eq!(format_record(&ev), "/srv/x.src | 7 | loop_body");
}

#[test]
fn record_format_keeps_negative_and_zero_lines() {
    let zero = CallEvent {
        source_file_identity: "f".to_owned(),
        function_name: "g".to_owned(),
        line_number: 0,
    };
    assert_eq!(format_record(&zero), "f | 0 | g");
    let negative = CallEvent {
        source_file_identity: "f".to_owned(),
        function_name: "g".to_owned(),
        line_number: -3,
    };
    assert_eq!(format_record(&negative), "f | -3 | g");
}

#[test]
fn record_format_with_empty_fields() {
    let ev = CallEvent {
        source_file_identity: "".to_owned(),
        function_name: "".to_owned(),
        line_number: 1,
    };
    assert_eq!(format_record(&ev), " | 1 | ");
}
