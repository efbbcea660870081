use machine_tracer::probe::probe_message;
use machine_tracer::text::{i32_to_string, str_eq};

#[test]
fn decimal_rendering_exact_values() {
    assert_eq!(i32_to_string(0), "0");
    assert_eq!(i32_to_string(9), "9");
    assert_eq!(i32_to_string(10), "10");
    assert_eq!(i32_to_string(42), "42");
    assert_eq!(i32_to_string(100), "100");
    assert_eq!(i32_to_string(65535), "65535");
    assert_eq!(i32_to_string(-1), "-1");
    assert_eq!(i32_to_string(-10), "-10");
    assert_eq!(i32_to_string(2147483647), "2147483647");
    assert_eq!(i32_to_string(-2147483648), "-2147483648");
}

#[test]
fn string_equality_is_exact() {
    assert!(str_eq("", ""));
    assert!(str_eq("call", "call"));
    assert!(!str_eq("call", "Call"));
    assert!(!str_eq("call", "cal"));
    assert!(!str_eq("cal", "call"));
    assert!(!str_eq("call", "return"));
    assert!(str_eq("/app/main.src", "/app/main.src"));
    assert!(!str_eq("/app/main.src", "/app/main.srcx"));
}

#[test]
fn string_equality_handles_multibyte_characters() {
    assert!(str_eq("héllo", "héllo"));
    assert!(!str_eq("héllo", "hello"));
}

#[test]
fn probe_message_carries_the_working_directory() {
    let msg = probe_message("/srv/project");
    assert_eq!(msg, "machine_tracer loaded at /srv/project");
    assert!(msg.contains("/srv/project"));
}

#[test]
fn probe_message_with_empty_directory() {
    assert_eq!(probe_message(""), "machine_tracer loaded at ");
}
