use conductor::events::{event_json, json_escape, Event, StreamKind};
use conductor::text::{i32_to_string, str_contains, str_eq, u32_to_string, usize_to_string};

#[test]
fn decimal_rendering_is_exact() {
    assert_eq!(u32_to_string(0), "0");
    assert_eq!(u32_to_string(7), "7");
    assert_eq!(u32_to_string(40960), "40960");
    assert_eq!(u32_to_string(u32::MAX), "4294967295");
    assert_eq!(usize_to_string(0), "0");
    assert_eq!(usize_to_string(144), "144");
    assert_eq!(i32_to_string(0), "0");
    assert_eq!(i32_to_string(-1), "-1");
    assert_eq!(i32_to_string(i32::MIN), "-2147483648");
    assert_eq!(i32_to_string(i32::MAX), "2147483647");
}

#[test]
fn string_equality_and_search() {
    assert!(str_eq("brew", "brew"));
    assert!(!str_eq("brew", "brews"));
    assert!(!str_eq("brew", "crew"));
    assert!(str_contains("pandoc -t pdf", "-t pdf"));
    assert!(str_contains("abc", ""));
    assert!(!str_contains("ab", "abc"));
    assert!(str_contains("xxabyy", "ab"));
    assert!(!str_contains("pandoc -t html", "-t pdf"));
}

#[test]
fn json_escaping_covers_quotes_and_controls() {
    assert_eq!(json_escape("plain"), "plain");
    assert_eq!(json_escape("a\"b"), "a\\\"b");
    assert_eq!(json_escape("a\\b"), "a\\\\b");
    assert_eq!(json_escape("line1\nline2"), "line1\\nline2");
    assert_eq!(json_escape("a\rb\tc"), "a\\rb\\tc");
    assert_eq!(json_escape("\u{1}\u{1f}"), "\\u0001\\u001f");
}

#[test]
fn start_event_wire_form() {
    let e = Event::Start {
        id: 3,
        label: "Installing pandoc".to_string(),
        command: "brew install pandoc 2>&1".to_string(),
    };
    assert_eq!(
        event_json(&e),
        "{\"type\":\"start\",\"id\":3,\"operation\":\"Installing pandoc\",\
         \"command\":\"brew install pandoc 2>&1\"}"
    );
}

#[test]
fn line_event_wire_form() {
    let e = Event::Line {
        id: 3,
        stream: StreamKind::Stdout,
        text: "say \"hi\"".to_string(),
    };
    assert_eq!(
        event_json(&e),
        "{\"type\":\"stdout\",\"id\":3,\"line\":\"say \\\"hi\\\"\"}"
    );
    let e = Event::Line {
        id: 4,
        stream: StreamKind::Stderr,
        text: "warn".to_string(),
    };
    assert_eq!(event_json(&e), "{\"type\":\"stderr\",\"id\":4,\"line\":\"warn\"}");
}

#[test]
fn end_event_wire_form() {
    let e = Event::End {
        id: 9,
        success: false,
        message: "Installing pandoc failed with exit code: Some(1)".to_string(),
    };
    assert_eq!(
        event_json(&e),
        "{\"type\":\"end\",\"id\":9,\"success\":false,\
         \"message\":\"Installing pandoc failed with exit code: Some(1)\"}"
    );
    let e = Event::End {
        id: 9,
        success: true,
        message: "ok".to_string(),
    };
    assert_eq!(
        event_json(&e),
        "{\"type\":\"end\",\"id\":9,\"success\":true,\"message\":\"ok\"}"
    );
}
