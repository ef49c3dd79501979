use human_panic::persist::{file_name_for, fresh_report_file_name};
use human_panic::present::{Messages, Metadata};
use human_panic::report::{Method, Report};
use human_panic::{build_report, finish_dump, PanicStyle};

fn meta() -> Metadata {
    Metadata {
        messages: Messages::default(),
        name: "Demo App".to_owned(),
        short_name: "demo".to_owned(),
        version: "1.0".to_owned(),
        repository: "https://example.com/demo".to_owned(),
        color_enabled: false,
    }
}

#[test]
fn serialize_then_deserialize_recovers_fields() {
    let report = Report::new(
        "demo",
        "1.0",
        Method::Panic,
        "Panic occurred in file 'src/main.rs' at line 7\n".to_owned(),
        "boom".to_owned(),
    );
    let text = report.serialize().unwrap();
    let back = Report::deserialize(&text).unwrap();
    assert_eq!(back.name, "demo");
    assert_eq!(back.crate_version, "1.0");
    assert_eq!(back.explanation, "Panic occurred in file 'src/main.rs' at line 7\n");
    assert_eq!(back.cause, "boom");
    assert_eq!(back.operating_system, report.operating_system);
    assert_eq!(back.backtrace, report.backtrace);
    assert!(matches!(back.method, Method::Panic));
}

#[test]
fn round_trip_survives_escaped_characters() {
    let report = Report::new(
        "na\"me\\with\nnasty\tchars",
        "0.0.1",
        Method::Panic,
        "line one\r\nline two".to_owned(),
        "quote \" backslash \\".to_owned(),
    );
    let text = report.serialize().unwrap();
    let back = Report::deserialize(&text).unwrap();
    assert_eq!(back.name, "na\"me\\with\nnasty\tchars");
    assert_eq!(back.explanation, "line one\r\nline two");
    assert_eq!(back.cause, "quote \" backslash \\");
}

#[test]
fn encoding_is_readable_as_toml() {
    let report = Report::new(
        "demo",
        "1.0",
        Method::Panic,
        "Panic location unknown.\n".to_owned(),
        "boom".to_owned(),
    );
    let text = report.serialize().unwrap();
    let value: toml::Value = toml::from_str(&text).unwrap();
    assert_eq!(value.get("name").unwrap().as_str().unwrap(), "demo");
    assert_eq!(value.get("crate_version").unwrap().as_str().unwrap(), "1.0");
    assert_eq!(
        value.get("explanation").unwrap().as_str().unwrap(),
        "Panic location unknown.\n"
    );
    assert_eq!(value.get("cause").unwrap().as_str().unwrap(), "boom");
    assert_eq!(value.get("method").unwrap().as_str().unwrap(), "Panic");
}

#[test]
fn deserialize_rejects_garbage() {
    assert!(Report::deserialize("not a report").is_none());
    assert!(Report::deserialize("").is_none());
    assert!(Report::deserialize("name = \"unterminated").is_none());
}

#[test]
fn deserialize_rejects_trailing_text() {
    let report = Report::new("demo", "1.0", Method::Panic, "x".to_owned(), "y".to_owned());
    let mut text = report.serialize().unwrap();
    text.push_str("extra");
    assert!(Report::deserialize(&text).is_none());
}

#[test]
fn finish_dump_hands_the_path_through() {
    let report = Report::new("demo", "1.0", Method::Panic, "x".to_owned(), "y".to_owned());
    assert_eq!(
        finish_dump(&report, Some("/tmp/r.toml".to_owned())),
        Some("/tmp/r.toml".to_owned())
    );
    assert_eq!(finish_dump(&report, None), None);
}

#[test]
fn two_fresh_file_names_differ() {
    let a = fresh_report_file_name();
    let b = fresh_report_file_name();
    assert_ne!(a, b);
}

#[test]
fn file_name_shape() {
    let name = file_name_for("0123");
    assert_eq!(name, "report-0123.toml");
    let fresh = fresh_report_file_name();
    assert!(fresh.starts_with("report-"));
    assert!(fresh.ends_with(".toml"));
    assert_eq!(fresh.len(), "report-".len() + 36 + ".toml".len());
}

#[test]
fn build_report_with_location_and_payload() {
    let report = build_report(
        &meta(),
        Some("OMG EVERYTHING IS ON FIRE!!!".to_owned()),
        Some(("src/main.rs".to_owned(), 42)),
    );
    assert_eq!(report.name, "demo");
    assert_eq!(report.crate_version, "1.0");
    assert_eq!(report.cause, "OMG EVERYTHING IS ON FIRE!!!");
    assert_eq!(
        report.explanation,
        "Panic occurred in file 'src/main.rs' at line 42\n"
    );
}

#[test]
fn build_report_without_location_or_payload() {
    let report = build_report(&meta(), None, None);
    assert_eq!(report.cause, "Unknown");
    assert_eq!(report.explanation, "Panic location unknown.\n");
}

#[test]
fn capture_reads_environment() {
    let report = Report::new("demo", "1.0", Method::Panic, "x".to_owned(), "y".to_owned());
    // The operating-system descriptor is read at capture time, not passed in.
    assert!(!report.operating_system.is_empty());
}

#[test]
fn panic_style_follows_env_presence() {
    assert!(matches!(PanicStyle::from_env_presence(true), PanicStyle::Debug));
    assert!(matches!(PanicStyle::from_env_presence(false), PanicStyle::Human));
}
