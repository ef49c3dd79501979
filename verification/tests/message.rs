use human_panic::present::{print_msg, render_message, resolve_file_path, Color, Messages, Metadata};
use human_panic::report::{Method, Report};

fn meta_plain() -> Metadata {
    Metadata {
        messages: Messages::default(),
        name: "demo".to_owned(),
        short_name: "demo".to_owned(),
        version: "1.0".to_owned(),
        repository: "https://example.com/demo".to_owned(),
        color_enabled: false,
    }
}

fn default_head_expected() -> String {
    "Well, this is embarrassing.\ndemo v1.0 had a problem and crashed. To help us diagnose the problem you can send us a crash report.\n\n".to_owned()
}

#[test]
fn default_message_is_exactly_the_three_defaults() {
    let path = "/tmp/report-x.toml".to_owned();
    let out = render_message(Some(&path), &meta_plain());
    let head = "Well, this is embarrassing.\ndemo v1.0 had a problem and crashed. To help us diagnose the problem you can send us a crash report.\n\n";
    let body = "We have generated a report file at \"/tmp/report-x.toml\". Submit an issue or email with the subject of \"demo v1.0 crash report\" and include the report as an attachment at https://example.com/demo/issues.\n";
    let footer = "\nWe take privacy seriously, and do not perform any automated error collection. In order to improve the software, we rely on people to submit reports.\nThank you!\n";
    assert_eq!(out, format!("{}{}{}", head, body, footer));
}

#[test]
fn default_head_interpolates_name_and_version() {
    let out = render_message(None, &meta_plain());
    assert!(out.contains("demo v1.0 had a problem and crashed."));
    assert!(out.contains(&default_head_expected()));
}

#[test]
fn failed_persistence_shows_sentinel() {
    let out = render_message(None, &meta_plain());
    assert!(out.contains("We have generated a report file at \"<Failed to store file to disk>\"."));
}

#[test]
fn resolve_path_uses_sentinel_when_absent() {
    assert_eq!(resolve_file_path(None), "<Failed to store file to disk>");
    let p = "/tmp/x".to_owned();
    assert_eq!(resolve_file_path(Some(&p)), "/tmp/x");
}

#[test]
fn serialize_is_always_available_for_fallback() {
    // Where persistence fails, the serialized report is printed instead:
    // serialization of the flat record never comes back absent.
    let report = Report::new("demo", "1.0", Method::Panic, "x".to_owned(), "y".to_owned());
    assert!(report.serialize().is_some());
}

#[test]
fn user_templates_are_rendered_with_placeholders() {
    let mut m = meta_plain();
    m.messages.head.0 = Some("%(name) v%(version) died".to_owned());
    m.messages.body.0 = Some("report at %(file_path), file it at %(repository)".to_owned());
    m.messages.footer.0 = Some("bye from %(short_name)".to_owned());
    let path = "/tmp/r.toml".to_owned();
    let out = render_message(Some(&path), &m);
    assert_eq!(
        out,
        "demo v1.0 died\nreport at /tmp/r.toml, file it at https://example.com/demo\nbye from demo\n"
    );
}

#[test]
fn empty_template_falls_back_to_default() {
    let mut m = meta_plain();
    m.messages.head.0 = Some(String::new());
    let out = render_message(None, &m);
    assert!(out.contains("Well, this is embarrassing."));
}

#[test]
fn color_wraps_sections_in_escapes() {
    let mut m = meta_plain();
    m.color_enabled = true;
    let out = render_message(None, &m);
    // head red, body white, footer green, each reset afterwards
    assert!(out.starts_with("\u{1b}[31m"));
    assert!(out.contains("\u{1b}[0m\u{1b}[37m"));
    assert!(out.contains("\u{1b}[0m\u{1b}[32m"));
    assert!(out.ends_with("\u{1b}[0m"));
}

#[test]
fn plain_output_has_no_escapes() {
    let out = render_message(None, &meta_plain());
    assert!(!out.contains('\u{1b}'));
}

#[test]
fn print_msg_writes_to_the_error_stream() {
    let path = "/tmp/report-x.toml".to_owned();
    assert!(print_msg(Some(&path), &meta_plain()).is_ok());
}

#[test]
fn default_colors_are_red_white_green() {
    let m = Messages::default();
    assert!(matches!(m.head.1, Color::Red));
    assert!(matches!(m.body.1, Color::White));
    assert!(matches!(m.footer.1, Color::Green));
    assert!(m.head.0.is_none() && m.body.0.is_none() && m.footer.0.is_none());
}
