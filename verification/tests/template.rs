use human_panic::template::render;

fn table() -> Vec<(String, String)> {
    vec![
        ("name".to_owned(), "demo".to_owned()),
        ("version".to_owned(), "1.0".to_owned()),
        ("repository".to_owned(), "https://example.com/demo".to_owned()),
    ]
}

#[test]
fn known_keys_are_substituted() {
    let out = render("%(name) v%(version) crashed", &table());
    assert_eq!(out, "demo v1.0 crashed");
}

#[test]
fn all_placeholders_replaced() {
    let out = render("see %(repository) for %(name)", &table());
    assert_eq!(out, "see https://example.com/demo for demo");
}

#[test]
fn no_placeholder_text_is_unchanged() {
    let text = "plain text, no markers at all";
    assert_eq!(render(text, &table()), text);
}

#[test]
fn rendering_is_idempotent_without_placeholders() {
    let once = render("%(name) is fine", &table());
    let twice = render(&once, &table());
    assert_eq!(once, twice);
}

#[test]
fn unknown_key_is_preserved() {
    let out = render("hello %(unknown_key) world", &table());
    assert_eq!(out, "hello %(unknown_key) world");
}

#[test]
fn unknown_key_between_known_ones() {
    let out = render("%(name)%(future)%(version)", &table());
    assert_eq!(out, "demo%(future)1.0");
}

#[test]
fn unterminated_marker_passes_through() {
    let out = render("broken %(name tail", &table());
    assert_eq!(out, "broken %(name tail");
}

#[test]
fn percent_without_paren_is_literal() {
    let out = render("100% of %(name)", &table());
    assert_eq!(out, "100% of demo");
}

#[test]
fn empty_template_renders_empty() {
    assert_eq!(render("", &table()), "");
}

#[test]
fn empty_key_placeholder() {
    // `%()` holds the empty key, which the table does not map.
    let out = render("a%()b", &table());
    assert_eq!(out, "a%()b");
}

#[test]
fn first_table_entry_wins() {
    let t = vec![
        ("name".to_owned(), "first".to_owned()),
        ("name".to_owned(), "second".to_owned()),
    ];
    assert_eq!(render("%(name)", &t), "first");
}
