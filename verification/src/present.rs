//! The three-part user-facing message: head, body and footer, each either
//! a user template rendered against the placeholder table or a built-in
//! default text, optionally wrapped in color escapes, written to the
//! standard error stream.

use vstd::prelude::*;

use crate::chars::chars_to_string;
use crate::template::{lookup, render, render_spec};

verus! {

/// A foreground color for one message section, in the classic
/// sixteen-color terminal palette.
#[derive(Clone, Copy, PartialEq, Eq, Structural, Debug)]
pub enum Color {
    Black,
    Red,
    Green,
    Yellow,
    Blue,
    Magenta,
    Cyan,
    White,
    BrightBlack,
    BrightRed,
    BrightGreen,
    BrightYellow,
    BrightBlue,
    BrightMagenta,
    BrightCyan,
    BrightWhite,
}

/// The two digits of a color's foreground code.
pub open spec fn fg_code(c: Color) -> Seq<char> {
    match c {
        Color::Black => seq!['3', '0'],
        Color::Red => seq!['3', '1'],
        Color::Green => seq!['3', '2'],
        Color::Yellow => seq!['3', '3'],
        Color::Blue => seq!['3', '4'],
        Color::Magenta => seq!['3', '5'],
        Color::Cyan => seq!['3', '6'],
        Color::White => seq!['3', '7'],
        Color::BrightBlack => seq!['9', '0'],
        Color::BrightRed => seq!['9', '1'],
        Color::BrightGreen => seq!['9', '2'],
        Color::BrightYellow => seq!['9', '3'],
        Color::BrightBlue => seq!['9', '4'],
        Color::BrightMagenta => seq!['9', '5'],
        Color::BrightCyan => seq!['9', '6'],
        Color::BrightWhite => seq!['9', '7'],
    }
}

/// The escape that sets a foreground color.
pub open spec fn fg_escape(c: Color) -> Seq<char> {
    seq!['\u{1b}', '['] + fg_code(c) + seq!['m']
}

/// The escape that resets all styling.
pub open spec fn reset_escape() -> Seq<char> {
    seq!['\u{1b}', '[', '0', 'm']
}

fn fg_code_digits(c: Color) -> (r: (char, char))
    ensures
        seq![r.0, r.1] == fg_code(c),
{
    match c {
        Color::Black => ('3', '0'),
        Color::Red => ('3', '1'),
        Color::Green => ('3', '2'),
        Color::Yellow => ('3', '3'),
        Color::Blue => ('3', '4'),
        Color::Magenta => ('3', '5'),
        Color::Cyan => ('3', '6'),
        Color::White => ('3', '7'),
        Color::BrightBlack => ('9', '0'),
        Color::BrightRed => ('9', '1'),
        Color::BrightGreen => ('9', '2'),
        Color::BrightYellow => ('9', '3'),
        Color::BrightBlue => ('9', '4'),
        Color::BrightMagenta => ('9', '5'),
        Color::BrightCyan => ('9', '6'),
        Color::BrightWhite => ('9', '7'),
    }
}

/// A section's text wrapped in its color escapes, where styling is on.
pub open spec fn colored(text: Seq<char>, c: Color, enabled: bool) -> Seq<char> {
    if enabled {
        fg_escape(c) + text + reset_escape()
    } else {
        text
    }
}

fn colored_exec(text: String, c: Color, enabled: bool) -> (r: String)
    ensures
        r@ == colored(text@, c, enabled),
{
    if enabled {
        let mut v: Vec<char> = Vec::new();
        v.push('\u{1b}');
        v.push('[');
        let d = fg_code_digits(c);
        v.push(d.0);
        v.push(d.1);
        v.push('m');
        proof {
            assert(v@ =~= fg_escape(c));
        }
        let mut r = chars_to_string(&v);
        r.append(text.as_str());
        let mut w: Vec<char> = Vec::new();
        w.push('\u{1b}');
        w.push('[');
        w.push('0');
        w.push('m');
        proof {
            assert(w@ =~= reset_escape());
        }
        let reset = chars_to_string(&w);
        r.append(reset.as_str());
        proof {
            assert(r@ =~= colored(text@, c, enabled));
        }
        r
    } else {
        text
    }
}

/// One section's configuration: an optional user template, and the color
/// the section is shown in where styling is on.
#[derive(Debug)]
pub struct Messages {
    pub head: (Option<String>, Color),
    pub body: (Option<String>, Color),
    pub footer: (Option<String>, Color),
}

impl Default for Messages {
    /// No user templates; the classic red head, white body, green footer.
    fn default() -> (r: Messages)
        ensures
            r.head.0 is None && r.head.1 == Color::Red,
            r.body.0 is None && r.body.1 == Color::White,
            r.footer.0 is None && r.footer.1 == Color::Green,
    {
        Messages {
            head: (None, Color::Red),
            body: (None, Color::White),
            footer: (None, Color::Green),
        }
    }
}

/// What the host program says about itself, consumed by the presenter.
#[derive(Debug)]
pub struct Metadata {
    pub messages: Messages,
    pub name: String,
    pub short_name: String,
    pub version: String,
    pub repository: String,
    /// Whether the sections are wrapped in color escapes: a capability
    /// picked once at startup, from a terminal probe or configuration.
    pub color_enabled: bool,
}

/// The fixed text shown in place of a file path when persistence failed.
pub open spec fn sentinel_path_text() -> Seq<char> {
    "<Failed to store file to disk>"@
}

/// The path shown in messages: the persisted file's path, or the sentinel
/// text where persistence failed.
pub fn resolve_file_path(file_path: Option<&String>) -> (r: String)
    ensures
        r@ == match file_path {
            Some(p) => p@,
            None => sentinel_path_text(),
        },
{
    match file_path {
        Some(p) => (*p).clone(),
        None => "<Failed to store file to disk>".to_owned(),
    }
}

/// The placeholder table a message is rendered against.
pub open spec fn table_view(meta: Metadata, path: Seq<char>) -> Seq<(Seq<char>, Seq<char>)> {
    seq![
        ("name"@, meta.name@),
        ("version"@, meta.version@),
        ("short_name"@, meta.short_name@),
        ("repository"@, meta.repository@),
        ("file_path"@, path),
    ]
}

/// Each well-known key maps to its current value in the table.
pub proof fn lemma_table_lookup(meta: Metadata, path: Seq<char>)
    ensures
        lookup(table_view(meta, path), "name"@) == Some(meta.name@),
        lookup(table_view(meta, path), "version"@) == Some(meta.version@),
        lookup(table_view(meta, path), "short_name"@) == Some(meta.short_name@),
        lookup(table_view(meta, path), "repository"@) == Some(meta.repository@),
        lookup(table_view(meta, path), "file_path"@) == Some(path),
{
    reveal_strlit("name");
    reveal_strlit("version");
    reveal_strlit("short_name");
    reveal_strlit("repository");
    reveal_strlit("file_path");
    let t = table_view(meta, path);
    let t1 = seq![
        ("version"@, meta.version@),
        ("short_name"@, meta.short_name@),
        ("repository"@, meta.repository@),
        ("file_path"@, path),
    ];
    let t2 = seq![
        ("short_name"@, meta.short_name@),
        ("repository"@, meta.repository@),
        ("file_path"@, path),
    ];
    let t3 = seq![("repository"@, meta.repository@), ("file_path"@, path)];
    let t4 = seq![("file_path"@, path)];
    assert(t.skip(1) =~= t1);
    assert(t1.skip(1) =~= t2);
    assert(t2.skip(1) =~= t3);
    assert(t3.skip(1) =~= t4);
    assert(t4.skip(1) =~= Seq::<(Seq<char>, Seq<char>)>::empty());
    assert("name"@.len() == 4);
    assert("version"@.len() == 7);
    assert("short_name"@.len() == 10);
    assert("repository"@.len() == 10);
    assert("file_path"@.len() == 9);
    assert("short_name"@[0] == 's' && "repository"@[0] == 'r');
    assert("name"@ != "version"@ && "name"@ != "short_name"@ && "name"@ != "repository"@ && "name"@
        != "file_path"@);
    assert("version"@ != "short_name"@ && "version"@ != "repository"@ && "version"@
        != "file_path"@);
    assert("short_name"@ != "repository"@ && "short_name"@ != "file_path"@);
    assert("repository"@ != "file_path"@);
    assert(lookup(t, "version"@) == lookup(t1, "version"@));
    assert(lookup(t1, "version"@) == Some(meta.version@));
    assert(lookup(t, "short_name"@) == lookup(t1, "short_name"@));
    assert(lookup(t1, "short_name"@) == lookup(t2, "short_name"@));
    assert(lookup(t2, "short_name"@) == Some(meta.short_name@));
    assert(lookup(t, "repository"@) == lookup(t1, "repository"@));
    assert(lookup(t1, "repository"@) == lookup(t2, "repository"@));
    assert(lookup(t2, "repository"@) == lookup(t3, "repository"@));
    assert(lookup(t3, "repository"@) == Some(meta.repository@));
    assert(lookup(t, "file_path"@) == lookup(t1, "file_path"@));
    assert(lookup(t1, "file_path"@) == lookup(t2, "file_path"@));
    assert(lookup(t2, "file_path"@) == lookup(t3, "file_path"@));
    assert(lookup(t3, "file_path"@) == lookup(t4, "file_path"@));
    assert(lookup(t4, "file_path"@) == Some(path));
}

/// Builds the placeholder table: the four metadata values and the
/// resolved file path, under their well-known keys.
pub fn placeholder_table(meta: &Metadata, path: &String) -> (r: Vec<(String, String)>)
    ensures
        r.deep_view() == table_view(*meta, path@),
{
    let mut t: Vec<(String, String)> = Vec::new();
    t.push(("name".to_owned(), meta.name.clone()));
    t.push(("version".to_owned(), meta.version.clone()));
    t.push(("short_name".to_owned(), meta.short_name.clone()));
    t.push(("repository".to_owned(), meta.repository.clone()));
    t.push(("file_path".to_owned(), path.clone()));
    proof {
        assert(t.deep_view() =~= table_view(*meta, path@));
    }
    t
}

/// The built-in head: a two-line embarrassed notice naming the program
/// and its version.
pub open spec fn default_head_text(name: Seq<char>, version: Seq<char>) -> Seq<char> {
    "Well, this is embarrassing.\n"@ + name + " v"@ + version
        + " had a problem and crashed. To help us diagnose the problem you can send us a crash report.\n\n"@
}

/// The built-in body: where the report file went, and where and how to
/// file an issue quoting it.
pub open spec fn default_body_text(
    path: Seq<char>,
    short_name: Seq<char>,
    version: Seq<char>,
    repository: Seq<char>,
) -> Seq<char> {
    "We have generated a report file at \""@ + path
        + "\". Submit an issue or email with the subject of \""@ + short_name + " v"@ + version
        + " crash report\" and include the report as an attachment at "@ + repository
        + "/issues.\n"@
}

/// The built-in footer: the privacy statement and a thank-you line.
pub open spec fn default_footer_text() -> Seq<char> {
    "\nWe take privacy seriously, and do not perform any automated error collection. In order to improve the software, we rely on people to submit reports.\nThank you!\n"@
}

fn default_head(name: &str, version: &str) -> (r: String)
    ensures
        r@ == default_head_text(name@, version@),
{
    let mut r = "Well, this is embarrassing.\n".to_owned();
    r.append(name);
    r.append(" v");
    r.append(version);
    r.append(
        " had a problem and crashed. To help us diagnose the problem you can send us a crash report.\n\n",
    );
    proof {
        assert(r@ =~= default_head_text(name@, version@));
    }
    r
}

fn default_body(path: &str, short_name: &str, version: &str, repository: &str) -> (r: String)
    ensures
        r@ == default_body_text(path@, short_name@, version@, repository@),
{
    let mut r = "We have generated a report file at \"".to_owned();
    r.append(path);
    r.append("\". Submit an issue or email with the subject of \"");
    r.append(short_name);
    r.append(" v");
    r.append(version);
    r.append(" crash report\" and include the report as an attachment at ");
    r.append(repository);
    r.append("/issues.\n");
    proof {
        assert(r@ =~= default_body_text(path@, short_name@, version@, repository@));
    }
    r
}

fn default_footer() -> (r: String)
    ensures
        r@ == default_footer_text(),
{
    "\nWe take privacy seriously, and do not perform any automated error collection. In order to improve the software, we rely on people to submit reports.\nThank you!\n".to_owned()
}

/// One section's text: the user template rendered against the table where
/// one is configured and non-empty, the built-in default otherwise. An
/// empty template means "use the default", never a silent blank line.
pub open spec fn section_text(
    tmpl: Option<String>,
    table: Seq<(Seq<char>, Seq<char>)>,
    dflt: Seq<char>,
) -> Seq<char> {
    match tmpl {
        Some(t) => if t@.len() == 0 {
            dflt
        } else {
            render_spec(t@, table) + "\n"@
        },
        None => dflt,
    }
}

fn section_output(tmpl: &Option<String>, table: &Vec<(String, String)>, dflt: String) -> (r:
    String)
    ensures
        r@ == section_text(*tmpl, table.deep_view(), dflt@),
{
    match tmpl {
        Some(t) => {
            if t.as_str().is_empty() {
                dflt
            } else {
                let mut r = render(t.as_str(), table);
                r.append("\n");
                r
            }
        },
        None => dflt,
    }
}

/// The whole message: head, body and footer in order, each the rendered
/// template or the built-in default, each wrapped in its color escapes
/// where styling is on.
pub open spec fn message_text(meta: Metadata, path: Seq<char>) -> Seq<char> {
    colored(
        section_text(
            meta.messages.head.0,
            table_view(meta, path),
            default_head_text(meta.name@, meta.version@),
        ),
        meta.messages.head.1,
        meta.color_enabled,
    ) + colored(
        section_text(
            meta.messages.body.0,
            table_view(meta, path),
            default_body_text(path, meta.short_name@, meta.version@, meta.repository@),
        ),
        meta.messages.body.1,
        meta.color_enabled,
    ) + colored(
        section_text(meta.messages.footer.0, table_view(meta, path), default_footer_text()),
        meta.messages.footer.1,
        meta.color_enabled,
    )
}

/// With no section template configured and color styling off, the message
/// is exactly the three built-in default texts in order, with the name,
/// version, short name, repository and file path interpolated.
pub proof fn lemma_default_message(meta: Metadata, path: Seq<char>)
    requires
        meta.messages.head.0 is None,
        meta.messages.body.0 is None,
        meta.messages.footer.0 is None,
        !meta.color_enabled,
    ensures
        message_text(meta, path) == default_head_text(meta.name@, meta.version@)
            + default_body_text(path, meta.short_name@, meta.version@, meta.repository@)
            + default_footer_text(),
{
}

/// The three sections of the message for a persistence outcome, colored
/// as configured: what `print_msg` writes, in order.
fn sections(file_path: Option<&String>, meta: &Metadata) -> (r: (String, String, String))
    ensures
        ({
            let path = match file_path {
                Some(p) => p@,
                None => sentinel_path_text(),
            };
            r.0@ == colored(
                section_text(
                    meta.messages.head.0,
                    table_view(*meta, path),
                    default_head_text(meta.name@, meta.version@),
                ),
                meta.messages.head.1,
                meta.color_enabled,
            ) && r.1@ == colored(
                section_text(
                    meta.messages.body.0,
                    table_view(*meta, path),
                    default_body_text(path, meta.short_name@, meta.version@, meta.repository@),
                ),
                meta.messages.body.1,
                meta.color_enabled,
            ) && r.2@ == colored(
                section_text(
                    meta.messages.footer.0,
                    table_view(*meta, path),
                    default_footer_text(),
                ),
                meta.messages.footer.1,
                meta.color_enabled,
            )
        }),
{
    let path = resolve_file_path(file_path);
    let table = placeholder_table(meta, &path);
    let head = colored_exec(
        section_output(
            &meta.messages.head.0,
            &table,
            default_head(meta.name.as_str(), meta.version.as_str()),
        ),
        meta.messages.head.1,
        meta.color_enabled,
    );
    let body = colored_exec(
        section_output(
            &meta.messages.body.0,
            &table,
            default_body(
                path.as_str(),
                meta.short_name.as_str(),
                meta.version.as_str(),
                meta.repository.as_str(),
            ),
        ),
        meta.messages.body.1,
        meta.color_enabled,
    );
    let footer = colored_exec(
        section_output(&meta.messages.footer.0, &table, default_footer()),
        meta.messages.footer.1,
        meta.color_enabled,
    );
    (head, body, footer)
}

/// Renders the whole message for a persistence outcome: the text
/// `print_msg` writes to the error stream.
pub fn render_message(file_path: Option<&String>, meta: &Metadata) -> (r: String)
    ensures
        r@ == message_text(
            *meta,
            match file_path {
                Some(p) => p@,
                None => sentinel_path_text(),
            },
        ),
{
    let (head, body, footer) = sections(file_path, meta);
    let mut r = head;
    r.append(body.as_str());
    r.append(footer.as_str());
    r
}

/// A failure to write to the console's error stream.
#[derive(Clone, Copy, PartialEq, Eq, Structural, Debug)]
pub struct ConsoleError;

/// Relies on `std::io::Write::write_all` on the standard error stream: the
/// section's bytes are handed to the stream, and any I/O failure comes
/// back as an error value. Whether the write succeeds depends on the
/// environment, so nothing more is stated.
#[verifier::external_body]
pub(crate) fn write_stderr(s: &str) -> (r: Result<(), ConsoleError>) {
    match std::io::Write::write_all(&mut std::io::stderr(), s.as_bytes()) {
        Ok(()) => Ok(()),
        Err(_) => Err(ConsoleError),
    }
}

/// Writes the three sections to the standard error stream, in order, every
/// section even where an earlier write failed, and returns the first write
/// error, if any: there is no more graceful channel left to report a
/// failure to report.
pub fn print_msg(file_path: Option<&String>, meta: &Metadata) -> (r: Result<(), ConsoleError>) {
    let (head, body, footer) = sections(file_path, meta);
    let r1 = write_stderr(head.as_str());
    let r2 = write_stderr(body.as_str());
    let r3 = write_stderr(footer.as_str());
    if r1.is_err() {
        r1
    } else if r2.is_err() {
        r2
    } else {
        r3
    }
}

} // verus!
