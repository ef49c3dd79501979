use human_panic::stack::{format_backtrace, Frame, Symbol};

fn named(name: &str, file: Option<&str>, line: Option<u32>) -> Symbol {
    Symbol {
        name: Some(name.to_owned()),
        file: file.map(|f| f.to_owned()),
        line,
    }
}

#[test]
fn unresolved_frame_renders_placeholder() {
    let frames = vec![Frame { ip: 0xdeadbeef, symbols: Vec::new() }];
    let out = format_backtrace(&frames, 0);
    assert_eq!(out, "\n0000: 0x00000000deadbeef - <unresolved>");
}

#[test]
fn name_only_symbol_has_no_at_line() {
    let frames = vec![Frame { ip: 0x10, symbols: vec![named("demo::main", None, None)] }];
    let out = format_backtrace(&frames, 0);
    assert_eq!(out, "\n0000: 0x0000000000000010 - demo::main");
    assert!(!out.contains("at "));
}

#[test]
fn file_without_line_has_no_at_line() {
    let frames = vec![Frame {
        ip: 0x10,
        symbols: vec![named("demo::main", Some("src/main.rs"), None)],
    }];
    let out = format_backtrace(&frames, 0);
    assert_eq!(out, "\n0000: 0x0000000000000010 - demo::main");
}

#[test]
fn symbol_with_file_and_line_gets_at_line() {
    let frames = vec![Frame {
        ip: 0x10,
        symbols: vec![named("demo::main", Some("src/main.rs"), Some(7))],
    }];
    let out = format_backtrace(&frames, 0);
    let expected = format!(
        "\n0000: 0x0000000000000010 - demo::main\n{}at src/main.rs:7",
        " ".repeat(24)
    );
    assert_eq!(out, expected);
}

#[test]
fn unnamed_symbol_renders_unknown() {
    let frames = vec![Frame {
        ip: 0x10,
        symbols: vec![Symbol { name: None, file: None, line: None }],
    }];
    let out = format_backtrace(&frames, 0);
    assert_eq!(out, "\n0000: 0x0000000000000010 - <unknown>");
}

#[test]
fn inlined_symbols_align_under_address() {
    let frames = vec![Frame {
        ip: 0x10,
        symbols: vec![named("inner", None, None), named("outer", None, None)],
    }];
    let out = format_backtrace(&frames, 0);
    let expected = format!(
        "\n0000: 0x0000000000000010 - inner\n{} - outer",
        " ".repeat(24)
    );
    assert_eq!(out, expected);
}

#[test]
fn frames_are_numbered_after_skipping() {
    let mk = |ip: u64| Frame { ip, symbols: Vec::new() };
    let frames = vec![mk(1), mk(2), mk(3)];
    let out = format_backtrace(&frames, 2);
    // only the third frame is kept, renumbered from zero
    assert_eq!(out, "\n0000: 0x0000000000000003 - <unresolved>");
}

#[test]
fn skip_beyond_capture_gives_empty_listing() {
    let frames = vec![Frame { ip: 1, symbols: Vec::new() }];
    assert_eq!(format_backtrace(&frames, 5), "");
}

#[test]
fn index_padding_grows_past_four_digits() {
    let mut frames = Vec::new();
    let mut i: u64 = 0;
    while i < 10001 {
        frames.push(Frame { ip: i, symbols: Vec::new() });
        i += 1;
    }
    let out = format_backtrace(&frames, 0);
    assert!(out.contains("\n0009: "));
    assert!(out.contains("\n0099: "));
    assert!(out.contains("\n9999: "));
    assert!(out.contains("\n10000: "));
}
