//! Stack traces: plain-value frames and symbols, and their rendering as a
//! human-readable multi-line listing.

use vstd::prelude::*;

use crate::chars::{chars_to_string, push_str_chars};
use crate::digits::{dec_digits, dec_padded4, hex_digits, push_dec, push_dec_padded4, push_hex};

verus! {

/// One code location resolved from a frame's address. A frame whose
/// address falls inside inlined calls resolves to several symbols.
pub struct Symbol {
    /// The demangled function name, where one could be resolved.
    pub name: Option<String>,
    /// The source file, where debug information gives one.
    pub file: Option<String>,
    /// The source line, where debug information gives one.
    pub line: Option<u32>,
}

/// One captured stack entry: an instruction address and the symbols it
/// resolved to (possibly none).
pub struct Frame {
    /// The frame's instruction pointer.
    pub ip: u64,
    /// The symbols resolved for this address, innermost first.
    pub symbols: Vec<Symbol>,
}

/// The number of hexadecimal digits an address is shown with.
pub const ADDR_HEX_DIGITS: u64 = 16;

/// The column symbols after the first are indented to, aligning them under
/// the address: the address width plus the surrounding punctuation.
pub const SYMBOL_INDENT: u64 = 24;

/// How many innermost frames a capture drops, so the listing starts at the
/// faulting application frame rather than the capture machinery itself.
/// A tuning constant: the unwinding depth of the hook shim varies by
/// target, so it may need adjusting empirically.
pub const CAPTURE_SKIP_FRAMES: usize = 8;

/// A run of `n` spaces (empty when `n` is negative).
pub open spec fn spaces(n: int) -> Seq<char> {
    Seq::new(
        if n < 0 {
            0
        } else {
            n as nat
        },
        |i: int| ' ',
    )
}

/// An address as `0x` followed by its fixed-width hexadecimal digits.
pub open spec fn addr_text(ip: int) -> Seq<char> {
    seq!['0', 'x'] + hex_digits(ip, ADDR_HEX_DIGITS as int)
}

/// A symbol's name line, and its `at file:line` line where both the file
/// and the line are known. Symbols after the first start on a fresh line,
/// indented under the address column.
pub open spec fn symbol_text(s: Symbol, first: bool) -> Seq<char> {
    (if first {
        Seq::<char>::empty()
    } else {
        seq!['\n'] + spaces(SYMBOL_INDENT as int)
    }) + " - "@ + (match s.name {
        Some(n) => n@,
        None => "<unknown>"@,
    }) + (if s.file is Some && s.line is Some {
        seq!['\n'] + spaces(SYMBOL_INDENT as int) + "at "@ + s.file.unwrap()@ + seq![':']
            + dec_digits(s.line.unwrap() as int)
    } else {
        Seq::<char>::empty()
    })
}

/// The symbol lines of a frame from index `i` on.
pub open spec fn symbols_text_from(ss: Seq<Symbol>, i: int) -> Seq<char>
    decreases ss.len() - i,
{
    if i < 0 || i >= ss.len() {
        Seq::empty()
    } else {
        symbol_text(ss[i], i == 0) + symbols_text_from(ss, i + 1)
    }
}

/// One frame's listing: a newline, the zero-padded frame index, the
/// address, then either `<unresolved>` or the symbol lines.
pub open spec fn frame_text(f: Frame, idx: int) -> Seq<char> {
    seq!['\n'] + dec_padded4(idx) + ": "@ + addr_text(f.ip as int) + (if f.symbols@.len() == 0 {
        " - <unresolved>"@
    } else {
        symbols_text_from(f.symbols@, 0)
    })
}

/// The frame listings from index `i` on, numbered from zero.
pub open spec fn frames_text_from(fs: Seq<Frame>, i: int) -> Seq<char>
    decreases fs.len() - i,
{
    if i < 0 || i >= fs.len() {
        Seq::empty()
    } else {
        frame_text(fs[i], i) + frames_text_from(fs, i + 1)
    }
}

/// The full listing of a captured stack.
pub open spec fn backtrace_text(fs: Seq<Frame>) -> Seq<char> {
    frames_text_from(fs, 0)
}

/// A frame with no resolved symbol renders as its header followed by
/// ` - <unresolved>`, and nothing else.
pub proof fn lemma_frame_unresolved(f: Frame, idx: int)
    requires
        f.symbols@.len() == 0,
    ensures
        frame_text(f, idx) == seq!['\n'] + dec_padded4(idx) + ": "@ + addr_text(f.ip as int)
            + " - <unresolved>"@,
{
}

/// A lone symbol that has a name but lacks the file or the line renders as
/// ` - name` alone: no trailing `at file:line` line follows.
pub proof fn lemma_frame_name_only(f: Frame, idx: int, name: String)
    requires
        f.symbols@.len() == 1,
        f.symbols@[0].name == Some(name),
        !(f.symbols@[0].file is Some && f.symbols@[0].line is Some),
    ensures
        frame_text(f, idx) == seq!['\n'] + dec_padded4(idx) + ": "@ + addr_text(f.ip as int)
            + " - "@ + name@,
{
    let st = symbol_text(f.symbols@[0], true);
    assert(st == " - "@ + name@ + Seq::<char>::empty());
    assert(symbols_text_from(f.symbols@, 1) == Seq::<char>::empty());
    assert(symbols_text_from(f.symbols@, 0) =~= st);
    assert(" - "@ + name@ + Seq::<char>::empty() =~= " - "@ + name@);
    assert(seq!['\n'] + dec_padded4(idx) + ": "@ + addr_text(f.ip as int) + (" - "@ + name@)
        =~= seq!['\n'] + dec_padded4(idx) + ": "@ + addr_text(f.ip as int) + " - "@ + name@);
}

/// Appends `n` spaces.
fn push_spaces(out: &mut Vec<char>, n: u64)
    ensures
        final(out)@ == old(out)@ + spaces(n as int),
{
    let mut k: u64 = 0;
    while k < n
        invariant
            k <= n,
            out@ == old(out)@ + spaces(k as int),
        decreases n - k,
    {
        out.push(' ');
        k = k + 1;
        proof {
            assert(old(out)@ + spaces(k as int) =~= (old(out)@ + spaces(k - 1)).push(' '));
        }
    }
}

/// Appends one symbol's lines.
fn push_symbol(out: &mut Vec<char>, s: &Symbol, first: bool)
    ensures
        final(out)@ == old(out)@ + symbol_text(*s, first),
{
    if !first {
        out.push('\n');
        push_spaces(out, SYMBOL_INDENT);
    }
    push_str_chars(out, " - ");
    match &s.name {
        Some(n) => push_str_chars(out, n.as_str()),
        None => push_str_chars(out, "<unknown>"),
    }
    match (&s.file, &s.line) {
        (Some(file), Some(line)) => {
            out.push('\n');
            push_spaces(out, SYMBOL_INDENT);
            push_str_chars(out, "at ");
            push_str_chars(out, file.as_str());
            out.push(':');
            push_dec(out, *line as u64);
        },
        _ => {},
    }
    proof {
        assert(out@ =~= old(out)@ + symbol_text(*s, first));
    }
}

/// Appends one frame's listing, numbered `idx`.
fn push_frame(out: &mut Vec<char>, f: &Frame, idx: u64)
    ensures
        final(out)@ == old(out)@ + frame_text(*f, idx as int),
{
    out.push('\n');
    push_dec_padded4(out, idx);
    push_str_chars(out, ": ");
    push_str_chars(out, "0x");
    push_hex(out, f.ip, ADDR_HEX_DIGITS);
    proof {
        reveal_strlit("0x");
        assert("0x"@ =~= seq!['0', 'x']);
        assert(out@ =~= old(out)@ + (seq!['\n'] + dec_padded4(idx as int) + ": "@ + addr_text(
            f.ip as int,
        )));
    }
    if f.symbols.len() == 0 {
        push_str_chars(out, " - <unresolved>");
        proof {
            assert(out@ =~= old(out)@ + frame_text(*f, idx as int));
        }
    } else {
        let ghost base = out@;
        let mut j: usize = 0;
        while j < f.symbols.len()
            invariant
                j <= f.symbols@.len(),
                base + symbols_text_from(f.symbols@, 0) == out@ + symbols_text_from(
                    f.symbols@,
                    j as int,
                ),
            decreases f.symbols@.len() - j,
        {
            let ghost before = out@;
            push_symbol(out, &f.symbols[j], j == 0);
            proof {
                assert(symbols_text_from(f.symbols@, j as int) == symbol_text(
                    f.symbols@[j as int],
                    j == 0,
                ) + symbols_text_from(f.symbols@, j as int + 1));
                assert(before + (symbol_text(f.symbols@[j as int], j == 0) + symbols_text_from(
                    f.symbols@,
                    j as int + 1,
                )) =~= out@ + symbols_text_from(f.symbols@, j as int + 1));
            }
            j = j + 1;
        }
        proof {
            assert(out@ =~= base + symbols_text_from(f.symbols@, 0));
            assert(out@ =~= old(out)@ + frame_text(*f, idx as int));
        }
    }
}

/// Where the listing starts: `skip` frames in, or the end of a capture
/// shorter than that.
pub open spec fn start_index(fs: Seq<Frame>, skip: int) -> int {
    if skip <= fs.len() {
        skip
    } else {
        fs.len() as int
    }
}

/// Renders the captured frames, dropping the first `skip` of them and
/// numbering the kept frames from zero.
pub fn format_backtrace(frames: &Vec<Frame>, skip: usize) -> (r: String)
    ensures
        r@ == backtrace_text(frames@.skip(start_index(frames@, skip as int))),
{
    let start: usize = if skip <= frames.len() {
        skip
    } else {
        frames.len()
    };
    let ghost u = frames@.skip(start as int);
    let mut out: Vec<char> = Vec::new();
    let mut i: usize = start;
    while i < frames.len()
        invariant
            start <= i <= frames@.len(),
            u == frames@.skip(start as int),
            u.len() == frames@.len() - start,
            out@ + frames_text_from(u, i - start) == frames_text_from(u, 0),
        decreases frames@.len() - i,
    {
        let ghost before = out@;
        push_frame(&mut out, &frames[i], (i - start) as u64);
        proof {
            assert(u[i - start] == frames@[i as int]);
            assert(frames_text_from(u, i - start) == frame_text(u[i - start], i - start)
                + frames_text_from(u, i - start + 1));
            assert(before + (frame_text(u[i - start], i - start) + frames_text_from(
                u,
                i - start + 1,
            )) =~= out@ + frames_text_from(u, i - start + 1));
        }
        i = i + 1;
    }
    proof {
        assert(out@ + frames_text_from(u, i - start) =~= out@);
    }
    chars_to_string(&out)
}

/// Relies on `backtrace::Backtrace::new`, which unwinds and symbolizes the
/// current call stack, and on its accessors `ip`, `symbols`, `name`,
/// `filename` and `lineno`: every captured frame's address and resolved
/// symbols are copied out as plain values, innermost frame first. What is
/// captured depends on the running process, so nothing more is stated.
#[verifier::external_body]
pub(crate) fn capture_frames() -> (r: Vec<Frame>) {
    backtrace::Backtrace::new().frames().iter().map(
        |f| Frame {
            ip: f.ip() as u64,
            symbols: f.symbols().iter().map(
                |sym| Symbol {
                    name: sym.name().map(|n| format!("{}", n)),
                    file: sym.filename().map(|p| format!("{}", p.display())),
                    line: sym.lineno(),
                },
            ).collect(),
        },
    ).collect()
}

} // verus!
