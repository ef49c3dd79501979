//! The flat key/value text encoding reports are stored in.
//!
//! Each field is one line, `key = "value"`, with the value quoted and the
//! characters `\`, `"`, newline, carriage return and tab escaped. Encoding
//! and decoding invert each other, and the decoder rejects any text the
//! encoder cannot produce for the expected key.

use vstd::prelude::*;

use crate::chars::push_str_chars;

verus! {

/// How one character is written inside a quoted value.
pub open spec fn esc_char(c: char) -> Seq<char> {
    if c == '\\' {
        seq!['\\', '\\']
    } else if c == '"' {
        seq!['\\', '"']
    } else if c == '\n' {
        seq!['\\', 'n']
    } else if c == '\r' {
        seq!['\\', 'r']
    } else if c == '\t' {
        seq!['\\', 't']
    } else {
        seq![c]
    }
}

/// A value's characters as written inside its quotes.
pub open spec fn esc(s: Seq<char>) -> Seq<char>
    decreases s.len(),
{
    if s.len() == 0 {
        Seq::empty()
    } else {
        esc_char(s[0]) + esc(s.skip(1))
    }
}

/// The character an escape introducer is followed by maps back to.
pub open spec fn unesc_char(c: char) -> Option<char> {
    if c == '\\' {
        Some('\\')
    } else if c == '"' {
        Some('"')
    } else if c == 'n' {
        Some('\n')
    } else if c == 'r' {
        Some('\r')
    } else if c == 't' {
        Some('\t')
    } else {
        None
    }
}

/// Reads a quoted value from the front of `s` up to its closing quote:
/// the value's characters, and what follows the quote.
pub open spec fn unesc_scan(s: Seq<char>) -> Option<(Seq<char>, Seq<char>)>
    decreases s.len(),
{
    if s.len() == 0 {
        None
    } else if s[0] == '"' {
        Some((Seq::empty(), s.skip(1)))
    } else if s[0] == '\\' {
        if s.len() < 2 {
            None
        } else {
            match unesc_char(s[1]) {
                Some(u) => match unesc_scan(s.skip(2)) {
                    Some(p) => Some((seq![u] + p.0, p.1)),
                    None => None,
                },
                None => None,
            }
        }
    } else if s[0] == '\n' {
        None
    } else {
        match unesc_scan(s.skip(1)) {
            Some(p) => Some((seq![s[0]] + p.0, p.1)),
            None => None,
        }
    }
}

/// Scanning an escaped value followed by its closing quote recovers the
/// value exactly and leaves exactly what follows the quote.
pub proof fn lemma_unesc_esc(v: Seq<char>, r: Seq<char>)
    ensures
        unesc_scan(esc(v) + seq!['"'] + r) == Some((v, r)),
    decreases v.len(),
{
    let s = esc(v) + seq!['"'] + r;
    if v.len() == 0 {
        assert(esc(v) =~= Seq::<char>::empty());
        assert(s[0] == '"');
        assert(s.skip(1) =~= r);
    } else {
        let c = v[0];
        lemma_unesc_esc(v.skip(1), r);
        assert(esc(v) == esc_char(c) + esc(v.skip(1)));
        if c == '\\' || c == '"' || c == '\n' || c == '\r' || c == '\t' {
            assert(s[0] == '\\');
            assert(s[1] == esc_char(c)[1]);
            assert(unesc_char(esc_char(c)[1]) == Some(c));
            assert(s.skip(2) =~= esc(v.skip(1)) + seq!['"'] + r);
            assert(seq![c] + v.skip(1) =~= v);
        } else {
            assert(s[0] == c);
            assert(s.skip(1) =~= esc(v.skip(1)) + seq!['"'] + r);
            assert(seq![c] + v.skip(1) =~= v);
        }
    }
}

/// Escaping one more character appends that character's escape.
pub proof fn lemma_esc_push(a: Seq<char>, c: char)
    ensures
        esc(a.push(c)) == esc(a) + esc_char(c),
    decreases a.len(),
{
    if a.len() == 0 {
        assert(a.push(c)[0] == c);
        assert(a.push(c).skip(1) =~= Seq::<char>::empty());
        assert(esc(a.push(c)) == esc_char(c) + esc(a.push(c).skip(1)));
        assert(esc_char(c) + Seq::<char>::empty() =~= esc_char(c));
        assert(esc(a) + esc_char(c) =~= esc_char(c));
    } else {
        lemma_esc_push(a.skip(1), c);
        assert(a.push(c).skip(1) =~= a.skip(1).push(c));
        assert(a.push(c)[0] == a[0]);
        assert(esc_char(a[0]) + (esc(a.skip(1)) + esc_char(c)) =~= (esc_char(a[0]) + esc(
            a.skip(1),
        )) + esc_char(c));
    }
}

/// One encoded field: the key, ` = `, and the quoted, escaped value.
pub open spec fn field_line(key: Seq<char>, val: Seq<char>) -> Seq<char> {
    key + " = \""@ + esc(val) + "\"\n"@
}

/// Reads one field for `key` from the front of `s`: the decoded value and
/// the remaining text after the line.
pub open spec fn parse_field(s: Seq<char>, key: Seq<char>) -> Option<(Seq<char>, Seq<char>)> {
    let pre = key + " = \""@;
    if s.len() >= pre.len() && s.subrange(0, pre.len() as int) == pre {
        match unesc_scan(s.skip(pre.len() as int)) {
            Some(p) => if p.1.len() >= 1 && p.1[0] == '\n' {
                Some((p.0, p.1.skip(1)))
            } else {
                None
            },
            None => None,
        }
    } else {
        None
    }
}

/// Parsing a field recovers exactly the value the line encodes, leaving
/// exactly the following text.
pub proof fn lemma_parse_field_line(key: Seq<char>, v: Seq<char>, rest: Seq<char>)
    ensures
        parse_field(field_line(key, v) + rest, key) == Some((v, rest)),
{
    let s = field_line(key, v) + rest;
    let pre = key + " = \""@;
    reveal_strlit(" = \"");
    reveal_strlit("\"\n");
    assert(s.len() >= pre.len());
    assert(s.subrange(0, pre.len() as int) =~= pre);
    assert("\"\n"@ =~= seq!['"', '\n']);
    assert(s.skip(pre.len() as int) =~= esc(v) + seq!['"'] + (seq!['\n'] + rest));
    lemma_unesc_esc(v, seq!['\n'] + rest);
    assert((seq!['\n'] + rest)[0] == '\n');
    assert((seq!['\n'] + rest).skip(1) =~= rest);
}

/// Appends a value's characters in escaped form.
pub fn push_escaped(out: &mut Vec<char>, s: &str)
    ensures
        final(out)@ == old(out)@ + esc(s@),
{
    let n = s.unicode_len();
    let mut i: usize = 0;
    proof {
        assert(s@.subrange(0, 0) =~= Seq::<char>::empty());
    }
    while i < n
        invariant
            n == s@.len(),
            i <= n,
            out@ == old(out)@ + esc(s@.subrange(0, i as int)),
        decreases n - i,
    {
        let c = s.get_char(i);
        if c == '\\' {
            out.push('\\');
            out.push('\\');
        } else if c == '"' {
            out.push('\\');
            out.push('"');
        } else if c == '\n' {
            out.push('\\');
            out.push('n');
        } else if c == '\r' {
            out.push('\\');
            out.push('r');
        } else if c == '\t' {
            out.push('\\');
            out.push('t');
        } else {
            out.push(c);
        }
        proof {
            lemma_esc_push(s@.subrange(0, i as int), s@[i as int]);
            assert(s@.subrange(0, i + 1) =~= s@.subrange(0, i as int).push(s@[i as int]));
            assert(out@ =~= old(out)@ + esc(s@.subrange(0, i + 1)));
        }
        i = i + 1;
    }
    proof {
        assert(s@.subrange(0, n as int) =~= s@);
    }
}

/// Appends one encoded field line.
pub fn push_field_line(out: &mut Vec<char>, key: &str, val: &str)
    ensures
        final(out)@ == old(out)@ + field_line(key@, val@),
{
    push_str_chars(out, key);
    push_str_chars(out, " = \"");
    push_escaped(out, val);
    push_str_chars(out, "\"\n");
    proof {
        assert(out@ =~= old(out)@ + field_line(key@, val@));
    }
}

/// Whether the characters of `lit` stand at position `pos` of `s`.
pub fn starts_at(s: &Vec<char>, pos: usize, lit: &str) -> (r: bool)
    requires
        pos <= s@.len(),
    ensures
        r == (pos + lit@.len() <= s@.len() && s@.subrange(pos as int, pos + lit@.len()) == lit@),
{
    let n = lit.unicode_len();
    let slen = s.len();
    if n > slen - pos {
        return false;
    }
    let mut k: usize = 0;
    while k < n
        invariant
            n == lit@.len(),
            slen == s@.len(),
            pos + n <= slen,
            k <= n,
            forall|m: int| 0 <= m < k ==> s@[pos + m] == lit@[m],
        decreases n - k,
    {
        if s[pos + k] != lit.get_char(k) {
            proof {
                assert(s@.subrange(pos as int, pos + lit@.len())[k as int] == s@[pos + k]);
            }
            return false;
        }
        k = k + 1;
    }
    proof {
        assert(s@.subrange(pos as int, pos + lit@.len()) =~= lit@);
    }
    true
}

/// Whether the characters of `v` are exactly those of `lit`.
pub fn chars_eq_lit(v: &Vec<char>, lit: &str) -> (r: bool)
    ensures
        r == (v@ == lit@),
{
    let n = lit.unicode_len();
    if v.len() != n {
        return false;
    }
    let mut k: usize = 0;
    while k < n
        invariant
            n == lit@.len(),
            v@.len() == n,
            k <= n,
            forall|m: int| 0 <= m < k ==> v@[m] == lit@[m],
        decreases n - k,
    {
        if v[k] != lit.get_char(k) {
            return false;
        }
        k = k + 1;
    }
    proof {
        assert(v@ =~= lit@);
    }
    true
}

/// Reads a quoted value starting at `pos`: the decoded characters and the
/// position just past the closing quote.
pub fn unescape_from(s: &Vec<char>, pos: usize) -> (r: Option<(Vec<char>, usize)>)
    requires
        pos <= s@.len(),
    ensures
        match r {
            Some(p) => p.1 <= s@.len() && unesc_scan(s@.skip(pos as int)) == Some(
                (p.0@, s@.skip(p.1 as int)),
            ),
            None => unesc_scan(s@.skip(pos as int)) is None,
        },
{
    let mut v: Vec<char> = Vec::new();
    let mut i: usize = pos;
    loop
        invariant
            pos <= i <= s@.len(),
            match unesc_scan(s@.skip(i as int)) {
                Some(p) => unesc_scan(s@.skip(pos as int)) == Some((v@ + p.0, p.1)),
                None => unesc_scan(s@.skip(pos as int)) is None,
            },
        decreases s@.len() - i,
    {
        if i >= s.len() {
            return None;
        }
        proof {
            assert(s@.skip(i as int)[0] == s@[i as int]);
            assert(s@.skip(i as int).skip(1) =~= s@.skip(i + 1));
        }
        let c = s[i];
        if c == '"' {
            proof {
                assert(v@ + Seq::<char>::empty() =~= v@);
            }
            return Some((v, i + 1));
        }
        if c == '\\' {
            if i + 1 >= s.len() {
                return None;
            }
            proof {
                assert(s@.skip(i as int)[1] == s@[i + 1]);
                assert(s@.skip(i as int).skip(2) =~= s@.skip(i + 2));
            }
            let e = s[i + 1];
            let u: char;
            if e == '\\' {
                u = '\\';
            } else if e == '"' {
                u = '"';
            } else if e == 'n' {
                u = '\n';
            } else if e == 'r' {
                u = '\r';
            } else if e == 't' {
                u = '\t';
            } else {
                return None;
            }
            let ghost old_v = v@;
            v.push(u);
            proof {
                match unesc_scan(s@.skip(i + 2)) {
                    Some(p) => {
                        assert(old_v + (seq![u] + p.0) =~= v@ + p.0);
                    },
                    None => {},
                }
            }
            i = i + 2;
        } else if c == '\n' {
            return None;
        } else {
            let ghost old_v = v@;
            v.push(c);
            proof {
                match unesc_scan(s@.skip(i + 1)) {
                    Some(p) => {
                        assert(old_v + (seq![c] + p.0) =~= v@ + p.0);
                    },
                    None => {},
                }
            }
            i = i + 1;
        }
    }
}

/// Reads one field for `key` starting at `pos`: the decoded value and the
/// position just past the line's newline.
pub fn parse_field_from(s: &Vec<char>, pos: usize, key: &str) -> (r: Option<(Vec<char>, usize)>)
    requires
        pos <= s@.len(),
    ensures
        match r {
            Some(p) => p.1 <= s@.len() && parse_field(s@.skip(pos as int), key@) == Some(
                (p.0@, s@.skip(p.1 as int)),
            ),
            None => parse_field(s@.skip(pos as int), key@) is None,
        },
{
    let ghost u = s@.skip(pos as int);
    let ghost pre = key@ + " = \""@;
    let slen = s.len();
    let kn = key.unicode_len();
    if !starts_at(s, pos, key) {
        proof {
            if u.len() >= pre.len() && u.subrange(0, pre.len() as int) == pre {
                assert(u.subrange(0, key@.len() as int) =~= s@.subrange(pos as int, pos
                    + key@.len()));
                assert(u.subrange(0, key@.len() as int) =~= u.subrange(0, pre.len() as int)
                    .subrange(0, key@.len() as int));
                assert(pre.subrange(0, key@.len() as int) =~= key@);
            }
        }
        return None;
    }
    proof {
        assert(pos + kn <= slen);
    }
    let quote_start = pos + kn;
    if !starts_at(s, quote_start, " = \"") {
        proof {
            reveal_strlit(" = \"");
            if u.len() >= pre.len() && u.subrange(0, pre.len() as int) == pre {
                assert(pre.len() == key@.len() + 4);
                assert(u.subrange(key@.len() as int, pre.len() as int) =~= u.subrange(
                    0,
                    pre.len() as int,
                ).subrange(key@.len() as int, pre.len() as int));
                assert(pre.subrange(key@.len() as int, pre.len() as int) =~= " = \""@);
                assert(u.subrange(key@.len() as int, pre.len() as int) =~= s@.subrange(
                    quote_start as int,
                    quote_start + 4,
                ));
                assert(s@.subrange(quote_start as int, quote_start + 4) == " = \""@);
                assert(quote_start + 4 <= s@.len());
                assert(false);
            }
        }
        return None;
    }
    proof {
        reveal_strlit(" = \"");
    }
    let vstart = quote_start + 4;
    proof {
        assert(u.len() >= pre.len());
        assert(u.subrange(0, pre.len() as int) =~= s@.subrange(pos as int, pos + pre.len()));
        assert(s@.subrange(pos as int, pos + pre.len()) =~= s@.subrange(pos as int, pos
            + key@.len()) + s@.subrange(quote_start as int, quote_start + 4));
        assert(u.subrange(0, pre.len() as int) =~= pre);
        assert(u.skip(pre.len() as int) =~= s@.skip(vstart as int));
    }
    match unescape_from(s, vstart) {
        Some((v, after)) => {
            if after < s.len() {
                proof {
                    assert(s@.skip(after as int)[0] == s@[after as int]);
                    assert(s@.skip(after as int).skip(1) =~= s@.skip(after + 1));
                }
                let c = s[after];
                if c == '\n' {
                    return Some((v, after + 1));
                }
            }
            None
        },
        None => None,
    }
}

} // verus!
