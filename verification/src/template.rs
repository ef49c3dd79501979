//! Placeholder-substitution template engine.
//!
//! A template is plain text with placeholders of the form `%(key)`.
//! Rendering scans the text once, left to right: each placeholder whose key
//! is present in the table is replaced by the mapped value; a placeholder
//! with an unknown key is kept verbatim; an opener with no closing `)` is
//! passed through literally together with the rest of the text.

use vstd::prelude::*;

use crate::chars::{chars_to_string, push_range, push_str_chars, str_to_chars};

verus! {

/// The value mapped to `key` by the table: the first entry whose key's
/// characters equal `key`, searched front to back.
pub open spec fn lookup(t: Seq<(Seq<char>, Seq<char>)>, key: Seq<char>) -> Option<Seq<char>>
    decreases t.len(),
{
    if t.len() == 0 {
        None
    } else if t[0].0 == key {
        Some(t[0].1)
    } else {
        lookup(t.skip(1), key)
    }
}

/// The position of the first `)` at or after `i`, if any.
pub open spec fn find_close(s: Seq<char>, i: int) -> Option<int>
    decreases s.len() - i,
{
    if i < 0 || i >= s.len() {
        None
    } else if s[i] == ')' {
        Some(i)
    } else {
        find_close(s, i + 1)
    }
}

pub proof fn lemma_find_close(s: Seq<char>, i: int)
    requires
        0 <= i <= s.len(),
    ensures
        match find_close(s, i) {
            Some(j) => i <= j < s.len() && s[j] == ')' && (forall|k: int|
                i <= k < j ==> s[k] != ')'),
            None => forall|k: int| i <= k < s.len() ==> s[k] != ')',
        },
    decreases s.len() - i,
{
    if i < s.len() && s[i] != ')' {
        lemma_find_close(s, i + 1);
    }
}

/// `find_close` returns exactly the first closing parenthesis.
pub proof fn lemma_find_close_at(s: Seq<char>, i: int, j: int)
    requires
        0 <= i <= j < s.len(),
        s[j] == ')',
        forall|k: int| i <= k < j ==> s[k] != ')',
    ensures
        find_close(s, i) == Some(j),
    decreases j - i,
{
    if i < j {
        lemma_find_close_at(s, i + 1, j);
    }
}

/// The text that rendering `s` from position `i` on produces.
pub open spec fn render_from(s: Seq<char>, i: int, t: Seq<(Seq<char>, Seq<char>)>) -> Seq<char>
    decreases s.len() - i,
    via render_from_decreases
{
    if i < 0 || i >= s.len() {
        Seq::empty()
    } else if i + 1 < s.len() && s[i] == '%' && s[i + 1] == '(' {
        match find_close(s, i + 2) {
            Some(j) => {
                match lookup(t, s.subrange(i + 2, j)) {
                    Some(v) => v + render_from(s, j + 1, t),
                    None => s.subrange(i, j + 1) + render_from(s, j + 1, t),
                }
            },
            None => s.skip(i),
        }
    } else {
        seq![s[i]] + render_from(s, i + 1, t)
    }
}

#[via_fn]
proof fn render_from_decreases(s: Seq<char>, i: int, t: Seq<(Seq<char>, Seq<char>)>) {
    if 0 <= i && i + 1 < s.len() && s[i] == '%' && s[i + 1] == '(' {
        lemma_find_close(s, i + 2);
    }
}

/// The full rendering of a template against a table.
pub open spec fn render_spec(s: Seq<char>, t: Seq<(Seq<char>, Seq<char>)>) -> Seq<char> {
    render_from(s, 0, t)
}

proof fn lemma_find_close_skip(s: Seq<char>, d: int, i: int)
    requires
        0 <= d <= i <= s.len(),
    ensures
        find_close(s, i) == match find_close(s.skip(d), i - d) {
            Some(j) => Some(j + d),
            None => None::<int>,
        },
    decreases s.len() - i,
{
    if i < s.len() {
        assert(s.skip(d)[i - d] == s[i]);
        if s[i] != ')' {
            lemma_find_close_skip(s, d, i + 1);
        }
    }
}

/// Rendering from position `i` on is rendering the suffix that starts there.
pub proof fn lemma_render_from_skip(s: Seq<char>, i: int, t: Seq<(Seq<char>, Seq<char>)>)
    requires
        0 <= i <= s.len(),
    ensures
        render_from(s, i, t) == render_spec(s.skip(i), t),
    decreases s.len() - i,
{
    let u = s.skip(i);
    if i >= s.len() {
        assert(u.len() == 0);
    } else if i + 1 < s.len() && s[i] == '%' && s[i + 1] == '(' {
        assert(u[0] == s[i] && u[1] == s[i + 1]);
        lemma_find_close_skip(s, i, i + 2);
        lemma_find_close(s, i + 2);
        match find_close(s, i + 2) {
            Some(j) => {
                assert(find_close(u, 2) == Some(j - i));
                assert(s.subrange(i + 2, j) =~= u.subrange(2, j - i));
                lemma_render_from_skip(s, j + 1, t);
                lemma_render_from_skip(u, j - i + 1, t);
                assert(s.skip(j + 1) =~= u.skip(j - i + 1));
                assert(s.subrange(i, j + 1) =~= u.subrange(0, j - i + 1));
            },
            None => {
                assert(find_close(u, 2) is None);
                assert(u.skip(0) =~= u);
            },
        }
    } else {
        lemma_render_from_skip(s, i + 1, t);
        lemma_render_from_skip(u, 1, t);
        assert(s.skip(i + 1) =~= u.skip(1));
        assert(seq![s[i]] =~= seq![u[0]]);
    }
}

/// Positions `i..p` of `s` hold no placeholder opener, so they render as
/// themselves, in front of whatever follows from `p` on.
pub proof fn lemma_render_literal_prefix(s: Seq<char>, i: int, p: int, t: Seq<(Seq<char>, Seq<char>)>)
    requires
        0 <= i <= p <= s.len(),
        forall|m: int|
            i <= m < p ==> !(m + 1 < s.len() && #[trigger] s[m] == '%' && #[trigger] s[m + 1]
                == '('),
    ensures
        render_from(s, i, t) == s.subrange(i, p) + render_from(s, p, t),
    decreases p - i,
{
    if i == p {
        assert(s.subrange(i, p) + render_from(s, p, t) =~= render_from(s, i, t));
    } else {
        lemma_render_literal_prefix(s, i + 1, p, t);
        assert(seq![s[i]] + (s.subrange(i + 1, p) + render_from(s, p, t)) =~= s.subrange(i, p)
            + render_from(s, p, t));
    }
}

/// Whether the text holds a placeholder opener `%(` anywhere.
pub open spec fn has_placeholder_open(s: Seq<char>) -> bool {
    exists|m: int| 0 <= m && m + 1 < s.len() && #[trigger] s[m] == '%' && #[trigger] s[m + 1]
        == '('
}

/// The text of a placeholder for `key`.
pub open spec fn placeholder(key: Seq<char>) -> Seq<char> {
    seq!['%', '('] + key + seq![')']
}

/// Substitution is the identity on texts with no placeholder opener; in
/// particular, rendering is idempotent on any rendered text free of openers.
pub proof fn lemma_render_no_placeholder(s: Seq<char>, t: Seq<(Seq<char>, Seq<char>)>)
    requires
        !has_placeholder_open(s),
    ensures
        render_spec(s, t) == s,
{
    lemma_render_literal_prefix(s, 0, s.len() as int, t);
    assert(s.subrange(0, s.len() as int) + render_from(s, s.len() as int, t) =~= s);
}

/// How one placeholder renders inside a template: the text before it is
/// kept, the placeholder becomes the mapped value where its key is known
/// and stays verbatim where it is not, and the rest renders on its own.
pub proof fn lemma_render_placeholder(
    a: Seq<char>,
    k: Seq<char>,
    b: Seq<char>,
    t: Seq<(Seq<char>, Seq<char>)>,
)
    requires
        !has_placeholder_open(a),
        !k.contains(')'),
    ensures
        render_spec(a + placeholder(k) + b, t) == a + (match lookup(t, k) {
            Some(v) => v,
            None => placeholder(k),
        }) + render_spec(b, t),
{
    let s = a + placeholder(k) + b;
    let p = a.len() as int;
    let j = p + 2 + k.len() as int;
    assert forall|m: int| 0 <= m < p implies !(m + 1 < s.len() && #[trigger] s[m] == '%'
        && #[trigger] s[m + 1] == '(') by {
        if m + 1 < p {
            assert(s[m] == a[m] && s[m + 1] == a[m + 1]);
        } else if m + 1 == p {
            assert(s[m + 1] == placeholder(k)[0]);
        }
    }
    lemma_render_literal_prefix(s, 0, p, t);
    assert(s.subrange(0, p) =~= a);
    assert(s[p] == placeholder(k)[0] && s[p + 1] == placeholder(k)[1]);
    assert forall|q: int| p + 2 <= q < j implies s[q] != ')' by {
        assert(s[q] == placeholder(k)[q - p] && placeholder(k)[q - p] == k[q - p - 2]);
        assert(!(exists|n: int| 0 <= n < k.len() && k[n] == ')'));
    }
    assert(s[j] == placeholder(k)[2 + k.len() as int]);
    lemma_find_close_at(s, p + 2, j);
    assert(s.subrange(p + 2, j) =~= k);
    lemma_render_from_skip(s, j + 1, t);
    assert(s.skip(j + 1) =~= b);
    match lookup(t, k) {
        Some(v) => {
            assert(render_from(s, p, t) == v + render_spec(b, t));
            assert(a + (v + render_spec(b, t)) =~= a + v + render_spec(b, t));
        },
        None => {
            assert(s.subrange(p, j + 1) =~= placeholder(k));
            assert(render_from(s, p, t) == placeholder(k) + render_spec(b, t));
            assert(a + (placeholder(k) + render_spec(b, t)) =~= a + placeholder(k) + render_spec(
                b,
                t,
            ));
        },
    }
}

/// A template whose one placeholder key the table knows renders to the
/// template with that placeholder replaced by the mapped value.
pub proof fn lemma_render_known_key(
    a: Seq<char>,
    k: Seq<char>,
    v: Seq<char>,
    b: Seq<char>,
    t: Seq<(Seq<char>, Seq<char>)>,
)
    requires
        !has_placeholder_open(a),
        !k.contains(')'),
        lookup(t, k) == Some(v),
    ensures
        render_spec(a + placeholder(k) + b, t) == a + v + render_spec(b, t),
{
    lemma_render_placeholder(a, k, b, t);
}

/// A placeholder whose key the table does not know is preserved unchanged.
pub proof fn lemma_render_unknown_key(
    a: Seq<char>,
    k: Seq<char>,
    b: Seq<char>,
    t: Seq<(Seq<char>, Seq<char>)>,
)
    requires
        !has_placeholder_open(a),
        !k.contains(')'),
        lookup(t, k) is None,
    ensures
        render_spec(a + placeholder(k) + b, t) == a + placeholder(k) + render_spec(b, t),
{
    lemma_render_placeholder(a, k, b, t);
}

/// A template assembled from pieces: each piece is a literal segment
/// followed by one placeholder, and `tail` is the literal text after the
/// last placeholder.
pub open spec fn assembled(pieces: Seq<(Seq<char>, Seq<char>)>, tail: Seq<char>) -> Seq<char>
    decreases pieces.len(),
{
    if pieces.len() == 0 {
        tail
    } else {
        pieces[0].0 + placeholder(pieces[0].1) + assembled(pieces.skip(1), tail)
    }
}

/// The same template with every placeholder substituted: known keys become
/// their mapped values, unknown keys keep their placeholder text.
pub open spec fn substituted(
    pieces: Seq<(Seq<char>, Seq<char>)>,
    tail: Seq<char>,
    t: Seq<(Seq<char>, Seq<char>)>,
) -> Seq<char>
    decreases pieces.len(),
{
    if pieces.len() == 0 {
        tail
    } else {
        pieces[0].0 + (match lookup(t, pieces[0].1) {
            Some(v) => v,
            None => placeholder(pieces[0].1),
        }) + substituted(pieces.skip(1), tail, t)
    }
}

/// Rendering substitutes every placeholder of a template, each key looked
/// up independently: known keys are replaced by their mapped values and
/// unknown keys are preserved verbatim, with all literal text unchanged.
pub proof fn lemma_render_assembled(
    pieces: Seq<(Seq<char>, Seq<char>)>,
    tail: Seq<char>,
    t: Seq<(Seq<char>, Seq<char>)>,
)
    requires
        forall|i: int|
            0 <= i < pieces.len() ==> !has_placeholder_open(#[trigger] pieces[i].0) && !pieces[i].1.contains(')'),
        !has_placeholder_open(tail),
    ensures
        render_spec(assembled(pieces, tail), t) == substituted(pieces, tail, t),
    decreases pieces.len(),
{
    if pieces.len() == 0 {
        lemma_render_no_placeholder(tail, t);
    } else {
        let a = pieces[0].0;
        let k = pieces[0].1;
        let b = assembled(pieces.skip(1), tail);
        lemma_render_placeholder(a, k, b, t);
        lemma_render_assembled(pieces.skip(1), tail, t);
        let v = match lookup(t, k) {
            Some(v) => v,
            None => placeholder(k),
        };
        assert(a + v + substituted(pieces.skip(1), tail, t) =~= a + (v + substituted(
            pieces.skip(1),
            tail,
            t,
        )));
    }
}

/// The deep view of an entry is the pair of its key's and value's characters.
proof fn lemma_table_view(table: &Vec<(String, String)>)
    ensures
        table.deep_view().len() == table@.len(),
        forall|i: int|
            0 <= i < table@.len() ==> #[trigger] table.deep_view()[i] == (
                table@[i].0@,
                table@[i].1@,
            ),
{
}

/// Looks a key up in the table, front to back.
fn lookup_exec(table: &Vec<(String, String)>, key: &Vec<char>) -> (r: Option<String>)
    ensures
        match r {
            Some(v) => lookup(table.deep_view(), key@) == Some(v@),
            None => lookup(table.deep_view(), key@) is None,
        },
{
    let ghost dv = table.deep_view();
    proof {
        lemma_table_view(table);
        assert(dv.skip(0) =~= dv);
    }
    let key_s = chars_to_string(key);
    let mut idx: usize = 0;
    while idx < table.len()
        invariant
            idx <= table@.len(),
            dv == table.deep_view(),
            dv.len() == table@.len(),
            forall|i: int| 0 <= i < table@.len() ==> #[trigger] dv[i] == (table@[i].0@, table@[i].1@),
            key_s@ == key@,
            lookup(dv, key@) == lookup(dv.skip(idx as int), key@),
        decreases table@.len() - idx,
    {
        proof {
            assert(dv.skip(idx as int)[0] == dv[idx as int]);
            assert(dv.skip(idx as int).skip(1) =~= dv.skip(idx as int + 1));
        }
        if table[idx].0 == key_s {
            return Some(table[idx].1.clone());
        }
        idx = idx + 1;
    }
    None
}

/// Renders a template against a key/value table: each `%(key)` whose key
/// the table holds becomes the mapped value; an unknown key's placeholder
/// is kept verbatim; an unterminated opener passes through literally.
pub fn render(template: &str, table: &Vec<(String, String)>) -> (r: String)
    ensures
        r@ == render_spec(template@, table.deep_view()),
{
    let s = str_to_chars(template);
    let mut out: Vec<char> = Vec::new();
    let mut i: usize = 0;
    while i < s.len()
        invariant
            s@ == template@,
            i <= s@.len(),
            out@ + render_from(s@, i as int, table.deep_view()) == render_spec(s@, table.deep_view()),
        decreases s@.len() - i,
    {
        if i + 1 < s.len() && s[i] == '%' && s[i + 1] == '(' {
            // scan for the closing parenthesis
            let mut j: usize = i + 2;
            while j < s.len() && s[j] != ')'
                invariant
                    i + 2 <= j <= s@.len(),
                    forall|k: int| i + 2 <= k < j ==> s@[k] != ')',
                decreases s@.len() - j,
            {
                j = j + 1;
            }
            if j < s.len() {
                // s[j] == ')': a complete placeholder
                proof {
                    lemma_find_close_at(s@, i + 2, j as int);
                }
                let mut key: Vec<char> = Vec::new();
                push_range(&mut key, &s, i + 2, j);
                match lookup_exec(table, &key) {
                    Some(v) => {
                        push_str_chars(&mut out, v.as_str());
                    },
                    None => {
                        push_range(&mut out, &s, i, j + 1);
                    },
                }
                i = j + 1;
            } else {
                // no closing parenthesis: the rest passes through literally
                proof {
                    lemma_find_close(s@, i + 2 as int);
                    assert(s@.subrange(i as int, s@.len() as int) =~= s@.skip(i as int));
                }
                push_range(&mut out, &s, i, s.len());
                i = s.len();
            }
        } else {
            out.push(s[i]);
            i = i + 1;
            proof {
                assert(out@ == (out@.drop_last()).push(s@[i - 1]));
                assert(out@.drop_last() + (seq![s@[i - 1]] + render_from(s@, i as int, table.deep_view())) =~= out@ + render_from(s@, i as int, table.deep_view()));
            }
        }
    }
    proof {
        assert(out@ + render_from(s@, i as int, table.deep_view()) =~= out@);
    }
    chars_to_string(&out)
}

} // verus!
