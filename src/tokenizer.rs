//! Splits a raw input line into shell-style tokens.
//!
//! A backslash makes the next character literal, also inside quotes. A single
//! or double quote opens a quoted region that closes on the next unescaped
//! occurrence of the same quote character; inside it whitespace is literal.
//! Unquoted whitespace separates tokens. Quoted and unquoted spans that touch
//! form one token, and an unclosed quote ends with the input.
use vstd::prelude::*;
use crate::text::{is_white_space, is_whitespace, push_char};

verus! {

pub const ESCAPE_CHAR: char = '\\';

pub const SINGLE_QUOTE: char = '\'';

pub const DOUBLE_QUOTE: char = '"';

pub open spec fn is_quote_char(c: char) -> bool {
    c == SINGLE_QUOTE || c == DOUBLE_QUOTE
}

/// The scanner's state after a prefix of the line: the finished tokens, the
/// token in progress (if any), whether the next character is escaped, and the
/// quote character of the open quoted region (if any).
pub type ScanState = (Seq<Seq<char>>, Option<Seq<char>>, bool, Option<char>);

pub open spec fn initial_state() -> ScanState {
    (Seq::empty(), None, false, None)
}

/// The token in progress with one more character.
pub open spec fn extend_token(current: Option<Seq<char>>, c: char) -> Option<Seq<char>> {
    match current {
        Some(t) => Some(t.push(c)),
        None => Some(seq![c]),
    }
}

/// The finished tokens, with the token in progress (if any) added.
pub open spec fn close_token(tokens: Seq<Seq<char>>, current: Option<Seq<char>>) -> Seq<
    Seq<char>,
> {
    match current {
        Some(t) => tokens.push(t),
        None => tokens,
    }
}

/// The scanner's state after one more character.
pub open spec fn scan_step(st: ScanState, c: char) -> ScanState {
    let (tokens, current, escaped, quote) = st;
    if escaped {
        (tokens, extend_token(current, c), false, quote)
    } else if c == ESCAPE_CHAR {
        (tokens, current, true, quote)
    } else if quote is Some {
        if c == quote->0 {
            (tokens, current, false, None)
        } else {
            (tokens, extend_token(current, c), false, quote)
        }
    } else if is_quote_char(c) {
        (tokens, current, false, Some(c))
    } else if is_white_space(c) {
        (close_token(tokens, current), None, false, None)
    } else {
        (tokens, extend_token(current, c), false, None)
    }
}

/// The scanner's state after the characters of `s`, left to right, from `st`.
pub open spec fn scan_from(st: ScanState, s: Seq<char>) -> ScanState
    decreases s.len(),
{
    if s.len() == 0 {
        st
    } else {
        scan_step(scan_from(st, s.drop_last()), s.last())
    }
}

/// The tokens of a line.
pub open spec fn tokenize(s: Seq<char>) -> Seq<Seq<char>> {
    let st = scan_from(initial_state(), s);
    close_token(st.0, st.1)
}

/// The views of a vector of strings.
pub open spec fn string_views(v: Seq<String>) -> Seq<Seq<char>> {
    v.map_values(|t: String| t@)
}

pub open spec fn opt_view(t: Option<String>) -> Option<Seq<char>> {
    match t {
        Some(s) => Some(s@),
        None => None,
    }
}

fn extend(current: Option<String>, c: char) -> (r: Option<String>)
    ensures
        opt_view(r) == extend_token(opt_view(current), c),
{
    match current {
        Some(mut t) => {
            push_char(&mut t, c);
            Some(t)
        },
        None => {
            let mut t = String::new();
            push_char(&mut t, c);
            assert(t@ =~= seq![c]);
            Some(t)
        },
    }
}

fn close(current: Option<String>, tokens: &mut Vec<String>)
    ensures
        string_views(final(tokens)@) == close_token(string_views(old(tokens)@), opt_view(current)),
{
    if let Some(t) = current {
        tokens.push(t);
        assert(string_views(tokens@) =~= string_views(old(tokens)@).push(t@));
    }
}

/// Splits `s` into tokens.
pub fn tokenize_string(s: &str) -> (tokens: Vec<String>)
    ensures
        string_views(tokens@) == tokenize(s@),
{
    let n = s.unicode_len();
    let mut tokens: Vec<String> = Vec::new();
    let mut current: Option<String> = None;
    let mut escaped = false;
    let mut quote: Option<char> = None;
    let mut i: usize = 0;
    assert(string_views(tokens@) =~= Seq::<Seq<char>>::empty());
    while i < n
        invariant
            n == s@.len(),
            i <= n,
            (string_views(tokens@), opt_view(current), escaped, quote) == scan_from(
                initial_state(),
                s@.subrange(0, i as int),
            ),
        decreases n - i,
    {
        let c = s.get_char(i);
        if escaped {
            current = extend(current, c);
            escaped = false;
        } else if c == ESCAPE_CHAR {
            escaped = true;
        } else if let Some(q) = quote {
            if c == q {
                quote = None;
            } else {
                current = extend(current, c);
            }
        } else if c == SINGLE_QUOTE || c == DOUBLE_QUOTE {
            quote = Some(c);
        } else if is_whitespace(c) {
            close(current, &mut tokens);
            current = None;
        } else {
            current = extend(current, c);
        }
        assert(s@.subrange(0, i + 1).drop_last() =~= s@.subrange(0, i as int));
        i = i + 1;
    }
    assert(s@.subrange(0, n as int) =~= s@);
    close(current, &mut tokens);
    tokens
}

/// Scanning `a` then `b` is scanning `a + b`.
pub proof fn lemma_scan_concat(st: ScanState, a: Seq<char>, b: Seq<char>)
    ensures
        scan_from(st, a + b) == scan_from(scan_from(st, a), b),
    decreases b.len(),
{
    if b.len() == 0 {
        assert(a + b =~= a);
    } else {
        lemma_scan_concat(st, a, b.drop_last());
        assert((a + b).drop_last() =~= a + b.drop_last());
        assert((a + b).last() == b.last());
    }
}

pub open spec fn all_white_space(s: Seq<char>) -> bool {
    forall|i: int| 0 <= i < s.len() ==> is_white_space(#[trigger] s[i])
}

/// Unquoted, unescaped whitespace closes the token in progress and changes
/// nothing else.
pub proof fn lemma_scan_white_space(st: ScanState, w: Seq<char>)
    requires
        !st.2,
        st.3 is None,
        all_white_space(w),
    ensures
        scan_from(st, w) == (if w.len() == 0 {
            st
        } else {
            (close_token(st.0, st.1), None, false, None)
        }),
    decreases w.len(),
{
    if w.len() > 0 {
        let c = w.last();
        assert(is_white_space(w[w.len() - 1]));
        assert(c != ESCAPE_CHAR);
        assert(!is_quote_char(c));
        lemma_scan_white_space(st, w.drop_last());
    }
}

/// Each character of `t` preceded by the escape character.
pub open spec fn escape_each(t: Seq<char>) -> Seq<char>
    decreases t.len(),
{
    if t.len() == 0 {
        Seq::empty()
    } else {
        escape_each(t.drop_last()) + seq![ESCAPE_CHAR, t.last()]
    }
}

proof fn lemma_scan_escaped(t: Seq<char>)
    requires
        t.len() > 0,
    ensures
        scan_from(initial_state(), escape_each(t)) == (Seq::<Seq<char>>::empty(), Some(t), false, None::<char>),
    decreases t.len(),
{
    let p = t.drop_last();
    let pair = seq![ESCAPE_CHAR, t.last()];
    assert(pair.drop_last() =~= seq![ESCAPE_CHAR]);
    assert(pair.drop_last().drop_last() =~= Seq::<char>::empty());
    let st = if p.len() == 0 {
        initial_state()
    } else {
        (Seq::<Seq<char>>::empty(), Some(p), false, None::<char>)
    };
    if p.len() == 0 {
        assert(escape_each(p) =~= Seq::<char>::empty());
        assert(escape_each(t) =~= pair);
        assert(seq![t.last()] =~= t);
    } else {
        lemma_scan_escaped(p);
        lemma_scan_concat(initial_state(), escape_each(p), pair);
        assert(p.push(t.last()) =~= t);
    }
    let s1 = scan_from(st, pair.drop_last().drop_last());
    assert(s1 == st);
    let s2 = scan_from(st, pair.drop_last());
    assert(s2 == scan_step(s1, ESCAPE_CHAR));
    assert(scan_from(st, pair) == scan_step(s2, t.last()));
}

/// A line that holds nothing but unquoted whitespace has no tokens; nor has
/// the empty line.
pub proof fn lemma_tokenize_white_space(s: Seq<char>)
    requires
        all_white_space(s),
    ensures
        tokenize(s) == Seq::<Seq<char>>::empty(),
{
    lemma_scan_white_space(initial_state(), s);
}

/// A run of escaped characters, with only unquoted whitespace around it, is
/// one token made of the escaped characters themselves; escaped whitespace
/// among them is kept literally.
pub proof fn lemma_tokenize_escaped_run(lead: Seq<char>, t: Seq<char>, trail: Seq<char>)
    requires
        all_white_space(lead),
        all_white_space(trail),
        t.len() > 0,
    ensures
        tokenize(lead + escape_each(t) + trail) == seq![t],
{
    let e = escape_each(t);
    lemma_scan_concat(initial_state(), lead + e, trail);
    lemma_scan_concat(initial_state(), lead, e);
    lemma_scan_white_space(initial_state(), lead);
    assert(scan_from(initial_state(), lead) == initial_state());
    lemma_scan_escaped(t);
    let mid = scan_from(initial_state(), lead + e);
    lemma_scan_white_space(mid, trail);
    assert(Seq::<Seq<char>>::empty().push(t) =~= seq![t]);
}

/// The words of `s` so far, and the word in progress, when splitting at
/// whitespace only.
pub open spec fn split_state(s: Seq<char>) -> (Seq<Seq<char>>, Option<Seq<char>>)
    decreases s.len(),
{
    if s.len() == 0 {
        (Seq::empty(), None)
    } else {
        let (words, current) = split_state(s.drop_last());
        if is_white_space(s.last()) {
            (close_token(words, current), None)
        } else {
            (words, extend_token(current, s.last()))
        }
    }
}

/// The maximal runs of non-whitespace characters of `s`, in order.
pub open spec fn split_whitespace(s: Seq<char>) -> Seq<Seq<char>> {
    let (words, current) = split_state(s);
    close_token(words, current)
}

proof fn lemma_scan_plain(s: Seq<char>)
    requires
        forall|i: int| 0 <= i < s.len() ==> #[trigger] s[i] != ESCAPE_CHAR && !is_quote_char(s[i]),
    ensures
        scan_from(initial_state(), s) == (split_state(s).0, split_state(s).1, false, None::<char>),
    decreases s.len(),
{
    if s.len() > 0 {
        assert(s[s.len() - 1] == s.last());
        lemma_scan_plain(s.drop_last());
    }
}

/// A line with neither escape nor quote characters is split at whitespace.
pub proof fn lemma_tokenize_plain(s: Seq<char>)
    requires
        forall|i: int| 0 <= i < s.len() ==> #[trigger] s[i] != ESCAPE_CHAR && !is_quote_char(s[i]),
    ensures
        tokenize(s) == split_whitespace(s),
{
    lemma_scan_plain(s);
}

} // verus!
