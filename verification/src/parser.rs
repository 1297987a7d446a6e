//! The tokenizer: splits an input line into arguments, resolving single
//! quotes, double quotes and backslash escapes.

use crate::text::{char_is_whitespace, chars_of, is_whitespace};
use vstd::prelude::*;

verus! {

/// The text of a single-quoted section whose opening quote has been consumed,
/// with the position after the section. Everything up to the next `'` is
/// literal; without a closing quote the section runs to the end of the input.
pub open spec fn single_quoted(s: Seq<char>, i: int) -> (Seq<char>, int)
    decreases s.len() - i,
{
    if i >= s.len() {
        (Seq::empty(), i)
    } else if s[i] == '\'' {
        (Seq::empty(), i + 1)
    } else {
        let rest = single_quoted(s, i + 1);
        (seq![s[i]] + rest.0, rest.1)
    }
}

/// The characters that a backslash escapes inside double quotes.
pub open spec fn double_quote_escapable(c: char) -> bool {
    c == '\\' || c == '$' || c == '"' || c == '\n'
}

/// The text of a double-quoted section whose opening quote has been consumed,
/// with the position after the section. A backslash before `\`, `$`, `"` or a
/// newline yields that character alone; any other backslash is literal.
pub open spec fn double_quoted(s: Seq<char>, i: int) -> (Seq<char>, int)
    decreases s.len() - i,
{
    if i >= s.len() {
        (Seq::empty(), i)
    } else if s[i] == '"' {
        (Seq::empty(), i + 1)
    } else if s[i] == '\\' && i + 1 < s.len() && double_quote_escapable(s[i + 1]) {
        let rest = double_quoted(s, i + 2);
        (seq![s[i + 1]] + rest.0, rest.1)
    } else {
        let rest = double_quoted(s, i + 1);
        (seq![s[i]] + rest.0, rest.1)
    }
}

/// A quoted section ends at or after its start and within the input.
pub proof fn lemma_single_quoted_end(s: Seq<char>, i: int)
    requires
        0 <= i <= s.len(),
    ensures
        i <= single_quoted(s, i).1 <= s.len(),
    decreases s.len() - i,
{
    if i < s.len() && s[i] != '\'' {
        lemma_single_quoted_end(s, i + 1);
    }
}

/// A quoted section ends at or after its start and within the input.
pub proof fn lemma_double_quoted_end(s: Seq<char>, i: int)
    requires
        0 <= i <= s.len(),
    ensures
        i <= double_quoted(s, i).1 <= s.len(),
    decreases s.len() - i,
{
    if i < s.len() && s[i] != '"' {
        if s[i] == '\\' && i + 1 < s.len() && double_quote_escapable(s[i + 1]) {
            lemma_double_quoted_end(s, i + 2);
        } else {
            lemma_double_quoted_end(s, i + 1);
        }
    }
}

/// The token that starts at position `i`, with the position after it. The
/// token ends at whitespace outside quotes or at the end of the input. Outside
/// quotes a backslash makes the next character literal; a trailing backslash
/// is dropped.
pub open spec fn word(s: Seq<char>, i: int) -> (Seq<char>, int)
    decreases s.len() - i,
    via word_decreases
{
    if i < 0 || i >= s.len() || is_whitespace(s[i]) {
        (Seq::empty(), i)
    } else if s[i] == '\'' {
        let quoted = single_quoted(s, i + 1);
        let rest = word(s, quoted.1);
        (quoted.0 + rest.0, rest.1)
    } else if s[i] == '"' {
        let quoted = double_quoted(s, i + 1);
        let rest = word(s, quoted.1);
        (quoted.0 + rest.0, rest.1)
    } else if s[i] == '\\' {
        if i + 1 < s.len() {
            let rest = word(s, i + 2);
            (seq![s[i + 1]] + rest.0, rest.1)
        } else {
            (Seq::empty(), i + 1)
        }
    } else {
        let rest = word(s, i + 1);
        (seq![s[i]] + rest.0, rest.1)
    }
}

#[via_fn]
proof fn word_decreases(s: Seq<char>, i: int) {
    if 0 <= i < s.len() {
        lemma_single_quoted_end(s, i + 1);
        lemma_double_quoted_end(s, i + 1);
    }
}

/// A token ends within the input, and after its start unless it is empty
/// because it starts at whitespace or at the end.
pub proof fn lemma_word_end(s: Seq<char>, i: int)
    requires
        0 <= i <= s.len(),
    ensures
        i <= word(s, i).1 <= s.len(),
        i < s.len() && !is_whitespace(s[i]) ==> i < word(s, i).1,
    decreases s.len() - i,
{
    if i < s.len() && !is_whitespace(s[i]) {
        if s[i] == '\'' {
            lemma_single_quoted_end(s, i + 1);
            lemma_word_end(s, single_quoted(s, i + 1).1);
        } else if s[i] == '"' {
            lemma_double_quoted_end(s, i + 1);
            lemma_word_end(s, double_quoted(s, i + 1).1);
        } else if s[i] == '\\' {
            if i + 1 < s.len() {
                lemma_word_end(s, i + 2);
            }
        } else {
            lemma_word_end(s, i + 1);
        }
    }
}

/// The tokens of `s` from position `i` on: whitespace between tokens is
/// skipped, and each token runs as `word` says.
pub open spec fn tokens_from(s: Seq<char>, i: int) -> Seq<Seq<char>>
    decreases s.len() - i,
    via tokens_from_decreases
{
    if i < 0 || i >= s.len() {
        Seq::empty()
    } else if is_whitespace(s[i]) {
        tokens_from(s, i + 1)
    } else {
        let first = word(s, i);
        seq![first.0] + tokens_from(s, first.1)
    }
}

#[via_fn]
proof fn tokens_from_decreases(s: Seq<char>, i: int) {
    if 0 <= i < s.len() {
        lemma_word_end(s, i);
    }
}

/// The tokens of a whole line.
pub open spec fn tokens_of(s: Seq<char>) -> Seq<Seq<char>> {
    tokens_from(s, 0)
}

/// Scanning a single-quoted section does not depend on what precedes it.
pub proof fn lemma_single_quoted_shift(p: Seq<char>, r: Seq<char>, k: int)
    requires
        0 <= k <= r.len(),
    ensures
        single_quoted(p + r, p.len() + k).0 == single_quoted(r, k).0,
        single_quoted(p + r, p.len() + k).1 == single_quoted(r, k).1 + p.len(),
    decreases r.len() - k,
{
    if k < r.len() {
        if r[k] != '\'' {
            lemma_single_quoted_shift(p, r, k + 1);
        }
    }
}

/// Scanning a double-quoted section does not depend on what precedes it.
pub proof fn lemma_double_quoted_shift(p: Seq<char>, r: Seq<char>, k: int)
    requires
        0 <= k <= r.len(),
    ensures
        double_quoted(p + r, p.len() + k).0 == double_quoted(r, k).0,
        double_quoted(p + r, p.len() + k).1 == double_quoted(r, k).1 + p.len(),
    decreases r.len() - k,
{
    if k < r.len() && r[k] != '"' {
        if r[k] == '\\' && k + 1 < r.len() && double_quote_escapable(r[k + 1]) {
            lemma_double_quoted_shift(p, r, k + 2);
        } else {
            lemma_double_quoted_shift(p, r, k + 1);
        }
    }
}

/// Scanning a token does not depend on what precedes it.
pub proof fn lemma_word_shift(p: Seq<char>, r: Seq<char>, k: int)
    requires
        0 <= k <= r.len(),
    ensures
        word(p + r, p.len() + k).0 == word(r, k).0,
        word(p + r, p.len() + k).1 == word(r, k).1 + p.len(),
    decreases r.len() - k,
{
    if k < r.len() && !is_whitespace(r[k]) {
        if r[k] == '\'' {
            lemma_single_quoted_shift(p, r, k + 1);
            lemma_single_quoted_end(r, k + 1);
            lemma_word_shift(p, r, single_quoted(r, k + 1).1);
        } else if r[k] == '"' {
            lemma_double_quoted_shift(p, r, k + 1);
            lemma_double_quoted_end(r, k + 1);
            lemma_word_shift(p, r, double_quoted(r, k + 1).1);
        } else if r[k] == '\\' {
            if k + 1 < r.len() {
                lemma_word_shift(p, r, k + 2);
            }
        } else {
            lemma_word_shift(p, r, k + 1);
        }
    }
}

/// The tokens found from a position on do not depend on what precedes it.
pub proof fn lemma_tokens_from_shift(p: Seq<char>, r: Seq<char>, k: int)
    requires
        0 <= k <= r.len(),
    ensures
        tokens_from(p + r, p.len() + k) == tokens_from(r, k),
    decreases r.len() - k,
{
    if k < r.len() {
        if is_whitespace(r[k]) {
            lemma_tokens_from_shift(p, r, k + 1);
        } else {
            lemma_word_shift(p, r, k);
            lemma_word_end(r, k);
            lemma_tokens_from_shift(p, r, word(r, k).1);
        }
    }
}

/// A token wrapped in single quotes.
pub open spec fn quoted(token: Seq<char>) -> Seq<char> {
    seq!['\''] + token + seq!['\'']
}

/// The tokens, each wrapped in single quotes, joined by single spaces.
pub open spec fn requote(tokens: Seq<Seq<char>>) -> Seq<char>
    decreases tokens.len(),
{
    if tokens.len() == 0 {
        Seq::empty()
    } else if tokens.len() == 1 {
        quoted(tokens[0])
    } else {
        quoted(tokens[0]) + seq![' '] + requote(tokens.drop_first())
    }
}

/// Whether a token can stand between single quotes: it holds no single quote.
pub open spec fn quotable(token: Seq<char>) -> bool {
    forall|i: int| 0 <= i < token.len() ==> token[i] != '\''
}

/// A single-quoted section that holds `t` and is closed yields `t` and ends
/// after the closing quote.
proof fn lemma_single_quoted_body(t: Seq<char>, rest: Seq<char>, k: int)
    requires
        quotable(t),
        0 <= k <= t.len(),
    ensures
        single_quoted(quoted(t) + rest, 1 + k) == (t.skip(k), t.len() as int + 2),
    decreases t.len() - k,
{
    if k < t.len() {
        lemma_single_quoted_body(t, rest, k + 1);
    }
}

/// Tokenizing is the inverse of quoting: wrapping each token in single quotes
/// and joining the results with spaces gives a line whose tokens are the
/// ones that were wrapped, for tokens that hold no single quote themselves.
pub proof fn lemma_requote_roundtrip(tokens: Seq<Seq<char>>)
    requires
        forall|i: int| 0 <= i < tokens.len() ==> quotable(#[trigger] tokens[i]),
    ensures
        tokens_of(requote(tokens)) == tokens,
    decreases tokens.len(),
{
    if tokens.len() > 0 {
        let t = tokens[0];
        let tail = tokens.drop_first();
        let rest = if tokens.len() == 1 {
            Seq::<char>::empty()
        } else {
            seq![' '] + requote(tail)
        };
        let s = quoted(t) + rest;
        let end = t.len() as int + 2;
        // The first token is `t`, and it ends where `rest` starts.
        lemma_single_quoted_body(t, rest, 0);
        assert(word(s, end) == (Seq::<char>::empty(), end));
        assert(word(s, 0) == (t, end));
        // The other tokens are those of `rest`.
        assert(forall|i: int| 0 <= i < tail.len() ==> quotable(#[trigger] tail[i]));
        lemma_requote_roundtrip(tail);
        if tokens.len() > 1 {
            let prefix = quoted(t) + seq![' '];
            assert(s =~= prefix + requote(tail));
            lemma_tokens_from_shift(prefix, requote(tail), 0);
        }
        assert(tokens_from(s, end) == tail);
    }
}

/// Appends to `arg` the text of the single-quoted section whose body starts
/// at `start`, and returns the position after the section.
fn scan_single_quoted(s: &Vec<char>, start: usize, arg: &mut String) -> (end: usize)
    requires
        start <= s.len(),
    ensures
        final(arg)@ == old(arg)@ + single_quoted(s@, start as int).0,
        end == single_quoted(s@, start as int).1,
        start <= end <= s.len(),
{
    let mut i: usize = start;
    while i < s.len()
        invariant
            start <= i <= s.len(),
            arg@ + single_quoted(s@, i as int).0 == old(arg)@ + single_quoted(s@, start as int).0,
            single_quoted(s@, i as int).1 == single_quoted(s@, start as int).1,
        decreases s.len() - i,
    {
        let c: char = s[i];
        i = i + 1;
        if c == '\'' {
            return i;
        }
        arg.push(c);
    }
    i
}

/// Appends to `arg` the text of the double-quoted section whose body starts
/// at `start`, and returns the position after the section.
fn scan_double_quoted(s: &Vec<char>, start: usize, arg: &mut String) -> (end: usize)
    requires
        start <= s.len(),
    ensures
        final(arg)@ == old(arg)@ + double_quoted(s@, start as int).0,
        end == double_quoted(s@, start as int).1,
        start <= end <= s.len(),
{
    let mut i: usize = start;
    while i < s.len()
        invariant
            start <= i <= s.len(),
            arg@ + double_quoted(s@, i as int).0 == old(arg)@ + double_quoted(s@, start as int).0,
            double_quoted(s@, i as int).1 == double_quoted(s@, start as int).1,
        decreases s.len() - i,
    {
        let c: char = s[i];
        i = i + 1;
        if c == '"' {
            return i;
        }
        if c == '\\' && i < s.len() && is_double_quote_escapable(s[i]) {
            let escaped: char = s[i];
            i = i + 1;
            arg.push(escaped);
        } else {
            arg.push(c);
        }
    }
    i
}

fn is_double_quote_escapable(c: char) -> (b: bool)
    ensures
        b == double_quote_escapable(c),
{
    c == '\\' || c == '$' || c == '"' || c == '\n'
}

/// Reads the token that starts at `start`, and returns it with the position
/// after it.
fn scan_word(s: &Vec<char>, start: usize) -> (r: (String, usize))
    requires
        start <= s.len(),
    ensures
        r.0@ == word(s@, start as int).0,
        r.1 == word(s@, start as int).1,
        start <= r.1 <= s.len(),
{
    let mut arg = String::new();
    let mut i: usize = start;
    while i < s.len()
        invariant
            start <= i <= s.len(),
            arg@ + word(s@, i as int).0 == word(s@, start as int).0,
            word(s@, i as int).1 == word(s@, start as int).1,
        decreases s.len() - i,
    {
        let c: char = s[i];
        if char_is_whitespace(c) {
            return (arg, i);
        }
        i = i + 1;
        if c == '\'' {
            i = scan_single_quoted(s, i, &mut arg);
        } else if c == '"' {
            i = scan_double_quoted(s, i, &mut arg);
        } else if c == '\\' {
            if i < s.len() {
                arg.push(s[i]);
                i = i + 1;
            }
        } else {
            arg.push(c);
        }
    }
    (arg, i)
}

/// Splits an input line into its arguments.
///
/// Whitespace outside quotes separates arguments. Single quotes keep their
/// contents literally; double quotes do so except for the backslash escapes
/// of `\\`, `$`, `"` and newline; outside quotes a backslash makes the next
/// character literal. An unterminated quote runs to the end of the line.
pub fn tokenize(input: &str) -> (args: Vec<String>)
    ensures
        args.deep_view() == tokens_of(input@),
{
    tokenize_chars(&chars_of(input))
}

/// Splits a line, given as its characters, into its arguments.
pub fn tokenize_chars(s: &Vec<char>) -> (args: Vec<String>)
    ensures
        args.deep_view() == tokens_of(s@),
{
    let mut args: Vec<String> = Vec::new();
    let mut i: usize = 0;
    while i < s.len()
        invariant
            i <= s.len(),
            args.deep_view() + tokens_from(s@, i as int) == tokens_of(s@),
        decreases s.len() - i,
    {
        if char_is_whitespace(s[i]) {
            i = i + 1;
        } else {
            let (arg, end) = scan_word(s, i);
            proof {
                lemma_word_end(s@, i as int);
            }
            args.push(arg);
            i = end;
        }
    }
    args
}

} // verus!
