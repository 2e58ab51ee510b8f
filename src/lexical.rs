use vstd::prelude::*;
use crate::scanner::ScannerError;
use crate::token::{word_token, TokenView};

verus! {

/// An ASCII decimal digit.
pub open spec fn is_digit(c: char) -> bool {
    '0' <= c && c <= '9'
}

/// An ASCII letter.
pub open spec fn is_alpha(c: char) -> bool {
    ('a' <= c && c <= 'z') || ('A' <= c && c <= 'Z')
}

/// An ASCII letter or digit.
pub open spec fn is_alnum(c: char) -> bool {
    is_alpha(c) || is_digit(c)
}

/// Space, carriage return or tab: skipped without effect.
pub open spec fn is_blank(c: char) -> bool {
    c == ' ' || c == '\r' || c == '\t'
}

/// The character at `i`, or `'\0'` past either end of `s` (lookahead).
pub open spec fn char_at(s: Seq<char>, i: int) -> char {
    if 0 <= i < s.len() {
        s[i]
    } else {
        '\0'
    }
}

/// The end of the maximal run of characters satisfying `keep` that starts at `i`.
pub open spec fn run_end(s: Seq<char>, i: int, keep: spec_fn(char) -> bool) -> int
    decreases s.len() - i,
{
    if 0 <= i < s.len() && keep(s[i]) {
        run_end(s, i + 1, keep)
    } else {
        i
    }
}

/// The end of the run of digits starting at `i`.
pub open spec fn digits_end(s: Seq<char>, i: int) -> int {
    run_end(s, i, |c: char| is_digit(c))
}

/// The end of the run of letters and digits starting at `i`.
pub open spec fn word_end(s: Seq<char>, i: int) -> int {
    run_end(s, i, |c: char| is_alnum(c))
}

/// The position of the first newline at or after `i`, or the end of `s`.
pub open spec fn line_end(s: Seq<char>, i: int) -> int {
    run_end(s, i, |c: char| c != '\n')
}

/// The position of the first double quote at or after `i`, or the end of `s`.
pub open spec fn quote_end(s: Seq<char>, i: int) -> int {
    run_end(s, i, |c: char| c != '"')
}

/// The number of newline characters in `s`.
pub open spec fn newlines(s: Seq<char>) -> nat
    decreases s.len(),
{
    if s.len() == 0 {
        0
    } else {
        newlines(s.drop_last()) + if s.last() == '\n' {
            1nat
        } else {
            0nat
        }
    }
}

/// One lexeme attempt: where the next attempt starts, the line counter
/// after it, the token it emits and the error it records, if any.
pub ghost struct Step {
    pub next: int,
    pub line: nat,
    pub token: Option<TokenView>,
    pub error: Option<ScannerError>,
}

/// An attempt that emits `token` (if any) and moves on to `next`.
pub open spec fn plain(next: int, line: nat, token: Option<TokenView>) -> Step {
    Step { next, line, token, error: None }
}

/// The token for a single punctuation character.
pub open spec fn punctuation(c: char) -> Option<TokenView> {
    if c == '(' {
        Some(TokenView::LeftParen)
    } else if c == ')' {
        Some(TokenView::RightParen)
    } else if c == '{' {
        Some(TokenView::LeftBrace)
    } else if c == '}' {
        Some(TokenView::RightBrace)
    } else if c == ',' {
        Some(TokenView::Comma)
    } else if c == '.' {
        Some(TokenView::Dot)
    } else if c == '-' {
        Some(TokenView::Minus)
    } else if c == '+' {
        Some(TokenView::Plus)
    } else if c == ';' {
        Some(TokenView::SemiColon)
    } else if c == '*' {
        Some(TokenView::Star)
    } else {
        None
    }
}

/// Whether `c` starts an operator of one or two characters.
pub open spec fn is_operator_start(c: char) -> bool {
    c == '!' || c == '=' || c == '<' || c == '>'
}

/// The operator that starts with `c`, combined with a following `=` when
/// `with_equal` holds.
pub open spec fn operator(c: char, with_equal: bool) -> TokenView {
    if c == '!' {
        if with_equal { TokenView::BangEqual } else { TokenView::Bang }
    } else if c == '=' {
        if with_equal { TokenView::EqualEqual } else { TokenView::Equal }
    } else if c == '<' {
        if with_equal { TokenView::LessEqual } else { TokenView::Less }
    } else {
        if with_equal { TokenView::GreaterEqual } else { TokenView::Greater }
    }
}

/// A `/` at `i`: a line comment running up to (not over) the next newline,
/// or a slash.
pub open spec fn slash_step(s: Seq<char>, i: int, line: nat) -> Step {
    if char_at(s, i + 1) == '/' {
        plain(line_end(s, i + 2), line, None)
    } else {
        plain(i + 1, line, Some(TokenView::Slash))
    }
}

/// An operator at `i`: the two-character form whenever `=` follows.
pub open spec fn operator_step(s: Seq<char>, i: int, line: nat) -> Step {
    if char_at(s, i + 1) == '=' {
        plain(i + 2, line, Some(operator(s[i], true)))
    } else {
        plain(i + 1, line, Some(operator(s[i], false)))
    }
}

/// A double quote at `i`: a string literal up to the next double quote, or
/// an unterminated string reported at the line where it began. Either way
/// the newlines inside count toward the line counter.
pub open spec fn string_step(s: Seq<char>, i: int, line: nat) -> Step {
    let e = quote_end(s, i + 1);
    let body = s.subrange(i + 1, e);
    if e < s.len() {
        plain(e + 1, line + newlines(body), Some(TokenView::String(body)))
    } else {
        Step {
            next: e,
            line: line + newlines(body),
            token: None,
            error: Some(ScannerError::UnterminatedString(line as usize)),
        }
    }
}

/// A digit at `i`: a run of digits, with a fraction only where a digit
/// follows the point. A point with no digit after it is reported and left
/// for the next attempt.
pub open spec fn number_step(s: Seq<char>, i: int, line: nat) -> Step {
    let d = digits_end(s, i + 1);
    if char_at(s, d) == '.' && is_digit(char_at(s, d + 1)) {
        let f = digits_end(s, d + 1);
        plain(f, line, Some(TokenView::Number(s.subrange(i, f))))
    } else if char_at(s, d) == '.' {
        Step {
            next: d,
            line,
            token: Some(TokenView::Number(s.subrange(i, d))),
            error: Some(ScannerError::InvalidNumber(line as usize)),
        }
    } else {
        plain(d, line, Some(TokenView::Number(s.subrange(i, d))))
    }
}

/// A letter at `i`: a reserved word or an identifier.
pub open spec fn word_step(s: Seq<char>, i: int, line: nat) -> Step {
    let e = word_end(s, i + 1);
    plain(e, line, Some(word_token(s.subrange(i, e))))
}

/// The lexeme attempt that starts at `i < s.len()` on line `line`.
pub open spec fn step(s: Seq<char>, i: int, line: nat) -> Step {
    let c = s[i];
    if punctuation(c) is Some {
        plain(i + 1, line, punctuation(c))
    } else if c == '/' {
        slash_step(s, i, line)
    } else if is_operator_start(c) {
        operator_step(s, i, line)
    } else if is_blank(c) {
        plain(i + 1, line, None)
    } else if c == '\n' {
        plain(i + 1, line + 1, None)
    } else if c == '"' {
        string_step(s, i, line)
    } else if is_digit(c) {
        number_step(s, i, line)
    } else if is_alpha(c) {
        word_step(s, i, line)
    } else {
        Step {
            next: i + 1,
            line,
            token: None,
            error: Some(ScannerError::UnknownToken(line as usize)),
        }
    }
}

/// What a scan produces: the tokens, the line on which each begins, and the
/// errors in source order.
pub ghost struct Scanned {
    pub tokens: Seq<TokenView>,
    pub lines: Seq<nat>,
    pub errors: Seq<ScannerError>,
}

/// Scanning `s` from position `i` on line `line` to the end of the input,
/// where the end-of-input token closes the sequence.
pub open spec fn scan_from(s: Seq<char>, i: int, line: nat) -> Scanned
    decreases s.len() - i,
    via scan_from_decreases
{
    if i < 0 || i >= s.len() {
        Scanned { tokens: seq![TokenView::Eof], lines: seq![line], errors: Seq::empty() }
    } else {
        let st = step(s, i, line);
        let rest = scan_from(s, st.next, st.line);
        Scanned {
            tokens: match st.token {
                Some(t) => seq![t] + rest.tokens,
                None => rest.tokens,
            },
            lines: match st.token {
                Some(t) => seq![line] + rest.lines,
                None => rest.lines,
            },
            errors: match st.error {
                Some(e) => seq![e] + rest.errors,
                None => rest.errors,
            },
        }
    }
}

/// Scanning a whole text from its first character on line 1.
pub open spec fn scan_spec(s: Seq<char>) -> Scanned {
    scan_from(s, 0, 1)
}

/// A run that starts at `i` ends within `s`, covers only kept characters,
/// and stops at one that is not kept.
pub proof fn lemma_run_end(s: Seq<char>, i: int, keep: spec_fn(char) -> bool)
    requires
        0 <= i <= s.len(),
    ensures
        i <= run_end(s, i, keep) <= s.len(),
        forall|k: int| i <= k < run_end(s, i, keep) ==> keep(s[k]),
        run_end(s, i, keep) < s.len() ==> !keep(s[run_end(s, i, keep)]),
    decreases s.len() - i,
{
    if i < s.len() && keep(s[i]) {
        lemma_run_end(s, i + 1, keep);
    }
}

/// Every lexeme attempt consumes at least one character and stays within the
/// input.
pub proof fn lemma_step_progress(s: Seq<char>, i: int, line: nat)
    requires
        0 <= i < s.len(),
    ensures
        i < step(s, i, line).next <= s.len(),
        line <= step(s, i, line).line,
{
    let c = s[i];
    lemma_run_end(s, i + 1, |c: char| is_digit(c));
    lemma_run_end(s, i + 1, |c: char| is_alnum(c));
    lemma_run_end(s, i + 1, |c: char| c != '"');
    if c == '/' && char_at(s, i + 1) == '/' {
        lemma_run_end(s, i + 2, |c: char| c != '\n');
    }
    let d = digits_end(s, i + 1);
    if is_digit(c) && char_at(s, d) == '.' && is_digit(char_at(s, d + 1)) {
        lemma_run_end(s, d + 1, |c: char| is_digit(c));
    }
}

/// There are no more newlines in a text than characters.
pub proof fn lemma_newlines_bound(s: Seq<char>)
    ensures
        newlines(s) <= s.len(),
    decreases s.len(),
{
    if s.len() > 0 {
        lemma_newlines_bound(s.drop_last());
    }
}

/// The line counter never runs ahead of the position: a lexeme attempt adds
/// at most one line per character it consumes.
pub proof fn lemma_step_line_bound(s: Seq<char>, i: int, line: nat)
    requires
        0 <= i < s.len(),
        line <= i + 1,
    ensures
        step(s, i, line).line <= step(s, i, line).next + 1,
{
    lemma_step_progress(s, i, line);
    lemma_run_end(s, i + 1, |c: char| c != '"');
    lemma_newlines_bound(s.subrange(i + 1, quote_end(s, i + 1)));
}

/// Every scan closes with exactly one end-of-input token, as its last
/// element, and gives one line for each token.
pub proof fn lemma_scan_ends_with_eof(s: Seq<char>, i: int, line: nat)
    ensures
        scan_from(s, i, line).tokens.len() >= 1,
        scan_from(s, i, line).tokens.last() == TokenView::Eof,
        forall|k: int|
            0 <= k < scan_from(s, i, line).tokens.len() - 1 ==> scan_from(s, i, line).tokens[k]
                != TokenView::Eof,
        scan_from(s, i, line).lines.len() == scan_from(s, i, line).tokens.len(),
    decreases s.len() - i,
{
    if 0 <= i < s.len() {
        let st = step(s, i, line);
        lemma_step_progress(s, i, line);
        lemma_scan_ends_with_eof(s, st.next, st.line);
        let rest = scan_from(s, st.next, st.line);
        if let Some(t) = st.token {
            assert(t != TokenView::Eof);
            assert forall|k: int|
                0 <= k < scan_from(s, i, line).tokens.len() - 1 implies scan_from(
                s,
                i,
                line,
            ).tokens[k] != TokenView::Eof by {
                if k > 0 {
                    assert(scan_from(s, i, line).tokens[k] == rest.tokens[k - 1]);
                }
            }
        }
    }
}

#[via_fn]
proof fn scan_from_decreases(s: Seq<char>, i: int, line: nat) {
    if 0 <= i < s.len() {
        lemma_step_progress(s, i, line);
    }
}

} // verus!
