use vstd::prelude::*;
use crate::lexical::{
    char_at, digits_end, is_alnum, is_alpha, is_blank, is_digit, is_operator_start,
    lemma_run_end, line_end, operator, run_end, scan_from, scan_spec, step, word_end,
};
use crate::scanner::ScannerError;
use crate::token::{is_fixed, keyword, render, word_token, TokenView};

verus! {

/// Whether the text from `i` on holds only spaces, tabs, carriage returns,
/// newlines and line comments.
pub open spec fn only_blanks_from(s: Seq<char>, i: int) -> bool
    decreases s.len() - i,
    via only_blanks_from_decreases
{
    if i < 0 || i >= s.len() {
        true
    } else if is_blank(s[i]) || s[i] == '\n' {
        only_blanks_from(s, i + 1)
    } else if s[i] == '/' && char_at(s, i + 1) == '/' {
        only_blanks_from(s, line_end(s, i + 2))
    } else {
        false
    }
}

#[via_fn]
proof fn only_blanks_from_decreases(s: Seq<char>, i: int) {
    if 0 <= i < s.len() && s[i] == '/' && char_at(s, i + 1) == '/' {
        lemma_run_end(s, i + 2, |c: char| c != '\n');
    }
}

/// A run that covers exactly `[i, j)` ends at `j`.
proof fn lemma_run_end_at(s: Seq<char>, i: int, j: int, keep: spec_fn(char) -> bool)
    requires
        0 <= i <= j <= s.len(),
        forall|k: int| i <= k < j ==> keep(s[k]),
        j < s.len() ==> !keep(s[j]),
    ensures
        run_end(s, i, keep) == j,
    decreases j - i,
{
    if i < j {
        lemma_run_end_at(s, i + 1, j, keep);
    }
}

/// Text made only of whitespace, newlines and comments (the empty text
/// among them) scans to the end-of-input token alone, with no error.
pub proof fn law_blank_text_scans_to_eof(s: Seq<char>, i: int, line: nat)
    requires
        only_blanks_from(s, i),
    ensures
        scan_from(s, i, line).tokens == seq![TokenView::Eof],
        scan_from(s, i, line).errors.len() == 0,
    decreases s.len() - i,
{
    if 0 <= i < s.len() {
        let st = step(s, i, line);
        if s[i] == '/' {
            lemma_run_end(s, i + 2, |c: char| c != '\n');
        }
        law_blank_text_scans_to_eof(s, st.next, st.line);
    }
}

/// An operator `!`, `=`, `<` or `>` followed by `=` scans as the combined
/// two-character token, and scanning goes on after the `=`.
pub proof fn law_two_char_operator(s: Seq<char>, i: int, line: nat)
    requires
        0 <= i < s.len(),
        is_operator_start(s[i]),
        char_at(s, i + 1) == '=',
    ensures
        scan_from(s, i, line).tokens == seq![operator(s[i], true)] + scan_from(s, i + 2, line).tokens,
        scan_from(s, i, line).errors == scan_from(s, i + 2, line).errors,
{
}

/// A run of digits followed by a point and no digit scans as the number of
/// those digits, then a dot token; the malformed fraction is reported as an
/// invalid number on the first line.
pub proof fn law_number_then_dot(digits: Seq<char>, rest: Seq<char>)
    requires
        digits.len() > 0,
        forall|k: int| 0 <= k < digits.len() ==> is_digit(digits[k]),
        rest.len() > 0 ==> !is_digit(rest[0]),
    ensures
        ({
            let s = digits + seq!['.'] + rest;
            &&& scan_spec(s).tokens == seq![TokenView::Number(digits), TokenView::Dot] + scan_from(
                s,
                digits.len() + 1 as int,
                1,
            ).tokens
            &&& scan_spec(s).errors == seq![ScannerError::InvalidNumber(1)] + scan_from(
                s,
                digits.len() + 1 as int,
                1,
            ).errors
        }),
{
    let s = digits + seq!['.'] + rest;
    let n = digits.len() as int;
    assert(s[n] == '.');
    assert forall|k: int| 1 <= k < n implies is_digit(s[k]) by {
        assert(s[k] == digits[k]);
    }
    lemma_run_end_at(s, 1, n, |c: char| is_digit(c));
    assert(digits_end(s, 1) == n);
    assert(s.subrange(0, n) =~= digits);
    assert(s[0] == digits[0]);
    if rest.len() > 0 {
        assert(char_at(s, n + 1) == rest[0]);
    }
    assert(scan_from(s, n, 1).tokens == seq![TokenView::Dot] + scan_from(s, n + 1, 1).tokens);
    assert(scan_from(s, n, 1).errors == scan_from(s, n + 1, 1).errors);
    assert(seq![TokenView::Number(digits)] + (seq![TokenView::Dot] + scan_from(s, n + 1, 1).tokens)
        =~= seq![TokenView::Number(digits), TokenView::Dot] + scan_from(s, n + 1, 1).tokens);
}

/// A string literal whose closing quote never comes emits no token and
/// records exactly one unterminated-string error, at the line where the
/// literal began; nothing follows but the end of input.
pub proof fn law_unterminated_string(s: Seq<char>, i: int, line: nat)
    requires
        0 <= i < s.len(),
        s[i] == '"',
        forall|k: int| i < k < s.len() ==> s[k] != '"',
    ensures
        scan_from(s, i, line).tokens == seq![TokenView::Eof],
        scan_from(s, i, line).errors == seq![ScannerError::UnterminatedString(line as usize)],
{
    lemma_run_end_at(s, i + 1, s.len() as int, |c: char| c != '"');
    let st = step(s, i, line);
    assert(st.next == s.len());
    assert(scan_from(s, st.next, st.line).errors =~= Seq::<ScannerError>::empty());
    assert(seq![ScannerError::UnterminatedString(line as usize)] + Seq::<ScannerError>::empty()
        =~= seq![ScannerError::UnterminatedString(line as usize)]);
}

/// A word of letters and digits, starting with a letter, scans alone to
/// its word token.
proof fn lemma_word_alone(w: Seq<char>)
    requires
        w.len() > 0,
        is_alpha(w[0]),
        forall|k: int| 0 <= k < w.len() ==> is_alnum(w[k]),
    ensures
        scan_spec(w).tokens == seq![word_token(w), TokenView::Eof],
        scan_spec(w).errors.len() == 0,
{
    lemma_run_end_at(w, 1, w.len() as int, |c: char| is_alnum(c));
    assert(word_end(w, 1) == w.len());
    assert(w.subrange(0, w.len() as int) =~= w);
    let st = step(w, 0, 1);
    assert(st.next == w.len() && st.token == Some(word_token(w)) && st.error is None);
    let rest = scan_from(w, w.len() as int, 1);
    assert(rest.tokens == seq![TokenView::Eof] && rest.errors.len() == 0);
    assert(seq![word_token(w)] + rest.tokens =~= seq![word_token(w), TokenView::Eof]);
}

/// A text whose first lexeme attempt spans all of it, emits a token and
/// records no error, scans to that token alone.
proof fn lemma_single_step(s: Seq<char>)
    requires
        s.len() > 0,
        step(s, 0, 1).next == s.len(),
        step(s, 0, 1).token is Some,
        step(s, 0, 1).error is None,
    ensures
        scan_spec(s).tokens == seq![step(s, 0, 1).token->0, TokenView::Eof],
        scan_spec(s).errors.len() == 0,
{
    let st = step(s, 0, 1);
    let rest = scan_from(s, s.len() as int, st.line);
    assert(rest.tokens == seq![TokenView::Eof] && rest.errors.len() == 0);
    assert(seq![st.token->0] + rest.tokens =~= seq![st.token->0, TokenView::Eof]);
}

/// A reserved word's spelling is a word of letters that names that
/// reserved word.
proof fn lemma_keyword_spelled(t: TokenView)
    requires
        t is And || t is Class || t is Else || t is False || t is Fun || t is For || t is If || t is Nil || t is Or || t is Print || t is Return || t is Super || t is This || t is True || t is Var || t is While,
    ensures
        keyword(render(t)) == Some(t),
        render(t).len() > 0,
        is_alpha(render(t)[0]),
        forall|k: int| 0 <= k < render(t).len() ==> is_alnum(#[trigger] render(t)[k]),
{
    match t {
        TokenView::And => {
            reveal_strlit("and");
        },
        TokenView::Class => {
            reveal_strlit("class");
            reveal_strlit("and");
            assert(render(t).len() != "and"@.len());
        },
        TokenView::Else => {
            reveal_strlit("else");
            reveal_strlit("and");
            assert(render(t).len() != "and"@.len());
            reveal_strlit("class");
            assert(render(t).len() != "class"@.len());
        },
        TokenView::False => {
            reveal_strlit("false");
            reveal_strlit("and");
            assert(render(t).len() != "and"@.len());
            reveal_strlit("class");
            assert(render(t)[0] != "class"@[0]);
            reveal_strlit("else");
            assert(render(t).len() != "else"@.len());
        },
        TokenView::Fun => {
            reveal_strlit("fun");
            reveal_strlit("and");
            assert(render(t)[0] != "and"@[0]);
            reveal_strlit("class");
            assert(render(t).len() != "class"@.len());
            reveal_strlit("else");
            assert(render(t).len() != "else"@.len());
            reveal_strlit("false");
            assert(render(t).len() != "false"@.len());
        },
        TokenView::For => {
            reveal_strlit("for");
            reveal_strlit("and");
            assert(render(t)[0] != "and"@[0]);
            reveal_strlit("class");
            assert(render(t).len() != "class"@.len());
            reveal_strlit("else");
            assert(render(t).len() != "else"@.len());
            reveal_strlit("false");
            assert(render(t).len() != "false"@.len());
            reveal_strlit("fun");
            assert(render(t)[1] != "fun"@[1]);
        },
        TokenView::If => {
            reveal_strlit("if");
            reveal_strlit("and");
            assert(render(t).len() != "and"@.len());
            reveal_strlit("class");
            assert(render(t).len() != "class"@.len());
            reveal_strlit("else");
            assert(render(t).len() != "else"@.len());
            reveal_strlit("false");
            assert(render(t).len() != "false"@.len());
            reveal_strlit("fun");
            assert(render(t).len() != "fun"@.len());
            reveal_strlit("for");
            assert(render(t).len() != "for"@.len());
        },
        TokenView::Nil => {
            reveal_strlit("nil");
            reveal_strlit("and");
            assert(render(t)[0] != "and"@[0]);
            reveal_strlit("class");
            assert(render(t).len() != "class"@.len());
            reveal_strlit("else");
            assert(render(t).len() != "else"@.len());
            reveal_strlit("false");
            assert(render(t).len() != "false"@.len());
            reveal_strlit("fun");
            assert(render(t)[0] != "fun"@[0]);
            reveal_strlit("for");
            assert(render(t)[0] != "for"@[0]);
            reveal_strlit("if");
            assert(render(t).len() != "if"@.len());
        },
        TokenView::Or => {
            reveal_strlit("or");
            reveal_strlit("and");
            assert(render(t).len() != "and"@.len());
            reveal_strlit("class");
            assert(render(t).len() != "class"@.len());
            reveal_strlit("else");
            assert(render(t).len() != "else"@.len());
            reveal_strlit("false");
            assert(render(t).len() != "false"@.len());
            reveal_strlit("fun");
            assert(render(t).len() != "fun"@.len());
            reveal_strlit("for");
            assert(render(t).len() != "for"@.len());
            reveal_strlit("if");
            assert(render(t)[0] != "if"@[0]);
            reveal_strlit("nil");
            assert(render(t).len() != "nil"@.len());
        },
        TokenView::Print => {
            reveal_strlit("print");
            reveal_strlit("and");
            assert(render(t).len() != "and"@.len());
            reveal_strlit("class");
            assert(render(t)[0] != "class"@[0]);
            reveal_strlit("else");
            assert(render(t).len() != "else"@.len());
            reveal_strlit("false");
            assert(render(t)[0] != "false"@[0]);
            reveal_strlit("fun");
            assert(render(t).len() != "fun"@.len());
            reveal_strlit("for");
            assert(render(t).len() != "for"@.len());
            reveal_strlit("if");
            assert(render(t).len() != "if"@.len());
            reveal_strlit("nil");
            assert(render(t).len() != "nil"@.len());
            reveal_strlit("or");
            assert(render(t).len() != "or"@.len());
        },
        TokenView::Return => {
            reveal_strlit("return");
            reveal_strlit("and");
            assert(render(t).len() != "and"@.len());
            reveal_strlit("class");
            assert(render(t).len() != "class"@.len());
            reveal_strlit("else");
            assert(render(t).len() != "else"@.len());
            reveal_strlit("false");
            assert(render(t).len() != "false"@.len());
            reveal_strlit("fun");
            assert(render(t).len() != "fun"@.len());
            reveal_strlit("for");
            assert(render(t).len() != "for"@.len());
            reveal_strlit("if");
            assert(render(t).len() != "if"@.len());
            reveal_strlit("nil");
            assert(render(t).len() != "nil"@.len());
            reveal_strlit("or");
            assert(render(t).len() != "or"@.len());
            reveal_strlit("print");
            assert(render(t).len() != "print"@.len());
        },
        TokenView::Super => {
            reveal_strlit("super");
            reveal_strlit("and");
            assert(render(t).len() != "and"@.len());
            reveal_strlit("class");
            assert(render(t)[0] != "class"@[0]);
            reveal_strlit("else");
            assert(render(t).len() != "else"@.len());
            reveal_strlit("false");
            assert(render(t)[0] != "false"@[0]);
            reveal_strlit("fun");
            assert(render(t).len() != "fun"@.len());
            reveal_strlit("for");
            assert(render(t).len() != "for"@.len());
            reveal_strlit("if");
            assert(render(t).len() != "if"@.len());
            reveal_strlit("nil");
            assert(render(t).len() != "nil"@.len());
            reveal_strlit("or");
            assert(render(t).len() != "or"@.len());
            reveal_strlit("print");
            assert(render(t)[0] != "print"@[0]);
            reveal_strlit("return");
            assert(render(t).len() != "return"@.len());
        },
        TokenView::This => {
            reveal_strlit("this");
            reveal_strlit("and");
            assert(render(t).len() != "and"@.len());
            reveal_strlit("class");
            assert(render(t).len() != "class"@.len());
            reveal_strlit("else");
            assert(render(t)[0] != "else"@[0]);
            reveal_strlit("false");
            assert(render(t).len() != "false"@.len());
            reveal_strlit("fun");
            assert(render(t).len() != "fun"@.len());
            reveal_strlit("for");
            assert(render(t).len() != "for"@.len());
            reveal_strlit("if");
            assert(render(t).len() != "if"@.len());
            reveal_strlit("nil");
            assert(render(t).len() != "nil"@.len());
            reveal_strlit("or");
            assert(render(t).len() != "or"@.len());
            reveal_strlit("print");
            assert(render(t).len() != "print"@.len());
            reveal_strlit("return");
            assert(render(t).len() != "return"@.len());
            reveal_strlit("super");
            assert(render(t).len() != "super"@.len());
        },
        TokenView::True => {
            reveal_strlit("true");
            reveal_strlit("and");
            assert(render(t).len() != "and"@.len());
            reveal_strlit("class");
            assert(render(t).len() != "class"@.len());
            reveal_strlit("else");
            assert(render(t)[0] != "else"@[0]);
            reveal_strlit("false");
            assert(render(t).len() != "false"@.len());
            reveal_strlit("fun");
            assert(render(t).len() != "fun"@.len());
            reveal_strlit("for");
            assert(render(t).len() != "for"@.len());
            reveal_strlit("if");
            assert(render(t).len() != "if"@.len());
            reveal_strlit("nil");
            assert(render(t).len() != "nil"@.len());
            reveal_strlit("or");
            assert(render(t).len() != "or"@.len());
            reveal_strlit("print");
            assert(render(t).len() != "print"@.len());
            reveal_strlit("return");
            assert(render(t).len() != "return"@.len());
            reveal_strlit("super");
            assert(render(t).len() != "super"@.len());
            reveal_strlit("this");
            assert(render(t)[1] != "this"@[1]);
        },
        TokenView::Var => {
            reveal_strlit("var");
            reveal_strlit("and");
            assert(render(t)[0] != "and"@[0]);
            reveal_strlit("class");
            assert(render(t).len() != "class"@.len());
            reveal_strlit("else");
            assert(render(t).len() != "else"@.len());
            reveal_strlit("false");
            assert(render(t).len() != "false"@.len());
            reveal_strlit("fun");
            assert(render(t)[0] != "fun"@[0]);
            reveal_strlit("for");
            assert(render(t)[0] != "for"@[0]);
            reveal_strlit("if");
            assert(render(t).len() != "if"@.len());
            reveal_strlit("nil");
            assert(render(t)[0] != "nil"@[0]);
            reveal_strlit("or");
            assert(render(t).len() != "or"@.len());
            reveal_strlit("print");
            assert(render(t).len() != "print"@.len());
            reveal_strlit("return");
            assert(render(t).len() != "return"@.len());
            reveal_strlit("super");
            assert(render(t).len() != "super"@.len());
            reveal_strlit("this");
            assert(render(t).len() != "this"@.len());
            reveal_strlit("true");
            assert(render(t).len() != "true"@.len());
        },
        TokenView::While => {
            reveal_strlit("while");
            reveal_strlit("and");
            assert(render(t).len() != "and"@.len());
            reveal_strlit("class");
            assert(render(t)[0] != "class"@[0]);
            reveal_strlit("else");
            assert(render(t).len() != "else"@.len());
            reveal_strlit("false");
            assert(render(t)[0] != "false"@[0]);
            reveal_strlit("fun");
            assert(render(t).len() != "fun"@.len());
            reveal_strlit("for");
            assert(render(t).len() != "for"@.len());
            reveal_strlit("if");
            assert(render(t).len() != "if"@.len());
            reveal_strlit("nil");
            assert(render(t).len() != "nil"@.len());
            reveal_strlit("or");
            assert(render(t).len() != "or"@.len());
            reveal_strlit("print");
            assert(render(t)[0] != "print"@[0]);
            reveal_strlit("return");
            assert(render(t).len() != "return"@.len());
            reveal_strlit("super");
            assert(render(t)[0] != "super"@[0]);
            reveal_strlit("this");
            assert(render(t).len() != "this"@.len());
            reveal_strlit("true");
            assert(render(t).len() != "true"@.len());
            reveal_strlit("var");
            assert(render(t).len() != "var"@.len());
        },
        _ => {},
    }
}

/// Rendering a punctuation, operator or keyword token and scanning that
/// text alone gives back a token of the same kind, then the end of input.
pub proof fn law_render_round_trip(t: TokenView)
    requires
        is_fixed(t),
    ensures
        scan_spec(render(t)).tokens == seq![t, TokenView::Eof],
        scan_spec(render(t)).errors.len() == 0,
{
    match t {
        TokenView::LeftParen => {
            reveal_strlit("(");
            lemma_single_step(render(t));
        },
        TokenView::RightParen => {
            reveal_strlit(")");
            lemma_single_step(render(t));
        },
        TokenView::LeftBrace => {
            reveal_strlit("{");
            lemma_single_step(render(t));
        },
        TokenView::RightBrace => {
            reveal_strlit("}");
            lemma_single_step(render(t));
        },
        TokenView::Comma => {
            reveal_strlit(",");
            lemma_single_step(render(t));
        },
        TokenView::Dot => {
            reveal_strlit(".");
            lemma_single_step(render(t));
        },
        TokenView::Minus => {
            reveal_strlit("-");
            lemma_single_step(render(t));
        },
        TokenView::Plus => {
            reveal_strlit("+");
            lemma_single_step(render(t));
        },
        TokenView::SemiColon => {
            reveal_strlit(";");
            lemma_single_step(render(t));
        },
        TokenView::Star => {
            reveal_strlit("*");
            lemma_single_step(render(t));
        },
        TokenView::Slash => {
            reveal_strlit("/");
            lemma_single_step(render(t));
        },
        TokenView::Bang => {
            reveal_strlit("!");
            lemma_single_step(render(t));
        },
        TokenView::BangEqual => {
            reveal_strlit("!=");
            lemma_single_step(render(t));
        },
        TokenView::Equal => {
            reveal_strlit("=");
            lemma_single_step(render(t));
        },
        TokenView::EqualEqual => {
            reveal_strlit("==");
            lemma_single_step(render(t));
        },
        TokenView::Greater => {
            reveal_strlit(">");
            lemma_single_step(render(t));
        },
        TokenView::GreaterEqual => {
            reveal_strlit(">=");
            lemma_single_step(render(t));
        },
        TokenView::Less => {
            reveal_strlit("<");
            lemma_single_step(render(t));
        },
        TokenView::LessEqual => {
            reveal_strlit("<=");
            lemma_single_step(render(t));
        },
        TokenView::And => {
            reveal_strlit("and");
            lemma_keyword_spelled(t);
            lemma_word_alone(render(t));
        },
        TokenView::Class => {
            reveal_strlit("class");
            lemma_keyword_spelled(t);
            lemma_word_alone(render(t));
        },
        TokenView::Else => {
            reveal_strlit("else");
            lemma_keyword_spelled(t);
            lemma_word_alone(render(t));
        },
        TokenView::False => {
            reveal_strlit("false");
            lemma_keyword_spelled(t);
            lemma_word_alone(render(t));
        },
        TokenView::Fun => {
            reveal_strlit("fun");
            lemma_keyword_spelled(t);
            lemma_word_alone(render(t));
        },
        TokenView::For => {
            reveal_strlit("for");
            lemma_keyword_spelled(t);
            lemma_word_alone(render(t));
        },
        TokenView::If => {
            reveal_strlit("if");
            lemma_keyword_spelled(t);
            lemma_word_alone(render(t));
        },
        TokenView::Nil => {
            reveal_strlit("nil");
            lemma_keyword_spelled(t);
            lemma_word_alone(render(t));
        },
        TokenView::Or => {
            reveal_strlit("or");
            lemma_keyword_spelled(t);
            lemma_word_alone(render(t));
        },
        TokenView::Print => {
            reveal_strlit("print");
            lemma_keyword_spelled(t);
            lemma_word_alone(render(t));
        },
        TokenView::Return => {
            reveal_strlit("return");
            lemma_keyword_spelled(t);
            lemma_word_alone(render(t));
        },
        TokenView::Super => {
            reveal_strlit("super");
            lemma_keyword_spelled(t);
            lemma_word_alone(render(t));
        },
        TokenView::This => {
            reveal_strlit("this");
            lemma_keyword_spelled(t);
            lemma_word_alone(render(t));
        },
        TokenView::True => {
            reveal_strlit("true");
            lemma_keyword_spelled(t);
            lemma_word_alone(render(t));
        },
        TokenView::Var => {
            reveal_strlit("var");
            lemma_keyword_spelled(t);
            lemma_word_alone(render(t));
        },
        TokenView::While => {
            reveal_strlit("while");
            lemma_keyword_spelled(t);
            lemma_word_alone(render(t));
        },
        _ => {},
    }
}

} // verus!
