use vstd::prelude::*;
use crate::lexical::{
    char_at, digits_end, is_alnum, is_alpha, is_digit, lemma_newlines_bound, lemma_run_end,
    lemma_scan_ends_with_eof, lemma_step_line_bound, lemma_step_progress, line_end, newlines,
    number_step, operator, quote_end, scan_from, scan_spec, step, string_step, word_end,
    word_step, Step,
};
use crate::token::{keyword_of, word_token, TokenView};
pub use crate::token::Token;

verus! {

/// A recoverable lexical defect, with the line on which it was found.
#[derive(Debug, Clone, Copy, PartialEq, Eq, Structural)]
pub enum ScannerError {
    /// A character that starts no token.
    UnknownToken(usize),
    /// A string literal whose closing quote never comes; the line is where it began.
    UnterminatedString(usize),
    /// A number literal whose point is not followed by a digit.
    InvalidNumber(usize),
}

/// The model of a [`Scanner`]: the source text, the cursor, the line counter,
/// the errors recorded so far and the line of each token emitted so far.
pub ghost struct ScannerState {
    pub source: Seq<char>,
    pub current: nat,
    pub line: nat,
    pub errors: Seq<ScannerError>,
    pub lines: Seq<nat>,
}

/// A single-pass scanner over one source text.
pub struct Scanner {
    /// The characters of the source text.
    chars: Vec<char>,
    /// The position of the character being processed.
    current: usize,
    /// The position where the token being processed starts.
    start: usize,
    /// The current line number (1-based).
    line: usize,
    /// Errors collected while scanning.
    errors: Vec<ScannerError>,
    /// The line on which each emitted token begins.
    lines: Vec<usize>,
}

/// The lines of a vector of line numbers.
pub open spec fn line_seq(v: Seq<usize>) -> Seq<nat> {
    v.map_values(|l: usize| l as nat)
}

/// The models of a sequence of tokens.
pub open spec fn token_seq(v: Seq<Token>) -> Seq<TokenView> {
    v.map_values(|t: Token| t@)
}

/// `s` followed by the element of `o`, if any.
pub open spec fn push_opt<A>(s: Seq<A>, o: Option<A>) -> Seq<A> {
    match o {
        Some(a) => s.push(a),
        None => s,
    }
}

/// The model of an optional token.
pub open spec fn opt_view(o: Option<Token>) -> Option<TokenView> {
    match o {
        Some(t) => Some(t@),
        None => None,
    }
}

impl View for Scanner {
    type V = ScannerState;

    closed spec fn view(&self) -> ScannerState {
        ScannerState {
            source: self.chars@,
            current: self.current as nat,
            line: self.line as nat,
            errors: self.errors@,
            lines: line_seq(self.lines@),
        }
    }
}

/// Relies on `String`'s `FromIterator<char>`: the string holds the given
/// characters in order.
#[verifier::external_body]
fn string_from_chars(v: &Vec<char>) -> (r: String)
    ensures
        r@ == v@,
{
    v.iter().collect()
}

/// The characters of `v` from `from` up to (not including) `to`.
fn slice_chars(v: &Vec<char>, from: usize, to: usize) -> (r: Vec<char>)
    requires
        from <= to <= v@.len(),
    ensures
        r@ == v@.subrange(from as int, to as int),
{
    let mut r: Vec<char> = Vec::new();
    let mut k: usize = from;
    while k < to
        invariant
            from <= k <= to <= v@.len(),
            r@ == v@.subrange(from as int, k as int),
        decreases to - k,
    {
        r.push(v[k]);
        k = k + 1;
        assert(r@ =~= v@.subrange(from as int, k as int));
    }
    r
}

/// Whether `c` is an ASCII digit.
fn is_ascii_digit(c: char) -> (r: bool)
    ensures
        r == is_digit(c),
{
    '0' <= c && c <= '9'
}

/// Whether `c` is an ASCII letter.
fn is_ascii_alphabetic(c: char) -> (r: bool)
    ensures
        r == is_alpha(c),
{
    ('a' <= c && c <= 'z') || ('A' <= c && c <= 'Z')
}

/// Whether `c` is an ASCII letter or digit.
fn is_ascii_alphanumeric(c: char) -> (r: bool)
    ensures
        r == is_alnum(c),
{
    ('a' <= c && c <= 'z') || ('A' <= c && c <= 'Z') || ('0' <= c && c <= '9')
}

/// Scan a whole source text: its tokens, closed by the end-of-input token,
/// and every lexical error found, in source order. The text holds fewer
/// than `usize::MAX` characters.
pub fn scan_source(src: String) -> (r: (Vec<Token>, Vec<ScannerError>))
    requires
        src@.len() < usize::MAX,
    ensures
        token_seq(r.0@) == scan_spec(src@).tokens,
        r.1@ == scan_spec(src@).errors,
{
    let mut scanner = Scanner::new(src);
    let tokens = scanner.scan();
    proof {
        assert(scanner@.errors =~= scan_spec(src@).errors);
    }
    (tokens, scanner.errors)
}

impl Scanner {
    /// Whether the scanner is in a state from which it can go on scanning.
    pub open spec fn wf(&self) -> bool {
        &&& self@.current <= self@.source.len() < usize::MAX
        &&& 1 <= self@.line <= self@.current + 1
    }

    /// Create a new `Scanner` over a source text, on line 1 at its first
    /// character. The text holds fewer than `usize::MAX` characters, so that
    /// every line number fits in a `usize`.
    pub fn new(src: String) -> (r: Self)
        requires
            src@.len() < usize::MAX,
        ensures
            r@ == (ScannerState {
                source: src@,
                current: 0,
                line: 1,
                errors: Seq::empty(),
                lines: Seq::empty(),
            }),
            r.wf(),
    {
        let mut chars: Vec<char> = Vec::new();
        for c in it: src.chars()
            invariant
                chars@ == it.seq().take(it.index() as int),
        {
            chars.push(c);
        }
        let r = Scanner { chars, current: 0, start: 0, line: 1, errors: Vec::new(), lines: Vec::new() };
        assert(chars@ =~= src@);
        assert(r.errors@ =~= Seq::empty());
        assert(line_seq(r.lines@) =~= Seq::empty());
        r
    }

    /// The errors recorded so far, in source order.
    pub fn errors(&self) -> (r: &Vec<ScannerError>)
        ensures
            r@ == self@.errors,
    {
        &self.errors
    }

    /// The line on which each token emitted so far begins.
    pub fn lines(&self) -> (r: &Vec<usize>)
        ensures
            line_seq(r@) == self@.lines,
    {
        &self.lines
    }

    /// The state in which a recognizer is entered: at the first character
    /// of a lexeme, inside the source.
    spec fn at_lexeme(&self) -> bool {
        &&& self.start == self.current
        &&& self.current < self.chars@.len() < usize::MAX
        &&& 1 <= self.line <= self.current + 1
    }

    /// Handle an identifier or reserved word: a maximal run of ASCII letters
    /// and digits. Leaves the position on its last character.
    fn identifier(&mut self) -> (t: Token)
        requires
            old(self).at_lexeme(),
        ensures
            final(self).current == word_end(old(self).chars@, old(self).current + 1) - 1,
            t@ == word_step(old(self).chars@, old(self).current as int, old(self).line as nat).token->0,
            final(self).chars@ == old(self).chars@,
            final(self).start == old(self).start,
            final(self).line == old(self).line,
            final(self).errors == old(self).errors,
            final(self).lines == old(self).lines,
    {
        let ghost s = self.chars@;
        let ghost i = self.current as int;
        proof {
            lemma_run_end(s, i + 1, |c: char| is_alnum(c));
        }
        while is_ascii_alphanumeric(self.peek_next())
            invariant
                self.chars@ == s,
                self.start as int == i,
                i <= self.current < s.len() < usize::MAX,
                word_end(s, self.current + 1) == word_end(s, i + 1),
                self.line == old(self).line,
                self.errors == old(self).errors,
                self.lines == old(self).lines,
            decreases s.len() - self.current,
        {
            self.advance();
        }
        let word = slice_chars(&self.chars, self.start, self.current + 1);
        match keyword_of(&word) {
            Some(t) => t,
            None => Token::Identifier(string_from_chars(&word)),
        }
    }

    /// Handle a number literal: a run of digits, with a fraction only where
    /// a digit follows the point. A point with no digit after it is recorded
    /// as an error and left for the next lexeme. Leaves the position on the
    /// last character of the literal.
    fn number(&mut self) -> (t: Token)
        requires
            old(self).at_lexeme(),
            is_digit(old(self).chars@[old(self).current as int]),
        ensures
            final(self).current == number_step(old(self).chars@, old(self).current as int, old(self).line as nat).next - 1,
            t@ == number_step(old(self).chars@, old(self).current as int, old(self).line as nat).token->0,
            final(self).errors@ == push_opt(old(self).errors@, number_step(old(self).chars@, old(self).current as int, old(self).line as nat).error),
            final(self).chars@ == old(self).chars@,
            final(self).start == old(self).start,
            final(self).line == old(self).line,
            final(self).lines == old(self).lines,
    {
        let ghost s = self.chars@;
        let ghost i = self.current as int;
        proof {
            lemma_run_end(s, i + 1, |c: char| is_digit(c));
        }
        while is_ascii_digit(self.peek_next())
            invariant
                self.chars@ == s,
                self.start as int == i,
                i <= self.current < s.len() < usize::MAX,
                digits_end(s, self.current + 1) == digits_end(s, i + 1),
                self.line == old(self).line,
                self.errors == old(self).errors,
                self.lines == old(self).lines,
            decreases s.len() - self.current,
        {
            self.advance();
        }
        if self.peek_next() == '.' {
            // move onto the point
            self.advance();
            if is_ascii_digit(self.peek_next()) {
                let ghost d = self.current as int;
                proof {
                    lemma_run_end(s, d + 1, |c: char| is_digit(c));
                }
                while is_ascii_digit(self.peek_next())
                    invariant
                        self.chars@ == s,
                        self.start as int == i,
                        d <= self.current < s.len() < usize::MAX,
                        digits_end(s, self.current + 1) == digits_end(s, d + 1),
                        self.line == old(self).line,
                        self.errors == old(self).errors,
                        self.lines == old(self).lines,
                    decreases s.len() - self.current,
                {
                    self.advance();
                }
            } else {
                // leave the point for the next lexeme
                self.current = self.current - 1;
                self.errors.push(ScannerError::InvalidNumber(self.line));
            }
        }
        let digits = slice_chars(&self.chars, self.start, self.current + 1);
        Token::Number(string_from_chars(&digits))
    }

    /// Handle a string literal: the text up to the next double quote, with
    /// no escapes. Without a closing quote, records an unterminated string
    /// at the line where it began and emits nothing. Newlines inside count
    /// toward the line counter either way. Leaves the position on the
    /// closing quote, or on the last character of the source.
    fn string(&mut self) -> (t: Option<Token>)
        requires
            old(self).at_lexeme(),
            old(self).chars@[old(self).current as int] == '"',
        ensures
            final(self).current == string_step(old(self).chars@, old(self).current as int, old(self).line as nat).next - 1,
            final(self).line == string_step(old(self).chars@, old(self).current as int, old(self).line as nat).line,
            opt_view(t) == string_step(old(self).chars@, old(self).current as int, old(self).line as nat).token,
            final(self).errors@ == push_opt(old(self).errors@, string_step(old(self).chars@, old(self).current as int, old(self).line as nat).error),
            final(self).chars@ == old(self).chars@,
            final(self).start == old(self).start,
            final(self).lines == old(self).lines,
    {
        let ghost s = self.chars@;
        let ghost i = self.current as int;
        proof {
            lemma_run_end(s, i + 1, |c: char| c != '"');
        }
        let mut delta_lines: usize = 0;
        while self.current + 1 < self.chars.len() && self.peek_next() != '"'
            invariant
                self.chars@ == s,
                self.start as int == i,
                i <= self.current < s.len() < usize::MAX,
                quote_end(s, self.current + 1) == quote_end(s, i + 1),
                delta_lines == newlines(s.subrange(i + 1, self.current + 1)),
                delta_lines <= self.current - i,
                self.line == old(self).line,
                self.errors == old(self).errors,
                self.lines == old(self).lines,
            decreases s.len() - self.current,
        {
            self.advance();
            assert(s.subrange(i + 1, self.current + 1).drop_last() =~= s.subrange(i + 1, self.current as int));
            if self.chars[self.current] == '\n' {
                delta_lines = delta_lines + 1;
            }
        }
        proof {
            lemma_newlines_bound(s.subrange(i + 1, self.current + 1));
        }
        if self.current + 1 >= self.chars.len() {
            self.errors.push(ScannerError::UnterminatedString(self.line));
            self.line = self.line + delta_lines;
            return None;
        }
        let body = slice_chars(&self.chars, self.start + 1, self.current + 1);
        // move onto the closing quote
        self.advance();
        self.line = self.line + delta_lines;
        Some(Token::String(string_from_chars(&body)))
    }

    /// Handle `!`, `=`, `<` or `>`, combined with a following `=` whenever
    /// there is one. Leaves the position on the last character.
    fn two_char_token(&mut self) -> (t: Token)
        requires
            old(self).at_lexeme(),
        ensures
            char_at(old(self).chars@, old(self).current + 1) == '=' ==> final(self).current == old(self).current + 1
                && t@ == operator(old(self).chars@[old(self).current as int], true),
            char_at(old(self).chars@, old(self).current + 1) != '=' ==> final(self).current == old(self).current
                && t@ == operator(old(self).chars@[old(self).current as int], false),
            final(self).chars@ == old(self).chars@,
            final(self).start == old(self).start,
            final(self).line == old(self).line,
            final(self).errors == old(self).errors,
            final(self).lines == old(self).lines,
    {
        let first_char = self.peek();
        let equal_next = self.match_next('=');
        if equal_next {
            self.advance();
        }
        if first_char == '!' {
            if equal_next { Token::BangEqual } else { Token::Bang }
        } else if first_char == '=' {
            if equal_next { Token::EqualEqual } else { Token::Equal }
        } else if first_char == '<' {
            if equal_next { Token::LessEqual } else { Token::Less }
        } else {
            if equal_next { Token::GreaterEqual } else { Token::Greater }
        }
    }

    /// Handle a `/`: a line comment, which runs up to but not over the next
    /// newline and emits nothing, or a slash. Leaves the position on the
    /// last character consumed.
    fn comment_or_slash(&mut self) -> (t: Option<Token>)
        requires
            old(self).at_lexeme(),
            old(self).chars@[old(self).current as int] == '/',
        ensures
            char_at(old(self).chars@, old(self).current + 1) == '/' ==> t is None
                && final(self).current == line_end(old(self).chars@, old(self).current + 2) - 1,
            char_at(old(self).chars@, old(self).current + 1) != '/' ==> t == Some(Token::Slash)
                && final(self).current == old(self).current,
            final(self).chars@ == old(self).chars@,
            final(self).start == old(self).start,
            final(self).line == old(self).line,
            final(self).errors == old(self).errors,
            final(self).lines == old(self).lines,
    {
        let ghost s = self.chars@;
        let ghost i = self.current as int;
        if self.match_next('/') {
            proof {
                lemma_run_end(s, i + 2, |c: char| c != '\n');
            }
            while self.current + 1 < self.chars.len() && self.peek_next() != '\n'
                invariant
                    self.chars@ == s,
                    self.start as int == i,
                    i <= self.current < s.len() < usize::MAX,
                    line_end(s, self.current + 1) == line_end(s, i + 2),
                    self.line == old(self).line,
                    self.errors == old(self).errors,
                    self.lines == old(self).lines,
                decreases s.len() - self.current,
            {
                self.advance();
            }
            None
        } else {
            Some(Token::Slash)
        }
    }

    /// Scan the rest of the source and produce its tokens, closed by the
    /// end-of-input token. The errors found, and the line of each token,
    /// are appended to those the scanner holds.
    pub fn scan(&mut self) -> (tokens: Vec<Token>)
        requires
            old(self).wf(),
        ensures
            final(self).wf(),
            token_seq(tokens@) == scan_from(old(self)@.source, old(self)@.current as int, old(self)@.line).tokens,
            final(self)@.errors == old(self)@.errors + scan_from(old(self)@.source, old(self)@.current as int, old(self)@.line).errors,
            final(self)@.lines == old(self)@.lines + scan_from(old(self)@.source, old(self)@.current as int, old(self)@.line).lines,
            final(self)@.source == old(self)@.source,
            final(self)@.current == old(self)@.source.len(),
            final(self)@.line == scan_from(old(self)@.source, old(self)@.current as int, old(self)@.line).lines.last(),
    {
        let ghost s = self.chars@;
        let ghost total = scan_from(s, self.current as int, self.line as nat);
        let ghost errors0 = self.errors@;
        let ghost lines0 = line_seq(self.lines@);
        let mut tokens: Vec<Token> = Vec::new();
        // loop through all lexemes in the source
        while !self.at_end()
            invariant
                self.chars@ == s,
                self.current <= s.len() < usize::MAX,
                1 <= self.line <= self.current + 1,
                token_seq(tokens@) + scan_from(s, self.current as int, self.line as nat).tokens == total.tokens,
                self.errors@ + scan_from(s, self.current as int, self.line as nat).errors == errors0 + total.errors,
                line_seq(self.lines@) + scan_from(s, self.current as int, self.line as nat).lines == lines0 + total.lines,
                scan_from(s, self.current as int, self.line as nat).lines.last() == total.lines.last(),
            decreases s.len() - self.current,
        {
            let ghost i = self.current as int;
            let ghost line = self.line as nat;
            let ghost st = step(s, i, line);
            proof {
                lemma_step_progress(s, i, line);
                lemma_step_line_bound(s, i, line);
            }
            let ghost tokens_before = token_seq(tokens@);
            let ghost errors_before = self.errors@;
            let ghost lines_before = line_seq(self.lines@);
            self.start = self.current;
            let line_now = self.line;
            let token = self.scan_token();
            match token {
                Some(t) => {
                    tokens.push(t);
                    self.lines.push(line_now);
                },
                None => {},
            }
            proof {
                let rest = scan_from(s, st.next, st.line);
                lemma_scan_ends_with_eof(s, st.next, st.line);
                match st.token {
                    Some(t) => {
                        assert(token_seq(tokens@) =~= tokens_before.push(t));
                        assert(line_seq(self.lines@) =~= lines_before.push(line));
                        assert(tokens_before.push(t) + rest.tokens =~= tokens_before + (seq![t] + rest.tokens));
                        assert(lines_before.push(line) + rest.lines =~= lines_before + (seq![line] + rest.lines));
                    },
                    None => {},
                }
                match st.error {
                    Some(e) => {
                        assert(errors_before.push(e) + rest.errors =~= errors_before + (seq![e] + rest.errors));
                    },
                    None => {},
                }
            }
            // set position to the start of the next lexeme
            self.advance();
        }
        let ghost tokens_before = token_seq(tokens@);
        let ghost lines_before = line_seq(self.lines@);
        tokens.push(Token::Eof);
        self.lines.push(self.line);
        proof {
            assert(token_seq(tokens@) =~= tokens_before.push(TokenView::Eof));
            assert(line_seq(self.lines@) =~= lines_before.push(self.line as nat));
            assert(self.errors@ =~= self.errors@ + Seq::<ScannerError>::empty());
        }
        tokens
    }

    /// The lexeme attempt at the position.
    spec fn next_step(&self) -> Step {
        step(self.chars@, self.current as int, self.line as nat)
    }

    /// Get the token starting at the position, recording any error found.
    /// Returns `None` where the lexeme emits no token (whitespace, newlines,
    /// comments, errors). Leaves the position on the last character of the
    /// lexeme.
    fn scan_token(&mut self) -> (t: Option<Token>)
        requires
            old(self).at_lexeme(),
        ensures
            final(self).current == old(self).next_step().next - 1,
            final(self).line == old(self).next_step().line,
            opt_view(t) == old(self).next_step().token,
            final(self).errors@ == push_opt(old(self).errors@, old(self).next_step().error),
            final(self).chars@ == old(self).chars@,
            final(self).lines == old(self).lines,
    {
        match self.peek() {
            // single character tokens
            '(' => Some(Token::LeftParen),
            ')' => Some(Token::RightParen),
            '{' => Some(Token::LeftBrace),
            '}' => Some(Token::RightBrace),
            ',' => Some(Token::Comma),
            '.' => Some(Token::Dot),
            '-' => Some(Token::Minus),
            '+' => Some(Token::Plus),
            ';' => Some(Token::SemiColon),
            '*' => Some(Token::Star),
            '/' => self.comment_or_slash(),
            // one or two character tokens
            '!' | '=' | '<' | '>' => Some(self.two_char_token()),
            // skip over whitespace
            ' ' | '\r' | '\t' => None,
            // count lines
            '\n' => {
                self.line = self.line + 1;
                None
            },
            '"' => self.string(),
            c => {
                if is_ascii_digit(c) {
                    Some(self.number())
                } else if is_ascii_alphabetic(c) {
                    Some(self.identifier())
                } else {
                    self.errors.push(ScannerError::UnknownToken(self.line));
                    None
                }
            },
        }
    }

    /// Advance the position by one.
    fn advance(&mut self)
        requires
            old(self).current < usize::MAX,
        ensures
            final(self).current == old(self).current + 1,
            final(self).chars@ == old(self).chars@,
            final(self).start == old(self).start,
            final(self).line == old(self).line,
            final(self).errors == old(self).errors,
            final(self).lines == old(self).lines,
    {
        self.current = self.current + 1;
    }

    /// Whether the position is past the end of the source.
    fn at_end(&self) -> (r: bool)
        ensures
            r == (self.current >= self.chars@.len()),
    {
        self.current >= self.chars.len()
    }

    /// The character at the position, or `'\0'` past the end.
    fn peek(&self) -> (r: char)
        ensures
            r == char_at(self.chars@, self.current as int),
    {
        if self.at_end() {
            '\0'
        } else {
            self.chars[self.current]
        }
    }

    /// The character after the position, or `'\0'` past the end.
    fn peek_next(&self) -> (r: char)
        requires
            self.current < usize::MAX,
        ensures
            r == char_at(self.chars@, self.current + 1),
    {
        if self.current + 1 >= self.chars.len() {
            '\0'
        } else {
            self.chars[self.current + 1]
        }
    }

    /// Whether the character after the position is `to_match`.
    fn match_next(&self, to_match: char) -> (r: bool)
        requires
            self.current < usize::MAX,
        ensures
            r == (self.current < self.chars@.len() && char_at(self.chars@, self.current + 1)
                == to_match),
    {
        if self.at_end() {
            false
        } else {
            self.peek_next() == to_match
        }
    }
}

} // verus!
