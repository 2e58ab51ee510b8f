use vstd::prelude::*;

verus! {

/// One lexical unit of the language.
///
/// Literal kinds carry their text: an identifier its name, a string the text
/// strictly between its quotes, and a number the digits (and the optional
/// fraction) exactly as written in the source.
#[derive(Debug, PartialEq)]
pub enum Token {
    // Punctuation / single character tokens
    LeftParen,
    RightParen,
    LeftBrace,
    RightBrace,
    Comma,
    Dot,
    Minus,
    Plus,
    SemiColon,
    Star,
    Slash,
    // One or two character tokens
    Bang,
    BangEqual,
    Equal,
    EqualEqual,
    Greater,
    GreaterEqual,
    Less,
    LessEqual,
    // Literals
    Identifier(String),
    String(String),
    Number(String),
    // Keywords
    And,
    Class,
    Else,
    False,
    Fun,
    For,
    If,
    Nil,
    Or,
    Print,
    Return,
    Super,
    This,
    True,
    Var,
    While,
    /// End of input
    Eof,
}

/// The mathematical model of a [`Token`]: the same kinds, with the text of
/// literal kinds as character sequences.
pub ghost enum TokenView {
    LeftParen,
    RightParen,
    LeftBrace,
    RightBrace,
    Comma,
    Dot,
    Minus,
    Plus,
    SemiColon,
    Star,
    Slash,
    Bang,
    BangEqual,
    Equal,
    EqualEqual,
    Greater,
    GreaterEqual,
    Less,
    LessEqual,
    Identifier(Seq<char>),
    String(Seq<char>),
    Number(Seq<char>),
    And,
    Class,
    Else,
    False,
    Fun,
    For,
    If,
    Nil,
    Or,
    Print,
    Return,
    Super,
    This,
    True,
    Var,
    While,
    Eof,
}

impl View for Token {
    type V = TokenView;

    open spec fn view(&self) -> TokenView {
        match self {
            Token::LeftParen => TokenView::LeftParen,
            Token::RightParen => TokenView::RightParen,
            Token::LeftBrace => TokenView::LeftBrace,
            Token::RightBrace => TokenView::RightBrace,
            Token::Comma => TokenView::Comma,
            Token::Dot => TokenView::Dot,
            Token::Minus => TokenView::Minus,
            Token::Plus => TokenView::Plus,
            Token::SemiColon => TokenView::SemiColon,
            Token::Star => TokenView::Star,
            Token::Slash => TokenView::Slash,
            Token::Bang => TokenView::Bang,
            Token::BangEqual => TokenView::BangEqual,
            Token::Equal => TokenView::Equal,
            Token::EqualEqual => TokenView::EqualEqual,
            Token::Greater => TokenView::Greater,
            Token::GreaterEqual => TokenView::GreaterEqual,
            Token::Less => TokenView::Less,
            Token::LessEqual => TokenView::LessEqual,
            Token::Identifier(s) => TokenView::Identifier(s@),
            Token::String(s) => TokenView::String(s@),
            Token::Number(s) => TokenView::Number(s@),
            Token::And => TokenView::And,
            Token::Class => TokenView::Class,
            Token::Else => TokenView::Else,
            Token::False => TokenView::False,
            Token::Fun => TokenView::Fun,
            Token::For => TokenView::For,
            Token::If => TokenView::If,
            Token::Nil => TokenView::Nil,
            Token::Or => TokenView::Or,
            Token::Print => TokenView::Print,
            Token::Return => TokenView::Return,
            Token::Super => TokenView::Super,
            Token::This => TokenView::This,
            Token::True => TokenView::True,
            Token::Var => TokenView::Var,
            Token::While => TokenView::While,
            Token::Eof => TokenView::Eof,
        }
    }
}

/// Whether a token kind is spelled the same way every time it occurs:
/// punctuation, operators and reserved words.
pub open spec fn is_fixed(t: TokenView) -> bool {
    !(t is Identifier || t is String || t is Number || t is Eof)
}

/// The reserved word spelled by `w`, if any (exact, case-sensitive match).
pub open spec fn keyword(w: Seq<char>) -> Option<TokenView> {
    if w == "and"@ {
        Some(TokenView::And)
    } else if w == "class"@ {
        Some(TokenView::Class)
    } else if w == "else"@ {
        Some(TokenView::Else)
    } else if w == "false"@ {
        Some(TokenView::False)
    } else if w == "fun"@ {
        Some(TokenView::Fun)
    } else if w == "for"@ {
        Some(TokenView::For)
    } else if w == "if"@ {
        Some(TokenView::If)
    } else if w == "nil"@ {
        Some(TokenView::Nil)
    } else if w == "or"@ {
        Some(TokenView::Or)
    } else if w == "print"@ {
        Some(TokenView::Print)
    } else if w == "return"@ {
        Some(TokenView::Return)
    } else if w == "super"@ {
        Some(TokenView::Super)
    } else if w == "this"@ {
        Some(TokenView::This)
    } else if w == "true"@ {
        Some(TokenView::True)
    } else if w == "var"@ {
        Some(TokenView::Var)
    } else if w == "while"@ {
        Some(TokenView::While)
    } else {
        None
    }
}

/// The token for a maximal run of letters and digits: a reserved word takes
/// precedence over an identifier.
pub open spec fn word_token(w: Seq<char>) -> TokenView {
    match keyword(w) {
        Some(t) => t,
        None => TokenView::Identifier(w),
    }
}

/// The fixed spelling of a punctuation, operator or keyword kind; the empty
/// text for any other kind.
pub open spec fn spelling(t: TokenView) -> Seq<char> {
    match t {
        TokenView::LeftParen => "("@,
        TokenView::RightParen => ")"@,
        TokenView::LeftBrace => "{"@,
        TokenView::RightBrace => "}"@,
        TokenView::Comma => ","@,
        TokenView::Dot => "."@,
        TokenView::Minus => "-"@,
        TokenView::Plus => "+"@,
        TokenView::SemiColon => ";"@,
        TokenView::Star => "*"@,
        TokenView::Slash => "/"@,
        TokenView::Bang => "!"@,
        TokenView::BangEqual => "!="@,
        TokenView::Equal => "="@,
        TokenView::EqualEqual => "=="@,
        TokenView::Greater => ">"@,
        TokenView::GreaterEqual => ">="@,
        TokenView::Less => "<"@,
        TokenView::LessEqual => "<="@,
        TokenView::And => "and"@,
        TokenView::Class => "class"@,
        TokenView::Else => "else"@,
        TokenView::False => "false"@,
        TokenView::Fun => "fun"@,
        TokenView::For => "for"@,
        TokenView::If => "if"@,
        TokenView::Nil => "nil"@,
        TokenView::Or => "or"@,
        TokenView::Print => "print"@,
        TokenView::Return => "return"@,
        TokenView::Super => "super"@,
        TokenView::This => "this"@,
        TokenView::True => "true"@,
        TokenView::Var => "var"@,
        TokenView::While => "while"@,
        _ => ""@,
    }
}

/// The text a token renders to: its fixed spelling, an identifier's name, a
/// number's digits, a string's text between double quotes, and nothing for
/// the end of input.
pub open spec fn render(t: TokenView) -> Seq<char> {
    match t {
        TokenView::Identifier(w) => w,
        TokenView::String(w) => "\""@ + w + "\""@,
        TokenView::Number(w) => w,
        _ => spelling(t),
    }
}

impl Token {
    /// The fixed spelling of a punctuation, operator or keyword token; the
    /// empty text for any other token.
    pub fn spelling(&self) -> (r: &'static str)
        ensures
            r@ == spelling(self@),
    {
        match self {
            Token::LeftParen => "(",
            Token::RightParen => ")",
            Token::LeftBrace => "{",
            Token::RightBrace => "}",
            Token::Comma => ",",
            Token::Dot => ".",
            Token::Minus => "-",
            Token::Plus => "+",
            Token::SemiColon => ";",
            Token::Star => "*",
            Token::Slash => "/",
            Token::Bang => "!",
            Token::BangEqual => "!=",
            Token::Equal => "=",
            Token::EqualEqual => "==",
            Token::Greater => ">",
            Token::GreaterEqual => ">=",
            Token::Less => "<",
            Token::LessEqual => "<=",
            Token::And => "and",
            Token::Class => "class",
            Token::Else => "else",
            Token::False => "false",
            Token::Fun => "fun",
            Token::For => "for",
            Token::If => "if",
            Token::Nil => "nil",
            Token::Or => "or",
            Token::Print => "print",
            Token::Return => "return",
            Token::Super => "super",
            Token::This => "this",
            Token::True => "true",
            Token::Var => "var",
            Token::While => "while",
            _ => "",
        }
    }

    /// Render the token back to text: its fixed spelling, an identifier's
    /// name, a number's digits as written, a string's text between double
    /// quotes, and the empty text for the end of input.
    pub fn to_string(&self) -> (r: String)
        ensures
            r@ == render(self@),
    {
        match self {
            Token::Identifier(name) => name.clone(),
            Token::String(text) => String::from_str("\"").concat(text.as_str()).concat("\""),
            Token::Number(digits) => digits.clone(),
            _ => String::from_str(self.spelling()),
        }
    }
}

/// Whether `w` holds exactly the characters of `lit`.
fn same_text(w: &Vec<char>, lit: &str) -> (r: bool)
    ensures
        r == (w@ == lit@),
{
    let n = lit.unicode_len();
    if w.len() != n {
        return false;
    }
    let mut i: usize = 0;
    while i < n
        invariant
            n == lit@.len(),
            w@.len() == n,
            i <= n,
            forall|k: int| 0 <= k < i ==> w@[k] == lit@[k],
        decreases n - i,
    {
        if w[i] != lit.get_char(i) {
            return false;
        }
        i = i + 1;
    }
    assert(w@ =~= lit@);
    true
}

/// The reserved word spelled by `w`, if any.
pub fn keyword_of(w: &Vec<char>) -> (r: Option<Token>)
    ensures
        r matches Some(t) ==> keyword(w@) == Some(t@),
        r is None ==> keyword(w@) is None,
{
    if same_text(w, "and") {
        Some(Token::And)
    } else if same_text(w, "class") {
        Some(Token::Class)
    } else if same_text(w, "else") {
        Some(Token::Else)
    } else if same_text(w, "false") {
        Some(Token::False)
    } else if same_text(w, "fun") {
        Some(Token::Fun)
    } else if same_text(w, "for") {
        Some(Token::For)
    } else if same_text(w, "if") {
        Some(Token::If)
    } else if same_text(w, "nil") {
        Some(Token::Nil)
    } else if same_text(w, "or") {
        Some(Token::Or)
    } else if same_text(w, "print") {
        Some(Token::Print)
    } else if same_text(w, "return") {
        Some(Token::Return)
    } else if same_text(w, "super") {
        Some(Token::Super)
    } else if same_text(w, "this") {
        Some(Token::This)
    } else if same_text(w, "true") {
        Some(Token::True)
    } else if same_text(w, "var") {
        Some(Token::Var)
    } else if same_text(w, "while") {
        Some(Token::While)
    } else {
        None
    }
}

} // verus!
