//! The operators and punctuation of the language.

use vstd::prelude::*;

verus! {

#[derive(Clone, Copy, Debug, PartialEq, Eq, Hash, Structural)]
pub enum Symbol {
    Arrow,
    FatArrow,
    EqEq,
    NotEq,
    LtEq,
    GtEq,
    AndAnd,
    OrOr,
    LeftParen,
    RightParen,
    LeftBrace,
    RightBrace,
    LeftBracket,
    RightBracket,
    Plus,
    Minus,
    Star,
    Slash,
    Percent,
    Caret,
    Bang,
    Lt,
    Gt,
    Eq,
    Amp,
    Dot,
    Comma,
    Pipe,
    Tilde,
    At,
    Hash,
}

impl Symbol {
    /// The spelling of the symbol in source text: one or two characters.
    pub open spec fn text(self) -> Seq<char> {
        match self {
            Symbol::Arrow => "->"@,
            Symbol::FatArrow => "=>"@,
            Symbol::EqEq => "=="@,
            Symbol::NotEq => "!="@,
            Symbol::LtEq => "<="@,
            Symbol::GtEq => ">="@,
            Symbol::AndAnd => "&&"@,
            Symbol::OrOr => "||"@,
            Symbol::LeftParen => "("@,
            Symbol::RightParen => ")"@,
            Symbol::LeftBrace => "{"@,
            Symbol::RightBrace => "}"@,
            Symbol::LeftBracket => "["@,
            Symbol::RightBracket => "]"@,
            Symbol::Plus => "+"@,
            Symbol::Minus => "-"@,
            Symbol::Star => "*"@,
            Symbol::Slash => "/"@,
            Symbol::Percent => "%"@,
            Symbol::Caret => "^"@,
            Symbol::Bang => "!"@,
            Symbol::Lt => "<"@,
            Symbol::Gt => ">"@,
            Symbol::Eq => "="@,
            Symbol::Amp => "&"@,
            Symbol::Dot => "."@,
            Symbol::Comma => ","@,
            Symbol::Pipe => "|"@,
            Symbol::Tilde => "~"@,
            Symbol::At => "@"@,
            Symbol::Hash => "#"@,
        }
    }

    /// True for the symbols that are spelled with two characters.
    pub open spec fn is_double(self) -> bool {
        match self {
            Symbol::Arrow
            | Symbol::FatArrow
            | Symbol::EqEq
            | Symbol::NotEq
            | Symbol::LtEq
            | Symbol::GtEq
            | Symbol::AndAnd
            | Symbol::OrOr => true,
            _ => false,
        }
    }

    /// The symbol that starts with `c` when `b` is the character after it, if any:
    /// a two-character symbol where `c` and `b` spell one, else the
    /// one-character symbol `c`.
    pub open spec fn from_parts_spec(c: char, b: Option<char>) -> Option<Symbol> {
        if c == '-' && b == Some('>') {
            Some(Symbol::Arrow)
        } else if c == '=' && b == Some('>') {
            Some(Symbol::FatArrow)
        } else if c == '=' && b == Some('=') {
            Some(Symbol::EqEq)
        } else if c == '!' && b == Some('=') {
            Some(Symbol::NotEq)
        } else if c == '<' && b == Some('=') {
            Some(Symbol::LtEq)
        } else if c == '>' && b == Some('=') {
            Some(Symbol::GtEq)
        } else if c == '&' && b == Some('&') {
            Some(Symbol::AndAnd)
        } else if c == '|' && b == Some('|') {
            Some(Symbol::OrOr)
        } else if c == '(' {
            Some(Symbol::LeftParen)
        } else if c == ')' {
            Some(Symbol::RightParen)
        } else if c == '{' {
            Some(Symbol::LeftBrace)
        } else if c == '}' {
            Some(Symbol::RightBrace)
        } else if c == '[' {
            Some(Symbol::LeftBracket)
        } else if c == ']' {
            Some(Symbol::RightBracket)
        } else if c == '+' {
            Some(Symbol::Plus)
        } else if c == '-' {
            Some(Symbol::Minus)
        } else if c == '*' {
            Some(Symbol::Star)
        } else if c == '/' {
            Some(Symbol::Slash)
        } else if c == '%' {
            Some(Symbol::Percent)
        } else if c == '^' {
            Some(Symbol::Caret)
        } else if c == '!' {
            Some(Symbol::Bang)
        } else if c == '<' {
            Some(Symbol::Lt)
        } else if c == '>' {
            Some(Symbol::Gt)
        } else if c == '=' {
            Some(Symbol::Eq)
        } else if c == '&' {
            Some(Symbol::Amp)
        } else if c == '.' {
            Some(Symbol::Dot)
        } else if c == ',' {
            Some(Symbol::Comma)
        } else if c == '|' {
            Some(Symbol::Pipe)
        } else if c == '~' {
            Some(Symbol::Tilde)
        } else if c == '@' {
            Some(Symbol::At)
        } else if c == '#' {
            Some(Symbol::Hash)
        } else {
            None
        }
    }

    pub fn as_str(&self) -> (s: &'static str)
        ensures
            s@ == self.text(),
    {
        match self {
            Symbol::Arrow => "->",
            Symbol::FatArrow => "=>",
            Symbol::EqEq => "==",
            Symbol::NotEq => "!=",
            Symbol::LtEq => "<=",
            Symbol::GtEq => ">=",
            Symbol::AndAnd => "&&",
            Symbol::OrOr => "||",
            Symbol::LeftParen => "(",
            Symbol::RightParen => ")",
            Symbol::LeftBrace => "{",
            Symbol::RightBrace => "}",
            Symbol::LeftBracket => "[",
            Symbol::RightBracket => "]",
            Symbol::Plus => "+",
            Symbol::Minus => "-",
            Symbol::Star => "*",
            Symbol::Slash => "/",
            Symbol::Percent => "%",
            Symbol::Caret => "^",
            Symbol::Bang => "!",
            Symbol::Lt => "<",
            Symbol::Gt => ">",
            Symbol::Eq => "=",
            Symbol::Amp => "&",
            Symbol::Dot => ".",
            Symbol::Comma => ",",
            Symbol::Pipe => "|",
            Symbol::Tilde => "~",
            Symbol::At => "@",
            Symbol::Hash => "#",
        }
    }

    /// The symbol's spelling as an owned string.
    pub fn to_string(&self) -> (s: String)
        ensures
            s@ == self.text(),
    {
        self.as_str().to_owned()
    }

    /// Number of characters in the symbol's spelling.
    pub fn width(&self) -> (n: usize)
        ensures
            n == self.text().len(),
            n == if self.is_double() { 2usize } else { 1usize },
    {
        proof {
            reveal_symbol_texts();
        }
        match self {
            Symbol::Arrow
            | Symbol::FatArrow
            | Symbol::EqEq
            | Symbol::NotEq
            | Symbol::LtEq
            | Symbol::GtEq
            | Symbol::AndAnd
            | Symbol::OrOr => 2,
            _ => 1,
        }
    }

    /// Longest-match lookup: two-character symbols win over their one-character prefixes.
    pub fn from_parts(c: char, b: Option<char>) -> (found: Option<Symbol>)
        ensures
            found == Symbol::from_parts_spec(c, b),
    {
        match (c, b) {
            ('-', Some('>')) => Some(Symbol::Arrow),
            ('=', Some('>')) => Some(Symbol::FatArrow),
            ('=', Some('=')) => Some(Symbol::EqEq),
            ('!', Some('=')) => Some(Symbol::NotEq),
            ('<', Some('=')) => Some(Symbol::LtEq),
            ('>', Some('=')) => Some(Symbol::GtEq),
            ('&', Some('&')) => Some(Symbol::AndAnd),
            ('|', Some('|')) => Some(Symbol::OrOr),
            ('(', _) => Some(Symbol::LeftParen),
            (')', _) => Some(Symbol::RightParen),
            ('{', _) => Some(Symbol::LeftBrace),
            ('}', _) => Some(Symbol::RightBrace),
            ('[', _) => Some(Symbol::LeftBracket),
            (']', _) => Some(Symbol::RightBracket),
            ('+', _) => Some(Symbol::Plus),
            ('-', _) => Some(Symbol::Minus),
            ('*', _) => Some(Symbol::Star),
            ('/', _) => Some(Symbol::Slash),
            ('%', _) => Some(Symbol::Percent),
            ('^', _) => Some(Symbol::Caret),
            ('!', _) => Some(Symbol::Bang),
            ('<', _) => Some(Symbol::Lt),
            ('>', _) => Some(Symbol::Gt),
            ('=', _) => Some(Symbol::Eq),
            ('&', _) => Some(Symbol::Amp),
            ('.', _) => Some(Symbol::Dot),
            (',', _) => Some(Symbol::Comma),
            ('|', _) => Some(Symbol::Pipe),
            ('~', _) => Some(Symbol::Tilde),
            ('@', _) => Some(Symbol::At),
            ('#', _) => Some(Symbol::Hash),
            _ => None,
        }
    }
}

/// Makes the characters of every symbol spelling known to the verifier.
pub proof fn reveal_symbol_texts()
    ensures
        "->"@ =~= seq!['-', '>'],
        "=>"@ =~= seq!['=', '>'],
        "=="@ =~= seq!['=', '='],
        "!="@ =~= seq!['!', '='],
        "<="@ =~= seq!['<', '='],
        ">="@ =~= seq!['>', '='],
        "&&"@ =~= seq!['&', '&'],
        "||"@ =~= seq!['|', '|'],
        "("@ =~= seq!['('],
        ")"@ =~= seq![')'],
        "{"@ =~= seq!['{'],
        "}"@ =~= seq!['}'],
        "["@ =~= seq!['['],
        "]"@ =~= seq![']'],
        "+"@ =~= seq!['+'],
        "-"@ =~= seq!['-'],
        "*"@ =~= seq!['*'],
        "/"@ =~= seq!['/'],
        "%"@ =~= seq!['%'],
        "^"@ =~= seq!['^'],
        "!"@ =~= seq!['!'],
        "<"@ =~= seq!['<'],
        ">"@ =~= seq!['>'],
        "="@ =~= seq!['='],
        "&"@ =~= seq!['&'],
        "."@ =~= seq!['.'],
        ","@ =~= seq![','],
        "|"@ =~= seq!['|'],
        "~"@ =~= seq!['~'],
        "@"@ =~= seq!['@'],
        "#"@ =~= seq!['#'],
{
    reveal_strlit("->");
    reveal_strlit("=>");
    reveal_strlit("==");
    reveal_strlit("!=");
    reveal_strlit("<=");
    reveal_strlit(">=");
    reveal_strlit("&&");
    reveal_strlit("||");
    reveal_strlit("(");
    reveal_strlit(")");
    reveal_strlit("{");
    reveal_strlit("}");
    reveal_strlit("[");
    reveal_strlit("]");
    reveal_strlit("+");
    reveal_strlit("-");
    reveal_strlit("*");
    reveal_strlit("/");
    reveal_strlit("%");
    reveal_strlit("^");
    reveal_strlit("!");
    reveal_strlit("<");
    reveal_strlit(">");
    reveal_strlit("=");
    reveal_strlit("&");
    reveal_strlit(".");
    reveal_strlit(",");
    reveal_strlit("|");
    reveal_strlit("~");
    reveal_strlit("@");
    reveal_strlit("#");
}

/// The second character of a spelling, where it has one.
pub open spec fn second_char(text: Seq<char>) -> Option<char> {
    if text.len() >= 2 {
        Some(text[1])
    } else {
        None
    }
}

/// Looking up the spelling of a symbol gives that symbol back.
pub proof fn lemma_symbol_round_trip(s: Symbol)
    ensures
        1 <= s.text().len() <= 2,
        s.text().len() == 2 <==> s.is_double(),
        Symbol::from_parts_spec(s.text()[0], second_char(s.text())) == Some(s),
{
    reveal_symbol_texts();
}

/// A symbol found by lookup is spelled by the characters it was looked up with:
/// by both for a two-character symbol, by the first alone otherwise.
pub proof fn lemma_symbol_lookup_is_spelling(c: char, b: Option<char>, s: Symbol)
    requires
        Symbol::from_parts_spec(c, b) == Some(s),
    ensures
        s.is_double() ==> b is Some && s.text() == seq![c, b->0],
        !s.is_double() ==> s.text() == seq![c],
{
    reveal_symbol_texts();
}

} // verus!
