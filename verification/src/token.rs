//! Tokens: the words that the lexer cuts the source text into.

use vstd::prelude::*;
use crate::keyword::Keyword;
use crate::span::Span;
use crate::symbol::Symbol;
use crate::text::{decimal_string, decimal_text};
use vstd::string::*;

verus! {

/// What a token kind is, with an identifier held as its characters.
pub ghost enum TokenKindView {
    Ident(Seq<char>),
    Symbol(Symbol),
    Keyword(Keyword),
    Integer(u64),
    Decimal { whole: u64, fraction: u64 },
}

/// The kind of a token. A whole number in any radix is an `Integer`. A
/// decimal number with a fractional part is a `Decimal`: it holds the value
/// of the digits before the point, which is zero where the number starts
/// with the point, and the value of the digits after it, and leaves
/// forming a floating-point number to the caller.
#[derive(Debug, PartialEq, Eq)]
pub enum TokenKind {
    Ident(String),
    Symbol(Symbol),
    Keyword(Keyword),
    Integer(u64),
    Decimal { whole: u64, fraction: u64 },
}

impl View for TokenKind {
    type V = TokenKindView;

    open spec fn view(&self) -> TokenKindView {
        match self {
            TokenKind::Ident(name) => TokenKindView::Ident(name@),
            TokenKind::Symbol(symbol) => TokenKindView::Symbol(*symbol),
            TokenKind::Keyword(keyword) => TokenKindView::Keyword(*keyword),
            TokenKind::Integer(value) => TokenKindView::Integer(*value),
            TokenKind::Decimal { whole, fraction } => TokenKindView::Decimal {
                whole: *whole,
                fraction: *fraction,
            },
        }
    }
}

impl TokenKindView {
    /// How the token kind is written in a message: an identifier by its
    /// name, a symbol or a keyword by its spelling, a number in decimal.
    pub open spec fn text(self) -> Seq<char> {
        match self {
            TokenKindView::Ident(name) => name,
            TokenKindView::Symbol(symbol) => symbol.text(),
            TokenKindView::Keyword(keyword) => keyword.text(),
            TokenKindView::Integer(value) => decimal_text(value as nat),
            TokenKindView::Decimal { whole, fraction } => decimal_text(whole as nat) + "."@
                + decimal_text(fraction as nat),
        }
    }
}

impl TokenKind {
    /// How the token kind is written in a message.
    pub fn to_string(&self) -> (text: String)
        ensures
            text@ == self@.text(),
    {
        match self {
            TokenKind::Ident(name) => name.clone(),
            TokenKind::Symbol(symbol) => symbol.to_string(),
            TokenKind::Keyword(keyword) => keyword.to_string(),
            TokenKind::Integer(value) => decimal_string(*value as u128),
            TokenKind::Decimal { whole, fraction } => {
                let mut text = decimal_string(*whole as u128);
                text.append(".");
                let digits = decimal_string(*fraction as u128);
                text.append(digits.as_str());
                text
            },
        }
    }
}

impl Clone for TokenKind {
    fn clone(&self) -> (copy: TokenKind)
        ensures
            copy@ == self@,
    {
        match self {
            TokenKind::Ident(name) => TokenKind::Ident(name.clone()),
            TokenKind::Symbol(symbol) => TokenKind::Symbol(*symbol),
            TokenKind::Keyword(keyword) => TokenKind::Keyword(*keyword),
            TokenKind::Integer(value) => TokenKind::Integer(*value),
            TokenKind::Decimal { whole, fraction } => TokenKind::Decimal {
                whole: *whole,
                fraction: *fraction,
            },
        }
    }
}

/// Something a token kind can be compared with: a symbol, a keyword, or
/// another token kind.
pub trait TokenPattern {
    /// The token kind that this pattern stands for.
    spec fn kind(&self) -> TokenKindView;

    /// Tests whether `kind` is the token kind this pattern stands for.
    fn matches(&self, kind: &TokenKind) -> (same: bool)
        ensures
            same == (kind@ == self.kind()),
    ;
}

impl TokenPattern for Symbol {
    open spec fn kind(&self) -> TokenKindView {
        TokenKindView::Symbol(*self)
    }

    fn matches(&self, kind: &TokenKind) -> (same: bool) {
        match kind {
            TokenKind::Symbol(symbol) => *symbol == *self,
            _ => false,
        }
    }
}

impl TokenPattern for Keyword {
    open spec fn kind(&self) -> TokenKindView {
        TokenKindView::Keyword(*self)
    }

    fn matches(&self, kind: &TokenKind) -> (same: bool) {
        match kind {
            TokenKind::Keyword(keyword) => *keyword == *self,
            _ => false,
        }
    }
}

impl TokenPattern for TokenKind {
    open spec fn kind(&self) -> TokenKindView {
        self@
    }

    fn matches(&self, kind: &TokenKind) -> (same: bool) {
        match (self, kind) {
            (TokenKind::Ident(a), TokenKind::Ident(b)) => *a == *b,
            (TokenKind::Symbol(a), TokenKind::Symbol(b)) => *a == *b,
            (TokenKind::Keyword(a), TokenKind::Keyword(b)) => *a == *b,
            (TokenKind::Integer(a), TokenKind::Integer(b)) => *a == *b,
            (
                TokenKind::Decimal { whole: a, fraction: c },
                TokenKind::Decimal { whole: b, fraction: d },
            ) => *a == *b && *c == *d,
            _ => false,
        }
    }
}

/// What a token is: its kind and the bytes it was read from.
pub ghost struct TokenView {
    pub kind: TokenKindView,
    pub span: Span,
}

#[derive(Debug, PartialEq, Eq)]
pub struct Token {
    pub kind: TokenKind,
    pub span: Span,
}

impl View for Token {
    type V = TokenView;

    open spec fn view(&self) -> TokenView {
        TokenView { kind: self.kind@, span: self.span }
    }
}

impl Token {
    pub fn new(kind: TokenKind, span: Span) -> (token: Token)
        ensures
            token.kind == kind,
            token.span == span,
    {
        Token { kind, span }
    }
}

impl Token {
    /// How the token is written in a message: as its kind is.
    pub fn to_string(&self) -> (text: String)
        ensures
            text@ == self@.kind.text(),
    {
        self.kind.to_string()
    }
}

impl Clone for Token {
    fn clone(&self) -> (copy: Token)
        ensures
            copy@ == self@,
    {
        Token { kind: self.kind.clone(), span: self.span }
    }
}

} // verus!
