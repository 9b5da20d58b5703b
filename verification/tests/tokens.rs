use athame::keyword::Keyword;
use athame::symbol::Symbol;
use athame::token::{Token, TokenKind, TokenPattern};
use athame::span::Span;

fn all_symbols() -> Vec<Symbol> {
    vec![
        Symbol::Arrow,
        Symbol::FatArrow,
        Symbol::EqEq,
        Symbol::NotEq,
        Symbol::LtEq,
        Symbol::GtEq,
        Symbol::AndAnd,
        Symbol::OrOr,
        Symbol::LeftParen,
        Symbol::RightParen,
        Symbol::LeftBrace,
        Symbol::RightBrace,
        Symbol::LeftBracket,
        Symbol::RightBracket,
        Symbol::Plus,
        Symbol::Minus,
        Symbol::Star,
        Symbol::Slash,
        Symbol::Percent,
        Symbol::Caret,
        Symbol::Bang,
        Symbol::Lt,
        Symbol::Gt,
        Symbol::Eq,
        Symbol::Amp,
        Symbol::Dot,
        Symbol::Comma,
        Symbol::Pipe,
        Symbol::Tilde,
        Symbol::At,
        Symbol::Hash,
    ]
}

fn all_keywords() -> Vec<Keyword> {
    vec![
        Keyword::As,
        Keyword::Break,
        Keyword::Class,
        Keyword::Const,
        Keyword::Continue,
        Keyword::Else,
        Keyword::Enum,
        Keyword::False,
        Keyword::Fn,
        Keyword::For,
        Keyword::If,
        Keyword::In,
        Keyword::Let,
        Keyword::Loop,
        Keyword::Match,
        Keyword::Pub,
        Keyword::Return,
        Keyword::Self_,
        Keyword::Static,
        Keyword::Super,
    ]
}

#[test]
fn every_symbol_round_trips() {
    let symbols = all_symbols();
    assert_eq!(symbols.len(), 31);
    for symbol in symbols {
        let text = symbol.to_string();
        let mut chars = text.chars();
        let first = chars.next().unwrap();
        let second = chars.next();
        assert!(chars.next().is_none());
        assert_eq!(Symbol::from_parts(first, second), Some(symbol), "{}", text);
        assert_eq!(symbol.width(), text.chars().count());
    }
}

#[test]
fn every_keyword_round_trips() {
    let keywords = all_keywords();
    assert_eq!(keywords.len(), 20);
    for keyword in keywords {
        let text = keyword.to_string();
        assert_eq!(Keyword::from_str(&text), Some(keyword), "{}", text);
        assert_eq!(keyword.as_str(), text);
    }
}

#[test]
fn symbol_spellings() {
    assert_eq!(Symbol::Arrow.to_string(), "->");
    assert_eq!(Symbol::FatArrow.to_string(), "=>");
    assert_eq!(Symbol::LeftBrace.to_string(), "{");
    assert_eq!(Symbol::RightBrace.to_string(), "}");
    assert_eq!(Symbol::Hash.as_str(), "#");
}

#[test]
fn two_character_symbols_win() {
    assert_eq!(Symbol::from_parts('=', Some('=')), Some(Symbol::EqEq));
    assert_eq!(Symbol::from_parts('=', Some('>')), Some(Symbol::FatArrow));
    assert_eq!(Symbol::from_parts('=', Some('x')), Some(Symbol::Eq));
    assert_eq!(Symbol::from_parts('=', None), Some(Symbol::Eq));
    assert_eq!(Symbol::from_parts('-', Some('>')), Some(Symbol::Arrow));
    assert_eq!(Symbol::from_parts('-', Some('-')), Some(Symbol::Minus));
    assert_eq!(Symbol::from_parts('|', Some('|')), Some(Symbol::OrOr));
    assert_eq!(Symbol::from_parts('&', Some('&')), Some(Symbol::AndAnd));
    assert_eq!(Symbol::from_parts('(', Some('=')), Some(Symbol::LeftParen));
}

#[test]
fn unknown_characters_are_no_symbol() {
    assert_eq!(Symbol::from_parts('$', None), None);
    assert_eq!(Symbol::from_parts('a', Some('=')), None);
    assert_eq!(Symbol::from_parts('?', Some('?')), None);
}

#[test]
fn unknown_words_are_no_keyword() {
    assert_eq!(Keyword::from_str(""), None);
    assert_eq!(Keyword::from_str("Let"), None);
    assert_eq!(Keyword::from_str("lets"), None);
    assert_eq!(Keyword::from_str("self"), Some(Keyword::Self_));
}

#[test]
fn token_kinds_are_written_as_in_the_source() {
    assert_eq!(TokenKind::Ident("abc".to_string()).to_string(), "abc");
    assert_eq!(TokenKind::Symbol(Symbol::LtEq).to_string(), "<=");
    assert_eq!(TokenKind::Keyword(Keyword::Return).to_string(), "return");
    assert_eq!(TokenKind::Integer(0).to_string(), "0");
    assert_eq!(TokenKind::Integer(18446744073709551615).to_string(), "18446744073709551615");
    assert_eq!(TokenKind::Decimal { whole: 3, fraction: 25 }.to_string(), "3.25");
    let token = Token::new(TokenKind::Integer(42), Span::null());
    assert_eq!(token.to_string(), "42");
}

#[test]
fn patterns_match_their_own_kind_only() {
    let plus = TokenKind::Symbol(Symbol::Plus);
    assert!(Symbol::Plus.matches(&plus));
    assert!(!Symbol::Minus.matches(&plus));
    assert!(!Keyword::Fn.matches(&plus));
    assert!(Keyword::Fn.matches(&TokenKind::Keyword(Keyword::Fn)));
    assert!(plus.matches(&TokenKind::Symbol(Symbol::Plus)));
    assert!(TokenKind::Ident("a".to_string()).matches(&TokenKind::Ident("a".to_string())));
    assert!(!TokenKind::Ident("a".to_string()).matches(&TokenKind::Ident("b".to_string())));
    assert!(TokenKind::Integer(3).matches(&TokenKind::Integer(3)));
    assert!(!TokenKind::Integer(3).matches(&TokenKind::Integer(4)));
    assert!(!TokenKind::Integer(3).matches(&TokenKind::Decimal { whole: 3, fraction: 0 }));
}
