use athame::error::Error;
use athame::keyword::Keyword;
use athame::lexer::Lexer;
use athame::sources::{Source, SourceId};
use athame::span::Span;
use athame::symbol::Symbol;
use athame::token::{Token, TokenKind};

fn id() -> SourceId {
    SourceId { uuid: 77 }
}

fn lex_all(text: &str) -> Result<Vec<Token>, Error> {
    let source = Source::new("test.ath", text);
    let mut lexer = Lexer::new(&source, id());
    let mut tokens = Vec::new();
    loop {
        lexer.take_whitespace();
        if lexer.is_empty() {
            return Ok(tokens);
        }
        tokens.push(lexer.lex()?);
    }
}

fn lex_one(text: &str) -> Result<Token, Error> {
    let source = Source::new("test.ath", text);
    let mut lexer = Lexer::new(&source, id());
    lexer.lex()
}

fn kinds(text: &str) -> Vec<TokenKind> {
    lex_all(text).unwrap().into_iter().map(|t| t.kind).collect()
}

#[test]
fn hexadecimal_literal() {
    assert_eq!(lex_one("0x1F").unwrap().kind, TokenKind::Integer(31));
}

#[test]
fn octal_literal() {
    assert_eq!(lex_one("0o17").unwrap().kind, TokenKind::Integer(15));
}

#[test]
fn binary_literal() {
    assert_eq!(lex_one("0b101").unwrap().kind, TokenKind::Integer(5));
}

#[test]
fn decimal_literal() {
    assert_eq!(lex_one("123").unwrap().kind, TokenKind::Integer(123));
}

#[test]
fn radix_marker_without_digits_fails() {
    let error = lex_one("0x").unwrap_err();
    assert_eq!(error.title(), "expected at least one digit in base 16 integer");
    assert_eq!(error.span(), Span::new(2, 0, id()));
    let error = lex_one("0o9").unwrap_err();
    assert_eq!(error.title(), "expected at least one digit in base 8 integer");
    let error = lex_one("0b2").unwrap_err();
    assert_eq!(error.title(), "expected at least one digit in base 2 integer");
    assert_eq!(error.span(), Span::new(2, 0, id()));
}

#[test]
fn digits_are_read_in_either_case() {
    assert_eq!(lex_one("0xff").unwrap().kind, TokenKind::Integer(255));
    assert_eq!(lex_one("0xFF").unwrap().kind, TokenKind::Integer(255));
    assert_eq!(lex_one("0xAbC").unwrap().kind, TokenKind::Integer(0xabc));
}

#[test]
fn digits_outside_the_radix_end_the_literal() {
    assert_eq!(
        kinds("0b102"),
        vec![TokenKind::Integer(2), TokenKind::Integer(2)]
    );
    assert_eq!(
        kinds("0o178"),
        vec![TokenKind::Integer(15), TokenKind::Integer(8)]
    );
    assert_eq!(
        kinds("12ab"),
        vec![TokenKind::Integer(12), TokenKind::Ident("ab".to_string())]
    );
}

#[test]
fn zero_alone_is_a_decimal_zero() {
    assert_eq!(lex_one("0").unwrap().kind, TokenKind::Integer(0));
    assert_eq!(kinds("0 x"), vec![TokenKind::Integer(0), TokenKind::Ident("x".to_string())]);
}

#[test]
fn integer_overflow_wraps() {
    assert_eq!(
        lex_one("18446744073709551615").unwrap().kind,
        TokenKind::Integer(u64::MAX)
    );
    assert_eq!(lex_one("18446744073709551616").unwrap().kind, TokenKind::Integer(0));
    assert_eq!(lex_one("18446744073709551621").unwrap().kind, TokenKind::Integer(5));
    assert_eq!(lex_one("0x10000000000000001").unwrap().kind, TokenKind::Integer(1));
}

#[test]
fn fractional_literal_keeps_both_runs() {
    assert_eq!(
        lex_one("3.25").unwrap().kind,
        TokenKind::Decimal { whole: 3, fraction: 25 }
    );
    assert_eq!(
        lex_one("10.05").unwrap().kind,
        TokenKind::Decimal { whole: 10, fraction: 5 }
    );
    let token = lex_one("1.5+").unwrap();
    assert_eq!(token.span, Span::new(0, 3, id()));
}

#[test]
fn fraction_needs_a_digit() {
    let error = lex_one("1.").unwrap_err();
    assert_eq!(error.title(), "expected at least one digit in base 10 integer");
    assert_eq!(error.span(), Span::new(2, 0, id()));
    let error = lex_one("1.x").unwrap_err();
    assert_eq!(error.title(), "expected at least one digit in base 10 integer");
}

#[test]
fn fraction_follows_decimal_literals_only() {
    assert_eq!(
        kinds("0x1.a"),
        vec![
            TokenKind::Integer(1),
            TokenKind::Symbol(Symbol::Dot),
            TokenKind::Ident("a".to_string())
        ]
    );
}

#[test]
fn point_before_a_digit_starts_a_number_without_whole_part() {
    let token = lex_one(".5").unwrap();
    assert_eq!(token.kind, TokenKind::Decimal { whole: 0, fraction: 5 });
    assert_eq!(token.span, Span::new(0, 2, id()));
    assert_eq!(lex_one(" .125x").unwrap().kind, TokenKind::Decimal { whole: 0, fraction: 125 });
    assert_eq!(lex_one(" .125x").unwrap().span, Span::new(1, 4, id()));
    assert_eq!(
        kinds(".5.5"),
        vec![
            TokenKind::Decimal { whole: 0, fraction: 5 },
            TokenKind::Decimal { whole: 0, fraction: 5 }
        ]
    );
    assert_eq!(
        kinds("1.5.5"),
        vec![
            TokenKind::Decimal { whole: 1, fraction: 5 },
            TokenKind::Decimal { whole: 0, fraction: 5 }
        ]
    );
    assert_eq!(lex_one(".x").unwrap().kind, TokenKind::Symbol(Symbol::Dot));
    assert_eq!(lex_one(".").unwrap().kind, TokenKind::Symbol(Symbol::Dot));
}

#[test]
fn lex_number_at_a_point_demands_a_digit() {
    let source = Source::new("test.ath", ".x");
    let mut lexer = Lexer::new(&source, id());
    let error = lexer.lex_number().unwrap_err();
    assert_eq!(error.title(), "expected at least one digit in base 10 integer");
    assert_eq!(error.span(), Span::new(1, 0, id()));
    assert_eq!(lexer.index(), 1);
}

#[test]
fn identifiers_and_keywords() {
    assert_eq!(lex_one("foo").unwrap().kind, TokenKind::Ident("foo".to_string()));
    assert_eq!(lex_one("_x1").unwrap().kind, TokenKind::Ident("_x1".to_string()));
    assert_eq!(lex_one("a_b_c9 ").unwrap().kind, TokenKind::Ident("a_b_c9".to_string()));
    assert_eq!(lex_one("let").unwrap().kind, TokenKind::Keyword(Keyword::Let));
    assert_eq!(lex_one("letter").unwrap().kind, TokenKind::Ident("letter".to_string()));
    assert_eq!(lex_one("self").unwrap().kind, TokenKind::Keyword(Keyword::Self_));
    assert_eq!(lex_one("é1").unwrap().kind, TokenKind::Ident("é1".to_string()));
}

#[test]
fn symbols_take_the_longest_match() {
    assert_eq!(
        kinds("== = => -> - >= > <= < != ! && & || |"),
        vec![
            TokenKind::Symbol(Symbol::EqEq),
            TokenKind::Symbol(Symbol::Eq),
            TokenKind::Symbol(Symbol::FatArrow),
            TokenKind::Symbol(Symbol::Arrow),
            TokenKind::Symbol(Symbol::Minus),
            TokenKind::Symbol(Symbol::GtEq),
            TokenKind::Symbol(Symbol::Gt),
            TokenKind::Symbol(Symbol::LtEq),
            TokenKind::Symbol(Symbol::Lt),
            TokenKind::Symbol(Symbol::NotEq),
            TokenKind::Symbol(Symbol::Bang),
            TokenKind::Symbol(Symbol::AndAnd),
            TokenKind::Symbol(Symbol::Amp),
            TokenKind::Symbol(Symbol::OrOr),
            TokenKind::Symbol(Symbol::Pipe),
        ]
    );
    assert_eq!(
        kinds("===>"),
        vec![TokenKind::Symbol(Symbol::EqEq), TokenKind::Symbol(Symbol::FatArrow)]
    );
    assert_eq!(
        kinds("a->b"),
        vec![
            TokenKind::Ident("a".to_string()),
            TokenKind::Symbol(Symbol::Arrow),
            TokenKind::Ident("b".to_string())
        ]
    );
}

#[test]
fn invalid_character_is_pinned_to_itself() {
    let error = lex_one("  $x").unwrap_err();
    assert_eq!(error.title(), "invalid character '$'");
    assert_eq!(error.span(), Span::new(2, 1, id()));
    let error = lex_one("a").and(lex_all("a €")).unwrap_err();
    assert_eq!(error.title(), "invalid character '€'");
    assert_eq!(error.span(), Span::new(2, 3, id()));
}

#[test]
fn spans_cover_the_bytes_of_each_token() {
    let tokens = lex_all("  foo  <=\n0x1F é").unwrap();
    let spans: Vec<(usize, usize)> = tokens.iter().map(|t| (t.span.index, t.span.length)).collect();
    assert_eq!(spans, vec![(2, 3), (7, 2), (10, 4), (15, 2)]);
    for token in &tokens {
        assert_eq!(token.span.source, id());
    }
    let text = "  foo  <=\n0x1F é";
    assert_eq!(&text[2..5], "foo");
    assert_eq!(&text[15..17], "é");
}

#[test]
fn spans_count_bytes_not_characters() {
    let tokens = lex_all("é+ü").unwrap();
    assert_eq!(tokens[0].span, Span::new(0, 2, id()));
    assert_eq!(tokens[1].span, Span::new(2, 1, id()));
    assert_eq!(tokens[2].span, Span::new(3, 2, id()));
}

#[test]
fn lexing_past_the_end_fails() {
    let error = lex_one("").unwrap_err();
    assert_eq!(error.title(), "unexpected end of file");
    assert_eq!(error.span(), Span::new(0, 0, id()));
    let error = lex_one("   \n ").unwrap_err();
    assert_eq!(error.title(), "unexpected end of file");
    assert_eq!(error.span(), Span::new(5, 0, id()));
}

#[test]
fn lexer_cursor_primitives() {
    let source = Source::new("test.ath", "aé b");
    let mut lexer = Lexer::new(&source, id());
    assert!(!lexer.is_empty());
    assert_eq!(lexer.index(), 0);
    assert_eq!(lexer.peek(), Some('a'));
    assert_eq!(lexer.peek_nth(0), Some('a'));
    assert_eq!(lexer.peek_nth(1), Some('é'));
    assert_eq!(lexer.peek_nth(3), Some('b'));
    assert_eq!(lexer.peek_nth(4), None);
    assert_eq!(lexer.remaining(), &['a', 'é', ' ', 'b'][..]);
    assert_eq!(lexer.next(), Some('a'));
    assert_eq!(lexer.index(), 1);
    assert_eq!(lexer.next(), Some('é'));
    assert_eq!(lexer.index(), 3);
    assert_eq!(lexer.span(1), Span::new(1, 2, id()));
    assert_eq!(lexer.take_whitespace(), 1);
    assert_eq!(lexer.take_whitespace(), 0);
    assert_eq!(lexer.index(), 4);
    lexer.take2();
    assert!(lexer.is_empty());
    assert_eq!(lexer.index(), 5);
    assert_eq!(lexer.next(), None);
    assert_eq!(lexer.peek(), None);
    assert_eq!(lexer.remaining().len(), 0);
}

#[test]
fn lex_integer_in_any_radix() {
    let source = Source::new("test.ath", "zz 21");
    let mut lexer = Lexer::new(&source, id());
    assert_eq!(lexer.lex_integer(36).unwrap(), 35 * 36 + 35);
    lexer.take_whitespace();
    assert_eq!(lexer.lex_integer(3).unwrap(), 7);
    let error = lexer.lex_integer(3).unwrap_err();
    assert_eq!(error.title(), "expected at least one digit in base 3 integer");
    assert_eq!(error.span(), Span::new(5, 0, id()));
}

#[test]
fn lex_ident_reads_the_longest_run() {
    let source = Source::new("test.ath", "ab_9-c");
    let mut lexer = Lexer::new(&source, id());
    assert_eq!(lexer.lex_ident().unwrap(), "ab_9");
    assert_eq!(lexer.lex_ident().unwrap(), "");
    assert_eq!(lexer.lex_symbol('-').unwrap(), Symbol::Minus);
    assert_eq!(lexer.lex_kind().unwrap(), TokenKind::Ident("c".to_string()));
    assert!(lexer.is_empty());
}
