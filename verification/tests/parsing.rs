use athame::error::Error;
use athame::expr::{BinOp, Expr, LiteralKind, ParenExpr, UnaryOp};
use athame::grammar::{arguments, assign, binary, call, field, index, paren, term, unary};
use athame::ident::Ident;
use athame::parser::Parser;
use athame::path::PathSegment;
use athame::sources::{Source, SourceId};
use athame::span::Span;
use athame::symbol::Symbol;
use athame::token::TokenKind;

fn id() -> SourceId {
    SourceId { uuid: 5 }
}

fn parser(text: &str) -> Parser {
    Parser::new(&Source::new("test.ath", text), id()).unwrap()
}

fn parse(text: &str) -> Result<Expr, Error> {
    parser(text).parse::<Expr>()
}

fn op_name(op: &BinOp) -> &'static str {
    match op {
        BinOp::Add => "Add",
        BinOp::Sub => "Sub",
        BinOp::Mul => "Mul",
        BinOp::Div => "Div",
        BinOp::Mod => "Mod",
        BinOp::Eq => "Eq",
        BinOp::Ne => "Ne",
        BinOp::Lt => "Lt",
        BinOp::Le => "Le",
        BinOp::Gt => "Gt",
        BinOp::Ge => "Ge",
        BinOp::And => "And",
        BinOp::Or => "Or",
    }
}

fn shape(expr: &Expr) -> String {
    match expr {
        Expr::Paren(e) => format!("({})", shape(&e.expr)),
        Expr::Path(path) => path.to_string(),
        Expr::Field(e) => format!("Field({}, {})", shape(&e.class), e.field.to_string()),
        Expr::Call(e) => {
            let list: Vec<String> = e.arguments.iter().map(shape).collect();
            format!("Call({}; {})", shape(&e.callee), list.join(", "))
        }
        Expr::Index(e) => format!("Index({}, {})", shape(&e.expr), shape(&e.index)),
        Expr::Unary(e) => {
            let name = match e.op {
                UnaryOp::Neg => "Neg",
                UnaryOp::Not => "Not",
                UnaryOp::Ref => "Ref",
                UnaryOp::Deref => "Deref",
            };
            format!("{}({})", name, shape(&e.expr))
        }
        Expr::Binary(e) => format!("{}({}, {})", op_name(&e.op), shape(&e.lhs), shape(&e.rhs)),
        Expr::Assign(e) => format!("Assign({}, {})", shape(&e.lhs), shape(&e.rhs)),
        Expr::Literal(e) => match e.kind {
            LiteralKind::Integer(value) => format!("{}", value),
            LiteralKind::Decimal { whole, fraction } => format!("{}.{}", whole, fraction),
        },
    }
}

fn tree(text: &str) -> String {
    shape(&parse(text).unwrap())
}

#[test]
fn list_with_immediate_terminator_is_empty() {
    let mut p = parser(")");
    let list = p.parse_list::<Ident>(&TokenKind::Symbol(Symbol::RightParen)).unwrap();
    assert!(list.is_empty());
    assert!(p.is_empty());
}

#[test]
fn list_of_two_elements() {
    let mut p = parser("a, b)");
    let list = p.parse_list::<Ident>(&TokenKind::Symbol(Symbol::RightParen)).unwrap();
    assert_eq!(list.len(), 2);
    assert_eq!(list[0].to_string(), "a");
    assert_eq!(list[1].to_string(), "b");
    assert_eq!(list[0].span(), Span::new(0, 1, id()));
    assert_eq!(list[1].span(), Span::new(3, 1, id()));
    assert!(p.is_empty());
}

#[test]
fn list_without_comma_fails() {
    let mut p = parser("a b)");
    let error = p.parse_list::<Ident>(&TokenKind::Symbol(Symbol::RightParen)).unwrap_err();
    assert_eq!(error.title(), "unexpected token");
    assert!(error.span().is_null());
}

#[test]
fn list_accepts_a_comma_before_the_terminator() {
    let mut p = parser("a, b, ) c");
    let list = p.parse_list::<Ident>(&TokenKind::Symbol(Symbol::RightParen)).unwrap();
    assert_eq!(list.len(), 2);
    assert_eq!(p.index(), 5);
}

#[test]
fn list_without_terminator_fails_at_the_end() {
    let mut p = parser("a, b");
    let error = p.parse_list::<Ident>(&TokenKind::Symbol(Symbol::RightParen)).unwrap_err();
    assert_eq!(error.title(), "unexpected end of file");
    assert_eq!(error.span(), Span::new(3, 1, id()));
    let mut p = parser("a,");
    let error = p.parse_list::<Ident>(&TokenKind::Symbol(Symbol::RightParen)).unwrap_err();
    assert_eq!(error.title(), "unexpected end of file");
}

#[test]
fn list_of_a_wrong_element_fails_as_the_element_does() {
    let mut p = parser("a, 1)");
    let error = p.parse_list::<Ident>(&TokenKind::Symbol(Symbol::RightParen)).unwrap_err();
    assert_eq!(error.title(), "expected identifier");
    assert_eq!(error.span(), Span::new(3, 1, id()));
}

#[test]
fn failed_try_parse_consumes_nothing() {
    let mut p = parser("a + (1");
    p.try_next();
    let before = p.index();
    assert!(p.try_parse::<Ident>().is_none());
    assert_eq!(p.index(), before);
    assert!(p.try_parse::<UnaryOp>().is_none());
    assert_eq!(p.index(), before);
    p.try_next();
    let before = p.index();
    assert!(p.try_parse::<Expr>().is_none());
    assert_eq!(p.index(), before);
    assert!(p.try_parse::<ParenExpr>().is_none());
    assert_eq!(p.index(), before);
    assert!(p.try_parse_spanned::<Expr>().is_none());
    assert_eq!(p.index(), before);
    assert_eq!(p.remaining().len(), 2);
}

#[test]
fn successful_try_parse_consumes_the_value() {
    let mut p = parser("a + b c");
    let expr = p.try_parse::<Expr>().unwrap();
    assert_eq!(shape(&expr), "Add(a, b)");
    assert_eq!(p.index(), 3);
    assert_eq!(p.try_parse::<Ident>().unwrap().to_string(), "c");
    assert!(p.try_parse::<Ident>().is_none());
    assert_eq!(p.index(), 4);
}

#[test]
fn multiplication_binds_tighter_than_addition() {
    assert_eq!(tree("1 + 2 * 3"), "Add(1, Mul(2, 3))");
    assert_eq!(tree("1 * 2 + 3"), "Add(Mul(1, 2), 3)");
}

#[test]
fn equal_precedence_groups_to_the_left() {
    assert_eq!(tree("1 - 2 - 3"), "Sub(Sub(1, 2), 3)");
    assert_eq!(tree("1 - 2 - 3 - 4"), "Sub(Sub(Sub(1, 2), 3), 4)");
    assert_eq!(tree("a / b * c"), "Mul(Div(a, b), c)");
    assert_eq!(tree("a - b + c - d"), "Sub(Add(Sub(a, b), c), d)");
    assert_eq!(tree("a < b <= c"), "Le(Lt(a, b), c)");
    assert_eq!(tree("a == b != c"), "Ne(Eq(a, b), c)");
}

#[test]
fn the_left_chain_consumes_every_token() {
    let mut p = parser("1 - 2 - 3");
    let expr = binary(&mut p).unwrap();
    assert_eq!(shape(&expr), "Sub(Sub(1, 2), 3)");
    assert_eq!(p.index(), 5);
    assert!(p.is_empty());
}

#[test]
fn chains_of_several_precedence_levels() {
    assert_eq!(tree("a * b + c * d"), "Add(Mul(a, b), Mul(c, d))");
    assert_eq!(tree("a * b == c + d"), "Eq(Mul(a, b), Add(c, d))");
    assert_eq!(tree("a < b & c < d"), "And(Lt(a, b), Lt(c, d))");
    assert_eq!(tree("a * b + c == d"), "Eq(Add(Mul(a, b), c), d)");
    assert_eq!(tree("a + b * c - d"), "Sub(Add(a, Mul(b, c)), d)");
    assert_eq!(tree("a == b + c * d"), "Eq(a, Add(b, Mul(c, d)))");
    assert_eq!(tree("a & b == c < d + e * f"), "And(a, Eq(b, Lt(c, Add(d, Mul(e, f)))))");
    assert_eq!(tree("a * b + c < d == e & f"), "And(Eq(Lt(Add(Mul(a, b), c), d), e), f)");
    assert_eq!(tree("a + b * c * d + e"), "Add(Add(a, Mul(Mul(b, c), d)), e)");
    assert_eq!(tree("a - (b - c) - d"), "Sub(Sub(a, (Sub(b, c))), d)");
    assert_eq!(tree("-a - -b - c"), "Sub(Sub(Neg(a), Neg(b)), c)");
}

#[test]
fn every_node_of_a_chain_spans_its_operands() {
    let expr = parse("ab - c - def").unwrap();
    let Expr::Binary(top) = &expr else { panic!("not binary") };
    assert_eq!(top.span, Span::new(0, 12, id()));
    assert_eq!(top.rhs.span(), Span::new(9, 3, id()));
    let Expr::Binary(left) = &*top.lhs else { panic!("not binary") };
    assert_eq!(left.span, Span::new(0, 6, id()));
    assert_eq!(left.lhs.span(), Span::new(0, 2, id()));
    assert_eq!(left.rhs.span(), Span::new(5, 1, id()));
}

#[test]
fn every_binary_operator() {
    assert_eq!(tree("a + b"), "Add(a, b)");
    assert_eq!(tree("a - b"), "Sub(a, b)");
    assert_eq!(tree("a * b"), "Mul(a, b)");
    assert_eq!(tree("a / b"), "Div(a, b)");
    assert_eq!(tree("a % b"), "Mod(a, b)");
    assert_eq!(tree("a & b"), "And(a, b)");
    assert_eq!(tree("a == b"), "Eq(a, b)");
    assert_eq!(tree("a != b"), "Ne(a, b)");
    assert_eq!(tree("a < b"), "Lt(a, b)");
    assert_eq!(tree("a <= b"), "Le(a, b)");
    assert_eq!(tree("a > b"), "Gt(a, b)");
    assert_eq!(tree("a >= b"), "Ge(a, b)");
}

#[test]
fn precedence_numbers() {
    assert_eq!(BinOp::Mul.precedence(), 2);
    assert_eq!(BinOp::Div.precedence(), 2);
    assert_eq!(BinOp::Mod.precedence(), 2);
    assert_eq!(BinOp::Add.precedence(), 3);
    assert_eq!(BinOp::Sub.precedence(), 3);
    assert_eq!(BinOp::Lt.precedence(), 4);
    assert_eq!(BinOp::Le.precedence(), 4);
    assert_eq!(BinOp::Gt.precedence(), 4);
    assert_eq!(BinOp::Ge.precedence(), 4);
    assert_eq!(BinOp::Eq.precedence(), 5);
    assert_eq!(BinOp::Ne.precedence(), 5);
    assert_eq!(BinOp::And.precedence(), 6);
    assert_eq!(BinOp::Or.precedence(), 7);
}

#[test]
fn joining_trees_by_precedence() {
    let one = parse("1").unwrap();
    let rest = parse("2 + 3").unwrap();
    assert_eq!(shape(&Expr::binary(one, BinOp::Mul, rest)), "Add(Mul(1, 2), 3)");
    let one = parse("1").unwrap();
    let rest = parse("2 * 3").unwrap();
    assert_eq!(shape(&Expr::binary(one, BinOp::Add, rest)), "Add(1, Mul(2, 3))");
    let one = parse("1").unwrap();
    let rest = parse("2 + 3").unwrap();
    assert_eq!(shape(&Expr::binary(one, BinOp::Add, rest)), "Add(Add(1, 2), 3)");
    let one = parse("1").unwrap();
    let rest = parse("2 - 3 == 4").unwrap();
    assert_eq!(shape(&Expr::binary(one, BinOp::Mul, rest)), "Eq(Sub(Mul(1, 2), 3), 4)");
    let one = parse("1").unwrap();
    let rest = parse("2 * 3 == 4").unwrap();
    assert_eq!(shape(&Expr::binary(one, BinOp::Add, rest)), "Eq(Add(1, Mul(2, 3)), 4)");
    let one = parse("1").unwrap();
    let rest = parse("(2 + 3)").unwrap();
    assert_eq!(shape(&Expr::binary(one, BinOp::Mul, rest)), "Mul(1, (Add(2, 3)))");
}

#[test]
fn joined_nodes_span_their_operands() {
    let expr = parse("a * b + c").unwrap();
    let Expr::Binary(top) = &expr else { panic!("not binary") };
    assert_eq!(top.op, BinOp::Add);
    assert_eq!(top.span, Span::new(0, 9, id()));
    assert_eq!(top.lhs.span(), Span::new(0, 5, id()));
    assert_eq!(top.rhs.span(), Span::new(8, 1, id()));
    assert_eq!(expr.span(), Span::new(0, 9, id()));
}

#[test]
fn prefix_operators_nest() {
    assert_eq!(tree("--x"), "Neg(Neg(x))");
    assert_eq!(tree("!&*x"), "Not(Ref(Deref(x)))");
    assert_eq!(tree("-a + b"), "Add(Neg(a), b)");
    assert_eq!(tree("a - -b"), "Sub(a, Neg(b))");
    let expr = parse(" - x").unwrap();
    assert_eq!(expr.span(), Span::new(1, 3, id()));
}

#[test]
fn assignment_groups_to_the_right() {
    assert_eq!(tree("a = b = c"), "Assign(a, Assign(b, c))");
    assert_eq!(tree("a = b + 1"), "Assign(a, Add(b, 1))");
    assert_eq!(tree("a + 1 = b"), "Assign(Add(a, 1), b)");
    assert_eq!(parse("a = b").unwrap().span(), Span::new(0, 5, id()));
}

#[test]
fn postfix_layers() {
    assert_eq!(tree("a.b"), "Field(a, b)");
    assert_eq!(tree("f()"), "Call(f; )");
    assert_eq!(tree("f(1)"), "Call(f; 1)");
    assert_eq!(tree("f(1, x + 2)"), "Call(f; 1, Add(x, 2))");
    assert_eq!(tree("f(1, 2,)"), "Call(f; 1, 2)");
    assert_eq!(tree("a[1]"), "Index(a, 1)");
    assert_eq!(tree("a.b(c)[d]"), "Index(Call(Field(a, b); c), d)");
    assert_eq!(tree("(a + b) * c"), "Mul((Add(a, b)), c)");
}

#[test]
fn field_access_reaches_one_level() {
    let mut p = parser("a.b.c");
    let expr = p.parse::<Expr>().unwrap();
    assert_eq!(shape(&expr), "Field(a, b)");
    assert_eq!(p.index(), 3);
    assert_eq!(p.remaining().len(), 2);
}

#[test]
fn postfix_spans() {
    assert_eq!(parse("ab.cd").unwrap().span(), Span::new(0, 5, id()));
    assert_eq!(parse("f()").unwrap().span(), Span::new(0, 1, id()));
    assert_eq!(parse("f(x, yz)").unwrap().span(), Span::new(0, 7, id()));
    assert_eq!(parse("a[12]").unwrap().span(), Span::new(0, 4, id()));
    assert_eq!(parse(" (a) ").unwrap().span(), Span::new(1, 3, id()));
}

#[test]
fn terms() {
    assert_eq!(tree("42"), "42");
    assert_eq!(tree("0x10"), "16");
    assert_eq!(tree("1.5"), "1.5");
    assert_eq!(tree("abc"), "abc");
    let expr = parse("abc").unwrap();
    let Expr::Path(path) = &expr else { panic!("not a path") };
    assert!(!path.is_absolute);
    assert_eq!(path.segments.len(), 1);
    assert_eq!(path.span, Span::new(0, 3, id()));
    let PathSegment::IdentSegment(segment) = &path.segments[0] else { panic!("not a name") };
    assert_eq!(segment.name.to_string(), "abc");
    assert!(segment.spec.is_empty());
}

#[test]
fn a_term_cannot_start_with_another_token() {
    let error = parse("+").unwrap_err();
    assert_eq!(error.title(), "unexpected token '+'");
    assert_eq!(error.span(), Span::new(0, 1, id()));
    assert_eq!(error.notes().len(), 1);
    assert_eq!(error.notes()[0].note(), "expected one of the following: identifier, '('");
    let error = parse("a + let").unwrap_err();
    assert_eq!(error.title(), "unexpected token 'let'");
    assert_eq!(error.span(), Span::new(4, 3, id()));
}

#[test]
fn an_expression_cannot_end_early() {
    let error = parse("").unwrap_err();
    assert_eq!(error.title(), "unexpected end of file");
    assert_eq!(error.span(), Span::new(0, 0, id()));
    let error = parse("a +").unwrap_err();
    assert_eq!(error.title(), "unexpected end of file");
    assert_eq!(error.span(), Span::new(2, 1, id()));
    let error = parse("(a").unwrap_err();
    assert_eq!(error.title(), "unexpected end of file");
    let error = parse("a.").unwrap_err();
    assert_eq!(error.title(), "unexpected end of file");
    let error = parse("f(a").unwrap_err();
    assert_eq!(error.title(), "unexpected end of file");
}

#[test]
fn closing_tokens_are_demanded() {
    let error = parse("(a b").unwrap_err();
    assert_eq!(error.title(), "unexpected token");
    let error = parse("a[1)").unwrap_err();
    assert_eq!(error.title(), "unexpected token");
    let error = parse("f(a b)").unwrap_err();
    assert_eq!(error.title(), "unexpected token");
    let error = parse("a.(").unwrap_err();
    assert_eq!(error.title(), "expected identifier");
    assert_eq!(error.span(), Span::new(2, 1, id()));
}

#[test]
fn a_point_before_a_digit_is_a_number_even_after_a_name() {
    let mut p = parser("a.1");
    assert_eq!(p.remaining().len(), 2);
    assert_eq!(shape(&p.parse::<Expr>().unwrap()), "a");
    assert_eq!(p.index(), 1);
    assert_eq!(p.next().unwrap().kind, TokenKind::Decimal { whole: 0, fraction: 1 });
    assert_eq!(tree(".5 + 1"), "Add(0.5, 1)");
}

#[test]
fn a_failed_operator_rule_takes_one_token() {
    let mut p = parser("x y");
    assert!(p.parse::<BinOp>().is_err());
    assert_eq!(p.index(), 1);
    assert!(p.parse::<UnaryOp>().is_err());
    assert_eq!(p.index(), 2);
    assert!(p.parse::<BinOp>().is_err());
    assert_eq!(p.index(), 2);
    assert!(p.parse::<UnaryOp>().is_err());
    assert_eq!(p.index(), 2);
    let mut p = parser("+ -");
    assert_eq!(p.parse::<BinOp>().unwrap(), BinOp::Add);
    assert_eq!(p.index(), 1);
    assert_eq!(p.parse::<UnaryOp>().unwrap(), UnaryOp::Neg);
    assert_eq!(p.index(), 2);
}

#[test]
fn a_failed_rule_leaves_the_cursor_after_the_token_it_refused() {
    let mut p = parser("+ a");
    assert!(p.parse::<Ident>().is_err());
    assert_eq!(p.index(), 1);
    let mut p = parser("+ a");
    assert!(term(&mut p).is_err());
    assert_eq!(p.index(), 1);
    let mut p = parser("a + )");
    assert!(p.parse::<Expr>().is_err());
    assert_eq!(p.index(), 3);
    let mut p = parser("(a b");
    assert!(paren(&mut p).is_err());
    assert_eq!(p.index(), 3);
    let mut p = parser("a b)");
    assert!(p.parse_list::<Ident>(&TokenKind::Symbol(Symbol::RightParen)).is_err());
    assert_eq!(p.index(), 2);
    let mut p = parser("f(a, +");
    assert!(p.parse::<Expr>().is_err());
    assert_eq!(p.index(), 5);
    let mut p = parser("a +");
    assert!(p.parse::<Expr>().is_err());
    assert_eq!(p.index(), 2);
    let mut p = parser("<T U>");
    assert!(p.parse::<athame::generics::Generics>().is_err());
    assert_eq!(p.index(), 3);
}

#[test]
fn operator_rules_name_their_alternatives() {
    let error = parser("x").parse::<UnaryOp>().unwrap_err();
    assert_eq!(error.title(), "unexpected token 'x'");
    assert_eq!(
        error.notes()[0].note(),
        "expected one of the following: '-', '!', '&', '*'"
    );
    let error = parser("=").parse::<BinOp>().unwrap_err();
    assert_eq!(error.title(), "unexpected token '='");
    assert_eq!(
        error.notes()[0].note(),
        "expected one of the following: '+', '-', '*', '/', '%', '&', '==', '!=', '<', '<=', '>', '>='"
    );
    assert_eq!(parser("!").parse::<UnaryOp>().unwrap(), UnaryOp::Not);
    assert_eq!(parser("%").parse::<BinOp>().unwrap(), BinOp::Mod);
    let error = parser("").parse::<BinOp>().unwrap_err();
    assert_eq!(error.title(), "unexpected end of file");
}

#[test]
fn each_layer_can_be_run_alone() {
    assert_eq!(shape(&term(&mut parser("a.b")).unwrap()), "a");
    assert_eq!(shape(&field(&mut parser("a.b(c)")).unwrap()), "Field(a, b)");
    assert_eq!(shape(&call(&mut parser("f(c)[1]")).unwrap()), "Call(f; c)");
    assert_eq!(shape(&index(&mut parser("a[1] + 2")).unwrap()), "Index(a, 1)");
    assert_eq!(shape(&unary(&mut parser("-a + 2")).unwrap()), "Neg(a)");
    assert_eq!(shape(&binary(&mut parser("a + 2 = 3")).unwrap()), "Add(a, 2)");
    assert_eq!(shape(&assign(&mut parser("a = 3 b")).unwrap()), "Assign(a, 3)");
    assert_eq!(arguments(&mut parser("a, b) c")).unwrap().len(), 2);
    let inner = paren(&mut parser("(a) b")).unwrap();
    assert_eq!(shape(&inner.expr), "a");
    assert_eq!(inner.span, Span::new(0, 3, id()));
}

#[test]
fn parser_cursor_primitives() {
    let mut p = parser("a + b");
    assert_eq!(p.index(), 0);
    assert!(!p.is_empty());
    assert_eq!(p.span(), Span::new(0, 1, id()));
    assert_eq!(p.peek().unwrap().kind, TokenKind::Ident("a".to_string()));
    assert_eq!(p.try_peek().unwrap().kind, TokenKind::Ident("a".to_string()));
    assert_eq!(p.index(), 0);
    assert!(!p.next_is(Symbol::Plus));
    assert_eq!(p.index(), 0);
    assert_eq!(p.next().unwrap().kind, TokenKind::Ident("a".to_string()));
    assert!(p.next_is(Symbol::Plus));
    assert_eq!(p.index(), 2);
    assert!(p.next_is(TokenKind::Ident("b".to_string())));
    assert!(p.is_empty());
    assert!(!p.next_is(Symbol::Plus));
    assert!(p.try_next().is_none());
    assert!(p.try_peek().is_none());
    assert_eq!(p.span(), Span::new(4, 1, id()));
    let error = p.next().unwrap_err();
    assert_eq!(error.title(), "unexpected end of file");
    assert_eq!(error.span(), Span::new(4, 1, id()));
    let error = p.peek().unwrap_err();
    assert_eq!(error.title(), "unexpected end of file");
    let error = p.expect(Symbol::Plus).unwrap_err();
    assert_eq!(error.title(), "unexpected end of file");
}

#[test]
fn expect_takes_the_token_either_way() {
    let mut p = parser("a b c");
    assert!(p.expect(TokenKind::Ident("a".to_string())).is_ok());
    assert_eq!(p.index(), 1);
    let error = p.expect(Symbol::Comma).unwrap_err();
    assert_eq!(error.title(), "unexpected token");
    assert!(error.span().is_null());
    assert_eq!(p.index(), 2);
}

#[test]
fn span_of_an_empty_buffer() {
    let p = parser("   ");
    assert!(p.is_empty());
    assert_eq!(p.span(), Span::new(0, 0, id()));
}

#[test]
fn spanned_parse() {
    let mut p = parser("ab + c d");
    let (expr, span) = p.parse_spanned::<Expr>().unwrap();
    assert_eq!(shape(&expr), "Add(ab, c)");
    assert_eq!(span, Span::new(0, 8, id()));
    let (name, span) = p.try_parse_spanned::<Ident>().unwrap();
    assert_eq!(name.to_string(), "d");
    assert_eq!(span, Span::new(7, 1, id()));
}

#[test]
fn construction_fails_where_lexing_fails() {
    let error = Parser::new(&Source::new("test.ath", "a + $"), id()).err().unwrap();
    assert_eq!(error.title(), "invalid character '$'");
    assert_eq!(error.span(), Span::new(4, 1, id()));
    let error = Parser::new(&Source::new("test.ath", "1 + 0x"), id()).err().unwrap();
    assert_eq!(error.title(), "expected at least one digit in base 16 integer");
}

#[test]
fn construction_lexes_everything() {
    let p = parser(" a+ 0x1F\n<= ");
    let kinds: Vec<TokenKind> = p.remaining().iter().map(|t| t.kind.clone()).collect();
    assert_eq!(
        kinds,
        vec![
            TokenKind::Ident("a".to_string()),
            TokenKind::Symbol(Symbol::Plus),
            TokenKind::Integer(31),
            TokenKind::Symbol(Symbol::LtEq),
        ]
    );
}

#[test]
fn copies_are_equal() {
    let expr = parse("f(a, b.c)[1] + -2 = x").unwrap();
    let copy = expr.clone();
    assert_eq!(copy, expr);
    assert_eq!(shape(&copy), shape(&expr));
}
