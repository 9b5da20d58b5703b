use athame::block::Block;
use athame::decl::{Decl, FunctionDecl};
use athame::expr::Expr;
use athame::function::Argument;
use athame::generics::Generics;
use athame::ident::Ident;
use athame::parser::Parser;
use athame::program::Program;
use athame::sources::{Source, SourceId};
use athame::span::Span;
use athame::stmt::{ReturnStmt, Stmt, StmtKind};
use athame::ty::Type;

#[test]
fn a_generic_function_declaration_holds_its_parts() {
    let id = SourceId { uuid: 21 };
    let text = "fn identity<T>(value) -> T { return value }";
    let mut parser = Parser::new(&Source::new("decl.ath", text), id).unwrap();
    let start = parser.span();
    assert!(parser.next_is(athame::keyword::Keyword::Fn));
    let name = parser.parse::<Ident>().unwrap();
    let generics = parser.parse::<Generics>().unwrap();
    assert_eq!(name.to_string(), "identity");
    assert_eq!(generics.len(), 1);
    assert_eq!(generics.params[0].to_string(), "T");
    assert_eq!(generics.params[0].name.span(), Span::new(12, 1, id));

    let value = Parser::new(&Source::new("decl.ath", "value"), id).unwrap().parse::<Expr>().unwrap();
    let mut body = Block { stmts: vec![], span: Span::new(27, 16, id) };
    body.push(Stmt {
        kind: StmtKind::Return(ReturnStmt { expr: Some(value), span: Span::new(29, 12, id) }),
        span: Span::new(29, 12, id),
    });
    let decl = FunctionDecl {
        name,
        generics,
        arguments: vec![Argument { name: Ident::new("value", Span::new(15, 5, id)), ty: Type::Void }],
        return_type: Type::Void,
        body,
        span: start.with(Span::new(27, 16, id)),
    };
    assert_eq!(decl.generics.len(), 1);
    assert_eq!(decl.arguments.len(), 1);
    assert_eq!(decl.body.stmts.len(), 1);
    assert!(matches!(decl.body.stmts[0].kind, StmtKind::Return(_)));
    assert_eq!(decl.span, Span::new(0, 43, id));
    let program = Program { decls: vec![Decl::Function(decl.clone())] };
    assert_eq!(program.decls.len(), 1);
    assert_eq!(program.decls[0], Decl::Function(decl));
}

#[test]
fn a_block_grows_at_its_end() {
    let span = Span::new(2, 9, SourceId { uuid: 1 });
    let mut block = Block { stmts: vec![], span };
    let first = Stmt { kind: StmtKind::Return(ReturnStmt { expr: None, span: Span::null() }), span: Span::new(1, 1, SourceId::null()) };
    let second = Stmt { kind: StmtKind::Return(ReturnStmt { expr: None, span: Span::null() }), span: Span::new(2, 2, SourceId::null()) };
    block.push(first.clone());
    block.push(second.clone());
    assert_eq!(block.stmts, vec![first, second]);
    assert_eq!(block.span, span);
}
