//! The expression grammar: layered rules from the tightest to the loosest,
//! and the joining of binary operators by precedence.

use vstd::prelude::*;
use crate::error::Error;
use crate::expected::{expected_any, expected_any_spec, Expected};
use crate::expr::{
    expr_view, exprs_view, lemma_binary_is_grouped, lemma_well_spanned_wf, AssignExpr, BinOp, CallExpr, Expr,
    ExprView, FieldExpr, IndexExpr, LiteralExpr, LiteralKind, ParenExpr, UnaryExpr, UnaryOp,
};
use crate::ident::{Ident, IdentView};
use crate::parser::{
    lemma_prepend_twice, list_at, prepend, unexpected_token, Input, Parse, Parsed, Parser,
};
use crate::path::{IdentSegment, IdentSegmentView, Path, PathSegment, PathSegmentView, PathView};
use crate::span::Span;
use crate::specialization::Spec;
use crate::symbol::Symbol;
use crate::token::{TokenKind, TokenKindView};
use crate::ty::{segment_view, segments_view, types_view, TypeView};

verus! {

/// The prefix operator that a token stands for, if it stands for one.
pub open spec fn unary_op_of(kind: TokenKindView) -> Option<UnaryOp> {
    match kind {
        TokenKindView::Symbol(Symbol::Minus) => Some(UnaryOp::Neg),
        TokenKindView::Symbol(Symbol::Bang) => Some(UnaryOp::Not),
        TokenKindView::Symbol(Symbol::Amp) => Some(UnaryOp::Ref),
        TokenKindView::Symbol(Symbol::Star) => Some(UnaryOp::Deref),
        _ => None,
    }
}

/// The binary operator that a token stands for, if it stands for one.
pub open spec fn bin_op_of(kind: TokenKindView) -> Option<BinOp> {
    match kind {
        TokenKindView::Symbol(Symbol::Plus) => Some(BinOp::Add),
        TokenKindView::Symbol(Symbol::Minus) => Some(BinOp::Sub),
        TokenKindView::Symbol(Symbol::Star) => Some(BinOp::Mul),
        TokenKindView::Symbol(Symbol::Slash) => Some(BinOp::Div),
        TokenKindView::Symbol(Symbol::Percent) => Some(BinOp::Mod),
        TokenKindView::Symbol(Symbol::Amp) => Some(BinOp::And),
        TokenKindView::Symbol(Symbol::EqEq) => Some(BinOp::Eq),
        TokenKindView::Symbol(Symbol::NotEq) => Some(BinOp::Ne),
        TokenKindView::Symbol(Symbol::Lt) => Some(BinOp::Lt),
        TokenKindView::Symbol(Symbol::LtEq) => Some(BinOp::Le),
        TokenKindView::Symbol(Symbol::Gt) => Some(BinOp::Gt),
        TokenKindView::Symbol(Symbol::GtEq) => Some(BinOp::Ge),
        _ => None,
    }
}

/// The tokens that start a prefix operator.
pub open spec fn unary_alternatives() -> Seq<Expected> {
    seq![
        Expected::Symbol(Symbol::Minus),
        Expected::Symbol(Symbol::Bang),
        Expected::Symbol(Symbol::Amp),
        Expected::Symbol(Symbol::Star),
    ]
}

/// The tokens that stand for a binary operator.
pub open spec fn binary_alternatives() -> Seq<Expected> {
    seq![
        Expected::Symbol(Symbol::Plus),
        Expected::Symbol(Symbol::Minus),
        Expected::Symbol(Symbol::Star),
        Expected::Symbol(Symbol::Slash),
        Expected::Symbol(Symbol::Percent),
        Expected::Symbol(Symbol::Amp),
        Expected::Symbol(Symbol::EqEq),
        Expected::Symbol(Symbol::NotEq),
        Expected::Symbol(Symbol::Lt),
        Expected::Symbol(Symbol::LtEq),
        Expected::Symbol(Symbol::Gt),
        Expected::Symbol(Symbol::GtEq),
    ]
}

/// The tokens that start a term, as a finding lists them.
pub open spec fn term_alternatives() -> Seq<Expected> {
    seq![Expected::Ident, Expected::Symbol(Symbol::LeftParen)]
}

/// The prefix operator at `pos`. A token that stands at `pos` is taken
/// whether it is such an operator or not; at the end of the buffer the
/// cursor stays.
pub open spec fn unary_op_at(input: Input, pos: int) -> Parsed<UnaryOp> {
    if !(0 <= pos < input.tokens.len()) {
        Parsed::Failed { error: input.end_of_file(pos), next: pos }
    } else {
        match unary_op_of(input.tokens[pos].kind) {
            Some(op) => Parsed::Done { value: op, next: pos + 1 },
            None => Parsed::Failed {
                error: expected_any_spec(input.tokens[pos], unary_alternatives()),
                next: pos + 1,
            },
        }
    }
}

/// The binary operator at `pos`. A token that stands at `pos` is taken
/// whether it is such an operator or not; at the end of the buffer the
/// cursor stays.
pub open spec fn bin_op_at(input: Input, pos: int) -> Parsed<BinOp> {
    if !(0 <= pos < input.tokens.len()) {
        Parsed::Failed { error: input.end_of_file(pos), next: pos }
    } else {
        match bin_op_of(input.tokens[pos].kind) {
            Some(op) => Parsed::Done { value: op, next: pos + 1 },
            None => Parsed::Failed {
                error: expected_any_spec(input.tokens[pos], binary_alternatives()),
                next: pos + 1,
            },
        }
    }
}

/// The expression that an identifier alone stands for: a relative path of
/// one segment without type arguments.
pub open spec fn name_view(name: Seq<char>, span: Span) -> ExprView {
    ExprView::Path(
        PathView {
            is_absolute: false,
            segments: seq![
                PathSegmentView::IdentSegment(
                    IdentSegmentView {
                        name: IdentView { name, span },
                        spec: Seq::empty(),
                        span,
                    },
                ),
            ],
            span,
        },
    )
}

/// A parenthesized expression at `pos`. Its span runs from the opening to
/// the closing parenthesis.
pub open spec fn paren_at(input: Input, pos: int) -> Parsed<ExprView>
    decreases input.tokens.len() - pos, 0nat,
{
    if !input.is_at(pos, TokenKindView::Symbol(Symbol::LeftParen)) {
        match input.expect_at(pos, TokenKindView::Symbol(Symbol::LeftParen)) {
            Parsed::Failed { error, next } => Parsed::Failed { error, next },
            Parsed::Done { value, next } => Parsed::Failed { error: unexpected_token(), next },
        }
    } else {
        match assign_at(input, pos + 1) {
            Parsed::Failed { error, next } => Parsed::Failed { error, next },
            Parsed::Done { value, next } => {
                match input.expect_at(next, TokenKindView::Symbol(Symbol::RightParen)) {
                    Parsed::Failed { error, next } => Parsed::Failed { error, next },
                    Parsed::Done { value: unit, next: after } => Parsed::Done {
                        value: ExprView::Paren {
                            expr: Box::new(value),
                            span: input.tokens[pos].span.with_spec(input.span_at(next)),
                        },
                        next: after,
                    },
                }
            },
        }
    }
}

/// A term at `pos`: a parenthesized expression, a name, or a number. A
/// token that starts none of these is taken all the same.
pub open spec fn term_at(input: Input, pos: int) -> Parsed<ExprView>
    decreases input.tokens.len() - pos, 1nat,
{
    if !(0 <= pos < input.tokens.len()) {
        Parsed::Failed { error: input.end_of_file(pos), next: pos }
    } else {
        let token = input.tokens[pos];
        match token.kind {
            TokenKindView::Symbol(Symbol::LeftParen) => paren_at(input, pos),
            TokenKindView::Ident(name) => Parsed::Done {
                value: name_view(name, token.span),
                next: pos + 1,
            },
            TokenKindView::Integer(value) => Parsed::Done {
                value: ExprView::Literal { kind: LiteralKind::Integer(value), span: token.span },
                next: pos + 1,
            },
            TokenKindView::Decimal { whole, fraction } => Parsed::Done {
                value: ExprView::Literal {
                    kind: LiteralKind::Decimal { whole, fraction },
                    span: token.span,
                },
                next: pos + 1,
            },
            _ => Parsed::Failed {
                error: expected_any_spec(token, term_alternatives()),
                next: pos + 1,
            },
        }
    }
}

/// A term, and a field taken from it where a point follows. One field at most.
pub open spec fn field_at(input: Input, pos: int) -> Parsed<ExprView>
    decreases input.tokens.len() - pos, 2nat,
{
    match term_at(input, pos) {
        Parsed::Failed { error, next } => Parsed::Failed { error, next },
        Parsed::Done { value, next } => {
            if input.is_at(next, TokenKindView::Symbol(Symbol::Dot)) {
                match input.ident_at(next + 1) {
                    Parsed::Failed { error, next } => Parsed::Failed { error, next },
                    Parsed::Done { value: field, next: after } => Parsed::Done {
                        value: ExprView::Field {
                            class: Box::new(value),
                            field,
                            span: value.span().with_spec(field.span),
                        },
                        next: after,
                    },
                }
            } else {
                Parsed::Done { value, next }
            }
        },
    }
}

/// The arguments of a call at `pos`, after the opening parenthesis and up
/// to and including the closing one; a comma stands between neighbours
/// and may stand before the closing parenthesis.
pub open spec fn arguments_at(input: Input, pos: int) -> Parsed<Seq<ExprView>>
    decreases input.tokens.len() - pos, 8nat,
{
    if input.is_at(pos, TokenKindView::Symbol(Symbol::RightParen)) {
        Parsed::Done { value: Seq::empty(), next: pos + 1 }
    } else {
        match assign_at(input, pos) {
            Parsed::Failed { error, next } => Parsed::Failed { error, next },
            Parsed::Done { value, next } => {
                if input.is_at(next, TokenKindView::Symbol(Symbol::RightParen)) {
                    Parsed::Done { value: seq![value], next: next + 1 }
                } else {
                    match input.expect_at(next, TokenKindView::Symbol(Symbol::Comma)) {
                        Parsed::Failed { error, next } => Parsed::Failed { error, next },
                        Parsed::Done { value: unit, next: after } => {
                            if next < pos {
                                // Never taken: a rule does not move the cursor backwards.
                                Parsed::Failed { error: unexpected_token(), next: after }
                            } else {
                                prepend(seq![value], arguments_at(input, next + 1))
                            }
                        },
                    }
                }
            },
        }
    }
}

/// A field expression, and a call of it where an opening parenthesis follows.
pub open spec fn call_at(input: Input, pos: int) -> Parsed<ExprView>
    decreases input.tokens.len() - pos, 3nat,
{
    match field_at(input, pos) {
        Parsed::Failed { error, next } => Parsed::Failed { error, next },
        Parsed::Done { value, next } => {
            if input.is_at(next, TokenKindView::Symbol(Symbol::LeftParen)) {
                if next < pos {
                    // Never taken: a rule does not move the cursor backwards.
                    Parsed::Failed { error: unexpected_token(), next }
                } else {
                    match arguments_at(input, next + 1) {
                        Parsed::Failed { error, next } => Parsed::Failed { error, next },
                        Parsed::Done { value: arguments, next: after } => Parsed::Done {
                            value: ExprView::Call {
                                callee: Box::new(value),
                                arguments,
                                span: ExprView::call_span(value, arguments),
                            },
                            next: after,
                        },
                    }
                }
            } else {
                Parsed::Done { value, next }
            }
        },
    }
}

/// A call expression, and an element taken from it where an opening
/// bracket follows.
pub open spec fn index_at(input: Input, pos: int) -> Parsed<ExprView>
    decreases input.tokens.len() - pos, 4nat,
{
    match call_at(input, pos) {
        Parsed::Failed { error, next } => Parsed::Failed { error, next },
        Parsed::Done { value, next } => {
            if input.is_at(next, TokenKindView::Symbol(Symbol::LeftBracket)) {
                if next < pos {
                    // Never taken: a rule does not move the cursor backwards.
                    Parsed::Failed { error: unexpected_token(), next }
                } else {
                    match assign_at(input, next + 1) {
                        Parsed::Failed { error, next } => Parsed::Failed { error, next },
                        Parsed::Done { value: index, next: after } => {
                            match input.expect_at(
                                after,
                                TokenKindView::Symbol(Symbol::RightBracket),
                            ) {
                                Parsed::Failed { error, next } => Parsed::Failed { error, next },
                                Parsed::Done { value: unit, next: end } => Parsed::Done {
                                    value: ExprView::Index {
                                        expr: Box::new(value),
                                        index: Box::new(index),
                                        span: value.span().with_spec(index.span()),
                                    },
                                    next: end,
                                },
                            }
                        },
                    }
                }
            } else {
                Parsed::Done { value, next }
            }
        },
    }
}

/// Prefix operators, each applied to what follows it, around an index expression.
pub open spec fn unary_at(input: Input, pos: int) -> Parsed<ExprView>
    decreases input.tokens.len() - pos, 5nat,
{
    if 0 <= pos < input.tokens.len() && unary_op_of(input.tokens[pos].kind) is Some {
        match unary_at(input, pos + 1) {
            Parsed::Failed { error, next } => Parsed::Failed { error, next },
            Parsed::Done { value, next } => Parsed::Done {
                value: ExprView::Unary {
                    op: unary_op_of(input.tokens[pos].kind).unwrap(),
                    expr: Box::new(value),
                    span: input.tokens[pos].span.with_spec(value.span()),
                },
                next,
            },
        }
    } else {
        index_at(input, pos)
    }
}

/// An operand and, where a binary operator follows, the whole rest as the
/// tree to its right, joined by precedence: an operator takes as its right
/// operand what binds tighter than itself, so operators that bind equally
/// group to the left.
pub open spec fn binary_at(input: Input, pos: int) -> Parsed<ExprView>
    decreases input.tokens.len() - pos, 6nat,
{
    match unary_at(input, pos) {
        Parsed::Failed { error, next } => Parsed::Failed { error, next },
        Parsed::Done { value, next } => {
            if 0 <= next < input.tokens.len() && bin_op_of(input.tokens[next].kind) is Some {
                if next < pos {
                    // Never taken: a rule does not move the cursor backwards.
                    Parsed::Failed { error: unexpected_token(), next }
                } else {
                    match binary_at(input, next + 1) {
                        Parsed::Failed { error, next } => Parsed::Failed { error, next },
                        Parsed::Done { value: rhs, next: after } => Parsed::Done {
                            value: ExprView::binary(
                                value,
                                bin_op_of(input.tokens[next].kind).unwrap(),
                                rhs,
                            ),
                            next: after,
                        },
                    }
                }
            } else {
                Parsed::Done { value, next }
            }
        },
    }
}

/// A binary expression and, where `=` follows, the assignment of the whole
/// rest to it. Assignments group to the right.
pub open spec fn assign_at(input: Input, pos: int) -> Parsed<ExprView>
    decreases input.tokens.len() - pos, 7nat,
{
    match binary_at(input, pos) {
        Parsed::Failed { error, next } => Parsed::Failed { error, next },
        Parsed::Done { value, next } => {
            if input.is_at(next, TokenKindView::Symbol(Symbol::Eq)) {
                if next < pos {
                    // Never taken: a rule does not move the cursor backwards.
                    Parsed::Failed { error: unexpected_token(), next }
                } else {
                    match assign_at(input, next + 1) {
                        Parsed::Failed { error, next } => Parsed::Failed { error, next },
                        Parsed::Done { value: rhs, next: after } => Parsed::Done {
                            value: ExprView::Assign {
                                lhs: Box::new(value),
                                rhs: Box::new(rhs),
                                span: value.span().with_spec(rhs.span()),
                            },
                            next: after,
                        },
                    }
                }
            } else {
                Parsed::Done { value, next }
            }
        },
    }
}

/// A successful outcome ends after the cursor it started at and inside the buffer.
pub open spec fn advances<T>(outcome: Parsed<T>, input: Input, pos: int) -> bool {
    match outcome {
        Parsed::Done { value, next } => pos < next <= input.tokens.len(),
        Parsed::Failed { error, next } => true,
    }
}

/// A parenthesized expression that is read takes at least one token and
/// ends inside the buffer. The lemmas that follow say the same of every
/// rule, so no rule ever moves the cursor backwards.
pub proof fn lemma_paren_advances(input: Input, pos: int)
    requires
        0 <= pos,
    ensures
        advances(paren_at(input, pos), input, pos),
    decreases input.tokens.len() - pos, 0nat,
{
    if input.is_at(pos, TokenKindView::Symbol(Symbol::LeftParen)) {
        lemma_assign_advances(input, pos + 1);
    }
}

/// A term that is read takes at least one token, ends inside the buffer,
/// and is no binary node.
pub proof fn lemma_term_advances(input: Input, pos: int)
    requires
        0 <= pos,
    ensures
        advances(term_at(input, pos), input, pos),
        term_at(input, pos) is Done ==> !(term_at(input, pos)->Done_value is Binary),
    decreases input.tokens.len() - pos, 1nat,
{
    if pos < input.tokens.len() {
        lemma_paren_advances(input, pos);
    }
}

/// The same of a term with a field taken from it.
pub proof fn lemma_field_advances(input: Input, pos: int)
    requires
        0 <= pos,
    ensures
        advances(field_at(input, pos), input, pos),
        field_at(input, pos) is Done ==> !(field_at(input, pos)->Done_value is Binary),
    decreases input.tokens.len() - pos, 2nat,
{
    lemma_term_advances(input, pos);
}

/// The arguments of a call that are read take at least the closing
/// parenthesis and end inside the buffer.
pub proof fn lemma_arguments_advance(input: Input, pos: int)
    requires
        0 <= pos,
    ensures
        advances(arguments_at(input, pos), input, pos),
    decreases input.tokens.len() - pos, 8nat,
{
    if !input.is_at(pos, TokenKindView::Symbol(Symbol::RightParen)) {
        lemma_assign_advances(input, pos);
        match assign_at(input, pos) {
            Parsed::Done { value, next } => {
                if !input.is_at(next, TokenKindView::Symbol(Symbol::RightParen)) && input.is_at(
                    next,
                    TokenKindView::Symbol(Symbol::Comma),
                ) {
                    lemma_arguments_advance(input, next + 1);
                }
            },
            Parsed::Failed { error, next } => {},
        }
    }
}

/// The same of a call.
pub proof fn lemma_call_advances(input: Input, pos: int)
    requires
        0 <= pos,
    ensures
        advances(call_at(input, pos), input, pos),
        call_at(input, pos) is Done ==> !(call_at(input, pos)->Done_value is Binary),
    decreases input.tokens.len() - pos, 3nat,
{
    lemma_field_advances(input, pos);
    match field_at(input, pos) {
        Parsed::Done { value, next } => {
            if input.is_at(next, TokenKindView::Symbol(Symbol::LeftParen)) {
                lemma_arguments_advance(input, next + 1);
            }
        },
        Parsed::Failed { error, next } => {},
    }
}

/// The same of an element taken by index.
pub proof fn lemma_index_advances(input: Input, pos: int)
    requires
        0 <= pos,
    ensures
        advances(index_at(input, pos), input, pos),
        index_at(input, pos) is Done ==> !(index_at(input, pos)->Done_value is Binary),
    decreases input.tokens.len() - pos, 4nat,
{
    lemma_call_advances(input, pos);
    match call_at(input, pos) {
        Parsed::Done { value, next } => {
            if input.is_at(next, TokenKindView::Symbol(Symbol::LeftBracket)) {
                lemma_assign_advances(input, next + 1);
            }
        },
        Parsed::Failed { error, next } => {},
    }
}

/// What the rule for prefix operators reads is never a binary node: it is
/// one operand of the chain of binary operators around it.
pub proof fn lemma_unary_advances(input: Input, pos: int)
    requires
        0 <= pos,
    ensures
        advances(unary_at(input, pos), input, pos),
        unary_at(input, pos) is Done ==> !(unary_at(input, pos)->Done_value is Binary),
    decreases input.tokens.len() - pos, 5nat,
{
    if pos < input.tokens.len() && unary_op_of(input.tokens[pos].kind) is Some {
        lemma_unary_advances(input, pos + 1);
    } else {
        lemma_index_advances(input, pos);
    }
}

/// A chain of binary operators that is read is grouped by precedence, and
/// to the left among operators that bind equally.
pub proof fn lemma_binary_advances(input: Input, pos: int)
    requires
        0 <= pos,
    ensures
        advances(binary_at(input, pos), input, pos),
        binary_at(input, pos) is Done ==> binary_at(input, pos)->Done_value.grouped(),
    decreases input.tokens.len() - pos, 6nat,
{
    lemma_unary_advances(input, pos);
    match unary_at(input, pos) {
        Parsed::Done { value, next } => {
            assert(value.grouped());
            if next < input.tokens.len() && bin_op_of(input.tokens[next].kind) is Some {
                lemma_binary_advances(input, next + 1);
                match binary_at(input, next + 1) {
                    Parsed::Done { value: rhs, next: after } => {
                        lemma_binary_is_grouped(
                            value,
                            bin_op_of(input.tokens[next].kind).unwrap(),
                            rhs,
                        );
                    },
                    Parsed::Failed { error, next: after } => {},
                }
            }
        },
        Parsed::Failed { error, next } => {},
    }
}

/// An assignment that is read takes at least one token and ends inside
/// the buffer.
pub proof fn lemma_assign_advances(input: Input, pos: int)
    requires
        0 <= pos,
    ensures
        advances(assign_at(input, pos), input, pos),
    decreases input.tokens.len() - pos, 7nat,
{
    lemma_binary_advances(input, pos);
    match binary_at(input, pos) {
        Parsed::Done { value, next } => {
            if input.is_at(next, TokenKindView::Symbol(Symbol::Eq)) {
                lemma_assign_advances(input, next + 1);
            }
        },
        Parsed::Failed { error, next } => {},
    }
}

/// What a rule has done: the tokens are as before, the cursor has not
/// moved backwards and stands where `expected` says, and the result is as
/// `expected` says. A tree that was built is well spanned.
pub open spec fn ruled(
    before: &Parser,
    after: &Parser,
    value: Result<Expr, Error>,
    expected: Parsed<ExprView>,
) -> bool {
    &&& after.wf()
    &&& after.input() == before.input()
    &&& before.cursor() <= after.cursor()
    &&& match expected {
        Parsed::Done { value: tree, next } => {
            &&& value is Ok
            &&& value->Ok_0@ == tree
            &&& after.cursor() == next
            &&& tree.well_spanned()
        },
        Parsed::Failed { error, next } => {
            &&& value is Err
            &&& value->Err_0@ == error
            &&& after.cursor() == next
        },
    }
}

impl Parse for UnaryOp {
    type Model = UnaryOp;

    open spec fn model(&self) -> UnaryOp {
        *self
    }

    open spec fn at(input: Input, pos: int) -> Parsed<UnaryOp> {
        unary_op_at(input, pos)
    }

    fn parse(parser: &mut Parser) -> (value: Result<UnaryOp, Error>) {
        let token = match parser.next() {
            Ok(token) => token,
            Err(error) => {
                return Err(error);
            },
        };
        match token.kind {
            TokenKind::Symbol(Symbol::Minus) => Ok(UnaryOp::Neg),
            TokenKind::Symbol(Symbol::Bang) => Ok(UnaryOp::Not),
            TokenKind::Symbol(Symbol::Amp) => Ok(UnaryOp::Ref),
            TokenKind::Symbol(Symbol::Star) => Ok(UnaryOp::Deref),
            _ => {
                let alternatives = [
                    Expected::Symbol(Symbol::Minus),
                    Expected::Symbol(Symbol::Bang),
                    Expected::Symbol(Symbol::Amp),
                    Expected::Symbol(Symbol::Star),
                ];
                proof {
                    assert(alternatives@ =~= unary_alternatives());
                }
                Err(expected_any(token, alternatives.as_slice()))
            },
        }
    }
}

impl Parse for BinOp {
    type Model = BinOp;

    open spec fn model(&self) -> BinOp {
        *self
    }

    open spec fn at(input: Input, pos: int) -> Parsed<BinOp> {
        bin_op_at(input, pos)
    }

    fn parse(parser: &mut Parser) -> (value: Result<BinOp, Error>) {
        let token = match parser.next() {
            Ok(token) => token,
            Err(error) => {
                return Err(error);
            },
        };
        match token.kind {
            TokenKind::Symbol(Symbol::Plus) => Ok(BinOp::Add),
            TokenKind::Symbol(Symbol::Minus) => Ok(BinOp::Sub),
            TokenKind::Symbol(Symbol::Star) => Ok(BinOp::Mul),
            TokenKind::Symbol(Symbol::Slash) => Ok(BinOp::Div),
            TokenKind::Symbol(Symbol::Percent) => Ok(BinOp::Mod),
            TokenKind::Symbol(Symbol::Amp) => Ok(BinOp::And),
            TokenKind::Symbol(Symbol::EqEq) => Ok(BinOp::Eq),
            TokenKind::Symbol(Symbol::NotEq) => Ok(BinOp::Ne),
            TokenKind::Symbol(Symbol::Lt) => Ok(BinOp::Lt),
            TokenKind::Symbol(Symbol::LtEq) => Ok(BinOp::Le),
            TokenKind::Symbol(Symbol::Gt) => Ok(BinOp::Gt),
            TokenKind::Symbol(Symbol::GtEq) => Ok(BinOp::Ge),
            _ => {
                let alternatives = [
                    Expected::Symbol(Symbol::Plus),
                    Expected::Symbol(Symbol::Minus),
                    Expected::Symbol(Symbol::Star),
                    Expected::Symbol(Symbol::Slash),
                    Expected::Symbol(Symbol::Percent),
                    Expected::Symbol(Symbol::Amp),
                    Expected::Symbol(Symbol::EqEq),
                    Expected::Symbol(Symbol::NotEq),
                    Expected::Symbol(Symbol::Lt),
                    Expected::Symbol(Symbol::LtEq),
                    Expected::Symbol(Symbol::Gt),
                    Expected::Symbol(Symbol::GtEq),
                ];
                proof {
                    assert(alternatives@ =~= binary_alternatives());
                }
                Err(expected_any(token, alternatives.as_slice()))
            },
        }
    }
}

/// Builds the expression that an identifier alone stands for.
pub fn name_expr(name: &str, span: Span) -> (expr: Expr)
    requires
        span.wf(),
    ensures
        expr@ == name_view(name@, span),
        expr@.well_spanned(),
{
    let mut segments: Vec<PathSegment> = Vec::new();
    let generics: Vec<crate::ty::Type> = Vec::new();
    let segment = PathSegment::IdentSegment(
        IdentSegment { name: Ident::new(name, span), spec: Spec { generics }, span },
    );
    proof {
        assert(types_view(generics@) =~= Seq::<TypeView>::empty());
    }
    segments.push(segment);
    let path = Path { is_absolute: false, segments, span };
    proof {
        assert(segments_view(path.segments@) =~= seq![segment_view(segment)]);
    }
    Expr::Path(path)
}

/// Reads a parenthesized expression.
pub fn paren(parser: &mut Parser) -> (value: Result<ParenExpr, Error>)
    requires
        old(parser).wf(),
    ensures
        final(parser).wf(),
        final(parser).input() == old(parser).input(),
        old(parser).cursor() <= final(parser).cursor(),
        match paren_at(old(parser).input(), old(parser).cursor()) {
            Parsed::Done { value: tree, next } => {
                &&& value is Ok
                &&& expr_view(Expr::Paren(value->Ok_0)) == tree
                &&& final(parser).cursor() == next
                &&& tree.well_spanned()
            },
            Parsed::Failed { error, next } => {
                &&& value is Err
                &&& value->Err_0@ == error
                &&& final(parser).cursor() == next
            },
        },
    decreases old(parser).tokens().len() - old(parser).cursor(), 0nat,
{
    proof {
        parser.lemma_wf();
    }
    let start = parser.span();
    match parser.expect(Symbol::LeftParen) {
        Ok(_) => {},
        Err(error) => {
            return Err(error);
        },
    }
    let expr = match assign(parser) {
        Ok(expr) => expr,
        Err(error) => {
            return Err(error);
        },
    };
    proof {
        parser.lemma_wf();
    }
    let end = parser.span();
    match parser.expect(Symbol::RightParen) {
        Ok(_) => {},
        Err(error) => {
            return Err(error);
        },
    }
    Ok(ParenExpr { expr: Box::new(expr), span: start.with(end) })
}

/// Reads a term: a parenthesized expression, a name, or a number.
pub fn term(parser: &mut Parser) -> (value: Result<Expr, Error>)
    requires
        old(parser).wf(),
    ensures
        ruled(
            old(parser),
            final(parser),
            value,
            term_at(old(parser).input(), old(parser).cursor()),
        ),
    decreases old(parser).tokens().len() - old(parser).cursor(), 1nat,
{
    proof {
        parser.lemma_wf();
    }
    let token = match parser.peek() {
        Ok(token) => token,
        Err(error) => {
            return Err(error);
        },
    };
    let span = token.span;
    match &token.kind {
        TokenKind::Symbol(Symbol::LeftParen) => {
            match paren(parser) {
                Ok(inner) => Ok(Expr::Paren(inner)),
                Err(error) => Err(error),
            }
        },
        TokenKind::Ident(name) => {
            let expr = name_expr(name.as_str(), span);
            parser.try_next();
            Ok(expr)
        },
        TokenKind::Integer(value) => {
            let expr = Expr::Literal(LiteralExpr { kind: LiteralKind::Integer(*value), span });
            parser.try_next();
            Ok(expr)
        },
        TokenKind::Decimal { whole, fraction } => {
            let expr = Expr::Literal(
                LiteralExpr {
                    kind: LiteralKind::Decimal { whole: *whole, fraction: *fraction },
                    span,
                },
            );
            parser.try_next();
            Ok(expr)
        },
        _ => {
            let alternatives = [Expected::Ident, Expected::Symbol(Symbol::LeftParen)];
            proof {
                assert(alternatives@ =~= term_alternatives());
            }
            let error = expected_any(token, alternatives.as_slice());
            parser.try_next();
            Err(error)
        },
    }
}

/// Reads a term and, where a point follows, the field taken from it.
pub fn field(parser: &mut Parser) -> (value: Result<Expr, Error>)
    requires
        old(parser).wf(),
    ensures
        ruled(
            old(parser),
            final(parser),
            value,
            field_at(old(parser).input(), old(parser).cursor()),
        ),
    decreases old(parser).tokens().len() - old(parser).cursor(), 2nat,
{
    let expr = match term(parser) {
        Ok(expr) => expr,
        Err(error) => {
            return Err(error);
        },
    };
    if parser.next_is(Symbol::Dot) {
        let field = match parser.parse::<Ident>() {
            Ok(field) => field,
            Err(error) => {
                return Err(error);
            },
        };
        proof {
            parser.lemma_wf();
            lemma_well_spanned_wf(expr@);
        }
        let span = expr.span().with(field.span());
        Ok(Expr::Field(FieldExpr { class: Box::new(expr), field, span }))
    } else {
        Ok(expr)
    }
}

/// Reads the arguments of a call, after the opening parenthesis and up to
/// and including the closing one.
pub fn arguments(parser: &mut Parser) -> (list: Result<Vec<Expr>, Error>)
    requires
        old(parser).wf(),
    ensures
        final(parser).wf(),
        final(parser).input() == old(parser).input(),
        old(parser).cursor() <= final(parser).cursor(),
        match arguments_at(old(parser).input(), old(parser).cursor()) {
            Parsed::Done { value: trees, next } => {
                &&& list is Ok
                &&& exprs_view(list->Ok_0@) == trees
                &&& final(parser).cursor() == next
                &&& forall|i: int| 0 <= i < trees.len() ==> (#[trigger] trees[i]).well_spanned()
            },
            Parsed::Failed { error, next } => {
                &&& list is Err
                &&& list->Err_0@ == error
                &&& final(parser).cursor() == next
            },
        },
    decreases old(parser).tokens().len() - old(parser).cursor(), 8nat,
{
    let mut list: Vec<Expr> = Vec::new();
    let ghost input = parser.input();
    let ghost start = parser.cursor();
    proof {
        assert(exprs_view(list@) =~= Seq::<ExprView>::empty());
        lemma_prepend_twice(exprs_view(list@), exprs_view(list@), arguments_at(input, start));
    }
    loop
        invariant_except_break
            arguments_at(input, start) == prepend(
                exprs_view(list@),
                arguments_at(input, parser.cursor()),
            ),
        invariant
            parser.wf(),
            parser.input() == input,
            input == old(parser).input(),
            start == old(parser).cursor(),
            start <= parser.cursor(),
            forall|i: int|
                0 <= i < list@.len() ==> (#[trigger] exprs_view(list@)[i]).well_spanned(),
        ensures
            arguments_at(input, start) == (Parsed::Done {
                value: exprs_view(list@),
                next: parser.cursor(),
            }),
        decreases input.tokens.len() - parser.cursor(),
    {
        proof {
            parser.lemma_wf();
        }
        let ghost before = exprs_view(list@);
        if parser.next_is(Symbol::RightParen) {
            proof {
                assert(before + Seq::<ExprView>::empty() =~= before);
            }
            break ;
        }
        let item = match assign(parser) {
            Ok(item) => item,
            Err(error) => {
                return Err(error);
            },
        };
        let ghost after = parser.cursor();
        list.push(item);
        proof {
            assert(exprs_view(list@) =~= before + seq![item@]);
            parser.lemma_wf();
        }
        if parser.next_is(Symbol::RightParen) {
            break ;
        }
        match parser.expect(Symbol::Comma) {
            Ok(_) => {},
            Err(error) => {
                return Err(error);
            },
        }
        proof {
            lemma_prepend_twice(before, seq![item@], arguments_at(input, after + 1));
        }
    }
    Ok(list)
}

/// Reads a field expression and, where an opening parenthesis follows, the
/// call of it.
pub fn call(parser: &mut Parser) -> (value: Result<Expr, Error>)
    requires
        old(parser).wf(),
    ensures
        ruled(
            old(parser),
            final(parser),
            value,
            call_at(old(parser).input(), old(parser).cursor()),
        ),
    decreases old(parser).tokens().len() - old(parser).cursor(), 3nat,
{
    let expr = match field(parser) {
        Ok(expr) => expr,
        Err(error) => {
            return Err(error);
        },
    };
    proof {
        parser.lemma_wf();
    }
    if parser.next_is(Symbol::LeftParen) {
        let arguments = match arguments(parser) {
            Ok(arguments) => arguments,
            Err(error) => {
                return Err(error);
            },
        };
        proof {
            lemma_well_spanned_wf(expr@);
            if arguments@.len() > 0 {
                lemma_well_spanned_wf(exprs_view(arguments@).last());
            }
        }
        let span = if arguments.len() == 0 {
            expr.span()
        } else {
            expr.span().with(arguments[arguments.len() - 1].span())
        };
        Ok(Expr::Call(CallExpr { callee: Box::new(expr), arguments, span }))
    } else {
        Ok(expr)
    }
}

/// Reads a call expression and, where an opening bracket follows, the
/// element taken from it.
pub fn index(parser: &mut Parser) -> (value: Result<Expr, Error>)
    requires
        old(parser).wf(),
    ensures
        ruled(
            old(parser),
            final(parser),
            value,
            index_at(old(parser).input(), old(parser).cursor()),
        ),
    decreases old(parser).tokens().len() - old(parser).cursor(), 4nat,
{
    let expr = match call(parser) {
        Ok(expr) => expr,
        Err(error) => {
            return Err(error);
        },
    };
    proof {
        parser.lemma_wf();
    }
    if parser.next_is(Symbol::LeftBracket) {
        let index = match assign(parser) {
            Ok(index) => index,
            Err(error) => {
                return Err(error);
            },
        };
        match parser.expect(Symbol::RightBracket) {
            Ok(_) => {},
            Err(error) => {
                return Err(error);
            },
        }
        proof {
            lemma_well_spanned_wf(expr@);
            lemma_well_spanned_wf(index@);
        }
        let span = expr.span().with(index.span());
        Ok(Expr::Index(IndexExpr { expr: Box::new(expr), index: Box::new(index), span }))
    } else {
        Ok(expr)
    }
}

/// Reads prefix operators and the index expression they apply to.
pub fn unary(parser: &mut Parser) -> (value: Result<Expr, Error>)
    requires
        old(parser).wf(),
    ensures
        ruled(
            old(parser),
            final(parser),
            value,
            unary_at(old(parser).input(), old(parser).cursor()),
        ),
    decreases old(parser).tokens().len() - old(parser).cursor(), 5nat,
{
    proof {
        parser.lemma_wf();
    }
    let start = parser.span();
    match parser.try_parse::<UnaryOp>() {
        Some(op) => {
            let expr = match unary(parser) {
                Ok(expr) => expr,
                Err(error) => {
                    return Err(error);
                },
            };
            proof {
                lemma_well_spanned_wf(expr@);
            }
            let span = start.with(expr.span());
            Ok(Expr::Unary(UnaryExpr { op, expr: Box::new(expr), span }))
        },
        None => index(parser),
    }
}

/// Reads an operand and, where a binary operator follows, the whole rest
/// as the tree to its right, and joins them by precedence. Operators that
/// bind equally group to the left.
pub fn binary(parser: &mut Parser) -> (value: Result<Expr, Error>)
    requires
        old(parser).wf(),
    ensures
        ruled(
            old(parser),
            final(parser),
            value,
            binary_at(old(parser).input(), old(parser).cursor()),
        ),
    decreases old(parser).tokens().len() - old(parser).cursor(), 6nat,
{
    let expr = match unary(parser) {
        Ok(expr) => expr,
        Err(error) => {
            return Err(error);
        },
    };
    proof {
        parser.lemma_wf();
    }
    match parser.try_parse::<BinOp>() {
        Some(op) => {
            let rhs = match binary(parser) {
                Ok(rhs) => rhs,
                Err(error) => {
                    return Err(error);
                },
            };
            Ok(Expr::binary(expr, op, rhs))
        },
        None => Ok(expr),
    }
}

/// Reads a binary expression and, where `=` follows, the assignment of the
/// whole rest to it.
pub fn assign(parser: &mut Parser) -> (value: Result<Expr, Error>)
    requires
        old(parser).wf(),
    ensures
        ruled(
            old(parser),
            final(parser),
            value,
            assign_at(old(parser).input(), old(parser).cursor()),
        ),
    decreases old(parser).tokens().len() - old(parser).cursor(), 7nat,
{
    let expr = match binary(parser) {
        Ok(expr) => expr,
        Err(error) => {
            return Err(error);
        },
    };
    proof {
        parser.lemma_wf();
    }
    if parser.next_is(Symbol::Eq) {
        let rhs = match assign(parser) {
            Ok(rhs) => rhs,
            Err(error) => {
                return Err(error);
            },
        };
        proof {
            lemma_well_spanned_wf(expr@);
            lemma_well_spanned_wf(rhs@);
        }
        let span = expr.span().with(rhs.span());
        Ok(Expr::Assign(AssignExpr { lhs: Box::new(expr), rhs: Box::new(rhs), span }))
    } else {
        Ok(expr)
    }
}

impl Parse for ParenExpr {
    type Model = ExprView;

    open spec fn model(&self) -> ExprView {
        expr_view(Expr::Paren(*self))
    }

    open spec fn at(input: Input, pos: int) -> Parsed<ExprView> {
        paren_at(input, pos)
    }

    fn parse(parser: &mut Parser) -> (value: Result<ParenExpr, Error>) {
        paren(parser)
    }
}

/// The arguments of a call are a list of expressions that a closing
/// parenthesis ends.
pub proof fn lemma_arguments_are_a_list(input: Input, pos: int)
    ensures
        arguments_at(input, pos) == list_at::<Expr>(
            input,
            pos,
            TokenKindView::Symbol(Symbol::RightParen),
        ),
    decreases input.tokens.len() - pos,
{
    let end = TokenKindView::Symbol(Symbol::RightParen);
    if !input.is_at(pos, end) {
        match assign_at(input, pos) {
            Parsed::Failed { error, next } => {},
            Parsed::Done { value, next } => {
                if !input.is_at(next, end) && input.is_at(
                    next,
                    TokenKindView::Symbol(Symbol::Comma),
                ) && next >= pos {
                    lemma_arguments_are_a_list(input, next + 1);
                }
            },
        }
    }
}

impl Parse for Expr {
    type Model = ExprView;

    open spec fn model(&self) -> ExprView {
        self@
    }

    open spec fn at(input: Input, pos: int) -> Parsed<ExprView> {
        assign_at(input, pos)
    }

    fn parse(parser: &mut Parser) -> (value: Result<Expr, Error>) {
        assign(parser)
    }
}

} // verus!
