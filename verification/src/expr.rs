//! Expressions: the nodes of the syntax tree that the expression grammar builds.

use vstd::prelude::*;
use crate::ident::{Ident, IdentView};
use crate::path::{Path, PathView};
use crate::span::Span;
use crate::ty::{copy_path, path_view};

verus! {

#[derive(Clone, Copy, Debug, PartialEq, Eq, Structural)]
pub enum UnaryOp {
    Neg,
    Not,
    Ref,
    Deref,
}

#[derive(Clone, Copy, Debug, PartialEq, Eq, Structural)]
pub enum BinOp {
    Add,
    Sub,
    Mul,
    Div,
    Mod,
    Eq,
    Ne,
    Lt,
    Le,
    Gt,
    Ge,
    And,
    Or,
}

impl BinOp {
    /// The precedence number of the operator: the lower, the tighter it binds.
    pub open spec fn precedence_spec(self) -> u8 {
        match self {
            BinOp::Mul | BinOp::Div | BinOp::Mod => 2,
            BinOp::Add | BinOp::Sub => 3,
            BinOp::Lt | BinOp::Le | BinOp::Gt | BinOp::Ge => 4,
            BinOp::Eq | BinOp::Ne => 5,
            BinOp::And => 6,
            BinOp::Or => 7,
        }
    }

    pub fn precedence(&self) -> (level: u8)
        ensures
            level == self.precedence_spec(),
            2 <= level <= 7,
    {
        match self {
            BinOp::Mul | BinOp::Div | BinOp::Mod => 2,
            BinOp::Add | BinOp::Sub => 3,
            BinOp::Lt | BinOp::Le | BinOp::Gt | BinOp::Ge => 4,
            BinOp::Eq | BinOp::Ne => 5,
            BinOp::And => 6,
            BinOp::Or => 7,
        }
    }
}

/// A number as written in the program text.
#[derive(Clone, Copy, Debug, PartialEq, Eq, Structural)]
pub enum LiteralKind {
    /// A whole number.
    Integer(u64),
    /// A decimal number: the value of the digits before the point and the
    /// value of the digits after it.
    Decimal { whole: u64, fraction: u64 },
}

#[allow(inconsistent_fields)]
pub ghost enum ExprView {
    Paren { expr: Box<ExprView>, span: Span },
    Path(PathView),
    Field { class: Box<ExprView>, field: IdentView, span: Span },
    Call { callee: Box<ExprView>, arguments: Seq<ExprView>, span: Span },
    Index { expr: Box<ExprView>, index: Box<ExprView>, span: Span },
    Unary { op: UnaryOp, expr: Box<ExprView>, span: Span },
    Binary { lhs: Box<ExprView>, op: BinOp, rhs: Box<ExprView>, span: Span },
    Assign { lhs: Box<ExprView>, rhs: Box<ExprView>, span: Span },
    Literal { kind: LiteralKind, span: Span },
}

#[derive(Clone, Debug, PartialEq)]
pub struct ParenExpr {
    pub expr: Box<Expr>,
    pub span: Span,
}

#[derive(Clone, Debug, PartialEq)]
pub struct FieldExpr {
    pub class: Box<Expr>,
    pub field: Ident,
    pub span: Span,
}

#[derive(Clone, Debug, PartialEq)]
pub struct IndexExpr {
    pub expr: Box<Expr>,
    pub index: Box<Expr>,
    pub span: Span,
}

#[derive(Clone, Debug, PartialEq)]
pub struct CallExpr {
    pub callee: Box<Expr>,
    pub arguments: Vec<Expr>,
    pub span: Span,
}

#[derive(Clone, Debug, PartialEq)]
pub struct UnaryExpr {
    pub op: UnaryOp,
    pub expr: Box<Expr>,
    pub span: Span,
}

#[derive(Clone, Debug, PartialEq)]
pub struct BinaryExpr {
    pub lhs: Box<Expr>,
    pub op: BinOp,
    pub rhs: Box<Expr>,
    pub span: Span,
}

#[derive(Clone, Debug, PartialEq)]
pub struct AssignExpr {
    pub lhs: Box<Expr>,
    pub rhs: Box<Expr>,
    pub span: Span,
}

#[derive(Clone, Debug, PartialEq)]
pub struct LiteralExpr {
    pub kind: LiteralKind,
    pub span: Span,
}

#[derive(Debug, PartialEq)]
pub enum Expr {
    Paren(ParenExpr),
    Path(Path),
    Field(FieldExpr),
    Call(CallExpr),
    Index(IndexExpr),
    Unary(UnaryExpr),
    Binary(BinaryExpr),
    Assign(AssignExpr),
    Literal(LiteralExpr),
}

pub open spec fn expr_view(expr: Expr) -> ExprView
    decreases expr,
{
    match expr {
        Expr::Paren(e) => ExprView::Paren { expr: Box::new(expr_view(*e.expr)), span: e.span },
        Expr::Path(path) => ExprView::Path(path_view(path)),
        Expr::Field(e) => ExprView::Field {
            class: Box::new(expr_view(*e.class)),
            field: e.field@,
            span: e.span,
        },
        Expr::Call(e) => ExprView::Call {
            callee: Box::new(expr_view(*e.callee)),
            arguments: exprs_view(e.arguments@),
            span: e.span,
        },
        Expr::Index(e) => ExprView::Index {
            expr: Box::new(expr_view(*e.expr)),
            index: Box::new(expr_view(*e.index)),
            span: e.span,
        },
        Expr::Unary(e) => ExprView::Unary {
            op: e.op,
            expr: Box::new(expr_view(*e.expr)),
            span: e.span,
        },
        Expr::Binary(e) => ExprView::Binary {
            lhs: Box::new(expr_view(*e.lhs)),
            op: e.op,
            rhs: Box::new(expr_view(*e.rhs)),
            span: e.span,
        },
        Expr::Assign(e) => ExprView::Assign {
            lhs: Box::new(expr_view(*e.lhs)),
            rhs: Box::new(expr_view(*e.rhs)),
            span: e.span,
        },
        Expr::Literal(e) => ExprView::Literal { kind: e.kind, span: e.span },
    }
}

pub open spec fn exprs_view(exprs: Seq<Expr>) -> Seq<ExprView>
    decreases exprs,
{
    Seq::new(
        exprs.len(),
        |i: int|
            if 0 <= i < exprs.len() {
                expr_view(exprs[i])
            } else {
                arbitrary()
            },
    )
}

impl View for Expr {
    type V = ExprView;

    open spec fn view(&self) -> ExprView {
        expr_view(*self)
    }
}

pub fn copy_expr(expr: &Expr) -> (copy: Expr)
    ensures
        copy@ == expr@,
    decreases expr,
{
    match expr {
        Expr::Paren(e) => Expr::Paren(
            ParenExpr { expr: Box::new(copy_expr(&e.expr)), span: e.span },
        ),
        Expr::Path(path) => Expr::Path(copy_path(path)),
        Expr::Field(e) => Expr::Field(
            FieldExpr {
                class: Box::new(copy_expr(&e.class)),
                field: e.field.clone(),
                span: e.span,
            },
        ),
        Expr::Call(e) => Expr::Call(
            CallExpr {
                callee: Box::new(copy_expr(&e.callee)),
                arguments: copy_exprs(&e.arguments),
                span: e.span,
            },
        ),
        Expr::Index(e) => Expr::Index(
            IndexExpr {
                expr: Box::new(copy_expr(&e.expr)),
                index: Box::new(copy_expr(&e.index)),
                span: e.span,
            },
        ),
        Expr::Unary(e) => Expr::Unary(
            UnaryExpr { op: e.op, expr: Box::new(copy_expr(&e.expr)), span: e.span },
        ),
        Expr::Binary(e) => Expr::Binary(
            BinaryExpr {
                lhs: Box::new(copy_expr(&e.lhs)),
                op: e.op,
                rhs: Box::new(copy_expr(&e.rhs)),
                span: e.span,
            },
        ),
        Expr::Assign(e) => Expr::Assign(
            AssignExpr {
                lhs: Box::new(copy_expr(&e.lhs)),
                rhs: Box::new(copy_expr(&e.rhs)),
                span: e.span,
            },
        ),
        Expr::Literal(e) => Expr::Literal(LiteralExpr { kind: e.kind, span: e.span }),
    }
}

pub fn copy_exprs(exprs: &Vec<Expr>) -> (copy: Vec<Expr>)
    ensures
        exprs_view(copy@) == exprs_view(exprs@),
    decreases exprs,
{
    let mut copy: Vec<Expr> = Vec::new();
    let mut i: usize = 0;
    while i < exprs.len()
        invariant
            i <= exprs.len(),
            copy@.len() == i,
            forall|j: int| 0 <= j < i ==> expr_view(copy@[j]) == expr_view(exprs@[j]),
        decreases exprs.len() - i,
    {
        copy.push(copy_expr(&exprs[i]));
        i += 1;
    }
    assert(exprs_view(copy@) =~= exprs_view(exprs@));
    copy
}

impl Clone for Expr {
    fn clone(&self) -> (copy: Expr)
        ensures
            copy@ == self@,
    {
        copy_expr(self)
    }
}

impl ExprView {
    /// The span of the node.
    pub open spec fn span(self) -> Span {
        match self {
            ExprView::Paren { span, .. } => span,
            ExprView::Path(path) => path.span,
            ExprView::Field { span, .. } => span,
            ExprView::Call { span, .. } => span,
            ExprView::Index { span, .. } => span,
            ExprView::Unary { span, .. } => span,
            ExprView::Binary { span, .. } => span,
            ExprView::Assign { span, .. } => span,
            ExprView::Literal { span, .. } => span,
        }
    }

    /// The binary node for `lhs op rhs`, spanning both operands.
    pub open spec fn plain_binary(lhs: ExprView, op: BinOp, rhs: ExprView) -> ExprView {
        ExprView::Binary {
            lhs: Box::new(lhs),
            op,
            rhs: Box::new(rhs),
            span: lhs.span().with_spec(rhs.span()),
        }
    }

    /// The tree for `lhs op rhs`, where `rhs` is the tree of everything
    /// that follows `op`. `op` takes as its right operand the leftmost part
    /// of `rhs` that binds tighter than `op` does: `lhs` is carried down the
    /// left operands of `rhs` as long as the operator there binds no
    /// tighter than `op`, and joined with what stands at that place.
    /// Operators that bind equally therefore group to the left. The span of
    /// every node on the way is made anew from its operands.
    pub open spec fn binary(lhs: ExprView, op: BinOp, rhs: ExprView) -> ExprView
        decreases rhs,
    {
        match rhs {
            ExprView::Binary { lhs: middle, op: outer, rhs: last, span } => {
                if outer.precedence_spec() >= op.precedence_spec() {
                    ExprView::plain_binary(ExprView::binary(lhs, op, *middle), outer, *last)
                } else {
                    ExprView::plain_binary(lhs, op, rhs)
                }
            },
            _ => ExprView::plain_binary(lhs, op, rhs),
        }
    }

    /// The operands of a chain of binary operators, from left to right. A
    /// tree that is no binary node is its own single operand.
    pub open spec fn operands(self) -> Seq<ExprView>
        decreases self,
    {
        match self {
            ExprView::Binary { lhs, op, rhs, span } => lhs.operands() + rhs.operands(),
            _ => seq![self],
        }
    }

    /// The operators of a chain of binary operators, from left to right.
    pub open spec fn operators(self) -> Seq<BinOp>
        decreases self,
    {
        match self {
            ExprView::Binary { lhs, op, rhs, span } => lhs.operators().push(op) + rhs.operators(),
            _ => Seq::empty(),
        }
    }

    /// The precedence number of the operator at the top of a binary node,
    /// and zero for every other tree, which binds tighter than any operator.
    pub open spec fn top_precedence(self) -> int {
        match self {
            ExprView::Binary { lhs, op, rhs, span } => op.precedence_spec() as int,
            _ => 0,
        }
    }

    /// The chain of binary operators is grouped by precedence, and to the
    /// left among equals: in every binary node of the chain the left
    /// operand binds at least as tight as the node's operator, and the
    /// right operand binds strictly tighter.
    pub open spec fn grouped(self) -> bool
        decreases self,
    {
        match self {
            ExprView::Binary { lhs, op, rhs, span } => {
                &&& lhs.grouped()
                &&& rhs.grouped()
                &&& lhs.top_precedence() <= op.precedence_spec()
                &&& rhs.top_precedence() < op.precedence_spec()
            },
            _ => true,
        }
    }

    /// The span of a call: from the callee to the last argument, or the
    /// callee's own span where there is no argument.
    pub open spec fn call_span(callee: ExprView, arguments: Seq<ExprView>) -> Span {
        if arguments.len() == 0 {
            callee.span()
        } else {
            callee.span().with_spec(arguments.last().span())
        }
    }

    /// Every span in the tree ends within the machine's range; the span of
    /// a node made of two operands, or of a callee and arguments, is the
    /// union of their spans; and the span of a node with a prefix operator
    /// covers its operand.
    pub open spec fn well_spanned(self) -> bool
        decreases self,
    {
        match self {
            ExprView::Paren { expr, span } => span.wf() && expr.well_spanned(),
            ExprView::Path(path) => path.span.wf(),
            ExprView::Field { class, field, span } => {
                &&& class.well_spanned()
                &&& field.span.wf()
                &&& span == class.span().with_spec(field.span)
            },
            ExprView::Call { callee, arguments, span } => {
                &&& callee.well_spanned()
                &&& forall|i: int|
                    0 <= i < arguments.len() ==> (#[trigger] arguments[i]).well_spanned()
                &&& span == ExprView::call_span(*callee, arguments)
            },
            ExprView::Index { expr, index, span } => {
                &&& expr.well_spanned()
                &&& index.well_spanned()
                &&& span == expr.span().with_spec(index.span())
            },
            ExprView::Unary { op, expr, span } => {
                &&& expr.well_spanned()
                &&& span.wf()
                &&& span.index <= expr.span().index
                &&& span.end_spec() >= expr.span().end_spec()
            },
            ExprView::Binary { lhs, op, rhs, span } => {
                &&& lhs.well_spanned()
                &&& rhs.well_spanned()
                &&& span == lhs.span().with_spec(rhs.span())
            },
            ExprView::Assign { lhs, rhs, span } => {
                &&& lhs.well_spanned()
                &&& rhs.well_spanned()
                &&& span == lhs.span().with_spec(rhs.span())
            },
            ExprView::Literal { kind, span } => span.wf(),
        }
    }
}

/// The span of a well-spanned tree ends within the machine's range.
pub proof fn lemma_well_spanned_wf(expr: ExprView)
    requires
        expr.well_spanned(),
    ensures
        expr.span().wf(),
    decreases expr,
{
    match expr {
        ExprView::Field { class, field, span } => {
            lemma_well_spanned_wf(*class);
        },
        ExprView::Call { callee, arguments, span } => {
            lemma_well_spanned_wf(*callee);
            if arguments.len() > 0 {
                lemma_well_spanned_wf(arguments.last());
            }
        },
        ExprView::Index { expr: inner, index, span } => {
            lemma_well_spanned_wf(*inner);
            lemma_well_spanned_wf(*index);
        },
        ExprView::Binary { lhs, op, rhs, span } => {
            lemma_well_spanned_wf(*lhs);
            lemma_well_spanned_wf(*rhs);
        },
        ExprView::Assign { lhs, rhs, span } => {
            lemma_well_spanned_wf(*lhs);
            lemma_well_spanned_wf(*rhs);
        },
        _ => {},
    }
}

/// Joining keeps trees well spanned.
pub proof fn lemma_binary_well_spanned(lhs: ExprView, op: BinOp, rhs: ExprView)
    requires
        lhs.well_spanned(),
        rhs.well_spanned(),
    ensures
        ExprView::binary(lhs, op, rhs).well_spanned(),
    decreases rhs,
{
    match rhs {
        ExprView::Binary { lhs: middle, op: outer, rhs: last, span } => {
            if outer.precedence_spec() >= op.precedence_spec() {
                lemma_binary_well_spanned(lhs, op, *middle);
            }
        },
        _ => {},
    }
}

/// Joining keeps the operands and the operators in the order in which
/// they were written.
pub proof fn lemma_binary_keeps_order(lhs: ExprView, op: BinOp, rhs: ExprView)
    requires
        !(lhs is Binary),
    ensures
        ExprView::binary(lhs, op, rhs).operands() == seq![lhs] + rhs.operands(),
        ExprView::binary(lhs, op, rhs).operators() == seq![op] + rhs.operators(),
    decreases rhs,
{
    let joined = ExprView::binary(lhs, op, rhs);
    assert(lhs.operands() == seq![lhs]);
    assert(lhs.operators() == Seq::<BinOp>::empty());
    match rhs {
        ExprView::Binary { lhs: middle, op: outer, rhs: last, span } => {
            if outer.precedence_spec() >= op.precedence_spec() {
                lemma_binary_keeps_order(lhs, op, *middle);
                let left = ExprView::binary(lhs, op, *middle);
                assert(joined.operands() == left.operands() + last.operands());
                assert((seq![lhs] + middle.operands()) + last.operands() =~= seq![lhs] + (
                middle.operands() + last.operands()));
                assert(joined.operators() == left.operators().push(outer) + last.operators());
                assert((seq![op] + middle.operators()).push(outer) + last.operators() =~= seq![op]
                    + (middle.operators().push(outer) + last.operators()));
            } else {
                assert(Seq::<BinOp>::empty().push(op) + rhs.operators() =~= seq![op]
                    + rhs.operators());
            }
        },
        _ => {
            assert(Seq::<BinOp>::empty().push(op) + rhs.operators() =~= seq![op] + rhs.operators());
        },
    }
}

/// Joining an operand that is no binary node with a tree that is grouped
/// by precedence gives a tree that is grouped by precedence. Its top
/// operator is `op` or the top operator of `rhs`, whichever binds looser.
pub proof fn lemma_binary_is_grouped(lhs: ExprView, op: BinOp, rhs: ExprView)
    requires
        !(lhs is Binary),
        rhs.grouped(),
    ensures
        ExprView::binary(lhs, op, rhs).grouped(),
        ExprView::binary(lhs, op, rhs).top_precedence() == if rhs.top_precedence()
            >= op.precedence_spec() {
            rhs.top_precedence()
        } else {
            op.precedence_spec() as int
        },
    decreases rhs,
{
    assert(lhs.grouped());
    assert(2 <= op.precedence_spec() <= 7);
    match rhs {
        ExprView::Binary { lhs: middle, op: outer, rhs: last, span } => {
            if outer.precedence_spec() >= op.precedence_spec() {
                lemma_binary_is_grouped(lhs, op, *middle);
                let left = ExprView::binary(lhs, op, *middle);
                assert(ExprView::binary(lhs, op, rhs) == ExprView::plain_binary(
                    left,
                    outer,
                    *last,
                ));
                assert(left.top_precedence() <= outer.precedence_spec());
            } else {
                assert(ExprView::binary(lhs, op, rhs) == ExprView::plain_binary(lhs, op, rhs));
            }
        },
        _ => {
            assert(ExprView::binary(lhs, op, rhs) == ExprView::plain_binary(lhs, op, rhs));
            assert(rhs.top_precedence() == 0);
        },
    }
}

impl Expr {
    pub fn span(&self) -> (span: Span)
        ensures
            span == self@.span(),
    {
        match self {
            Expr::Paren(e) => e.span,
            Expr::Path(e) => e.span,
            Expr::Field(e) => e.span,
            Expr::Call(e) => e.span,
            Expr::Index(e) => e.span,
            Expr::Unary(e) => e.span,
            Expr::Binary(e) => e.span,
            Expr::Assign(e) => e.span,
            Expr::Literal(e) => e.span,
        }
    }

    /// Builds the tree for `lhs op rhs`, where `rhs` is the tree of
    /// everything that follows `op`: `lhs` goes down the left operands of
    /// `rhs` to the place where `op` binds looser than what stands there.
    pub fn binary(lhs: Expr, op: BinOp, rhs: Expr) -> (node: Expr)
        requires
            lhs@.well_spanned(),
            rhs@.well_spanned(),
        ensures
            node@ == ExprView::binary(lhs@, op, rhs@),
            node@.well_spanned(),
        decreases rhs,
    {
        proof {
            lemma_binary_well_spanned(lhs@, op, rhs@);
            lemma_well_spanned_wf(lhs@);
            lemma_well_spanned_wf(rhs@);
        }
        match rhs {
            Expr::Binary(right) => {
                if right.op.precedence() >= op.precedence() {
                    let BinaryExpr { lhs: middle, op: outer, rhs: last, span: _ } = right;
                    proof {
                        lemma_binary_well_spanned(lhs@, op, expr_view(*middle));
                        lemma_well_spanned_wf(ExprView::binary(lhs@, op, expr_view(*middle)));
                        lemma_well_spanned_wf(expr_view(*last));
                    }
                    let inner = Expr::binary(lhs, op, *middle);
                    let span = inner.span().with(last.span());
                    Expr::Binary(BinaryExpr { lhs: Box::new(inner), op: outer, rhs: last, span })
                } else {
                    let span = lhs.span().with(right.span);
                    Expr::Binary(
                        BinaryExpr {
                            lhs: Box::new(lhs),
                            op,
                            rhs: Box::new(Expr::Binary(right)),
                            span,
                        },
                    )
                }
            },
            other => {
                let span = lhs.span().with(other.span());
                Expr::Binary(BinaryExpr { lhs: Box::new(lhs), op, rhs: Box::new(other), span })
            },
        }
    }
}

} // verus!
