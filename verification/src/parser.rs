//! The parser core: a buffer of tokens, a cursor, and the small steps that
//! grammar rules are built from.

use vstd::prelude::*;
use crate::error::{Error, ErrorView};
use crate::ident::{Ident, IdentView};
use crate::lexer::{
    end_of_file_title, failure_view, kind_at, lemma_kind_at_bounds, lemma_whitespace_end, span_of,
    whitespace_end, Lexed, Lexer,
};
use crate::sources::{Source, SourceId};
use crate::span::Span;
use crate::symbol::Symbol;
use crate::token::{Token, TokenKind, TokenKindView, TokenPattern, TokenView};

verus! {

/// What a parser reads: the tokens of one source and the identity of that source.
pub ghost struct Input {
    pub tokens: Seq<TokenView>,
    pub source: SourceId,
}

/// What a grammar rule makes of an input at a cursor: a value or a
/// finding, and in both cases the cursor that the rule leaves behind.
pub ghost enum Parsed<T> {
    Done { value: T, next: int },
    Failed { error: ErrorView, next: int },
}

impl Input {
    /// The position that a finding at cursor `pos` is pinned to: the token
    /// at `pos`, the last token where `pos` is past the end, and the empty
    /// span at offset zero where there is no token at all.
    pub open spec fn span_at(self, pos: int) -> Span {
        if self.tokens.len() == 0 {
            Span { index: 0, length: 0, source: self.source }
        } else if 0 <= pos < self.tokens.len() {
            self.tokens[pos].span
        } else {
            self.tokens.last().span
        }
    }

    /// The finding for a token that is wanted past the end of the buffer.
    pub open spec fn end_of_file(self, pos: int) -> ErrorView {
        ErrorView { title: end_of_file_title(), notes: Seq::empty(), span: self.span_at(pos) }
    }

    /// Whether the token at `pos` exists and is of the given kind.
    pub open spec fn is_at(self, pos: int, kind: TokenKindView) -> bool {
        0 <= pos < self.tokens.len() && self.tokens[pos].kind == kind
    }

    /// Taking the token at `pos`. At the end of the buffer the cursor stays.
    pub open spec fn next_at(self, pos: int) -> Parsed<TokenView> {
        if 0 <= pos < self.tokens.len() {
            Parsed::Done { value: self.tokens[pos], next: pos + 1 }
        } else {
            Parsed::Failed { error: self.end_of_file(pos), next: pos }
        }
    }

    /// Taking the token at `pos` and demanding that it is of the given
    /// kind. A token that stands at `pos` is taken whether it is of that
    /// kind or not; at the end of the buffer the cursor stays.
    pub open spec fn expect_at(self, pos: int, kind: TokenKindView) -> Parsed<()> {
        if !(0 <= pos < self.tokens.len()) {
            Parsed::Failed { error: self.end_of_file(pos), next: pos }
        } else if self.tokens[pos].kind == kind {
            Parsed::Done { value: (), next: pos + 1 }
        } else {
            Parsed::Failed { error: unexpected_token(), next: pos + 1 }
        }
    }

    /// Reading an identifier at `pos`. A token that stands at `pos` is
    /// taken whether it is an identifier or not; at the end of the buffer
    /// the cursor stays.
    pub open spec fn ident_at(self, pos: int) -> Parsed<IdentView> {
        if !(0 <= pos < self.tokens.len()) {
            Parsed::Failed { error: self.end_of_file(pos), next: pos }
        } else {
            match self.tokens[pos].kind {
                TokenKindView::Ident(name) => Parsed::Done {
                    value: IdentView { name, span: self.tokens[pos].span },
                    next: pos + 1,
                },
                _ => Parsed::Failed {
                    error: ErrorView {
                        title: "expected identifier"@,
                        notes: Seq::empty(),
                        span: self.tokens[pos].span,
                    },
                    next: pos + 1,
                },
            }
        }
    }
}

/// The finding for a token that is not the one demanded. It has no position.
pub open spec fn unexpected_token() -> ErrorView {
    ErrorView { title: "unexpected token"@, notes: Seq::empty(), span: Span::null_spec() }
}

/// All the tokens of `text` from character position `pos` on, or the first
/// finding of the lexer.
pub open spec fn lex_all(text: Seq<char>, pos: int, source: SourceId) -> Result<
    Seq<TokenView>,
    ErrorView,
>
    decreases text.len() - pos,
{
    let start = whitespace_end(text, pos);
    // `start` is never before `pos`: see `lemma_whitespace_end`.
    if start >= text.len() || start < pos {
        Ok(Seq::empty())
    } else {
        match kind_at(text, start) {
            Lexed::Token { kind, start: first, end } => {
                // Never taken: a token is not empty and ends inside the text,
                // see `lemma_kind_at_bounds`.
                if end <= start || end > text.len() {
                    Ok(Seq::empty())
                } else {
                    match lex_all(text, end, source) {
                        Ok(rest) => Ok(
                            seq![TokenView { kind, span: span_of(text, start, end, source) }]
                                + rest,
                        ),
                        Err(error) => Err(error),
                    }
                }
            },
            Lexed::Failure { title, from, to } => Err(
                failure_view(text, source, title, from, to),
            ),
        }
    }
}

/// A value that a grammar rule can read from a parser.
pub trait Parse: Sized {
    /// What a value of this type stands for.
    type Model;

    /// What this value stands for.
    spec fn model(&self) -> Self::Model;

    /// What the rule makes of `input` at cursor `pos`.
    spec fn at(input: Input, pos: int) -> Parsed<Self::Model>;

    /// Runs the rule at the cursor. The tokens stay as they are, and the
    /// cursor ends where the rule leaves it, after a failure as well. It
    /// never moves backwards.
    fn parse(parser: &mut Parser) -> (value: Result<Self, Error>)
        requires
            old(parser).wf(),
        ensures
            final(parser).wf(),
            final(parser).input() == old(parser).input(),
            old(parser).cursor() <= final(parser).cursor(),
            match Self::at(old(parser).input(), old(parser).cursor()) {
                Parsed::Done { value: expected, next } => {
                    &&& value is Ok
                    &&& value->Ok_0.model() == expected
                    &&& final(parser).cursor() == next
                },
                Parsed::Failed { error, next } => {
                    &&& value is Err
                    &&& value->Err_0@ == error
                    &&& final(parser).cursor() == next
                },
            },
    ;
}

/// What each of the values stands for.
pub open spec fn models<T: Parse>(values: Seq<T>) -> Seq<T::Model> {
    values.map_values(|v: T| v.model())
}

/// The outcome `rest` with the values `first` put before its own.
pub open spec fn prepend<M>(first: Seq<M>, rest: Parsed<Seq<M>>) -> Parsed<Seq<M>> {
    match rest {
        Parsed::Done { value, next } => Parsed::Done { value: first + value, next },
        Parsed::Failed { error, next } => Parsed::Failed { error, next },
    }
}

/// Putting values before an outcome in two steps is putting them before it at once.
pub proof fn lemma_prepend_twice<M>(first: Seq<M>, second: Seq<M>, rest: Parsed<Seq<M>>)
    ensures
        prepend(first, prepend(second, rest)) == prepend(first + second, rest),
        prepend(Seq::<M>::empty(), rest) == rest,
{
    match rest {
        Parsed::Done { value, next } => {
            assert(first + (second + value) =~= (first + second) + value);
            assert(Seq::<M>::empty() + value =~= value);
        },
        Parsed::Failed { error, next } => {},
    }
}

/// A list of `T` at `pos`, up to and including the terminator: nothing
/// where the terminator stands at once; else a value, and then either the
/// terminator, or a comma and the rest of the list.
pub open spec fn list_at<T: Parse>(input: Input, pos: int, terminator: TokenKindView) -> Parsed<
    Seq<T::Model>,
>
    decreases input.tokens.len() - pos,
{
    if input.is_at(pos, terminator) {
        Parsed::Done { value: Seq::empty(), next: pos + 1 }
    } else {
        match T::at(input, pos) {
            Parsed::Failed { error, next } => Parsed::Failed { error, next },
            Parsed::Done { value, next } => {
                if input.is_at(next, terminator) {
                    Parsed::Done { value: seq![value], next: next + 1 }
                } else {
                    match input.expect_at(next, TokenKindView::Symbol(Symbol::Comma)) {
                        Parsed::Failed { error, next } => Parsed::Failed { error, next },
                        Parsed::Done { value: unit, next: after } => {
                            if next < pos {
                                // A rule that moves the cursor backwards ends the list.
                                Parsed::Failed { error: unexpected_token(), next: after }
                            } else {
                                prepend(seq![value], list_at::<T>(input, next + 1, terminator))
                            }
                        },
                    }
                }
            },
        }
    }
}

/// A buffer of tokens with a cursor.
pub struct Parser {
    index: usize,
    tokens: Vec<Token>,
    source_id: SourceId,
}

impl Parser {
    /// The tokens of the buffer.
    pub closed spec fn tokens(&self) -> Seq<TokenView> {
        self.tokens@.map_values(|t: Token| t@)
    }

    /// Number of tokens before the cursor.
    pub closed spec fn cursor(&self) -> int {
        self.index as int
    }

    pub closed spec fn source_id(&self) -> SourceId {
        self.source_id
    }

    /// The cursor is inside the buffer or just past its end, and every
    /// token's span ends within the machine's range.
    pub closed spec fn wf(&self) -> bool {
        &&& self.index <= self.tokens@.len()
        &&& forall|i: int| 0 <= i < self.tokens@.len() ==> (#[trigger] self.tokens@[i]).span.wf()
    }

    /// What this parser reads.
    pub open spec fn input(&self) -> Input {
        Input { tokens: self.tokens(), source: self.source_id() }
    }

    /// The same parser as `before`, with the cursor at `cursor`.
    pub open spec fn moved(&self, before: &Parser, cursor: int) -> bool {
        &&& self.wf()
        &&& self.input() == before.input()
        &&& self.cursor() == cursor
    }

    pub proof fn lemma_wf(&self)
        requires
            self.wf(),
        ensures
            0 <= self.cursor() <= self.tokens().len(),
            forall|i: int| 0 <= i < self.tokens().len() ==> (#[trigger] self.tokens()[i]).span.wf(),
            forall|pos: int| (#[trigger] self.input().span_at(pos)).wf(),
    {
        assert forall|i: int| 0 <= i < self.tokens().len() implies (
        #[trigger] self.tokens()[i]).span.wf() by {
            assert(self.tokens@[i].span.wf());
        }
    }

    /// Lexes the whole of `source`. Fails with the lexer's finding where the
    /// text does not lex.
    pub fn new(source: &Source, source_id: SourceId) -> (parser: Result<Parser, Error>)
        ensures
            match lex_all(source.text(), 0, source_id) {
                Ok(tokens) => {
                    &&& parser is Ok
                    &&& parser->Ok_0.wf()
                    &&& parser->Ok_0.tokens() == tokens
                    &&& parser->Ok_0.source_id() == source_id
                    &&& parser->Ok_0.cursor() == 0
                },
                Err(error) => parser is Err && parser->Err_0@ == error,
            },
    {
        let mut lexer = Lexer::new(source, source_id);
        let mut tokens: Vec<Token> = Vec::new();
        let ghost text = source.text();
        proof {
            assert(tokens@.map_values(|t: Token| t@) =~= Seq::<TokenView>::empty());
        }
        loop
            invariant
                text == source.text(),
                lexer.wf(),
                lexer.text() == text,
                lexer.source_id() == source_id,
                forall|i: int| 0 <= i < tokens@.len() ==> (#[trigger] tokens@[i]).span.wf(),
                match lex_all(text, lexer.position(), source_id) {
                    Ok(rest) => lex_all(text, 0, source_id) == Ok::<Seq<TokenView>, ErrorView>(
                        tokens@.map_values(|t: Token| t@) + rest,
                    ),
                    Err(error) => lex_all(text, 0, source_id) == Err::<Seq<TokenView>, ErrorView>(
                        error,
                    ),
                },
            ensures
                forall|i: int| 0 <= i < tokens@.len() ==> (#[trigger] tokens@[i]).span.wf(),
                lex_all(text, 0, source_id) == Ok::<Seq<TokenView>, ErrorView>(
                    tokens@.map_values(|t: Token| t@),
                ),
            decreases text.len() - lexer.position(),
        {
            proof {
                lexer.lemma_wf();
                lemma_whitespace_end(text, lexer.position());
                if whitespace_end(text, lexer.position()) < text.len() {
                    lemma_kind_at_bounds(text, whitespace_end(text, lexer.position()));
                }
            }
            let ghost before = lexer.position();
            lexer.take_whitespace();
            if lexer.is_empty() {
                proof {
                    assert(tokens@.map_values(|t: Token| t@) + Seq::<TokenView>::empty()
                        =~= tokens@.map_values(|t: Token| t@));
                }
                break ;
            }
            proof {
                lemma_whitespace_end(text, lexer.position());
                assert(whitespace_end(text, lexer.position()) == lexer.position());
                assert(lex_all(text, before, source_id) == lex_all(
                    text,
                    lexer.position(),
                    source_id,
                ));
            }
            let ghost start = lexer.position();
            match lexer.lex() {
                Ok(token) => {
                    let ghost old_tokens = tokens@.map_values(|t: Token| t@);
                    tokens.push(token);
                    proof {
                        let shown = tokens@.map_values(|t: Token| t@);
                        assert(shown =~= old_tokens.push(token@));
                        assert(lex_all(text, start, source_id) == match lex_all(
                            text,
                            lexer.position(),
                            source_id,
                        ) {
                            Ok(rest) => Ok::<Seq<TokenView>, ErrorView>(seq![token@] + rest),
                            Err(error) => Err(error),
                        });
                        match lex_all(text, lexer.position(), source_id) {
                            Ok(rest) => {
                                assert(old_tokens + (seq![token@] + rest) =~= shown + rest);
                            },
                            Err(error) => {},
                        }
                    }
                },
                Err(error) => {
                    proof {
                        assert(crate::lexer::token_at(text, start) == kind_at(text, start));
                        assert(lex_all(text, start, source_id) == Err::<
                            Seq<TokenView>,
                            ErrorView,
                        >(error@));
                    }
                    return Err(error);
                },
            }
        }
        Ok(Parser { index: 0, tokens, source_id })
    }

    /// Number of tokens before the cursor.
    pub fn index(&self) -> (index: usize)
        ensures
            index == self.cursor(),
    {
        self.index
    }

    pub fn is_empty(&self) -> (empty: bool)
        requires
            self.wf(),
        ensures
            empty == (self.cursor() == self.tokens().len()),
    {
        self.index == self.tokens.len()
    }

    /// The tokens that are still to be read.
    pub fn remaining(&self) -> (rest: &[Token])
        requires
            self.wf(),
        ensures
            rest@.map_values(|t: Token| t@) == self.tokens().subrange(
                self.cursor(),
                self.tokens().len() as int,
            ),
    {
        let rest = vstd::slice::slice_subrange(
            self.tokens.as_slice(),
            self.index,
            self.tokens.len(),
        );
        proof {
            assert(rest@.map_values(|t: Token| t@) =~= self.tokens().subrange(
                self.cursor(),
                self.tokens().len() as int,
            ));
        }
        rest
    }

    /// The position to pin a finding to: the current token, or the last
    /// token at the end of the buffer, or the empty span at offset zero of
    /// the source where the buffer is empty.
    pub fn span(&self) -> (span: Span)
        requires
            self.wf(),
        ensures
            span == self.input().span_at(self.cursor()),
            span.wf(),
    {
        if self.tokens.len() == 0 {
            Span::new(0, 0, self.source_id)
        } else {
            let index: usize = if self.index < self.tokens.len() {
                self.index
            } else {
                self.tokens.len() - 1
            };
            self.tokens[index].span
        }
    }

    /// Takes the current token, if there is one.
    pub fn try_next(&mut self) -> (token: Option<&Token>)
        requires
            old(self).wf(),
        ensures
            match old(self).input().next_at(old(self).cursor()) {
                Parsed::Done { value, next } => {
                    &&& token is Some
                    &&& token->0@ == value
                    &&& final(self).moved(old(self), next)
                },
                Parsed::Failed { error, next } => {
                    &&& token is None
                    &&& final(self).moved(old(self), next)
                },
            },
    {
        if self.index < self.tokens.len() {
            let token = &self.tokens[self.index];
            self.index = self.index + 1;
            Some(token)
        } else {
            None
        }
    }

    /// The current token, if there is one.
    pub fn try_peek(&self) -> (token: Option<&Token>)
        requires
            self.wf(),
        ensures
            match self.input().next_at(self.cursor()) {
                Parsed::Done { value, next } => token is Some && token->0@ == value,
                Parsed::Failed { error, next } => token is None,
            },
    {
        if self.index < self.tokens.len() {
            Some(&self.tokens[self.index])
        } else {
            None
        }
    }

    /// Takes the current token. Fails at the end of the buffer.
    pub fn next(&mut self) -> (token: Result<&Token, Error>)
        requires
            old(self).wf(),
        ensures
            match old(self).input().next_at(old(self).cursor()) {
                Parsed::Done { value, next } => {
                    &&& token is Ok
                    &&& token->Ok_0@ == value
                    &&& token->Ok_0.span.wf()
                    &&& final(self).moved(old(self), next)
                },
                Parsed::Failed { error, next } => {
                    &&& token is Err
                    &&& token->Err_0@ == error
                    &&& final(self).moved(old(self), next)
                },
            },
    {
        let span = self.span();
        if self.index < self.tokens.len() {
            let token = &self.tokens[self.index];
            self.index = self.index + 1;
            Ok(token)
        } else {
            Err(Error::new("unexpected end of file").with_span(span))
        }
    }

    /// The current token. Fails at the end of the buffer.
    pub fn peek(&self) -> (token: Result<&Token, Error>)
        requires
            self.wf(),
        ensures
            match self.input().next_at(self.cursor()) {
                Parsed::Done { value, next } => {
                    &&& token is Ok
                    &&& token->Ok_0@ == value
                    &&& token->Ok_0.span.wf()
                },
                Parsed::Failed { error, next } => token is Err && token->Err_0@ == error,
            },
    {
        if self.index < self.tokens.len() {
            Ok(&self.tokens[self.index])
        } else {
            Err(Error::new("unexpected end of file").with_span(self.span()))
        }
    }

    /// Takes the current token where it is `value`, and says whether it
    /// did. Leaves the cursor where it is otherwise.
    pub fn next_is<T: TokenPattern>(&mut self, value: T) -> (taken: bool)
        requires
            old(self).wf(),
        ensures
            taken == old(self).input().is_at(old(self).cursor(), value.kind()),
            final(self).moved(
                old(self),
                if taken {
                    old(self).cursor() + 1
                } else {
                    old(self).cursor()
                },
            ),
    {
        if self.index < self.tokens.len() && value.matches(&self.tokens[self.index].kind) {
            self.index = self.index + 1;
            true
        } else {
            false
        }
    }

    /// Takes the current token and fails where it is not `value`. The token
    /// is taken either way.
    pub fn expect<T: TokenPattern>(&mut self, value: T) -> (met: Result<(), Error>)
        requires
            old(self).wf(),
        ensures
            match old(self).input().expect_at(old(self).cursor(), value.kind()) {
                Parsed::Done { value: unit, next } => {
                    &&& met is Ok
                    &&& final(self).moved(old(self), next)
                },
                Parsed::Failed { error, next } => {
                    &&& met is Err
                    &&& met->Err_0@ == error
                    &&& final(self).moved(old(self), next)
                },
            },
    {
        let span = self.span();
        if self.index < self.tokens.len() {
            let same = value.matches(&self.tokens[self.index].kind);
            self.index = self.index + 1;
            if same {
                Ok(())
            } else {
                Err(Error::new("unexpected token"))
            }
        } else {
            Err(Error::new("unexpected end of file").with_span(span))
        }
    }

    /// Runs the grammar rule of `T` at the cursor.
    pub fn parse<T: Parse>(&mut self) -> (value: Result<T, Error>)
        requires
            old(self).wf(),
        ensures
            final(self).wf(),
            final(self).input() == old(self).input(),
            old(self).cursor() <= final(self).cursor(),
            match T::at(old(self).input(), old(self).cursor()) {
                Parsed::Done { value: expected, next } => {
                    &&& value is Ok
                    &&& value->Ok_0.model() == expected
                    &&& final(self).cursor() == next
                },
                Parsed::Failed { error, next } => {
                    &&& value is Err
                    &&& value->Err_0@ == error
                    &&& final(self).cursor() == next
                },
            },
    {
        T::parse(self)
    }

    /// Tries the grammar rule of `T` at the cursor. Where the rule fails,
    /// the cursor is put back where it was.
    pub fn try_parse<T: Parse>(&mut self) -> (value: Option<T>)
        requires
            old(self).wf(),
        ensures
            match T::at(old(self).input(), old(self).cursor()) {
                Parsed::Done { value: expected, next } => {
                    &&& value is Some
                    &&& value->0.model() == expected
                    &&& final(self).moved(old(self), next)
                    &&& old(self).cursor() <= next
                },
                Parsed::Failed { error, next } => {
                    &&& value is None
                    &&& final(self).moved(old(self), old(self).cursor())
                },
            },
    {
        let index: usize = self.index;
        match T::parse(self) {
            Ok(value) => Some(value),
            Err(_) => {
                self.index = index;
                None
            },
        }
    }

    /// Runs the grammar rule of `T` and returns the value with the span
    /// from the token at the cursor before to the token at the cursor after.
    pub fn parse_spanned<T: Parse>(&mut self) -> (value: Result<(T, Span), Error>)
        requires
            old(self).wf(),
        ensures
            final(self).wf(),
            final(self).input() == old(self).input(),
            old(self).cursor() <= final(self).cursor(),
            match T::at(old(self).input(), old(self).cursor()) {
                Parsed::Done { value: expected, next } => {
                    &&& value is Ok
                    &&& value->Ok_0.0.model() == expected
                    &&& value->Ok_0.1 == old(self).input().span_at(old(self).cursor()).with_spec(
                        old(self).input().span_at(next),
                    )
                    &&& final(self).cursor() == next
                },
                Parsed::Failed { error, next } => {
                    &&& value is Err
                    &&& value->Err_0@ == error
                    &&& final(self).cursor() == next
                },
            },
    {
        let start = self.span();
        match T::parse(self) {
            Ok(value) => {
                let end = self.span();
                Ok((value, start.with(end)))
            },
            Err(error) => Err(error),
        }
    }

    /// Tries the grammar rule of `T` and returns the value with the span
    /// from the token at the cursor before to the token at the cursor
    /// after. Where the rule fails, the cursor is put back where it was.
    pub fn try_parse_spanned<T: Parse>(&mut self) -> (value: Option<(T, Span)>)
        requires
            old(self).wf(),
        ensures
            match T::at(old(self).input(), old(self).cursor()) {
                Parsed::Done { value: expected, next } => {
                    &&& value is Some
                    &&& value.unwrap().0.model() == expected
                    &&& value.unwrap().1 == old(self).input().span_at(old(self).cursor()).with_spec(
                        old(self).input().span_at(next),
                    )
                    &&& final(self).moved(old(self), next)
                    &&& old(self).cursor() <= next
                },
                Parsed::Failed { error, next } => {
                    &&& value is None
                    &&& final(self).moved(old(self), old(self).cursor())
                },
            },
    {
        let start = self.span();
        match self.try_parse::<T>() {
            Some(value) => {
                let end = self.span();
                Some((value, start.with(end)))
            },
            None => None,
        }
    }

    /// Reads values of `T` separated by commas, up to and including the
    /// terminator. A comma may stand before the terminator.
    pub fn parse_list<T: Parse>(&mut self, terminator: &TokenKind) -> (list: Result<
        Vec<T>,
        Error,
    >)
        requires
            old(self).wf(),
        ensures
            final(self).wf(),
            final(self).input() == old(self).input(),
            old(self).cursor() <= final(self).cursor(),
            match list_at::<T>(old(self).input(), old(self).cursor(), terminator@) {
                Parsed::Done { value: expected, next } => {
                    &&& list is Ok
                    &&& models(list->Ok_0@) == expected
                    &&& final(self).cursor() == next
                },
                Parsed::Failed { error, next } => {
                    &&& list is Err
                    &&& list->Err_0@ == error
                    &&& final(self).cursor() == next
                },
            },
    {
        let mut list: Vec<T> = Vec::new();
        let ghost input = self.input();
        let ghost start = self.cursor();
        let ghost end = terminator@;
        proof {
            assert(models(list@) =~= Seq::<T::Model>::empty());
            lemma_prepend_twice(models(list@), models(list@), list_at::<T>(input, start, end));
        }
        loop
            invariant_except_break
                list_at::<T>(input, start, end) == prepend(
                    models(list@),
                    list_at::<T>(input, self.cursor(), end),
                ),
            invariant
                self.wf(),
                self.input() == input,
                input == old(self).input(),
                start == old(self).cursor(),
                end == terminator@,
                start <= self.cursor(),
            ensures
                list_at::<T>(input, start, end) == (Parsed::Done {
                    value: models(list@),
                    next: self.cursor(),
                }),
            decreases input.tokens.len() - self.cursor(),
        {
            proof {
                self.lemma_wf();
            }
            let ghost here = self.cursor();
            let ghost before = models(list@);
            if self.next_is(terminator.clone()) {
                proof {
                    assert(before + Seq::<T::Model>::empty() =~= before);
                }
                break ;
            }
            let item = match T::parse(self) {
                Ok(item) => item,
                Err(error) => {
                    return Err(error);
                },
            };
            let ghost after = self.cursor();
            list.push(item);
            proof {
                assert(models(list@) =~= before + seq![item.model()]);
                self.lemma_wf();
            }
            if self.next_is(terminator.clone()) {
                break ;
            }
            match self.expect(Symbol::Comma) {
                Ok(_) => {},
                Err(error) => {
                    return Err(error);
                },
            }
            proof {
                lemma_prepend_twice(
                    before,
                    seq![item.model()],
                    list_at::<T>(input, after + 1, end),
                );
            }
        }
        Ok(list)
    }
}

impl Parse for Ident {
    type Model = IdentView;

    open spec fn model(&self) -> IdentView {
        self@
    }

    open spec fn at(input: Input, pos: int) -> Parsed<IdentView> {
        input.ident_at(pos)
    }

    fn parse(parser: &mut Parser) -> (value: Result<Ident, Error>) {
        let token = match parser.next() {
            Ok(token) => token,
            Err(error) => {
                return Err(error);
            },
        };
        match &token.kind {
            TokenKind::Ident(name) => Ok(Ident::new(name.as_str(), token.span)),
            _ => Err(Error::new("expected identifier").with_span(token.span)),
        }
    }
}

} // verus!
