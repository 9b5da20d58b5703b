//! The lexer: cuts a source text into tokens, one per call.

use vstd::prelude::*;
use vstd::string::*;
use vstd::utf8::*;
use crate::chars::{
    byte_offset, digit_spec, is_ident_part, is_ident_start, is_whitespace_spec,
    lemma_byte_offset_is_boundary, lemma_byte_offset_monotonic, lemma_byte_offset_step, len_utf8,
    to_digit, utf8_width,
};
use crate::error::{Error, ErrorView};
use crate::keyword::Keyword;
use crate::sources::{Source, SourceId};
use crate::span::Span;
use crate::symbol::Symbol;
use crate::text::{decimal_string, decimal_text};
use crate::token::{Token, TokenKind, TokenKindView, TokenView};

verus! {

/// Position after the whitespace that starts at `pos`.
pub open spec fn whitespace_end(text: Seq<char>, pos: int) -> int
    decreases text.len() - pos,
{
    if 0 <= pos < text.len() && is_whitespace_spec(text[pos]) {
        whitespace_end(text, pos + 1)
    } else {
        pos
    }
}

/// Position after the longest run of identifier characters that starts at `pos`.
pub open spec fn ident_end(text: Seq<char>, pos: int) -> int
    decreases text.len() - pos,
{
    if 0 <= pos < text.len() && is_ident_part(text[pos]) {
        ident_end(text, pos + 1)
    } else {
        pos
    }
}

/// Position after the longest run of digits of the given radix that starts at `pos`.
pub open spec fn digits_end(text: Seq<char>, pos: int, radix: u32) -> int
    decreases text.len() - pos,
{
    if 0 <= pos < text.len() && digit_spec(text[pos], radix) is Some {
        digits_end(text, pos + 1, radix)
    } else {
        pos
    }
}

/// The number written by the digits of `text` from `from` up to `to`, most
/// significant first, in 64-bit arithmetic that wraps around on overflow.
pub open spec fn digits_value(text: Seq<char>, from: int, to: int, radix: u32) -> u64
    decreases to - from,
{
    if to <= from {
        0
    } else {
        digits_value(text, from, to - 1, radix).wrapping_mul(radix as u64).wrapping_add(
            digit_spec(text[to - 1], radix).unwrap() as u64,
        )
    }
}

/// What one call of the lexer makes of a text.
pub ghost enum Lexed {
    /// A token of kind `kind`, read from the characters from `start` up to `end`.
    Token { kind: TokenKindView, start: int, end: int },
    /// A finding with the given title, pinned to the characters from `from` up to `to`.
    Failure { title: Seq<char>, from: int, to: int },
}

/// Title of the finding for a number without digits.
pub open spec fn no_digit_title(radix: u32) -> Seq<char> {
    "expected at least one digit in base "@ + decimal_text(radix as nat) + " integer"@
}

/// Title of the finding for a character that starts no token.
pub open spec fn invalid_character_title(c: char) -> Seq<char> {
    "invalid character '"@.push(c) + "'"@
}

/// Title of the finding for a token that is wanted past the end.
pub open spec fn end_of_file_title() -> Seq<char> {
    "unexpected end of file"@
}

/// The radix that the marker at `pos` selects: 16 for `0x`, 8 for `0o`, 2
/// for `0b`, and 10 where there is no marker.
pub open spec fn radix_at(text: Seq<char>, pos: int) -> u32 {
    if pos + 2 <= text.len() && text[pos] == '0' && text[pos + 1] == 'x' {
        16
    } else if pos + 2 <= text.len() && text[pos] == '0' && text[pos + 1] == 'o' {
        8
    } else if pos + 2 <= text.len() && text[pos] == '0' && text[pos + 1] == 'b' {
        2
    } else {
        10
    }
}

/// A run of digits read at `pos` in the given radix: its value and its end,
/// or a finding where no digit stands at `pos`.
pub open spec fn integer_at(text: Seq<char>, pos: int, radix: u32) -> Lexed {
    let end = digits_end(text, pos, radix);
    if end == pos {
        Lexed::Failure { title: no_digit_title(radix), from: pos, to: pos }
    } else {
        Lexed::Token {
            kind: TokenKindView::Integer(digits_value(text, pos, end, radix)),
            start: pos,
            end,
        }
    }
}

/// The numeric literal at `pos`: an optional radix marker, a run of at least
/// one digit and, in decimal, an optional point with at least one more
/// digit. A literal that starts with the point is a decimal number whose
/// whole part is zero.
pub open spec fn number_at(text: Seq<char>, pos: int) -> Lexed {
    let radix = radix_at(text, pos);
    let first = if radix == 10 {
        pos
    } else {
        pos + 2
    };
    let end = digits_end(text, first, radix);
    if 0 <= pos < text.len() && text[pos] == '.' {
        let last = digits_end(text, pos + 1, 10);
        if last == pos + 1 {
            Lexed::Failure { title: no_digit_title(10), from: pos + 1, to: pos + 1 }
        } else {
            Lexed::Token {
                kind: TokenKindView::Decimal {
                    whole: 0,
                    fraction: digits_value(text, pos + 1, last, 10),
                },
                start: pos,
                end: last,
            }
        }
    } else if end == first {
        Lexed::Failure { title: no_digit_title(radix), from: first, to: first }
    } else if radix == 10 && end < text.len() && text[end] == '.' {
        let last = digits_end(text, end + 1, 10);
        if last == end + 1 {
            Lexed::Failure { title: no_digit_title(10), from: end + 1, to: end + 1 }
        } else {
            Lexed::Token {
                kind: TokenKindView::Decimal {
                    whole: digits_value(text, first, end, 10),
                    fraction: digits_value(text, end + 1, last, 10),
                },
                start: pos,
                end: last,
            }
        }
    } else {
        Lexed::Token {
            kind: TokenKindView::Integer(digits_value(text, first, end, radix)),
            start: pos,
            end,
        }
    }
}

/// The character after position `pos`, if there is one.
pub open spec fn char_after(text: Seq<char>, pos: int) -> Option<char> {
    if 0 <= pos + 1 < text.len() {
        Some(text[pos + 1])
    } else {
        None
    }
}

/// The symbol at `pos`, the longest that matches, or a finding pinned to
/// the one character at `pos` where none does.
pub open spec fn symbol_at(text: Seq<char>, pos: int) -> Lexed {
    match Symbol::from_parts_spec(text[pos], char_after(text, pos)) {
        Some(symbol) => Lexed::Token {
            kind: TokenKindView::Symbol(symbol),
            start: pos,
            end: pos + if symbol.is_double() {
                2int
            } else {
                1int
            },
        },
        None => Lexed::Failure {
            title: invalid_character_title(text[pos]),
            from: pos,
            to: pos + 1,
        },
    }
}

/// The word at `pos`: its first character and the identifier characters
/// that follow, as a keyword where it spells one and as an identifier otherwise.
pub open spec fn word_at(text: Seq<char>, pos: int) -> Lexed {
    let end = ident_end(text, pos + 1);
    let name = text.subrange(pos, end);
    match Keyword::from_text(name) {
        Some(keyword) => Lexed::Token { kind: TokenKindView::Keyword(keyword), start: pos, end },
        None => Lexed::Token { kind: TokenKindView::Ident(name), start: pos, end },
    }
}

/// Whether a numeric literal starts at `pos`: with a decimal digit, or with
/// a point that a decimal digit follows.
pub open spec fn starts_number(text: Seq<char>, pos: int) -> bool {
    digit_spec(text[pos], 10) is Some || (text[pos] == '.' && pos + 1 < text.len() && digit_spec(
        text[pos + 1],
        10,
    ) is Some)
}

/// The token that starts at `pos`, where a character stands at `pos`.
pub open spec fn kind_at(text: Seq<char>, pos: int) -> Lexed {
    if is_ident_start(text[pos]) {
        word_at(text, pos)
    } else if starts_number(text, pos) {
        number_at(text, pos)
    } else {
        symbol_at(text, pos)
    }
}

/// The next token at or after `pos`: whitespace is skipped first.
pub open spec fn token_at(text: Seq<char>, pos: int) -> Lexed {
    let start = whitespace_end(text, pos);
    if start >= text.len() {
        Lexed::Failure { title: end_of_file_title(), from: start, to: start }
    } else {
        kind_at(text, start)
    }
}

/// The bytes that the characters from `from` up to `to` take in the text.
pub open spec fn span_of(text: Seq<char>, from: int, to: int, source: SourceId) -> Span {
    Span {
        index: byte_offset(text, from) as usize,
        length: (byte_offset(text, to) - byte_offset(text, from)) as usize,
        source,
    }
}

/// The run of whitespace from `pos` ends inside the text, holds whitespace
/// only, and is not followed by whitespace.
pub proof fn lemma_whitespace_end(text: Seq<char>, pos: int)
    requires
        0 <= pos <= text.len(),
    ensures
        pos <= whitespace_end(text, pos) <= text.len(),
        forall|i: int| pos <= i < whitespace_end(text, pos) ==> is_whitespace_spec(text[i]),
        whitespace_end(text, pos) < text.len() ==> !is_whitespace_spec(
            text[whitespace_end(text, pos)],
        ),
    decreases text.len() - pos,
{
    if pos < text.len() && is_whitespace_spec(text[pos]) {
        lemma_whitespace_end(text, pos + 1);
    }
}

/// The run of identifier characters from `pos` ends inside the text, holds
/// identifier characters only, and is not followed by one.
pub proof fn lemma_ident_end(text: Seq<char>, pos: int)
    requires
        0 <= pos <= text.len(),
    ensures
        pos <= ident_end(text, pos) <= text.len(),
        forall|i: int| pos <= i < ident_end(text, pos) ==> is_ident_part(text[i]),
        ident_end(text, pos) < text.len() ==> !is_ident_part(text[ident_end(text, pos)]),
    decreases text.len() - pos,
{
    if pos < text.len() && is_ident_part(text[pos]) {
        lemma_ident_end(text, pos + 1);
    }
}

/// The run of digits from `pos` ends inside the text, holds digits of the
/// radix only, and is not followed by one.
pub proof fn lemma_digits_end(text: Seq<char>, pos: int, radix: u32)
    requires
        0 <= pos <= text.len(),
    ensures
        pos <= digits_end(text, pos, radix) <= text.len(),
        forall|i: int|
            pos <= i < digits_end(text, pos, radix) ==> digit_spec(text[i], radix) is Some,
        digits_end(text, pos, radix) < text.len() ==> digit_spec(
            text[digits_end(text, pos, radix)],
            radix,
        ) is None,
    decreases text.len() - pos,
{
    if pos < text.len() && digit_spec(text[pos], radix) is Some {
        lemma_digits_end(text, pos + 1, radix);
    }
}

/// A token is never empty and ends inside the text; a finding is pinned
/// inside the text.
pub proof fn lemma_kind_at_bounds(text: Seq<char>, pos: int)
    requires
        0 <= pos < text.len(),
    ensures
        match kind_at(text, pos) {
            Lexed::Token { kind, start, end } => start == pos && pos < end <= text.len(),
            Lexed::Failure { title, from, to } => pos <= from <= to <= text.len(),
        },
{
    lemma_ident_end(text, pos + 1);
    lemma_digits_end(text, pos, 10);
    if pos + 2 <= text.len() {
        lemma_digits_end(text, pos + 2, 16);
        lemma_digits_end(text, pos + 2, 8);
        lemma_digits_end(text, pos + 2, 2);
    }
    let end = digits_end(text, pos, 10);
    if end + 1 <= text.len() {
        lemma_digits_end(text, end + 1, 10);
    }
}

/// The bytes of a run of characters of a source can be located in that
/// source: they lie inside its text and between characters.
pub proof fn lemma_span_of_is_covered(source: &Source, from: int, to: int, id: SourceId)
    requires
        0 <= from <= to <= source.text().len(),
        source.bytes().len() < usize::MAX,
    ensures
        span_of(source.text(), from, to, id).wf(),
        source.covers_spec(span_of(source.text(), from, to, id)),
{
    let text = source.text();
    lemma_byte_offset_monotonic(text, from, to);
    lemma_byte_offset_monotonic(text, 0, from);
    lemma_byte_offset_is_boundary(text, from);
    lemma_byte_offset_is_boundary(text, to);
}

/// The finding that the lexer reports for a failure: the title, no notes,
/// and the bytes of the characters it is pinned to.
pub open spec fn failure_view(
    text: Seq<char>,
    source: SourceId,
    title: Seq<char>,
    from: int,
    to: int,
) -> ErrorView {
    ErrorView { title, notes: Seq::empty(), span: span_of(text, from, to, source) }
}

/// A cursor over the characters of one source text.
pub struct Lexer {
    chars: Vec<char>,
    source_id: SourceId,
    position: usize,
    index: usize,
}

impl Lexer {
    /// The characters of the text.
    pub closed spec fn text(&self) -> Seq<char> {
        self.chars@
    }

    /// Number of characters before the cursor.
    pub closed spec fn position(&self) -> int {
        self.position as int
    }

    /// Identity of the text, which every span carries.
    pub closed spec fn source_id(&self) -> SourceId {
        self.source_id
    }

    /// Number of bytes before the cursor.
    pub closed spec fn byte_index(&self) -> int {
        self.index as int
    }

    /// The cursor is inside the text, the byte count matches it, and the
    /// encoded text fits in memory.
    pub closed spec fn wf(&self) -> bool {
        &&& self.position <= self.chars@.len()
        &&& self.index == byte_offset(self.chars@, self.position as int)
        &&& encode_utf8(self.chars@).len() <= usize::MAX
    }

    /// The same lexer as `before`, with the cursor at `position`.
    pub open spec fn moved(&self, before: &Lexer, position: int) -> bool {
        &&& self.wf()
        &&& self.text() == before.text()
        &&& self.source_id() == before.source_id()
        &&& self.position() == position
    }

    /// The characters after the cursor.
    pub open spec fn rest(&self) -> Seq<char> {
        self.text().subrange(self.position(), self.text().len() as int)
    }

    pub proof fn lemma_wf(&self)
        requires
            self.wf(),
        ensures
            0 <= self.position() <= self.text().len(),
            self.byte_index() == byte_offset(self.text(), self.position()),
            encode_utf8(self.text()).len() <= usize::MAX,
    {
    }

    /// A lexer at the start of `source`.
    pub fn new(source: &Source, source_id: SourceId) -> (lexer: Lexer)
        ensures
            lexer.wf(),
            lexer.text() == source.text(),
            lexer.source_id() == source_id,
            lexer.position() == 0,
    {
        let text = source.source();
        let mut chars: Vec<char> = Vec::new();
        for c in it: text.chars()
            invariant
                chars@ == it.seq().take(it.index()),
        {
            chars.push(c);
        }
        let bytes = text.as_bytes();
        let len: usize = bytes.len();
        proof {
            assert(chars@ == text@);
            assert(bytes@ == encode_utf8(text@));
            assert(bytes@.len() <= usize::MAX);
            lemma_byte_offset_monotonic(chars@, 0, 0);
        }
        Lexer { chars, source_id, position: 0, index: 0 }
    }

    pub fn is_empty(&self) -> (empty: bool)
        requires
            self.wf(),
        ensures
            empty == (self.position() == self.text().len()),
    {
        self.position == self.chars.len()
    }

    /// The characters that are still to be read.
    pub fn remaining(&self) -> (rest: &[char])
        requires
            self.wf(),
        ensures
            rest@ == self.rest(),
    {
        vstd::slice::slice_subrange(self.chars.as_slice(), self.position, self.chars.len())
    }

    /// Byte offset of the cursor.
    pub fn index(&self) -> (index: usize)
        requires
            self.wf(),
        ensures
            index == byte_offset(self.text(), self.position()),
    {
        self.index
    }

    /// The span from byte offset `start` up to the cursor.
    pub fn span(&self, start: usize) -> (span: Span)
        requires
            self.wf(),
            start <= byte_offset(self.text(), self.position()),
        ensures
            span == (Span {
                index: start,
                length: (byte_offset(self.text(), self.position()) - start) as usize,
                source: self.source_id(),
            }),
            span.wf(),
    {
        Span::new(start, self.index - start, self.source_id)
    }

    /// Reads one character.
    pub fn next(&mut self) -> (c: Option<char>)
        requires
            old(self).wf(),
        ensures
            c == if old(self).position() < old(self).text().len() {
                Some(old(self).text()[old(self).position()])
            } else {
                None
            },
            final(self).moved(
                old(self),
                if c is Some {
                    old(self).position() + 1
                } else {
                    old(self).position()
                },
            ),
    {
        if self.position < self.chars.len() {
            let c = self.chars[self.position];
            proof {
                lemma_byte_offset_step(self.chars@, self.position as int);
                lemma_byte_offset_monotonic(
                    self.chars@,
                    self.position + 1,
                    self.chars@.len() as int,
                );
            }
            self.index = self.index + len_utf8(c);
            self.position = self.position + 1;
            Some(c)
        } else {
            None
        }
    }

    /// The character under the cursor.
    pub fn peek(&self) -> (c: Option<char>)
        requires
            self.wf(),
        ensures
            c == if self.position() < self.text().len() {
                Some(self.text()[self.position()])
            } else {
                None
            },
    {
        if self.position < self.chars.len() {
            Some(self.chars[self.position])
        } else {
            None
        }
    }

    /// The character `n` places after the cursor.
    pub fn peek_nth(&self, n: usize) -> (c: Option<char>)
        requires
            self.wf(),
        ensures
            c == if self.position() + n < self.text().len() {
                Some(self.text()[self.position() + n])
            } else {
                None
            },
    {
        if n < self.chars.len() - self.position {
            Some(self.chars[self.position + n])
        } else {
            None
        }
    }

    /// Reads two characters, or as many as are left.
    pub fn take2(&mut self)
        requires
            old(self).wf(),
        ensures
            final(self).moved(
                old(self),
                if old(self).position() + 2 <= old(self).text().len() {
                    old(self).position() + 2
                } else {
                    old(self).text().len() as int
                },
            ),
    {
        self.next();
        self.next();
    }

    /// Skips the whitespace under the cursor and returns how many characters it skipped.
    pub fn take_whitespace(&mut self) -> (skipped: usize)
        requires
            old(self).wf(),
        ensures
            final(self).moved(old(self), whitespace_end(old(self).text(), old(self).position())),
            skipped == final(self).position() - old(self).position(),
    {
        let start: usize = self.position;
        while self.position < self.chars.len() && self.chars[self.position].is_whitespace()
            invariant
                self.moved(old(self), self.position as int),
                start <= self.position <= self.chars@.len(),
                start == old(self).position,
                whitespace_end(self.chars@, self.position as int) == whitespace_end(
                    self.chars@,
                    start as int,
                ),
            decreases self.chars@.len() - self.position,
        {
            self.next();
        }
        self.position - start
    }

    fn failure(&self, title: &str, width: usize) -> (e: Error)
        requires
            self.wf(),
            width == 0 || (self.position() < self.text().len() && width == utf8_width(
                self.text()[self.position()],
            )),
        ensures
            e@ == failure_view(
                self.text(),
                self.source_id(),
                title@,
                self.position(),
                if width == 0 {
                    self.position()
                } else {
                    self.position() + 1
                },
            ),
    {
        proof {
            if width != 0 {
                lemma_byte_offset_step(self.chars@, self.position as int);
            }
        }
        Error::new(title).with_span(Span::new(self.index, width, self.source_id))
    }

    /// Reads a run of digits of the given radix and returns its value.
    /// The value wraps around where it does not fit in 64 bits.
    pub fn lex_integer(&mut self, radix: u32) -> (value: Result<u64, Error>)
        requires
            old(self).wf(),
            2 <= radix <= 36,
        ensures
            match integer_at(old(self).text(), old(self).position(), radix) {
                Lexed::Token { kind, start, end } => {
                    &&& value is Ok
                    &&& kind == TokenKindView::Integer(value->Ok_0)
                    &&& final(self).moved(old(self), end)
                },
                Lexed::Failure { title, from, to } => {
                    &&& value is Err
                    &&& value->Err_0@ == failure_view(
                        old(self).text(),
                        old(self).source_id(),
                        title,
                        from,
                        to,
                    )
                    &&& final(self).moved(old(self), from)
                },
            },
    {
        let start: usize = self.position;
        let mut value: u64 = 0;
        loop
            invariant
                2 <= radix <= 36,
                self.moved(old(self), self.position as int),
                start == old(self).position,
                start <= self.position <= self.chars@.len(),
                digits_end(self.chars@, self.position as int, radix) == digits_end(
                    self.chars@,
                    start as int,
                    radix,
                ),
                value == digits_value(self.chars@, start as int, self.position as int, radix),
            ensures
                self.moved(old(self), digits_end(self.chars@, start as int, radix)),
                value == digits_value(self.chars@, start as int, self.position as int, radix),
                start == old(self).position,
            decreases self.chars@.len() - self.position,
        {
            if self.position >= self.chars.len() {
                break ;
            }
            match to_digit(self.chars[self.position], radix) {
                Some(digit) => {
                    value = value.wrapping_mul(radix as u64).wrapping_add(digit as u64);
                    self.next();
                },
                None => {
                    break ;
                },
            }
        }
        if self.position == start {
            let mut title = "expected at least one digit in base ".to_owned();
            let number = decimal_string(radix as u128);
            title.append(number.as_str());
            title.append(" integer");
            Err(self.failure(title.as_str(), 0))
        } else {
            Ok(value)
        }
    }

    /// Reads a numeric literal.
    pub fn lex_number(&mut self) -> (kind: Result<TokenKind, Error>)
        requires
            old(self).wf(),
        ensures
            match number_at(old(self).text(), old(self).position()) {
                Lexed::Token { kind: expected, start, end } => {
                    &&& kind is Ok
                    &&& kind->Ok_0@ == expected
                    &&& final(self).moved(old(self), end)
                },
                Lexed::Failure { title, from, to } => {
                    &&& kind is Err
                    &&& kind->Err_0@ == failure_view(
                        old(self).text(),
                        old(self).source_id(),
                        title,
                        from,
                        to,
                    )
                    &&& final(self).moved(old(self), from)
                },
            },
    {
        if self.peek() == Some('.') {
            self.next();
            return match self.lex_integer(10) {
                Ok(fraction) => Ok(TokenKind::Decimal { whole: 0, fraction }),
                Err(e) => Err(e),
            };
        }
        let mut radix: u32 = 10;
        if self.peek() == Some('0') {
            let marker = self.peek_nth(1);
            if marker == Some('x') {
                self.take2();
                radix = 16;
            } else if marker == Some('o') {
                self.take2();
                radix = 8;
            } else if marker == Some('b') {
                self.take2();
                radix = 2;
            }
        }
        let whole: u64 = match self.lex_integer(radix) {
            Ok(value) => value,
            Err(e) => {
                return Err(e);
            },
        };
        if radix == 10 && self.peek() == Some('.') {
            self.next();
            match self.lex_integer(10) {
                Ok(fraction) => Ok(TokenKind::Decimal { whole, fraction }),
                Err(e) => Err(e),
            }
        } else {
            Ok(TokenKind::Integer(whole))
        }
    }

    /// Reads the longest run of identifier characters under the cursor.
    pub fn lex_ident(&mut self) -> (name: Result<String, Error>)
        requires
            old(self).wf(),
        ensures
            name is Ok,
            name->Ok_0@ == old(self).text().subrange(
                old(self).position(),
                ident_end(old(self).text(), old(self).position()),
            ),
            final(self).moved(old(self), ident_end(old(self).text(), old(self).position())),
    {
        let start: usize = self.position;
        let mut name = String::new();
        while self.position < self.chars.len() && (self.chars[self.position].is_alphanumeric()
            || self.chars[self.position] == '_')
            invariant
                self.moved(old(self), self.position as int),
                start == old(self).position,
                start <= self.position <= self.chars@.len(),
                ident_end(self.chars@, self.position as int) == ident_end(
                    self.chars@,
                    start as int,
                ),
                name@ == self.chars@.subrange(start as int, self.position as int),
            decreases self.chars@.len() - self.position,
        {
            name.push(self.chars[self.position]);
            proof {
                assert(self.chars@.subrange(start as int, self.position + 1)
                    =~= self.chars@.subrange(start as int, self.position as int).push(
                    self.chars@[self.position as int],
                ));
            }
            self.next();
        }
        Ok(name)
    }

    /// Reads the symbol that starts with `c`, the character under the cursor.
    pub fn lex_symbol(&mut self, c: char) -> (symbol: Result<Symbol, Error>)
        requires
            old(self).wf(),
            old(self).position() < old(self).text().len(),
            c == old(self).text()[old(self).position()],
        ensures
            match symbol_at(old(self).text(), old(self).position()) {
                Lexed::Token { kind, start, end } => {
                    &&& symbol is Ok
                    &&& kind == TokenKindView::Symbol(symbol->Ok_0)
                    &&& final(self).moved(old(self), end)
                },
                Lexed::Failure { title, from, to } => {
                    &&& symbol is Err
                    &&& symbol->Err_0@ == failure_view(
                        old(self).text(),
                        old(self).source_id(),
                        title,
                        from,
                        to,
                    )
                    &&& final(self).moved(old(self), from)
                },
            },
    {
        match Symbol::from_parts(c, self.peek_nth(1)) {
            Some(symbol) => {
                proof {
                    crate::symbol::lemma_symbol_lookup_is_spelling(
                        c,
                        char_after(self.chars@, self.position as int),
                        symbol,
                    );
                }
                self.next();
                if symbol.width() == 2 {
                    self.next();
                }
                Ok(symbol)
            },
            None => {
                let mut title = "invalid character '".to_owned();
                title.push(c);
                title.append("'");
                Err(self.failure(title.as_str(), len_utf8(c)))
            },
        }
    }

    /// Reads the token that starts under the cursor.
    pub fn lex_kind(&mut self) -> (kind: Result<TokenKind, Error>)
        requires
            old(self).wf(),
            old(self).position() < old(self).text().len(),
        ensures
            match kind_at(old(self).text(), old(self).position()) {
                Lexed::Token { kind: expected, start, end } => {
                    &&& kind is Ok
                    &&& kind->Ok_0@ == expected
                    &&& final(self).moved(old(self), end)
                },
                Lexed::Failure { title, from, to } => {
                    &&& kind is Err
                    &&& kind->Err_0@ == failure_view(
                        old(self).text(),
                        old(self).source_id(),
                        title,
                        from,
                        to,
                    )
                    &&& final(self).moved(old(self), from)
                },
            },
    {
        let c = self.chars[self.position];
        if c.is_alphabetic() || c == '_' {
            let mut name = String::new();
            name.push(c);
            self.next();
            let rest = match self.lex_ident() {
                Ok(rest) => rest,
                Err(e) => {
                    return Err(e);
                },
            };
            name.append(rest.as_str());
            proof {
                let text = self.chars@;
                let start = old(self).position();
                let end = ident_end(text, start + 1);
                lemma_ident_end(text, start + 1);
                assert(name@ =~= text.subrange(start, end));
            }
            return match Keyword::from_str(name.as_str()) {
                Some(keyword) => Ok(TokenKind::Keyword(keyword)),
                None => Ok(TokenKind::Ident(name)),
            };
        }
        if to_digit(c, 10).is_some() {
            return self.lex_number();
        }
        if c == '.' {
            match self.peek_nth(1) {
                Some(d) => {
                    if to_digit(d, 10).is_some() {
                        return self.lex_number();
                    }
                },
                None => {},
            }
        }
        match self.lex_symbol(c) {
            Ok(symbol) => Ok(TokenKind::Symbol(symbol)),
            Err(e) => Err(e),
        }
    }

    /// Skips whitespace and reads the next token. The token's span covers
    /// the bytes of the token, without the whitespace before it.
    pub fn lex(&mut self) -> (token: Result<Token, Error>)
        requires
            old(self).wf(),
        ensures
            match token_at(old(self).text(), old(self).position()) {
                Lexed::Token { kind, start, end } => {
                    &&& token is Ok
                    &&& token->Ok_0@ == (TokenView {
                        kind,
                        span: span_of(old(self).text(), start, end, old(self).source_id()),
                    })
                    &&& token->Ok_0.span.wf()
                    &&& final(self).moved(old(self), end)
                    &&& old(self).position() <= start < end
                },
                Lexed::Failure { title, from, to } => {
                    &&& token is Err
                    &&& token->Err_0@ == failure_view(
                        old(self).text(),
                        old(self).source_id(),
                        title,
                        from,
                        to,
                    )
                    &&& final(self).moved(old(self), from)
                },
            },
    {
        self.take_whitespace();
        proof {
            lemma_whitespace_end(old(self).text(), old(self).position());
        }
        if self.is_empty() {
            return Err(self.failure("unexpected end of file", 0));
        }
        let start: usize = self.index;
        let ghost from = self.position();
        proof {
            lemma_kind_at_bounds(self.chars@, from);
        }
        match self.lex_kind() {
            Ok(kind) => {
                proof {
                    lemma_byte_offset_monotonic(self.chars@, from, self.position());
                    lemma_byte_offset_monotonic(
                        self.chars@,
                        self.position(),
                        self.chars@.len() as int,
                    );
                }
                let span = self.span(start);
                Ok(Token::new(kind, span))
            },
            Err(e) => Err(e),
        }
    }
}

} // verus!
