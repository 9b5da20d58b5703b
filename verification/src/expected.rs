//! What a grammar rule would have accepted, for the findings that say so.

use vstd::prelude::*;
use vstd::string::*;
use crate::error::{Error, ErrorView};
use crate::keyword::Keyword;
use crate::symbol::Symbol;
use crate::text::{join, join_spec, texts};
use crate::token::{Token, TokenView};

verus! {

/// One alternative that a rule accepts as its first token.
#[derive(Clone, Copy, Debug, PartialEq, Eq, Structural)]
pub enum Expected {
    Ident,
    Symbol(Symbol),
    Keyword(Keyword),
}

impl Expected {
    /// How the alternative is written in a note: `identifier`, or the
    /// spelling of the symbol or keyword between single quotes.
    pub open spec fn text(self) -> Seq<char> {
        match self {
            Expected::Ident => "identifier"@,
            Expected::Symbol(symbol) => "'"@ + symbol.text() + "'"@,
            Expected::Keyword(keyword) => "'"@ + keyword.text() + "'"@,
        }
    }

    /// How the alternative is written in a note.
    pub fn to_string(&self) -> (text: String)
        ensures
            text@ == self.text(),
    {
        match self {
            Expected::Ident => "identifier".to_owned(),
            Expected::Symbol(symbol) => {
                let mut text = "'".to_owned();
                text.append(symbol.as_str());
                text.append("'");
                text
            },
            Expected::Keyword(keyword) => {
                let mut text = "'".to_owned();
                text.append(keyword.as_str());
                text.append("'");
                text
            },
        }
    }
}

/// The finding for a token that none of the alternatives accepts: it names
/// the token, is pinned to it, and lists the alternatives in one note.
pub open spec fn expected_any_spec(token: TokenView, alternatives: Seq<Expected>) -> ErrorView {
    ErrorView {
        title: "unexpected token '"@ + token.kind.text() + "'"@,
        notes: seq![
            "expected one of the following: "@ + join_spec(
                alternatives.map_values(|e: Expected| e.text()),
                ", "@,
            ),
        ],
        span: token.span,
    }
}

/// Builds the finding for a token that none of the alternatives accepts.
pub fn expected_any(token: &Token, tokens: &[Expected]) -> (error: Error)
    ensures
        error@ == expected_any_spec(token@, tokens@),
{
    let mut strings: Vec<String> = Vec::new();
    let mut i: usize = 0;
    while i < tokens.len()
        invariant
            i <= tokens.len(),
            strings@.len() == i,
            forall|j: int| 0 <= j < i ==> strings@[j]@ == tokens@[j].text(),
        decreases tokens.len() - i,
    {
        strings.push(tokens[i].to_string());
        i += 1;
    }
    proof {
        assert(texts(strings@) =~= tokens@.map_values(|e: Expected| e.text()));
    }
    let mut title = "unexpected token '".to_owned();
    let kind = token.kind.to_string();
    title.append(kind.as_str());
    title.append("'");
    let mut note = "expected one of the following: ".to_owned();
    let list = join(&strings, ", ");
    note.append(list.as_str());
    let error = Error::new(title.as_str()).with_span(token.span).with_note(note.as_str());
    proof {
        assert(error@.notes =~= seq![note@]);
    }
    error
}

} // verus!
