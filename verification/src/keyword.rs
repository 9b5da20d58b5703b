//! The reserved words of the language.

use vstd::prelude::*;

verus! {

/// `str::eq` of the standard library: two string slices are equal exactly
/// when they hold the same characters in the same order.
pub assume_specification[ <str as PartialEq>::eq ](a: &str, b: &str) -> (r: bool)
    ensures
        r == (a@ == b@),
;

#[derive(Clone, Copy, Debug, PartialEq, Eq, Hash, Structural)]
pub enum Keyword {
    As,
    Break,
    Class,
    Const,
    Continue,
    Else,
    Enum,
    False,
    Fn,
    For,
    If,
    In,
    Let,
    Loop,
    Match,
    Pub,
    Return,
    Self_,
    Static,
    Super,
}

impl Keyword {
    /// The spelling of the keyword in source text.
    pub open spec fn text(self) -> Seq<char> {
        match self {
            Keyword::As => "as"@,
            Keyword::Break => "break"@,
            Keyword::Class => "class"@,
            Keyword::Const => "const"@,
            Keyword::Continue => "continue"@,
            Keyword::Else => "else"@,
            Keyword::Enum => "enum"@,
            Keyword::False => "false"@,
            Keyword::Fn => "fn"@,
            Keyword::For => "for"@,
            Keyword::If => "if"@,
            Keyword::In => "in"@,
            Keyword::Let => "let"@,
            Keyword::Loop => "loop"@,
            Keyword::Match => "match"@,
            Keyword::Pub => "pub"@,
            Keyword::Return => "return"@,
            Keyword::Self_ => "self"@,
            Keyword::Static => "static"@,
            Keyword::Super => "super"@,
        }
    }

    /// The keyword spelled by `s`, if `s` spells one.
    pub open spec fn from_text(s: Seq<char>) -> Option<Keyword> {
        if s == "as"@ {
            Some(Keyword::As)
        } else if s == "break"@ {
            Some(Keyword::Break)
        } else if s == "class"@ {
            Some(Keyword::Class)
        } else if s == "const"@ {
            Some(Keyword::Const)
        } else if s == "continue"@ {
            Some(Keyword::Continue)
        } else if s == "else"@ {
            Some(Keyword::Else)
        } else if s == "enum"@ {
            Some(Keyword::Enum)
        } else if s == "false"@ {
            Some(Keyword::False)
        } else if s == "fn"@ {
            Some(Keyword::Fn)
        } else if s == "for"@ {
            Some(Keyword::For)
        } else if s == "if"@ {
            Some(Keyword::If)
        } else if s == "in"@ {
            Some(Keyword::In)
        } else if s == "let"@ {
            Some(Keyword::Let)
        } else if s == "loop"@ {
            Some(Keyword::Loop)
        } else if s == "match"@ {
            Some(Keyword::Match)
        } else if s == "pub"@ {
            Some(Keyword::Pub)
        } else if s == "return"@ {
            Some(Keyword::Return)
        } else if s == "self"@ {
            Some(Keyword::Self_)
        } else if s == "static"@ {
            Some(Keyword::Static)
        } else if s == "super"@ {
            Some(Keyword::Super)
        } else {
            None
        }
    }

    pub fn as_str(&self) -> (s: &'static str)
        ensures
            s@ == self.text(),
    {
        match self {
            Keyword::As => "as",
            Keyword::Break => "break",
            Keyword::Class => "class",
            Keyword::Const => "const",
            Keyword::Continue => "continue",
            Keyword::Else => "else",
            Keyword::Enum => "enum",
            Keyword::False => "false",
            Keyword::Fn => "fn",
            Keyword::For => "for",
            Keyword::If => "if",
            Keyword::In => "in",
            Keyword::Let => "let",
            Keyword::Loop => "loop",
            Keyword::Match => "match",
            Keyword::Pub => "pub",
            Keyword::Return => "return",
            Keyword::Self_ => "self",
            Keyword::Static => "static",
            Keyword::Super => "super",
        }
    }

    /// The keyword's spelling as an owned string.
    pub fn to_string(&self) -> (s: String)
        ensures
            s@ == self.text(),
    {
        self.as_str().to_owned()
    }

    /// Looks `s` up in the keyword table.
    pub fn from_str(s: &str) -> (found: Option<Keyword>)
        ensures
            found == Keyword::from_text(s@),
    {
        if s.eq("as") {
            Some(Keyword::As)
        } else if s.eq("break") {
            Some(Keyword::Break)
        } else if s.eq("class") {
            Some(Keyword::Class)
        } else if s.eq("const") {
            Some(Keyword::Const)
        } else if s.eq("continue") {
            Some(Keyword::Continue)
        } else if s.eq("else") {
            Some(Keyword::Else)
        } else if s.eq("enum") {
            Some(Keyword::Enum)
        } else if s.eq("false") {
            Some(Keyword::False)
        } else if s.eq("fn") {
            Some(Keyword::Fn)
        } else if s.eq("for") {
            Some(Keyword::For)
        } else if s.eq("if") {
            Some(Keyword::If)
        } else if s.eq("in") {
            Some(Keyword::In)
        } else if s.eq("let") {
            Some(Keyword::Let)
        } else if s.eq("loop") {
            Some(Keyword::Loop)
        } else if s.eq("match") {
            Some(Keyword::Match)
        } else if s.eq("pub") {
            Some(Keyword::Pub)
        } else if s.eq("return") {
            Some(Keyword::Return)
        } else if s.eq("self") {
            Some(Keyword::Self_)
        } else if s.eq("static") {
            Some(Keyword::Static)
        } else if s.eq("super") {
            Some(Keyword::Super)
        } else {
            None
        }
    }
}

/// Makes the characters of every keyword spelling known to the verifier.
pub proof fn reveal_keyword_texts()
    ensures
        "as"@ =~= seq!['a', 's'],
        "break"@ =~= seq!['b', 'r', 'e', 'a', 'k'],
        "class"@ =~= seq!['c', 'l', 'a', 's', 's'],
        "const"@ =~= seq!['c', 'o', 'n', 's', 't'],
        "continue"@ =~= seq!['c', 'o', 'n', 't', 'i', 'n', 'u', 'e'],
        "else"@ =~= seq!['e', 'l', 's', 'e'],
        "enum"@ =~= seq!['e', 'n', 'u', 'm'],
        "false"@ =~= seq!['f', 'a', 'l', 's', 'e'],
        "fn"@ =~= seq!['f', 'n'],
        "for"@ =~= seq!['f', 'o', 'r'],
        "if"@ =~= seq!['i', 'f'],
        "in"@ =~= seq!['i', 'n'],
        "let"@ =~= seq!['l', 'e', 't'],
        "loop"@ =~= seq!['l', 'o', 'o', 'p'],
        "match"@ =~= seq!['m', 'a', 't', 'c', 'h'],
        "pub"@ =~= seq!['p', 'u', 'b'],
        "return"@ =~= seq!['r', 'e', 't', 'u', 'r', 'n'],
        "self"@ =~= seq!['s', 'e', 'l', 'f'],
        "static"@ =~= seq!['s', 't', 'a', 't', 'i', 'c'],
        "super"@ =~= seq!['s', 'u', 'p', 'e', 'r'],
{
    reveal_strlit("as");
    reveal_strlit("break");
    reveal_strlit("class");
    reveal_strlit("const");
    reveal_strlit("continue");
    reveal_strlit("else");
    reveal_strlit("enum");
    reveal_strlit("false");
    reveal_strlit("fn");
    reveal_strlit("for");
    reveal_strlit("if");
    reveal_strlit("in");
    reveal_strlit("let");
    reveal_strlit("loop");
    reveal_strlit("match");
    reveal_strlit("pub");
    reveal_strlit("return");
    reveal_strlit("self");
    reveal_strlit("static");
    reveal_strlit("super");
}

/// Looking up the spelling of a keyword gives that keyword back.
pub proof fn lemma_keyword_round_trip(k: Keyword)
    ensures
        Keyword::from_text(k.text()) == Some(k),
{
    reveal_keyword_texts();
}

/// Only a keyword's own spelling is looked up as that keyword.
pub proof fn lemma_keyword_lookup_is_spelling(s: Seq<char>, k: Keyword)
    requires
        Keyword::from_text(s) == Some(k),
    ensures
        s == k.text(),
{
}

} // verus!
