//! Characters: their classes, their digit values, and their width in UTF-8.

use vstd::prelude::*;
use vstd::utf8::*;

verus! {

/// Whether a character has the Unicode property `White_Space`.
pub uninterp spec fn is_whitespace_spec(c: char) -> bool;

/// Whether a character has the Unicode property `Alphabetic`.
pub uninterp spec fn is_alphabetic_spec(c: char) -> bool;

/// Whether a character is alphabetic or numeric in the sense of Unicode.
pub uninterp spec fn is_alphanumeric_spec(c: char) -> bool;

/// `char::is_whitespace` of the standard library: a fixed table lookup that
/// depends on the character alone.
pub assume_specification[ char::is_whitespace ](c: char) -> (r: bool)
    ensures
        r == is_whitespace_spec(c),
;

/// `char::is_alphabetic` of the standard library: a fixed table lookup that
/// depends on the character alone.
pub assume_specification[ char::is_alphabetic ](c: char) -> (r: bool)
    ensures
        r == is_alphabetic_spec(c),
;

/// `char::is_alphanumeric` of the standard library: a fixed table lookup that
/// depends on the character alone.
pub assume_specification[ char::is_alphanumeric ](c: char) -> (r: bool)
    ensures
        r == is_alphanumeric_spec(c),
;

/// `String::push` of the standard library: appends one character at the end.
pub assume_specification[ String::push ](s: &mut String, c: char)
    ensures
        final(s)@ == old(s)@.push(c),
;

/// A character that may start an identifier: a letter or an underscore.
pub open spec fn is_ident_start(c: char) -> bool {
    is_alphabetic_spec(c) || c == '_'
}

/// A character that may continue an identifier: a letter, a number or an underscore.
pub open spec fn is_ident_part(c: char) -> bool {
    is_alphanumeric_spec(c) || c == '_'
}

/// The value of `c` as a digit in the given radix, where it is one: `0` to
/// `9` count as 0 to 9, and the letters `a` to `z`, in either case, as 10 to 35.
pub open spec fn digit_spec(c: char, radix: u32) -> Option<u32> {
    let value: int = if '0' <= c <= '9' {
        c as int - '0' as int
    } else if 'a' <= c <= 'z' {
        c as int - 'a' as int + 10
    } else if 'A' <= c <= 'Z' {
        c as int - 'A' as int + 10
    } else {
        36
    };
    if value < radix {
        Some(value as u32)
    } else {
        None
    }
}

/// The digit value of `c` in the given radix, if it is a digit there.
pub fn to_digit(c: char, radix: u32) -> (digit: Option<u32>)
    requires
        2 <= radix <= 36,
    ensures
        digit == digit_spec(c, radix),
        digit is Some ==> digit->0 < radix,
{
    let code: u32 = c as u32;
    let value: u32 = if '0' <= c && c <= '9' {
        code - 48
    } else if 'a' <= c && c <= 'z' {
        code - 97 + 10
    } else if 'A' <= c && c <= 'Z' {
        code - 65 + 10
    } else {
        36
    };
    if value < radix {
        Some(value)
    } else {
        None
    }
}

/// Number of bytes that `c` takes in UTF-8.
pub open spec fn utf8_width(c: char) -> int {
    encode_scalar(c as u32).len() as int
}

/// Number of bytes that `c` takes in UTF-8: one to four.
pub fn len_utf8(c: char) -> (width: usize)
    ensures
        width == utf8_width(c),
        1 <= width <= 4,
{
    let code: u32 = c as u32;
    if code < 0x80 {
        1
    } else if code < 0x800 {
        2
    } else if code < 0x10000 {
        3
    } else {
        4
    }
}

/// Byte offset of the character at position `pos` of `text`: the length of
/// the UTF-8 encoding of the characters before it.
pub open spec fn byte_offset(text: Seq<char>, pos: int) -> int {
    encode_utf8(text.take(pos)).len() as int
}

/// The encoding of a concatenation is the concatenation of the encodings.
pub proof fn lemma_encode_concat(a: Seq<char>, b: Seq<char>)
    ensures
        encode_utf8(a + b) == encode_utf8(a) + encode_utf8(b),
    decreases a.len(),
{
    if a.len() == 0 {
        assert(a + b =~= b);
        assert(encode_utf8(a) + encode_utf8(b) =~= encode_utf8(b));
    } else {
        lemma_encode_concat(a.drop_first(), b);
        assert((a + b).drop_first() =~= a.drop_first() + b);
        assert(encode_utf8(a + b) =~= encode_utf8(a) + encode_utf8(b));
    }
}

/// Byte offsets grow with positions: by the width of each character passed.
pub proof fn lemma_byte_offset_step(text: Seq<char>, pos: int)
    requires
        0 <= pos < text.len(),
    ensures
        byte_offset(text, pos + 1) == byte_offset(text, pos) + utf8_width(text[pos]),
        1 <= utf8_width(text[pos]) <= 4,
{
    let one = seq![text[pos]];
    assert(text.take(pos + 1) =~= text.take(pos) + one);
    lemma_encode_concat(text.take(pos), one);
    assert(one.drop_first() =~= Seq::<char>::empty());
    assert(encode_utf8(one) =~= encode_scalar(text[pos] as u32)) by {
        reveal_with_fuel(encode_utf8, 2);
    }
}

/// Byte offsets are ordered as positions are, and end at the length of the encoding.
pub proof fn lemma_byte_offset_monotonic(text: Seq<char>, from: int, to: int)
    requires
        0 <= from <= to <= text.len(),
    ensures
        0 <= byte_offset(text, from),
        byte_offset(text, from) + (to - from) <= byte_offset(text, to),
        byte_offset(text, to) <= encode_utf8(text).len(),
        byte_offset(text, 0) == 0,
        byte_offset(text, text.len() as int) == encode_utf8(text).len(),
    decreases text.len() - from,
{
    assert(text.take(text.len() as int) =~= text);
    assert(text.take(0) =~= Seq::<char>::empty());
    if from < to {
        lemma_byte_offset_step(text, from);
        lemma_byte_offset_monotonic(text, from + 1, to);
    } else if to < text.len() {
        lemma_byte_offset_step(text, to);
        lemma_byte_offset_monotonic(text, to + 1, to + 1);
    }
}

/// The byte offset of every position of a text lies between two
/// characters of its encoding.
pub proof fn lemma_byte_offset_is_boundary(text: Seq<char>, pos: int)
    requires
        0 <= pos <= text.len(),
    ensures
        valid_utf8(encode_utf8(text)),
        is_char_boundary(encode_utf8(text), byte_offset(text, pos)),
    decreases pos,
{
    let bytes = encode_utf8(text);
    encode_utf8_valid_utf8(text);
    lemma_byte_offset_monotonic(text, 0, pos);
    if pos > 0 {
        let rest = text.drop_first();
        encode_utf8_first_scalar(text);
        lemma_byte_offset_is_boundary(rest, pos - 1);
        let first = encode_scalar(text[0] as u32);
        assert(bytes == first + encode_utf8(rest));
        assert(pop_first_scalar(bytes) =~= encode_utf8(rest));
        let head = seq![text[0]];
        assert(text.take(pos) =~= head + rest.take(pos - 1));
        lemma_encode_concat(head, rest.take(pos - 1));
        assert(head.drop_first() =~= Seq::<char>::empty());
        assert(encode_utf8(head) =~= first) by {
            reveal_with_fuel(encode_utf8, 2);
        }
        assert(byte_offset(text, pos) == first.len() + byte_offset(rest, pos - 1));
        lemma_byte_offset_monotonic(rest, 0, pos - 1);
        lemma_byte_offset_step(text, 0);
    }
}

} // verus!
