//! Building the text of messages: decimal numbers and joined lists.

use vstd::prelude::*;
use vstd::string::*;

verus! {

/// The character that writes the digit `d`.
pub open spec fn digit_char(d: int) -> char {
    if d == 0 {
        '0'
    } else if d == 1 {
        '1'
    } else if d == 2 {
        '2'
    } else if d == 3 {
        '3'
    } else if d == 4 {
        '4'
    } else if d == 5 {
        '5'
    } else if d == 6 {
        '6'
    } else if d == 7 {
        '7'
    } else if d == 8 {
        '8'
    } else {
        '9'
    }
}

/// The decimal writing of `n`, without leading zeros.
pub open spec fn decimal_text(n: nat) -> Seq<char>
    decreases n,
{
    if n < 10 {
        seq![digit_char(n as int)]
    } else {
        decimal_text(n / 10).push(digit_char((n % 10) as int))
    }
}

/// Number of digits in the decimal writing of `n`.
pub open spec fn decimal_digits_spec(n: nat) -> nat
    decreases n,
{
    if n < 10 {
        1
    } else {
        decimal_digits_spec(n / 10) + 1
    }
}

/// The decimal writing of `n` has `decimal_digits_spec(n)` characters.
pub proof fn lemma_decimal_text_len(n: nat)
    ensures
        decimal_text(n).len() == decimal_digits_spec(n),
    decreases n,
{
    if n >= 10 {
        lemma_decimal_text_len(n / 10);
    }
}

/// Ten to the power `k`.
pub open spec fn pow10(k: nat) -> nat
    decreases k,
{
    if k == 0 {
        1
    } else {
        10 * pow10((k - 1) as nat)
    }
}

/// A number below ten to the power `k` is written with at most `k` digits.
pub proof fn lemma_decimal_digits_bound(n: nat, k: nat)
    requires
        k >= 1,
        n < pow10(k),
    ensures
        decimal_digits_spec(n) <= k,
    decreases k,
{
    if n >= 10 {
        assert(pow10(1) == 10) by {
            reveal_with_fuel(pow10, 2);
        }
        lemma_decimal_digits_bound(n / 10, (k - 1) as nat);
    }
}

fn digit_to_char(d: u128) -> (c: char)
    requires
        d < 10,
    ensures
        c == digit_char(d as int),
{
    if d == 0 {
        '0'
    } else if d == 1 {
        '1'
    } else if d == 2 {
        '2'
    } else if d == 3 {
        '3'
    } else if d == 4 {
        '4'
    } else if d == 5 {
        '5'
    } else if d == 6 {
        '6'
    } else if d == 7 {
        '7'
    } else if d == 8 {
        '8'
    } else {
        '9'
    }
}

/// Writes `n` in decimal.
pub fn decimal_string(n: u128) -> (s: String)
    ensures
        s@ == decimal_text(n as nat),
    decreases n,
{
    if n < 10 {
        let mut s = String::new();
        s.push(digit_to_char(n));
        assert(s@ =~= seq![digit_char(n as int)]);
        s
    } else {
        let mut s = decimal_string(n / 10);
        s.push(digit_to_char(n % 10));
        s
    }
}

/// Number of digits in the decimal writing of `n`.
pub fn decimal_digits(n: u64) -> (digits: u32)
    ensures
        digits == decimal_digits_spec(n as nat),
        1 <= digits <= 20,
{
    proof {
        assert(pow10(20) == 100000000000000000000) by {
            reveal_with_fuel(pow10, 21);
        }
        lemma_decimal_digits_bound(n as nat, 20);
    }
    let mut digits: u32 = 1;
    let mut rest: u64 = n;
    while rest >= 10
        invariant
            1 <= digits,
            digits + decimal_digits_spec(rest as nat) == decimal_digits_spec(n as nat) + 1,
            decimal_digits_spec(n as nat) <= 20,
        decreases rest,
    {
        rest = rest / 10;
        digits = digits + 1;
    }
    digits
}

/// The parts written one after another with `separator` between neighbours.
pub open spec fn join_spec(parts: Seq<Seq<char>>, separator: Seq<char>) -> Seq<char>
    decreases parts.len(),
{
    if parts.len() == 0 {
        Seq::empty()
    } else if parts.len() == 1 {
        parts[0]
    } else {
        join_spec(parts.drop_last(), separator) + separator + parts.last()
    }
}

/// The characters of each string.
pub open spec fn texts(parts: Seq<String>) -> Seq<Seq<char>> {
    parts.map_values(|s: String| s@)
}

/// Writes the parts one after another with `separator` between neighbours.
pub fn join(parts: &Vec<String>, separator: &str) -> (joined: String)
    ensures
        joined@ == join_spec(texts(parts@), separator@),
{
    let mut joined = String::new();
    let mut i: usize = 0;
    while i < parts.len()
        invariant
            i <= parts.len(),
            joined@ == join_spec(texts(parts@).take(i as int), separator@),
        decreases parts.len() - i,
    {
        proof {
            let all = texts(parts@);
            assert(all.take(i + 1).drop_last() =~= all.take(i as int));
            assert(all.take(i + 1).last() == parts@[i as int]@);
            if i == 0 {
                assert(all.take(0).len() == 0);
                assert(joined@ =~= Seq::<char>::empty());
            }
        }
        if i > 0 {
            joined.append(separator);
        }
        joined.append(parts[i].as_str());
        proof {
            if i == 0 {
                assert(joined@ =~= parts@[0]@);
            }
        }
        i += 1;
    }
    proof {
        assert(texts(parts@).take(parts@.len() as int) =~= texts(parts@));
    }
    joined
}

/// `text` with spaces before it, as many as it takes to reach `width`
/// characters; `text` itself where it is that long already.
pub open spec fn pad_left_spec(text: Seq<char>, width: nat) -> Seq<char>
    decreases width - text.len(),
{
    if text.len() >= width {
        text
    } else {
        pad_left_spec(seq![' '] + text, width)
    }
}

/// Puts spaces before `text` until it has `width` characters.
pub fn pad_left(text: &str, width: usize) -> (padded: String)
    ensures
        padded@ == pad_left_spec(text@, width as nat),
{
    let len: usize = text.unicode_len();
    let mut padded = String::new();
    let mut have: usize = len;
    let ghost mut spaces: Seq<char> = Seq::empty();
    proof {
        assert(spaces + text@ =~= text@);
    }
    while have < width
        invariant
            len == text@.len(),
            padded@ == spaces,
            have == spaces.len() + len,
            forall|i: int| 0 <= i < spaces.len() ==> spaces[i] == ' ',
            pad_left_spec(text@, width as nat) == pad_left_spec(spaces + text@, width as nat),
        decreases width - have,
    {
        proof {
            assert(seq![' '] + (spaces + text@) =~= spaces.push(' ') + text@);
            spaces = spaces.push(' ');
        }
        padded.push(' ');
        have = have + 1;
    }
    padded.append(text);
    padded
}

/// Position of the first line feed of `text` at or after `from`, or the
/// length of `text` where there is none.
pub open spec fn line_end(text: Seq<char>, from: int) -> int
    decreases text.len() - from,
{
    if from < 0 || from >= text.len() {
        text.len() as int
    } else if text[from] == '\n' {
        from
    } else {
        line_end(text, from + 1)
    }
}

/// No line feed stands between `from` and `line_end(text, from)`, and a
/// line feed stands there unless the text ends there.
pub proof fn lemma_line_end(text: Seq<char>, from: int)
    requires
        0 <= from <= text.len(),
    ensures
        from <= line_end(text, from) <= text.len(),
        forall|k: int| from <= k < line_end(text, from) ==> text[k] != '\n',
        line_end(text, from) < text.len() ==> text[line_end(text, from)] == '\n',
    decreases text.len() - from,
{
    if from < text.len() && text[from] != '\n' {
        lemma_line_end(text, from + 1);
    }
}

/// The lines of `text`: it is cut after each line feed, and each line is
/// given without its line feed and without a carriage return before the
/// line feed. What follows the last line feed is a line too, unless it is empty.
pub open spec fn lines_spec(text: Seq<char>) -> Seq<Seq<char>>
    decreases text.len(),
{
    let cut = line_end(text, 0);
    if text.len() == 0 {
        Seq::empty()
    } else if cut < 0 || cut >= text.len() {
        seq![text]
    } else {
        seq![strip_return(text.take(cut))] + lines_spec(text.skip(cut + 1))
    }
}

/// `line` without the carriage return at its end, where it has one.
pub open spec fn strip_return(line: Seq<char>) -> Seq<char> {
    if line.len() > 0 && line.last() == '\r' {
        line.drop_last()
    } else {
        line
    }
}

/// The characters of `text`, in order.
pub fn chars_of(text: &str) -> (chars: Vec<char>)
    ensures
        chars@ == text@,
{
    let mut chars: Vec<char> = Vec::new();
    for c in it: text.chars()
        invariant
            chars@ == it.seq().take(it.index()),
    {
        chars.push(c);
    }
    chars
}

/// The string of the characters from `from` up to `to`.
pub fn string_of(chars: &Vec<char>, from: usize, to: usize) -> (text: String)
    requires
        from <= to <= chars@.len(),
    ensures
        text@ == chars@.subrange(from as int, to as int),
{
    let mut text = String::new();
    let mut i: usize = from;
    proof {
        assert(chars@.subrange(from as int, from as int) =~= Seq::<char>::empty());
    }
    while i < to
        invariant
            from <= i <= to <= chars@.len(),
            text@ == chars@.subrange(from as int, i as int),
        decreases to - i,
    {
        text.push(chars[i]);
        proof {
            assert(chars@.subrange(from as int, i + 1) =~= chars@.subrange(
                from as int,
                i as int,
            ).push(chars@[i as int]));
        }
        i += 1;
    }
    text
}

/// Cuts `text` into its lines.
pub fn split_lines(text: &str) -> (lines: Vec<String>)
    ensures
        texts(lines@) == lines_spec(text@),
{
    let chars = chars_of(text);
    let mut lines: Vec<String> = Vec::new();
    let mut start: usize = 0;
    let mut i: usize = 0;
    proof {
        assert(texts(lines@) =~= Seq::<Seq<char>>::empty());
        assert(chars@.skip(0) =~= chars@);
        assert(texts(lines@) + lines_spec(chars@) =~= lines_spec(chars@));
    }
    while i < chars.len()
        invariant
            chars@ == text@,
            start <= i <= chars@.len(),
            forall|k: int| start <= k < i ==> chars@[k] != '\n',
            lines_spec(chars@) == texts(lines@) + lines_spec(chars@.skip(start as int)),
        decreases chars.len() - i,
    {
        if chars[i] == '\n' {
            let ghost rest = chars@.skip(start as int);
            proof {
                lemma_line_end(rest, 0);
                assert(line_end(rest, 0) == i - start) by {
                    let cut = line_end(rest, 0);
                    if cut < i - start {
                        assert(rest[cut] == chars@[start + cut]);
                    } else if cut > i - start {
                        assert(rest[i - start] == chars@[i as int]);
                    }
                }
                assert(rest.take(i - start) =~= chars@.subrange(start as int, i as int));
                assert(rest.skip(i - start + 1) =~= chars@.skip(i + 1));
            }
            let end: usize = if i > start && chars[i - 1] == '\r' {
                i - 1
            } else {
                i
            };
            let line = string_of(&chars, start, end);
            proof {
                let whole = chars@.subrange(start as int, i as int);
                if end < i {
                    assert(whole.last() == '\r');
                    assert(whole.drop_last() =~= chars@.subrange(start as int, end as int));
                }
                assert(line@ == strip_return(whole));
                let before = texts(lines@);
                assert(texts(lines@.push(line)) =~= before.push(line@));
                assert(before + (seq![line@] + lines_spec(chars@.skip(i + 1))) =~= before.push(
                    line@,
                ) + lines_spec(chars@.skip(i + 1)));
            }
            lines.push(line);
            start = i + 1;
        }
        i += 1;
    }
    let ghost rest = chars@.skip(start as int);
    proof {
        lemma_line_end(rest, 0);
        assert(line_end(rest, 0) == rest.len()) by {
            let cut = line_end(rest, 0);
            if cut < rest.len() {
                assert(rest[cut] == chars@[start + cut]);
            }
        }
    }
    if start < chars.len() {
        let line = string_of(&chars, start, chars.len());
        proof {
            assert(rest =~= chars@.subrange(start as int, chars@.len() as int));
            let before = texts(lines@);
            assert(texts(lines@.push(line)) =~= before.push(line@));
            assert(before + seq![rest] =~= before.push(line@));
        }
        lines.push(line);
    } else {
        proof {
            assert(texts(lines@) + Seq::<Seq<char>>::empty() =~= texts(lines@));
        }
    }
    lines
}

} // verus!
