//! Reads file sizes off a listing as `du` prints it: one file per line, the
//! size in bytes first, then white space and the path.

use vstd::prelude::*;
use crate::text::chars_of;

verus! {

/// Whether `c` is white space, as Unicode defines it.
pub open spec fn is_space(c: char) -> bool {
    let code = c as u32;
    ||| 0x09 <= code <= 0x0D
    ||| code == 0x20
    ||| code == 0x85
    ||| code == 0xA0
    ||| code == 0x1680
    ||| 0x2000 <= code <= 0x200A
    ||| code == 0x2028
    ||| code == 0x2029
    ||| code == 0x202F
    ||| code == 0x205F
    ||| code == 0x3000
}

/// Whether `c` is one of the digits `0` to `9`.
pub open spec fn is_digit(c: char) -> bool {
    0x30 <= c as u32 <= 0x39
}

/// The number that a digit stands for.
pub open spec fn digit_value(c: char) -> nat
    recommends
        is_digit(c),
{
    (c as u32 - 0x30) as nat
}

/// The number that a run of digits stands for in base ten; zero for the
/// empty run.
pub open spec fn digits_value(digits: Seq<char>) -> nat
    decreases digits.len(),
{
    if digits.len() == 0 {
        0
    } else {
        10 * digits_value(digits.drop_last()) + digit_value(digits.last())
    }
}

/// Whether every character of `digits` is a digit.
pub open spec fn all_digits(digits: Seq<char>) -> bool {
    forall|i: int| 0 <= i < digits.len() ==> is_digit(#[trigger] digits[i])
}

/// The size that a token stands for: one or more digits, after an optional
/// plus sign, whose value fits into 64 bits. Any other token stands for
/// none.
pub open spec fn token_size(token: Seq<char>) -> Option<u64> {
    let digits = if token.len() > 0 && token[0] == '+' {
        token.drop_first()
    } else {
        token
    };
    if digits.len() > 0 && all_digits(digits) && digits_value(digits) <= u64::MAX {
        Some(digits_value(digits) as u64)
    } else {
        None
    }
}

/// The first position at or after `from` whose character is white space, if
/// `space` is set, or is not, if `space` is not set; the length of `line`
/// where there is no such position.
pub open spec fn first_at(line: Seq<char>, from: int, space: bool) -> int
    decreases line.len() - from,
{
    if from < 0 || from >= line.len() {
        line.len() as int
    } else if is_space(line[from]) == space {
        from
    } else {
        first_at(line, from + 1, space)
    }
}

/// The first token of a line: the characters from the first that is not
/// white space up to the next white space or the end of the line. Empty
/// where the line holds white space only.
pub open spec fn first_token(line: Seq<char>) -> Seq<char> {
    let start = first_at(line, 0, false);
    line.subrange(start, first_at(line, start, true))
}

/// The size that a line gives: what its first token stands for.
pub open spec fn line_size(line: Seq<char>) -> Option<u64> {
    token_size(first_token(line))
}

/// The position of the first line break at or after `from`; the length of
/// `text` where there is none.
pub open spec fn line_end(text: Seq<char>, from: int) -> int
    decreases text.len() - from,
{
    if from < 0 || from >= text.len() {
        text.len() as int
    } else if text[from] == '\n' {
        from
    } else {
        line_end(text, from + 1)
    }
}

/// The first line break at or after `from` lies between `from` and the end
/// of the text, and no line break stands before it.
pub proof fn lemma_line_end_bounds(text: Seq<char>, from: int)
    requires
        0 <= from <= text.len(),
    ensures
        from <= line_end(text, from) <= text.len(),
        line_end(text, from) < text.len() ==> text[line_end(text, from)] == '\n',
        forall|i: int| from <= i < line_end(text, from) ==> text[i] != '\n',
    decreases text.len() - from,
{
    if from < text.len() && text[from] != '\n' {
        lemma_line_end_bounds(text, from + 1);
    }
}

/// The lines of `text` from position `from` on. A line ends at a line break
/// or at the end of the text; nothing follows a final line break.
pub open spec fn lines_from(text: Seq<char>, from: int) -> Seq<Seq<char>>
    decreases text.len() - from,
{
    if from < 0 || from >= text.len() {
        Seq::empty()
    } else {
        let end = line_end(text, from);
        proof {
            lemma_line_end_bounds(text, from);
        }
        if end >= text.len() {
            seq![text.subrange(from, end)]
        } else {
            seq![text.subrange(from, end)] + lines_from(text, end + 1)
        }
    }
}

/// The sizes that the lines give, where every line gives one.
pub open spec fn sizes_of_lines(lines: Seq<Seq<char>>) -> Option<Seq<u64>> {
    if forall|i: int| 0 <= i < lines.len() ==> (#[trigger] line_size(lines[i])) is Some {
        Some(lines.map_values(|line: Seq<char>| line_size(line).unwrap()))
    } else {
        None
    }
}

/// The sizes that a listing gives, line by line; none where some line does
/// not start with a size.
pub open spec fn listing_sizes(text: Seq<char>) -> Option<Seq<u64>> {
    sizes_of_lines(lines_from(text, 0))
}

/// The value of a run of digits does not shrink when digits are added at
/// its end.
pub proof fn lemma_digits_value_grows(digits: Seq<char>, upto: int)
    requires
        0 <= upto <= digits.len(),
    ensures
        digits_value(digits.take(upto)) <= digits_value(digits),
    decreases digits.len() - upto,
{
    if upto < digits.len() {
        lemma_digits_value_grows(digits, upto + 1);
        assert(digits.take(upto + 1).drop_last() =~= digits.take(upto));
    } else {
        assert(digits.take(upto) =~= digits);
    }
}

/// Tells white space from other characters.
fn is_space_char(c: char) -> (space: bool)
    ensures
        space == is_space(c),
{
    let code = c as u32;
    (0x09 <= code && code <= 0x0D) || code == 0x20 || code == 0x85 || code == 0xA0 || code
        == 0x1680 || (0x2000 <= code && code <= 0x200A) || code == 0x2028 || code == 0x2029
        || code == 0x202F || code == 0x205F || code == 0x3000
}

/// Walks from `from` to the first character that is white space, or to the
/// first that is not.
fn find_from(line: &[char], from: usize, space: bool) -> (at: usize)
    requires
        from <= line@.len(),
    ensures
        at == first_at(line@, from as int, space),
        from <= at <= line@.len(),
{
    let mut at: usize = from;
    while at < line.len() && is_space_char(line[at]) != space
        invariant
            from <= at <= line@.len(),
            first_at(line@, from as int, space) == first_at(line@, at as int, space),
        decreases line@.len() - at,
    {
        at += 1;
    }
    at
}

/// Reads the size that a token stands for.
fn parse_token(token: &[char]) -> (size: Option<u64>)
    ensures
        size == token_size(token@),
{
    let first: usize = if token.len() > 0 && token[0] == '+' {
        1
    } else {
        0
    };
    let ghost digits = token@.subrange(first as int, token@.len() as int);
    assert(digits =~= if first == 1 {
        token@.drop_first()
    } else {
        token@
    });
    if first == token.len() {
        return None;
    }
    let mut value: u64 = 0;
    let mut i: usize = first;
    assert(digits.take(0) =~= Seq::<char>::empty());
    while i < token.len()
        invariant
            first <= i <= token@.len(),
            digits == token@.subrange(first as int, token@.len() as int),
            digits == if token@.len() > 0 && token@[0] == '+' {
                token@.drop_first()
            } else {
                token@
            },
            all_digits(digits.take(i - first)),
            value == digits_value(digits.take(i - first)),
        decreases token@.len() - i,
    {
        let code = token[i] as u32;
        if code < 0x30 || code > 0x39 {
            assert(!is_digit(digits[i - first]));
            return None;
        }
        let digit = (code - 0x30) as u64;
        proof {
            assert(digits.take(i - first + 1).drop_last() =~= digits.take(i - first));
            assert(digits.take(i - first + 1).last() == token@[i as int]);
            lemma_digits_value_grows(digits, i - first + 1);
        }
        if value > (u64::MAX - digit) / 10 {
            return None;
        }
        value = value * 10 + digit;
        i += 1;
    }
    assert(digits.take(i - first) =~= digits);
    Some(value)
}

/// Reads the size that a line gives.
fn parse_line(line: &[char]) -> (size: Option<u64>)
    ensures
        size == line_size(line@),
{
    let start = find_from(line, 0, false);
    let end = find_from(line, start, true);
    parse_token(&line[start..end])
}

/// Walks from `from` to the next line break.
fn find_line_end(text: &[char], from: usize) -> (end: usize)
    requires
        from <= text@.len(),
    ensures
        end == line_end(text@, from as int),
        from <= end <= text@.len(),
{
    let mut end: usize = from;
    while end < text.len() && text[end] != '\n'
        invariant
            from <= end <= text@.len(),
            line_end(text@, from as int) == line_end(text@, end as int),
        decreases text@.len() - end,
    {
        end += 1;
    }
    end
}

/// Reads the file sizes off a listing. Every line must start, after
/// optional white space, with a size in bytes; where one does not, the
/// result is `None`.
pub fn parse_sizes(listing: &str) -> (sizes: Option<Vec<u64>>)
    ensures
        match listing_sizes(listing@) {
            Some(found) => sizes matches Some(read) && read@ == found,
            None => sizes is None,
        },
{
    let chars = chars_of(listing);
    let text = chars.as_slice();
    let ghost size_of = |line: Seq<char>| line_size(line).unwrap();
    let ghost mut done: Seq<Seq<char>> = Seq::empty();
    let mut sizes: Vec<u64> = Vec::new();
    let mut from: usize = 0;
    assert(sizes@ =~= done.map_values(size_of));
    while from < text.len()
        invariant
            text@ == listing@,
            from <= text@.len(),
            size_of == |line: Seq<char>| line_size(line).unwrap(),
            lines_from(text@, 0) == done + lines_from(text@, from as int),
            forall|i: int| 0 <= i < done.len() ==> (#[trigger] line_size(done[i])) is Some,
            sizes@ == done.map_values(size_of),
        decreases text@.len() - from,
    {
        let end = find_line_end(text, from);
        let line = &text[from..end];
        let ghost rest = lines_from(text@, from as int);
        assert(rest[0] == line@);
        assert(lines_from(text@, 0)[done.len() as int] == line@);
        match parse_line(line) {
            None => {
                return None;
            },
            Some(size) => {
                sizes.push(size);
                proof {
                    let next = if end < text@.len() {
                        end + 1
                    } else {
                        end as int
                    };
                    assert(rest =~= seq![line@] + lines_from(text@, next));
                    assert(done.push(line@) + lines_from(text@, next) =~= done + rest);
                    assert(sizes@ =~= done.push(line@).map_values(size_of));
                    done = done.push(line@);
                }
            },
        }
        if end < text.len() {
            from = end + 1;
        } else {
            from = end;
        }
    }
    assert(lines_from(text@, 0) =~= done);
    Some(sizes)
}

} // verus!
