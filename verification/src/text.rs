//! Texts: numbers written out in decimal, parts joined, lines and words counted.

use vstd::prelude::*;
use vstd::std_specs::iter::IteratorSpec;
use vstd::utf8::encode_utf8;

verus! {

/// The character of one decimal digit.
pub open spec fn digit_char(digit: nat) -> char {
    if digit == 0 {
        '0'
    } else if digit == 1 {
        '1'
    } else if digit == 2 {
        '2'
    } else if digit == 3 {
        '3'
    } else if digit == 4 {
        '4'
    } else if digit == 5 {
        '5'
    } else if digit == 6 {
        '6'
    } else if digit == 7 {
        '7'
    } else if digit == 8 {
        '8'
    } else {
        '9'
    }
}

/// A number in decimal: its digits from the most significant to the last,
/// without leading zeros, and `0` for zero.
pub open spec fn decimal_digits(n: nat) -> Seq<char>
    decreases n,
{
    if n < 10 {
        seq![digit_char(n)]
    } else {
        decimal_digits(n / 10).push(digit_char(n % 10))
    }
}

/// The text of one decimal digit.
fn digit_text(digit: u8) -> (text: &'static str)
    requires
        digit < 10,
    ensures
        text@ == seq![digit_char(digit as nat)],
{
    proof {
        reveal_strlit("0");
        reveal_strlit("1");
        reveal_strlit("2");
        reveal_strlit("3");
        reveal_strlit("4");
        reveal_strlit("5");
        reveal_strlit("6");
        reveal_strlit("7");
        reveal_strlit("8");
        reveal_strlit("9");
    }
    let text = if digit == 0 {
        "0"
    } else if digit == 1 {
        "1"
    } else if digit == 2 {
        "2"
    } else if digit == 3 {
        "3"
    } else if digit == 4 {
        "4"
    } else if digit == 5 {
        "5"
    } else if digit == 6 {
        "6"
    } else if digit == 7 {
        "7"
    } else if digit == 8 {
        "8"
    } else {
        "9"
    };
    assert(text@ =~= seq![digit_char(digit as nat)]);
    text
}

/// `n` written out in decimal.
pub fn decimal(n: u128) -> (text: String)
    ensures
        text@ == decimal_digits(n as nat),
    decreases n,
{
    if n < 10 {
        String::from_str(digit_text(n as u8))
    } else {
        let mut text = decimal(n / 10);
        text.append(digit_text((n % 10) as u8));
        assert(text@ =~= decimal_digits(n as nat));
        text
    }
}

/// `text` with every `from` replaced by `to`.
pub open spec fn replaced(text: Seq<char>, from: char, to: Seq<char>) -> Seq<char>
    decreases text.len(),
{
    if text.len() == 0 {
        Seq::empty()
    } else if text.last() == from {
        replaced(text.drop_last(), from, to) + to
    } else {
        replaced(text.drop_last(), from, to).push(text.last())
    }
}

/// `text` with every `from` replaced by `to`.
pub fn replace_char(text: &str, from: char, to: &str) -> (changed: String)
    ensures
        changed@ == replaced(text@, from, to@),
{
    let chars = chars_of(text);
    let mut changed = String::new();
    // What stands from `start` up to `i` holds no `from` and is not copied yet.
    let mut start: usize = 0;
    let mut i: usize = 0;
    while i < chars.len()
        invariant
            start <= i <= chars@.len(),
            chars@ == text@,
            changed@ + text@.subrange(start as int, i as int) == replaced(
                text@.subrange(0, i as int),
                from,
                to@,
            ),
        decreases chars.len() - i,
    {
        let ghost before = changed@;
        let ghost pending = text@.subrange(start as int, i as int);
        proof {
            assert(text@.subrange(0, i + 1).drop_last() =~= text@.subrange(0, i as int));
            assert(text@.subrange(0, i + 1).last() == chars@[i as int]);
        }
        if chars[i] == from {
            changed.append(text.substring_char(start, i));
            changed.append(to);
            start = i + 1;
            proof {
                assert(changed@ + text@.subrange(start as int, i + 1) =~= before + pending + to@);
            }
        } else {
            proof {
                assert(before + text@.subrange(start as int, i + 1) =~= (before + pending).push(
                    chars@[i as int],
                ));
            }
        }
        i = i + 1;
    }
    changed.append(text.substring_char(start, chars.len()));
    proof {
        assert(text@.subrange(0, text@.len() as int) =~= text@);
    }
    changed
}

/// The parts one after the other, with `separator` between each two.
pub open spec fn joined(parts: Seq<Seq<char>>, separator: Seq<char>) -> Seq<char>
    decreases parts.len(),
{
    if parts.len() == 0 {
        Seq::empty()
    } else if parts.len() == 1 {
        parts[0]
    } else {
        joined(parts.drop_last(), separator) + separator + parts.last()
    }
}

/// The texts of `parts`.
pub open spec fn texts(parts: Seq<String>) -> Seq<Seq<char>> {
    Seq::new(parts.len(), |i: int| parts[i]@)
}

/// One text of `parts` in order, with `separator` between each two.
pub fn join(parts: &Vec<String>, separator: &str) -> (text: String)
    ensures
        text@ == joined(texts(parts@), separator@),
{
    let ghost all = texts(parts@);
    let mut text = String::new();
    let mut i: usize = 0;
    while i < parts.len()
        invariant
            i <= parts.len(),
            all == texts(parts@),
            text@ == joined(all.subrange(0, i as int), separator@),
        decreases parts.len() - i,
    {
        proof {
            assert(all.subrange(0, i + 1).drop_last() =~= all.subrange(0, i as int));
            assert(all.subrange(0, i + 1).last() == parts@[i as int]@);
        }
        if i > 0 {
            text.append(separator);
        }
        text.append(parts[i].as_str());
        proof {
            if i == 0 {
                assert(text@ =~= all.subrange(0, 1)[0]);
            }
        }
        i = i + 1;
    }
    proof {
        assert(all.subrange(0, all.len() as int) =~= all);
    }
    text
}

/// Whether `c` is white space, as Unicode marks it.
pub open spec fn is_space(c: char) -> bool {
    let code = c as u32;
    ||| 0x09 <= code <= 0x0D
    ||| code == 0x20
    ||| code == 0x85
    ||| code == 0xA0
    ||| code == 0x1680
    ||| 0x2000 <= code <= 0x200A
    ||| code == 0x2028
    ||| code == 0x2029
    ||| code == 0x202F
    ||| code == 0x205F
    ||| code == 0x3000
}

/// How many words `text` holds: runs of characters that are not white space.
/// A word is counted where it begins.
pub open spec fn word_count(text: Seq<char>) -> nat
    decreases text.len(),
{
    if text.len() == 0 {
        0
    } else {
        word_count(text.drop_last()) + if !is_space(text.last()) && (text.len() == 1 || is_space(
            text[text.len() - 2],
        )) {
            1nat
        } else {
            0nat
        }
    }
}

/// Whether `c` is white space.
pub fn space(c: char) -> (white: bool)
    ensures
        white == is_space(c),
{
    let code = c as u32;
    (0x09 <= code && code <= 0x0D) || code == 0x20 || code == 0x85 || code == 0xA0 || code
        == 0x1680 || (0x2000 <= code && code <= 0x200A) || code == 0x2028 || code == 0x2029
        || code == 0x202F || code == 0x205F || code == 0x3000
}

/// How many words `text` holds.
pub fn count_words(text: &str) -> (count: usize)
    ensures
        count == word_count(text@),
{
    let length = text.unicode_len();
    let mut count: usize = 0;
    let mut in_word = false;
    let mut chars = text.chars();
    let ghost mut seen: Seq<char> = Seq::empty();
    loop
        invariant
            seen + chars.remaining() == text@,
            length == text@.len(),
            count == word_count(seen),
            count <= seen.len(),
            in_word == (seen.len() > 0 && !is_space(seen.last())),
            chars.obeys_prophetic_iter_laws(),
        decreases text@.len() - seen.len(),
    {
        let ghost before = chars.remaining();
        match chars.next() {
            None => {
                proof {
                    assert(seen =~= text@);
                }
                return count;
            },
            Some(c) => {
                proof {
                    assert(seen.push(c).drop_last() =~= seen);
                    assert(seen.push(c) + chars.remaining() =~= seen + before);
                    seen = seen.push(c);
                }
                let white = space(c);
                if !white && !in_word {
                    count = count + 1;
                }
                in_word = !white;
            },
        }
    }
}

/// How many line feeds are among `bytes`.
pub open spec fn line_feeds(bytes: Seq<u8>) -> nat
    decreases bytes.len(),
{
    if bytes.len() == 0 {
        0
    } else {
        line_feeds(bytes.drop_last()) + if bytes.last() == 10 {
            1nat
        } else {
            0nat
        }
    }
}

/// There are no more line feeds among bytes than bytes.
pub proof fn lemma_line_feeds_bounded(bytes: Seq<u8>)
    ensures
        line_feeds(bytes) <= bytes.len(),
    decreases bytes.len(),
{
    if bytes.len() > 0 {
        lemma_line_feeds_bounded(bytes.drop_last());
    }
}

/// How many lines a text of these bytes has: a line ends with a line feed,
/// and the end of the text ends a last line that no line feed ends.
pub open spec fn line_count(bytes: Seq<u8>) -> nat {
    if bytes.len() > 0 && bytes.last() != 10 {
        line_feeds(bytes) + 1
    } else {
        line_feeds(bytes)
    }
}

/// How many lines `text` has.
pub fn count_lines(text: &str) -> (lines: usize)
    ensures
        lines == line_count(encode_utf8(text@)),
{
    let bytes = text.as_bytes();
    let ghost all = bytes@;
    let mut feeds: usize = 0;
    let mut i: usize = 0;
    while i < bytes.len()
        invariant
            i <= bytes.len(),
            all == bytes@,
            feeds == line_feeds(all.subrange(0, i as int)),
            feeds <= i,
        decreases bytes.len() - i,
    {
        proof {
            assert(all.subrange(0, i + 1).drop_last() =~= all.subrange(0, i as int));
        }
        if bytes[i] == 10 {
            feeds = feeds + 1;
        }
        i = i + 1;
    }
    proof {
        assert(all.subrange(0, all.len() as int) =~= all);
    }
    if bytes.len() > 0 && bytes[bytes.len() - 1] != 10 {
        proof {
            lemma_line_feeds_bounded(all.drop_last());
        }
        feeds + 1
    } else {
        feeds
    }
}

/// The characters of `text`, one by one.
pub fn chars_of(text: &str) -> (chars: Vec<char>)
    ensures
        chars@ == text@,
{
    let mut chars: Vec<char> = Vec::new();
    let mut rest = text.chars();
    loop
        invariant
            chars@ + rest.remaining() == text@,
            rest.obeys_prophetic_iter_laws(),
        decreases text@.len() - chars@.len(),
    {
        let ghost before = rest.remaining();
        let ghost seen = chars@;
        match rest.next() {
            None => {
                proof {
                    assert(chars@ =~= text@);
                }
                return chars;
            },
            Some(c) => {
                chars.push(c);
                proof {
                    assert(chars@ + rest.remaining() =~= seen + before);
                }
            },
        }
    }
}

/// Whether `needle` stands in `hay` at the position `at`.
pub open spec fn stands_at(hay: Seq<char>, needle: Seq<char>, at: int) -> bool {
    0 <= at && at + needle.len() <= hay.len() && hay.subrange(at, at + needle.len()) == needle
}

/// The first position from `from` on at which `needle` stands in `hay`.
pub open spec fn first_from(hay: Seq<char>, needle: Seq<char>, from: int) -> Option<int>
    decreases hay.len() - from,
{
    if from < 0 || from + needle.len() > hay.len() {
        None
    } else if stands_at(hay, needle, from) {
        Some(from)
    } else if from < hay.len() {
        first_from(hay, needle, from + 1)
    } else {
        None
    }
}

/// Whether `needle` stands in `hay` at the position `at`.
fn matches_at(hay: &Vec<char>, needle: &Vec<char>, at: usize) -> (found: bool)
    requires
        at + needle@.len() <= hay@.len(),
    ensures
        found == stands_at(hay@, needle@, at as int),
{
    let length = hay.len();
    let mut i: usize = 0;
    while i < needle.len()
        invariant
            i <= needle@.len(),
            length == hay@.len(),
            at + needle@.len() <= hay@.len(),
            forall|j: int| 0 <= j < i ==> hay@[at + j] == needle@[j],
        decreases needle.len() - i,
    {
        if hay[at + i] != needle[i] {
            proof {
                assert(hay@.subrange(at as int, at + needle@.len())[i as int] != needle@[i as int]);
            }
            return false;
        }
        i = i + 1;
    }
    proof {
        assert(hay@.subrange(at as int, at + needle@.len()) =~= needle@);
    }
    true
}

/// The first position from `from` on at which `needle` stands in `hay`.
pub fn find_from(hay: &Vec<char>, needle: &Vec<char>, from: usize) -> (found: Option<usize>)
    ensures
        match found {
            Some(at) => first_from(hay@, needle@, from as int) == Some(at as int) && from <= at
                && at + needle@.len() <= hay@.len() <= usize::MAX,
            None => first_from(hay@, needle@, from as int) == None::<int>,
        },
{
    if needle.len() > hay.len() {
        return None;
    }
    let last: usize = hay.len() - needle.len();
    let mut at: usize = from;
    while at <= last
        invariant
            from <= at,
            last + needle@.len() == hay@.len() <= usize::MAX,
            first_from(hay@, needle@, from as int) == first_from(hay@, needle@, at as int),
        decreases last + 1 - at,
    {
        if matches_at(hay, needle, at) {
            return Some(at);
        }
        if at == last {
            return None;
        }
        at = at + 1;
    }
    None
}

/// Whether `c` is one of the ten digits.
pub open spec fn is_digit(c: char) -> bool {
    '0' <= c <= '9'
}

/// The number that the digits `digits` write; what is no digit counts as
/// written for the digit it would be if the digits went on after nine.
pub open spec fn digits_value(digits: Seq<char>) -> nat
    decreases digits.len(),
{
    if digits.len() == 0 {
        0
    } else {
        digits_value(digits.drop_last()) * 10 + (digits.last() as u32 - '0' as u32) as nat
    }
}

/// Whether all of `digits` are digits.
pub open spec fn all_digits(digits: Seq<char>) -> bool {
    forall|i: int| 0 <= i < digits.len() ==> is_digit(#[trigger] digits[i])
}

/// The number that `token` writes, if it writes one that a `usize` holds: one
/// digit or more, after a plus sign or after nothing.
pub open spec fn parsed_usize(token: Seq<char>) -> Option<usize> {
    let digits = if token.len() > 0 && token[0] == '+' {
        token.drop_first()
    } else {
        token
    };
    if digits.len() > 0 && all_digits(digits) && digits_value(digits) <= usize::MAX {
        Some(digits_value(digits) as usize)
    } else {
        None
    }
}

/// Digits that go on write no smaller a number.
pub proof fn lemma_digits_value_grows(digits: Seq<char>, upto: int)
    requires
        all_digits(digits),
        0 <= upto <= digits.len(),
    ensures
        digits_value(digits.subrange(0, upto)) <= digits_value(digits),
    decreases digits.len() - upto,
{
    if upto < digits.len() {
        lemma_digits_value_grows(digits, upto + 1);
        assert(digits.subrange(0, upto + 1).drop_last() =~= digits.subrange(0, upto));
        assert(is_digit(digits[upto]));
    } else {
        assert(digits.subrange(0, upto) =~= digits);
    }
}

/// The number that the characters of `text` from `from` up to `end` write.
pub fn parse_usize(text: &Vec<char>, from: usize, end: usize) -> (parsed: Option<usize>)
    requires
        from <= end <= text@.len(),
    ensures
        parsed == parsed_usize(text@.subrange(from as int, end as int)),
{
    let ghost token = text@.subrange(from as int, end as int);
    let start: usize = if from < end && text[from] == '+' {
        from + 1
    } else {
        from
    };
    let ghost digits = text@.subrange(start as int, end as int);
    proof {
        if start == from + 1 {
            assert(token[0] == '+');
            assert(digits =~= token.drop_first());
        } else {
            assert(digits =~= token);
        }
    }
    if start == end {
        return None;
    }
    let mut value: usize = 0;
    let mut i: usize = start;
    while i < end
        invariant
            from <= start <= i <= end <= text@.len(),
            digits == text@.subrange(start as int, end as int),
            parsed_usize(text@.subrange(from as int, end as int)) == if digits.len() > 0
                && all_digits(digits) && digits_value(digits) <= usize::MAX {
                Some(digits_value(digits) as usize)
            } else {
                None
            },
            all_digits(digits.subrange(0, i - start)),
            value == digits_value(digits.subrange(0, i - start)),
        decreases end - i,
    {
        let c = text[i];
        let ghost sofar = digits.subrange(0, i - start);
        let ghost more = digits.subrange(0, i + 1 - start);
        proof {
            assert(more.drop_last() =~= sofar);
            assert(more.last() == c);
        }
        if c < '0' || c > '9' {
            proof {
                assert(!is_digit(digits[i - start]));
            }
            return None;
        }
        let digit: usize = (c as u32 - '0' as u32) as usize;
        if value > (usize::MAX - digit) / 10 {
            proof {
                assert(digits_value(more) > usize::MAX) by (nonlinear_arith)
                    requires
                        digits_value(more) == value * 10 + digit,
                        value > (usize::MAX - digit) / 10,
                        digit <= 9,
                ;
                if all_digits(digits) {
                    lemma_digits_value_grows(digits, i + 1 - start);
                }
            }
            return None;
        }
        assert(value * 10 + digit <= usize::MAX) by (nonlinear_arith)
            requires
                value <= (usize::MAX - digit) / 10,
                digit <= 9,
        ;
        value = value * 10 + digit;
        proof {
            assert forall|j: int| 0 <= j < more.len() implies is_digit(#[trigger] more[j]) by {
                if j < sofar.len() {
                    assert(more[j] == sofar[j]);
                }
            }
        }
        i = i + 1;
    }
    proof {
        assert(digits.subrange(0, end - start) =~= digits);
    }
    Some(value)
}

/// The first position from `from` on, before `end`, at which no white space
/// stands; `end` if there is none.
pub open spec fn after_spaces(text: Seq<char>, from: int, end: int) -> int
    decreases end - from,
{
    if from < 0 || from >= end || end > text.len() || !is_space(text[from]) {
        from
    } else {
        after_spaces(text, from + 1, end)
    }
}

/// The first position from `from` on, before `end`, at which white space
/// stands; `end` if there is none.
pub open spec fn after_word(text: Seq<char>, from: int, end: int) -> int
    decreases end - from,
{
    if from < 0 || from >= end || end > text.len() || is_space(text[from]) {
        from
    } else {
        after_word(text, from + 1, end)
    }
}

/// Passes over white space from `from` on, up to `end`.
pub fn skip_spaces(text: &Vec<char>, from: usize, end: usize) -> (at: usize)
    requires
        from <= end <= text@.len(),
    ensures
        at == after_spaces(text@, from as int, end as int),
        from <= at <= end,
{
    let mut at: usize = from;
    while at < end && space(text[at])
        invariant
            from <= at <= end <= text@.len(),
            after_spaces(text@, from as int, end as int) == after_spaces(
                text@,
                at as int,
                end as int,
            ),
        decreases end - at,
    {
        at = at + 1;
    }
    at
}

/// Passes over what is no white space from `from` on, up to `end`.
pub fn skip_word(text: &Vec<char>, from: usize, end: usize) -> (at: usize)
    requires
        from <= end <= text@.len(),
    ensures
        at == after_word(text@, from as int, end as int),
        from <= at <= end,
{
    let mut at: usize = from;
    while at < end && !space(text[at])
        invariant
            from <= at <= end <= text@.len(),
            after_word(text@, from as int, end as int) == after_word(text@, at as int, end as int),
        decreases end - at,
    {
        at = at + 1;
    }
    at
}

/// Whether `needle` stands somewhere in `text`.
pub open spec fn occurs_in(needle: Seq<char>, text: Seq<char>) -> bool {
    exists|at: int| stands_at(text, needle, at)
}

/// What [`first_from`] finds is the first place from `from` on at which the
/// needle stands, and it finds one if there is one.
pub proof fn lemma_first_from(hay: Seq<char>, needle: Seq<char>, from: int)
    requires
        0 <= from,
    ensures
        match first_from(hay, needle, from) {
            Some(at) => from <= at && stands_at(hay, needle, at) && forall|j: int|
                from <= j < at ==> !stands_at(hay, needle, j),
            None => forall|j: int| from <= j ==> !stands_at(hay, needle, j),
        },
    decreases hay.len() - from,
{
    if from + needle.len() <= hay.len() && !stands_at(hay, needle, from) && from < hay.len() {
        lemma_first_from(hay, needle, from + 1);
    }
}

/// Whether `needle` stands somewhere in `text`.
pub fn contains(text: &Vec<char>, needle: &str) -> (found: bool)
    ensures
        found == occurs_in(needle@, text@),
{
    let wanted = chars_of(needle);
    proof {
        lemma_first_from(text@, needle@, 0);
    }
    find_from(text, &wanted, 0).is_some()
}

} // verus!
