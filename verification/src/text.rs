//! Text as sequences of characters: case folding, search and decimal numbers.

use vstd::prelude::*;

verus! {

/// The lower-case form of an ASCII letter; any other character is itself.
pub open spec fn ascii_lower(c: char) -> char {
    if 'A' <= c && c <= 'Z' {
        ((c as u8) + 32) as char
    } else {
        c
    }
}

/// The upper-case form of an ASCII letter; any other character is itself.
pub open spec fn ascii_upper(c: char) -> char {
    if 'a' <= c && c <= 'z' {
        ((c as u8) - 32) as char
    } else {
        c
    }
}

/// A text with every ASCII letter in lower case.
pub open spec fn lowercase(s: Seq<char>) -> Seq<char> {
    Seq::new(s.len(), |i: int| ascii_lower(s[i]))
}

/// A text with every ASCII letter in upper case.
pub open spec fn uppercase(s: Seq<char>) -> Seq<char> {
    Seq::new(s.len(), |i: int| ascii_upper(s[i]))
}

/// Whether `needle` stands in `haystack` at position `at`.
pub open spec fn occurs_at(haystack: Seq<char>, needle: Seq<char>, at: int) -> bool {
    &&& 0 <= at
    &&& at + needle.len() <= haystack.len()
    &&& haystack.subrange(at, at + needle.len()) == needle
}

/// Whether `needle` stands somewhere in `haystack`.
pub open spec fn contains(haystack: Seq<char>, needle: Seq<char>) -> bool {
    exists|at: int| occurs_at(haystack, needle, at)
}

/// Whether `at` is the first position of `needle` in `haystack`.
pub open spec fn first_occurrence(haystack: Seq<char>, needle: Seq<char>, at: int) -> bool {
    &&& occurs_at(haystack, needle, at)
    &&& forall|earlier: int| 0 <= earlier < at ==> !occurs_at(haystack, needle, earlier)
}

/// A text has at most one first occurrence of another.
pub proof fn lemma_first_occurrence_unique(haystack: Seq<char>, needle: Seq<char>, a: int, b: int)
    requires
        first_occurrence(haystack, needle, a),
        first_occurrence(haystack, needle, b),
    ensures
        a == b,
{
}

/// The characters of a string, in order.
pub fn chars_of(s: &str) -> (chars: Vec<char>)
    ensures
        chars@ == s@,
{
    broadcast use vstd::string::group_string_axioms;

    let mut chars: Vec<char> = Vec::new();
    for c in it: s.chars()
        invariant
            it.seq() == s@,
            chars@ == s@.take(it.index()),
    {
        chars.push(c);
    }
    assert(s@.take(s@.len() as int) == s@);
    chars
}

/// The string made of the given characters.
///
/// Trusted: calls `String::from_iter` of std, which collects the characters
/// in order into a new string.
#[verifier::external_body]
pub(crate) fn string_of(chars: &Vec<char>) -> (s: String)
    ensures
        s@ == chars@,
{
    String::from_iter(chars.iter())
}

/// Folds one character to lower case.
pub fn lower_char(c: char) -> (r: char)
    ensures
        r == ascii_lower(c),
{
    if 'A' <= c && c <= 'Z' {
        ((c as u8) + 32) as char
    } else {
        c
    }
}

/// Folds one character to upper case.
pub fn upper_char(c: char) -> (r: char)
    ensures
        r == ascii_upper(c),
{
    if 'a' <= c && c <= 'z' {
        ((c as u8) - 32) as char
    } else {
        c
    }
}

/// Folds a text to lower case, ASCII letters only.
pub fn to_lowercase(chars: &Vec<char>) -> (folded: Vec<char>)
    ensures
        folded@ == lowercase(chars@),
{
    let mut folded: Vec<char> = Vec::new();
    let mut i: usize = 0;
    while i < chars.len()
        invariant
            i <= chars.len(),
            folded.len() == i,
            forall|k: int| 0 <= k < i ==> folded[k] == ascii_lower(chars[k]),
        decreases chars.len() - i,
    {
        folded.push(lower_char(chars[i]));
        i += 1;
    }
    folded
}

/// Folds a text to upper case, ASCII letters only.
pub fn to_uppercase(chars: &Vec<char>) -> (folded: Vec<char>)
    ensures
        folded@ == uppercase(chars@),
{
    let mut folded: Vec<char> = Vec::new();
    let mut i: usize = 0;
    while i < chars.len()
        invariant
            i <= chars.len(),
            folded.len() == i,
            forall|k: int| 0 <= k < i ==> folded[k] == ascii_upper(chars[k]),
        decreases chars.len() - i,
    {
        folded.push(upper_char(chars[i]));
        i += 1;
    }
    folded
}

/// Tells whether `needle` stands in `haystack` at position `at`.
pub fn matches_at(haystack: &Vec<char>, needle: &Vec<char>, at: usize) -> (found: bool)
    ensures
        found == occurs_at(haystack@, needle@, at as int),
{
    if needle.len() > haystack.len() || at > haystack.len() - needle.len() {
        return false;
    }
    let mut k: usize = 0;
    while k < needle.len()
        invariant
            k <= needle.len(),
            at + needle.len() <= haystack.len(),
            forall|j: int| 0 <= j < k ==> haystack[at + j] == needle[j],
        decreases needle.len() - k,
    {
        if haystack[at + k] != needle[k] {
            assert(haystack@.subrange(at as int, at + needle.len())[k as int] != needle@[k as int]);
            return false;
        }
        k += 1;
    }
    assert(haystack@.subrange(at as int, at + needle.len()) =~= needle@);
    true
}

/// Finds the first position of `needle` in `haystack`.
pub fn find(haystack: &Vec<char>, needle: &Vec<char>) -> (at: Option<usize>)
    ensures
        at matches Some(i) ==> first_occurrence(haystack@, needle@, i as int),
        at is None ==> !contains(haystack@, needle@),
{
    if needle.len() > haystack.len() {
        return None;
    }
    let last: usize = haystack.len() - needle.len();
    let mut i: usize = 0;
    loop
        invariant
            i <= last,
            last == haystack.len() - needle.len(),
            forall|earlier: int| 0 <= earlier < i ==> !occurs_at(haystack@, needle@, earlier),
        decreases last - i,
    {
        if matches_at(haystack, needle, i) {
            return Some(i);
        }
        if i == last {
            return None;
        }
        i += 1;
    }
}

/// Tells whether `needle` stands somewhere in `haystack`.
pub fn contains_text(haystack: &Vec<char>, needle: &Vec<char>) -> (found: bool)
    ensures
        found == contains(haystack@, needle@),
{
    find(haystack, needle).is_some()
}

/// The decimal digit of a number below ten.
pub open spec fn digit_char(d: nat) -> char
    recommends
        d < 10,
{
    ((48 + d) as u8) as char
}

/// The decimal notation of a number, without leading zeros.
pub open spec fn decimal(n: nat) -> Seq<char>
    decreases n,
{
    if n < 10 {
        seq![digit_char(n)]
    } else {
        decimal(n / 10).push(digit_char(n % 10))
    }
}

/// Writes a number in decimal notation.
pub fn to_decimal(n: u64) -> (digits: Vec<char>)
    ensures
        digits@ == decimal(n as nat),
{
    let mut reversed: Vec<char> = Vec::new();
    let mut rest: u64 = n;
    while rest >= 10
        invariant
            decimal(n as nat) == decimal(rest as nat) + reversed@.reverse(),
        decreases rest,
    {
        let d: u8 = (rest % 10) as u8;
        let ghost before = reversed@;
        reversed.push((48 + d) as char);
        proof {
            assert(reversed@.reverse() =~= seq![digit_char((rest % 10) as nat)] + before.reverse());
            assert(decimal(rest as nat) == decimal((rest / 10) as nat).push(
                digit_char((rest % 10) as nat),
            ));
            assert(decimal(rest as nat) + before.reverse() =~= decimal((rest / 10) as nat)
                + reversed@.reverse());
        }
        rest = rest / 10;
    }
    let mut digits: Vec<char> = Vec::new();
    digits.push((48 + (rest as u8)) as char);
    let ghost head = digits@;
    assert(head == decimal(rest as nat));
    let mut i: usize = reversed.len();
    while i > 0
        invariant
            i <= reversed.len(),
            digits@ == head + reversed@.reverse().take(reversed.len() - i),
        decreases i,
    {
        i -= 1;
        digits.push(reversed[i]);
        proof {
            let r = reversed@.reverse();
            let done = reversed.len() - i;
            assert(r.take(done) =~= r.take(done - 1).push(r[done - 1]));
            assert(r[done - 1] == reversed@[i as int]);
        }
    }
    assert(reversed@.reverse().take(reversed.len() as int) =~= reversed@.reverse());
    digits
}

/// Whether a character is white space: one of those that Unicode gives the
/// property White_Space.
pub open spec fn white_space(c: char) -> bool {
    ||| '\u{0009}' <= c && c <= '\u{000D}'
    ||| c == '\u{0020}'
    ||| c == '\u{0085}'
    ||| c == '\u{00A0}'
    ||| c == '\u{1680}'
    ||| '\u{2000}' <= c && c <= '\u{200A}'
    ||| c == '\u{2028}'
    ||| c == '\u{2029}'
    ||| c == '\u{202F}'
    ||| c == '\u{205F}'
    ||| c == '\u{3000}'
}

/// A text without the white space at its start.
pub open spec fn trimmed_start(text: Seq<char>) -> Seq<char>
    decreases text.len(),
{
    if text.len() > 0 && white_space(text[0]) {
        trimmed_start(text.drop_first())
    } else {
        text
    }
}

/// A text without the white space at its end.
pub open spec fn trimmed_end(text: Seq<char>) -> Seq<char>
    decreases text.len(),
{
    if text.len() > 0 && white_space(text.last()) {
        trimmed_end(text.drop_last())
    } else {
        text
    }
}

/// A text without the white space at its ends.
pub open spec fn trimmed(text: Seq<char>) -> Seq<char> {
    trimmed_end(trimmed_start(text))
}

/// Whether a character is white space.
pub fn is_white_space(c: char) -> (white: bool)
    ensures
        white == white_space(c),
{
    ('\u{0009}' <= c && c <= '\u{000D}') || c == '\u{0020}' || c == '\u{0085}' || c == '\u{00A0}' || c
        == '\u{1680}' || ('\u{2000}' <= c && c <= '\u{200A}') || c == '\u{2028}' || c == '\u{2029}' || c
        == '\u{202F}' || c == '\u{205F}' || c == '\u{3000}'
}

/// Removes the white space at both ends of a text.
pub fn trim(text: &str) -> (bare: String)
    ensures
        bare@ == trimmed(text@),
{
    let chars = chars_of(text);
    let mut start: usize = 0;
    assert(chars@.subrange(0, chars.len() as int) =~= chars@);
    while start < chars.len() && is_white_space(chars[start])
        invariant
            start <= chars.len(),
            trimmed_start(chars@) == trimmed_start(chars@.subrange(start as int, chars.len() as int)),
        decreases chars.len() - start,
    {
        assert(chars@.subrange(start as int, chars.len() as int).drop_first() =~= chars@.subrange(
            start + 1,
            chars.len() as int,
        ));
        start += 1;
    }
    let mut end: usize = chars.len();
    while end > start && is_white_space(chars[end - 1])
        invariant
            start <= end <= chars.len(),
            trimmed_start(chars@) == chars@.subrange(start as int, chars.len() as int),
            trimmed(chars@) == trimmed_end(chars@.subrange(start as int, end as int)),
        decreases end,
    {
        assert(chars@.subrange(start as int, end as int).drop_last() =~= chars@.subrange(
            start as int,
            end - 1,
        ));
        end -= 1;
    }
    string_of(&copy_range(&chars, start, end))
}

/// The characters from `from` up to `to`.
pub fn copy_range(chars: &Vec<char>, from: usize, to: usize) -> (part: Vec<char>)
    requires
        from <= to <= chars.len(),
    ensures
        part@ == chars@.subrange(from as int, to as int),
{
    let mut part: Vec<char> = Vec::new();
    let mut i: usize = from;
    while i < to
        invariant
            from <= i <= to <= chars.len(),
            part@ == chars@.subrange(from as int, i as int),
        decreases to - i,
    {
        part.push(chars[i]);
        assert(part@ =~= chars@.subrange(from as int, i + 1));
        i += 1;
    }
    part
}

/// Whether a character is a decimal digit.
pub open spec fn is_digit(c: char) -> bool {
    '0' <= c && c <= '9'
}

/// The first place from `from` on and before `end` that holds no digit;
/// `end` where each holds one.
pub open spec fn digits_end(text: Seq<char>, from: int, end: int) -> int
    decreases end - from,
{
    if from >= end || !is_digit(text[from]) {
        from
    } else {
        digits_end(text, from + 1, end)
    }
}

/// The number that the digits from `from` up to `to` write.
pub open spec fn number_at(text: Seq<char>, from: int, to: int) -> nat
    decreases to - from,
{
    if to <= from {
        0
    } else {
        (number_at(text, from, to - 1) * 10 + (text[to - 1] as int - '0' as int)) as nat
    }
}

/// Finds the end of a run of digits.
pub fn find_digits_end(chars: &Vec<char>, from: usize, end: usize) -> (at: usize)
    requires
        from <= end <= chars.len(),
    ensures
        at == digits_end(chars@, from as int, end as int),
        from <= at <= end,
        forall|i: int| from <= i < at ==> is_digit(chars@[i]),
{
    let mut i: usize = from;
    while i < end && '0' <= chars[i] && chars[i] <= '9'
        invariant
            from <= i <= end <= chars.len(),
            digits_end(chars@, from as int, end as int) == digits_end(chars@, i as int, end as int),
            forall|j: int| from <= j < i ==> is_digit(chars@[j]),
        decreases end - i,
    {
        i += 1;
    }
    i
}

/// The greatest number that a run of digits is read as.
pub const NUMBER_LIMIT: u64 = 0x1_0000_0000;

/// Reads a run of digits as a number; a number above the limit is read as
/// the limit.
pub fn read_number(chars: &Vec<char>, from: usize, to: usize) -> (number: u64)
    requires
        from <= to <= chars.len(),
        forall|i: int| from <= i < to ==> is_digit(chars@[i]),
    ensures
        number == if number_at(chars@, from as int, to as int) < NUMBER_LIMIT {
            number_at(chars@, from as int, to as int)
        } else {
            NUMBER_LIMIT as nat
        },
{
    let mut number: u64 = 0;
    let mut i: usize = from;
    while i < to
        invariant
            from <= i <= to <= chars.len(),
            forall|j: int| from <= j < to ==> is_digit(chars@[j]),
            number == if number_at(chars@, from as int, i as int) < NUMBER_LIMIT {
                number_at(chars@, from as int, i as int)
            } else {
                NUMBER_LIMIT as nat
            },
        decreases to - i,
    {
        assert(is_digit(chars@[i as int]));
        let digit: u64 = (chars[i] as u32 - '0' as u32) as u64;
        number = number * 10 + digit;
        if number > NUMBER_LIMIT {
            number = NUMBER_LIMIT;
        }
        i += 1;
    }
    number
}

/// The end of the line that holds place `from`: the place of the next line
/// feed, or the end of the text.
pub open spec fn line_end(text: Seq<char>, from: int) -> int
    decreases text.len() - from,
{
    if from < 0 || from >= text.len() || text[from] == '\n' {
        from
    } else {
        line_end(text, from + 1)
    }
}

/// A line ends at or behind each of its places, and within the text.
pub proof fn lemma_line_end_is_behind(text: Seq<char>, from: int)
    requires
        0 <= from <= text.len(),
    ensures
        from <= line_end(text, from) <= text.len(),
    decreases text.len() - from,
{
    if from < text.len() && text[from] != '\n' {
        lemma_line_end_is_behind(text, from + 1);
    }
}

/// Finds the end of a line.
pub fn find_line_end(chars: &Vec<char>, from: usize) -> (at: usize)
    requires
        from <= chars.len(),
    ensures
        at == line_end(chars@, from as int),
        from <= at <= chars.len(),
{
    let mut i: usize = from;
    while i < chars.len() && chars[i] != '\n'
        invariant
            from <= i <= chars.len(),
            line_end(chars@, from as int) == line_end(chars@, i as int),
        decreases chars.len() - i,
    {
        i += 1;
    }
    i
}

} // verus!
