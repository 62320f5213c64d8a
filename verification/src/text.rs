//! Small helpers on text, stated over sequences of characters.

use vstd::prelude::*;

verus! {

/// The characters of a string, in order.
pub fn chars_of(s: &str) -> (chars: Vec<char>)
    ensures
        chars@ == s@,
{
    let mut chars: Vec<char> = Vec::new();
    for c in it: s.chars()
        invariant
            chars@ == it.seq().take(it.index() as int),
            it.seq() == s@,
    {
        chars.push(c);
    }
    chars
}

/// Whether two strings hold the same characters.
pub fn same_text(a: &str, b: &str) -> (same: bool)
    ensures
        same == (a@ == b@),
{
    let left = a.to_owned();
    let right = b.to_owned();
    left == right
}

/// Whether `text` begins with `prefix`.
pub open spec fn has_prefix(text: Seq<char>, prefix: Seq<char>) -> bool {
    prefix.len() <= text.len() && text.take(prefix.len() as int) == prefix
}

/// Whether `text` ends with `suffix`.
pub open spec fn has_suffix(text: Seq<char>, suffix: Seq<char>) -> bool {
    suffix.len() <= text.len() && text.skip(text.len() - suffix.len()) == suffix
}

fn matches_at(text: &Vec<char>, at: usize, part: &Vec<char>) -> (same: bool)
    requires
        at + part.len() <= text.len(),
    ensures
        same == (text@.subrange(at as int, at + part.len()) == part@),
{
    let mut i: usize = 0;
    while i < part.len()
        invariant
            i <= part.len(),
            at + part.len() <= text.len(),
            forall|j: int| 0 <= j < i ==> text@[at + j] == part@[j],
        decreases part.len() - i,
    {
        if text[at + i] != part[i] {
            return false;
        }
        i = i + 1;
    }
    assert(text@.subrange(at as int, at + part.len()) =~= part@);
    true
}

/// Whether `text` begins with `prefix`.
pub fn starts_with(text: &str, prefix: &str) -> (found: bool)
    ensures
        found == has_prefix(text@, prefix@),
{
    let all = chars_of(text);
    let part = chars_of(prefix);
    if part.len() > all.len() {
        false
    } else {
        matches_at(&all, 0, &part)
    }
}

/// Whether `text` ends with `suffix`.
pub fn ends_with(text: &str, suffix: &str) -> (found: bool)
    ensures
        found == has_suffix(text@, suffix@),
{
    let all = chars_of(text);
    let part = chars_of(suffix);
    if part.len() > all.len() {
        false
    } else {
        matches_at(&all, all.len() - part.len(), &part)
    }
}

/// The text that follows the first `count` characters.
pub fn after_prefix(text: &str, count: usize) -> (rest: String)
    requires
        count <= text@.len(),
    ensures
        rest@ == text@.skip(count as int),
{
    let len = text.unicode_len();
    text.substring_char(count, len).to_owned()
}

/// Whether a character separates words: the code points that Unicode
/// gives the property `White_Space`.
pub open spec fn is_whitespace(c: char) -> bool {
    let n = c as u32;
    ||| 0x09 <= n <= 0x0D
    ||| n == 0x20
    ||| n == 0x85
    ||| n == 0xA0
    ||| n == 0x1680
    ||| 0x2000 <= n <= 0x200A
    ||| n == 0x2028
    ||| n == 0x2029
    ||| n == 0x202F
    ||| n == 0x205F
    ||| n == 0x3000
}

/// Whether a character separates words.
pub fn whitespace(c: char) -> (white: bool)
    ensures
        white == is_whitespace(c),
{
    let n: u32 = c as u32;
    (0x09 <= n && n <= 0x0D) || n == 0x20 || n == 0x85 || n == 0xA0 || n == 0x1680 || (0x2000
        <= n && n <= 0x200A) || n == 0x2028 || n == 0x2029 || n == 0x202F || n == 0x205F || n
        == 0x3000
}

/// The words of a text: its maximal runs of characters that are not
/// whitespace, in order. Reading from the left, whitespace adds nothing, a
/// character that follows a word's character extends that word, and any
/// other character begins a new word.
pub open spec fn words(text: Seq<char>) -> Seq<Seq<char>>
    decreases text.len(),
{
    if text.len() == 0 {
        Seq::empty()
    } else {
        let before = words(text.drop_last());
        if is_whitespace(text.last()) {
            before
        } else if text.len() >= 2 && !is_whitespace(text[text.len() - 2]) && before.len() > 0 {
            before.drop_last().push(before.last().push(text.last()))
        } else {
            before.push(seq![text.last()])
        }
    }
}

/// What `words` is in the middle of a word that began at `start`: the
/// words before it, and the part of the word read so far.
proof fn lemma_words_open(text: Seq<char>, start: int, end: int)
    requires
        0 <= start < end <= text.len(),
        start == 0 || is_whitespace(text[start - 1]),
        forall|j: int| start <= j < end ==> !is_whitespace(text[j]),
    ensures
        words(text.take(end)) == words(text.take(start)).push(text.subrange(start, end)),
    decreases end - start,
{
    let upto = text.take(end);
    assert(upto.drop_last() =~= text.take(end - 1));
    if end - 1 == start {
        assert(text.subrange(start, end) =~= seq![upto.last()]);
    } else {
        lemma_words_open(text, start, end - 1);
        let before = words(text.take(end - 1));
        assert(before.last().push(upto.last()) =~= text.subrange(start, end));
    }
}

/// Splits a text into its words.
pub fn split_whitespace(text: &str) -> (parts: Vec<String>)
    ensures
        parts.deep_view() == words(text@),
{
    let chars = chars_of(text);
    let mut parts: Vec<String> = Vec::new();
    let mut start: usize = 0;
    let mut open: bool = false;
    let mut i: usize = 0;
    while i < chars.len()
        invariant
            chars@ == text@,
            i <= chars.len(),
            open ==> start < i,
            open ==> start == 0 || is_whitespace(text@[start - 1]),
            open ==> forall|j: int| start <= j < i ==> !is_whitespace(text@[j]),
            !open ==> i == 0 || is_whitespace(text@[i - 1]),
            parts.deep_view() == if open {
                words(text@.take(start as int))
            } else {
                words(text@.take(i as int))
            },
        decreases chars.len() - i,
    {
        let white = whitespace(chars[i]);
        assert(text@.take(i + 1).drop_last() =~= text@.take(i as int));
        if white {
            if open {
                proof {
                    lemma_words_open(text@, start as int, i as int);
                }
                let word = text.substring_char(start, i).to_owned();
                parts.push(word);
                open = false;
            }
        } else {
            if !open {
                start = i;
                open = true;
            }
        }
        i = i + 1;
    }
    assert(text@.take(i as int) =~= text@);
    if open {
        proof {
            lemma_words_open(text@, start as int, i as int);
        }
        let word = text.substring_char(start, i).to_owned();
        parts.push(word);
    }
    parts
}

/// Whether a character is one of the ten decimal digits.
pub open spec fn is_digit(c: char) -> bool {
    0x30 <= c as u32 <= 0x39
}

/// The number that a run of decimal digits stands for.
pub open spec fn decimal(digits: Seq<char>) -> nat
    decreases digits.len(),
{
    if digits.len() == 0 {
        0
    } else {
        decimal(digits.drop_last()) * 10 + (digits.last() as u32 - 0x30) as nat
    }
}

/// The digits of a number's text: what follows one leading plus sign, if
/// there is one, and the whole text otherwise.
pub open spec fn unsigned_part(text: Seq<char>) -> Seq<char> {
    if text.len() > 0 && text[0] == '+' {
        text.drop_first()
    } else {
        text
    }
}

/// The number that a text stands for, if it stands for one that fits in 64
/// bits: an optional plus sign, then one or more decimal digits, and
/// nothing else.
pub open spec fn parsed_u64(text: Seq<char>) -> Option<u64> {
    let digits = unsigned_part(text);
    if digits.len() > 0 && (forall|i: int| 0 <= i < digits.len() ==> is_digit(digits[i]))
        && decimal(digits) <= u64::MAX {
        Some(decimal(digits) as u64)
    } else {
        None
    }
}

proof fn lemma_decimal_grows(digits: Seq<char>, count: int)
    requires
        0 <= count <= digits.len(),
        forall|i: int| 0 <= i < digits.len() ==> is_digit(digits[i]),
    ensures
        decimal(digits.take(count)) <= decimal(digits),
    decreases digits.len() - count,
{
    if count == digits.len() {
        assert(digits.take(count) =~= digits);
    } else {
        lemma_decimal_grows(digits, count + 1);
        assert(digits.take(count + 1).drop_last() =~= digits.take(count));
    }
}

/// Reads a number that fits in 64 bits from its decimal text.
pub fn parse_u64(text: &str) -> (number: Option<u64>)
    ensures
        number == parsed_u64(text@),
{
    let chars = chars_of(text);
    let first: usize = if chars.len() > 0 && chars[0] == '+' {
        1
    } else {
        0
    };
    let ghost digits = unsigned_part(text@);
    if chars.len() == first {
        return None;
    }
    let mut value: u64 = 0;
    let mut i: usize = first;
    while i < chars.len()
        invariant
            chars@ == text@,
            first <= i <= chars.len(),
            digits == text@.skip(first as int),
            digits == unsigned_part(text@),
            forall|j: int| 0 <= j < i - first ==> is_digit(digits[j]),
            value == decimal(digits.take(i - first)),
        decreases chars.len() - i,
    {
        let c: char = chars[i];
        let n: u32 = #[verifier::truncate] (c as u32);
        if n < 0x30 || n > 0x39 {
            assert(!is_digit(digits[i - first]));
            return None;
        }
        let digit: u64 = (n - 0x30) as u64;
        let ghost next = digits.take(i - first + 1);
        assert(next.drop_last() =~= digits.take(i - first));
        if value > (u64::MAX - digit) / 10 {
            proof {
                if forall|j: int| 0 <= j < digits.len() ==> is_digit(digits[j]) {
                    lemma_decimal_grows(digits, i - first + 1);
                }
            }
            return None;
        }
        value = value * 10 + digit;
        i = i + 1;
    }
    assert(digits.take(i - first) =~= digits);
    Some(value)
}

} // verus!
