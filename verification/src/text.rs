//! Text: decimal numbers, words, and display truncation.

use vstd::prelude::*;
use vstd::string::*;

verus! {

/// The character of one decimal digit.
pub open spec fn digit_char(digit: nat) -> char {
    ('0' as int + digit) as char
}

/// A natural number in decimal, without leading zeros.
pub open spec fn decimal_text(value: nat) -> Seq<char>
    decreases value,
{
    if value < 10 {
        seq![digit_char(value)]
    } else {
        decimal_text(value / 10).push(digit_char(value % 10))
    }
}

/// An integer in decimal, with a leading minus sign where it is negative.
pub open spec fn signed_decimal_text(value: int) -> Seq<char> {
    if value < 0 {
        "-"@ + decimal_text((-value) as nat)
    } else {
        decimal_text(value as nat)
    }
}

fn digit_text(digit: u64) -> (text: &'static str)
    requires
        digit < 10,
    ensures
        text@ == seq![digit_char(digit as nat)],
{
    proof {
        reveal_strlit("0");
        reveal_strlit("1");
        reveal_strlit("2");
        reveal_strlit("3");
        reveal_strlit("4");
        reveal_strlit("5");
        reveal_strlit("6");
        reveal_strlit("7");
        reveal_strlit("8");
        reveal_strlit("9");
    }
    match digit {
        0 => "0",
        1 => "1",
        2 => "2",
        3 => "3",
        4 => "4",
        5 => "5",
        6 => "6",
        7 => "7",
        8 => "8",
        _ => "9",
    }
}

/// Writes a number in decimal.
pub fn decimal(value: u64) -> (text: String)
    ensures
        text@ == decimal_text(value as nat),
    decreases value,
{
    if value < 10 {
        digit_text(value).to_owned()
    } else {
        decimal(value / 10).concat(digit_text(value % 10))
    }
}

/// Writes a signed number in decimal.
pub fn signed_decimal(value: i64) -> (text: String)
    ensures
        text@ == signed_decimal_text(value as int),
{
    if value == i64::MIN {
        let text = "-".to_owned().concat(&decimal(9_223_372_036_854_775_808));
        text
    } else if value < 0 {
        "-".to_owned().concat(&decimal((-value) as u64))
    } else {
        decimal(value as u64)
    }
}

/// Whether a character has the Unicode property `White_Space`.
pub open spec fn is_whitespace_char(c: char) -> bool {
    let code = c as u32;
    ||| 0x09 <= code <= 0x0d
    ||| code == 0x20
    ||| code == 0x85
    ||| code == 0xa0
    ||| code == 0x1680
    ||| 0x2000 <= code <= 0x200a
    ||| code == 0x2028
    ||| code == 0x2029
    ||| code == 0x202f
    ||| code == 0x205f
    ||| code == 0x3000
}

/// Whether a character has the Unicode property `White_Space`.
pub fn is_whitespace(c: char) -> (whitespace: bool)
    ensures
        whitespace == is_whitespace_char(c),
{
    let code: u32 = c as u32;
    (0x09 <= code && code <= 0x0d) || code == 0x20 || code == 0x85 || code == 0xa0 || code == 0x1680
        || (0x2000 <= code && code <= 0x200a) || code == 0x2028 || code == 0x2029 || code == 0x202f
        || code == 0x205f || code == 0x3000
}

/// How many characters come before the first white space.
pub open spec fn word_len(text: Seq<char>) -> nat
    decreases text.len(),
{
    if text.len() == 0 || is_whitespace_char(text[0]) {
        0
    } else {
        1 + word_len(text.skip(1))
    }
}

/// A word ends where the text does, at the latest.
pub proof fn lemma_word_len_bound(text: Seq<char>)
    ensures
        word_len(text) <= text.len(),
    decreases text.len(),
{
    if text.len() > 0 && !is_whitespace_char(text[0]) {
        lemma_word_len_bound(text.skip(1));
    }
}

/// A word that ends before character `len`, and not earlier, has `len` characters.
pub proof fn lemma_word_len(text: Seq<char>, len: int)
    requires
        0 <= len <= text.len(),
        forall|i: int| 0 <= i < len ==> !is_whitespace_char(#[trigger] text[i]),
        len < text.len() ==> is_whitespace_char(text[len]),
    ensures
        word_len(text) == len,
    decreases len,
{
    if len > 0 {
        let rest = text.skip(1);
        assert forall|i: int| 0 <= i < len - 1 implies !is_whitespace_char(#[trigger] rest[i]) by {
            assert(rest[i] == text[i + 1]);
        }
        lemma_word_len(rest, len - 1);
    }
}

/// The words of a text: its longest runs without white space, in order.
pub open spec fn words_of(text: Seq<char>) -> Seq<Seq<char>>
    decreases text.len(),
{
    if text.len() == 0 {
        seq![]
    } else if is_whitespace_char(text[0]) {
        words_of(text.skip(1))
    } else {
        proof {
            lemma_word_len_bound(text);
        }
        seq![text.take(word_len(text) as int)] + words_of(text.skip(word_len(text) as int))
    }
}

/// The characters of a text.
pub fn characters(text: &str) -> (characters: Vec<char>)
    ensures
        characters@ == text@,
{
    let mut characters: Vec<char> = Vec::new();
    for c in iter: text.chars()
        invariant
            iter.seq() == text@,
            characters@ == text@.take(iter.index()),
    {
        assert(text@.take(iter.index() + 1) =~= text@.take(iter.index()).push(c));
        characters.push(c);
    }
    assert(text@.take(text@.len() as int) =~= text@);
    characters
}

/// Splits a text into its words.
pub fn split_words(text: &[char]) -> (words: Vec<Vec<char>>)
    ensures
        words@.map_values(|word: Vec<char>| word@) == words_of(text@),
{
    let mut words: Vec<Vec<char>> = Vec::new();
    let mut start: usize = 0;
    assert(text@.skip(0) =~= text@);
    assert(words@.map_values(|word: Vec<char>| word@) + words_of(text@) =~= words_of(text@));
    while start < text.len()
        invariant
            start <= text@.len(),
            words@.map_values(|word: Vec<char>| word@) + words_of(text@.skip(start as int))
                == words_of(text@),
        decreases text@.len() - start,
    {
        let ghost rest = text@.skip(start as int);
        assert(rest[0] == text@[start as int]);
        if is_whitespace(text[start]) {
            assert(rest.skip(1) =~= text@.skip(start + 1));
            start += 1;
        } else {
            let mut end: usize = start;
            while end < text.len() && !is_whitespace(text[end])
                invariant
                    start <= end <= text@.len(),
                    forall|i: int| start <= i < end ==> !is_whitespace_char(#[trigger] text@[i]),
                decreases text@.len() - end,
            {
                end += 1;
            }
            let word: Vec<char> = vstd::slice::slice_to_vec(&text[start..end]);
            proof {
                lemma_word_len(rest, end - start);
                assert(end > start);
                assert(rest.take(end - start) =~= word@);
                assert(rest.skip(end - start) =~= text@.skip(end as int));
            }
            let ghost before = words@.map_values(|word: Vec<char>| word@);
            words.push(word);
            assert(words@.map_values(|word: Vec<char>| word@) =~= before.push(word@));
            assert(before + (seq![word@] + words_of(text@.skip(end as int))) =~= before.push(word@)
                + words_of(text@.skip(end as int)));
            start = end;
        }
    }
    assert(text@.skip(start as int) =~= seq![]);
    assert(words@.map_values(|word: Vec<char>| word@) + seq![] =~= words@.map_values(
        |word: Vec<char>| word@,
    ));
    words
}

/// Whether a text consists of decimal digits alone.
pub open spec fn all_digits(text: Seq<char>) -> bool {
    forall|i: int| 0 <= i < text.len() ==> '0' <= #[trigger] text[i] <= '9'
}

/// The number that decimal digits write.
pub open spec fn digits_value(digits: Seq<char>) -> int
    decreases digits.len(),
{
    if digits.len() == 0 {
        0
    } else {
        10 * digits_value(digits.drop_last()) + (digits.last() as int - '0' as int)
    }
}

/// More digits write no smaller number.
proof fn lemma_digits_value_grows(digits: Seq<char>, len: int)
    requires
        all_digits(digits),
        0 <= len <= digits.len(),
    ensures
        0 <= digits_value(digits.take(len)) <= digits_value(digits),
    decreases digits.len(),
{
    if len == digits.len() {
        assert(digits.take(len) =~= digits);
        if len > 0 {
            let shorter = digits.drop_last();
            assert(all_digits(shorter)) by {
                assert forall|i: int| 0 <= i < shorter.len() implies '0' <= #[trigger] shorter[i]
                    <= '9' by {
                    assert(shorter[i] == digits[i]);
                }
            }
            lemma_digits_value_grows(shorter, len - 1);
            assert('0' <= digits[len - 1] <= '9');
        }
    } else {
        let shorter = digits.drop_last();
        assert(all_digits(shorter)) by {
            assert forall|i: int| 0 <= i < shorter.len() implies '0' <= #[trigger] shorter[i]
                <= '9' by {
                assert(shorter[i] == digits[i]);
            }
        }
        lemma_digits_value_grows(shorter, len);
        assert(shorter.take(len) =~= digits.take(len));
        assert('0' <= digits[digits.len() - 1] <= '9');
    }
}

/// The digits of a number that a plus sign may precede.
pub open spec fn unsigned_digits(text: Seq<char>) -> Seq<char> {
    if text.len() > 0 && text[0] == '+' {
        text.skip(1)
    } else {
        text
    }
}

/// The number that a text writes in decimal, if it is no greater than `maximum`.
pub open spec fn unsigned_value(text: Seq<char>, maximum: int) -> Option<int> {
    let digits = unsigned_digits(text);
    if digits.len() > 0 && all_digits(digits) && digits_value(digits) <= maximum {
        Some(digits_value(digits))
    } else {
        None
    }
}

/// Reads a decimal number that is no greater than `maximum`. A plus sign may precede the digits.
pub fn parse_unsigned(text: &[char], maximum: u64) -> (value: Option<u64>)
    ensures
        match value {
            Some(value) => unsigned_value(text@, maximum as int) == Some(value as int),
            None => unsigned_value(text@, maximum as int) is None,
        },
{
    let start: usize = if text.len() > 0 && text[0] == '+' {
        1
    } else {
        0
    };
    let ghost digits = unsigned_digits(text@);
    assert(digits =~= text@.skip(start as int));
    if start == text.len() {
        return None;
    }
    let mut value: u64 = 0;
    let mut position: usize = start;
    assert(digits.take(0) =~= seq![]);
    while position < text.len()
        invariant
            start <= position <= text@.len(),
            digits == text@.skip(start as int),
            digits == unsigned_digits(text@),
            forall|i: int| 0 <= i < position - start ==> '0' <= #[trigger] digits[i] <= '9',
            value == digits_value(digits.take(position - start)),
            value <= maximum,
        decreases text@.len() - position,
    {
        let c: char = text[position];
        let ghost read = position - start;
        assert(digits[read] == c);
        if !('0' <= c && c <= '9') {
            return None;
        }
        let digit: u128 = (c as u32 - '0' as u32) as u128;
        let wider: u128 = value as u128 * 10 + digit;
        proof {
            assert(digits.take(read + 1).drop_last() =~= digits.take(read));
            assert(wider == digits_value(digits.take(read + 1)));
            if all_digits(digits) {
                lemma_digits_value_grows(digits, read + 1);
            }
        }
        if wider > maximum as u128 {
            return None;
        }
        value = wider as u64;
        position += 1;
    }
    assert(digits.take(position - start) =~= digits);
    Some(value)
}

/// A number is read back from its decimal text.
pub proof fn law_decimal_text_is_read_back(value: nat, maximum: int)
    ensures
        all_digits(decimal_text(value)),
        unsigned_value(decimal_text(value), maximum) == (if value <= maximum {
            Some(value as int)
        } else {
            None
        }),
{
    lemma_decimal_text(value);
    let text = decimal_text(value);
    assert('0' <= text[0] <= '9');
}

proof fn lemma_decimal_text(value: nat)
    ensures
        decimal_text(value).len() > 0,
        all_digits(decimal_text(value)),
        digits_value(decimal_text(value)) == value,
    decreases value,
{
    let text = decimal_text(value);
    if value < 10 {
        assert(text.drop_last() =~= seq![]);
        assert(digits_value(text.drop_last()) == 0);
    } else {
        lemma_decimal_text(value / 10);
        assert(text.drop_last() =~= decimal_text(value / 10));
        assert forall|i: int| 0 <= i < text.len() implies '0' <= #[trigger] text[i] <= '9' by {
            if i < text.len() - 1 {
                assert(text[i] == decimal_text(value / 10)[i]);
            }
        }
    }
}

/// A text that is cut to `keep` characters and marked where it has more than `threshold`.
pub open spec fn truncated_text(value: Seq<char>, threshold: int, keep: int) -> Seq<char> {
    if value.len() <= threshold {
        value
    } else if keep < value.len() {
        value.take(keep) + "..."@
    } else {
        value + "..."@
    }
}

/// A text that is no longer than `threshold` is shown whole. Any other is shown as its first
/// `keep` characters, whole characters all of them, and three dots.
pub proof fn law_truncation(value: Seq<char>, threshold: int, keep: int)
    requires
        0 <= keep,
    ensures
        value.len() <= threshold ==> truncated_text(value, threshold, keep) == value,
        value.len() > threshold ==> {
            let text = truncated_text(value, threshold, keep);
            let kept = if keep < value.len() {
                keep
            } else {
                value.len() as int
            };
            &&& text.len() == kept + 3
            &&& text.take(kept) == value.take(kept)
            &&& text.skip(kept) == seq!['.', '.', '.']
        },
{
    reveal_strlit("...");
    if value.len() > threshold {
        let text = truncated_text(value, threshold, keep);
        let kept = if keep < value.len() {
            keep
        } else {
            value.len() as int
        };
        assert(text.take(kept) =~= value.take(kept));
        assert(text.skip(kept) =~= seq!['.', '.', '.']);
    }
}

/// Cuts a text to `keep` characters where it has more than `threshold`.
pub fn truncate_for_display(value: &str, threshold: usize, keep: usize) -> (text: String)
    ensures
        text@ == truncated_text(value@, threshold as int, keep as int),
{
    let len: usize = value.unicode_len();
    if len <= threshold {
        value.to_owned()
    } else {
        let end: usize = if keep < len {
            keep
        } else {
            len
        };
        assert(value@.subrange(0, end as int) =~= value@.take(end as int));
        assert(value@.take(len as int) =~= value@);
        value.substring_char(0, end).to_owned().concat("...")
    }
}

/// Whether a text starts with the given one.
pub fn has_prefix(text: &[char], prefix: &str) -> (starts: bool)
    ensures
        starts == prefix@.is_prefix_of(text@),
{
    let expected: Vec<char> = characters(prefix);
    if expected.len() > text.len() {
        return false;
    }
    let mut i: usize = 0;
    while i < expected.len()
        invariant
            expected@ == prefix@,
            i <= expected@.len() <= text@.len(),
            forall|j: int| 0 <= j < i ==> expected@[j] == #[trigger] text@[j],
        decreases expected@.len() - i,
    {
        if expected[i] != text[i] {
            assert(text@.subrange(0, prefix@.len() as int)[i as int] != prefix@[i as int]);
            return false;
        }
        i += 1;
    }
    assert(prefix@ =~= text@.subrange(0, prefix@.len() as int));
    true
}

/// A text that spaces fill up to the given width.
pub open spec fn padded(text: Seq<char>, width: nat) -> Seq<char> {
    if text.len() < width {
        text + Seq::new((width - text.len()) as nat, |i: int| ' ')
    } else {
        text
    }
}

/// Fills a text up to the given width with spaces.
pub fn pad(text: &str, width: usize) -> (filled: String)
    ensures
        filled@ == padded(text@, width as nat),
{
    let mut filled: String = text.to_owned();
    let len: usize = text.unicode_len();
    let mut at: usize = len;
    assert(filled@ =~= text@ + Seq::new(0, |i: int| ' '));
    while at < width
        invariant
            len == text@.len(),
            len <= at,
            at <= width || at == len,
            filled@ == text@ + Seq::new((at - len) as nat, |i: int| ' '),
        decreases width - at,
    {
        filled.append(" ");
        at += 1;
        proof {
            reveal_strlit(" ");
            assert(filled@ =~= text@ + Seq::new((at - len) as nat, |i: int| ' '));
        }
    }
    assert(filled@ =~= padded(text@, width as nat));
    filled
}

/// Texts one after the other, with a separator between each and the next.
pub open spec fn joined(texts: Seq<Seq<char>>, separator: Seq<char>) -> Seq<char>
    decreases texts.len(),
{
    if texts.len() == 0 {
        seq![]
    } else if texts.len() == 1 {
        texts[0]
    } else {
        joined(texts.drop_last(), separator) + separator + texts.last()
    }
}

/// Joins texts with a separator.
pub fn join(texts: &Vec<String>, separator: &str) -> (text: String)
    ensures
        text@ == joined(texts@.map_values(|text: String| text@), separator@),
{
    let ghost views = texts@.map_values(|text: String| text@);
    if texts.len() == 0 {
        let text: String = "".to_owned();
        proof {
            reveal_strlit("");
            assert(text@ =~= joined(views, separator@));
        }
        return text;
    }
    let mut text: String = texts[0].as_str().to_owned();
    let mut i: usize = 1;
    assert(views.take(1) =~= seq![views[0]]);
    while i < texts.len()
        invariant
            1 <= i <= texts@.len(),
            views == texts@.map_values(|text: String| text@),
            text@ == joined(views.take(i as int), separator@),
        decreases texts@.len() - i,
    {
        text.append(separator);
        text.append(texts[i].as_str());
        proof {
            assert(views.take(i + 1).drop_last() =~= views.take(i as int));
            assert(views.take(i + 1).last() == texts@[i as int]@);
        }
        i += 1;
    }
    assert(views.take(i as int) =~= views);
    text
}

} // verus!
