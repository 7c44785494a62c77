//! How numbers, words and arguments are written so that they are read.

use vstd::prelude::*;

use crate::command::Command;

verus! {

/// A number of zeros.
pub open spec fn zeros(count: nat) -> Seq<char> {
    Seq::new(count, |i: int| '0')
}

/// The digits that decimal text is made of: a number below ten is one digit, and one more digit
/// stands for ten times as much and that digit.
pub proof fn law_decimal_digits(value: nat, digit: nat, shown: char)
    requires
        digit < 10,
        shown as int == 48 + digit,
    ensures
        crate::text::decimal_text(digit) == seq![shown],
        value > 0 ==> crate::text::decimal_text(10 * value + digit) == crate::text::decimal_text(
            value,
        ).push(shown),
{
    if value > 0 {
        assert((10 * value + digit) / 10 == value);
        assert((10 * value + digit) % 10 == digit);
    }
}

/// A signed number is written with a minus sign where it is negative, and with none otherwise.
pub proof fn law_signed_decimals(value: int)
    ensures
        value >= 0 ==> crate::text::signed_decimal_text(value) == crate::text::decimal_text(
            value as nat,
        ),
        value < 0 ==> crate::text::signed_decimal_text(value) == seq!['-']
            + crate::text::decimal_text((-value) as nat),
{
    reveal_strlit("-");
    assert("-"@ =~= seq!['-']);
}

/// Leading zeros do not change what digits write.
proof fn lemma_zeros(count: nat, digits: Seq<char>)
    ensures
        crate::text::digits_value(zeros(count) + digits) == crate::text::digits_value(digits),
    decreases digits.len(), count,
{
    let text = zeros(count) + digits;
    if digits.len() > 0 {
        lemma_zeros(count, digits.drop_last());
        assert(text.drop_last() =~= zeros(count) + digits.drop_last());
    } else if count > 0 {
        lemma_zeros((count - 1) as nat, digits);
        assert(text.drop_last() =~= zeros((count - 1) as nat) + digits);
        assert(text.last() == '0');
    } else {
        assert(text =~= digits);
    }
}

/// Digits are zeros and the decimal text of what they write.
proof fn lemma_digits(digits: Seq<char>) -> (count: nat)
    requires
        digits.len() > 0,
        crate::text::all_digits(digits),
    ensures
        crate::text::digits_value(digits) >= 0,
        digits == zeros(count) + crate::text::decimal_text(
            crate::text::digits_value(digits) as nat,
        ),
    decreases digits.len(),
{
    let shorter = digits.drop_last();
    let shown = digits.last();
    assert('0' <= digits[digits.len() - 1] <= '9');
    let digit = (shown as int - 48) as nat;
    if shorter.len() == 0 {
        law_decimal_digits(0, digit, shown);
        assert(crate::text::digits_value(shorter) == 0);
        assert(digits =~= zeros(0) + seq![shown]);
        0
    } else {
        assert forall|i: int| 0 <= i < shorter.len() implies '0' <= #[trigger] shorter[i]
            <= '9' by {
            assert(shorter[i] == digits[i]);
        }
        let count = lemma_digits(shorter);
        let value = crate::text::digits_value(shorter) as nat;
        law_decimal_digits(value, digit, shown);
        if value == 0 {
            law_decimal_digits(0, 0, '0');
            assert(shorter =~= zeros(count + 1));
            assert(digits =~= zeros(count + 1) + seq![shown]);
            count + 1
        } else {
            let decimal = crate::text::decimal_text(value);
            assert(digits =~= shorter.push(shown));
            assert((zeros(count) + decimal).push(shown) =~= zeros(count) + decimal.push(shown));
            count
        }
    }
}

/// Whether a text writes a number: its decimal text, which zeros and before them one plus sign may
/// precede.
pub open spec fn writes(text: Seq<char>, value: int) -> bool {
    value >= 0 && exists|count: nat|
        text == #[trigger] zeros(count) + crate::text::decimal_text(value as nat) || text == seq![
            '+',
        ] + (zeros(count) + crate::text::decimal_text(value as nat))
}

/// A text is read as a number if it writes one that is no greater than the maximum, and as that
/// number.
pub proof fn law_numbers_are_read(text: Seq<char>, maximum: int, value: int)
    ensures
        crate::text::unsigned_value(text, maximum) == Some(value) <==> writes(text, value) && value
            <= maximum,
{
    let digits = crate::text::unsigned_digits(text);
    if crate::text::unsigned_value(text, maximum) == Some(value) {
        let count = lemma_digits(digits);
        if text.len() > 0 && text[0] == '+' {
            assert(text =~= seq!['+'] + digits);
        }
        assert(digits == zeros(count) + crate::text::decimal_text(value as nat));
        assert(writes(text, value));
    }
    if writes(text, value) && value <= maximum {
        let decimal = crate::text::decimal_text(value as nat);
        let count = choose|count: nat|
            text == #[trigger] zeros(count) + decimal || text == seq!['+'] + (zeros(count)
                + decimal);
        let number = zeros(count) + decimal;
        crate::text::law_decimal_text_is_read_back(value as nat, value);
        assert(decimal.len() > 0 && crate::text::digits_value(decimal) == value) by {
            assert('0' <= decimal[0] <= '9');
        }
        lemma_zeros(count, decimal);
        assert forall|i: int| 0 <= i < number.len() implies '0' <= #[trigger] number[i]
            <= '9' by {
            if i >= count {
                assert(number[i] == decimal[i - count]);
            }
        }
        assert('0' <= number[0] <= '9');
        if text != number {
            assert(text.skip(1) =~= number);
        }
        assert(digits == number);
    }
}

/// Whether every character of a text is white space.
pub open spec fn blank(text: Seq<char>) -> bool {
    forall|i: int| 0 <= i < text.len() ==> crate::text::is_whitespace_char(#[trigger] text[i])
}

/// Whether a text is a word: it has a character, and no white space.
pub open spec fn is_word(text: Seq<char>) -> bool {
    &&& text.len() > 0
    &&& forall|i: int| 0 <= i < text.len() ==> !crate::text::is_whitespace_char(#[trigger] text[i])
}

/// White space are the tabulators, line ends and spaces of ASCII, the next line, and the spaces
/// and separators of Unicode.
pub proof fn law_white_space(c: char)
    ensures
        (c as u32) < 0x80 ==> (crate::text::is_whitespace_char(c) <==> c == ' ' || c == '\t' || c
            == '\n' || c == '\r' || c as u32 == 0x0b || c as u32 == 0x0c),
        c as u32 >= 0x80 ==> (crate::text::is_whitespace_char(c) <==> seq![
            0x85u32,
            0xa0,
            0x1680,
            0x2000,
            0x2001,
            0x2002,
            0x2003,
            0x2004,
            0x2005,
            0x2006,
            0x2007,
            0x2008,
            0x2009,
            0x200a,
            0x2028,
            0x2029,
            0x202f,
            0x205f,
            0x3000,
        ].contains(c as u32)),
{
    let others = seq![
        0x85u32,
        0xa0,
        0x1680,
        0x2000,
        0x2001,
        0x2002,
        0x2003,
        0x2004,
        0x2005,
        0x2006,
        0x2007,
        0x2008,
        0x2009,
        0x200a,
        0x2028,
        0x2029,
        0x202f,
        0x205f,
        0x3000,
    ];
    let code = c as u32;
    if code >= 0x80 && crate::text::is_whitespace_char(c) {
        let position: int = if code == 0x85 {
            0
        } else if code == 0xa0 {
            1
        } else if code == 0x1680 {
            2
        } else if code <= 0x200a {
            code - 0x2000 + 3
        } else if code == 0x2028 {
            14
        } else if code == 0x2029 {
            15
        } else if code == 0x202f {
            16
        } else if code == 0x205f {
            17
        } else {
            18
        };
        assert(others[position] == code);
    }
}

/// White space before a text does not change its words.
proof fn lemma_gap(gap: Seq<char>, text: Seq<char>)
    requires
        blank(gap),
    ensures
        crate::text::words_of(gap + text) == crate::text::words_of(text),
    decreases gap.len(),
{
    if gap.len() == 0 {
        assert(gap + text =~= text);
    } else {
        assert((gap + text).skip(1) =~= gap.skip(1) + text);
        assert forall|i: int| 0 <= i < gap.skip(1).len() implies crate::text::is_whitespace_char(
            #[trigger] gap.skip(1)[i],
        ) by {
            assert(gap.skip(1)[i] == gap[i + 1]);
        }
        assert(crate::text::is_whitespace_char(gap[0]));
        lemma_gap(gap.skip(1), text);
    }
}

/// The words of a text are told apart by white space: what follows a gap and stands before the
/// next one is the first word, and the others are those of the rest.
pub proof fn law_first_word(gap: Seq<char>, word: Seq<char>, rest: Seq<char>)
    requires
        blank(gap),
        is_word(word),
        rest.len() > 0 ==> crate::text::is_whitespace_char(rest[0]),
    ensures
        crate::text::words_of(gap) == Seq::<Seq<char>>::empty(),
        crate::text::words_of(gap + (word + rest)) == seq![word] + crate::text::words_of(rest),
{
    let text = word + rest;
    lemma_gap(gap, seq![]);
    assert(gap + Seq::<char>::empty() =~= gap);
    lemma_gap(gap, text);
    assert forall|i: int| 0 <= i < word.len() implies !crate::text::is_whitespace_char(
        #[trigger] text[i],
    ) by {
        assert(text[i] == word[i]);
    }
    crate::text::lemma_word_len(text, word.len() as int);
    assert(text[0] == word[0]);
    assert(text.take(word.len() as int) =~= word);
    assert(text.skip(word.len() as int) =~= rest);
}

/// Texts that are joined stand one after the other, with the separator between each two.
pub proof fn law_joined_texts(first: Seq<Seq<char>>, second: Seq<Seq<char>>, separator: Seq<char>)
    ensures
        crate::text::joined(Seq::empty(), separator) == Seq::<char>::empty(),
        first.len() == 1 ==> crate::text::joined(first, separator) == first[0],
        first.len() > 0 && second.len() > 0 ==> crate::text::joined(first + second, separator)
            == crate::text::joined(first, separator) + separator + crate::text::joined(
            second,
            separator,
        ),
    decreases second.len(),
{
    if first.len() > 0 && second.len() > 0 {
        let all = first + second;
        assert(all.drop_last() =~= first + second.drop_last());
        assert(all.last() == second.last());
        if second.len() == 1 {
            assert(first + second.drop_last() =~= first);
        } else {
            law_joined_texts(first, second.drop_last(), separator);
            assert(crate::text::joined(all, separator) =~= crate::text::joined(first, separator)
                + separator + crate::text::joined(second, separator));
        }
    }
}

/// Words that are joined by white space, before a last gap, are read back.
pub proof fn law_joined_words_are_read_back(words: Seq<Seq<char>>, gap: Seq<char>, end: Seq<char>)
    requires
        forall|i: int| 0 <= i < words.len() ==> is_word(#[trigger] words[i]),
        gap.len() > 0,
        blank(gap),
        blank(end),
    ensures
        crate::text::words_of(crate::text::joined(words, gap) + end) == words,
    decreases words.len(),
{
    let text = crate::text::joined(words, gap) + end;
    law_first_word(end, seq!['a'], seq![]);
    if words.len() == 0 {
        assert(text =~= end);
        assert(words =~= seq![]);
    } else if words.len() == 1 {
        law_first_word(seq![], words[0], end);
        assert(seq![] + (words[0] + end) =~= text);
        assert(words =~= seq![words[0]] + Seq::<Seq<char>>::empty());
    } else {
        let later = words.skip(1);
        assert forall|i: int| 0 <= i < later.len() implies is_word(#[trigger] later[i]) by {
            assert(later[i] == words[i + 1]);
        }
        law_joined_words_are_read_back(later, gap, end);
        law_joined_texts(seq![words[0]], later, gap);
        assert(seq![words[0]] + later =~= words);
        let rest = gap + (crate::text::joined(later, gap) + end);
        assert(rest[0] == gap[0]);
        law_first_word(seq![], words[0], rest);
        assert(seq![] + (words[0] + rest) =~= text);
        lemma_gap(gap, crate::text::joined(later, gap) + end);
    }
}

/// Spaces fill a text up to the width, and a longer one is left as it is.
pub proof fn law_padding(text: Seq<char>, width: nat)
    ensures
        ({
            let filled = crate::text::padded(text, width);
            &&& filled.len() == if text.len() < width {
                width
            } else {
                text.len()
            }
            &&& filled.take(text.len() as int) == text
            &&& forall|i: int| text.len() <= i < filled.len() ==> #[trigger] filled[i] == ' '
        }),
{
    assert(crate::text::padded(text, width).take(text.len() as int) =~= text);
}

/// The last closing parenthesis is the one that none follows.
proof fn lemma_command_end(stat: Seq<char>, position: int, end: int)
    requires
        0 <= position < end <= stat.len(),
        stat[position] == ')',
        forall|i: int| position < i < end ==> #[trigger] stat[i] != ')',
    ensures
        crate::process::command_end(stat, end) == Some(position),
    decreases end,
{
    if position < end - 1 {
        assert(stat[end - 1] != ')');
        lemma_command_end(stat, position, end - 1);
    }
}

proof fn lemma_no_command_end(stat: Seq<char>, end: int)
    requires
        0 <= end <= stat.len(),
        forall|i: int| 0 <= i < end ==> #[trigger] stat[i] != ')',
    ensures
        crate::process::command_end(stat, end) is None,
    decreases end,
{
    if end > 0 {
        assert(stat[end - 1] != ')');
        lemma_no_command_end(stat, end - 1);
    }
}

/// Whatever the command of a process holds, parentheses and white space included, its start time
/// is the twentieth word behind the last parenthesis and the character that follows it.
pub proof fn law_start_time(before: Seq<char>, after: char, rest: Seq<char>)
    requires
        (after as u32) < 0x80,
        after != ')',
        forall|i: int| 0 <= i < rest.len() ==> #[trigger] rest[i] != ')',
    ensures
        ({
            let stat = before + seq![')', after] + rest;
            let words = crate::text::words_of(rest);
            &&& words.len() >= 20 ==> crate::process::start_time(stat)
                == crate::text::unsigned_value(words[19], 18_446_744_073_709_551_615)
            &&& words.len() < 20 ==> crate::process::start_time(stat) is None
        }),
{
    let stat = before + seq![')', after] + rest;
    let position = before.len() as int;
    assert(stat[position] == ')' && stat[position + 1] == after);
    assert forall|i: int| position < i < stat.len() implies #[trigger] stat[i] != ')' by {
        if i > position + 1 {
            assert(stat[i] == rest[i - position - 2]);
        }
    }
    lemma_command_end(stat, position, stat.len() as int);
    assert(stat.skip(position + 2) =~= rest);
}

/// A status file that a process writes: its ID, its command in parentheses, and words after it. Its
/// start time is read back.
pub proof fn law_written_start_time(
    before: Seq<char>,
    fields: Seq<Seq<char>>,
    end: Seq<char>,
    time: u64,
)
    requires
        fields.len() >= 20,
        forall|i: int| 0 <= i < fields.len() ==> is_word(#[trigger] fields[i]),
        blank(end),
        fields[19] == crate::text::decimal_text(time as nat),
        forall|i: int|
            0 <= i < (crate::text::joined(fields, seq![' ']) + end).len() ==> #[trigger] (
            crate::text::joined(fields, seq![' ']) + end)[i] != ')',
    ensures
        crate::process::start_time(
            before + seq![')', ' '] + (crate::text::joined(fields, seq![' ']) + end),
        ) == Some(time as int),
{
    law_start_time(before, ' ', crate::text::joined(fields, seq![' ']) + end);
    law_joined_words_are_read_back(fields, seq![' '], end);
    crate::text::law_decimal_text_is_read_back(time as nat, u64::MAX as int);
}

/// A status without a parenthesis, one that ends with its last parenthesis, and one where no ASCII
/// character follows that, tell no start time.
pub proof fn law_no_start_time(stat: Seq<char>, before: Seq<char>, after: char, rest: Seq<char>)
    ensures
        (forall|i: int| 0 <= i < stat.len() ==> #[trigger] stat[i] != ')')
            ==> crate::process::start_time(stat) is None,
        crate::process::start_time(before.push(')')) is None,
        after as u32 >= 0x80 && (forall|i: int| 0 <= i < rest.len() ==> #[trigger] rest[i] != ')')
            ==> crate::process::start_time(before + seq![')', after] + rest) is None,
{
    if forall|i: int| 0 <= i < stat.len() ==> #[trigger] stat[i] != ')' {
        lemma_no_command_end(stat, stat.len() as int);
    }
    lemma_command_end(before.push(')'), before.len() as int, before.len() as int + 1);
    if after as u32 >= 0x80 && (forall|i: int|
        0 <= i < rest.len() ==> #[trigger] rest[i] != ')') {
        let longer = before + seq![')', after] + rest;
        let position = before.len() as int;
        assert(longer[position] == ')' && longer[position + 1] == after);
        assert forall|i: int| position < i < longer.len() implies #[trigger] longer[i] != ')' by {
            if i > position + 1 {
                assert(longer[i] == rest[i - position - 2]);
            }
        }
        lemma_command_end(longer, position, longer.len() as int);
    }
}

/// A status file of less than 4096 bytes of UTF-8 tells the start time that its text does, and any
/// other tells none.
pub proof fn law_status_files(bytes: Seq<u8>)
    ensures
        bytes.len() < 4096 && vstd::utf8::valid_utf8(bytes) ==> crate::process::start_time_of_bytes(
            bytes,
        ) == crate::process::start_time(vstd::utf8::decode_utf8(bytes)),
        bytes.len() >= 4096 || !vstd::utf8::valid_utf8(bytes)
            ==> crate::process::start_time_of_bytes(bytes) is None,
{
}

/// The ID of a process in its innermost namespace is the last of those that the first line of IDs
/// lists, and there is none where no line lists IDs.
pub proof fn law_namespace_pid(
    lines: Seq<Seq<char>>,
    position: int,
    ids: Seq<Seq<char>>,
    gap: Seq<char>,
    end: Seq<char>,
)
    requires
        0 <= position <= lines.len(),
        forall|i: int| 0 <= i < position ==> !"NSpid:"@.is_prefix_of(#[trigger] lines[i]),
        position < lines.len() ==> ids.len() > 0 && lines[position] == crate::text::joined(
            seq!["NSpid:"@] + ids,
            gap,
        ) + end,
        forall|i: int| 0 <= i < ids.len() ==> is_word(#[trigger] ids[i]),
        gap.len() > 0,
        blank(gap),
        blank(end),
    ensures
        position == lines.len() ==> crate::process::namespace_pid(lines) is None,
        position < lines.len() ==> crate::process::namespace_pid(lines)
            == crate::text::unsigned_value(ids.last(), 4_294_967_295),
    decreases position,
{
    if position > 0 {
        let later = lines.skip(1);
        assert(!"NSpid:"@.is_prefix_of(lines[0]));
        assert forall|i: int| 0 <= i < position - 1 implies !"NSpid:"@.is_prefix_of(
            #[trigger] later[i],
        ) by {
            assert(later[i] == lines[i + 1]);
        }
        law_namespace_pid(later, position - 1, ids, gap, end);
    } else if lines.len() > 0 {
        let words = seq!["NSpid:"@] + ids;
        reveal_strlit("NSpid:");
        assert(is_word("NSpid:"@));
        assert forall|i: int| 0 <= i < words.len() implies is_word(#[trigger] words[i]) by {
            if i > 0 {
                assert(words[i] == ids[i - 1]);
            }
        }
        law_joined_words_are_read_back(words, gap, end);
        law_joined_texts(seq!["NSpid:"@], ids, gap);
        assert("NSpid:"@ =~= lines[0].subrange(0, "NSpid:"@.len() as int));
        assert(words.last() == ids.last());
    }
}

/// What the arguments ask for. Without one it is a list of the processes, and with a flag for help
/// it is help. A number is the process to monitor: every second, or as often as a number of
/// seconds says that follows, which may not be zero. Nothing else is a process.
pub proof fn law_arguments(args: Seq<Seq<char>>, pid: u32, interval: u64)
    ensures
        args.len() < 2 ==> crate::command::command_of(args) == Command::Discover,
        args.len() >= 2 && (args[1] == seq!['-', '-', 'h', 'e', 'l', 'p'] || args[1] == seq![
            '-',
            'h',
        ]) ==> crate::command::command_of(args) == Command::Help,
        args.len() >= 2 && args[1] != seq!['-', '-', 'h', 'e', 'l', 'p'] && args[1] != seq![
            '-',
            'h',
        ] && (forall|number: u32| !(#[trigger] writes(args[1], number as int)))
            ==> crate::command::command_of(args) == Command::InvalidPid,
        args.len() == 2 && writes(args[1], pid as int) ==> crate::command::command_of(args)
            == (Command::Monitor { pid, interval: 1 }),
        args.len() >= 3 && writes(args[1], pid as int) && writes(args[2], interval as int)
            && interval > 0 ==> crate::command::command_of(args) == (Command::Monitor {
            pid,
            interval,
        }),
        args.len() >= 3 && writes(args[1], pid as int) && writes(args[2], 0)
            ==> crate::command::command_of(args) == Command::ZeroInterval,
        args.len() >= 3 && writes(args[1], pid as int) && (forall|number: u64|
            !(#[trigger] writes(args[2], number as int))) ==> crate::command::command_of(args)
            == (Command::Monitor { pid, interval: 1 }),
{
    reveal_strlit("--help");
    reveal_strlit("-h");
    assert("--help"@ =~= seq!['-', '-', 'h', 'e', 'l', 'p']);
    assert("-h"@ =~= seq!['-', 'h']);
    if args.len() >= 2 {
        law_numbers_are_read(args[1], u32::MAX as int, pid as int);
        if writes(args[1], pid as int) {
            lemma_numbers_start(args[1], pid as int);
        }
        match crate::text::unsigned_value(args[1], u32::MAX as int) {
            Some(number) => {
                law_numbers_are_read(args[1], u32::MAX as int, number);
                assert(writes(args[1], (number as u32) as int));
            },
            None => {},
        }
    }
    if args.len() >= 3 {
        law_numbers_are_read(args[2], u64::MAX as int, interval as int);
        law_numbers_are_read(args[2], u64::MAX as int, 0);
        match crate::text::unsigned_value(args[2], u64::MAX as int) {
            Some(number) => {
                law_numbers_are_read(args[2], u64::MAX as int, number);
                assert(writes(args[2], (number as u64) as int));
            },
            None => {},
        }
    }
}

/// What writes a number starts with a digit or a plus sign.
proof fn lemma_numbers_start(text: Seq<char>, value: int)
    requires
        writes(text, value),
    ensures
        text.len() > 0,
        text[0] == '+' || '0' <= text[0] <= '9',
{
    let decimal = crate::text::decimal_text(value as nat);
    let count = choose|count: nat|
        text == #[trigger] zeros(count) + decimal || text == seq!['+'] + (zeros(count) + decimal);
    crate::text::law_decimal_text_is_read_back(value as nat, value);
    assert('0' <= decimal[0] <= '9');
    assert((zeros(count) + decimal)[0] == if count > 0 {
        '0'
    } else {
        decimal[0]
    });
}

} // verus!
