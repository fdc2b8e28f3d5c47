//! How texts spell numbers and names, told character by character.

use vstd::prelude::*;
use crate::text::{
    all_digits, decimal_text, decimal_text_reads_back, decimal_value, identifier, is_white_space,
    lower_hex, trimmed, trimmed_end, trimmed_start, unsigned_number,
};

verus! {

/// A single decimal digit spells its own value, and one more digit makes a number ten times as large
/// plus that digit's value. A leading plus sign changes nothing.
pub proof fn digits_count_by_place(text: Seq<char>, digit: char, maximum: nat)
    requires
        '0' <= digit <= '9',
    ensures
        digit as int - '0' as int <= maximum ==> unsigned_number(seq![digit], maximum) == Some(
            (digit as int - '0' as int) as nat,
        ),
        text.len() > 0 && text[0] != '+' ==> (unsigned_number(text, maximum) matches Some(value)
            ==> (10 * value + (digit as int - '0' as int) <= maximum ==> unsigned_number(
            text.push(digit),
            maximum,
        ) == Some((10 * value + (digit as int - '0' as int)) as nat))),
        text.len() > 0 && text[0] != '+' ==> unsigned_number(seq!['+'] + text, maximum)
            == unsigned_number(text, maximum),
{
    let one = seq![digit];
    assert(one.drop_last() =~= Seq::<char>::empty());
    assert(decimal_value(one.drop_last()) == 0);
    let longer = text.push(digit);
    assert(longer.drop_last() =~= text);
    if text.len() > 0 && text[0] != '+' {
        assert(longer[0] == text[0]);
        assert((seq!['+'] + text).drop_first() =~= text);
        if all_digits(text) {
            assert forall|i: int| 0 <= i < longer.len() implies crate::text::is_digit(
                #[trigger] longer[i],
            ) by {
                if i < text.len() {
                    assert(longer[i] == text[i]);
                }
            }
        }
    }
}

/// A text that spells a number holds decimal digits only, apart from one leading plus sign, and the
/// number does not exceed the maximum.
pub proof fn numbers_are_spelled_with_digits(text: Seq<char>, maximum: nat)
    ensures
        unsigned_number(text, maximum) matches Some(value) ==> {
            &&& value <= maximum
            &&& text.len() > 0
            &&& forall|i: int|
                0 <= i < text.len() ==> '0' <= #[trigger] text[i] <= '9' || (i == 0 && text[i]
                    == '+' && text.len() > 1)
        },
{
    if text.len() > 0 && text[0] == '+' {
        let rest = text.drop_first();
        if unsigned_number(text, maximum) is Some {
            assert forall|i: int| 0 <= i < text.len() implies '0' <= #[trigger] text[i] <= '9' || (i
                == 0 && text[i] == '+' && text.len() > 1) by {
                if i > 0 {
                    assert(rest[i - 1] == text[i]);
                }
            }
        }
    }
}

/// No two numbers share a decimal spelling, and a spelling never starts with a superfluous zero.
pub proof fn spellings_tell_numbers_apart(first: nat, second: nat)
    ensures
        decimal_text(first) == decimal_text(second) ==> first == second,
        first > 0 ==> decimal_text(first)[0] != '0',
        first < 10 ==> decimal_text(first).len() == 1,
    decreases first,
{
    let maximum = if first > second {
        first
    } else {
        second
    };
    decimal_text_reads_back(first, maximum);
    decimal_text_reads_back(second, maximum);
    if first >= 10 {
        spellings_tell_numbers_apart(first / 10, 0);
        decimal_text_reads_back(first / 10, first);
        numbers_are_spelled_with_digits(decimal_text(first / 10), first);
        assert(decimal_text(first)[0] == decimal_text(first / 10)[0]);
    }
}

/// Trimming takes white space from both ends and nothing else: what is left neither starts nor ends
/// with any.
pub proof fn trimming_takes_white_space_from_the_ends(text: Seq<char>)
    ensures
        trimmed(text).len() > 0 ==> !is_white_space(trimmed(text)[0]) && !is_white_space(
            trimmed(text).last(),
        ),
        exists|start: int, end: int|
            {
                &&& 0 <= start <= end <= text.len()
                &&& trimmed(text) == #[trigger] text.subrange(start, end)
                &&& forall|i: int| 0 <= i < start ==> is_white_space(#[trigger] text[i])
                &&& forall|i: int| end <= i < text.len() ==> is_white_space(#[trigger] text[i])
            },
{
    let start = lemma_trimmed_start(text);
    let rest = trimmed_start(text);
    let end = lemma_trimmed_end(rest);
    assert(trimmed(text) =~= text.subrange(start, start + end));
    assert forall|i: int| start + end <= i < text.len() implies is_white_space(
        #[trigger] text[i],
    ) by {
        assert(rest[i - start] == text[i]);
    }
    if trimmed(text).len() > 0 {
        assert(trimmed(text)[0] == rest[0]);
    }
}

proof fn lemma_trimmed_start(text: Seq<char>) -> (start: int)
    ensures
        0 <= start <= text.len(),
        trimmed_start(text) == text.skip(start),
        forall|i: int| 0 <= i < start ==> is_white_space(#[trigger] text[i]),
        start < text.len() ==> !is_white_space(text[start]),
    decreases text.len(),
{
    if text.len() > 0 && is_white_space(text[0]) {
        let rest = text.drop_first();
        let start = lemma_trimmed_start(rest);
        assert(rest.skip(start) =~= text.skip(start + 1));
        assert forall|i: int| 0 <= i < start + 1 implies is_white_space(#[trigger] text[i]) by {
            if i > 0 {
                assert(rest[i - 1] == text[i]);
            }
        }
        start + 1
    } else {
        assert(text.skip(0) =~= text);
        0
    }
}

proof fn lemma_trimmed_end(text: Seq<char>) -> (end: int)
    ensures
        0 <= end <= text.len(),
        trimmed_end(text) == text.take(end),
        forall|i: int| end <= i < text.len() ==> is_white_space(#[trigger] text[i]),
        end > 0 ==> !is_white_space(text[end - 1]),
    decreases text.len(),
{
    if text.len() > 0 && is_white_space(text.last()) {
        let rest = text.drop_last();
        let end = lemma_trimmed_end(rest);
        assert(rest.take(end) =~= text.take(end));
        assert forall|i: int| end <= i < text.len() implies is_white_space(#[trigger] text[i]) by {
            if i < rest.len() {
                assert(rest[i] == text[i]);
            }
        }
        end
    } else {
        assert(text.take(text.len() as int) =~= text);
        text.len() as int
    }
}

/// The tab, the line feed, the carriage return and the space are white space; no printable ASCII
/// character is.
pub proof fn printable_characters_are_kept(c: char)
    ensures
        c == '\t' || c == '\n' || c == '\r' || c == ' ' ==> is_white_space(c),
        '!' <= c <= '~' ==> !is_white_space(c),
{
}

/// An identifier is one to 128 characters, each a Latin letter, a digit, a dot, an underscore or a
/// hyphen.
pub proof fn identifiers_are_plain(text: Seq<char>)
    ensures
        identifier(text) <==> 1 <= text.len() <= 128 && forall|i: int|
            0 <= i < text.len() ==> {
                ||| 'a' <= #[trigger] text[i] <= 'z'
                ||| 'A' <= text[i] <= 'Z'
                ||| '0' <= text[i] <= '9'
                ||| text[i] == '.'
                ||| text[i] == '_'
                ||| text[i] == '-'
            },
{
    if 1 <= text.len() <= 128 && forall|i: int|
        0 <= i < text.len() ==> {
            ||| 'a' <= #[trigger] text[i] <= 'z'
            ||| 'A' <= text[i] <= 'Z'
            ||| '0' <= text[i] <= '9'
            ||| text[i] == '.'
            ||| text[i] == '_'
            ||| text[i] == '-'
        } {
        assert forall|i: int| 0 <= i < text.len() implies crate::text::is_identifier_char(
            #[trigger] text[i],
        ) by {}
    }
}

/// A digest is spelled with exactly as many characters as asked for, each a digit or one of the
/// letters from a to f.
pub proof fn digests_are_lower_case_hexadecimal(text: Seq<char>, length: nat)
    ensures
        lower_hex(text, length) <==> text.len() == length && forall|i: int|
            0 <= i < text.len() ==> '0' <= #[trigger] text[i] <= '9' || 'a' <= text[i] <= 'f',
{
    if text.len() == length && forall|i: int|
        0 <= i < text.len() ==> '0' <= #[trigger] text[i] <= '9' || 'a' <= text[i] <= 'f' {
        assert forall|i: int| 0 <= i < text.len() implies crate::text::is_lower_hex_char(
            #[trigger] text[i],
        ) by {}
    }
}

} // verus!
