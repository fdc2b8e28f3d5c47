//! Text primitives with exact meanings over character sequences.

use vstd::prelude::*;
use vstd::string::*;
use vstd::utf8::*;

verus! {

broadcast use vstd::string::group_string_axioms;

/// Equal UTF-8 encodings come from equal character sequences.
pub(crate) proof fn lemma_encoding_is_injective(a: Seq<char>, b: Seq<char>)
    requires
        encode_utf8(a) == encode_utf8(b),
    ensures
        a == b,
{
    encode_utf8_decode_utf8(a);
    encode_utf8_decode_utf8(b);
}

/// Whether two texts hold the same characters.
pub fn same_text(a: &str, b: &str) -> (same: bool)
    ensures
        same == (a@ == b@),
{
    let left = a.as_bytes();
    let right = b.as_bytes();
    if left.len() != right.len() {
        return false;
    }
    let mut i: usize = 0;
    while i < left.len()
        invariant
            i <= left.len(),
            left.len() == right.len(),
            left@ == encode_utf8(a@),
            right@ == encode_utf8(b@),
            forall|k: int| 0 <= k < i ==> left@[k] == right@[k],
        decreases left.len() - i,
    {
        if left[i] != right[i] {
            assert(left@ != right@);
            return false;
        }
        i = i + 1;
    }
    proof {
        assert(left@ =~= right@);
        lemma_encoding_is_injective(a@, b@);
    }
    true
}

/// Whether an optional text is present and holds exactly the expected characters.
pub fn is_text(value: &Option<String>, expected: &str) -> (same: bool)
    ensures
        same == (value is Some && value->0@ == expected@),
{
    match value {
        Some(text) => same_text(text.as_str(), expected),
        None => false,
    }
}

/// The contents of an optional text.
pub open spec fn text_option(value: Option<String>) -> Option<Seq<char>> {
    match value {
        Some(text) => Some(text@),
        None => None,
    }
}

/// The contents of a list of texts.
pub open spec fn texts(values: Seq<String>) -> Seq<Seq<char>> {
    values.map_values(|value: String| value@)
}

/// Whether two optional texts are both absent or hold the same characters.
pub fn same_optional_text(a: &Option<String>, b: &Option<String>) -> (same: bool)
    ensures
        same == (text_option(*a) == text_option(*b)),
{
    match (a, b) {
        (Some(left), Some(right)) => same_text(left.as_str(), right.as_str()),
        (None, None) => true,
        _ => false,
    }
}

/// Whether two lists of texts agree entry by entry.
pub fn same_texts(a: &Vec<String>, b: &Vec<String>) -> (same: bool)
    ensures
        same == (texts(a@) == texts(b@)),
{
    if a.len() != b.len() {
        proof {
            assert(texts(a@).len() != texts(b@).len());
        }
        return false;
    }
    let mut i: usize = 0;
    while i < a.len()
        invariant
            i <= a.len(),
            a.len() == b.len(),
            forall|k: int| 0 <= k < i ==> a@[k]@ == b@[k]@,
        decreases a.len() - i,
    {
        if !same_text(a[i].as_str(), b[i].as_str()) {
            proof {
                assert(texts(a@)[i as int] != texts(b@)[i as int]);
            }
            return false;
        }
        i = i + 1;
    }
    proof {
        assert(texts(a@) =~= texts(b@));
    }
    true
}

/// Copies a list of texts.
pub fn clone_texts(values: &Vec<String>) -> (copy: Vec<String>)
    ensures
        copy@ == values@,
        texts(copy@) == texts(values@),
{
    let mut copy: Vec<String> = Vec::new();
    let mut i: usize = 0;
    while i < values.len()
        invariant
            i <= values.len(),
            copy.len() == i,
            forall|k: int| 0 <= k < i ==> copy@[k] == values@[k],
        decreases values.len() - i,
    {
        copy.push(values[i].clone());
        i = i + 1;
    }
    proof {
        assert(copy@ =~= values@);
    }
    copy
}

/// The characters of a text.
pub fn chars_of(text: &str) -> (chars: Vec<char>)
    ensures
        chars@ == text@,
{
    let count = text.unicode_len();
    let mut chars: Vec<char> = Vec::new();
    let mut i: usize = 0;
    while i < count
        invariant
            i <= count,
            count == text@.len(),
            chars@ == text@.take(i as int),
        decreases count - i,
    {
        chars.push(text.get_char(i));
        i = i + 1;
        proof {
            assert(text@.take(i as int) =~= text@.take(i - 1).push(text@[i - 1]));
        }
    }
    proof {
        assert(text@.take(count as int) =~= text@);
    }
    chars
}

/// ASCII decimal digits.
pub open spec fn is_digit(c: char) -> bool {
    '0' <= c && c <= '9'
}

/// ASCII letters and digits.
pub open spec fn is_alphanumeric(c: char) -> bool {
    is_digit(c) || ('a' <= c && c <= 'z') || ('A' <= c && c <= 'Z')
}

pub(crate) fn char_is_digit(c: char) -> (yes: bool)
    ensures
        yes == is_digit(c),
{
    let code: u32 = c as u32;
    48 <= code && code <= 57
}

pub(crate) fn char_is_alphanumeric(c: char) -> (yes: bool)
    ensures
        yes == is_alphanumeric(c),
{
    let code: u32 = c as u32;
    char_is_digit(c) || (97 <= code && code <= 122) || (65 <= code && code <= 90)
}

/// Characters allowed in an identifier.
pub open spec fn is_identifier_char(c: char) -> bool {
    is_alphanumeric(c) || c == '.' || c == '_' || c == '-'
}

/// An identifier is 1 to 128 ASCII letters, digits, dots, underscores or hyphens.
pub open spec fn identifier(text: Seq<char>) -> bool {
    &&& 0 < text.len() <= 128
    &&& forall|i: int| 0 <= i < text.len() ==> is_identifier_char(#[trigger] text[i])
}

/// Lower-case hexadecimal characters.
pub open spec fn is_lower_hex_char(c: char) -> bool {
    is_digit(c) || ('a' <= c && c <= 'f')
}

/// A text of exactly `length` lower-case hexadecimal characters.
pub open spec fn lower_hex(text: Seq<char>, length: nat) -> bool {
    &&& text.len() == length
    &&& forall|i: int| 0 <= i < text.len() ==> is_lower_hex_char(#[trigger] text[i])
}

/// Decides [`identifier`].
pub fn is_identifier(value: &str) -> (yes: bool)
    ensures
        yes == identifier(value@),
{
    let count = value.unicode_len();
    if count == 0 || count > 128 {
        return false;
    }
    let mut i: usize = 0;
    while i < count
        invariant
            i <= count,
            0 < count <= 128,
            count == value@.len(),
            forall|k: int| 0 <= k < i ==> is_identifier_char(#[trigger] value@[k]),
        decreases count - i,
    {
        let c = value.get_char(i);
        if !(char_is_alphanumeric(c) || c == '.' || c == '_' || c == '-') {
            return false;
        }
        i = i + 1;
    }
    true
}

/// Decides [`lower_hex`].
pub fn is_lower_hex(value: &str, length: usize) -> (yes: bool)
    ensures
        yes == lower_hex(value@, length as nat),
{
    let count = value.unicode_len();
    if count != length {
        return false;
    }
    let mut i: usize = 0;
    while i < count
        invariant
            i <= count,
            count == value@.len(),
            forall|k: int| 0 <= k < i ==> is_lower_hex_char(#[trigger] value@[k]),
        decreases count - i,
    {
        let c = value.get_char(i);
        let code: u32 = c as u32;
        if !(char_is_digit(c) || (97 <= code && code <= 102)) {
            return false;
        }
        i = i + 1;
    }
    true
}

/// The number that a digit stands for.
pub open spec fn digit_value(c: char) -> nat {
    (c as int - '0' as int) as nat
}

/// The number that a sequence of decimal digits stands for.
pub open spec fn decimal_value(digits: Seq<char>) -> nat
    decreases digits.len(),
{
    if digits.len() == 0 {
        0
    } else {
        decimal_value(digits.drop_last()) * 10 + digit_value(digits.last())
    }
}

pub open spec fn all_digits(text: Seq<char>) -> bool {
    forall|i: int| 0 <= i < text.len() ==> is_digit(#[trigger] text[i])
}

/// A text without the one plus sign that may lead a number.
pub open spec fn without_plus(text: Seq<char>) -> Seq<char> {
    if text.len() > 0 && text[0] == '+' {
        text.drop_first()
    } else {
        text
    }
}

/// The unsigned number, at most `maximum`, that a text spells: an optional plus sign, then only
/// decimal digits and at least one of them.
pub open spec fn unsigned_number(text: Seq<char>, maximum: nat) -> Option<nat> {
    let digits = without_plus(text);
    if digits.len() > 0 && all_digits(digits) && decimal_value(digits) <= maximum {
        Some(decimal_value(digits))
    } else {
        None
    }
}

/// A digit string is worth at least as much as any of its prefixes.
proof fn lemma_decimal_prefix(digits: Seq<char>, prefix: int)
    requires
        0 <= prefix <= digits.len(),
    ensures
        decimal_value(digits.take(prefix)) <= decimal_value(digits),
    decreases digits.len() - prefix,
{
    if prefix == digits.len() {
        assert(digits.take(prefix) =~= digits);
    } else {
        let longer = digits.take(prefix + 1);
        assert(longer.drop_last() =~= digits.take(prefix));
        lemma_decimal_prefix(digits, prefix + 1);
        assert(decimal_value(longer) == decimal_value(longer.drop_last()) * 10 + digit_value(
            longer.last(),
        ));
    }
}

/// Reads an unsigned decimal number of at most `maximum`.
pub fn parse_unsigned(text: &[char], maximum: u64) -> (number: Option<u64>)
    ensures
        match number {
            Some(n) => unsigned_number(text@, maximum as nat) == Some(n as nat),
            None => unsigned_number(text@, maximum as nat) is None,
        },
{
    let start: usize = if text.len() > 0 && text[0] == '+' {
        1
    } else {
        0
    };
    let ghost digits = without_plus(text@);
    proof {
        assert(digits =~= text@.skip(start as int));
    }
    if text.len() == start {
        return None;
    }
    let mut value: u64 = 0;
    let mut i: usize = start;
    while i < text.len()
        invariant
            start <= i <= text.len(),
            start <= 1,
            digits == text@.skip(start as int),
            digits == without_plus(text@),
            digits.len() > 0,
            value <= maximum,
            value as nat == decimal_value(digits.take(i - start)),
            forall|k: int| 0 <= k < i - start ==> is_digit(#[trigger] digits[k]),
        decreases text.len() - i,
    {
        let c = text[i];
        proof {
            assert(digits[i - start] == c);
        }
        if !char_is_digit(c) {
            return None;
        }
        let digit: u64 = (c as u32 - 48) as u64;
        proof {
            let longer = digits.take(i - start + 1);
            assert(longer.drop_last() =~= digits.take(i - start));
            assert(longer.last() == c);
            assert(decimal_value(longer) == value * 10 + digit);
            lemma_decimal_prefix(digits, i - start + 1);
        }
        let next: u128 = value as u128 * 10 + digit as u128;
        if next > maximum as u128 {
            return None;
        }
        value = next as u64;
        i = i + 1;
    }
    proof {
        assert(digits.take(text.len() - start) =~= digits);
    }
    Some(value)
}

/// The character of a single decimal digit.
pub open spec fn digit_char(digit: nat) -> char {
    (('0' as int) + digit) as char
}

/// The shortest decimal spelling of a number.
pub open spec fn decimal_text(number: nat) -> Seq<char>
    decreases number,
{
    if number < 10 {
        seq![digit_char(number)]
    } else {
        decimal_text(number / 10).push(digit_char(number % 10))
    }
}

fn digit_text(digit: u64) -> (text: &'static str)
    requires
        digit < 10,
    ensures
        text@ == seq![digit_char(digit as nat)],
{
    proof {
        reveal_strlit("0");
        reveal_strlit("1");
        reveal_strlit("2");
        reveal_strlit("3");
        reveal_strlit("4");
        reveal_strlit("5");
        reveal_strlit("6");
        reveal_strlit("7");
        reveal_strlit("8");
        reveal_strlit("9");
    }
    let text = match digit {
        0 => "0",
        1 => "1",
        2 => "2",
        3 => "3",
        4 => "4",
        5 => "5",
        6 => "6",
        7 => "7",
        8 => "8",
        _ => "9",
    };
    proof {
        assert(text@ =~= seq![digit_char(digit as nat)]);
    }
    text
}

/// Spells a number in decimal.
pub fn decimal(number: u64) -> (text: String)
    ensures
        text@ == decimal_text(number as nat),
    decreases number,
{
    if number < 10 {
        let text = digit_text(number).to_owned();
        text
    } else {
        let mut text = decimal(number / 10);
        text.append(digit_text(number % 10));
        proof {
            assert(text@ =~= decimal_text((number / 10) as nat).push(digit_char((number % 10) as nat)));
        }
        text
    }
}

/// A number's decimal spelling is all digits and reads back as the number.
pub proof fn decimal_text_reads_back(number: nat, maximum: nat)
    requires
        number <= maximum,
    ensures
        unsigned_number(decimal_text(number), maximum) == Some(number),
{
    lemma_decimal_text(number);
    let text = decimal_text(number);
    assert(is_digit(text[0]));
    assert(without_plus(text) == text);
}

/// A number of 32 bits is spelled with at most ten digits.
pub(crate) proof fn lemma_decimal_is_short(number: nat)
    requires
        number <= u32::MAX,
    ensures
        0 < decimal_text(number).len() <= 10,
        all_digits(decimal_text(number)),
{
    lemma_decimal_text(number);
    reveal_with_fuel(decimal_text, 10);
}

proof fn lemma_decimal_text(number: nat)
    ensures
        decimal_text(number).len() > 0,
        all_digits(decimal_text(number)),
        decimal_value(decimal_text(number)) == number,
    decreases number,
{
    if number < 10 {
        let text = decimal_text(number);
        assert(text.drop_last() =~= Seq::<char>::empty());
        assert(text.last() == digit_char(number));
        assert(decimal_value(text.drop_last()) == 0);
    } else {
        lemma_decimal_text(number / 10);
        let text = decimal_text(number);
        assert(text.drop_last() =~= decimal_text(number / 10));
        assert(text.last() == digit_char(number % 10));
        assert forall|i: int| 0 <= i < text.len() implies is_digit(#[trigger] text[i]) by {
            if i < text.len() - 1 {
                assert(text[i] == decimal_text(number / 10)[i]);
            }
        }
    }
}

/// Characters with the Unicode `White_Space` property.
pub open spec fn is_white_space(c: char) -> bool {
    let code = c as u32;
    ||| 0x9 <= code <= 0xd
    ||| code == 0x20
    ||| code == 0x85
    ||| code == 0xa0
    ||| code == 0x1680
    ||| 0x2000 <= code <= 0x200a
    ||| code == 0x2028
    ||| code == 0x2029
    ||| code == 0x202f
    ||| code == 0x205f
    ||| code == 0x3000
}

pub(crate) fn char_is_white_space(c: char) -> (yes: bool)
    ensures
        yes == is_white_space(c),
{
    let code: u32 = c as u32;
    (0x9 <= code && code <= 0xd) || code == 0x20 || code == 0x85 || code == 0xa0 || code == 0x1680
        || (0x2000 <= code && code <= 0x200a) || code == 0x2028 || code == 0x2029 || code == 0x202f
        || code == 0x205f || code == 0x3000
}

/// A text without its leading white space.
pub open spec fn trimmed_start(text: Seq<char>) -> Seq<char>
    decreases text.len(),
{
    if text.len() > 0 && is_white_space(text[0]) {
        trimmed_start(text.drop_first())
    } else {
        text
    }
}

/// A text without its trailing white space.
pub open spec fn trimmed_end(text: Seq<char>) -> Seq<char>
    decreases text.len(),
{
    if text.len() > 0 && is_white_space(text.last()) {
        trimmed_end(text.drop_last())
    } else {
        text
    }
}

/// A text without its leading and trailing white space.
pub open spec fn trimmed(text: Seq<char>) -> Seq<char> {
    trimmed_end(trimmed_start(text))
}

/// Removes leading and trailing white space.
pub fn trim_chars(text: &str) -> (chars: Vec<char>)
    ensures
        chars@ == trimmed(text@),
{
    let count = text.unicode_len();
    let mut start: usize = 0;
    proof {
        assert(text@.skip(0) =~= text@);
    }
    while start < count && char_is_white_space(text.get_char(start))
        invariant
            start <= count,
            count == text@.len(),
            trimmed_start(text@.skip(start as int)) == trimmed_start(text@),
        decreases count - start,
    {
        proof {
            let rest = text@.skip(start as int);
            assert(rest[0] == text@[start as int]);
            assert(rest.drop_first() =~= text@.skip(start + 1));
        }
        start = start + 1;
        proof {
            assert(start <= count);
        }
    }
    let ghost inner = trimmed_start(text@);
    proof {
        let rest = text@.skip(start as int);
        if start < count {
            assert(rest[0] == text@[start as int]);
        }
        assert(inner == rest);
    }
    let mut end: usize = count;
    proof {
        assert(inner.take(count - start) =~= inner);
    }
    while end > start && char_is_white_space(text.get_char(end - 1))
        invariant
            start <= end <= count,
            count == text@.len(),
            inner == text@.skip(start as int),
            trimmed_end(inner.take(end - start)) == trimmed_end(inner),
        decreases end,
    {
        proof {
            let rest = inner.take(end - start);
            assert(rest.last() == text@[end - 1]);
            assert(rest.drop_last() =~= inner.take(end - start - 1));
        }
        end = end - 1;
    }
    proof {
        let rest = inner.take(end - start);
        if end > start {
            assert(rest.last() == text@[end - 1]);
        }
        assert(trimmed(text@) == rest);
    }
    let mut chars: Vec<char> = Vec::new();
    let mut i: usize = start;
    while i < end
        invariant
            start <= i <= end <= count,
            count == text@.len(),
            inner == text@.skip(start as int),
            chars@ == inner.take(i - start),
        decreases end - i,
    {
        chars.push(text.get_char(i));
        proof {
            assert(inner.take(i - start + 1) =~= inner.take(i - start).push(text@[i as int]));
        }
        i = i + 1;
    }
    chars
}

/// Whether a text holds nothing but white space.
pub fn is_blank(text: &str) -> (yes: bool)
    ensures
        yes == (trimmed(text@).len() == 0),
{
    trim_chars(text).len() == 0
}

/// Whether a list of characters spells exactly a text.
pub fn chars_are(chars: &[char], expected: &str) -> (same: bool)
    ensures
        same == (chars@ == expected@),
{
    let count = expected.unicode_len();
    if chars.len() != count {
        return false;
    }
    let mut i: usize = 0;
    while i < count
        invariant
            i <= count,
            count == expected@.len(),
            count == chars@.len(),
            forall|k: int| 0 <= k < i ==> chars@[k] == expected@[k],
        decreases count - i,
    {
        if chars[i] != expected.get_char(i) {
            return false;
        }
        i = i + 1;
    }
    proof {
        assert(chars@ =~= expected@);
    }
    true
}

/// Whether the trimmed text is exactly `expected`.
pub fn trims_to(text: &str, expected: &str) -> (same: bool)
    ensures
        same == (trimmed(text@) == expected@),
{
    let chars = trim_chars(text);
    chars_are(chars.as_slice(), expected)
}

/// Whether a text begins with another.
pub open spec fn begins_with(text: Seq<char>, prefix: Seq<char>) -> bool {
    prefix.len() <= text.len() && text.take(prefix.len() as int) == prefix
}

/// Whether a text ends with another.
pub open spec fn finishes_with(text: Seq<char>, suffix: Seq<char>) -> bool {
    suffix.len() <= text.len() && text.skip(text.len() - suffix.len()) == suffix
}

/// Decides [`begins_with`].
pub fn starts_with_text(text: &str, prefix: &str) -> (yes: bool)
    ensures
        yes == begins_with(text@, prefix@),
{
    let count = prefix.unicode_len();
    let total = text.unicode_len();
    if count > total {
        return false;
    }
    let mut i: usize = 0;
    while i < count
        invariant
            i <= count <= total,
            count == prefix@.len(),
            total == text@.len(),
            forall|k: int| 0 <= k < i ==> text@[k] == prefix@[k],
        decreases count - i,
    {
        if text.get_char(i) != prefix.get_char(i) {
            proof {
                assert(text@.take(count as int)[i as int] != prefix@[i as int]);
            }
            return false;
        }
        i = i + 1;
    }
    proof {
        assert(text@.take(count as int) =~= prefix@);
    }
    true
}

/// Decides [`finishes_with`].
pub fn ends_with_text(text: &str, suffix: &str) -> (yes: bool)
    ensures
        yes == finishes_with(text@, suffix@),
{
    let count = suffix.unicode_len();
    let total = text.unicode_len();
    if count > total {
        return false;
    }
    let start: usize = total - count;
    let mut i: usize = 0;
    while i < count
        invariant
            i <= count <= total,
            start == total - count,
            count == suffix@.len(),
            total == text@.len(),
            forall|k: int| 0 <= k < i ==> text@[start + k] == suffix@[k],
        decreases count - i,
    {
        if text.get_char(start + i) != suffix.get_char(i) {
            proof {
                assert(text@.skip(start as int)[i as int] != suffix@[i as int]);
            }
            return false;
        }
        i = i + 1;
    }
    proof {
        assert(text@.skip(start as int) =~= suffix@);
    }
    true
}

/// Joins two texts.
pub fn join(first: &str, second: &str) -> (text: String)
    ensures
        text@ == first@ + second@,
{
    let mut text = first.to_owned();
    text.append(second);
    text
}

/// Joins three texts.
pub fn join3(first: &str, second: &str, third: &str) -> (text: String)
    ensures
        text@ == first@ + second@ + third@,
{
    let mut text = first.to_owned();
    text.append(second);
    text.append(third);
    text
}

/// Reads a trimmed unsigned number of at most `maximum`.
pub fn parse_trimmed_unsigned(text: &str, maximum: u64) -> (number: Option<u64>)
    ensures
        match number {
            Some(n) => unsigned_number(trimmed(text@), maximum as nat) == Some(n as nat),
            None => unsigned_number(trimmed(text@), maximum as nat) is None,
        },
{
    let chars = trim_chars(text);
    parse_unsigned(chars.as_slice(), maximum)
}

/// Whether a text stands before another one or at the same place in the order of characters.
pub open spec fn is_ordered(first: Seq<char>, second: Seq<char>) -> bool
    decreases first.len(),
{
    if first.len() == 0 {
        true
    } else if second.len() == 0 {
        false
    } else if first[0] == second[0] {
        is_ordered(first.skip(1), second.skip(1))
    } else {
        (first[0] as int) < (second[0] as int)
    }
}

/// Of two texts one stands before the other.
pub proof fn order_is_total(first: Seq<char>, second: Seq<char>)
    ensures
        is_ordered(first, second) || is_ordered(second, first),
    decreases first.len(),
{
    if first.len() > 0 && second.len() > 0 {
        if first[0] == second[0] {
            order_is_total(first.skip(1), second.skip(1));
        } else {
            assert(first[0] as int != second[0] as int);
        }
    }
}

/// A text that stands before another also stands before all that follow that one.
pub proof fn order_is_transitive(first: Seq<char>, second: Seq<char>, third: Seq<char>)
    requires
        is_ordered(first, second),
        is_ordered(second, third),
    ensures
        is_ordered(first, third),
    decreases first.len(),
{
    if first.len() > 0 && second.len() > 0 && third.len() > 0 && first[0] == second[0] && second[0]
        == third[0] {
        order_is_transitive(first.skip(1), second.skip(1), third.skip(1));
    }
}

/// Decides [`is_ordered`].
pub fn texts_are_ordered(first: &str, second: &str) -> (yes: bool)
    ensures
        yes == is_ordered(first@, second@),
{
    let left = chars_of(first);
    let right = chars_of(second);
    let mut i: usize = 0;
    assert(left@.skip(0) =~= left@);
    assert(right@.skip(0) =~= right@);
    while i < left.len() && i < right.len()
        invariant
            i <= left.len(),
            i <= right.len(),
            left@ == first@,
            right@ == second@,
            is_ordered(first@, second@) == is_ordered(left@.skip(i as int), right@.skip(i as int)),
        decreases left.len() - i,
    {
        assert(left@.skip(i as int).skip(1) =~= left@.skip(i + 1));
        assert(right@.skip(i as int).skip(1) =~= right@.skip(i + 1));
        let a: u32 = first.get_char(i) as u32;
        let b: u32 = second.get_char(i) as u32;
        if left[i] != right[i] {
            return a < b;
        }
        i = i + 1;
    }
    left.len() == i
}

} // verus!
