//! Characters, strings and byte strings: what the rest of the library needs of
//! them, stated over sequences.

use vstd::prelude::*;
use vstd::string::*;

verus! {

/// `String::push` appends the given character to the end of the string.
pub assume_specification[ String::push ](string: &mut String, character: char)
    ensures
        final(string)@ == old(string)@.push(character),
;

/// A character of the Unicode general category `Cc`.
#[verifier::allow_in_spec]
pub fn is_control(c: char) -> bool
    returns
        ('\u{0}' <= c && c <= '\u{1f}') || ('\u{7f}' <= c && c <= '\u{9f}'),
{
    ('\u{0}' <= c && c <= '\u{1f}') || ('\u{7f}' <= c && c <= '\u{9f}')
}

/// A character with the Unicode property `White_Space`.
#[verifier::allow_in_spec]
pub fn is_whitespace(c: char) -> bool
    returns
        ('\u{9}' <= c && c <= '\u{d}') || c == ' ' || c == '\u{85}' || c == '\u{a0}'
            || c == '\u{1680}' || ('\u{2000}' <= c && c <= '\u{200a}') || c == '\u{2028}'
            || c == '\u{2029}' || c == '\u{202f}' || c == '\u{205f}' || c == '\u{3000}',
{
    ('\u{9}' <= c && c <= '\u{d}') || c == ' ' || c == '\u{85}' || c == '\u{a0}'
        || c == '\u{1680}' || ('\u{2000}' <= c && c <= '\u{200a}') || c == '\u{2028}'
        || c == '\u{2029}' || c == '\u{202f}' || c == '\u{205f}' || c == '\u{3000}'
}

/// An ASCII letter in lower case.
#[verifier::allow_in_spec]
pub fn is_ascii_lowercase(c: char) -> bool
    returns
        'a' <= c && c <= 'z',
{
    'a' <= c && c <= 'z'
}

/// An ASCII letter in upper case.
#[verifier::allow_in_spec]
pub fn is_ascii_uppercase(c: char) -> bool
    returns
        'A' <= c && c <= 'Z',
{
    'A' <= c && c <= 'Z'
}

/// A decimal digit of ASCII.
#[verifier::allow_in_spec]
pub fn is_ascii_digit(c: char) -> bool
    returns
        '0' <= c && c <= '9',
{
    '0' <= c && c <= '9'
}

/// A letter or a decimal digit of ASCII.
#[verifier::allow_in_spec]
pub fn is_ascii_alphanumeric(c: char) -> bool
    returns
        is_ascii_lowercase(c) || is_ascii_uppercase(c) || is_ascii_digit(c),
{
    is_ascii_lowercase(c) || is_ascii_uppercase(c) || is_ascii_digit(c)
}

/// The characters that ASCII counts as blank: space, tab, line feed, form feed
/// and carriage return.
#[verifier::allow_in_spec]
pub fn is_ascii_whitespace(c: char) -> bool
    returns
        c == ' ' || c == '\u{9}' || c == '\u{a}' || c == '\u{c}' || c == '\u{d}',
{
    c == ' ' || c == '\u{9}' || c == '\u{a}' || c == '\u{c}' || c == '\u{d}'
}

/// A digit of a hexadecimal number in lower case.
#[verifier::allow_in_spec]
pub fn is_lower_hex_digit(c: char) -> bool
    returns
        is_ascii_digit(c) || ('a' <= c && c <= 'f'),
{
    is_ascii_digit(c) || ('a' <= c && c <= 'f')
}

/// The lower case letter of an ASCII upper case letter; any other character
/// stays as it is.
pub open spec fn ascii_lower(c: char) -> char {
    if is_ascii_uppercase(c) {
        (c as u32 + 32) as char
    } else {
        c
    }
}

/// The upper case letter of an ASCII lower case letter; any other character
/// stays as it is.
pub open spec fn ascii_upper(c: char) -> char {
    if is_ascii_lowercase(c) {
        (c as u32 - 32) as char
    } else {
        c
    }
}

pub open spec fn ascii_lowercase(text: Seq<char>) -> Seq<char> {
    Seq::new(text.len(), |i: int| ascii_lower(text[i]))
}

pub fn to_ascii_lower(c: char) -> (lower: char)
    ensures
        lower == ascii_lower(c),
{
    if is_ascii_uppercase(c) {
        ((c as u8) + 32) as char
    } else {
        c
    }
}

pub fn to_ascii_upper(c: char) -> (upper: char)
    ensures
        upper == ascii_upper(c),
{
    if is_ascii_lowercase(c) {
        ((c as u8) - 32) as char
    } else {
        c
    }
}

/// The characters of a text, one by one.
pub fn characters(text: &str) -> (all: Vec<char>)
    ensures
        all@ == text@,
{
    let mut all: Vec<char> = Vec::new();
    for c in it: text.chars()
        invariant
            it.seq() == text@,
            all@ == text@.take(it.index() as int),
    {
        all.push(c);
    }
    assert(text@.take(text@.len() as int) =~= text@);
    all
}

/// Whether two texts hold the same characters.
pub fn same_text(left: &str, right: &str) -> (same: bool)
    ensures
        same == (left@ == right@),
{
    proof {
        vstd::utf8::encode_utf8_decode_utf8(left@);
        vstd::utf8::encode_utf8_decode_utf8(right@);
    }
    same_bytes(left.as_bytes(), right.as_bytes())
}

/// Whether two byte strings are the same.
pub fn same_bytes(left: &[u8], right: &[u8]) -> (same: bool)
    ensures
        same == (left@ == right@),
{
    if left.len() != right.len() {
        return false;
    }
    let mut i: usize = 0;
    while i < left.len()
        invariant
            left@.len() == right@.len(),
            i <= left@.len(),
            forall|j: int| 0 <= j < i ==> left@[j] == right@[j],
        decreases left@.len() - i,
    {
        if left[i] != right[i] {
            return false;
        }
        i += 1;
    }
    assert(left@ =~= right@);
    true
}

/// The text of an optional column is present and equal to `expected`.
pub open spec fn holds(text: Option<String>, expected: Seq<char>) -> bool {
    text matches Some(present) && present@ == expected
}

pub fn option_holds(text: &Option<String>, expected: &str) -> (held: bool)
    ensures
        held == holds(*text, expected@),
{
    match text {
        Some(present) => same_text(present.as_str(), expected),
        None => false,
    }
}

/// What is left of a text once the white space at its start is taken off.
pub open spec fn trimmed_start(text: Seq<char>) -> Seq<char>
    decreases text.len(),
{
    if text.len() > 0 && is_whitespace(text[0]) {
        trimmed_start(text.drop_first())
    } else {
        text
    }
}

/// What is left of a text once the white space at its end is taken off.
pub open spec fn trimmed_end(text: Seq<char>) -> Seq<char>
    decreases text.len(),
{
    if text.len() > 0 && is_whitespace(text.last()) {
        trimmed_end(text.drop_last())
    } else {
        text
    }
}

/// A text without the white space around it.
pub open spec fn trimmed(text: Seq<char>) -> Seq<char> {
    trimmed_end(trimmed_start(text))
}

/// Takes off the white space around a text.
pub fn trim(text: &str) -> (middle: &str)
    ensures
        middle@ == trimmed(text@),
{
    let all = characters(text);
    let ghost s = text@;
    assert(s.subrange(0, s.len() as int) =~= s);
    let mut start: usize = 0;
    while start < all.len() && is_whitespace(all[start])
        invariant
            all@ == s,
            start <= s.len(),
            trimmed_start(s) == trimmed_start(s.subrange(start as int, s.len() as int)),
        decreases s.len() - start,
    {
        assert(s.subrange(start as int, s.len() as int).drop_first() =~= s.subrange(
            start + 1,
            s.len() as int,
        ));
        start += 1;
    }
    let mut end: usize = all.len();
    while end > start && is_whitespace(all[end - 1])
        invariant
            all@ == s,
            start <= end <= s.len(),
            trimmed(s) == trimmed_end(s.subrange(start as int, end as int)),
        decreases end,
    {
        assert(s.subrange(start as int, end as int).drop_last() =~= s.subrange(
            start as int,
            end - 1,
        ));
        end -= 1;
    }
    text.substring_char(start, end)
}

/// Taking the white space off twice is taking it off once.
pub proof fn trimming_is_idempotent(text: Seq<char>)
    ensures
        trimmed(trimmed(text)) == trimmed(text),
{
    lemma_trimmed_edges(text);
    let middle = trimmed(text);
    assert(trimmed_start(middle) == middle);
    assert(trimmed_end(middle) == middle);
}

/// A trimmed text neither starts nor ends with white space.
pub proof fn lemma_trimmed_edges(text: Seq<char>)
    ensures
        trimmed(text).len() > 0 ==> !is_whitespace(trimmed(text)[0]) && !is_whitespace(
            trimmed(text).last(),
        ),
        trimmed(text).len() <= text.len(),
        forall|i: int|
            0 <= i < trimmed(text).len() ==> text.contains(#[trigger] trimmed(text)[i]),
{
    lemma_trimmed_start(text);
    lemma_trimmed_end(trimmed_start(text));
}

proof fn lemma_trimmed_start(text: Seq<char>)
    ensures
        trimmed_start(text).len() <= text.len(),
        trimmed_start(text) == text.subrange(
            text.len() - trimmed_start(text).len(),
            text.len() as int,
        ),
        trimmed_start(text).len() > 0 ==> !is_whitespace(trimmed_start(text)[0]),
    decreases text.len(),
{
    if text.len() > 0 && is_whitespace(text[0]) {
        let rest = text.drop_first();
        lemma_trimmed_start(rest);
        assert(rest.subrange(rest.len() - trimmed_start(rest).len(), rest.len() as int)
            =~= text.subrange(text.len() - trimmed_start(rest).len(), text.len() as int));
    } else {
        assert(text.subrange(0, text.len() as int) =~= text);
    }
}

proof fn lemma_trimmed_end(text: Seq<char>)
    ensures
        trimmed_end(text).len() <= text.len(),
        trimmed_end(text) == text.subrange(0, trimmed_end(text).len() as int),
        trimmed_end(text).len() > 0 ==> !is_whitespace(trimmed_end(text).last()),
    decreases text.len(),
{
    if text.len() > 0 && is_whitespace(text.last()) {
        let rest = text.drop_last();
        lemma_trimmed_end(rest);
        assert(rest.subrange(0, trimmed_end(rest).len() as int) =~= text.subrange(
            0,
            trimmed_end(rest).len() as int,
        ));
    } else {
        assert(text.subrange(0, text.len() as int) =~= text);
    }
}

/// Some character of the text is a control character.
pub open spec fn has_control(text: Seq<char>) -> bool {
    exists|i: int| 0 <= i < text.len() && is_control(#[trigger] text[i])
}

pub fn contains_control(text: &str) -> (found: bool)
    ensures
        found == has_control(text@),
{
    let all = characters(text);
    let mut i: usize = 0;
    while i < all.len()
        invariant
            all@ == text@,
            i <= all@.len(),
            forall|j: int| 0 <= j < i ==> !is_control(#[trigger] text@[j]),
        decreases all@.len() - i,
    {
        if is_control(all[i]) {
            assert(is_control(text@[i as int]));
            return true;
        }
        i += 1;
    }
    false
}

/// The bytes that a text takes in UTF-8.
pub open spec fn byte_length(text: Seq<char>) -> nat {
    vstd::utf8::encode_utf8(text).len()
}

pub fn bytes_in(text: &str) -> (length: usize)
    ensures
        length == byte_length(text@),
{
    text.as_bytes().len()
}

/// A character takes between one and four bytes in UTF-8.
pub proof fn lemma_byte_length(text: Seq<char>)
    ensures
        text.len() <= byte_length(text) <= 4 * text.len(),
    decreases text.len(),
{
    if text.len() > 0 {
        lemma_byte_length(text.drop_first());
    }
}

/// `text` starts with `prefix`.
pub open spec fn starts_with(text: Seq<char>, prefix: Seq<char>) -> bool {
    prefix.len() <= text.len() && text.take(prefix.len() as int) == prefix
}

/// What follows `prefix` in `text`, if `text` starts with it.
pub open spec fn without_prefix(text: Seq<char>, prefix: Seq<char>) -> Option<Seq<char>> {
    if starts_with(text, prefix) {
        Some(text.skip(prefix.len() as int))
    } else {
        None
    }
}

pub fn strip_prefix<'a>(text: &'a str, prefix: &str) -> (rest: Option<&'a str>)
    ensures
        match rest {
            Some(rest) => without_prefix(text@, prefix@) == Some(rest@),
            None => without_prefix(text@, prefix@) is None,
        },
{
    let length = prefix.unicode_len();
    let total = text.unicode_len();
    if length > total || !same_text(text.substring_char(0, length), prefix) {
        assert(length <= total ==> text@.subrange(0, length as int) =~= text@.take(length as int));
        return None;
    }
    assert(text@.subrange(0, length as int) =~= text@.take(length as int));
    assert(text@.subrange(length as int, total as int) =~= text@.skip(length as int));
    Some(text.substring_char(length, total))
}

pub open spec fn digit(value: nat) -> char {
    (48 + value) as char
}

/// A natural number in decimal, without leading zeros.
pub open spec fn decimal_nat(value: nat) -> Seq<char>
    decreases value,
{
    if value < 10 {
        seq![digit(value)]
    } else {
        decimal_nat(value / 10).push(digit(value % 10))
    }
}

/// An integer in decimal, with a sign only where it is negative.
pub open spec fn decimal(value: int) -> Seq<char> {
    if value < 0 {
        seq!['-'] + decimal_nat((-value) as nat)
    } else {
        decimal_nat(value as nat)
    }
}

/// A character that a number in decimal can hold.
pub open spec fn is_numeral(c: char) -> bool {
    '0' <= c <= '9' || c == '-'
}

proof fn lemma_decimal_nat(value: nat)
    ensures
        decimal_nat(value).len() > 0,
        forall|i: int|
            0 <= i < decimal_nat(value).len() ==> '0' <= #[trigger] decimal_nat(value)[i] <= '9',
    decreases value,
{
    if value >= 10 {
        lemma_decimal_nat(value / 10);
    }
}

proof fn lemma_decimal_nat_injective(first: nat, second: nat)
    requires
        decimal_nat(first) == decimal_nat(second),
    ensures
        first == second,
    decreases first,
{
    let a = decimal_nat(first);
    let b = decimal_nat(second);
    lemma_decimal_nat(first / 10);
    lemma_decimal_nat(second / 10);
    assert(a.last() == digit(first % 10) && b.last() == digit(second % 10));
    assert(a.last() as int == 48 + first % 10 && b.last() as int == 48 + second % 10);
    if first >= 10 {
        assert(second >= 10);
        assert(a.drop_last() =~= decimal_nat(first / 10));
        assert(b.drop_last() =~= decimal_nat(second / 10));
        lemma_decimal_nat_injective(first / 10, second / 10);
    } else if second >= 10 {
        assert(a.len() == 1 && b.len() > 1);
    }
}

/// A number is spelled in numerals, and no two numbers are spelled the same.
pub proof fn lemma_decimal(first: int, second: int)
    ensures
        decimal(first).len() > 0,
        forall|i: int| 0 <= i < decimal(first).len() ==> is_numeral(#[trigger] decimal(first)[i]),
        decimal(first) == decimal(second) ==> first == second,
{
    let a = if first < 0 { -first } else { first };
    let b = if second < 0 { -second } else { second };
    lemma_decimal_nat(a as nat);
    lemma_decimal_nat(b as nat);
    if first < 0 {
        assert forall|i: int| 0 <= i < decimal(first).len() implies is_numeral(
            #[trigger] decimal(first)[i],
        ) by {
            assert(decimal(first)[i] == if i == 0 { '-' } else { decimal_nat(a as nat)[i - 1] });
        }
    }
    if decimal(first) == decimal(second) {
        assert((first < 0) == (second < 0)) by {
            if first < 0 && second >= 0 {
                assert(decimal(first)[0] == '-' && '0' <= decimal_nat(b as nat)[0]);
            }
            if first >= 0 && second < 0 {
                assert(decimal(second)[0] == '-' && '0' <= decimal_nat(a as nat)[0]);
            }
        }
        if first < 0 {
            assert(decimal(first).skip(1) =~= decimal_nat(a as nat));
            assert(decimal(second).skip(1) =~= decimal_nat(b as nat));
        }
        lemma_decimal_nat_injective(a as nat, b as nat);
    }
}

fn push_decimal_u64(out: &mut String, value: u64)
    ensures
        final(out)@ == old(out)@ + decimal_nat(value as nat),
    decreases value,
{
    if value < 10 {
        out.push((48 + value as u8) as char);
        assert(out@ =~= old(out)@ + decimal_nat(value as nat));
    } else {
        push_decimal_u64(out, value / 10);
        out.push((48 + (value % 10) as u8) as char);
        assert(out@ =~= old(out)@ + decimal_nat(value as nat));
    }
}

/// Appends an integer in decimal.
pub fn push_decimal(out: &mut String, value: i64)
    ensures
        final(out)@ == old(out)@ + decimal(value as int),
{
    if value < 0 {
        out.push('-');
        push_decimal_u64(out, (-(value as i128)) as u64);
        assert(out@ =~= old(out)@ + decimal(value as int));
    } else {
        push_decimal_u64(out, value as u64);
    }
}

/// Appends a text.
pub fn push_text(out: &mut String, text: &str)
    ensures
        final(out)@ == old(out)@ + text@,
{
    out.append(text);
}

/// Appends a byte string.
pub fn push_bytes(out: &mut Vec<u8>, bytes: &[u8])
    ensures
        final(out)@ == old(out)@ + bytes@,
{
    let mut i: usize = 0;
    while i < bytes.len()
        invariant
            i <= bytes@.len(),
            out@ == old(out)@ + bytes@.take(i as int),
        decreases bytes@.len() - i,
    {
        assert(bytes@.take(i + 1) =~= bytes@.take(i as int).push(bytes@[i as int]));
        out.push(bytes[i]);
        assert(out@ =~= old(out)@ + bytes@.take(i + 1));
        i += 1;
    }
    assert(bytes@.take(bytes@.len() as int) =~= bytes@);
}

/// The last `width` base-256 digits of a number, the most significant first.
pub open spec fn big_endian(value: nat, width: nat) -> Seq<u8>
    decreases width,
{
    if width == 0 {
        Seq::empty()
    } else {
        big_endian(value / 256, (width - 1) as nat).push((value % 256) as u8)
    }
}

/// How many numbers `width` bytes can tell apart.
pub open spec fn byte_range(width: nat) -> nat
    decreases width,
{
    if width == 0 {
        1
    } else {
        256 * byte_range((width - 1) as nat)
    }
}

/// Appends a number in `width` bytes, the most significant first.
pub fn push_big_endian(out: &mut Vec<u8>, value: u128, width: usize)
    ensures
        final(out)@ == old(out)@ + big_endian(value as nat, width as nat),
    decreases width,
{
    if width > 0 {
        push_big_endian(out, value / 256, width - 1);
        out.push((value % 256) as u8);
    }
    assert(out@ =~= old(out)@ + big_endian(value as nat, width as nat));
}

pub proof fn lemma_big_endian_length(value: nat, width: nat)
    ensures
        big_endian(value, width).len() == width,
    decreases width,
{
    if width > 0 {
        lemma_big_endian_length(value / 256, (width - 1) as nat);
    }
}

/// Numbers that fit the width are told apart by their bytes.
pub proof fn lemma_big_endian_injective(left: nat, right: nat, width: nat)
    requires
        left < byte_range(width),
        right < byte_range(width),
        big_endian(left, width) == big_endian(right, width),
    ensures
        left == right,
    decreases width,
{
    if width > 0 {
        let narrower = (width - 1) as nat;
        let a = big_endian(left / 256, narrower);
        let b = big_endian(right / 256, narrower);
        let x = big_endian(left, width);
        let y = big_endian(right, width);
        assert(x.last() == (left % 256) as u8);
        assert(y.last() == (right % 256) as u8);
        assert(x.drop_last() =~= a);
        assert(y.drop_last() =~= b);
        lemma_big_endian_injective(left / 256, right / 256, narrower);
    }
}

/// A digit of a hexadecimal number, in lower case.
pub open spec fn hex_digit(value: int) -> char {
    if value < 10 {
        (48 + value) as char
    } else {
        (87 + value) as char
    }
}

/// Two lower case hexadecimal digits for each byte.
pub open spec fn lower_hex(bytes: Seq<u8>) -> Seq<char> {
    Seq::new(
        2 * bytes.len(),
        |i: int|
            if i % 2 == 0 {
                hex_digit(bytes[i / 2] as int / 16)
            } else {
                hex_digit(bytes[i / 2] as int % 16)
            },
    )
}

/// `length` characters, each a lower case hexadecimal digit.
pub open spec fn is_lower_hex(text: Seq<char>, length: nat) -> bool {
    text.len() == length && forall|i: int|
        0 <= i < text.len() ==> is_lower_hex_digit(#[trigger] text[i])
}

/// Whether a text is `length` lower case hexadecimal digits.
pub fn valid_lower_hex(value: &str, length: usize) -> (valid: bool)
    ensures
        valid == is_lower_hex(value@, length as nat),
{
    let all = characters(value);
    if all.len() != length {
        return false;
    }
    let mut i: usize = 0;
    while i < all.len()
        invariant
            all@ == value@,
            i <= all@.len(),
            forall|j: int| 0 <= j < i ==> is_lower_hex_digit(#[trigger] value@[j]),
        decreases all@.len() - i,
    {
        if !is_lower_hex_digit(all[i]) {
            assert(!is_lower_hex_digit(value@[i as int]));
            return false;
        }
        i += 1;
    }
    true
}

/// Calls `String::from_utf8`, which succeeds on valid UTF-8 alone and keeps the
/// bytes as they are.
#[verifier::external_body]
pub(crate) fn utf8_string(bytes: Vec<u8>) -> (string: Option<String>)
    ensures
        string is Some <==> vstd::utf8::valid_utf8(bytes@),
        string matches Some(decoded) ==> vstd::utf8::encode_utf8(decoded@) == bytes@,
{
    String::from_utf8(bytes).ok()
}

/// The text that bytes spell in UTF-8, if they spell one.
pub open spec fn decoded(bytes: Seq<u8>) -> Option<Seq<char>> {
    if vstd::utf8::valid_utf8(bytes) {
        Some(vstd::utf8::decode_utf8(bytes))
    } else {
        None
    }
}

/// Reads bytes as UTF-8.
pub fn from_utf8(bytes: Vec<u8>) -> (text: Option<String>)
    ensures
        match text {
            Some(text) => decoded(bytes@) == Some(text@),
            None => decoded(bytes@) is None,
        },
{
    let ghost all = bytes@;
    match utf8_string(bytes) {
        Some(text) => {
            proof {
                vstd::utf8::encode_utf8_decode_utf8(text@);
            }
            assert(decoded(all) == Some(text@));
            Some(text)
        },
        None => None,
    }
}

/// A text with its ASCII letters in lower case.
pub fn to_ascii_lowercase(text: &str) -> (lower: String)
    ensures
        lower@ == ascii_lowercase(text@),
{
    let all = characters(text);
    let mut lower = String::new();
    let mut i: usize = 0;
    while i < all.len()
        invariant
            all@ == text@,
            i <= all@.len(),
            lower@ == ascii_lowercase(text@).take(i as int),
        decreases all@.len() - i,
    {
        assert(ascii_lowercase(text@).take(i + 1) =~= ascii_lowercase(text@).take(i as int).push(
            ascii_lower(text@[i as int]),
        ));
        lower.push(to_ascii_lower(all[i]));
        i += 1;
    }
    assert(ascii_lowercase(text@).take(text@.len() as int) =~= ascii_lowercase(text@));
    lower
}

/// `part` stands in `text` at a position.
pub open spec fn stands_at(text: Seq<char>, part: Seq<char>, at: int) -> bool {
    0 <= at <= text.len() - part.len() && text.subrange(at, at + part.len()) == part
}

/// `part` stands somewhere in `text`.
pub open spec fn contains(text: Seq<char>, part: Seq<char>) -> bool {
    exists|at: int| stands_at(text, part, at)
}

/// Whether a text holds another.
pub fn contains_text(text: &str, part: &str) -> (found: bool)
    ensures
        found == contains(text@, part@),
{
    let length = part.unicode_len();
    let total = text.unicode_len();
    if length > total {
        return false;
    }
    let mut at: usize = 0;
    while at <= total - length
        invariant
            length == part@.len(),
            total == text@.len(),
            length <= total,
            at <= total - length + 1,
            forall|before: int| 0 <= before < at ==> !stands_at(text@, part@, before),
        decreases total + 1 - at,
    {
        if same_text(text.substring_char(at, at + length), part) {
            assert(stands_at(text@, part@, at as int));
            return true;
        }
        assert(!stands_at(text@, part@, at as int));
        if at == total - length {
            return false;
        }
        at += 1;
    }
    false
}

/// Hexadecimal digits are what a byte string is spelled in.
pub proof fn lemma_lower_hex_digits(bytes: Seq<u8>)
    ensures
        is_lower_hex(lower_hex(bytes), 2 * bytes.len()),
{
    let spelled = lower_hex(bytes);
    assert forall|i: int| 0 <= i < spelled.len() implies is_lower_hex_digit(
        #[trigger] spelled[i],
    ) by {
        let byte = bytes[i / 2] as int;
        let value = if i % 2 == 0 { byte / 16 } else { byte % 16 };
        assert(0 <= value < 16);
        assert(spelled[i] == hex_digit(value));
        assert(spelled[i] as int == if value < 10 { 48 + value } else { 87 + value });
    }
}

/// Different byte strings are spelled differently.
pub proof fn lemma_lower_hex_injective(first: Seq<u8>, second: Seq<u8>)
    requires
        lower_hex(first) == lower_hex(second),
    ensures
        first == second,
{
    let a = lower_hex(first);
    let b = lower_hex(second);
    assert(a.len() == 2 * first.len() && b.len() == 2 * second.len());
    assert forall|at: int| 0 <= at < first.len() implies first[at] == second[at] by {
        let x = first[at] as int;
        let y = second[at] as int;
        assert((2 * at) / 2 == at && (2 * at) % 2 == 0);
        assert((2 * at + 1) / 2 == at && (2 * at + 1) % 2 == 1);
        assert(a[2 * at] == hex_digit(x / 16) && b[2 * at] == hex_digit(y / 16));
        assert(a[2 * at + 1] == hex_digit(x % 16) && b[2 * at + 1] == hex_digit(y % 16));
        lemma_hex_digit_injective(x / 16, y / 16);
        lemma_hex_digit_injective(x % 16, y % 16);
    }
    assert(first =~= second);
}

/// Different values have different digits.
pub proof fn lemma_hex_digit_injective(first: int, second: int)
    requires
        0 <= first < 16,
        0 <= second < 16,
        hex_digit(first) == hex_digit(second),
    ensures
        first == second,
{
    assert(hex_digit(first) as int == if first < 10 { 48 + first } else { 87 + first });
    assert(hex_digit(second) as int == if second < 10 { 48 + second } else { 87 + second });
}

/// The bytes as an array, if there are 32 of them.
pub fn array_32(bytes: &[u8]) -> (array: Option<[u8; 32]>)
    ensures
        match array {
            Some(array) => array@ == bytes@,
            None => bytes@.len() != 32,
        },
{
    if bytes.len() != 32 {
        return None;
    }
    let mut array = [0u8; 32];
    let mut i: usize = 0;
    while i < 32
        invariant
            i <= 32,
            bytes@.len() == 32,
            forall|j: int| 0 <= j < i ==> array@[j] == bytes@[j],
        decreases 32 - i,
    {
        array[i] = bytes[i];
        i += 1;
    }
    assert(array@ =~= bytes@);
    Some(array)
}

/// The bytes as an array, if there are 64 of them.
pub fn array_64(bytes: &[u8]) -> (array: Option<[u8; 64]>)
    ensures
        match array {
            Some(array) => array@ == bytes@,
            None => bytes@.len() != 64,
        },
{
    if bytes.len() != 64 {
        return None;
    }
    let mut array = [0u8; 64];
    let mut i: usize = 0;
    while i < 64
        invariant
            i <= 64,
            bytes@.len() == 64,
            forall|j: int| 0 <= j < i ==> array@[j] == bytes@[j],
        decreases 64 - i,
    {
        array[i] = bytes[i];
        i += 1;
    }
    assert(array@ =~= bytes@);
    Some(array)
}

/// A character of the URL-safe Base64 alphabet.
#[verifier::allow_in_spec]
pub fn is_url_safe(c: char) -> bool
    returns
        is_ascii_alphanumeric(c) || c == '_' || c == '-',
{
    is_ascii_alphanumeric(c) || c == '_' || c == '-'
}

/// One text comes before another in the order of their characters.
pub open spec fn precedes(first: Seq<char>, second: Seq<char>) -> bool
    decreases first.len(),
{
    if second.len() == 0 {
        false
    } else if first.len() == 0 {
        true
    } else if first[0] != second[0] {
        first[0] < second[0]
    } else {
        precedes(first.drop_first(), second.drop_first())
    }
}

/// Of two different texts one comes before the other, and only one.
pub proof fn texts_are_ordered(first: Seq<char>, second: Seq<char>)
    ensures
        precedes(first, second) ==> !precedes(second, first) && first != second,
        first != second ==> precedes(first, second) || precedes(second, first),
    decreases first.len(),
{
    if first.len() > 0 && second.len() > 0 {
        texts_are_ordered(first.drop_first(), second.drop_first());
        assert(first =~= seq![first[0]] + first.drop_first());
        assert(second =~= seq![second[0]] + second.drop_first());
    } else if first.len() == 0 && second.len() == 0 {
        assert(first =~= second);
    }
}

/// What comes before a text comes before all that come after it.
pub proof fn order_is_transitive(first: Seq<char>, second: Seq<char>, third: Seq<char>)
    requires
        precedes(first, second),
        precedes(second, third),
    ensures
        precedes(first, third),
    decreases first.len(),
{
    if first.len() > 0 && first[0] == second[0] && second[0] == third[0] {
        order_is_transitive(first.drop_first(), second.drop_first(), third.drop_first());
    }
}

/// Whether one text comes before another.
pub fn comes_before(first: &str, second: &str) -> (before: bool)
    ensures
        before == precedes(first@, second@),
{
    let a = characters(first);
    let b = characters(second);
    let mut i: usize = 0;
    assert(a@.skip(0) =~= a@);
    assert(b@.skip(0) =~= b@);
    while i < a.len() && i < b.len()
        invariant
            a@ == first@,
            b@ == second@,
            i <= a@.len(),
            i <= b@.len(),
            precedes(a@, b@) == precedes(a@.skip(i as int), b@.skip(i as int)),
        decreases a@.len() - i,
    {
        assert(a@.skip(i as int)[0] == a@[i as int]);
        assert(b@.skip(i as int)[0] == b@[i as int]);
        assert(a@.skip(i as int).drop_first() =~= a@.skip(i + 1));
        assert(b@.skip(i as int).drop_first() =~= b@.skip(i + 1));
        if a[i] != b[i] {
            return a[i] < b[i];
        }
        i += 1;
    }
    i < b.len()
}

/// Trimming takes white space from both ends and nothing else: what is left is a part of the
/// text that neither starts nor ends with white space, around which there was only white
/// space; and it is empty exactly if there was nothing else.
pub proof fn trimming_keeps_what_is_written(text: Seq<char>)
    ensures
        trimmed(text).len() > 0 <==> exists|i: int|
            0 <= i < text.len() && !is_whitespace(#[trigger] text[i]),
        exists|from: int, to: int|
            0 <= from <= to <= text.len() && trimmed(text) == #[trigger] text.subrange(from, to) && (
            forall|i: int| 0 <= i < from ==> is_whitespace(#[trigger] text[i])) && (forall|i: int|
                to <= i < text.len() ==> is_whitespace(#[trigger] text[i])),
{
    lemma_skipped_start(text);
    let start = trimmed_start(text);
    let from = text.len() - start.len();
    lemma_skipped_end(start);
    let to = from + trimmed_end(start).len();
    assert(start =~= text.skip(from as int));
    assert(trimmed(text) =~= text.subrange(from as int, to as int));
    assert forall|i: int| to <= i < text.len() implies is_whitespace(#[trigger] text[i]) by {
        assert(start[i - from] == text[i]);
    }
    if trimmed(text).len() > 0 {
        lemma_trimmed_edges(text);
        assert(trimmed(text)[0] == text[from as int]);
        assert(!is_whitespace(trimmed(text)[0]));
    }
}

proof fn lemma_skipped_start(text: Seq<char>)
    ensures
        trimmed_start(text).len() <= text.len(),
        trimmed_start(text) == text.skip(text.len() - trimmed_start(text).len()),
        forall|i: int|
            0 <= i < text.len() - trimmed_start(text).len() ==> is_whitespace(#[trigger] text[i]),
    decreases text.len(),
{
    if trimmed_start(text) == text {
        assert(text.skip(0) =~= text);
    } else {
        let rest = text.drop_first();
        lemma_skipped_start(rest);
        assert(trimmed_start(text) == trimmed_start(rest));
        assert(text.skip(text.len() - trimmed_start(text).len()) =~= rest.skip(
            rest.len() - trimmed_start(rest).len(),
        ));
        assert forall|i: int| 0 <= i < text.len() - trimmed_start(text).len() implies is_whitespace(
            #[trigger] text[i],
        ) by {
            if i > 0 {
                assert(rest[i - 1] == text[i]);
            }
        }
    }
}

proof fn lemma_skipped_end(text: Seq<char>)
    ensures
        trimmed_end(text).len() <= text.len(),
        trimmed_end(text) == text.take(trimmed_end(text).len() as int),
        forall|i: int| trimmed_end(text).len() <= i < text.len() ==> is_whitespace(
            #[trigger] text[i],
        ),
    decreases text.len(),
{
    if trimmed_end(text) == text {
        assert(text.take(text.len() as int) =~= text);
    } else {
        let rest = text.drop_last();
        lemma_skipped_end(rest);
        assert(trimmed_end(text) == trimmed_end(rest));
        assert(text.take(trimmed_end(text).len() as int) =~= rest.take(
            trimmed_end(rest).len() as int,
        ));
        assert forall|i: int| trimmed_end(text).len() <= i < text.len() implies is_whitespace(
            #[trigger] text[i],
        ) by {
            if i < rest.len() {
                assert(rest[i] == text[i]);
            }
        }
    }
}

/// The characters of each kind, by their code points.
pub proof fn characters_are_told_by_code_point(c: char)
    ensures
        is_control(c) <==> (c as int) < 32 || 127 <= (c as int) <= 159,
        is_ascii_digit(c) <==> 48 <= (c as int) <= 57,
        is_ascii_uppercase(c) <==> 65 <= (c as int) <= 90,
        is_ascii_lowercase(c) <==> 97 <= (c as int) <= 122,
        is_lower_hex_digit(c) <==> 48 <= (c as int) <= 57 || 97 <= (c as int) <= 102,
        is_ascii_alphanumeric(c) <==> 48 <= (c as int) <= 57 || 65 <= (c as int) <= 90 || 97 <= (
        c as int) <= 122,
        is_url_safe(c) <==> is_ascii_alphanumeric(c) || c == '-' || c == '_',
        is_ascii_whitespace(c) ==> is_whitespace(c),
        is_ascii_whitespace(c) <==> c == ' ' || (9 <= (c as int) <= 13 && c as int != 11),
        (c as int) < 128 ==> (is_whitespace(c) <==> c == ' ' || 9 <= (c as int) <= 13),
        'A' <= c <= 'Z' ==> ascii_lower(c) as int == c as int + 32 && ascii_upper(ascii_lower(c))
            == c,
        'a' <= c <= 'z' ==> ascii_upper(c) as int == c as int - 32 && ascii_lower(ascii_upper(c))
            == c,
        !('A' <= c <= 'Z') ==> ascii_lower(c) == c,
        !('a' <= c <= 'z') ==> ascii_upper(c) == c,
{
}

/// The number that digits stand for.
pub open spec fn number_read(digits: Seq<char>) -> int
    decreases digits.len(),
{
    if digits.len() == 0 {
        0
    } else {
        10 * number_read(digits.drop_last()) + (digits.last() as int - 48)
    }
}

proof fn lemma_number_read(value: nat)
    ensures
        number_read(decimal_nat(value)) == value,
    decreases value,
{
    if value < 10 {
        assert(decimal_nat(value).drop_last() =~= Seq::empty());
        assert(number_read(Seq::<char>::empty()) == 0);
        assert(decimal_nat(value).last() == digit(value));
        assert(digit(value) as int == 48 + value);
    } else {
        lemma_number_read(value / 10);
        assert(decimal_nat(value).drop_last() =~= decimal_nat(value / 10));
        assert(digit(value % 10) as int == 48 + value % 10);
    }
}

/// A number is spelled by the digits that stand for it, with a sign before them only if it is
/// below zero.
pub proof fn decimals_are_read_back(value: int)
    ensures
        value >= 0 ==> number_read(decimal(value)) == value && decimal(value)[0] != '-',
        value < 0 ==> decimal(value)[0] == '-' && number_read(decimal(value).skip(1)) == -value,
{
    if value < 0 {
        lemma_number_read((-value) as nat);
        assert(decimal(value).skip(1) =~= decimal_nat((-value) as nat));
    } else {
        lemma_number_read(value as nat);
        lemma_decimal_nat(value as nat);
        let digits = decimal_nat(value as nat);
        assert('0' <= digits[0] <= '9');
    }
}

/// The number that bytes stand for, the most significant first.
pub open spec fn bytes_read(bytes: Seq<u8>) -> int
    decreases bytes.len(),
{
    if bytes.len() == 0 {
        0
    } else {
        256 * bytes_read(bytes.drop_last()) + bytes.last()
    }
}

/// A number that fits its width is written as exactly that many bytes, which stand for it.
pub proof fn bytes_are_read_back(value: nat, width: nat)
    ensures
        big_endian(value, width).len() == width,
        value < byte_range(width) ==> bytes_read(big_endian(value, width)) == value,
        width == 0 ==> byte_range(width) == 1,
        width > 0 ==> byte_range(width) == 256 * byte_range((width - 1) as nat),
    decreases width,
{
    if width > 0 {
        bytes_are_read_back(value / 256, (width - 1) as nat);
        let before = big_endian(value / 256, (width - 1) as nat);
        assert(big_endian(value, width).drop_last() =~= before);
        if value < byte_range(width) {
            assert(value / 256 < byte_range((width - 1) as nat));
            assert((value % 256) as u8 as int == value % 256);
        }
    }
}

/// Each byte is spelled by two hexadecimal digits, the upper half first.
pub proof fn hexadecimal_digits_spell_bytes(bytes: Seq<u8>, i: int)
    requires
        0 <= i < bytes.len(),
    ensures
        lower_hex(bytes).len() == 2 * bytes.len(),
        lower_hex(bytes)[2 * i] == "0123456789abcdef"@[bytes[i] as int / 16],
        lower_hex(bytes)[2 * i + 1] == "0123456789abcdef"@[bytes[i] as int % 16],
{
    reveal_strlit("0123456789abcdef");
    assert((2 * i) % 2 == 0 && (2 * i) / 2 == i);
    assert((2 * i + 1) % 2 == 1 && (2 * i + 1) / 2 == i);
    lemma_spelled_digit(bytes[i] as int / 16);
    lemma_spelled_digit(bytes[i] as int % 16);
}

proof fn lemma_spelled_digit(value: int)
    requires
        0 <= value < 16,
    ensures
        hex_digit(value) == "0123456789abcdef"@[value],
{
    reveal_strlit("0123456789abcdef");
    let all = "0123456789abcdef"@;
    assert(all[0] == '0' && all[1] == '1' && all[2] == '2' && all[3] == '3');
    assert(all[4] == '4' && all[5] == '5' && all[6] == '6' && all[7] == '7');
    assert(all[8] == '8' && all[9] == '9' && all[10] == 'a' && all[11] == 'b');
    assert(all[12] == 'c' && all[13] == 'd' && all[14] == 'e' && all[15] == 'f');
}

/// A text that starts with a prefix is the prefix and what is left without it.
pub proof fn prefixes_are_taken_off(text: Seq<char>, prefix: Seq<char>, rest: Seq<char>)
    ensures
        without_prefix(text, prefix) == Some(rest) <==> text == prefix + rest,
        without_prefix(text, prefix) is None ==> !prefix.is_prefix_of(text),
{
    assert((prefix + rest).take(prefix.len() as int) =~= prefix);
    assert((prefix + rest).skip(prefix.len() as int) =~= rest);
    if starts_with(text, prefix) {
        assert(text =~= prefix + text.skip(prefix.len() as int));
    } else if prefix.is_prefix_of(text) {
        assert(text.take(prefix.len() as int) =~= prefix);
    }
}

/// A part stands in a text exactly if the text is the part with something, or nothing, on
/// either side.
pub proof fn parts_stand_between_others(
    text: Seq<char>,
    part: Seq<char>,
    before: Seq<char>,
    after: Seq<char>,
)
    ensures
        text == before + part + after ==> contains(text, part),
        contains(text, part) ==> exists|from: int, to: int|
            0 <= from <= to <= text.len() && #[trigger] text.subrange(from, to) == part,
{
    if text == before + part + after {
        assert(text.subrange(before.len() as int, (before.len() + part.len()) as int) =~= part);
        assert(stands_at(text, part, before.len() as int));
    }
    if contains(text, part) {
        let at = choose|at: int| stands_at(text, part, at);
        assert(text.subrange(at, at + part.len()) == part);
    }
}

/// Bytes are read as the text that they encode, and as none if they encode none.
pub proof fn texts_are_decoded_from_their_bytes(bytes: Seq<u8>, text: Seq<char>)
    ensures
        decoded(bytes) == Some(text) <==> bytes == vstd::utf8::encode_utf8(text),
{
    vstd::utf8::encode_utf8_valid_utf8(text);
    vstd::utf8::encode_utf8_decode_utf8(text);
    if vstd::utf8::valid_utf8(bytes) {
        vstd::utf8::decode_utf8_encode_utf8(bytes);
    }
}

/// Texts are ordered by the first character in which they differ, and a text stands before
/// those that go on from it.
pub proof fn texts_are_ordered_by_their_first_difference(
    common: Seq<char>,
    first: Seq<char>,
    second: Seq<char>,
)
    requires
        second.len() > 0,
        first.len() > 0 ==> first[0] != second[0],
    ensures
        precedes(common + first, common + second) <==> first.len() == 0 || first[0] < second[0],
    decreases common.len(),
{
    if common.len() == 0 {
        assert(common + first =~= first);
        assert(common + second =~= second);
    } else {
        texts_are_ordered_by_their_first_difference(common.drop_first(), first, second);
        assert((common + first).drop_first() =~= common.drop_first() + first);
        assert((common + second).drop_first() =~= common.drop_first() + second);
    }
}

} // verus!
