//! Identifiers.

use vstd::prelude::*;

use crate::text;
use crate::text::push_big_endian;

verus! {

/// A UUID, held as the number that its sixteen octets spell in big-endian order.
#[derive(Clone, Copy, Debug, PartialEq, Eq, Structural)]
pub struct Uuid {
    pub value: u128,
}

impl Uuid {
    pub fn from_u128(value: u128) -> (id: Uuid)
        ensures
            id.value == value,
    {
        Uuid { value }
    }

    /// The sixteen octets, the most significant first.
    pub open spec fn octets(self) -> Seq<u8> {
        text::big_endian(self.value as nat, 16)
    }

    /// The usual spelling: 32 lower case hexadecimal digits in five groups.
    pub open spec fn hyphenated(self) -> Seq<char> {
        let digits = text::lower_hex(self.octets());
        digits.subrange(0, 8).push('-') + digits.subrange(8, 12).push('-') + digits.subrange(
            12,
            16,
        ).push('-') + digits.subrange(16, 20).push('-') + digits.subrange(20, 32)
    }

    pub fn push_octets(self, out: &mut Vec<u8>)
        ensures
            final(out)@ == old(out)@ + self.octets(),
    {
        push_big_endian(out, self.value, 16);
    }

    pub fn text(self) -> (text: String)
        ensures
            text@ == self.hyphenated(),
    {
        hyphenated_text(self.value)
    }
}

/// Different UUIDs are spelled differently.
pub proof fn spellings_are_told_apart(first: Uuid, second: Uuid)
    requires
        first.hyphenated() == second.hyphenated(),
    ensures
        first == second,
{
    let a = text::lower_hex(first.octets());
    let b = text::lower_hex(second.octets());
    text::lemma_big_endian_length(first.value as nat, 16);
    text::lemma_big_endian_length(second.value as nat, 16);
    lemma_digits(a, first.hyphenated());
    lemma_digits(b, second.hyphenated());
    text::lemma_lower_hex_injective(first.octets(), second.octets());
    assert(text::byte_range(16) == 0x1_0000_0000_0000_0000_0000_0000_0000_0000) by {
        reveal_with_fuel(text::byte_range, 17);
    }
    text::lemma_big_endian_injective(first.value as nat, second.value as nat, 16);
}

/// The digits of a UUID, out of its spelling.
proof fn lemma_digits(digits: Seq<char>, spelled: Seq<char>)
    requires
        digits.len() == 32,
        spelled == digits.subrange(0, 8).push('-') + digits.subrange(8, 12).push('-')
            + digits.subrange(12, 16).push('-') + digits.subrange(16, 20).push('-')
            + digits.subrange(20, 32),
    ensures
        digits == spelled.subrange(0, 8) + spelled.subrange(9, 13) + spelled.subrange(14, 18)
            + spelled.subrange(19, 23) + spelled.subrange(24, 36),
{
    assert(digits =~= spelled.subrange(0, 8) + spelled.subrange(9, 13) + spelled.subrange(14, 18)
        + spelled.subrange(19, 23) + spelled.subrange(24, 36));
}

/// Calls `uuid::Uuid::from_u128` and the `Display` of the UUID it returns, which
/// spells the sixteen octets in lower case hexadecimal digits, with a hyphen after
/// the eighth, twelfth, sixteenth and twentieth digit.
#[verifier::external_body]
fn hyphenated_text(value: u128) -> (text: String)
    ensures
        text@ == (Uuid { value }).hyphenated(),
{
    uuid::Uuid::from_u128(value).to_string()
}

} // verus!
