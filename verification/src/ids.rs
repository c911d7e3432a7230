//! Unique identifiers of rows.

use vstd::arithmetic::power::pow;
use vstd::prelude::*;

verus! {

/// A 128-bit universally unique identifier, held as its bits.
#[derive(Clone, Copy, Debug, PartialEq, Eq, Hash, Structural)]
pub struct Uuid {
    pub bits: u128,
}

/// The lower-case hexadecimal digit for a value below sixteen.
pub open spec fn hex_digit(value: int) -> char {
    seq!['0', '1', '2', '3', '4', '5', '6', '7', '8', '9', 'a', 'b', 'c', 'd', 'e', 'f'][value]
}

/// The `k`-th of the 32 four-bit groups of `bits`, the most significant first.
pub open spec fn nibble(bits: u128, k: int) -> int {
    (bits as int / pow(16, (31 - k) as nat)) % 16
}

/// Which of the 32 digits stands at index `i` of the hyphenated text.
pub open spec fn digit_position(i: int) -> int {
    if i < 8 {
        i
    } else if i < 13 {
        i - 1
    } else if i < 18 {
        i - 2
    } else if i < 23 {
        i - 3
    } else {
        i - 4
    }
}

/// The canonical text of an identifier: 32 lower-case hexadecimal digits in
/// groups of 8, 4, 4, 4 and 12, separated by hyphens.
pub open spec fn hyphenated(bits: u128) -> Seq<char> {
    Seq::new(
        36,
        |i: int|
            if i == 8 || i == 13 || i == 18 || i == 23 {
                '-'
            } else {
                hex_digit(nibble(bits, digit_position(i)))
            },
    )
}

/// Whether `bits` carry the version and variant marks of a random identifier:
/// the version group is 4 and the two variant bits are `10`.
pub open spec fn marked_random(bits: u128) -> bool {
    bits & 0x0000_0000_0000_f000_c000_0000_0000_0000u128
        == 0x0000_0000_0000_4000_8000_0000_0000_0000u128
}

/// Calls `uuid::Uuid::new_v4` and hands back the bits of the identifier it
/// made. The bits come from the operating system's random source, so two
/// calls differ; trusted is only that the crate stamps version 4 and the
/// RFC variant on them. The call aborts where the system has no random source.
#[verifier::external_body]
fn random_bits() -> (bits: u128)
    ensures
        marked_random(bits),
{
    uuid::Uuid::new_v4().as_u128()
}

/// Calls `uuid::Uuid`'s `Display`, through `to_string`, on the identifier
/// with the given bits. Trusted: the text is the hyphenated lower-case form.
#[verifier::external_body]
fn hyphenated_text(bits: u128) -> (text: String)
    ensures
        text@ == hyphenated(bits),
{
    uuid::Uuid::from_u128(bits).to_string()
}

impl Uuid {
    /// The identifier whose bits are all zero.
    pub fn nil() -> (id: Uuid)
        ensures
            id.bits == 0,
    {
        Uuid { bits: 0 }
    }

    /// The identifier with the given bits.
    pub fn from_u128(bits: u128) -> (id: Uuid)
        ensures
            id.bits == bits,
    {
        Uuid { bits }
    }

    /// The bits of the identifier.
    pub fn as_u128(&self) -> (bits: u128)
        ensures
            bits == self.bits,
    {
        self.bits
    }

    /// A fresh random identifier. Nothing is promised of it but its marks.
    pub fn new_v4() -> (id: Uuid)
        ensures
            marked_random(id.bits),
    {
        Uuid { bits: random_bits() }
    }

    /// The canonical hyphenated text of the identifier.
    pub fn to_string(&self) -> (text: String)
        ensures
            text@ == hyphenated(self.bits),
    {
        hyphenated_text(self.bits)
    }
}

} // verus!
