//! 128-bit identifiers for tenants, correlation and requests.

use vstd::prelude::*;
use crate::checksum::hex_digit;

verus! {

/// A universally unique identifier, held as its 128-bit value.
#[derive(Clone, Copy, Debug, PartialEq, Eq, Structural)]
pub struct Uuid {
    pub bits: u128,
}

/// The lowest `width` hexadecimal digits of `n`, most significant first.
pub open spec fn hex_fixed(n: nat, width: nat) -> Seq<char>
    decreases width,
{
    if width == 0 {
        Seq::empty()
    } else {
        hex_fixed(n / 16, (width - 1) as nat).push(hex_digit((n % 16) as int))
    }
}

/// The hyphenated lowercase text of an identifier, in groups of 8, 4, 4, 4 and
/// 12 hexadecimal digits.
pub open spec fn uuid_text(bits: u128) -> Seq<char> {
    let n = bits as nat;
    hex_fixed(n / 0x1_0000_0000_0000_0000_0000_0000, 8) + seq!['-'] + hex_fixed(
        n / 0x1_0000_0000_0000_0000_0000,
        4,
    ) + seq!['-'] + hex_fixed(n / 0x1_0000_0000_0000_0000, 4) + seq!['-'] + hex_fixed(
        n / 0x1_0000_0000_0000,
        4,
    ) + seq!['-'] + hex_fixed(n, 12)
}

/// `uuid::Uuid::from_u128` followed by its `Display`: the hyphenated lowercase
/// form of the value, most significant digit first.
#[verifier::external_body]
pub(crate) fn uuid_hyphenated(bits: u128) -> (text: String)
    ensures
        text@ == uuid_text(bits),
{
    uuid::Uuid::from_u128(bits).to_string()
}

/// Whether a value carries the marks of a randomly drawn identifier: the
/// version digit, the thirteenth of its thirty-two hexadecimal digits, is 4,
/// and the two highest bits of the seventeenth digit are 1 and 0.
pub open spec fn is_random_version(bits: u128) -> bool {
    bits & 0xf000_c000_0000_0000_0000u128 == 0x4000_8000_0000_0000_0000u128
}

/// `uuid::Uuid::new_v4`: a freshly drawn random identifier. Whatever is drawn,
/// the version and variant bits are set to those of a random identifier;
/// nothing is promised of the other bits.
#[verifier::external_body]
pub(crate) fn uuid_random() -> (bits: u128)
    ensures
        is_random_version(bits),
{
    uuid::Uuid::new_v4().as_u128()
}

impl Uuid {
    pub fn from_u128(bits: u128) -> (id: Uuid)
        ensures
            id.bits == bits,
    {
        Uuid { bits }
    }

    pub fn as_u128(&self) -> (bits: u128)
        ensures
            bits == self.bits,
    {
        self.bits
    }

    /// A fresh random identifier: its value is drawn at random but for the
    /// version and variant bits, which mark it as drawn at random.
    pub fn new_v4() -> (id: Uuid)
        ensures
            is_random_version(id.bits),
    {
        Uuid { bits: uuid_random() }
    }

    /// The hyphenated lowercase text of the identifier.
    pub fn to_text(&self) -> (text: String)
        ensures
            text@ == uuid_text(self.bits),
    {
        uuid_hyphenated(self.bits)
    }
}

} // verus!
