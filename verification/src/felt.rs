//! Field elements as four 64-bit words.

use vstd::prelude::*;
use num_bigint::BigUint;

verus! {

/// A 256-bit value; `w3` is the most significant word.
#[derive(Clone, Copy, Debug, PartialEq, Eq, Structural, Hash)]
pub struct Felt {
    pub w3: u64,
    pub w2: u64,
    pub w1: u64,
    pub w0: u64,
}

/// The hexadecimal digit for `d`, which is below 16.
pub open spec fn hex_digit(d: nat) -> char {
    "0123456789abcdef"@[d as int]
}

/// The hexadecimal digits of `n`, most significant first, without leading
/// zeros; the one digit `0` for zero.
pub open spec fn hex_digits(n: nat) -> Seq<char>
    decreases n,
{
    if n < 16 {
        seq![hex_digit(n)]
    } else {
        hex_digits(n / 16).push(hex_digit(n % 16))
    }
}

/// `n` in lower-case hexadecimal with the prefix `0x`.
pub open spec fn hex_text(n: nat) -> Seq<char> {
    "0x"@ + hex_digits(n)
}

/// Formats a field element with `num_bigint`: the number is made by
/// `BigUint::from_bytes_be` from the four words, most significant first, and
/// written by the `LowerHex` impl of `BigUint` in the alternate form, which
/// puts `0x` before the digits of `to_str_radix(16)`.
#[verifier::external_body]
pub(crate) fn hex_word(word: &Felt) -> (text: String)
    ensures
        text@ == hex_text(word.value()),
{
    let bytes = [
        word.w3.to_be_bytes(),
        word.w2.to_be_bytes(),
        word.w1.to_be_bytes(),
        word.w0.to_be_bytes(),
    ].concat();
    format!("{:#x}", BigUint::from_bytes_be(&bytes))
}

impl Felt {
    /// The number that the four words denote.
    pub open spec fn value(self) -> nat {
        (self.w3 as nat) * 0x1_0000_0000_0000_0000 * 0x1_0000_0000_0000_0000 * 0x1_0000_0000_0000_0000
            + (self.w2 as nat) * 0x1_0000_0000_0000_0000 * 0x1_0000_0000_0000_0000
            + (self.w1 as nat) * 0x1_0000_0000_0000_0000
            + (self.w0 as nat)
    }

    /// The element in lower-case hexadecimal with the prefix `0x`.
    pub open spec fn hex(self) -> Seq<char> {
        hex_text(self.value())
    }

    /// The element as hexadecimal text.
    pub fn to_hex(&self) -> (text: String)
        ensures
            text@ == self.hex(),
    {
        hex_word(self)
    }

    /// The zero element, the default of every felt-valued record.
    pub fn zero() -> (z: Felt)
        ensures
            z == (Felt { w3: 0, w2: 0, w1: 0, w0: 0 }),
            z.value() == 0,
    {
        Felt { w3: 0, w2: 0, w1: 0, w0: 0 }
    }

    /// The element whose value is `v`.
    pub fn from_u64(v: u64) -> (f: Felt)
        ensures
            f == (Felt { w3: 0, w2: 0, w1: 0, w0: v }),
            f.value() == v,
    {
        Felt { w3: 0, w2: 0, w1: 0, w0: v }
    }
}

} // verus!
