//! Unsigned integers of 256 bits: balances, amounts and counters as the
//! chain reports them.

use vstd::prelude::*;

verus! {

/// The number that four 64-bit limbs stand for, the least significant first.
pub open spec fn limbs_value(limbs: Seq<u64>) -> nat {
    (limbs[0] + limbs[1] * 0x1_0000_0000_0000_0000int + limbs[2]
        * 0x1_0000_0000_0000_0000_0000_0000_0000_0000int + limbs[3]
        * 0x1_0000_0000_0000_0000_0000_0000_0000_0000_0000_0000_0000_0000int) as nat
}

/// The decimal digit of `n` modulo ten.
pub open spec fn decimal_digit(n: nat) -> char {
    ((n % 10) + 48) as u8 as char
}

/// The decimal text of `n`, without leading zeros: "0" for zero.
pub open spec fn decimal_text(n: nat) -> Seq<char>
    decreases n,
{
    if n < 10 {
        seq![decimal_digit(n)]
    } else {
        decimal_text(n / 10).push(decimal_digit(n))
    }
}

/// An unsigned integer below 2^256, held as four limbs, the least
/// significant first.
#[derive(Debug, Clone, Copy, PartialEq, Eq)]
pub struct Uint256 {
    pub limbs: [u64; 4],
}

impl View for Uint256 {
    type V = nat;

    open spec fn view(&self) -> nat {
        limbs_value(self.limbs@)
    }
}

impl Uint256 {
    /// Zero.
    pub fn zero() -> (n: Uint256)
        ensures
            n@ == 0,
    {
        Uint256 { limbs: [0, 0, 0, 0] }
    }

    /// The value of a machine word.
    pub fn from_u64(word: u64) -> (n: Uint256)
        ensures
            n@ == word,
    {
        Uint256 { limbs: [word, 0, 0, 0] }
    }

    /// Whether the value is zero.
    pub fn is_zero(&self) -> (zero: bool)
        ensures
            zero == (self@ == 0),
    {
        self.limbs[0] == 0 && self.limbs[1] == 0 && self.limbs[2] == 0 && self.limbs[3] == 0
    }

    /// Whether the value is smaller than `other`.
    pub fn lt(&self, other: &Uint256) -> (smaller: bool)
        ensures
            smaller == (self@ < other@),
    {
        if self.limbs[3] != other.limbs[3] {
            self.limbs[3] < other.limbs[3]
        } else if self.limbs[2] != other.limbs[2] {
            self.limbs[2] < other.limbs[2]
        } else if self.limbs[1] != other.limbs[1] {
            self.limbs[1] < other.limbs[1]
        } else {
            self.limbs[0] < other.limbs[0]
        }
    }

    /// The value as a machine word, where it fits in one.
    pub fn to_u64(&self) -> (word: Option<u64>)
        ensures
            self@ <= u64::MAX ==> word == Some(self@ as u64),
            self@ > u64::MAX ==> word is None,
    {
        if self.limbs[1] == 0 && self.limbs[2] == 0 && self.limbs[3] == 0 {
            Some(self.limbs[0])
        } else {
            None
        }
    }
}

/// The decimal text of `n`, by the `Display` of `ethers::types::U256`, which
/// writes the digits of the value without leading zeros, and "0" for zero.
#[verifier::external_body]
pub(crate) fn decimal_string(n: &Uint256) -> (text: String)
    ensures
        text@ == decimal_text(n@),
{
    ethers::types::U256(n.limbs).to_string()
}

} // verus!
