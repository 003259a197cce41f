//! Amounts of currency at the chain's native width of 256 bits.

use vstd::prelude::*;

verus! {

/// A non-negative integer below 2^256, held as four words of 64 bits.
#[derive(Debug, Clone, Copy, PartialEq, Eq, Structural)]
pub struct Amount {
    /// Bits 192 to 255.
    pub word3: u64,
    /// Bits 128 to 191.
    pub word2: u64,
    /// Bits 64 to 127.
    pub word1: u64,
    /// Bits 0 to 63.
    pub word0: u64,
}

/// 2^64, the weight of one word in the next.
pub open spec fn word_base() -> nat {
    0x1_0000_0000_0000_0000
}

impl View for Amount {
    type V = nat;

    /// The number that the four words spell.
    open spec fn view(&self) -> nat {
        (self.word0 + word_base() * (self.word1 + word_base() * (self.word2 + word_base()
            * self.word3))) as nat
    }
}

impl Amount {
    /// The amount 0.
    pub fn zero() -> (out: Amount)
        ensures
            out@ == 0,
    {
        Amount { word3: 0, word2: 0, word1: 0, word0: 0 }
    }

    /// The amount `value`.
    pub fn from_u64(value: u64) -> (out: Amount)
        ensures
            out@ == value,
    {
        Amount { word3: 0, word2: 0, word1: 0, word0: value }
    }

    /// The amount whose words are `limbs`, least significant first.
    pub fn from_limbs(limbs: [u64; 4]) -> (out: Amount)
        ensures
            out == (Amount { word3: limbs[3], word2: limbs[2], word1: limbs[1], word0: limbs[0] }),
    {
        Amount { word3: limbs[3], word2: limbs[2], word1: limbs[1], word0: limbs[0] }
    }

    /// The words of the amount, least significant first.
    pub fn to_limbs(&self) -> (out: [u64; 4])
        ensures
            out[0] == self.word0,
            out[1] == self.word1,
            out[2] == self.word2,
            out[3] == self.word3,
    {
        [self.word0, self.word1, self.word2, self.word3]
    }

    /// Whether the amount is 0.
    pub fn is_zero(&self) -> (out: bool)
        ensures
            out == (self@ == 0),
    {
        self.word3 == 0 && self.word2 == 0 && self.word1 == 0 && self.word0 == 0
    }

    /// Whether `self` is at least `other`, as numbers.
    pub fn ge(&self, other: &Amount) -> (out: bool)
        ensures
            out == (self@ >= other@),
    {
        if self.word3 != other.word3 {
            self.word3 > other.word3
        } else if self.word2 != other.word2 {
            self.word2 > other.word2
        } else if self.word1 != other.word1 {
            self.word1 > other.word1
        } else {
            self.word0 >= other.word0
        }
    }
}

} // verus!
