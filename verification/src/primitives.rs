//! The two value types the ledger stores: 256-bit unsigned words and
//! 20-byte account addresses.

use vstd::prelude::*;

verus! {

/// 2^128: the weight of the high half of a 256-bit word.
pub open spec fn two_pow_128() -> nat {
    0x1_0000_0000_0000_0000_0000_0000_0000_0000nat
}

/// A 256-bit unsigned integer, held as two 128-bit halves.
///
/// Its view is the natural number it denotes. Contracts speak of words through
/// their views; `lemma_view_injective` says that a view names one word only.
#[derive(Clone, Copy, Debug, PartialEq, Eq, Hash)]
pub struct U256 {
    high: u128,
    low: u128,
}

impl View for U256 {
    type V = nat;

    closed spec fn view(&self) -> nat {
        self.high as nat * two_pow_128() + self.low as nat
    }
}

impl U256 {
    /// The word that denotes zero.
    pub closed spec fn spec_zero() -> U256 {
        U256 { high: 0, low: 0 }
    }

    /// Two words are equal exactly when they denote the same number.
    pub proof fn lemma_view_injective(self, other: U256)
        ensures
            self@ == other@ <==> self == other,
    {
    }

    /// The zero word denotes zero.
    pub proof fn lemma_zero()
        ensures
            U256::spec_zero()@ == 0,
    {
    }

    /// Returns the word that denotes zero.
    #[verifier::when_used_as_spec(spec_zero)]
    pub fn zero() -> (r: U256)
        ensures
            r == U256::spec_zero(),
            r@ == 0,
    {
        U256 { high: 0, low: 0 }
    }

    /// Returns the word that denotes `value`.
    pub fn from_u64(value: u64) -> (r: U256)
        ensures
            r@ == value,
    {
        U256 { high: 0, low: value as u128 }
    }

    /// Returns the word that denotes `value`.
    pub fn from_usize(value: usize) -> (r: U256)
        ensures
            r@ == value,
    {
        U256 { high: 0, low: value as u128 }
    }

    /// Returns the word whose upper 128 bits are `high` and whose lower 128
    /// bits are `low`.
    pub fn from_halves(high: u128, low: u128) -> (r: U256)
        ensures
            r@ == high * two_pow_128() + low,
    {
        U256 { high, low }
    }

    /// Returns whether `self` denotes a smaller number than `other`.
    pub fn lt(&self, other: &U256) -> (r: bool)
        ensures
            r == (self@ < other@),
    {
        self.high < other.high || (self.high == other.high && self.low < other.low)
    }

    /// Returns the number as a `usize` where it fits, `None` where it does not.
    pub fn to_usize(&self) -> (r: Option<usize>)
        ensures
            r == if self@ <= usize::MAX {
                Some(self@ as usize)
            } else {
                None
            },
    {
        if self.high == 0 && self.low <= usize::MAX as u128 {
            Some(self.low as usize)
        } else {
            None
        }
    }
}

/// A 20-byte account address.
///
/// Its view is the sequence of its twenty bytes.
#[derive(Clone, Copy, Debug, PartialEq, Eq, Hash)]
pub struct Address {
    bytes: [u8; 20],
}

impl View for Address {
    type V = Seq<u8>;

    closed spec fn view(&self) -> Seq<u8> {
        self.bytes@
    }
}

impl Address {
    /// The zero address: twenty zero bytes. It stands for "no account".
    pub closed spec fn spec_zero() -> Address {
        Address { bytes: vstd::array::spec_array_fill_for_copy_type::<u8, 20>(0u8) }
    }

    /// Two addresses are equal exactly when their bytes are.
    pub proof fn lemma_view_injective(self, other: Address)
        ensures
            self@ == other@ <==> self == other,
    {
        if self@ == other@ {
            assert(self.bytes =~= other.bytes);
        }
    }

    /// Every byte of the zero address is zero.
    pub proof fn lemma_zero()
        ensures
            Address::spec_zero()@ == Seq::new(20, |i: int| 0u8),
    {
    }

    /// Returns the zero address.
    #[verifier::when_used_as_spec(spec_zero)]
    pub fn zero() -> (r: Address)
        ensures
            r == Address::spec_zero(),
            r@ == Seq::new(20, |i: int| 0u8),
    {
        Address { bytes: [0u8; 20] }
    }

    /// Returns the address made of `bytes`.
    pub fn from_bytes(bytes: [u8; 20]) -> (r: Address)
        ensures
            r@ == bytes@,
    {
        Address { bytes }
    }

    /// Returns the twenty bytes of the address.
    pub fn to_bytes(&self) -> (r: [u8; 20])
        ensures
            r@ == self@,
    {
        self.bytes
    }
}

} // verus!
