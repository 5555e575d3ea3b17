//! Heights and rounds, the two coordinates of a consensus decision, and the
//! opaque payloads that consensus messages carry.

use vstd::prelude::*;

verus! {

/// Slot index of a decision.
#[derive(Clone, Copy, Debug, PartialEq, Eq, Structural, PartialOrd, Ord, Hash)]
pub struct Height(pub u64);

impl Height {
    pub fn new(height: u64) -> (h: Height)
        ensures
            h == Height(height),
    {
        Height(height)
    }

    pub open spec fn spec_as_u64(&self) -> u64 {
        self.0
    }

    #[verifier::when_used_as_spec(spec_as_u64)]
    pub fn as_u64(&self) -> (n: u64)
        ensures
            n == self.0,
    {
        self.0
    }
}

/// Ballot number within a height; `Nil` stands for "no round".
#[derive(Clone, Copy, Debug, PartialEq, Eq, Structural, PartialOrd, Ord, Hash)]
pub enum Round {
    Nil,
    Defined(u32),
}

impl Round {
    /// The round as a signed integer: `-1` for `Nil`, the round number otherwise.
    pub open spec fn spec_as_i64(&self) -> i64 {
        match self {
            Round::Nil => -1i64,
            Round::Defined(r) => *r as i64,
        }
    }

    /// The round of the given number.
    pub fn new(round: u32) -> (r: Round)
        ensures
            r == Round::Defined(round),
    {
        Round::Defined(round)
    }

    /// The round that a signed integer stands for: `Nil` for a negative
    /// one, the round of that number otherwise. A number beyond `u32::MAX`
    /// is no round and gives `None`.
    pub fn from_i64(round: i64) -> (r: Option<Round>)
        ensures
            round < 0 ==> r == Some(Round::Nil),
            0 <= round <= u32::MAX ==> r == Some(Round::Defined(round as u32)),
            round > u32::MAX ==> r is None,
            r matches Some(x) ==> round >= -1 ==> x.spec_as_i64() == round,
    {
        if round < 0 {
            Some(Round::Nil)
        } else if round <= 0xffff_ffff {
            Some(Round::Defined(round as u32))
        } else {
            None
        }
    }

    #[verifier::when_used_as_spec(spec_as_i64)]
    pub fn as_i64(&self) -> (n: i64)
        ensures
            n == self.spec_as_i64(),
            n >= -1,
    {
        match self {
            Round::Nil => -1,
            Round::Defined(r) => *r as i64,
        }
    }

    pub fn is_defined(&self) -> (b: bool)
        ensures
            b == (self.spec_as_i64() >= 0),
    {
        match self {
            Round::Nil => false,
            Round::Defined(_) => true,
        }
    }
}

/// Rounds are told apart by their numbers.
pub proof fn lemma_round_number_injective(a: Round, b: Round)
    requires
        a.spec_as_i64() == b.spec_as_i64(),
    ensures
        a == b,
{
}

/// Address of a validator, as the bytes the chain uses for it.
#[derive(Clone, Debug, PartialEq, Eq)]
pub struct Address(pub Vec<u8>);

/// A value that consensus decides on, in encoded form.
#[derive(Clone, Debug, PartialEq, Eq)]
pub struct Value(pub Vec<u8>);

/// Identifier of a value, typically its hash.
#[derive(Clone, Debug, PartialEq, Eq)]
pub struct ValueId(pub Vec<u8>);

/// Signature of a validator over a message.
#[derive(Clone, Debug, PartialEq, Eq)]
pub struct Signature(pub Vec<u8>);

/// The validators of a height, in encoded form.
#[derive(Clone, Debug, PartialEq, Eq)]
pub struct ValidatorSet(pub Vec<u8>);

/// Whether a proposed value passed the application's checks.
#[derive(Clone, Copy, Debug, PartialEq, Eq, Structural)]
pub enum Validity {
    Valid,
    Invalid,
}

} // verus!
