//! Messages of the consensus layer: votes and proposals, signed or not, and
//! the values that are proposed.

use crate::core_types::Address;
use crate::core_types::Height;
use crate::core_types::Round;
use crate::core_types::Signature;
use crate::core_types::Validity;
use crate::core_types::Value;
use crate::core_types::ValueId;
use vstd::prelude::*;

verus! {

/// The two kinds of vote of a round.
#[derive(Clone, Copy, Debug, PartialEq, Eq, Structural)]
pub enum VoteType {
    Prevote,
    Precommit,
}

/// A vote for a value, or for nil, at a height and round.
#[derive(Clone, Debug, PartialEq, Eq)]
pub struct Vote {
    pub vote_type: VoteType,
    pub height: Height,
    pub round: Round,
    /// The value voted for; `None` is a vote for nil.
    pub value: Option<ValueId>,
    pub validator_address: Address,
}

/// A proposal of a value at a height and round.
#[derive(Clone, Debug, PartialEq, Eq)]
pub struct Proposal {
    pub height: Height,
    pub round: Round,
    pub value: Value,
    /// The round in which the value gathered a quorum of prevotes, if any.
    pub pol_round: Round,
    pub validator_address: Address,
}

/// A vote with the signature of its validator.
#[derive(Clone, Debug, PartialEq, Eq)]
pub struct SignedVote {
    pub message: Vote,
    pub signature: Signature,
}

/// A proposal with the signature of its proposer.
#[derive(Clone, Debug, PartialEq, Eq)]
pub struct SignedProposal {
    pub message: Proposal,
    pub signature: Signature,
}

/// A signed consensus message, i.e. a signed vote or a signed proposal.
#[derive(Clone, Debug, PartialEq, Eq)]
pub enum SignedConsensusMsg {
    Vote(SignedVote),
    Proposal(SignedProposal),
}

impl SignedConsensusMsg {
    pub open spec fn spec_height(&self) -> Height {
        match self {
            SignedConsensusMsg::Vote(msg) => msg.message.height,
            SignedConsensusMsg::Proposal(msg) => msg.message.height,
        }
    }

    pub open spec fn spec_round(&self) -> Round {
        match self {
            SignedConsensusMsg::Vote(msg) => msg.message.round,
            SignedConsensusMsg::Proposal(msg) => msg.message.round,
        }
    }

    pub open spec fn spec_signature(&self) -> Signature {
        match self {
            SignedConsensusMsg::Vote(msg) => msg.signature,
            SignedConsensusMsg::Proposal(msg) => msg.signature,
        }
    }

    /// Height of the vote or proposal.
    #[verifier::when_used_as_spec(spec_height)]
    pub fn height(&self) -> (h: Height)
        ensures
            h == self.spec_height(),
    {
        match self {
            SignedConsensusMsg::Vote(msg) => msg.message.height,
            SignedConsensusMsg::Proposal(msg) => msg.message.height,
        }
    }

    /// Round of the vote or proposal.
    #[verifier::when_used_as_spec(spec_round)]
    pub fn round(&self) -> (r: Round)
        ensures
            r == self.spec_round(),
    {
        match self {
            SignedConsensusMsg::Vote(msg) => msg.message.round,
            SignedConsensusMsg::Proposal(msg) => msg.message.round,
        }
    }

    /// Signature over the vote or proposal.
    pub fn signature(&self) -> (s: &Signature)
        ensures
            *s == self.spec_signature(),
    {
        match self {
            SignedConsensusMsg::Vote(msg) => &msg.signature,
            SignedConsensusMsg::Proposal(msg) => &msg.signature,
        }
    }
}

/// A message that can be sent by the consensus layer.
#[derive(Clone, Debug, PartialEq, Eq)]
pub enum ConsensusMsg {
    Vote(Vote),
    Proposal(Proposal),
}

/// A value to propose by the current node.
/// Used only when the node is the proposer.
#[derive(Clone, Debug, PartialEq, Eq)]
pub struct LocallyProposedValue {
    pub height: Height,
    pub round: Round,
    pub value: Value,
}

impl LocallyProposedValue {
    pub fn new(height: Height, round: Round, value: Value) -> (v: LocallyProposedValue)
        ensures
            v == (LocallyProposedValue { height, round, value }),
    {
        LocallyProposedValue { height, round, value }
    }
}

/// A value proposed by a validator.
#[derive(Clone, Debug, PartialEq, Eq)]
pub struct ProposedValue {
    pub height: Height,
    pub round: Round,
    pub valid_round: Round,
    pub proposer: Address,
    pub value: Value,
    pub validity: Validity,
}

/// Why a vote extension was refused.
#[derive(Clone, Copy, Debug, PartialEq, Eq, Structural)]
pub enum VoteExtensionError {
    /// Invalid vote extension signature.
    InvalidSignature,
    /// Invalid vote extension.
    InvalidVoteExtension,
}

} // verus!
