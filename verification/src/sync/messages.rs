//! The messages that the synchronisation engine exchanges with peers and
//! with its host. The engine carries them by value and reads only their
//! heights and rounds.

use crate::consensus::SignedVote;
use crate::core_types::Address;
use crate::core_types::Height;
use crate::core_types::Round;
use crate::core_types::Signature;
use crate::core_types::ValueId;
use crate::peer::PeerId;
use vstd::prelude::*;

verus! {

/// Identifier that the host gave to a request received from a peer.
#[derive(Clone, Copy, Debug, PartialEq, Eq, Structural, PartialOrd, Ord, Hash)]
pub struct InboundRequestId(pub u64);

/// Identifier that the host gave to a request sent to a peer.
#[derive(Clone, Copy, Debug, PartialEq, Eq, Structural, PartialOrd, Ord, Hash)]
pub struct OutboundRequestId(pub u64);

/// What a peer advertises: the highest height it has decided and the
/// earliest height whose value it still holds.
#[derive(Clone, Copy, Debug, PartialEq, Eq)]
pub struct Status {
    pub peer_id: PeerId,
    pub height: Height,
    pub history_min_height: Height,
}

impl Status {
    /// Whether a peer with this status holds the value decided at `height`.
    pub open spec fn spec_has_value(&self, height: Height) -> bool {
        self.history_min_height.0 <= height.0 <= self.height.0
    }

    pub fn new(peer_id: PeerId, height: Height, history_min_height: Height) -> (s: Status)
        ensures
            s == (Status { peer_id, height, history_min_height }),
    {
        Status { peer_id, height, history_min_height }
    }

    #[verifier::when_used_as_spec(spec_has_value)]
    pub fn has_value(&self, height: Height) -> (b: bool)
        ensures
            b == self.spec_has_value(height),
    {
        self.history_min_height.0 <= height.0 && height.0 <= self.height.0
    }
}

/// One validator's signature in a commit certificate.
#[derive(Clone, Debug, PartialEq, Eq)]
pub struct CommitSignature {
    pub address: Address,
    pub signature: Signature,
}

/// Attests that a value was decided at a height and round.
#[derive(Clone, Debug, PartialEq, Eq)]
pub struct CommitCertificate {
    pub height: Height,
    pub round: Round,
    pub value_id: ValueId,
    pub aggregated_signatures: Vec<CommitSignature>,
}

/// Why consensus rejected a commit certificate.
#[derive(Clone, Debug, PartialEq, Eq)]
pub enum CertificateError {
    /// A signature does not verify.
    SignatureInvalid,
    /// A signature comes from an address that is no validator.
    UnknownValidator(Address),
    /// The signatures do not carry enough voting power.
    NotEnoughVotingPower { signed: u64, total: u64, expected: u64 },
    /// A validator signed more than once.
    DuplicateVote(Address),
}

/// A decided value as it travels between peers: certificate and encoded value.
#[derive(Clone, Debug, PartialEq, Eq)]
pub struct RawDecidedValue {
    pub certificate: CommitCertificate,
    pub value_bytes: Vec<u8>,
}

/// Asks a peer for the value decided at a height.
#[derive(Clone, Copy, Debug, PartialEq, Eq, Structural)]
pub struct ValueRequest {
    pub height: Height,
}

impl ValueRequest {
    pub fn new(height: Height) -> (r: ValueRequest)
        ensures
            r == (ValueRequest { height }),
    {
        ValueRequest { height }
    }
}

/// Answers a [`ValueRequest`]; `value` is `None` where the peer has none.
#[derive(Clone, Debug, PartialEq, Eq)]
pub struct ValueResponse {
    pub height: Height,
    pub value: Option<RawDecidedValue>,
}

impl ValueResponse {
    pub fn new(height: Height, value: Option<RawDecidedValue>) -> (r: ValueResponse)
        ensures
            r == (ValueResponse { height, value }),
    {
        ValueResponse { height, value }
    }
}

/// Asks a peer for the votes it has seen at a height and round.
#[derive(Clone, Copy, Debug, PartialEq, Eq, Structural)]
pub struct VoteSetRequest {
    pub height: Height,
    pub round: Round,
}

impl VoteSetRequest {
    pub fn new(height: Height, round: Round) -> (r: VoteSetRequest)
        ensures
            r == (VoteSetRequest { height, round }),
    {
        VoteSetRequest { height, round }
    }
}

/// Answers a [`VoteSetRequest`].
#[derive(Clone, Debug, PartialEq, Eq)]
pub struct VoteSetResponse {
    pub height: Height,
    pub round: Round,
    pub vote_set: Vec<SignedVote>,
}

impl VoteSetResponse {
    pub fn new(height: Height, round: Round, vote_set: Vec<SignedVote>) -> (r:
        VoteSetResponse)
        ensures
            r == (VoteSetResponse { height, round, vote_set }),
    {
        VoteSetResponse { height, round, vote_set }
    }
}

/// A request sent to a peer, of either kind.
#[derive(Clone, Copy, Debug, PartialEq, Eq, Structural)]
pub enum Request {
    ValueRequest(ValueRequest),
    VoteSetRequest(VoteSetRequest),
}

} // verus!
