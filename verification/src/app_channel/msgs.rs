//! Messages exchanged between consensus, the application and the network.

use crate::consensus::LocallyProposedValue;
use crate::consensus::ProposedValue;
use crate::core_types::Address;
use crate::core_types::Height;
use crate::core_types::Round;
use crate::core_types::ValidatorSet;
use crate::core_types::ValueId;
use crate::peer::PeerId;
use crate::sync::messages::CommitCertificate;
use crate::sync::messages::RawDecidedValue;
use std::time::Duration;
use vstd::prelude::*;

verus! {

/// A part of a proposal, in encoded form.
#[derive(Clone, Debug, PartialEq, Eq)]
pub struct ProposalPart(pub Vec<u8>);

/// What a message of a stream carries: a part, or the end of the stream.
#[derive(Clone, Debug, PartialEq, Eq)]
pub enum StreamContent {
    Data(ProposalPart),
    Fin,
}

/// One message of a stream of proposal parts.
#[derive(Clone, Debug, PartialEq, Eq)]
pub struct StreamMessage {
    pub stream_id: u64,
    pub sequence: u64,
    pub content: StreamContent,
}

/// Messages that consensus sends to the bridge. The handle on which an
/// answer is expected stays with the host.
#[derive(Debug)]
pub enum HostMsg {
    /// Consensus is ready.
    ConsensusReady,
    /// A round has begun.
    StartedRound { height: Height, round: Round, proposer: Address },
    /// Consensus needs a value to propose, within `timeout`.
    GetValue { height: Height, round: Round, timeout: Duration },
    /// A value seen before has to be streamed again.
    RestreamValue {
        height: Height,
        round: Round,
        valid_round: Round,
        address: Address,
        value_id: ValueId,
    },
    /// Consensus asks for the earliest height that the application holds.
    GetHistoryMinHeight,
    /// A proposal part arrived from a peer.
    ReceivedProposalPart { from: PeerId, part: StreamMessage },
    /// Consensus asks for the validators of a height.
    GetValidatorSet { height: Height },
    /// Consensus decided on a value.
    Decided { certificate: CommitCertificate },
    /// A peer asks for a value decided earlier.
    GetDecidedValue { height: Height },
    /// A value arrived from a peer while catching up.
    ProcessSyncedValue {
        height: Height,
        round: Round,
        validator_address: Address,
        value_bytes: Vec<u8>,
    },
    /// A peer joined our view of the network.
    PeerJoined { peer_id: PeerId },
    /// A peer left our view of the network.
    PeerLeft { peer_id: PeerId },
}

/// Messages sent from consensus to the application. Those that expect an
/// answer are listed by [`AppMsg::spec_reply_kind`]; the slot for the answer
/// is made by the host when it sends the message.
#[derive(Debug)]
pub enum AppMsg {
    /// Notifies the application that consensus is ready.
    ///
    /// The application MAY reply with a message to instruct
    /// consensus to start at a given height.
    ConsensusReady,
    /// Notifies the application that a new consensus round has begun.
    StartedRound { height: Height, round: Round, proposer: Address },
    /// Requests the application to build a value for consensus to run on.
    ///
    /// The application MUST reply to this message with the requested value
    /// within the specified timeout duration.
    GetValue { height: Height, round: Round, timeout: Duration },
    /// Requests the application to re-stream a proposal that it has already seen.
    RestreamProposal {
        height: Height,
        round: Round,
        valid_round: Round,
        address: Address,
        value_id: ValueId,
    },
    /// Requests the earliest height available in the history maintained by the application.
    GetHistoryMinHeight,
    /// Notifies the application that consensus has received a proposal part over the network.
    ///
    /// If this part completes the full proposal, the application MUST respond
    /// with the complete proposed value. Otherwise, it MUST respond with `None`.
    ReceivedProposalPart { from: PeerId, part: StreamMessage },
    /// Requests the validator set for a specific height.
    GetValidatorSet { height: Height },
    /// Notifies the application that consensus has decided on a value.
    ///
    /// In response to this message, the application MAY instruct consensus to
    /// start the next height.
    Decided { certificate: CommitCertificate },
    /// Requests a previously decided value from the application's storage.
    ///
    /// The application MUST respond with that value if available, or `None` otherwise.
    GetDecidedValue { height: Height },
    /// Notifies the application that a value has been synced from the network.
    ///
    /// If a value can be decoded from the bytes provided, then the application MUST reply
    /// to this message with the decoded value.
    ProcessSyncedValue { height: Height, round: Round, proposer: Address, value_bytes: Vec<u8> },
    /// Notifies the application that a peer has joined our local view of the network.
    PeerJoined { peer_id: PeerId },
    /// Notifies the application that a peer has left our local view of the network.
    PeerLeft { peer_id: PeerId },
}

/// The requests that the application answers.
#[derive(Clone, Copy, Debug, PartialEq, Eq, Structural)]
pub enum RequestKind {
    ConsensusReady,
    GetValue,
    GetHistoryMinHeight,
    ReceivedProposalPart,
    GetValidatorSet,
    Decided,
    GetDecidedValue,
    ProcessSyncedValue,
}

impl AppMsg {
    /// The kind of answer that the message expects, or `None` where it is
    /// only a notification.
    pub open spec fn spec_reply_kind(&self) -> Option<RequestKind> {
        match self {
            AppMsg::ConsensusReady => Some(RequestKind::ConsensusReady),
            AppMsg::StartedRound { .. } => None,
            AppMsg::GetValue { .. } => Some(RequestKind::GetValue),
            AppMsg::RestreamProposal { .. } => None,
            AppMsg::GetHistoryMinHeight => Some(RequestKind::GetHistoryMinHeight),
            AppMsg::ReceivedProposalPart { .. } => Some(RequestKind::ReceivedProposalPart),
            AppMsg::GetValidatorSet { .. } => Some(RequestKind::GetValidatorSet),
            AppMsg::Decided { .. } => Some(RequestKind::Decided),
            AppMsg::GetDecidedValue { .. } => Some(RequestKind::GetDecidedValue),
            AppMsg::ProcessSyncedValue { .. } => Some(RequestKind::ProcessSyncedValue),
            AppMsg::PeerJoined { .. } => None,
            AppMsg::PeerLeft { .. } => None,
        }
    }

    #[verifier::when_used_as_spec(spec_reply_kind)]
    pub fn reply_kind(&self) -> (kind: Option<RequestKind>)
        ensures
            kind == self.spec_reply_kind(),
    {
        match self {
            AppMsg::ConsensusReady => Some(RequestKind::ConsensusReady),
            AppMsg::StartedRound { .. } => None,
            AppMsg::GetValue { .. } => Some(RequestKind::GetValue),
            AppMsg::RestreamProposal { .. } => None,
            AppMsg::GetHistoryMinHeight => Some(RequestKind::GetHistoryMinHeight),
            AppMsg::ReceivedProposalPart { .. } => Some(RequestKind::ReceivedProposalPart),
            AppMsg::GetValidatorSet { .. } => Some(RequestKind::GetValidatorSet),
            AppMsg::Decided { .. } => Some(RequestKind::Decided),
            AppMsg::GetDecidedValue { .. } => Some(RequestKind::GetDecidedValue),
            AppMsg::ProcessSyncedValue { .. } => Some(RequestKind::ProcessSyncedValue),
            AppMsg::PeerJoined { .. } => None,
            AppMsg::PeerLeft { .. } => None,
        }
    }
}

/// What the application answers to a request.
#[derive(Debug)]
pub enum AppReply {
    /// To `ConsensusReady` and `Decided`: a directive for consensus.
    Consensus(ConsensusMsg),
    /// To `GetValue`: the value just built.
    Value(LocallyProposedValue),
    /// To `GetHistoryMinHeight`: the earliest height held.
    HistoryMinHeight(Height),
    /// To `ReceivedProposalPart`: the complete value, once the last part is in.
    ProposalPart(Option<ProposedValue>),
    /// To `GetValidatorSet`: the validators of the height.
    ValidatorSet(ValidatorSet),
    /// To `GetDecidedValue`: the decided value, where the application holds it.
    DecidedValue(Option<RawDecidedValue>),
    /// To `ProcessSyncedValue`: the value decoded from the bytes.
    SyncedValue(ProposedValue),
}

/// What the bridge hands back to the one that asked.
#[derive(Debug)]
pub enum HostReply {
    Value(LocallyProposedValue),
    HistoryMinHeight(Height),
    ProposedValue(ProposedValue),
    ValidatorSet(ValidatorSet),
    DecidedValue(Option<RawDecidedValue>),
}

/// Messages sent from the application to consensus.
#[derive(Clone, Debug, PartialEq, Eq)]
pub enum ConsensusMsg {
    /// Instructs consensus to start a new height with the given validator set.
    StartHeight(Height, ValidatorSet),
}

/// What the consensus actor is told on behalf of the application.
#[derive(Clone, Debug, PartialEq, Eq)]
pub enum ConsensusActorMsg {
    /// Start a new height with the given validator set.
    StartHeight(Height, ValidatorSet),
}

/// The message for the consensus actor that carries the application's directive.
pub open spec fn directive_for(msg: ConsensusMsg) -> ConsensusActorMsg {
    match msg {
        ConsensusMsg::StartHeight(height, validator_set) => ConsensusActorMsg::StartHeight(
            height,
            validator_set,
        ),
    }
}

impl From<ConsensusMsg> for ConsensusActorMsg {
    fn from(msg: ConsensusMsg) -> (r: ConsensusActorMsg) {
        match msg {
            ConsensusMsg::StartHeight(height, validator_set) => ConsensusActorMsg::StartHeight(
                height,
                validator_set,
            ),
        }
    }
}

impl vstd::std_specs::convert::FromSpecImpl<ConsensusMsg> for ConsensusActorMsg {
    open spec fn obeys_from_spec() -> bool {
        true
    }

    open spec fn from_spec(msg: ConsensusMsg) -> ConsensusActorMsg {
        directive_for(msg)
    }
}

/// Messages sent from the application to the networking layer.
#[derive(Clone, Debug, PartialEq, Eq)]
pub enum NetworkMsg {
    /// Publish a proposal part to the network, within a stream.
    PublishProposalPart(StreamMessage),
}

/// What the network actor is told on behalf of the application.
#[derive(Clone, Debug, PartialEq, Eq)]
pub enum NetworkActorMsg {
    /// Publish a proposal part to the network, within a stream.
    PublishProposalPart(StreamMessage),
}

impl From<NetworkMsg> for NetworkActorMsg {
    fn from(msg: NetworkMsg) -> (r: NetworkActorMsg) {
        match msg {
            NetworkMsg::PublishProposalPart(part) => NetworkActorMsg::PublishProposalPart(part),
        }
    }
}

impl vstd::std_specs::convert::FromSpecImpl<NetworkMsg> for NetworkActorMsg {
    open spec fn obeys_from_spec() -> bool {
        true
    }

    open spec fn from_spec(msg: NetworkMsg) -> NetworkActorMsg {
        match msg {
            NetworkMsg::PublishProposalPart(part) => NetworkActorMsg::PublishProposalPart(part),
        }
    }
}

} // verus!

