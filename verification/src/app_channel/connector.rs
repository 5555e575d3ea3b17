//! The decisions of the bridge between consensus and the application.
//!
//! For each message from consensus the bridge sends one message to the
//! application. A notification ends there. A request goes on: the bridge
//! waits for the application's answer and hands it to the one that asked,
//! which is the consensus actor for `ConsensusReady` and `Decided` and the
//! requester for the others. A failure at any point ends the exchange and is
//! reported; it never stops the bridge.
//!
//! The host owns the channels. It carries out each [`Action`] and reports
//! what came of it as an [`Event`].

use crate::app_channel::msgs::directive_for;
use crate::app_channel::msgs::AppMsg;
use crate::app_channel::msgs::AppReply;
use crate::app_channel::msgs::ConsensusActorMsg;
use crate::app_channel::msgs::HostMsg;
use crate::app_channel::msgs::HostReply;
use crate::app_channel::msgs::RequestKind;
use vstd::prelude::*;

verus! {

/// Why an exchange ended without its answer being delivered.
#[derive(Clone, Copy, Debug, PartialEq, Eq, Structural)]
pub enum BridgeError {
    /// The application's mailbox is closed.
    MailboxClosed,
    /// The application dropped the slot for its answer.
    ReplyDropped,
    /// The one that asked is no longer there to take the answer.
    RequesterGone,
    /// The application's answer is of another kind than the request.
    UnexpectedReply(RequestKind),
    /// The host reported something that the exchange was not waiting for.
    UnexpectedEvent,
}

/// Where the application's answer goes.
#[derive(Debug)]
pub enum Delivery {
    /// To the consensus actor, as a directive.
    CastToConsensus(ConsensusActorMsg),
    /// To the one that asked.
    ReplyToRequester(HostReply),
    /// Nowhere: there is nothing to tell yet.
    Nothing,
}

/// How far the handling of one message from consensus has come.
#[derive(Clone, Copy, Debug, PartialEq, Eq, Structural)]
pub enum Exchange {
    /// The message is on its way to the application.
    Sending { awaits: Option<RequestKind> },
    /// The application has the request; its answer is awaited.
    AwaitingReply { kind: RequestKind },
    /// The answer is on its way to the one that asked.
    Delivering,
    /// Nothing is left to do.
    Done,
}

/// What the host reports once it has carried out an action.
#[derive(Debug)]
pub enum Event {
    /// The application's mailbox took the message.
    Sent,
    /// The application's mailbox is closed.
    MailboxClosed,
    /// The application answered.
    Replied(AppReply),
    /// The application dropped the slot for its answer.
    ReplyDropped,
    /// The answer was handed over.
    Delivered,
    /// The answer could not be handed over.
    RequesterGone,
}

/// What the host has to do next.
#[derive(Debug)]
pub enum Action {
    /// Wait for the application's answer.
    AwaitReply,
    /// Cast the directive to the consensus actor.
    CastToConsensus(ConsensusActorMsg),
    /// Send the answer to the one that asked.
    ReplyToRequester(HostReply),
    /// The exchange is over; log the failure, if any, and go on with the
    /// next message.
    Finish(Result<(), BridgeError>),
}

/// The message that the application gets for a message from consensus.
pub open spec fn spec_to_app_msg(msg: HostMsg) -> AppMsg {
    match msg {
        HostMsg::ConsensusReady => AppMsg::ConsensusReady,
        HostMsg::StartedRound { height, round, proposer } => AppMsg::StartedRound {
            height,
            round,
            proposer,
        },
        HostMsg::GetValue { height, round, timeout } => AppMsg::GetValue { height, round, timeout },
        HostMsg::RestreamValue { height, round, valid_round, address, value_id } => {
            AppMsg::RestreamProposal { height, round, valid_round, address, value_id }
        },
        HostMsg::GetHistoryMinHeight => AppMsg::GetHistoryMinHeight,
        HostMsg::ReceivedProposalPart { from, part } => AppMsg::ReceivedProposalPart { from, part },
        HostMsg::GetValidatorSet { height } => AppMsg::GetValidatorSet { height },
        HostMsg::Decided { certificate } => AppMsg::Decided { certificate },
        HostMsg::GetDecidedValue { height } => AppMsg::GetDecidedValue { height },
        HostMsg::ProcessSyncedValue { height, round, validator_address, value_bytes } => {
            AppMsg::ProcessSyncedValue { height, round, proposer: validator_address, value_bytes }
        },
        HostMsg::PeerJoined { peer_id } => AppMsg::PeerJoined { peer_id },
        HostMsg::PeerLeft { peer_id } => AppMsg::PeerLeft { peer_id },
    }
}

/// Where the answer `reply` to a request of kind `kind` goes. An answer of
/// the wrong kind is an error. A proposal part that does not complete its
/// proposal is answered with `None`, which is dropped silently.
pub open spec fn spec_deliver(kind: RequestKind, reply: AppReply) -> Result<Delivery, BridgeError> {
    match (kind, reply) {
        (RequestKind::ConsensusReady, AppReply::Consensus(msg)) => Ok(
            Delivery::CastToConsensus(directive_for(msg)),
        ),
        (RequestKind::Decided, AppReply::Consensus(msg)) => Ok(
            Delivery::CastToConsensus(directive_for(msg)),
        ),
        (RequestKind::GetValue, AppReply::Value(value)) => Ok(
            Delivery::ReplyToRequester(HostReply::Value(value)),
        ),
        (RequestKind::GetHistoryMinHeight, AppReply::HistoryMinHeight(height)) => Ok(
            Delivery::ReplyToRequester(HostReply::HistoryMinHeight(height)),
        ),
        (RequestKind::ReceivedProposalPart, AppReply::ProposalPart(Some(value))) => Ok(
            Delivery::ReplyToRequester(HostReply::ProposedValue(value)),
        ),
        (RequestKind::ReceivedProposalPart, AppReply::ProposalPart(None)) => Ok(Delivery::Nothing),
        (RequestKind::GetValidatorSet, AppReply::ValidatorSet(validator_set)) => Ok(
            Delivery::ReplyToRequester(HostReply::ValidatorSet(validator_set)),
        ),
        (RequestKind::GetDecidedValue, AppReply::DecidedValue(value)) => Ok(
            Delivery::ReplyToRequester(HostReply::DecidedValue(value)),
        ),
        (RequestKind::ProcessSyncedValue, AppReply::SyncedValue(value)) => Ok(
            Delivery::ReplyToRequester(HostReply::ProposedValue(value)),
        ),
        _ => Err(BridgeError::UnexpectedReply(kind)),
    }
}

/// The state after `event` and the next action.
pub open spec fn spec_advance(exchange: Exchange, event: Event) -> (Exchange, Action) {
    match (exchange, event) {
        (Exchange::Sending { awaits: None }, Event::Sent) => (Exchange::Done, Action::Finish(Ok(()))),
        (Exchange::Sending { awaits: Some(kind) }, Event::Sent) => (
            Exchange::AwaitingReply { kind },
            Action::AwaitReply,
        ),
        (Exchange::Sending { .. }, Event::MailboxClosed) => (
            Exchange::Done,
            Action::Finish(Err(BridgeError::MailboxClosed)),
        ),
        (Exchange::AwaitingReply { kind }, Event::Replied(reply)) => match spec_deliver(
            kind,
            reply,
        ) {
            Ok(Delivery::CastToConsensus(msg)) => (
                Exchange::Delivering,
                Action::CastToConsensus(msg),
            ),
            Ok(Delivery::ReplyToRequester(answer)) => (
                Exchange::Delivering,
                Action::ReplyToRequester(answer),
            ),
            Ok(Delivery::Nothing) => (Exchange::Done, Action::Finish(Ok(()))),
            Err(e) => (Exchange::Done, Action::Finish(Err(e))),
        },
        (Exchange::AwaitingReply { .. }, Event::ReplyDropped) => (
            Exchange::Done,
            Action::Finish(Err(BridgeError::ReplyDropped)),
        ),
        (Exchange::Delivering, Event::Delivered) => (Exchange::Done, Action::Finish(Ok(()))),
        (Exchange::Delivering, Event::RequesterGone) => (
            Exchange::Done,
            Action::Finish(Err(BridgeError::RequesterGone)),
        ),
        _ => (Exchange::Done, Action::Finish(Err(BridgeError::UnexpectedEvent))),
    }
}

/// Turns a message from consensus into the one for the application.
pub fn to_app_msg(msg: HostMsg) -> (app_msg: AppMsg)
    ensures
        app_msg == spec_to_app_msg(msg),
{
    match msg {
        HostMsg::ConsensusReady => AppMsg::ConsensusReady,
        HostMsg::StartedRound { height, round, proposer } => AppMsg::StartedRound {
            height,
            round,
            proposer,
        },
        HostMsg::GetValue { height, round, timeout } => AppMsg::GetValue { height, round, timeout },
        HostMsg::RestreamValue { height, round, valid_round, address, value_id } => {
            AppMsg::RestreamProposal { height, round, valid_round, address, value_id }
        },
        HostMsg::GetHistoryMinHeight => AppMsg::GetHistoryMinHeight,
        HostMsg::ReceivedProposalPart { from, part } => AppMsg::ReceivedProposalPart { from, part },
        HostMsg::GetValidatorSet { height } => AppMsg::GetValidatorSet { height },
        HostMsg::Decided { certificate } => AppMsg::Decided { certificate },
        HostMsg::GetDecidedValue { height } => AppMsg::GetDecidedValue { height },
        HostMsg::ProcessSyncedValue { height, round, validator_address, value_bytes } => {
            AppMsg::ProcessSyncedValue { height, round, proposer: validator_address, value_bytes }
        },
        HostMsg::PeerJoined { peer_id } => AppMsg::PeerJoined { peer_id },
        HostMsg::PeerLeft { peer_id } => AppMsg::PeerLeft { peer_id },
    }
}

/// Decides where the application's answer to a request goes.
pub fn deliver(kind: RequestKind, reply: AppReply) -> (r: Result<Delivery, BridgeError>)
    ensures
        r == spec_deliver(kind, reply),
{
    match reply {
        AppReply::Consensus(msg) => match kind {
            RequestKind::ConsensusReady => Ok(Delivery::CastToConsensus(ConsensusActorMsg::from(msg))),
            RequestKind::Decided => Ok(Delivery::CastToConsensus(ConsensusActorMsg::from(msg))),
            _ => Err(BridgeError::UnexpectedReply(kind)),
        },
        AppReply::Value(value) => match kind {
            RequestKind::GetValue => Ok(Delivery::ReplyToRequester(HostReply::Value(value))),
            _ => Err(BridgeError::UnexpectedReply(kind)),
        },
        AppReply::HistoryMinHeight(height) => match kind {
            RequestKind::GetHistoryMinHeight => Ok(
                Delivery::ReplyToRequester(HostReply::HistoryMinHeight(height)),
            ),
            _ => Err(BridgeError::UnexpectedReply(kind)),
        },
        AppReply::ProposalPart(value) => match kind {
            RequestKind::ReceivedProposalPart => match value {
                Some(value) => Ok(Delivery::ReplyToRequester(HostReply::ProposedValue(value))),
                None => Ok(Delivery::Nothing),
            },
            _ => Err(BridgeError::UnexpectedReply(kind)),
        },
        AppReply::ValidatorSet(validator_set) => match kind {
            RequestKind::GetValidatorSet => Ok(
                Delivery::ReplyToRequester(HostReply::ValidatorSet(validator_set)),
            ),
            _ => Err(BridgeError::UnexpectedReply(kind)),
        },
        AppReply::DecidedValue(value) => match kind {
            RequestKind::GetDecidedValue => Ok(
                Delivery::ReplyToRequester(HostReply::DecidedValue(value)),
            ),
            _ => Err(BridgeError::UnexpectedReply(kind)),
        },
        AppReply::SyncedValue(value) => match kind {
            RequestKind::ProcessSyncedValue => Ok(
                Delivery::ReplyToRequester(HostReply::ProposedValue(value)),
            ),
            _ => Err(BridgeError::UnexpectedReply(kind)),
        },
    }
}

impl Exchange {
    /// Number of events that the exchange may still take before it is done.
    pub open spec fn spec_steps_left(&self) -> nat {
        match self {
            Exchange::Sending { .. } => 3,
            Exchange::AwaitingReply { .. } => 2,
            Exchange::Delivering => 1,
            Exchange::Done => 0,
        }
    }

    /// Takes up a message from consensus: returns the message to send to
    /// the application and the exchange that waits for the outcome.
    pub fn begin(msg: HostMsg) -> (r: (Exchange, AppMsg))
        ensures
            r.1 == spec_to_app_msg(msg),
            r.0 == (Exchange::Sending { awaits: r.1.spec_reply_kind() }),
    {
        let app_msg = to_app_msg(msg);
        let awaits = app_msg.reply_kind();
        (Exchange::Sending { awaits }, app_msg)
    }

    /// Takes the exchange one step further on what the host reports.
    pub fn advance(self, event: Event) -> (r: (Exchange, Action))
        ensures
            r == spec_advance(self, event),
    {
        match self {
            Exchange::Sending { awaits } => match event {
                Event::Sent => match awaits {
                    None => (Exchange::Done, Action::Finish(Ok(()))),
                    Some(kind) => (Exchange::AwaitingReply { kind }, Action::AwaitReply),
                },
                Event::MailboxClosed => (
                    Exchange::Done,
                    Action::Finish(Err(BridgeError::MailboxClosed)),
                ),
                _ => (Exchange::Done, Action::Finish(Err(BridgeError::UnexpectedEvent))),
            },
            Exchange::AwaitingReply { kind } => match event {
                Event::Replied(reply) => match deliver(kind, reply) {
                    Ok(Delivery::CastToConsensus(msg)) => (
                        Exchange::Delivering,
                        Action::CastToConsensus(msg),
                    ),
                    Ok(Delivery::ReplyToRequester(answer)) => (
                        Exchange::Delivering,
                        Action::ReplyToRequester(answer),
                    ),
                    Ok(Delivery::Nothing) => (Exchange::Done, Action::Finish(Ok(()))),
                    Err(e) => (Exchange::Done, Action::Finish(Err(e))),
                },
                Event::ReplyDropped => (
                    Exchange::Done,
                    Action::Finish(Err(BridgeError::ReplyDropped)),
                ),
                _ => (Exchange::Done, Action::Finish(Err(BridgeError::UnexpectedEvent))),
            },
            Exchange::Delivering => match event {
                Event::Delivered => (Exchange::Done, Action::Finish(Ok(()))),
                Event::RequesterGone => (
                    Exchange::Done,
                    Action::Finish(Err(BridgeError::RequesterGone)),
                ),
                _ => (Exchange::Done, Action::Finish(Err(BridgeError::UnexpectedEvent))),
            },
            Exchange::Done => (Exchange::Done, Action::Finish(Err(BridgeError::UnexpectedEvent))),
        }
    }

    /// Whether nothing is left to do.
    pub fn is_done(&self) -> (b: bool)
        ensures
            b == (*self == Exchange::Done),
    {
        match self {
            Exchange::Done => true,
            _ => false,
        }
    }
}

/// Every event brings an exchange closer to its end, and the exchange is
/// over exactly when the host is told to finish: no exchange takes more than
/// three events, whatever fails.
pub proof fn law_exchange_progresses(exchange: Exchange, event: Event)
    ensures
        spec_advance(exchange, event).0.spec_steps_left() < exchange.spec_steps_left()
            || exchange == Exchange::Done,
        spec_advance(exchange, event).0 == Exchange::Done <==> spec_advance(
            exchange,
            event,
        ).1 is Finish,
{
}

/// The exchange after the host has reported `events`, one after the other.
pub open spec fn spec_after(exchange: Exchange, events: Seq<Event>) -> Exchange
    decreases events.len(),
{
    if events.len() == 0 {
        exchange
    } else {
        spec_after(spec_advance(exchange, events[0]).0, events.skip(1))
    }
}

/// Whatever the host reports, and whatever fails, an exchange is over after
/// three events at the latest, and stays so.
pub proof fn law_exchange_ends(exchange: Exchange, events: Seq<Event>)
    requires
        events.len() >= exchange.spec_steps_left(),
    ensures
        spec_after(exchange, events) == Exchange::Done,
    decreases events.len(),
{
    if events.len() > 0 {
        law_exchange_progresses(exchange, events[0]);
        law_exchange_ends(spec_advance(exchange, events[0]).0, events.skip(1));
    }
}

/// A notification ends once the application's mailbox took it; a request
/// then waits for its answer.
pub proof fn law_notifications_end_when_sent(msg: HostMsg)
    ensures
        ({
            let awaits = spec_to_app_msg(msg).spec_reply_kind();
            let next = spec_advance(Exchange::Sending { awaits }, Event::Sent);
            match msg {
                HostMsg::StartedRound { .. }
                | HostMsg::RestreamValue { .. }
                | HostMsg::PeerJoined { .. }
                | HostMsg::PeerLeft { .. } => next == (Exchange::Done, Action::Finish(Ok(()))),
                _ => next.0 is AwaitingReply && next.1 is AwaitReply,
            }
        }),
{
}

/// The application's answer to `ConsensusReady` and to `Decided` goes to
/// the consensus actor and nowhere else; the answer to any other request
/// never goes there.
pub proof fn law_only_directives_reach_consensus(kind: RequestKind, reply: AppReply)
    ensures
        spec_deliver(kind, reply) matches Ok(Delivery::CastToConsensus(_)) <==> (reply is Consensus
            && (kind == RequestKind::ConsensusReady || kind == RequestKind::Decided)),
{
}

/// A failure is reported with the exchange that it ends: the mailbox being
/// closed, the answer being dropped and the requester being gone each finish
/// the exchange they occur in with their own error.
pub proof fn law_failures_end_the_exchange(kind: RequestKind, awaits: Option<RequestKind>)
    ensures
        spec_advance(Exchange::Sending { awaits }, Event::MailboxClosed) == (
            Exchange::Done,
            Action::Finish(Err(BridgeError::MailboxClosed)),
        ),
        spec_advance(Exchange::AwaitingReply { kind }, Event::ReplyDropped) == (
            Exchange::Done,
            Action::Finish(Err(BridgeError::ReplyDropped)),
        ),
        spec_advance(Exchange::Delivering, Event::RequesterGone) == (
            Exchange::Done,
            Action::Finish(Err(BridgeError::RequesterGone)),
        ),
{
}

} // verus!
