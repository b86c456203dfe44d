//! The peer-session model: the dial decision, the classification of
//! inbound events on the maker's encrypted-signature protocol, and the
//! quote arithmetic of the maker's event loop.

use vstd::prelude::*;
use crate::codec::EncryptedSignature;

verus! {

/// The connection state of the long-lived peer session.
#[derive(Debug, Clone, Copy, PartialEq, Eq, Structural)]
pub struct SessionState {
    pub connected: bool,
}

/// What a dial asks the transport to do.
#[derive(Debug, Clone, Copy, PartialEq, Eq, Structural)]
pub enum DialAction {
    /// Already connected: nothing to do.
    KeepConnection,
    /// Re-establish the connection.
    Reconnect,
}

/// The session state after a dial: always connected.
pub open spec fn spec_dial(s: SessionState) -> SessionState {
    SessionState { connected: true }
}

/// Decide what a dial does: a no-op while connected, a reconnect
/// otherwise. The session is connected afterwards either way.
pub fn dial(s: &mut SessionState) -> (a: DialAction)
    ensures
        *final(s) == spec_dial(*old(s)),
        a == (if old(s).connected {
            DialAction::KeepConnection
        } else {
            DialAction::Reconnect
        }),
{
    let a = if s.connected {
        DialAction::KeepConnection
    } else {
        DialAction::Reconnect
    };
    s.connected = true;
    a
}

/// Dialing is idempotent: while connected it changes nothing, and a second
/// dial never changes what the first one established.
pub proof fn lemma_dial_idempotent(s: SessionState)
    ensures
        s.connected ==> spec_dial(s) == s,
        spec_dial(spec_dial(s)) == spec_dial(s),
{
}

/// An event surfacing from the maker's encrypted-signature protocol. The
/// protocol supports a single direction: the maker only ever receives
/// requests and sends acks.
#[derive(Debug, Clone, Copy, PartialEq, Eq, Structural)]
pub enum InboundEvent {
    /// The taker sent the encrypted signature; the ack goes back over the
    /// given response channel.
    Request { peer: u64, msg: EncryptedSignature, channel: u64 },
    /// A response arrived, which the maker never asks for.
    Response { peer: u64 },
    InboundFailure { peer: u64 },
    OutboundFailure { peer: u64 },
    ResponseSent { peer: u64 },
}

/// Why an inbound event counts as a failure.
#[derive(Debug, Clone, Copy, PartialEq, Eq, Structural)]
pub enum FailureKind {
    /// A response on a protocol the maker only receives requests on.
    UnexpectedResponse,
    Inbound,
    Outbound,
}

/// What the maker's swap logic sees of the encrypted-signature protocol.
#[derive(Debug, Clone, Copy, PartialEq, Eq, Structural)]
pub enum OutEvent {
    MsgReceived { peer: u64, msg: EncryptedSignature, channel: u64 },
    AckSent,
    Failure { peer: u64, kind: FailureKind },
}

/// How each inbound event is classified: a request carries the message
/// through, a sent ack is reported, everything else is a failure.
pub open spec fn spec_out_event(event: InboundEvent) -> OutEvent {
    match event {
        InboundEvent::Request { peer, msg, channel } => OutEvent::MsgReceived {
            peer,
            msg,
            channel,
        },
        InboundEvent::Response { peer } => OutEvent::Failure {
            peer,
            kind: FailureKind::UnexpectedResponse,
        },
        InboundEvent::InboundFailure { peer } => OutEvent::Failure {
            peer,
            kind: FailureKind::Inbound,
        },
        InboundEvent::OutboundFailure { peer } => OutEvent::Failure {
            peer,
            kind: FailureKind::Outbound,
        },
        InboundEvent::ResponseSent { peer } => OutEvent::AckSent,
    }
}

impl From<InboundEvent> for OutEvent {
    fn from(event: InboundEvent) -> (r: Self) {
        match event {
            InboundEvent::Request { peer, msg, channel } => OutEvent::MsgReceived {
                peer,
                msg,
                channel,
            },
            InboundEvent::Response { peer } => OutEvent::Failure {
                peer,
                kind: FailureKind::UnexpectedResponse,
            },
            InboundEvent::InboundFailure { peer } => OutEvent::Failure {
                peer,
                kind: FailureKind::Inbound,
            },
            InboundEvent::OutboundFailure { peer } => OutEvent::Failure {
                peer,
                kind: FailureKind::Outbound,
            },
            InboundEvent::ResponseSent { peer: _ } => OutEvent::AckSent,
        }
    }
}

impl vstd::std_specs::convert::FromSpecImpl<InboundEvent> for OutEvent {
    open spec fn obeys_from_spec() -> bool {
        true
    }

    open spec fn from_spec(event: InboundEvent) -> Self {
        spec_out_event(event)
    }
}

/// The maker's gate on a quote request: it only trades up to `max_buy`
/// satoshi per swap.
pub fn quote_accepted(btc: u64, max_buy: u64) -> (r: bool)
    ensures
        r == (btc <= max_buy),
{
    btc <= max_buy
}

/// The piconero bought with `btc` satoshi at a spot rate given in piconero
/// per satoshi; `None` when the product does not fit the amount type.
pub fn quote_xmr(btc: u64, rate_pn_per_sat: u64) -> (r: Option<u64>)
    ensures
        btc * rate_pn_per_sat <= u64::MAX ==> r == Some((btc * rate_pn_per_sat) as u64),
        btc * rate_pn_per_sat > u64::MAX ==> r is None,
{
    btc.checked_mul(rate_pn_per_sat)
}

} // verus!
