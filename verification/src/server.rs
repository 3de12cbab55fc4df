//! Server side: the connection handler's state machine and the acceptor's
//! decisions.
//!
//! One handler runs per accepted connection.  It decodes inbound binary
//! frames into submissions, hands each as a request to the review queue
//! together with a fresh single-use response handle, waits for the decision
//! on that handle, and writes the encoded decision back.  The waiting, the
//! sockets and the tasks live outside; the handler's behaviour is this pure
//! transition function from state and event to next state and action.

use vstd::prelude::*;

use crate::diff::{spec_parse_patch, PatchSetView};
use crate::models::{spec_decode_patch, spec_encode_response, Patch, PatchResponse, Status};
use crate::tui::PatchRequest;

verus! {

/// The parsed diff a binary frame carries, if any: decode the frame as a
/// submission, then parse the submission's diff text.
pub open spec fn spec_submission_of(b: Seq<u8>) -> Option<PatchSetView> {
    match spec_decode_patch(b) {
        None => None,
        Some(pv) => spec_parse_patch(pv.patch),
    }
}

/// The broker's queueing component; the transport around it is outside.
pub struct Server;

impl Server {
    /// A broker with nothing accepted yet.
    pub fn new() -> Server {
        Server
    }
}

/// Where a connection handler stands.
#[derive(Clone, Copy, Debug, PartialEq, Eq, Structural)]
pub enum ConnState {
    /// Reading inbound messages.
    Awaiting,
    /// A request of this connection is queued; its decision is awaited.
    Dispatched,
    /// Terminal: the connection is done.
    Closing,
}

/// One thing a connection handler wakes up for.
pub enum ConnEvent<C> {
    /// An inbound binary frame, with the fresh response handle the handler
    /// created for whatever request the frame may carry.
    Binary(Vec<u8>, C),
    /// An inbound frame of another kind.
    NonBinary,
    /// The peer's stream ended.
    StreamEnd,
    /// The decision for the dispatched request arrived on the handler's
    /// private receiving end.
    GotDecision(PatchResponse),
    /// The handler's private receiving end closed without a decision.
    ChanClosed,
    /// The shared shutdown signal fired.
    Cancelled,
}

/// What the handler asks its connection to do next.
pub enum ConnAction<C> {
    Nothing,
    /// The frame was not a well-formed submission: log, drop the message,
    /// keep the connection open.
    DropMalformed,
    /// Hand this request to the review queue.
    Enqueue(PatchRequest<C>),
    /// Write these bytes — the encoded decision — back to the peer.
    Respond(Vec<u8>),
    /// The handler was asked to act on the `Unknown` placeholder: the
    /// pending exchange failed, the process does not crash.
    ProtocolViolation,
    /// Close the outbound side of the connection.
    CloseOutbound,
}

/// What kind of event reached the handler, with payloads abstracted to
/// whether they are well-formed.
#[derive(Clone, Copy, Debug, PartialEq, Eq, Structural)]
pub enum ConnEventKind {
    BinaryGood,
    BinaryBad,
    NonBinary,
    StreamEnd,
    GoodDecision,
    UnknownDecision,
    ChanClosed,
    Cancelled,
}

/// What kind of action came out.
#[derive(Clone, Copy, Debug, PartialEq, Eq, Structural)]
pub enum ConnActionKind {
    Nothing,
    DropMalformed,
    Enqueue,
    Respond,
    ProtocolViolation,
    CloseOutbound,
}

/// The kind of an event: a binary frame is good exactly when it decodes to
/// a submission whose diff text parses; a decision is good exactly when it
/// is not the `Unknown` placeholder.
pub open spec fn spec_event_kind<C>(ev: ConnEvent<C>) -> ConnEventKind {
    match ev {
        ConnEvent::Binary(b, _) => if spec_submission_of(b@) is Some {
            ConnEventKind::BinaryGood
        } else {
            ConnEventKind::BinaryBad
        },
        ConnEvent::NonBinary => ConnEventKind::NonBinary,
        ConnEvent::StreamEnd => ConnEventKind::StreamEnd,
        ConnEvent::GotDecision(resp) => if resp.status == Status::Unknown {
            ConnEventKind::UnknownDecision
        } else {
            ConnEventKind::GoodDecision
        },
        ConnEvent::ChanClosed => ConnEventKind::ChanClosed,
        ConnEvent::Cancelled => ConnEventKind::Cancelled,
    }
}

/// The kind of an action.
pub open spec fn spec_action_kind<C>(a: ConnAction<C>) -> ConnActionKind {
    match a {
        ConnAction::Nothing => ConnActionKind::Nothing,
        ConnAction::DropMalformed => ConnActionKind::DropMalformed,
        ConnAction::Enqueue(_) => ConnActionKind::Enqueue,
        ConnAction::Respond(_) => ConnActionKind::Respond,
        ConnAction::ProtocolViolation => ConnActionKind::ProtocolViolation,
        ConnAction::CloseOutbound => ConnActionKind::CloseOutbound,
    }
}

/// The handler's transition relation.
///
/// `Awaiting`: a good frame is dispatched; a bad one is dropped with the
/// connection kept open; the stream's end or cancellation close.
/// `Dispatched`: a good decision is written back and the handler returns
/// to `Awaiting`; the `Unknown` placeholder is a protocol violation that
/// fails only this exchange; a closed decision channel abandons the
/// exchange; cancellation closes the outbound side and abandons the
/// in-flight request.  `Closing` is terminal.
pub open spec fn spec_conn_next(st: ConnState, k: ConnEventKind) -> (ConnState, ConnActionKind) {
    match st {
        ConnState::Awaiting => match k {
            ConnEventKind::BinaryGood => (ConnState::Dispatched, ConnActionKind::Enqueue),
            ConnEventKind::BinaryBad => (ConnState::Awaiting, ConnActionKind::DropMalformed),
            ConnEventKind::NonBinary => (ConnState::Awaiting, ConnActionKind::Nothing),
            ConnEventKind::StreamEnd => (ConnState::Closing, ConnActionKind::Nothing),
            ConnEventKind::GoodDecision | ConnEventKind::UnknownDecision
                | ConnEventKind::ChanClosed => (ConnState::Awaiting, ConnActionKind::Nothing),
            ConnEventKind::Cancelled => (ConnState::Closing, ConnActionKind::CloseOutbound),
        },
        ConnState::Dispatched => match k {
            ConnEventKind::GoodDecision => (ConnState::Awaiting, ConnActionKind::Respond),
            ConnEventKind::UnknownDecision => (
                ConnState::Awaiting,
                ConnActionKind::ProtocolViolation,
            ),
            ConnEventKind::ChanClosed => (ConnState::Awaiting, ConnActionKind::Nothing),
            ConnEventKind::StreamEnd => (ConnState::Closing, ConnActionKind::Nothing),
            ConnEventKind::Cancelled => (ConnState::Closing, ConnActionKind::CloseOutbound),
            ConnEventKind::BinaryGood | ConnEventKind::BinaryBad | ConnEventKind::NonBinary => (
                ConnState::Dispatched,
                ConnActionKind::Nothing,
            ),
        },
        ConnState::Closing => (ConnState::Closing, ConnActionKind::Nothing),
    }
}

/// One step of a connection handler: exactly the transition
/// [`spec_conn_next`] on the kinds, with the payloads pinned — an enqueued
/// request holds the frame's parsed diff, its metadata and the event's
/// handle; a response holds exactly the encoded decision.
pub fn conn_step<C>(st: ConnState, ev: ConnEvent<C>) -> (r: (ConnState, ConnAction<C>))
    ensures
        (r.0, spec_action_kind(r.1)) == spec_conn_next(st, spec_event_kind(ev)),
        ev matches ConnEvent::Binary(b, c) ==> (r.1 matches ConnAction::Enqueue(req) ==> {
            &&& spec_submission_of(b@) == Some(req.patch_set@)
            &&& (match spec_decode_patch(b@) {
                Some(pv) => (match req.metadata {
                    Some(m) => pv.metadata == Some(m@),
                    None => pv.metadata is None,
                }),
                None => false,
            })
            &&& req.response_chan == c
        }),
        ev matches ConnEvent::GotDecision(resp) ==> (r.1 matches ConnAction::Respond(bytes)
            ==> bytes@ == spec_encode_response(resp)),
{
    match st {
        ConnState::Awaiting => match ev {
            ConnEvent::Binary(b, chan) => {
                match Patch::decode(&b) {
                    Err(_) => (ConnState::Awaiting, ConnAction::DropMalformed),
                    Ok(patch) => match PatchRequest::try_from_patch(patch, chan) {
                        Err(_) => (ConnState::Awaiting, ConnAction::DropMalformed),
                        Ok(req) => (ConnState::Dispatched, ConnAction::Enqueue(req)),
                    },
                }
            },
            ConnEvent::NonBinary => (ConnState::Awaiting, ConnAction::Nothing),
            ConnEvent::StreamEnd => (ConnState::Closing, ConnAction::Nothing),
            ConnEvent::GotDecision(_) => (ConnState::Awaiting, ConnAction::Nothing),
            ConnEvent::ChanClosed => (ConnState::Awaiting, ConnAction::Nothing),
            ConnEvent::Cancelled => (ConnState::Closing, ConnAction::CloseOutbound),
        },
        ConnState::Dispatched => match ev {
            ConnEvent::GotDecision(resp) => match resp.status {
                Status::Unknown => (ConnState::Awaiting, ConnAction::ProtocolViolation),
                Status::Accepted | Status::Rejected => {
                    let bytes = resp.encode_to_vec();
                    (ConnState::Awaiting, ConnAction::Respond(bytes))
                },
            },
            ConnEvent::ChanClosed => (ConnState::Awaiting, ConnAction::Nothing),
            ConnEvent::StreamEnd => (ConnState::Closing, ConnAction::Nothing),
            ConnEvent::Cancelled => (ConnState::Closing, ConnAction::CloseOutbound),
            ConnEvent::Binary(_, _) => (ConnState::Dispatched, ConnAction::Nothing),
            ConnEvent::NonBinary => (ConnState::Dispatched, ConnAction::Nothing),
        },
        ConnState::Closing => (ConnState::Closing, ConnAction::Nothing),
    }
}

/// Law: malformed bytes are dropped without closing the connection — the
/// handler stays `Awaiting` — so a following well-formed submission on the
/// same connection is dispatched as usual.
pub proof fn lemma_malformed_keeps_connection()
    ensures
        spec_conn_next(ConnState::Awaiting, ConnEventKind::BinaryBad) == (
            ConnState::Awaiting,
            ConnActionKind::DropMalformed,
        ),
        spec_conn_next(ConnState::Awaiting, ConnEventKind::BinaryGood) == (
            ConnState::Dispatched,
            ConnActionKind::Enqueue,
        ),
{
}

/// Law: when the shutdown signal fires, a handler that is not yet done —
/// also one whose request still waits, unanswered, for a decision —
/// closes its outbound side and reaches the terminal state.
pub proof fn lemma_cancellation_closes(st: ConnState)
    requires
        st != ConnState::Closing,
    ensures
        spec_conn_next(st, ConnEventKind::Cancelled) == (
            ConnState::Closing,
            ConnActionKind::CloseOutbound,
        ),
{
}

/// What the acceptor wakes up for.
#[derive(Clone, Copy, Debug, PartialEq, Eq, Structural)]
pub enum AcceptEvent {
    /// A connection arrived.
    Incoming,
    /// The shared shutdown signal fired.
    Cancelled,
}

/// What the acceptor does next.
#[derive(Clone, Copy, Debug, PartialEq, Eq, Structural)]
pub enum AcceptAction {
    /// Spawn a connection handler with a clone of the queue's sending end
    /// and the shared shutdown signal.
    SpawnHandler,
    /// Stop accepting and return.
    StopAccepting,
}

/// The acceptor's decision each iteration: every arriving connection gets
/// its own handler until the shutdown signal fires.
pub fn acceptor_step(ev: AcceptEvent) -> (r: AcceptAction)
    ensures
        ev == AcceptEvent::Incoming ==> r == AcceptAction::SpawnHandler,
        ev == AcceptEvent::Cancelled ==> r == AcceptAction::StopAccepting,
{
    match ev {
        AcceptEvent::Incoming => AcceptAction::SpawnHandler,
        AcceptEvent::Cancelled => AcceptAction::StopAccepting,
    }
}

} // verus!
