use patchpal::client::{exit_code, interpret_response, ClientOutcome};
use patchpal::diff::LineKind;
use patchpal::models::{Patch, PatchResponse, Status};
use patchpal::server::{
    acceptor_step, conn_step, AcceptAction, AcceptEvent, ConnAction, ConnEvent, ConnState, Server,
};

const A_TXT_DIFF: &str = "--- a/a.txt\n+++ b/a.txt\n@@ -1,2 +1,4 @@\n line kept\n+plus one\n+plus two\n-minus one\n+plus three\n";

fn frame(diff: &str, metadata: Option<&str>) -> Vec<u8> {
    Patch { patch: diff.to_string(), metadata: metadata.map(|m| m.to_string()) }.encode_to_vec()
}

#[test]
fn accepted_submission_reaches_exit_code_zero() {
    // a diff touching a.txt with three added and one removed line, with
    // metadata, submitted over one connection
    let _broker = Server::new();
    let bytes = frame(A_TXT_DIFF, Some("build-42"));
    let (st, action) = conn_step(ConnState::Awaiting, ConnEvent::Binary(bytes, 7u32));
    assert_eq!(st, ConnState::Dispatched);
    let req = match action {
        ConnAction::Enqueue(req) => req,
        other => panic!("expected an enqueue, got {:?}", kind_name(&other)),
    };
    assert_eq!(req.response_chan, 7);
    assert_eq!(req.metadata.as_deref(), Some("build-42"));
    let file = &req.patch_set.files[0];
    assert_eq!(file.source_file, "a/a.txt");
    let added = file.hunks[0].lines.iter().filter(|l| l.kind == LineKind::Added).count();
    let removed = file.hunks[0].lines.iter().filter(|l| l.kind == LineKind::Removed).count();
    assert_eq!((added, removed), (3, 1));

    // the operator accepts; the decision comes back on the same connection
    let (st, action) = conn_step(
        st,
        ConnEvent::<u32>::GotDecision(PatchResponse { status: Status::Accepted }),
    );
    assert_eq!(st, ConnState::Awaiting);
    let reply = match action {
        ConnAction::Respond(bytes) => bytes,
        other => panic!("expected a response, got {:?}", kind_name(&other)),
    };

    // the submitter reads it and exits with zero
    let outcome = interpret_response(&reply);
    assert_eq!(outcome, ClientOutcome::Accepted);
    assert_eq!(exit_code(outcome), 0);
}

fn kind_name<C>(a: &ConnAction<C>) -> &'static str {
    match a {
        ConnAction::Nothing => "nothing",
        ConnAction::DropMalformed => "drop-malformed",
        ConnAction::Enqueue(_) => "enqueue",
        ConnAction::Respond(_) => "respond",
        ConnAction::ProtocolViolation => "protocol-violation",
        ConnAction::CloseOutbound => "close-outbound",
    }
}

#[test]
fn rejection_reaches_exit_code_one() {
    let (_, action) = conn_step(
        ConnState::Dispatched,
        ConnEvent::<u32>::GotDecision(PatchResponse { status: Status::Rejected }),
    );
    let reply = match action {
        ConnAction::Respond(bytes) => bytes,
        _ => panic!("expected a response"),
    };
    let outcome = interpret_response(&reply);
    assert_eq!(outcome, ClientOutcome::Rejected);
    assert_eq!(exit_code(outcome), 1);
}

#[test]
fn malformed_frame_keeps_the_connection_open() {
    let junk: Vec<u8> = vec![0xff, 0x00, 0x13];
    let (st, action) = conn_step(ConnState::Awaiting, ConnEvent::Binary(junk, 1u32));
    assert_eq!(st, ConnState::Awaiting);
    assert!(matches!(action, ConnAction::DropMalformed));

    // a well-formed submission on the same connection still succeeds
    let bytes = frame(A_TXT_DIFF, None);
    let (st, action) = conn_step(st, ConnEvent::Binary(bytes, 1u32));
    assert_eq!(st, ConnState::Dispatched);
    assert!(matches!(action, ConnAction::Enqueue(_)));
}

#[test]
fn unparsable_diff_is_dropped_like_malformed_bytes() {
    let bytes = frame("+++ no source header\n", None);
    let (st, action) = conn_step(ConnState::Awaiting, ConnEvent::Binary(bytes, 1u32));
    assert_eq!(st, ConnState::Awaiting);
    assert!(matches!(action, ConnAction::DropMalformed));
}

#[test]
fn cancellation_closes_a_dispatched_handler() {
    // the signal fires while a request is dispatched and unanswered
    let (st, action) = conn_step(ConnState::Dispatched, ConnEvent::<u32>::Cancelled);
    assert_eq!(st, ConnState::Closing);
    assert!(matches!(action, ConnAction::CloseOutbound));

    // and an idle handler closes the same way
    let (st, action) = conn_step(ConnState::Awaiting, ConnEvent::<u32>::Cancelled);
    assert_eq!(st, ConnState::Closing);
    assert!(matches!(action, ConnAction::CloseOutbound));
}

#[test]
fn unknown_decision_is_a_protocol_violation_not_a_crash() {
    let (st, action) = conn_step(
        ConnState::Dispatched,
        ConnEvent::<u32>::GotDecision(PatchResponse { status: Status::Unknown }),
    );
    assert_eq!(st, ConnState::Awaiting);
    assert!(matches!(action, ConnAction::ProtocolViolation));
}

#[test]
fn closed_decision_channel_abandons_the_exchange() {
    let (st, action) = conn_step(ConnState::Dispatched, ConnEvent::<u32>::ChanClosed);
    assert_eq!(st, ConnState::Awaiting);
    assert!(matches!(action, ConnAction::Nothing));
}

#[test]
fn non_binary_messages_are_ignored() {
    let (st, action) = conn_step(ConnState::Awaiting, ConnEvent::<u32>::NonBinary);
    assert_eq!(st, ConnState::Awaiting);
    assert!(matches!(action, ConnAction::Nothing));
}

#[test]
fn stream_end_closes() {
    let (st, _) = conn_step(ConnState::Awaiting, ConnEvent::<u32>::StreamEnd);
    assert_eq!(st, ConnState::Closing);
    let (st, action) = conn_step(st, ConnEvent::<u32>::NonBinary);
    assert_eq!(st, ConnState::Closing);
    assert!(matches!(action, ConnAction::Nothing));
}

#[test]
fn acceptor_spawns_until_cancelled() {
    assert_eq!(acceptor_step(AcceptEvent::Incoming), AcceptAction::SpawnHandler);
    assert_eq!(acceptor_step(AcceptEvent::Cancelled), AcceptAction::StopAccepting);
}
