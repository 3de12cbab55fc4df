use patchpal::diff::{DiffError, PatchSet};
use patchpal::models::{Patch, PatchResponse, Status};
use patchpal::tui::{App, KeyInput, PatchRequest, Requests, ReviewEvent};

fn req(id: u32) -> PatchRequest<u32> {
    PatchRequest { patch_set: PatchSet { files: Vec::new() }, metadata: None, response_chan: id }
}

fn key(ch: char) -> KeyInput {
    KeyInput { ch, ctrl: false }
}

fn ctrl(ch: char) -> KeyInput {
    KeyInput { ch, ctrl: true }
}

#[test]
fn queue_is_first_in_first_out() {
    let mut q: Requests<u32> = Requests::new();
    q.enqueue(req(1));
    q.enqueue(req(2));
    q.enqueue(req(3));
    assert_eq!(q.pop().unwrap().response_chan, 1);
    assert_eq!(q.pop().unwrap().response_chan, 2);
    assert_eq!(q.pop().unwrap().response_chan, 3);
    assert!(q.pop().is_none());
}

#[test]
fn peek_shows_the_same_item_until_popped() {
    let mut q: Requests<u32> = Requests::new();
    q.enqueue(req(7));
    assert_eq!(q.peek().unwrap().response_chan, 7);
    // unrelated arrivals behind the head change nothing at the front
    q.enqueue(req(8));
    q.enqueue(req(9));
    assert_eq!(q.peek().unwrap().response_chan, 7);
    assert_eq!(q.peek().unwrap().response_chan, 7);
    assert_eq!(q.pop().unwrap().response_chan, 7);
    assert_eq!(q.peek().unwrap().response_chan, 8);
}

#[test]
fn peek_and_pop_agree_on_empty() {
    let mut q: Requests<u32> = Requests::new();
    assert!(q.peek().is_none());
    assert!(q.pop().is_none());
    assert!(q.is_empty());
}

#[test]
fn accept_answers_exactly_the_submitting_connection() {
    let mut app: App<u32> = App::new();
    app.handle_review_event(ReviewEvent::Arrival(req(11)));
    app.handle_review_event(ReviewEvent::Arrival(req(22)));

    let sends = app.handle_key_event(key('y'));
    assert_eq!(sends.len(), 1);
    assert_eq!(sends[0].0, 11);
    assert_eq!(sends[0].1, PatchResponse { status: Status::Accepted });

    let sends = app.handle_key_event(key('n'));
    assert_eq!(sends.len(), 1);
    assert_eq!(sends[0].0, 22);
    assert_eq!(sends[0].1, PatchResponse { status: Status::Rejected });

    assert!(!app.exit);
    assert!(app.requests.is_empty());
}

#[test]
fn accept_with_nothing_active_sends_nothing() {
    let mut app: App<u32> = App::new();
    let sends = app.handle_key_event(key('y'));
    assert!(sends.is_empty());
    assert!(!app.exit);
}

#[test]
fn accept_all_drains_answers_everyone_and_exits() {
    let mut app: App<u32> = App::new();
    for id in [1, 2, 3] {
        app.handle_review_event(ReviewEvent::Arrival(req(id)));
    }
    let sends = app.handle_key_event(key('a'));
    assert_eq!(sends.len(), 3);
    for (i, id) in [1, 2, 3].into_iter().enumerate() {
        assert_eq!(sends[i].0, id);
        assert_eq!(sends[i].1.status, Status::Accepted);
    }
    assert!(app.exit);
    assert!(app.requests.is_empty());
    assert!(app.active_request().is_none());
}

#[test]
fn reject_all_sends_rejections() {
    let mut app: App<u32> = App::new();
    app.handle_review_event(ReviewEvent::Arrival(req(5)));
    app.handle_review_event(ReviewEvent::Arrival(req(6)));
    let sends = app.handle_key_event(key('d'));
    assert_eq!(sends.len(), 2);
    assert_eq!(sends[0], (5, PatchResponse { status: Status::Rejected }));
    assert_eq!(sends[1], (6, PatchResponse { status: Status::Rejected }));
    assert!(app.exit);
    assert!(app.requests.is_empty());
}

#[test]
fn quit_keys_abandon_without_answering() {
    for k in [key('q'), ctrl('c')] {
        let mut app: App<u32> = App::new();
        app.handle_review_event(ReviewEvent::Arrival(req(9)));
        let sends = app.handle_key_event(k);
        assert!(sends.is_empty());
        assert!(app.exit);
        // the undecided request is simply left behind
        assert!(!app.requests.is_empty());
    }
}

#[test]
fn cancellation_exits_without_draining() {
    let mut app: App<u32> = App::new();
    app.handle_review_event(ReviewEvent::Arrival(req(4)));
    let sends = app.handle_review_event(ReviewEvent::Cancelled);
    assert!(sends.is_empty());
    assert!(app.exit);
    assert!(!app.requests.is_empty());
}

#[test]
fn scroll_keys_never_touch_the_queue() {
    let mut app: App<u32> = App::new();
    app.handle_review_event(ReviewEvent::Arrival(req(1)));
    app.scroll.set_viewport(10, 40);
    for k in [key('j'), key('j'), key('k'), key('G'), ctrl('u'), ctrl('d'), key('g')] {
        let sends = app.handle_key_event(k);
        assert!(sends.is_empty());
    }
    assert!(!app.exit);
    assert_eq!(app.active_request().unwrap().response_chan, 1);
}

#[test]
fn scrolling_moves_the_viewport_exactly() {
    let mut app: App<u32> = App::new();
    app.scroll.set_viewport(10, 40);
    app.handle_key_event(key('j'));
    app.handle_key_event(key('j'));
    assert_eq!(app.scroll.offset, 2);
    app.handle_key_event(key('k'));
    assert_eq!(app.scroll.offset, 1);
    app.handle_key_event(key('k'));
    app.handle_key_event(key('k'));
    assert_eq!(app.scroll.offset, 0);
    app.handle_key_event(key('G'));
    assert_eq!(app.scroll.offset, 40);
    app.handle_key_event(ctrl('u'));
    assert_eq!(app.scroll.offset, 30);
    app.handle_key_event(ctrl('d'));
    assert_eq!(app.scroll.offset, 40);
    app.handle_key_event(key('g'));
    assert_eq!(app.scroll.offset, 0);
}

#[test]
fn unbound_keys_do_nothing() {
    let mut app: App<u32> = App::new();
    app.handle_review_event(ReviewEvent::Arrival(req(1)));
    let sends = app.handle_key_event(key('z'));
    assert!(sends.is_empty());
    assert!(!app.exit);
    assert!(!app.requests.is_empty());
}

#[test]
fn two_connections_each_observe_only_their_own_outcome() {
    // two connections submit one patch each; the operator accepts the
    // first and rejects the second
    let mut app: App<u32> = App::new();
    app.handle_review_event(ReviewEvent::Arrival(req(100)));
    app.handle_review_event(ReviewEvent::Arrival(req(200)));

    let first = app.handle_key_event(key('y'));
    let second = app.handle_key_event(key('n'));

    assert_eq!(first, vec![(100, PatchResponse { status: Status::Accepted })]);
    assert_eq!(second, vec![(200, PatchResponse { status: Status::Rejected })]);
}

#[test]
fn interleaved_arrivals_are_observed_in_arrival_order() {
    // arrivals from distinct connections interleaved with reviewing
    let mut app: App<u32> = App::new();
    app.handle_review_event(ReviewEvent::Arrival(req(1)));
    app.handle_review_event(ReviewEvent::Arrival(req(2)));
    let s1 = app.handle_key_event(key('y'));
    app.handle_review_event(ReviewEvent::Arrival(req(3)));
    let s2 = app.handle_key_event(key('y'));
    let s3 = app.handle_key_event(key('y'));
    assert_eq!(s1[0].0, 1);
    assert_eq!(s2[0].0, 2);
    assert_eq!(s3[0].0, 3);
}

#[test]
fn requests_are_built_from_decoded_submissions() {
    let good = Patch {
        patch: "--- a\n+++ b\n@@ -1 +1 @@\n-x\n+y\n".to_string(),
        metadata: Some("meta".to_string()),
    };
    let built = PatchRequest::try_from_patch(good, 42u32).unwrap();
    assert_eq!(built.response_chan, 42);
    assert_eq!(built.metadata.as_deref(), Some("meta"));
    assert_eq!(built.patch_set.files.len(), 1);

    let bad = Patch { patch: "+++ b\n".to_string(), metadata: None };
    assert_eq!(
        PatchRequest::try_from_patch(bad, 1u32).unwrap_err(),
        DiffError::MalformedPatch
    );
}
