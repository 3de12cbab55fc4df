//! The review loop's state: the FIFO of pending requests with its
//! non-destructive lookahead, the operator's key handling, and the exit
//! flag.
//!
//! The broker owes each submission exactly one decision, delivered on the
//! single-use response handle that travelled with the request.  The handle's
//! type `C` belongs to the transport; the broker stores it and hands it back
//! paired with the decision, so a decision can only ever reach the
//! connection that submitted the request.
//!
//! Everything asynchronous stays outside: arrivals, key presses and the
//! cancellation signal come in as [`ReviewEvent`] values, and the decisions
//! to deliver come back out as `(handle, response)` pairs.

use vstd::prelude::*;

use crate::diff::{parse_patch_set, spec_parse_patch, DiffError, PatchSet};
use crate::models::{Patch, PatchResponse, Status};

verus! {

/// One unit of review work: the parsed diff, its metadata, and the
/// single-use response handle owned exclusively by this request.
#[derive(Debug)]
pub struct PatchRequest<C> {
    pub patch_set: PatchSet,
    pub metadata: Option<String>,
    pub response_chan: C,
}

impl<C> PatchRequest<C> {
    /// Builds a request from a decoded submission and the fresh response
    /// handle of its connection; fails when the diff text is not a
    /// well-formed patch.
    pub fn try_from_patch(patch: Patch, response_chan: C) -> (r: Result<
        PatchRequest<C>,
        DiffError,
    >)
        ensures
            r is Ok <==> spec_parse_patch(patch.patch@) is Some,
            r matches Ok(req) ==> {
                &&& Some(req.patch_set@) == spec_parse_patch(patch.patch@)
                &&& req.metadata == patch.metadata
                &&& req.response_chan == response_chan
            },
            r matches Err(e) ==> e == DiffError::MalformedPatch,
    {
        match parse_patch_set(patch.patch.as_str()) {
            Ok(patch_set) => Ok(
                PatchRequest { patch_set, metadata: patch.metadata, response_chan },
            ),
            Err(e) => Err(e),
        }
    }
}

/// FIFO of pending requests.  The oldest item sits in a one-slot lookahead
/// so that `peek` can show it, tick after tick, without removing it; `pop`
/// removes it and refills the lookahead from the items already waiting.
pub struct Requests<C> {
    pub lookahead: Option<PatchRequest<C>>,
    pub pending: Vec<PatchRequest<C>>,
}

impl<C> View for Requests<C> {
    type V = Seq<PatchRequest<C>>;

    /// The queued requests, oldest first.
    open spec fn view(&self) -> Seq<PatchRequest<C>> {
        (match self.lookahead {
            Some(r) => seq![r],
            None => Seq::<PatchRequest<C>>::empty(),
        }) + self.pending@
    }
}

impl<C> Requests<C> {
    /// An empty queue.
    pub fn new() -> (r: Self)
        ensures
            r@ == Seq::<PatchRequest<C>>::empty(),
    {
        let r = Requests { lookahead: None, pending: Vec::new() };
        proof {
            assert(r@ =~= Seq::<PatchRequest<C>>::empty());
        }
        r
    }

    /// Appends a newly arrived request at the tail.  Arrival order across
    /// all connections is exactly the order of `enqueue` calls.
    pub fn enqueue(&mut self, req: PatchRequest<C>)
        ensures
            final(self)@ == old(self)@.push(req),
    {
        self.pending.push(req);
        proof {
            assert(self@ =~= old(self)@.push(req));
        }
    }

    /// Shows the oldest request without removing it: the queue reads the
    /// same before and after, so repeated peeks keep showing the very same
    /// item until a `pop` intervenes.
    pub fn peek(&mut self) -> (r: Option<&PatchRequest<C>>)
        ensures
            final(self)@ == old(self)@,
            old(self)@.len() == 0 ==> r is None,
            old(self)@.len() > 0 ==> (r matches Some(x) && *x == old(self)@[0]),
    {
        if self.lookahead.is_none() {
            if self.pending.len() > 0 {
                let head = self.pending.remove(0);
                self.lookahead = Some(head);
            }
        }
        proof {
            assert(self@ =~= old(self)@);
        }
        self.lookahead.as_ref()
    }

    /// Removes and returns the oldest request — the one `peek` shows —
    /// and pulls the next waiting item into the lookahead.
    pub fn pop(&mut self) -> (r: Option<PatchRequest<C>>)
        ensures
            old(self)@.len() == 0 ==> r is None && final(self)@ == old(self)@,
            old(self)@.len() > 0 ==> r == Some(old(self)@[0]) && final(self)@ == old(
                self,
            )@.drop_first(),
    {
        let head = match self.lookahead.take() {
            Some(h) => Some(h),
            None => {
                if self.pending.len() > 0 {
                    Some(self.pending.remove(0))
                } else {
                    None
                }
            },
        };
        if self.pending.len() > 0 {
            let next = self.pending.remove(0);
            self.lookahead = Some(next);
        }
        proof {
            if old(self)@.len() == 0 {
                assert(self@ =~= old(self)@);
            } else {
                assert(self@ =~= old(self)@.drop_first());
            }
        }
        head
    }

    /// Is anything queued?
    pub fn is_empty(&self) -> (r: bool)
        ensures
            r == (self@.len() == 0),
    {
        self.lookahead.is_none() && self.pending.len() == 0
    }
}

} // verus!

verus! {

/// Display-only viewport state.  Scroll keys move `offset`; the renderer
/// reports the viewport through `set_viewport` and clamps while drawing.
#[derive(Clone, Copy, Debug, PartialEq, Eq, Structural)]
pub struct ScrollState {
    pub offset: u16,
    pub page_height: u16,
    pub max_offset: u16,
}

impl ScrollState {
    /// Fresh viewport at the top.
    pub fn new() -> (r: Self)
        ensures
            r == (ScrollState { offset: 0u16, page_height: 0u16, max_offset: 0u16 }),
    {
        ScrollState { offset: 0, page_height: 0, max_offset: 0 }
    }

    /// The renderer's current page height and lowest useful offset.
    pub fn set_viewport(&mut self, page_height: u16, max_offset: u16)
        ensures
            *final(self) == (ScrollState { offset: old(self).offset, page_height, max_offset }),
    {
        self.page_height = page_height;
        self.max_offset = max_offset;
    }
}

/// A key press as the review loop sees it: the character and whether the
/// control modifier was held.
#[derive(Clone, Copy, Debug, PartialEq, Eq, Structural)]
pub struct KeyInput {
    pub ch: char,
    pub ctrl: bool,
}

/// One thing the review loop wakes up for.
pub enum ReviewEvent<C> {
    /// `q`, or control-`c`: leave, abandoning any undecided request.
    Quit,
    /// `y`: accept the active request.
    Accept,
    /// `n`: reject the active request.
    Reject,
    /// `a`: accept everything still queued, then leave.
    AcceptAll,
    /// `d`: reject everything still queued, then leave.
    RejectAll,
    ScrollUp,
    ScrollDown,
    ScrollTop,
    ScrollBottom,
    PageUp,
    PageDown,
    /// A submission arrived from some connection.
    Arrival(PatchRequest<C>),
    /// The shared shutdown signal fired: leave at once, answering nothing.
    Cancelled,
    /// A redraw tick or an unbound key: display only, no state change.
    Other,
}

/// The review event a key press stands for.
pub open spec fn spec_classify_key<C>(k: KeyInput) -> ReviewEvent<C> {
    if k.ctrl {
        if k.ch == 'c' {
            ReviewEvent::Quit
        } else if k.ch == 'u' {
            ReviewEvent::PageUp
        } else if k.ch == 'd' {
            ReviewEvent::PageDown
        } else {
            ReviewEvent::Other
        }
    } else {
        if k.ch == 'q' {
            ReviewEvent::Quit
        } else if k.ch == 'y' {
            ReviewEvent::Accept
        } else if k.ch == 'n' {
            ReviewEvent::Reject
        } else if k.ch == 'a' {
            ReviewEvent::AcceptAll
        } else if k.ch == 'd' {
            ReviewEvent::RejectAll
        } else if k.ch == 'k' {
            ReviewEvent::ScrollUp
        } else if k.ch == 'j' {
            ReviewEvent::ScrollDown
        } else if k.ch == 'g' {
            ReviewEvent::ScrollTop
        } else if k.ch == 'G' {
            ReviewEvent::ScrollBottom
        } else {
            ReviewEvent::Other
        }
    }
}

/// Maps a key press to its review event, exactly as
/// [`spec_classify_key`] says.
pub fn classify_key<C>(k: KeyInput) -> (r: ReviewEvent<C>)
    ensures
        r == spec_classify_key::<C>(k),
{
    if k.ctrl {
        if k.ch == 'c' {
            ReviewEvent::Quit
        } else if k.ch == 'u' {
            ReviewEvent::PageUp
        } else if k.ch == 'd' {
            ReviewEvent::PageDown
        } else {
            ReviewEvent::Other
        }
    } else {
        if k.ch == 'q' {
            ReviewEvent::Quit
        } else if k.ch == 'y' {
            ReviewEvent::Accept
        } else if k.ch == 'n' {
            ReviewEvent::Reject
        } else if k.ch == 'a' {
            ReviewEvent::AcceptAll
        } else if k.ch == 'd' {
            ReviewEvent::RejectAll
        } else if k.ch == 'k' {
            ReviewEvent::ScrollUp
        } else if k.ch == 'j' {
            ReviewEvent::ScrollDown
        } else if k.ch == 'g' {
            ReviewEvent::ScrollTop
        } else if k.ch == 'G' {
            ReviewEvent::ScrollBottom
        } else {
            ReviewEvent::Other
        }
    }
}

// ---------------------------------------------------------------------------
// what one event does, as spec functions
// ---------------------------------------------------------------------------

/// The queue after `ev`: accept and reject consume the head, the bulk
/// actions drain everything, an arrival joins at the tail.
pub open spec fn spec_review_queue<C>(q: Seq<PatchRequest<C>>, ev: ReviewEvent<C>) -> Seq<
    PatchRequest<C>,
> {
    match ev {
        ReviewEvent::Accept | ReviewEvent::Reject => if q.len() > 0 {
            q.drop_first()
        } else {
            q
        },
        ReviewEvent::AcceptAll | ReviewEvent::RejectAll => Seq::<PatchRequest<C>>::empty(),
        ReviewEvent::Arrival(r) => q.push(r),
        _ => q,
    }
}

/// The exit flag after `ev`: quitting, cancellation and the bulk actions
/// end the loop; nothing resets the flag.
pub open spec fn spec_review_exit<C>(exit: bool, ev: ReviewEvent<C>) -> bool {
    match ev {
        ReviewEvent::Quit | ReviewEvent::Cancelled | ReviewEvent::AcceptAll
            | ReviewEvent::RejectAll => true,
        _ => exit,
    }
}

/// The viewport after `ev`: scroll keys only; they never touch the queue.
pub open spec fn spec_review_scroll<C>(s: ScrollState, ev: ReviewEvent<C>) -> ScrollState {
    match ev {
        ReviewEvent::ScrollUp => ScrollState {
            offset: if s.offset > 0 {
                (s.offset - 1) as u16
            } else {
                0u16
            },
            ..s
        },
        ReviewEvent::ScrollDown => ScrollState {
            offset: if s.offset < 0xffffu16 {
                (s.offset + 1) as u16
            } else {
                0xffffu16
            },
            ..s
        },
        ReviewEvent::ScrollTop => ScrollState { offset: 0u16, ..s },
        ReviewEvent::ScrollBottom => ScrollState { offset: s.max_offset, ..s },
        ReviewEvent::PageUp => ScrollState {
            offset: if s.offset >= s.page_height {
                (s.offset - s.page_height) as u16
            } else {
                0u16
            },
            ..s
        },
        ReviewEvent::PageDown => ScrollState {
            offset: if s.offset + s.page_height <= 0xffffu16 {
                (s.offset + s.page_height) as u16
            } else {
                0xffffu16
            },
            ..s
        },
        _ => s,
    }
}

/// The decisions that answer every request of `q` with `status`, oldest
/// first, each on the handle of the request it answers.
pub open spec fn spec_answer_all<C>(q: Seq<PatchRequest<C>>, status: Status) -> Seq<
    (C, PatchResponse),
> {
    q.map_values(|r: PatchRequest<C>| (r.response_chan, PatchResponse { status }))
}

/// The decisions `ev` sends out: one for the head on accept or reject, one
/// per queued request on the bulk actions, none otherwise.  Cancellation
/// answers nothing: shutdown does not owe in-flight connections a decision.
pub open spec fn spec_review_sends<C>(q: Seq<PatchRequest<C>>, ev: ReviewEvent<C>) -> Seq<
    (C, PatchResponse),
> {
    match ev {
        ReviewEvent::Accept => if q.len() > 0 {
            seq![(q[0].response_chan, PatchResponse { status: Status::Accepted })]
        } else {
            Seq::<(C, PatchResponse)>::empty()
        },
        ReviewEvent::Reject => if q.len() > 0 {
            seq![(q[0].response_chan, PatchResponse { status: Status::Rejected })]
        } else {
            Seq::<(C, PatchResponse)>::empty()
        },
        ReviewEvent::AcceptAll => spec_answer_all(q, Status::Accepted),
        ReviewEvent::RejectAll => spec_answer_all(q, Status::Rejected),
        _ => Seq::<(C, PatchResponse)>::empty(),
    }
}

} // verus!

verus! {

/// The review loop's state: the queue of pending requests, the viewport,
/// and the exit flag.
pub struct App<C> {
    pub requests: Requests<C>,
    pub scroll: ScrollState,
    pub exit: bool,
}

impl<C> App<C> {
    /// A fresh review loop: empty queue, viewport at the top, not exiting.
    pub fn new() -> (r: Self)
        ensures
            r.requests@ == Seq::<PatchRequest<C>>::empty(),
            r.scroll == (ScrollState { offset: 0u16, page_height: 0u16, max_offset: 0u16 }),
            !r.exit,
    {
        App { requests: Requests::new(), scroll: ScrollState::new(), exit: false }
    }

    /// Marks the loop for exit after this iteration.
    pub fn exit(&mut self)
        ensures
            final(self).exit,
            final(self).requests@ == old(self).requests@,
            final(self).scroll == old(self).scroll,
    {
        self.exit = true;
    }

    /// The request on display, if any: `peek` of the queue's head.  The
    /// renderer reads it tick after tick; only a decision advances it.
    pub fn active_request(&mut self) -> (r: Option<&PatchRequest<C>>)
        ensures
            final(self).requests@ == old(self).requests@,
            final(self).scroll == old(self).scroll,
            final(self).exit == old(self).exit,
            old(self).requests@.len() == 0 ==> r is None,
            old(self).requests@.len() > 0 ==> (r matches Some(x) && *x == old(self).requests@[0]),
    {
        self.requests.peek()
    }

    /// Answers the request on display with `response`: pops it and pairs
    /// the decision with the handle the request carried; `None` when
    /// nothing is on display.
    pub fn handle_patch_response(&mut self, response: PatchResponse) -> (r: Option<
        (C, PatchResponse),
    >)
        ensures
            final(self).scroll == old(self).scroll,
            final(self).exit == old(self).exit,
            old(self).requests@.len() == 0 ==> r is None && final(self).requests@ == old(
                self,
            ).requests@,
            old(self).requests@.len() > 0 ==> r == Some(
                (old(self).requests@[0].response_chan, response),
            ) && final(self).requests@ == old(self).requests@.drop_first(),
    {
        match self.requests.pop() {
            None => None,
            Some(req) => Some((req.response_chan, response)),
        }
    }

    /// Applies one event: exactly [`spec_review_queue`],
    /// [`spec_review_exit`] and [`spec_review_scroll`] on the state, and
    /// the returned decisions are exactly [`spec_review_sends`], each on
    /// the handle of the request it answers.
    pub fn handle_review_event(&mut self, ev: ReviewEvent<C>) -> (sends: Vec<(C, PatchResponse)>)
        ensures
            final(self).requests@ == spec_review_queue(old(self).requests@, ev),
            final(self).exit == spec_review_exit::<C>(old(self).exit, ev),
            final(self).scroll == spec_review_scroll::<C>(old(self).scroll, ev),
            sends@ == spec_review_sends(old(self).requests@, ev),
    {
        let mut sends: Vec<(C, PatchResponse)> = Vec::new();
        match ev {
            ReviewEvent::Quit => {
                self.exit();
            },
            ReviewEvent::Accept => {
                match self.handle_patch_response(PatchResponse { status: Status::Accepted }) {
                    Some(p) => {
                        sends.push(p);
                        proof {
                            assert(sends@ =~= spec_review_sends(
                                old(self).requests@,
                                ReviewEvent::<C>::Accept,
                            ));
                        }
                    },
                    None => {},
                }
            },
            ReviewEvent::Reject => {
                match self.handle_patch_response(PatchResponse { status: Status::Rejected }) {
                    Some(p) => {
                        sends.push(p);
                        proof {
                            assert(sends@ =~= spec_review_sends(
                                old(self).requests@,
                                ReviewEvent::<C>::Reject,
                            ));
                        }
                    },
                    None => {},
                }
            },
            ReviewEvent::AcceptAll => {
                loop
                    invariant_except_break
                        self.scroll == old(self).scroll,
                        self.exit == old(self).exit,
                        spec_answer_all(old(self).requests@, Status::Accepted) =~= sends@
                            + spec_answer_all(self.requests@, Status::Accepted),
                    ensures
                        self.scroll == old(self).scroll,
                        self.exit == old(self).exit,
                        self.requests@.len() == 0,
                        spec_answer_all(old(self).requests@, Status::Accepted) =~= sends@
                            + spec_answer_all(self.requests@, Status::Accepted),
                    decreases self.requests@.len(),
                {
                    match self.requests.pop() {
                        None => {
                            break;
                        },
                        Some(req) => {
                            sends.push(
                                (req.response_chan, PatchResponse { status: Status::Accepted }),
                            );
                        },
                    }
                }
                self.exit = true;
                proof {
                    assert(self.requests@.len() == 0);
                    assert(spec_answer_all(self.requests@, Status::Accepted) =~= Seq::<
                        (C, PatchResponse),
                    >::empty());
                    assert(sends@ =~= spec_answer_all(old(self).requests@, Status::Accepted));
                    assert(self.requests@ =~= Seq::<PatchRequest<C>>::empty());
                }
            },
            ReviewEvent::RejectAll => {
                loop
                    invariant_except_break
                        self.scroll == old(self).scroll,
                        self.exit == old(self).exit,
                        spec_answer_all(old(self).requests@, Status::Rejected) =~= sends@
                            + spec_answer_all(self.requests@, Status::Rejected),
                    ensures
                        self.scroll == old(self).scroll,
                        self.exit == old(self).exit,
                        self.requests@.len() == 0,
                        spec_answer_all(old(self).requests@, Status::Rejected) =~= sends@
                            + spec_answer_all(self.requests@, Status::Rejected),
                    decreases self.requests@.len(),
                {
                    match self.requests.pop() {
                        None => {
                            break;
                        },
                        Some(req) => {
                            sends.push(
                                (req.response_chan, PatchResponse { status: Status::Rejected }),
                            );
                        },
                    }
                }
                self.exit = true;
                proof {
                    assert(self.requests@.len() == 0);
                    assert(spec_answer_all(self.requests@, Status::Rejected) =~= Seq::<
                        (C, PatchResponse),
                    >::empty());
                    assert(sends@ =~= spec_answer_all(old(self).requests@, Status::Rejected));
                    assert(self.requests@ =~= Seq::<PatchRequest<C>>::empty());
                }
            },
            ReviewEvent::ScrollUp => {
                if self.scroll.offset > 0 {
                    self.scroll.offset = self.scroll.offset - 1;
                }
            },
            ReviewEvent::ScrollDown => {
                if self.scroll.offset < 0xffff {
                    self.scroll.offset = self.scroll.offset + 1;
                }
            },
            ReviewEvent::ScrollTop => {
                self.scroll.offset = 0;
            },
            ReviewEvent::ScrollBottom => {
                self.scroll.offset = self.scroll.max_offset;
            },
            ReviewEvent::PageUp => {
                if self.scroll.offset >= self.scroll.page_height {
                    self.scroll.offset = self.scroll.offset - self.scroll.page_height;
                } else {
                    self.scroll.offset = 0;
                }
            },
            ReviewEvent::PageDown => {
                if self.scroll.offset as u32 + self.scroll.page_height as u32 <= 0xffff {
                    self.scroll.offset = self.scroll.offset + self.scroll.page_height;
                } else {
                    self.scroll.offset = 0xffff;
                }
            },
            ReviewEvent::Arrival(req) => {
                self.requests.enqueue(req);
            },
            ReviewEvent::Cancelled => {
                self.exit();
            },
            ReviewEvent::Other => {},
        }
        sends
    }

    /// Applies the event a key press stands for.
    pub fn handle_key_event(&mut self, key: KeyInput) -> (sends: Vec<(C, PatchResponse)>)
        ensures
            final(self).requests@ == spec_review_queue(
                old(self).requests@,
                spec_classify_key::<C>(key),
            ),
            final(self).exit == spec_review_exit::<C>(old(self).exit, spec_classify_key::<C>(key)),
            final(self).scroll == spec_review_scroll::<C>(
                old(self).scroll,
                spec_classify_key::<C>(key),
            ),
            sends@ == spec_review_sends(old(self).requests@, spec_classify_key::<C>(key)),
    {
        let ev = classify_key(key);
        self.handle_review_event(ev)
    }
}

} // verus!

verus! {

// ---------------------------------------------------------------------------
// laws of the review loop
// ---------------------------------------------------------------------------

/// The requests `ev` answers, oldest first.
pub open spec fn spec_review_popped<C>(q: Seq<PatchRequest<C>>, ev: ReviewEvent<C>) -> Seq<
    PatchRequest<C>,
> {
    match ev {
        ReviewEvent::Accept | ReviewEvent::Reject => if q.len() > 0 {
            seq![q[0]]
        } else {
            Seq::<PatchRequest<C>>::empty()
        },
        ReviewEvent::AcceptAll | ReviewEvent::RejectAll => q,
        _ => Seq::<PatchRequest<C>>::empty(),
    }
}

/// The requests `ev` adds to the queue.
pub open spec fn spec_review_arrived<C>(ev: ReviewEvent<C>) -> Seq<PatchRequest<C>> {
    match ev {
        ReviewEvent::Arrival(r) => seq![r],
        _ => Seq::<PatchRequest<C>>::empty(),
    }
}

/// The queue after a whole sequence of events.
pub open spec fn spec_run_queue<C>(q: Seq<PatchRequest<C>>, evs: Seq<ReviewEvent<C>>) -> Seq<
    PatchRequest<C>,
>
    decreases evs.len(),
{
    if evs.len() == 0 {
        q
    } else {
        spec_run_queue(spec_review_queue(q, evs[0]), evs.drop_first())
    }
}

/// All requests a sequence of events answers, in the order they were
/// answered.
pub open spec fn spec_run_popped<C>(q: Seq<PatchRequest<C>>, evs: Seq<ReviewEvent<C>>) -> Seq<
    PatchRequest<C>,
>
    decreases evs.len(),
{
    if evs.len() == 0 {
        Seq::<PatchRequest<C>>::empty()
    } else {
        spec_review_popped(q, evs[0]) + spec_run_popped(
            spec_review_queue(q, evs[0]),
            evs.drop_first(),
        )
    }
}

/// All requests a sequence of events delivers to the queue, in arrival
/// order.
pub open spec fn spec_run_arrivals<C>(evs: Seq<ReviewEvent<C>>) -> Seq<PatchRequest<C>>
    decreases evs.len(),
{
    if evs.len() == 0 {
        Seq::<PatchRequest<C>>::empty()
    } else {
        spec_review_arrived(evs[0]) + spec_run_arrivals(evs.drop_first())
    }
}

/// Law: whatever events come in — however submissions from any number of
/// connections interleave with the operator's actions — the requests the
/// operator consumes, followed by those still queued, are exactly the
/// initial queue followed by the arrivals in arrival order.  The review
/// loop observes submissions in global arrival order.
pub proof fn lemma_fifo_order<C>(q: Seq<PatchRequest<C>>, evs: Seq<ReviewEvent<C>>)
    ensures
        spec_run_popped(q, evs) + spec_run_queue(q, evs) == q + spec_run_arrivals(evs),
    decreases evs.len(),
{
    if evs.len() == 0 {
        assert(spec_run_popped(q, evs) + spec_run_queue(q, evs) =~= q + spec_run_arrivals(evs));
    } else {
        let e0 = evs[0];
        let q1 = spec_review_queue(q, e0);
        lemma_fifo_order(q1, evs.drop_first());
        assert(spec_review_popped(q, e0) + q1 =~= q + spec_review_arrived(e0));
        assert(spec_run_popped(q, evs) + spec_run_queue(q, evs) =~= spec_review_popped(q, e0) + (
        spec_run_popped(q1, evs.drop_first()) + spec_run_queue(q1, evs.drop_first())));
        assert(spec_review_popped(q, e0) + (q1 + spec_run_arrivals(evs.drop_first())) =~= (
        spec_review_popped(q, e0) + q1) + spec_run_arrivals(evs.drop_first()));
        assert((q + spec_review_arrived(e0)) + spec_run_arrivals(evs.drop_first()) =~= q
            + spec_run_arrivals(evs));
    }
}

/// Law: every decision an event sends out is paired with the response
/// handle of exactly the request it answers — the handle the submitting
/// connection created — and carries only `Accepted` or `Rejected`, never
/// the `Unknown` placeholder.
pub proof fn lemma_decision_correlation<C>(q: Seq<PatchRequest<C>>, ev: ReviewEvent<C>)
    ensures
        spec_review_sends(q, ev).len() == spec_review_popped(q, ev).len(),
        forall|i: int| 0 <= i < spec_review_sends(q, ev).len() ==> #[trigger] spec_review_sends(
            q,
            ev,
        )[i].0 == spec_review_popped(q, ev)[i].response_chan,
        forall|i: int| 0 <= i < spec_review_sends(q, ev).len() ==> (#[trigger] spec_review_sends(
            q,
            ev,
        )[i].1.status == Status::Accepted || spec_review_sends(q, ev)[i].1.status
            == Status::Rejected),
{
}

/// Law: accept-all and reject-all drain the whole queue — afterwards the
/// queue is empty, so `peek` shows nothing — and set the exit flag; every
/// drained request is answered, in order, with the one bulk decision.
pub proof fn lemma_bulk_drain<C>(q: Seq<PatchRequest<C>>, exit: bool)
    ensures
        spec_review_queue(q, ReviewEvent::<C>::AcceptAll).len() == 0,
        spec_review_queue(q, ReviewEvent::<C>::RejectAll).len() == 0,
        spec_review_exit::<C>(exit, ReviewEvent::<C>::AcceptAll),
        spec_review_exit::<C>(exit, ReviewEvent::<C>::RejectAll),
        spec_review_sends(q, ReviewEvent::<C>::AcceptAll) == spec_answer_all(q, Status::Accepted),
        spec_review_sends(q, ReviewEvent::<C>::RejectAll) == spec_answer_all(q, Status::Rejected),
{
}

/// Law: an arrival behind the head never changes what `peek` shows: the
/// head — the same logical item, by identity — stays the head until a
/// `pop` removes it.
pub proof fn lemma_peek_stable<C>(q: Seq<PatchRequest<C>>, r: PatchRequest<C>)
    requires
        q.len() > 0,
    ensures
        spec_review_queue(q, ReviewEvent::Arrival(r))[0] == q[0],
{
}

} // verus!
