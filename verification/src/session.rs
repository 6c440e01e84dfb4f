//! The per-frame protocol of both ends, as state machines.
//!
//! The publisher holds at most one capture buffer at a time: it dequeues a
//! filled buffer, sends its index, waits for the subscriber's ack and only
//! then hands the buffer back to the driver, so the driver never refills a
//! buffer the subscriber may still be sampling. The subscriber imports the
//! announced buffer as an EGL image, draws it, destroys the image and only
//! then acks, so EGL holds no reference when the publisher re-queues it.
//!
//! Each machine says, for its current phase, which action to perform; the
//! caller performs it and feeds back whether it succeeded.

use vstd::prelude::*;

verus! {

// ---- publisher --------------------------------------------------------------

/// Where the publisher is in its per-frame cycle.
#[derive(Debug, Clone, Copy, PartialEq, Eq, Structural)]
pub enum PublisherPhase {
    /// Holding no buffer; about to dequeue the next frame.
    Ready,
    /// Holding buffer `i`; its index is to be sent.
    Send(u32),
    /// Holding buffer `i`; waiting for the subscriber's ack.
    AwaitAck(u32),
    /// Holding buffer `i`, acked; it is to be re-queued.
    Requeue(u32),
    /// Holding buffer `i` after a socket failure; it is to be re-queued, then the loop ends.
    Release(u32),
    /// The loop is over.
    Finished,
}

/// What the publisher must do next.
#[derive(Debug, Clone, Copy, PartialEq, Eq, Structural)]
pub enum PublisherAction {
    Dequeue,
    SendIdx(u32),
    WaitAck,
    Requeue(u32),
    Finish,
}

/// How the last action turned out.
#[derive(Debug, Clone, Copy, PartialEq, Eq, Structural)]
pub enum PublisherOutcome {
    /// A frame was dequeued into buffer `i`.
    Dequeued(u32),
    /// The action succeeded.
    Done,
    /// The action failed.
    Failed,
}

/// The buffer the publisher holds in a phase, if any.
pub open spec fn pub_held(p: PublisherPhase) -> Option<u32> {
    match p {
        PublisherPhase::Send(i) => Some(i),
        PublisherPhase::AwaitAck(i) => Some(i),
        PublisherPhase::Requeue(i) => Some(i),
        PublisherPhase::Release(i) => Some(i),
        _ => None,
    }
}

/// The action of a phase; `running` is false once a stop was requested.
pub open spec fn spec_pub_action(p: PublisherPhase, running: bool) -> PublisherAction {
    match p {
        PublisherPhase::Ready => if running {
            PublisherAction::Dequeue
        } else {
            PublisherAction::Finish
        },
        PublisherPhase::Send(i) => PublisherAction::SendIdx(i),
        PublisherPhase::AwaitAck(_) => PublisherAction::WaitAck,
        PublisherPhase::Requeue(i) => PublisherAction::Requeue(i),
        PublisherPhase::Release(i) => PublisherAction::Requeue(i),
        PublisherPhase::Finished => PublisherAction::Finish,
    }
}

/// The phase after the action of `p` turned out as `o`.
pub open spec fn spec_pub_next(p: PublisherPhase, o: PublisherOutcome) -> PublisherPhase {
    match p {
        PublisherPhase::Ready => match o {
            PublisherOutcome::Dequeued(i) => PublisherPhase::Send(i),
            _ => PublisherPhase::Finished,
        },
        PublisherPhase::Send(i) => match o {
            PublisherOutcome::Done => PublisherPhase::AwaitAck(i),
            _ => PublisherPhase::Release(i),
        },
        PublisherPhase::AwaitAck(i) => match o {
            PublisherOutcome::Done => PublisherPhase::Requeue(i),
            _ => PublisherPhase::Release(i),
        },
        PublisherPhase::Requeue(_) => match o {
            PublisherOutcome::Done => PublisherPhase::Ready,
            _ => PublisherPhase::Finished,
        },
        PublisherPhase::Release(_) => PublisherPhase::Finished,
        PublisherPhase::Finished => PublisherPhase::Finished,
    }
}

/// The publisher's frame loop.
#[derive(Debug, Clone, Copy, PartialEq, Eq, Structural)]
pub struct PublisherLoop {
    pub phase: PublisherPhase,
}

impl PublisherLoop {
    /// A loop about to dequeue its first frame.
    pub fn new() -> (r: PublisherLoop)
        ensures
            r.phase == PublisherPhase::Ready,
    {
        PublisherLoop { phase: PublisherPhase::Ready }
    }

    /// What to do now; `running` is false once a stop was requested, which
    /// ends the loop before the next dequeue (a held buffer is still handed back).
    pub fn action(&self, running: bool) -> (a: PublisherAction)
        ensures
            a == spec_pub_action(self.phase, running),
    {
        match self.phase {
            PublisherPhase::Ready => if running {
                PublisherAction::Dequeue
            } else {
                PublisherAction::Finish
            },
            PublisherPhase::Send(i) => PublisherAction::SendIdx(i),
            PublisherPhase::AwaitAck(_) => PublisherAction::WaitAck,
            PublisherPhase::Requeue(i) => PublisherAction::Requeue(i),
            PublisherPhase::Release(i) => PublisherAction::Requeue(i),
            PublisherPhase::Finished => PublisherAction::Finish,
        }
    }

    /// Moves on after the current action turned out as `o`.
    pub fn advance(&mut self, o: PublisherOutcome)
        ensures
            final(self).phase == spec_pub_next(old(self).phase, o),
            final(self).phase == PublisherPhase::Ready ==> (old(self).phase is Requeue && o
                == PublisherOutcome::Done),
    {
        self.phase = match self.phase {
            PublisherPhase::Ready => match o {
                PublisherOutcome::Dequeued(i) => PublisherPhase::Send(i),
                _ => PublisherPhase::Finished,
            },
            PublisherPhase::Send(i) => match o {
                PublisherOutcome::Done => PublisherPhase::AwaitAck(i),
                _ => PublisherPhase::Release(i),
            },
            PublisherPhase::AwaitAck(i) => match o {
                PublisherOutcome::Done => PublisherPhase::Requeue(i),
                _ => PublisherPhase::Release(i),
            },
            PublisherPhase::Requeue(_) => match o {
                PublisherOutcome::Done => PublisherPhase::Ready,
                _ => PublisherPhase::Finished,
            },
            PublisherPhase::Release(_) => PublisherPhase::Finished,
            PublisherPhase::Finished => PublisherPhase::Finished,
        };
    }

    /// Whether the loop is over.
    pub fn is_finished(&self) -> (r: bool)
        ensures
            r == (self.phase == PublisherPhase::Finished),
    {
        match self.phase {
            PublisherPhase::Finished => true,
            _ => false,
        }
    }
}

/// The publisher dequeues only while it holds no buffer.
pub proof fn lemma_pub_dequeues_only_when_empty_handed(p: PublisherPhase, running: bool)
    requires
        spec_pub_action(p, running) == PublisherAction::Dequeue,
    ensures
        pub_held(p) is None,
{
}

/// A buffer taken from the driver is the one whose index is sent.
pub proof fn lemma_pub_sends_what_it_dequeued(i: u32)
    ensures
        spec_pub_next(PublisherPhase::Ready, PublisherOutcome::Dequeued(i))
            == PublisherPhase::Send(i),
        spec_pub_action(PublisherPhase::Send(i), true) == PublisherAction::SendIdx(i),
{
}

/// On the normal path a buffer goes back to the driver only after the
/// subscriber acknowledged it: the re-queue phase is entered from waiting for
/// the ack of that buffer, on success, and from nowhere else.
pub proof fn lemma_pub_requeue_follows_ack(p: PublisherPhase, o: PublisherOutcome, i: u32)
    requires
        spec_pub_next(p, o) == PublisherPhase::Requeue(i),
    ensures
        p == PublisherPhase::AwaitAck(i),
        o == PublisherOutcome::Done,
{
}

/// A held buffer is never dropped silently: whenever the publisher stops
/// holding buffer `i`, the action it just performed was re-queueing `i`.
pub proof fn lemma_pub_hands_back_what_it_holds(
    p: PublisherPhase,
    o: PublisherOutcome,
    running: bool,
    i: u32,
)
    requires
        pub_held(p) == Some(i),
        pub_held(spec_pub_next(p, o)) != Some(i),
    ensures
        spec_pub_action(p, running) == PublisherAction::Requeue(i),
{
}

/// Once finished, the publisher stays finished and asks for nothing more.
pub proof fn lemma_pub_finished_is_final(o: PublisherOutcome, running: bool)
    ensures
        spec_pub_next(PublisherPhase::Finished, o) == PublisherPhase::Finished,
        spec_pub_action(PublisherPhase::Finished, running) == PublisherAction::Finish,
{
}

/// Each publisher phase asks for its own step: a held buffer's index is what
/// is sent and re-queued, the ack is waited for in between, and a finished
/// loop asks for nothing but to finish.
pub proof fn lemma_pub_phase_actions(i: u32, running: bool)
    ensures
        spec_pub_action(PublisherPhase::Send(i), running) == PublisherAction::SendIdx(i),
        spec_pub_action(PublisherPhase::AwaitAck(i), running) == PublisherAction::WaitAck,
        spec_pub_action(PublisherPhase::Requeue(i), running) == PublisherAction::Requeue(i),
        spec_pub_action(PublisherPhase::Release(i), running) == PublisherAction::Requeue(i),
        spec_pub_action(PublisherPhase::Ready, true) == PublisherAction::Dequeue,
        spec_pub_action(PublisherPhase::Ready, false) == PublisherAction::Finish,
        spec_pub_next(PublisherPhase::Send(i), PublisherOutcome::Done) == PublisherPhase::AwaitAck(
            i,
        ),
{
}

/// The publisher gets back to dequeueing only through a successful re-queue
/// after an ack; a failed dequeue or re-queue ends the loop, and a failed send
/// or ack wait goes on only to hand the held buffer back.
pub proof fn lemma_pub_failures(p: PublisherPhase, o: PublisherOutcome)
    ensures
        spec_pub_next(p, o) == PublisherPhase::Ready ==> (p is Requeue && o
            == PublisherOutcome::Done),
        o == PublisherOutcome::Failed && (p is Ready || p is Requeue || p is Release)
            ==> spec_pub_next(p, o) == PublisherPhase::Finished,
        o == PublisherOutcome::Failed && (p matches PublisherPhase::Send(i)) ==> spec_pub_next(p, o)
            == PublisherPhase::Release(p->Send_0),
        o == PublisherOutcome::Failed && (p matches PublisherPhase::AwaitAck(i)) ==> spec_pub_next(
            p,
            o,
        ) == PublisherPhase::Release(p->AwaitAck_0),
{
}

// ---- subscriber -------------------------------------------------------------

/// Where the subscriber is in its per-frame cycle.
#[derive(Debug, Clone, Copy, PartialEq, Eq, Structural)]
pub enum SubscriberPhase {
    /// Holding no image; about to receive the next index.
    Ready,
    /// Buffer `i` was announced; it is to be imported.
    Import(u32),
    /// An image of buffer `i` exists; it is to be drawn and shown.
    Present(u32),
    /// The image of buffer `i` was shown; it is to be destroyed.
    Release(u32),
    /// The image of buffer `i` was destroyed; the ack is to be sent.
    Ack(u32),
    /// The frame is done; pending window events are to be dispatched.
    Dispatch,
    /// The loop is over.
    Finished,
}

/// What the subscriber must do next.
#[derive(Debug, Clone, Copy, PartialEq, Eq, Structural)]
pub enum SubscriberAction {
    ReceiveIdx,
    Import(u32),
    DrawAndSwap,
    DestroyImage,
    SendAck,
    DispatchEvents,
    Finish,
}

/// How the last action turned out.
#[derive(Debug, Clone, Copy, PartialEq, Eq, Structural)]
pub enum SubscriberOutcome {
    /// Index `i` arrived.
    Received(u32),
    /// The action succeeded (for dispatch: the window stays open).
    Done,
    /// The action failed (for a receive: the peer closed or the socket failed;
    /// for dispatch: the window closed or dispatch failed).
    Failed,
}

/// The buffer whose EGL image the subscriber holds in a phase, if any.
pub open spec fn sub_image(p: SubscriberPhase) -> Option<u32> {
    match p {
        SubscriberPhase::Present(i) => Some(i),
        SubscriberPhase::Release(i) => Some(i),
        _ => None,
    }
}

/// The action of a phase; `running` is false once a stop was requested or the
/// window was asked to close.
pub open spec fn spec_sub_action(p: SubscriberPhase, running: bool) -> SubscriberAction {
    match p {
        SubscriberPhase::Ready => if running {
            SubscriberAction::ReceiveIdx
        } else {
            SubscriberAction::Finish
        },
        SubscriberPhase::Import(i) => SubscriberAction::Import(i),
        SubscriberPhase::Present(_) => SubscriberAction::DrawAndSwap,
        SubscriberPhase::Release(_) => SubscriberAction::DestroyImage,
        SubscriberPhase::Ack(_) => SubscriberAction::SendAck,
        SubscriberPhase::Dispatch => SubscriberAction::DispatchEvents,
        SubscriberPhase::Finished => SubscriberAction::Finish,
    }
}

/// The phase after the action of `p` turned out as `o`.
pub open spec fn spec_sub_next(p: SubscriberPhase, o: SubscriberOutcome) -> SubscriberPhase {
    match p {
        SubscriberPhase::Ready => match o {
            SubscriberOutcome::Received(i) => SubscriberPhase::Import(i),
            _ => SubscriberPhase::Finished,
        },
        SubscriberPhase::Import(i) => match o {
            SubscriberOutcome::Done => SubscriberPhase::Present(i),
            _ => SubscriberPhase::Finished,
        },
        SubscriberPhase::Present(i) => SubscriberPhase::Release(i),
        SubscriberPhase::Release(i) => SubscriberPhase::Ack(i),
        SubscriberPhase::Ack(_) => match o {
            SubscriberOutcome::Done => SubscriberPhase::Dispatch,
            _ => SubscriberPhase::Finished,
        },
        SubscriberPhase::Dispatch => match o {
            SubscriberOutcome::Done => SubscriberPhase::Ready,
            _ => SubscriberPhase::Finished,
        },
        SubscriberPhase::Finished => SubscriberPhase::Finished,
    }
}

/// The subscriber's frame loop over a session of `buf_count` buffers.
#[derive(Debug, Clone, Copy, PartialEq, Eq, Structural)]
pub struct SubscriberLoop {
    pub phase: SubscriberPhase,
    pub buf_count: u32,
}

impl SubscriberLoop {
    /// A loop about to receive its first index, for `buf_count` buffers.
    pub fn new(buf_count: u32) -> (r: SubscriberLoop)
        ensures
            r.phase == SubscriberPhase::Ready,
            r.buf_count == buf_count,
    {
        SubscriberLoop { phase: SubscriberPhase::Ready, buf_count }
    }

    /// What to do now; `running` is false once a stop was requested or the
    /// window was asked to close, which ends the loop before the next receive.
    pub fn action(&self, running: bool) -> (a: SubscriberAction)
        ensures
            a == spec_sub_action(self.phase, running),
    {
        match self.phase {
            SubscriberPhase::Ready => if running {
                SubscriberAction::ReceiveIdx
            } else {
                SubscriberAction::Finish
            },
            SubscriberPhase::Import(i) => SubscriberAction::Import(i),
            SubscriberPhase::Present(_) => SubscriberAction::DrawAndSwap,
            SubscriberPhase::Release(_) => SubscriberAction::DestroyImage,
            SubscriberPhase::Ack(_) => SubscriberAction::SendAck,
            SubscriberPhase::Dispatch => SubscriberAction::DispatchEvents,
            SubscriberPhase::Finished => SubscriberAction::Finish,
        }
    }

    /// Moves on after the current action turned out as `o`. An index that
    /// arrives names one of the session's buffers.
    pub fn advance(&mut self, o: SubscriberOutcome)
        requires
            old(self).phase == SubscriberPhase::Ready ==> (o matches SubscriberOutcome::Received(
                i,
            ) ==> i < old(self).buf_count),
        ensures
            final(self).phase == spec_sub_next(old(self).phase, o),
            final(self).buf_count == old(self).buf_count,
            final(self).phase == SubscriberPhase::Ready ==> (old(self).phase
                == SubscriberPhase::Dispatch && o == SubscriberOutcome::Done),
            o == SubscriberOutcome::Failed && old(self).phase == SubscriberPhase::Dispatch
                ==> final(self).phase == SubscriberPhase::Finished,
    {
        self.phase = match self.phase {
            SubscriberPhase::Ready => match o {
                SubscriberOutcome::Received(i) => SubscriberPhase::Import(i),
                _ => SubscriberPhase::Finished,
            },
            SubscriberPhase::Import(i) => match o {
                SubscriberOutcome::Done => SubscriberPhase::Present(i),
                _ => SubscriberPhase::Finished,
            },
            SubscriberPhase::Present(i) => SubscriberPhase::Release(i),
            SubscriberPhase::Release(i) => SubscriberPhase::Ack(i),
            SubscriberPhase::Ack(_) => match o {
                SubscriberOutcome::Done => SubscriberPhase::Dispatch,
                _ => SubscriberPhase::Finished,
            },
            SubscriberPhase::Dispatch => match o {
                SubscriberOutcome::Done => SubscriberPhase::Ready,
                _ => SubscriberPhase::Finished,
            },
            SubscriberPhase::Finished => SubscriberPhase::Finished,
        };
    }

    /// Whether the loop is over.
    pub fn is_finished(&self) -> (r: bool)
        ensures
            r == (self.phase == SubscriberPhase::Finished),
    {
        match self.phase {
            SubscriberPhase::Finished => true,
            _ => false,
        }
    }
}

/// Each subscriber phase asks for its own step: the announced buffer is what
/// is imported, then the image is drawn and shown, destroyed, acked, and the
/// window's events dispatched; a receive happens only while running.
pub proof fn lemma_sub_phase_actions(i: u32, running: bool)
    ensures
        spec_sub_action(SubscriberPhase::Import(i), running) == SubscriberAction::Import(i),
        spec_sub_action(SubscriberPhase::Present(i), running) == SubscriberAction::DrawAndSwap,
        spec_sub_action(SubscriberPhase::Release(i), running) == SubscriberAction::DestroyImage,
        spec_sub_action(SubscriberPhase::Ack(i), running) == SubscriberAction::SendAck,
        spec_sub_action(SubscriberPhase::Dispatch, running) == SubscriberAction::DispatchEvents,
        spec_sub_action(SubscriberPhase::Ready, true) == SubscriberAction::ReceiveIdx,
        spec_sub_action(SubscriberPhase::Ready, false) == SubscriberAction::Finish,
        spec_sub_action(SubscriberPhase::Finished, running) == SubscriberAction::Finish,
        spec_sub_next(SubscriberPhase::Ready, SubscriberOutcome::Received(i))
            == SubscriberPhase::Import(i),
        spec_sub_next(SubscriberPhase::Ack(i), SubscriberOutcome::Done) == SubscriberPhase::Dispatch,
{
}

/// The subscriber gets back to receiving only after a successful dispatch;
/// a failure of any fallible step (receive, import, ack, dispatch) ends the
/// loop.
pub proof fn lemma_sub_failures(p: SubscriberPhase, o: SubscriberOutcome)
    ensures
        spec_sub_next(p, o) == SubscriberPhase::Ready ==> (p == SubscriberPhase::Dispatch && o
            == SubscriberOutcome::Done),
        o == SubscriberOutcome::Failed && (p is Ready || p is Import || p is Ack || p is Dispatch)
            ==> spec_sub_next(p, o) == SubscriberPhase::Finished,
        spec_sub_next(SubscriberPhase::Dispatch, SubscriberOutcome::Done) == SubscriberPhase::Ready,
{
}

/// The subscriber acks a frame only right after destroying its image: the
/// ack phase is entered from the release of that same buffer's image, and
/// from nowhere else.
pub proof fn lemma_sub_ack_follows_destroy(p: SubscriberPhase, o: SubscriberOutcome, i: u32)
    requires
        spec_sub_next(p, o) == SubscriberPhase::Ack(i),
    ensures
        p == SubscriberPhase::Release(i),
        spec_sub_action(p, true) == SubscriberAction::DestroyImage,
{
}

/// An image is never kept past its frame: whenever the subscriber stops
/// holding an image, the action it just performed destroyed it.
pub proof fn lemma_sub_destroys_what_it_imports(
    p: SubscriberPhase,
    o: SubscriberOutcome,
    running: bool,
)
    requires
        sub_image(p) is Some,
        sub_image(spec_sub_next(p, o)) != sub_image(p),
    ensures
        spec_sub_action(p, running) == SubscriberAction::DestroyImage,
{
}

/// The subscriber receives the next index only while it holds no image.
pub proof fn lemma_sub_receives_only_when_empty_handed(p: SubscriberPhase, running: bool)
    requires
        spec_sub_action(p, running) == SubscriberAction::ReceiveIdx,
    ensures
        sub_image(p) is None,
{
}

/// The ack sent for a frame is for the buffer that was announced: from the
/// arrival of index `i`, a successful import, draw and release lead to the
/// ack of `i`.
pub proof fn lemma_sub_acks_the_announced_buffer(i: u32)
    ensures
        spec_sub_next(
            spec_sub_next(
                spec_sub_next(
                    spec_sub_next(SubscriberPhase::Ready, SubscriberOutcome::Received(i)),
                    SubscriberOutcome::Done,
                ),
                SubscriberOutcome::Done,
            ),
            SubscriberOutcome::Done,
        ) == SubscriberPhase::Ack(i),
{
}

/// A failed import ends the loop without an ack and without an image to destroy.
pub proof fn lemma_sub_failed_import_ends(i: u32)
    ensures
        spec_sub_next(SubscriberPhase::Import(i), SubscriberOutcome::Failed)
            == SubscriberPhase::Finished,
{
}

// ---- whole runs ---------------------------------------------------------------
//
// A run starts in `Ready` and feeds the outcomes `outs` in order; the action
// at step `k` is the one asked for after the first `k` outcomes. A stop
// request only turns the `Ready` action into `Finish`, which ends the run, so
// runs are followed while no stop is requested.

/// The publisher's phase after the outcomes `outs`, from `start`.
pub open spec fn pub_phase_after(start: PublisherPhase, outs: Seq<PublisherOutcome>) -> PublisherPhase
    decreases outs.len(),
{
    if outs.len() == 0 {
        start
    } else {
        spec_pub_next(pub_phase_after(start, outs.drop_last()), outs.last())
    }
}

/// The publisher's action at step `k` of the run fed `outs`.
pub open spec fn pub_action_at(outs: Seq<PublisherOutcome>, k: int) -> PublisherAction {
    spec_pub_action(pub_phase_after(PublisherPhase::Ready, outs.take(k)), true)
}

proof fn lemma_pub_phase_step(outs: Seq<PublisherOutcome>, j: int)
    requires
        0 < j <= outs.len(),
    ensures
        pub_phase_after(PublisherPhase::Ready, outs.take(j)) == spec_pub_next(
            pub_phase_after(PublisherPhase::Ready, outs.take(j - 1)),
            outs[j - 1],
        ),
{
    assert(outs.take(j).drop_last() =~= outs.take(j - 1));
}

proof fn lemma_pub_release_between(outs: Seq<PublisherOutcome>, i: u32, k: int, j: int)
    requires
        0 <= k <= j <= outs.len(),
        pub_held(pub_phase_after(PublisherPhase::Ready, outs.take(k))) == Some(i),
        pub_held(pub_phase_after(PublisherPhase::Ready, outs.take(j))) != Some(i),
    ensures
        exists|m: int| k <= m < j && #[trigger] pub_action_at(outs, m) == PublisherAction::Requeue(i),
    decreases j - k,
{
    lemma_pub_phase_step(outs, j);
    let prev = pub_phase_after(PublisherPhase::Ready, outs.take(j - 1));
    if pub_held(prev) != Some(i) {
        lemma_pub_release_between(outs, i, k, j - 1);
    } else {
        lemma_pub_hands_back_what_it_holds(prev, outs[j - 1], true, i);
        assert(pub_action_at(outs, j - 1) == PublisherAction::Requeue(i));
    }
}

/// Over a whole run, every buffer the publisher dequeues is re-queued before
/// it dequeues again: between a dequeue that yielded buffer `i` and the next
/// dequeue, the publisher re-queued `i`.
pub proof fn lemma_pub_every_dequeue_is_handed_back(
    outs: Seq<PublisherOutcome>,
    k1: int,
    k2: int,
    i: u32,
)
    requires
        0 <= k1 < k2 <= outs.len(),
        pub_action_at(outs, k1) == PublisherAction::Dequeue,
        outs[k1] == PublisherOutcome::Dequeued(i),
        pub_action_at(outs, k2) == PublisherAction::Dequeue,
    ensures
        exists|m: int| k1 < m < k2 && #[trigger] pub_action_at(outs, m) == PublisherAction::Requeue(i),
{
    let p1 = pub_phase_after(PublisherPhase::Ready, outs.take(k1));
    lemma_pub_dequeues_only_when_empty_handed(p1, true);
    lemma_pub_phase_step(outs, k1 + 1);
    assert(pub_held(pub_phase_after(PublisherPhase::Ready, outs.take(k1 + 1))) == Some(i));
    lemma_pub_dequeues_only_when_empty_handed(
        pub_phase_after(PublisherPhase::Ready, outs.take(k2)),
        true,
    );
    lemma_pub_release_between(outs, i, k1 + 1, k2);
}

/// Over a whole run, the publisher re-queues buffer `i` on the normal path
/// only at the step right after the subscriber acknowledged `i`.
pub proof fn lemma_pub_run_requeue_after_ack(outs: Seq<PublisherOutcome>, k: int, i: u32)
    requires
        0 < k <= outs.len(),
        pub_phase_after(PublisherPhase::Ready, outs.take(k)) == PublisherPhase::Requeue(i),
    ensures
        pub_phase_after(PublisherPhase::Ready, outs.take(k - 1)) == PublisherPhase::AwaitAck(i),
        pub_action_at(outs, k - 1) == PublisherAction::WaitAck,
        outs[k - 1] == PublisherOutcome::Done,
{
    lemma_pub_phase_step(outs, k);
    lemma_pub_requeue_follows_ack(
        pub_phase_after(PublisherPhase::Ready, outs.take(k - 1)),
        outs[k - 1],
        i,
    );
}

/// The subscriber's phase after the outcomes `outs`, from `start`.
pub open spec fn sub_phase_after(start: SubscriberPhase, outs: Seq<SubscriberOutcome>) -> SubscriberPhase
    decreases outs.len(),
{
    if outs.len() == 0 {
        start
    } else {
        spec_sub_next(sub_phase_after(start, outs.drop_last()), outs.last())
    }
}

/// The subscriber's action at step `k` of the run fed `outs`.
pub open spec fn sub_action_at(outs: Seq<SubscriberOutcome>, k: int) -> SubscriberAction {
    spec_sub_action(sub_phase_after(SubscriberPhase::Ready, outs.take(k)), true)
}

proof fn lemma_sub_phase_step(outs: Seq<SubscriberOutcome>, j: int)
    requires
        0 < j <= outs.len(),
    ensures
        sub_phase_after(SubscriberPhase::Ready, outs.take(j)) == spec_sub_next(
            sub_phase_after(SubscriberPhase::Ready, outs.take(j - 1)),
            outs[j - 1],
        ),
{
    assert(outs.take(j).drop_last() =~= outs.take(j - 1));
}

/// Over a whole run, every ack the subscriber sends comes right after it
/// destroyed the image of the same buffer.
pub proof fn lemma_sub_run_ack_after_destroy(outs: Seq<SubscriberOutcome>, k: int)
    requires
        0 <= k <= outs.len(),
        sub_action_at(outs, k) == SubscriberAction::SendAck,
    ensures
        k >= 1,
        sub_action_at(outs, k - 1) == SubscriberAction::DestroyImage,
        sub_phase_after(SubscriberPhase::Ready, outs.take(k - 1)) == SubscriberPhase::Release(
            sub_phase_after(SubscriberPhase::Ready, outs.take(k))->Ack_0,
        ),
{
    if k == 0 {
        assert(outs.take(0) =~= Seq::<SubscriberOutcome>::empty());
    } else {
        lemma_sub_phase_step(outs, k);
        let i = sub_phase_after(SubscriberPhase::Ready, outs.take(k))->Ack_0;
        lemma_sub_ack_follows_destroy(
            sub_phase_after(SubscriberPhase::Ready, outs.take(k - 1)),
            outs[k - 1],
            i,
        );
    }
}

proof fn lemma_sub_destroy_between(outs: Seq<SubscriberOutcome>, k: int, j: int)
    requires
        0 <= k <= j <= outs.len(),
        sub_image(sub_phase_after(SubscriberPhase::Ready, outs.take(k))) is Some,
        sub_image(sub_phase_after(SubscriberPhase::Ready, outs.take(j))) is None,
    ensures
        exists|m: int| k <= m < j && #[trigger] sub_action_at(outs, m) == SubscriberAction::DestroyImage,
    decreases j - k,
{
    lemma_sub_phase_step(outs, j);
    let prev = sub_phase_after(SubscriberPhase::Ready, outs.take(j - 1));
    if sub_image(prev) is None {
        lemma_sub_destroy_between(outs, k, j - 1);
    } else {
        lemma_sub_destroys_what_it_imports(prev, outs[j - 1], true);
        assert(sub_action_at(outs, j - 1) == SubscriberAction::DestroyImage);
    }
}

/// Over a whole run, an image the subscriber imported is destroyed before it
/// receives the next index.
pub proof fn lemma_sub_every_import_is_destroyed(outs: Seq<SubscriberOutcome>, k1: int, k2: int, i: u32)
    requires
        0 <= k1 < k2 <= outs.len(),
        sub_action_at(outs, k1) == SubscriberAction::Import(i),
        outs[k1] == SubscriberOutcome::Done,
        sub_action_at(outs, k2) == SubscriberAction::ReceiveIdx,
    ensures
        exists|m: int| k1 < m < k2 && #[trigger] sub_action_at(outs, m) == SubscriberAction::DestroyImage,
{
    lemma_sub_phase_step(outs, k1 + 1);
    assert(sub_image(sub_phase_after(SubscriberPhase::Ready, outs.take(k1 + 1))) == Some(i));
    lemma_sub_receives_only_when_empty_handed(
        sub_phase_after(SubscriberPhase::Ready, outs.take(k2)),
        true,
    );
    lemma_sub_destroy_between(outs, k1 + 1, k2);
}

} // verus!
