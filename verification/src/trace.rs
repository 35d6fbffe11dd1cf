//! Runs of a session: what happens to it, one event after another.

use crate::session::SessionState;
use vstd::prelude::*;

verus! {

/// One thing that happens to a session.
pub enum Event {
    /// The client sends a payload: [`SessionState::enqueue`].
    Send(Seq<u8>),
    /// The writer looks for the next payload: [`SessionState::dequeue`].
    NextInbound,
    /// A write to the relay endpoint ends: [`SessionState::forward_done`].
    ForwardDone(bool),
    /// A wait window of the writer ends: [`SessionState::wait_timed_out`].
    WaitTimedOut,
    /// A read on the relay endpoint times out or fails:
    /// [`SessionState::read_failed`].
    ReadFailed,
    /// The reader has tried to queue a reply: [`SessionState::reply_queued`].
    ReplyQueued(bool),
}

/// The session after one event.
pub open spec fn step(s: SessionState, e: Event) -> SessionState {
    match e {
        Event::Send(payload) => s.enqueue(payload),
        Event::NextInbound => s.dequeue(),
        Event::ForwardDone(ok) => s.forward_done(ok),
        Event::WaitTimedOut => s.wait_timed_out(),
        Event::ReadFailed => s.read_failed(),
        Event::ReplyQueued(ok) => s.reply_queued(ok),
    }
}

/// The session after a sequence of events.
pub open spec fn run(s: SessionState, events: Seq<Event>) -> SessionState
    decreases events.len(),
{
    if events.len() == 0 {
        s
    } else {
        step(run(s, events.drop_last()), events.last())
    }
}

/// The payloads that the session accepted in one event, in a state `s`.
pub open spec fn accepted_by(s: SessionState, e: Event) -> Seq<Seq<u8>> {
    match e {
        Event::Send(payload) if s.writer is Running => seq![payload],
        _ => Seq::empty(),
    }
}

/// The payloads that were handed to the writer in one event, in a state `s`.
pub open spec fn handed_by(s: SessionState, e: Event) -> Seq<Seq<u8>> {
    match (e, s.front()) {
        (Event::NextInbound, Some(payload)) => seq![payload],
        _ => Seq::empty(),
    }
}

/// The payloads that the session accepted during a run, in the order in
/// which they were sent.
pub open spec fn accepted(s: SessionState, events: Seq<Event>) -> Seq<Seq<u8>>
    decreases events.len(),
{
    if events.len() == 0 {
        Seq::empty()
    } else {
        accepted(s, events.drop_last()) + accepted_by(
            run(s, events.drop_last()),
            events.last(),
        )
    }
}

/// The payloads that were handed to the writer during a run, to be written
/// to the relay endpoint, in the order in which they were handed out.
pub open spec fn handed(s: SessionState, events: Seq<Event>) -> Seq<Seq<u8>>
    decreases events.len(),
{
    if events.len() == 0 {
        Seq::empty()
    } else {
        handed(s, events.drop_last()) + handed_by(run(s, events.drop_last()), events.last())
    }
}

/// How often the idle flag went up during a run.
pub open spec fn raises(s: SessionState, events: Seq<Event>) -> nat
    decreases events.len(),
{
    if events.len() == 0 {
        0
    } else {
        let before = run(s, events.drop_last());
        let after = step(before, events.last());
        raises(s, events.drop_last()) + (if !before.idle && after.idle {
            1nat
        } else {
            0nat
        })
    }
}

} // verus!
