//! What holds of every session and of every run of one.

use crate::addr::UdpAddr;
use crate::outbound::{OutboundState, Reply};
use crate::session::SessionState;
use crate::worker::WorkerStatus;
use crate::{IDLE_THRESHOLD, TIMEOUT};
use crate::trace::{accepted, accepted_by, handed, handed_by, raises, run, step, Event};
use vstd::prelude::*;

verus! {

/// A session is created well-formed.
pub proof fn lemma_fresh_wf(client: UdpAddr, target: Seq<char>)
    ensures
        SessionState::fresh(client, target).wf(),
        SessionState::fresh(client, target).active(),
{
}

/// Every event leaves a well-formed session well-formed.
pub proof fn lemma_step_wf(s: SessionState, e: Event)
    requires
        s.wf(),
    ensures
        step(s, e).wf(),
{
}

/// Every run leaves a well-formed session well-formed.
pub proof fn lemma_run_wf(s: SessionState, events: Seq<Event>)
    requires
        s.wf(),
    ensures
        run(s, events).wf(),
    decreases events.len(),
{
    if events.len() > 0 {
        lemma_run_wf(s, events.drop_last());
        lemma_step_wf(run(s, events.drop_last()), events.last());
    }
}

/// Termination is one-way. No event changes the client or the target,
/// brings a stopped worker back, or takes the idle flag down; and the flag
/// goes up in one way only: the writer was running and saw its last window
/// expire.
pub proof fn lemma_step_one_way(s: SessionState, e: Event)
    requires
        s.wf(),
    ensures
        step(s, e).client == s.client,
        step(s, e).target == s.target,
        !(s.writer is Running) ==> step(s, e).writer == s.writer,
        !(s.reader is Running) ==> step(s, e).reader == s.reader,
        s.idle ==> step(s, e).idle,
        !s.idle && step(s, e).idle ==> e is WaitTimedOut && s.writer is Running
            && s.inbound.len() == 0 && s.timeouts + 1 == IDLE_THRESHOLD,
{
}

/// Termination is one-way over whole runs: a run changes neither the client
/// nor the target, brings no stopped worker back and leaves a raised flag up.
/// So a session that was active once and is not now will never be again.
pub proof fn lemma_run_one_way(s: SessionState, events: Seq<Event>)
    requires
        s.wf(),
    ensures
        run(s, events).client == s.client,
        run(s, events).target == s.target,
        !(s.writer is Running) ==> run(s, events).writer == s.writer,
        !(s.reader is Running) ==> run(s, events).reader == s.reader,
        s.idle ==> run(s, events).idle,
        !s.active() ==> !run(s, events).active(),
    decreases events.len(),
{
    if events.len() > 0 {
        lemma_run_one_way(s, events.drop_last());
        lemma_run_wf(s, events.drop_last());
        lemma_step_one_way(run(s, events.drop_last()), events.last());
    }
}

/// The idle flag goes up at most once in a run, and exactly once in a run
/// that starts with the flag down and ends with it up.
pub proof fn lemma_flag_raised_once(s: SessionState, events: Seq<Event>)
    requires
        s.wf(),
    ensures
        raises(s, events) <= 1,
        raises(s, events) == 1 <==> !s.idle && run(s, events).idle,
    decreases events.len(),
{
    if events.len() > 0 {
        lemma_flag_raised_once(s, events.drop_last());
        lemma_run_wf(s, events.drop_last());
        lemma_run_one_way(s, events.drop_last());
        lemma_step_one_way(run(s, events.drop_last()), events.last());
    }
}

/// Payloads go out first in, first out, with their bytes as they came.
///
/// Over any run, the payloads handed to the writer are the first of those
/// that were queued at the start or accepted since, in that order and
/// unchanged. While the writer runs, the rest is exactly what is queued. If
/// the writer has left through the idle timeout, nothing is left over: every
/// payload that was accepted has been handed out.
pub proof fn lemma_inbound_fifo(s: SessionState, events: Seq<Event>)
    requires
        s.wf(),
    ensures
        handed(s, events).is_prefix_of(s.inbound + accepted(s, events)),
        run(s, events).writer is Running ==> handed(s, events) + run(s, events).inbound
            == s.inbound + accepted(s, events),
        s.writer is Running && run(s, events).writer is Exited ==> handed(s, events)
            == s.inbound + accepted(s, events),
    decreases events.len(),
{
    if events.len() == 0 {
        assert(handed(s, events) + s.inbound =~= s.inbound + accepted(s, events));
        assert(s.inbound + accepted(s, events) =~= s.inbound);
    } else {
        let init = events.drop_last();
        let e = events.last();
        let before = run(s, init);
        let after = step(before, e);
        lemma_inbound_fifo(s, init);
        lemma_run_wf(s, init);
        lemma_run_one_way(s, init);
        let h = handed(s, init);
        let a = accepted(s, init);
        let total = s.inbound + a;
        let total2 = s.inbound + accepted(s, events);
        let h2 = handed(s, events);
        assert(total2 =~= total + accepted_by(before, e));
        assert(h2 == h + handed_by(before, e));
        if before.writer is Running {
            assert(h + before.inbound == total);
            match e {
                Event::Send(payload) => {
                    assert(h2 =~= h);
                    assert(h2 + after.inbound =~= total2);
                },
                Event::NextInbound => {
                    assert(total2 =~= total);
                    if before.inbound.len() > 0 {
                        assert(h2 + after.inbound =~= h + before.inbound);
                    } else {
                        assert(h2 =~= h);
                    }
                },
                Event::WaitTimedOut => {
                    assert(h2 =~= h);
                    assert(total2 =~= total);
                    if after.writer is Exited {
                        assert(before.inbound.len() == 0);
                        assert(h =~= h + before.inbound);
                    }
                },
                _ => {
                    assert(h2 =~= h);
                    assert(total2 =~= total);
                },
            }
            assert(h2.is_prefix_of(total2)) by {
                if after.writer is Running {
                    assert(h2 + after.inbound == total2);
                    assert(total2.subrange(0, h2.len() as int) =~= h2);
                } else {
                    assert(h2 =~= h);
                    assert(total2 =~= total);
                }
            }
        } else {
            assert(h2 =~= h);
            assert(total2 =~= total);
        }
    }
}

/// Two wait windows in a row with nothing received end the session.
///
/// From a writer that runs with an empty queue, the second expired window at
/// the latest raises the idle flag and stops the writer; with the count at
/// zero, the first one does not. A reader that is still running then leaves
/// on its next failed read, and the session is terminated.
pub proof fn lemma_idle_teardown(s: SessionState)
    requires
        s.wf(),
        s.writer is Running,
        s.inbound.len() == 0,
    ensures
        s.timeouts == 0 ==> !s.wait_timed_out().idle && s.wait_timed_out().writer is Running,
        s.wait_timed_out().wait_timed_out().idle,
        s.wait_timed_out().wait_timed_out().writer is Exited,
        s.reader is Running ==> s.wait_timed_out().wait_timed_out().draining(),
        s.reader is Running ==> s.wait_timed_out().wait_timed_out().read_failed().reader is Exited,
        s.reader is Running ==> s.wait_timed_out().wait_timed_out().read_failed().terminated(),
{
}

/// While the idle flag is down, a failed read does not stop the reader.
pub proof fn lemma_reader_waits_for_flag(s: SessionState)
    requires
        s.wf(),
        !s.idle,
    ensures
        s.read_failed() == s,
{
}

/// The session after `n` wait windows of the writer have ended, one after
/// the other, with nothing else between them.
pub open spec fn after_windows(s: SessionState, n: nat) -> SessionState
    decreases n,
{
    if n == 0 {
        s
    } else {
        after_windows(s, (n - 1) as nat).wait_timed_out()
    }
}

/// The number of wait windows that end in `secs` seconds of waiting: one
/// every [`TIMEOUT`] seconds.
pub open spec fn windows_in(secs: nat) -> nat {
    secs / (TIMEOUT as nat)
}

/// Sixty seconds of silence end a session, and less does not.
///
/// From a writer that runs with an empty queue, `secs` seconds without a
/// payload raise the idle flag and stop the writer if `secs` is at least
/// the threshold times the length of a window; the reader then leaves on
/// its next failed read, and the session is terminated. If no window had
/// expired before, anything less leaves the flag down and the writer
/// running.
pub proof fn lemma_silence_ends_session(s: SessionState, secs: nat)
    requires
        s.wf(),
        s.writer is Running,
        s.inbound.len() == 0,
    ensures
        secs >= IDLE_THRESHOLD * TIMEOUT ==> after_windows(s, windows_in(secs)).idle,
        secs >= IDLE_THRESHOLD * TIMEOUT ==> after_windows(s, windows_in(secs)).writer is Exited,
        secs >= IDLE_THRESHOLD * TIMEOUT && s.reader is Running ==> after_windows(
            s,
            windows_in(secs),
        ).read_failed().terminated(),
        secs < IDLE_THRESHOLD * TIMEOUT && s.timeouts == 0 ==> !after_windows(
            s,
            windows_in(secs),
        ).idle,
        secs < IDLE_THRESHOLD * TIMEOUT && s.timeouts == 0 ==> after_windows(
            s,
            windows_in(secs),
        ).writer is Running,
{
    lemma_windows(s, windows_in(secs));
}

/// The session after `n` windows in a row, from a writer that runs with an
/// empty queue: the count goes up to the threshold, where the writer
/// leaves, and nothing changes after that.
proof fn lemma_windows(s: SessionState, n: nat)
    requires
        s.wf(),
        s.writer is Running,
        s.inbound.len() == 0,
    ensures
        s.timeouts + n < IDLE_THRESHOLD ==> after_windows(s, n) == (SessionState {
            timeouts: s.timeouts + n,
            ..s
        }),
        s.timeouts + n >= IDLE_THRESHOLD ==> after_windows(s, n) == (SessionState {
            timeouts: IDLE_THRESHOLD as nat,
            idle: true,
            writer: WorkerStatus::Exited,
            ..s
        }),
    decreases n,
{
    if n > 0 {
        lemma_windows(s, (n - 1) as nat);
    }
}

/// One exchange between the client and the writer: the client is silent
/// for some seconds, then it sends a payload, which is handed to the writer
/// and forwarded with success.
pub struct Round {
    pub silence: nat,
    pub payload: Seq<u8>,
}

/// The events of one round.
pub open spec fn round_events(round: Round) -> Seq<Event> {
    Seq::new(windows_in(round.silence), |i: int| Event::WaitTimedOut) + seq![
        Event::Send(round.payload),
        Event::NextInbound,
        Event::ForwardDone(true),
    ]
}

/// The events of a sequence of rounds.
pub open spec fn rounds_events(rounds: Seq<Round>) -> Seq<Event>
    decreases rounds.len(),
{
    if rounds.len() == 0 {
        Seq::empty()
    } else {
        rounds_events(rounds.drop_last()) + round_events(rounds.last())
    }
}

/// A run can be cut in two.
pub proof fn lemma_run_concat(s: SessionState, first: Seq<Event>, second: Seq<Event>)
    ensures
        run(s, first + second) == run(run(s, first), second),
    decreases second.len(),
{
    if second.len() == 0 {
        assert(first + second =~= first);
    } else {
        lemma_run_concat(s, first, second.drop_last());
        assert((first + second).drop_last() =~= first + second.drop_last());
        assert((first + second).last() == second.last());
    }
}

/// A client that never stays silent for sixty seconds keeps its session,
/// however long this goes on.
///
/// From a writer that runs with an empty queue and no expired window, any
/// number of rounds, each with a silence below the threshold times the
/// length of a window before its payload is forwarded, leaves the writer
/// running, the flag down, the queue empty and the count of expired windows
/// at zero. A send every 29 seconds is such a run.
pub proof fn lemma_forwarding_keeps_alive(s: SessionState, rounds: Seq<Round>)
    requires
        s.wf(),
        s.writer is Running,
        s.inbound.len() == 0,
        s.timeouts == 0,
        forall|i: int| 0 <= i < rounds.len() ==> (#[trigger] rounds[i]).silence < IDLE_THRESHOLD * TIMEOUT,
    ensures
        run(s, rounds_events(rounds)).writer is Running,
        !run(s, rounds_events(rounds)).idle,
        run(s, rounds_events(rounds)).timeouts == 0,
        run(s, rounds_events(rounds)).inbound.len() == 0,
        run(s, rounds_events(rounds)).reader == s.reader,
    decreases rounds.len(),
{
    if rounds.len() > 0 {
        let init = rounds_events(rounds.drop_last());
        let round = rounds.last();
        assert forall|i: int| 0 <= i < rounds.drop_last().len() implies (
        #[trigger] rounds.drop_last()[i]).silence < IDLE_THRESHOLD * TIMEOUT by {
            assert(rounds.drop_last()[i] == rounds[i]);
        }
        lemma_forwarding_keeps_alive(s, rounds.drop_last());
        let mid = run(s, init);
        lemma_run_wf(s, init);
        let waits = Seq::new(windows_in(round.silence), |i: int| Event::WaitTimedOut);
        let forward = seq![Event::Send(round.payload), Event::NextInbound, Event::ForwardDone(true)];
        lemma_run_concat(s, init, round_events(round));
        lemma_run_concat(mid, waits, forward);
        lemma_run_windows(mid, windows_in(round.silence));
        lemma_windows(mid, windows_in(round.silence));
        let s0 = run(mid, waits);
        lemma_run_three(s0, Event::Send(round.payload), Event::NextInbound, Event::ForwardDone(true));
        let s1 = s0.enqueue(round.payload);
        assert(s1.inbound =~= seq![round.payload]);
        assert(s1.dequeue().inbound =~= Seq::<Seq<u8>>::empty());
    }
}

/// A run of `n` expired windows and nothing else.
proof fn lemma_run_windows(s: SessionState, n: nat)
    ensures
        run(s, Seq::new(n, |i: int| Event::WaitTimedOut)) == after_windows(s, n),
    decreases n,
{
    let events = Seq::new(n, |i: int| Event::WaitTimedOut);
    if n > 0 {
        lemma_run_windows(s, (n - 1) as nat);
        assert(events.drop_last() =~= Seq::new((n - 1) as nat, |i: int| Event::WaitTimedOut));
        assert(events.last() == Event::WaitTimedOut);
    }
}

/// The session after three events.
proof fn lemma_run_three(s: SessionState, a: Event, b: Event, c: Event)
    ensures
        run(s, seq![a, b, c]) == step(step(step(s, a), b), c),
{
    let abc = seq![a, b, c];
    let ab = seq![a, b];
    let one = seq![a];
    assert(abc.drop_last() =~= ab);
    assert(ab.drop_last() =~= one);
    assert(one.drop_last() =~= Seq::<Event>::empty());
    assert(run(s, one.drop_last()) == s);
    assert(run(s, one) == step(s, a));
    assert(run(s, ab) == step(run(s, ab.drop_last()), b));
    assert(run(s, abc) == step(run(s, abc.drop_last()), c));
}

/// The outbound queue after the dispatcher has taken `n` replies off it.
pub open spec fn drained(q: OutboundState, n: nat) -> OutboundState
    decreases n,
{
    if n == 0 {
        q
    } else {
        drained(q, (n - 1) as nat).dequeue()
    }
}

/// The dispatcher takes the replies off the queue oldest first: after `n` of
/// them, the queue holds the rest, unchanged and in order.
pub proof fn lemma_drained(q: OutboundState, n: nat)
    requires
        q.wf(),
        q.open,
        n <= q.items.len(),
    ensures
        drained(q, n).open,
        drained(q, n).items == q.items.subrange(n as int, q.items.len() as int),
        n < q.items.len() ==> drained(q, n).front() == Some(q.items[n as int]),
    decreases n,
{
    if n == 0 {
        assert(q.items.subrange(0, q.items.len() as int) =~= q.items);
    } else {
        lemma_drained(q, (n - 1) as nat);
        let before = drained(q, (n - 1) as nat);
        assert(before.items.drop_first() =~= q.items.subrange(n as int, q.items.len() as int));
    }
}

/// A reply goes back to the client of the session that received it, with
/// its bytes as they came.
///
/// The reply that a session makes of a datagram carries the session's
/// client address and the datagram's bytes. On an open queue it goes behind
/// the replies that wait there and changes none of them, whichever session
/// they are from; and once the dispatcher has written those, the next reply
/// that it takes is this one.
pub proof fn lemma_reply_routing(s: SessionState, q: OutboundState, bytes: Seq<u8>)
    requires
        q.wf(),
        q.open,
    ensures
        s.tag(bytes).client == s.client,
        s.tag(bytes).payload == bytes,
        q.push(s.tag(bytes)).wf(),
        q.push(s.tag(bytes)).items.len() == q.items.len() + 1,
        forall|i: int|
            0 <= i < q.items.len() ==> (#[trigger] q.push(s.tag(bytes)).items[i]) == q.items[i],
        drained(q.push(s.tag(bytes)), q.items.len()).front() == Some(s.tag(bytes)),
{
    lemma_drained(q.push(s.tag(bytes)), q.items.len());
}

/// A reply that joins the queue does not disturb the one that the
/// dispatcher takes: on a queue that holds a reply, to push and then take
/// is to take and then push.
pub proof fn lemma_push_behind(q: OutboundState, reply: Reply)
    requires
        q.wf(),
        q.items.len() > 0,
    ensures
        q.push(reply).front() == q.front(),
        q.push(reply).dequeue() == q.dequeue().push(reply),
{
    assert(q.push(reply).items.drop_first() =~= q.items.drop_first().push(reply));
}

/// Every step of the dispatcher and every push leaves the outbound queue
/// well-formed, and a queue that has closed stays closed.
pub proof fn lemma_outbound_wf(q: OutboundState, reply: Reply, ok: bool)
    requires
        q.wf(),
    ensures
        OutboundState::fresh().wf(),
        q.push(reply).wf(),
        q.dequeue().wf(),
        q.write_done(ok).wf(),
        !q.open ==> !q.push(reply).open && !q.dequeue().open && !q.write_done(ok).open,
{
}

/// The run holds two expired windows with no successful forward between
/// them.
pub open spec fn two_windows_in_a_row(events: Seq<Event>) -> bool {
    exists|i: int, j: int|
        0 <= i < j < events.len() && (#[trigger] events[i]) is WaitTimedOut && (
        #[trigger] events[j]) is WaitTimedOut && no_forward_between(events, i, j)
}

/// No write to the relay endpoint ends with success after event `i` and
/// before event `j`.
pub open spec fn no_forward_between(events: Seq<Event>, i: int, j: int) -> bool {
    forall|k: int| i < k < j ==> (#[trigger] events[k]) != Event::ForwardDone(true)
}

/// The run holds an expired window with no successful forward after it.
pub open spec fn window_open_at_end(events: Seq<Event>) -> bool {
    exists|i: int|
        0 <= i < events.len() && (#[trigger] events[i]) is WaitTimedOut && no_forward_between(
            events,
            i,
            events.len() as int,
        )
}

/// Only two expired windows in a row bring a session down.
///
/// From a writer that runs with no expired window, the idle flag is up after
/// a run only if the run holds two expired windows with no successful
/// forward between them. So a client that sends within every other window
/// keeps the session for as long as it likes.
pub proof fn lemma_idle_needs_two_windows(s: SessionState, events: Seq<Event>)
    requires
        s.wf(),
        s.writer is Running,
        s.timeouts == 0,
    ensures
        run(s, events).idle ==> two_windows_in_a_row(events),
        run(s, events).writer is Running && run(s, events).timeouts >= 1 ==> window_open_at_end(
            events,
        ),
    decreases events.len(),
{
    if events.len() > 0 {
        let init = events.drop_last();
        let e = events.last();
        let last = events.len() - 1;
        let before = run(s, init);
        let after = step(before, e);
        lemma_idle_needs_two_windows(s, init);
        lemma_run_wf(s, init);
        lemma_step_one_way(before, e);
        assert forall|k: int| 0 <= k < last implies init[k] == events[k] by {}
        if after.idle {
            if before.idle {
                let (i, j) = choose|i: int, j: int|
                    0 <= i < j < init.len() && (#[trigger] init[i]) is WaitTimedOut && (
                    #[trigger] init[j]) is WaitTimedOut && no_forward_between(init, i, j);
                assert(events[i] is WaitTimedOut && events[j] is WaitTimedOut);
                assert(no_forward_between(events, i, j));
            } else {
                let i = choose|i: int|
                    0 <= i < init.len() && (#[trigger] init[i]) is WaitTimedOut
                        && no_forward_between(init, i, init.len() as int);
                assert(events[i] is WaitTimedOut && events[last] is WaitTimedOut);
                assert(no_forward_between(events, i, last));
            }
        }
        if after.writer is Running && after.timeouts >= 1 {
            if e is WaitTimedOut && before.inbound.len() == 0 {
                assert(events[last] is WaitTimedOut);
                assert(no_forward_between(events, last, events.len() as int));
            } else {
                assert(before.timeouts >= 1);
                let i = choose|i: int|
                    0 <= i < init.len() && (#[trigger] init[i]) is WaitTimedOut
                        && no_forward_between(init, i, init.len() as int);
                assert(events[i] is WaitTimedOut);
                assert(e != Event::ForwardDone(true));
                assert(no_forward_between(events, i, events.len() as int));
            }
        }
    }
}

} // verus!
