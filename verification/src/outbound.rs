//! The outbound queue and the local dispatcher.
//!
//! One queue is shared by all sessions. Each session's reader puts the
//! replies it receives on it, tagged with the address of the session's
//! client; the one dispatcher takes them off, oldest first, and writes each
//! to the local socket, addressed to the client it is tagged with.

use crate::addr::UdpAddr;
use crate::worker::{Decision, WorkerStatus};
use std::collections::VecDeque;
use vstd::prelude::*;

verus! {

/// A reply on its way back to a client.
#[derive(Clone, Debug, PartialEq, Eq)]
pub struct OutboundItem {
    /// The client that the reply is for.
    pub client: UdpAddr,
    /// The bytes of the reply.
    pub payload: Vec<u8>,
}

/// An [`OutboundItem`] as the contracts speak of it.
pub struct Reply {
    pub client: UdpAddr,
    pub payload: Seq<u8>,
}

impl View for OutboundItem {
    type V = Reply;

    open spec fn view(&self) -> Reply {
        Reply { client: self.client, payload: self.payload@ }
    }
}

/// The state of the outbound queue, as the contracts speak of it.
pub struct OutboundState {
    /// The replies that wait for the dispatcher, oldest first.
    pub items: Seq<Reply>,
    /// Whether the dispatcher is running. Once it has stopped, the queue
    /// takes nothing more.
    pub open: bool,
}

impl OutboundState {
    /// A closed queue holds nothing.
    pub open spec fn wf(self) -> bool {
        !self.open ==> self.items.len() == 0
    }

    /// The queue as it is created: open and empty.
    pub open spec fn fresh() -> OutboundState {
        OutboundState { items: Seq::empty(), open: true }
    }

    /// A reply joins the queue at the back, if the queue is open.
    pub open spec fn push(self, reply: Reply) -> OutboundState {
        if self.open {
            OutboundState { items: self.items.push(reply), ..self }
        } else {
            self
        }
    }

    /// The reply that the dispatcher writes next, if there is one.
    pub open spec fn front(self) -> Option<Reply> {
        if self.open && self.items.len() > 0 {
            Some(self.items[0])
        } else {
            None
        }
    }

    /// The dispatcher takes the oldest reply off the queue.
    pub open spec fn dequeue(self) -> OutboundState {
        if self.front() is Some {
            OutboundState { items: self.items.drop_first(), ..self }
        } else {
            self
        }
    }

    /// A write to the local socket has ended. Failure stops the dispatcher
    /// for good: the queue closes and what it held is lost.
    pub open spec fn write_done(self, ok: bool) -> OutboundState {
        if ok {
            self
        } else {
            OutboundState { items: Seq::empty(), open: false }
        }
    }

    /// The status of the dispatcher.
    pub open spec fn dispatcher(self) -> WorkerStatus {
        if self.open {
            WorkerStatus::Running
        } else {
            WorkerStatus::Failed
        }
    }
}

/// The views of the items of a queue, in the queue's order.
pub open spec fn replies(items: Seq<OutboundItem>) -> Seq<Reply> {
    items.map_values(|item: OutboundItem| item@)
}

/// The process-wide queue of replies, with the dispatcher's end of it.
#[derive(Debug)]
pub struct OutboundQueue {
    items: VecDeque<OutboundItem>,
    open: bool,
}

impl View for OutboundQueue {
    type V = OutboundState;

    closed spec fn view(&self) -> OutboundState {
        OutboundState { items: replies(self.items@), open: self.open }
    }
}

impl OutboundQueue {
    #[verifier::type_invariant]
    pub open spec fn well_formed(self) -> bool {
        self@.wf()
    }

    /// An open, empty queue.
    pub fn new() -> (queue: OutboundQueue)
        ensures
            queue@ == OutboundState::fresh(),
    {
        let queue = OutboundQueue { items: VecDeque::new(), open: true };
        assert(queue@.items =~= Seq::<Reply>::empty());
        queue
    }

    /// Puts a reply on the queue. With the dispatcher stopped the queue
    /// takes nothing, and the reply comes back.
    pub fn push(&mut self, item: OutboundItem) -> (r: Result<(), OutboundItem>)
        ensures
            final(self)@ == old(self)@.push(item@),
            r is Ok <==> old(self)@.open,
            r matches Err(back) ==> back == item,
    {
        if self.open {
            let ghost before = self.items@;
            let mut items: VecDeque<OutboundItem> = VecDeque::new();
            std::mem::swap(&mut items, &mut self.items);
            items.push_back(item);
            self.items = items;
            assert(replies(before.push(item)) =~= replies(before).push(item@));
            Ok(())
        } else {
            Err(item)
        }
    }

    /// Takes the oldest reply off the queue, for the dispatcher to write to
    /// the local socket, addressed to the client that the reply names.
    pub fn next_reply(&mut self) -> (r: Option<OutboundItem>)
        ensures
            final(self)@ == old(self)@.dequeue(),
            r is Some <==> old(self)@.front() is Some,
            r matches Some(item) ==> Some(item@) == old(self)@.front(),
    {
        proof {
            use_type_invariant(&*self);
        }
        let ghost before = self.items@;
        let mut items: VecDeque<OutboundItem> = VecDeque::new();
        std::mem::swap(&mut items, &mut self.items);
        let r = items.pop_front();
        self.items = items;
        proof {
            if before.len() > 0 {
                assert(replies(before.subrange(1, before.len() as int)) =~= replies(
                    before,
                ).drop_first());
            }
        }
        r
    }

    /// Records how a write to the local socket ended. A failed write stops
    /// the dispatcher at once and for good.
    pub fn local_write_done(&mut self, ok: bool) -> (d: Decision)
        ensures
            final(self)@ == old(self)@.write_done(ok),
            d == final(self)@.dispatcher().decision(),
    {
        proof {
            use_type_invariant(&*self);
        }
        if !ok {
            self.items = VecDeque::new();
            self.open = false;
        }
        assert(self@.items =~= old(self)@.write_done(ok).items);
        if self.open {
            Decision::Continue
        } else {
            Decision::Abort
        }
    }

    /// The number of replies that wait for the dispatcher.
    pub fn len(&self) -> (n: usize)
        ensures
            n == self@.items.len(),
    {
        self.items.len()
    }

    /// Whether the dispatcher is running, so that the queue takes replies.
    pub fn is_open(&self) -> (open: bool)
        ensures
            open == self@.open,
    {
        self.open
    }
}

} // verus!
