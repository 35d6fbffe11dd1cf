//! The session object.
//!
//! A [`Forwarder`] is one relay session. It keeps the queue of client
//! payloads, the writer's count of expired wait windows, the idle flag and
//! the status of both workers, and it decides every step of the two worker
//! loops. The caller does the I/O: it writes what [`Forwarder::next_inbound`]
//! hands out to the relay endpoint, reads the relay endpoint, waits on the
//! queue, and reports each outcome to the session.

use crate::addr::UdpAddr;
use crate::outbound::{OutboundItem, OutboundQueue};
use crate::session::SessionState;
use crate::worker::{Decision, WorkerStatus};
use crate::IDLE_THRESHOLD;
use std::collections::VecDeque;
use vstd::prelude::*;

verus! {

/// How the attempt to bind a relay endpoint through the proxy ended.
#[derive(Clone, Copy, Debug, PartialEq, Eq, Structural)]
pub enum RelayBind {
    /// The proxy granted the association: the relay endpoint exists.
    Bound,
    /// The proxy could not be reached or refused the association.
    Refused,
}

/// Why no session was created.
#[derive(Clone, Copy, Debug, PartialEq, Eq, Structural)]
pub enum CreateError {
    /// No relay endpoint could be bound through the proxy.
    RelayBindFailed,
}

/// The inbound queue is closed: the writer of the session has stopped, and
/// the session is dead. The payload that was not accepted comes back in it.
#[derive(Clone, Debug, PartialEq, Eq)]
pub struct QueueClosed(pub Vec<u8>);

/// The byte strings of a queue of payloads, in the queue's order.
pub open spec fn payloads(queue: Seq<Vec<u8>>) -> Seq<Seq<u8>> {
    queue.map_values(|payload: Vec<u8>| payload@)
}

/// What the two workers of a session keep besides the queue.
#[derive(Clone, Copy, Debug)]
struct Control {
    timeouts: u64,
    idle: bool,
    writer: WorkerStatus,
    reader: WorkerStatus,
}

/// One relay session, for one (client address, remote target) pair.
#[derive(Debug)]
pub struct Forwarder {
    client: UdpAddr,
    target: String,
    inbound: VecDeque<Vec<u8>>,
    control: Control,
}

impl View for Forwarder {
    type V = SessionState;

    closed spec fn view(&self) -> SessionState {
        SessionState {
            client: self.client,
            target: self.target@,
            inbound: payloads(self.inbound@),
            timeouts: self.control.timeouts as nat,
            idle: self.control.idle,
            writer: self.control.writer,
            reader: self.control.reader,
        }
    }
}

impl Forwarder {
    #[verifier::type_invariant]
    pub open spec fn well_formed(self) -> bool {
        self@.wf()
    }

    /// The local address to which every relay endpoint is bound: any
    /// interface, any free port. Through which interface the remote target
    /// can be reached is not known, so none is chosen.
    pub fn relay_bind_addr() -> (addr: UdpAddr)
        ensures
            addr == (UdpAddr::V4 { ipv4: 0, port: 0 }),
    {
        UdpAddr::V4 { ipv4: 0, port: 0 }
    }

    /// Creates the session for the client at `src_addr` and the target
    /// `remote_addr`, given how the bind of its relay endpoint ended.
    ///
    /// A failed bind is fatal: there is no session, and nothing is retried.
    /// After a successful one the session starts with both workers running,
    /// an empty queue, no expired window and the idle flag down.
    pub fn new(remote_addr: String, src_addr: UdpAddr, relay: RelayBind) -> (r: Result<
        Forwarder,
        CreateError,
    >)
        ensures
            r is Ok <==> relay is Bound,
            r matches Ok(session) ==> session@ == SessionState::fresh(src_addr, remote_addr@),
            r matches Err(e) ==> e is RelayBindFailed,
    {
        match relay {
            RelayBind::Refused => Err(CreateError::RelayBindFailed),
            RelayBind::Bound => {
                let session = Forwarder {
                    client: src_addr,
                    target: remote_addr,
                    inbound: VecDeque::new(),
                    control: Control {
                        timeouts: 0,
                        idle: false,
                        writer: WorkerStatus::Running,
                        reader: WorkerStatus::Running,
                    },
                };
                assert(session@.inbound =~= Seq::<Seq<u8>>::empty());
                Ok(session)
            },
        }
    }

    /// Queues a client payload for the writer. Does no I/O and never waits.
    ///
    /// Succeeds as long as the writer is running. Once the writer has
    /// stopped the session is dead: the payload comes back in the error and
    /// the caller has to create a new session.
    pub fn send_upstream(&mut self, data: Vec<u8>) -> (r: Result<(), QueueClosed>)
        ensures
            final(self)@ == old(self)@.enqueue(data@),
            r is Ok <==> old(self)@.writer is Running,
            r matches Err(closed) ==> closed.0 == data,
    {
        proof {
            use_type_invariant(&*self);
        }
        if self.control.writer == WorkerStatus::Running {
            let ghost before = self.inbound@;
            let mut queue: VecDeque<Vec<u8>> = VecDeque::new();
            std::mem::swap(&mut queue, &mut self.inbound);
            queue.push_back(data);
            self.inbound = queue;
            assert(payloads(before.push(data)) =~= payloads(before).push(data@));
            Ok(())
        } else {
            Err(QueueClosed(data))
        }
    }

    /// Writer: takes the oldest queued payload, to be written to the relay
    /// endpoint addressed to [`Forwarder::remote_target`]. `None` says that
    /// nothing is queued (or that the writer has stopped): the writer then
    /// waits, for at most one window.
    pub fn next_inbound(&mut self) -> (r: Option<Vec<u8>>)
        ensures
            final(self)@ == old(self)@.dequeue(),
            r is Some <==> old(self)@.front() is Some,
            r matches Some(payload) ==> Some(payload@) == old(self)@.front(),
    {
        proof {
            use_type_invariant(&*self);
        }
        let ghost before = self.inbound@;
        let mut queue: VecDeque<Vec<u8>> = VecDeque::new();
        std::mem::swap(&mut queue, &mut self.inbound);
        let r = queue.pop_front();
        self.inbound = queue;
        proof {
            if before.len() > 0 {
                assert(payloads(before.subrange(1, before.len() as int)) =~= payloads(
                    before,
                ).drop_first());
            }
        }
        r
    }

    /// Writer: records how the write of a payload to the relay endpoint
    /// ended. A successful forward sets the count of expired windows back to
    /// zero. A failed write is fatal: the writer stops and the queue closes.
    pub fn forward_done(&mut self, ok: bool) -> (d: Decision)
        ensures
            final(self)@ == old(self)@.forward_done(ok),
            d == final(self)@.writer.decision(),
    {
        proof {
            use_type_invariant(&*self);
        }
        let control = self.control;
        if control.writer == WorkerStatus::Running {
            if ok {
                self.control = Control { timeouts: 0, ..control };
            } else {
                self.inbound = VecDeque::new();
                self.control = Control { writer: WorkerStatus::Failed, ..control };
            }
        }
        assert(self@.inbound =~= old(self)@.forward_done(ok).inbound);
        self.control.writer.to_decision()
    }

    /// Writer: records that a wait window has ended with nothing received.
    ///
    /// The window counts, and with the second one in a row the writer raises
    /// the idle flag and leaves its loop. While a payload is queued the
    /// window has not expired: nothing changes and the writer goes on.
    pub fn wait_timed_out(&mut self) -> (d: Decision)
        ensures
            final(self)@ == old(self)@.wait_timed_out(),
            d == final(self)@.writer.decision(),
    {
        proof {
            use_type_invariant(&*self);
        }
        let control = self.control;
        if control.writer == WorkerStatus::Running && self.inbound.len() == 0 {
            let timeouts: u64 = control.timeouts + 1;
            if timeouts >= IDLE_THRESHOLD {
                self.control =
                Control { timeouts, idle: true, writer: WorkerStatus::Exited, ..control };
            } else {
                self.control = Control { timeouts, ..control };
            }
        }
        self.control.writer.to_decision()
    }

    /// Reader: records that a read on the relay endpoint has timed out or
    /// failed. The reader leaves its loop if the idle flag is up; it reads
    /// again if not, for silence from the target is no sign of idleness.
    pub fn read_failed(&mut self) -> (d: Decision)
        ensures
            final(self)@ == old(self)@.read_failed(),
            d == final(self)@.reader.decision(),
    {
        proof {
            use_type_invariant(&*self);
        }
        let control = self.control;
        if control.reader == WorkerStatus::Running && control.idle {
            self.control = Control { reader: WorkerStatus::Exited, ..control };
        }
        self.control.reader.to_decision()
    }

    /// Reader: takes in a datagram of `n` bytes that was read from the relay
    /// endpoint into `buf`.
    ///
    /// The first `n` bytes of `buf` become the payload of a reply tagged
    /// with the client's address, which goes on the outbound queue. If the
    /// queue does not take it, the dispatcher is gone: that is fatal to the
    /// reader. A reader that has stopped takes nothing in.
    pub fn reply_received(&mut self, buf: &[u8], n: usize, outbound: &mut OutboundQueue) -> (d:
        Decision)
        requires
            n <= buf@.len(),
        ensures
            final(self)@ == old(self)@.reply_queued(old(outbound)@.open),
            final(outbound)@ == (if old(self)@.reader is Running {
                old(outbound)@.push(old(self)@.tag(buf@.subrange(0, n as int)))
            } else {
                old(outbound)@
            }),
            d == final(self)@.reader.decision(),
    {
        proof {
            use_type_invariant(&*self);
        }
        let control = self.control;
        if control.reader == WorkerStatus::Running {
            let payload = vstd::slice::slice_to_vec(vstd::slice::slice_subrange(buf, 0, n));
            let item = OutboundItem { client: self.client, payload };
            match outbound.push(item) {
                Ok(()) => {},
                Err(_) => {
                    self.control = Control { reader: WorkerStatus::Failed, ..control };
                },
            }
        }
        self.control.reader.to_decision()
    }

    /// The address of the client, to which the replies go.
    pub fn client(&self) -> (addr: UdpAddr)
        ensures
            addr == self@.client,
    {
        self.client
    }

    /// The remote target, to which the writer addresses every payload.
    pub fn remote_target(&self) -> (target: &str)
        ensures
            target@ == self@.target,
    {
        self.target.as_str()
    }

    /// The number of payloads that wait for the writer.
    pub fn pending(&self) -> (n: usize)
        ensures
            n == self@.inbound.len(),
    {
        self.inbound.len()
    }

    /// The number of wait windows that have expired since the last
    /// successful forward.
    pub fn timeouts(&self) -> (n: u64)
        ensures
            n == self@.timeouts,
    {
        self.control.timeouts
    }

    /// Whether the idle flag is up.
    pub fn idle_timed_out(&self) -> (idle: bool)
        ensures
            idle == self@.idle,
    {
        self.control.idle
    }

    /// The status of the writer.
    pub fn writer_status(&self) -> (status: WorkerStatus)
        ensures
            status == self@.writer,
    {
        self.control.writer
    }

    /// The status of the reader.
    pub fn reader_status(&self) -> (status: WorkerStatus)
        ensures
            status == self@.reader,
    {
        self.control.reader
    }

    /// Whether both workers are running.
    pub fn is_active(&self) -> (active: bool)
        ensures
            active == self@.active(),
    {
        self.control.writer == WorkerStatus::Running && self.control.reader
            == WorkerStatus::Running
    }

    /// Whether both workers have stopped, so that the session can be
    /// dropped.
    pub fn is_terminated(&self) -> (terminated: bool)
        ensures
            terminated == self@.terminated(),
    {
        self.control.writer != WorkerStatus::Running && self.control.reader
            != WorkerStatus::Running
    }
}

} // verus!
