//! The mathematical model of one relay session.
//!
//! A session is the relay state of one (client address, remote target) pair:
//! the queue of client payloads that wait to be forwarded, the writer that
//! forwards them and counts idle windows, the reader that waits for replies,
//! and the one-shot idle flag by which the writer tells the reader to stop.

use crate::addr::UdpAddr;
use crate::outbound::Reply;
use crate::worker::WorkerStatus;
use crate::IDLE_THRESHOLD;
use vstd::prelude::*;

verus! {

/// The state of a session, as the contracts speak of it.
pub struct SessionState {
    /// Where replies are sent. Set at creation, never changed.
    pub client: UdpAddr,
    /// Where the writer forwards to. Set at creation, never changed.
    pub target: Seq<char>,
    /// The payloads that were accepted and not yet handed to the writer,
    /// oldest first.
    pub inbound: Seq<Seq<u8>>,
    /// The wait windows that have expired since the last successful forward.
    pub timeouts: nat,
    /// The idle flag, raised by the writer and polled by the reader.
    pub idle: bool,
    pub writer: WorkerStatus,
    pub reader: WorkerStatus,
}

impl SessionState {
    /// What holds of every session that was created and then only stepped.
    pub open spec fn wf(self) -> bool {
        &&& self.timeouts <= IDLE_THRESHOLD
        &&& self.writer is Running ==> self.timeouts < IDLE_THRESHOLD
        &&& self.idle <==> self.writer is Exited
        &&& !(self.writer is Running) ==> self.inbound.len() == 0
        &&& self.reader is Exited ==> self.idle
    }

    /// The session as it is created: both workers running, nothing queued,
    /// no window expired, the flag down.
    pub open spec fn fresh(client: UdpAddr, target: Seq<char>) -> SessionState {
        SessionState {
            client,
            target,
            inbound: Seq::empty(),
            timeouts: 0,
            idle: false,
            writer: WorkerStatus::Running,
            reader: WorkerStatus::Running,
        }
    }

    /// Both workers are running.
    pub open spec fn active(self) -> bool {
        self.writer is Running && self.reader is Running
    }

    /// The writer has raised the flag and left; the reader has not seen it yet.
    pub open spec fn draining(self) -> bool {
        self.idle && self.reader is Running
    }

    /// Neither worker is running.
    pub open spec fn terminated(self) -> bool {
        !(self.writer is Running) && !(self.reader is Running)
    }

    /// A client payload arrives. It joins the queue at the back while the
    /// writer is running; after that the queue is closed and nothing changes.
    pub open spec fn enqueue(self, payload: Seq<u8>) -> SessionState {
        if self.writer is Running {
            SessionState { inbound: self.inbound.push(payload), ..self }
        } else {
            self
        }
    }

    /// The payload that the writer forwards next, if there is one.
    pub open spec fn front(self) -> Option<Seq<u8>> {
        if self.writer is Running && self.inbound.len() > 0 {
            Some(self.inbound[0])
        } else {
            None
        }
    }

    /// The writer takes the oldest payload off the queue.
    pub open spec fn dequeue(self) -> SessionState {
        if self.front() is Some {
            SessionState { inbound: self.inbound.drop_first(), ..self }
        } else {
            self
        }
    }

    /// A write to the relay endpoint has ended. Success clears the count of
    /// expired windows. Failure is fatal to the writer, and what was still
    /// queued is lost with it.
    pub open spec fn forward_done(self, ok: bool) -> SessionState {
        if !(self.writer is Running) {
            self
        } else if ok {
            SessionState { timeouts: 0, ..self }
        } else {
            SessionState { writer: WorkerStatus::Failed, inbound: Seq::empty(), ..self }
        }
    }

    /// A wait window of the writer has ended. With a payload queued the
    /// window has not expired, and nothing changes. With none it counts, and
    /// at the threshold the writer raises the idle flag and leaves.
    pub open spec fn wait_timed_out(self) -> SessionState {
        if !(self.writer is Running) || self.inbound.len() > 0 {
            self
        } else if self.timeouts + 1 >= IDLE_THRESHOLD {
            SessionState {
                timeouts: self.timeouts + 1,
                idle: true,
                writer: WorkerStatus::Exited,
                ..self
            }
        } else {
            SessionState { timeouts: self.timeouts + 1, ..self }
        }
    }

    /// A read on the relay endpoint has timed out or failed. The reader
    /// leaves if the idle flag is up, and goes on reading if it is not.
    pub open spec fn read_failed(self) -> SessionState {
        if self.reader is Running && self.idle {
            SessionState { reader: WorkerStatus::Exited, ..self }
        } else {
            self
        }
    }

    /// The reply that the reader makes of the bytes of a datagram: the bytes
    /// as they are, tagged with the address of the session's client.
    pub open spec fn tag(self, bytes: Seq<u8>) -> Reply {
        Reply { client: self.client, payload: bytes }
    }

    /// The reader has tried to queue a reply for the dispatcher. That the
    /// reply could not be queued is fatal to the reader.
    pub open spec fn reply_queued(self, ok: bool) -> SessionState {
        if self.reader is Running && !ok {
            SessionState { reader: WorkerStatus::Failed, ..self }
        } else {
            self
        }
    }
}

} // verus!
