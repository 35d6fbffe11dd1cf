//! Verified core of a per-client UDP relay session.
//!
//! A session tunnels the datagrams of one client to one remote target through
//! a SOCKS5 UDP relay endpoint and routes the replies back to that client.
//! This crate holds the decisions of such a session as plain state machines:
//! it performs no I/O, starts no thread and reads no clock. The program
//! around it owns the sockets and the timers, reports what happened, and
//! carries out what the session decides.
//!
//! - [`Forwarder`] is one session: the queue of client payloads, the writer
//!   that forwards them and watches for idleness, and the reader that tags
//!   the replies.
//! - [`OutboundQueue`] is the queue of replies that all sessions share, with
//!   the dispatcher that writes them back to the clients.
//! - [`SessionState`] and [`OutboundState`] are the models that the
//!   contracts are stated over; [`trace`] runs a session over sequences of
//!   events, and [`laws`] proves what holds of all of them.

use vstd::prelude::*;

pub mod addr;
pub mod forwarder;
pub mod laws;
pub mod outbound;
pub mod session;
pub mod trace;
pub mod worker;

pub use addr::UdpAddr;
pub use forwarder::{CreateError, Forwarder, QueueClosed, RelayBind};
pub use outbound::{OutboundItem, OutboundQueue, OutboundState, Reply};
pub use session::SessionState;
pub use worker::{Decision, WorkerStatus};

verus! {

/// Length in seconds of one wait window: the deadline of a read on the relay
/// endpoint and of a wait on the inbound queue.
pub const TIMEOUT: u64 = 30;

/// Number of consecutive expired wait windows after which the writer declares
/// the session idle.
pub const IDLE_THRESHOLD: u64 = 2;

/// Size in bytes of the reader's receive buffer, the largest UDP payload.
pub const RECV_BUFFER_SIZE: usize = 65536;

} // verus!
