//! The engine of a minimal NTP server, without its sockets and threads.
//!
//! The library parses NTP requests, builds the responses from a reference
//! state, and decides what a worker, the server that owns the workers and
//! the controller in front of the server do next. Receiving, sending,
//! sleeping and running threads are left to the program around it, which
//! reports what happened and carries out what it is told.

pub mod addr;
pub mod clock;
pub mod controller;
pub mod frac;
pub mod packet;
pub mod server;
pub mod state;
pub mod timestamp;
pub mod wire;
pub mod worker;

pub use crate::addr::PeerAddr;
pub use crate::controller::NtpServerController;
pub use crate::frac::NtpFracValue;
pub use crate::packet::{ErrorKind, NtpPacket};
pub use crate::server::{NtpServer, ServerAction, ServerEvent, ServerPhase};
pub use crate::state::NtpServerState;
pub use crate::timestamp::NtpTimestamp;
pub use crate::worker::{Worker, WorkerAction, WorkerEvent, WorkerPhase};
