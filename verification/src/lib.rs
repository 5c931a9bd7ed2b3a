//! Host-side session control for an isolated ("enclave") SQL execution
//! context.
//!
//! The untrusted host drives a line-oriented SQL loop against a database
//! engine that runs inside a hardware-isolated context.  Every call across
//! the trust boundary yields a two-layer status: a transport layer (did the
//! call mechanism itself complete) and, only when transport succeeded, an
//! application layer (did the requested database operation succeed).  This
//! library holds the decision logic of that host: the session lifecycle
//! state machine, the classification of boundary-call statuses, and the
//! classification of input lines.  The surrounding process performs the
//! actual boundary calls and terminal I/O and feeds their outcomes back in
//! as events.

pub mod command;
pub mod laws;
pub mod session;
pub mod status;
