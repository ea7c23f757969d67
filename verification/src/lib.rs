//! A transparent TCP relay, with its per-connection logic verified.
//!
//! The relay accepts client connections, dials a fixed destination for each
//! one, and shuttles bytes in both directions until both sides have closed.
//! The decisions that drive it — what to do with each read, when a flow is
//! over, when a connection counts as complete, when its sockets are closed —
//! live here as verified state machines; the process around it performs the
//! actual socket operations and feeds their outcomes back in as events.

pub mod acceptor;
pub mod copy;
pub mod session;
pub mod trace;

pub use copy::CopyAction;
pub use copy::CopyLoop;
pub use copy::CopyStatus;
pub use copy::Flow;
pub use copy::ReadEvent;
pub use copy::Termination;
