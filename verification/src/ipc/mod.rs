//! The agent's control socket: which connections are in their handshake, how
//! their requests are framed, and how their responses are sent.

pub mod pending;
pub mod subscribers;
pub mod wire;

pub use self::pending::{IpcServer, PendingRequest, ResponseDisposition};
pub use self::subscribers::Subscribers;
pub use self::wire::{encode_status_push, send_request};
