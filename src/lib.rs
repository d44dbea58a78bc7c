//! Decision logic of a one-connection WebSocket chat relay.
//!
//! The relay connects once, announces the connection to the host interface,
//! republishes every inbound text frame as a chat event, and writes text typed
//! by the user as single text frames. The socket work itself is done by the
//! caller; this crate decides what each outcome leads to.
pub mod address;
pub mod event;
pub mod frame;
pub mod outbound;
pub mod pump;
