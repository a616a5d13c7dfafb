//! The relay between a JSON-RPC style protocol on one WebSocket connection
//! and the executor of the Bevy Remote Protocol (BRP).
//!
//! ```text
//! BRP client -> relay server -> WebSocket -> this relay -> executor
//! ```
//!
//! Every inbound frame is parsed and validated ([`request`]), classed as
//! single-shot or streaming ([`class`]) and either refused at once or
//! prepared for the executor with a response channel of its own ([`router`]).
//! One relay task per accepted request turns what the executor sends into
//! response frames ([`relay`], [`frame`]). The connection itself and the
//! connectivity that is shown to the outside are kept in [`connection`], the
//! endpoint in [`config`].
//!
//! The library decides and computes; it does not wait and does not touch the
//! socket. Its caller owns the socket and the executor's intake, hands over
//! what happened and does what it is told in return.

pub mod class;
pub mod config;
pub mod connection;
pub mod executor;
pub mod frame;
pub mod json;
pub mod relay;
pub mod request;
pub mod router;
pub mod text;

pub use config::{BrpWebSocketRelayPlugin, DEFAULT_RELAY_PATH};
pub use connection::BrpRelayStatus;
