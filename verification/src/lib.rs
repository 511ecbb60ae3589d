//! Route tracking core: coordinate unification, event-flag lookup, the
//! sampling and event-correlation state machine, and the streaming
//! client's protocol and connection state machine.
//!
//! Positions arrive local to a world tile and are reduced to one global
//! coordinate space; a stream of noisy, sometimes-invalid samples is
//! turned into discrete death, boundary-crossing and item events; and
//! confirmed crossings are relayed to a remote service over an unreliable
//! link with authentication and backoff. Reading the raw bytes out of the
//! monitored process, the screen, and the sockets themselves live outside
//! this crate; everything here is pure logic over plain values, with its
//! behaviour stated in contracts.

// Text utilities.
pub mod json;
pub mod numtext;
pub mod strtext;

// Trusted calls into outside crates and unspecified std.
pub mod outside;

// The core: coordinates, zones, flags, goods, sessions, streaming.
pub mod config;
pub mod coordinate_transformer;
pub mod flag_index;
pub mod goods_events;
pub mod route;
pub mod tracker;
pub mod websocket;
pub mod zone_names;
