//! Packet framing and dispatch for a plug-in that sits between a game client
//! and its network stream.
//!
//! The host hands every inbound packet to the plug-in before the client sees
//! it. This crate holds the decisions the plug-in makes about such a packet:
//! how long the frame is, which registered handler is to see it, and what is
//! emitted afterwards. Everything that has to cross the host boundary is
//! passed in and out as plain values, so the crate itself performs no I/O.

pub mod dispatch;
pub mod entity;
pub mod error;
pub mod framing;
pub mod laws;
pub mod plugin;
pub mod registry;
