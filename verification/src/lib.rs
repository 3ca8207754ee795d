//! Control logic of a bridge between a home-automation message bus and
//! per-device audio-casting processes.
//!
//! The library decides; its caller carries out. Every function here is a pure
//! step from the present state and the latest event to the next state and the
//! next thing to do: start a process, wait, stop a process, publish a state.
//! The caller owns the processes and the bus session, performs each action and
//! reports how it went.
//!
//! - [`connect_airplay`]: the connector of one device, which decides in
//!   which order its two processes are started and stopped;
//!   [`lifecycle`]: what holds of every way a request to it can go.
//! - [`router`]: from a message on the bus to the connector it is for and
//!   back to the state to report; [`service`]: what holds of every way a
//!   command can be served.
//! - [`bootstrap`]: what a node does on the bus when it starts;
//!   [`discovery`]: the document that announces a device.
//! - [`bus`], [`topics`], [`config_types`]: payloads and messages, topic
//!   names, the configuration.

pub mod bootstrap;
pub mod bus;
pub mod config_types;
pub mod connect_airplay;
pub mod discovery;
pub mod lifecycle;
pub mod router;
pub mod service;
pub mod topics;
