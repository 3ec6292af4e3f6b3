//! Core of a device-resident devtools daemon: a single-consumer event
//! dispatch loop that multiplexes hardware events, timer ticks, OS signals
//! and RPC commands into one ordered queue, owns the presentation state
//! exclusively, and performs one state transition per message.
//!
//! Everything that decides — page navigation, the transition table, the
//! render gate, producer failure policy, lock classification — lives here
//! with contracts. The host process wires these decisions to the device
//! SDK, the async runtime and the network.

pub mod client;
pub mod debug;
pub mod dispatch;
pub mod errors;
pub mod event;
pub mod lock;
pub mod msg;
pub mod page;
pub mod producers;
pub mod queue;
pub mod render;
pub mod rpc;
pub mod status;
pub mod wifi;
