//! Bridge from a Bluetooth LE heart-rate sensor to OSC messages.
//!
//! The library holds the decisions of the bridge: which peripheral to pick,
//! which characteristic to subscribe to, how a notification becomes a
//! percentage, which messages are published, and the connection lifecycle as
//! a state machine. The radio, the socket and the timers stay with the caller.
pub mod ble;
pub mod heart_rate;
pub mod discovery;
pub mod error;
pub mod osc;
pub mod session;
