//! Device-state synchronization engine for wirelessly discoverable
//! power-controllable peripherals (VR tracking base stations).
//!
//! The engine tracks every discovered device in a single state store,
//! decodes the single-byte power telemetry each device reports, and
//! decides how scan events, poll readings and operator commands change
//! the store. All wireless transport, task scheduling and rendering is
//! left to the surrounding application; this crate holds the state
//! model and the decision logic, with contracts proved by Verus.

pub mod command;
pub mod frontend;
pub mod poll;
pub mod power;
pub mod scan;
pub mod store;
pub mod widgets;
