//! Core of a terminal dashboard for nearby Bluetooth devices.
//!
//! The crate verifies the action-dispatch event loop of the dashboard: raw
//! input and timer signals become a queue of semantic actions, each action is
//! broadcast to every UI component, and side-effecting actions (device
//! connect/disconnect, quit, alert dismissal) are handled by the dispatcher
//! itself. Terminal drawing, the input-polling thread and the Bluetooth stack
//! are unverified collaborators that live outside this crate; they exchange
//! plain values with the types defined here.

pub mod actions;
pub mod app;
pub mod bluetooth;
pub mod components;
pub mod events;
pub mod layouts;
