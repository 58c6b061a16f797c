//! A background agent that keeps a desktop session from going idle.
//!
//! The library holds the agent's protocol logic: which advertised globals it
//! binds, the order in which it creates, configures and destroys its protocol
//! objects, and the toggle state machine driven by process signals.
pub mod capability;
pub mod client;
pub mod protocol;
pub mod agent;
