//! Installation coordinator for Voidbox.
//!
//! A foreground state machine shows one installation flow while a background
//! worker performs it; the two talk only through a one-way stream of status
//! messages. This crate holds the decisions of both sides as verified state
//! machines over plain values: the worker as a step function from the outcome
//! of its last action to the messages to emit and the next action to perform,
//! the coordinator as a transition function over status messages and button
//! presses, together with the content of the view it shows.

pub mod attempt;
pub mod coordinator;
pub mod request;
pub mod session;
pub mod status;
pub mod text;
pub mod worker;
