//! A small multi-elevator building, modelled as a set of message-driven
//! state machines: doors, elevators, floor relays, passengers and the
//! dispatcher that assigns elevators to requests.
//!
//! Every machine here is a pure step function from its state and one incoming
//! event to its next state and the messages it emits. Running the machines as
//! concurrent actors over channels, with their timeouts and dwells, is left to
//! the caller.
pub mod config;
pub mod control;
pub mod door;
pub mod elevator;
pub mod floor;
pub mod messages;
pub mod passenger;
