//! Decision core of a reverse-tunnel relay.
//!
//! A relay keeps an outbound link to a public endpoint, waits for a
//! `CONNECT <address> HTTP/1.1` directive on it, opens a second outbound
//! link to the named data endpoint and then forwards lines between the two.
//!
//! This crate holds every decision of that relay as functions from a state
//! and an event to the next state and an effect. Sockets, timers, tasks and
//! the bus that carries [`Command`]s between tasks belong to the caller,
//! which performs each effect and reports what happened next.

pub mod address;
pub mod command;
pub mod dispatcher;
pub mod gate;
pub mod handshake;
pub mod laws;
pub mod public_link;
pub mod session;

pub use address::Address;
pub use command::{Command, CommandView, Effect, EffectView};
pub use dispatcher::dispatch;
pub use gate::SessionGate;
pub use public_link::{PublicLink, RETRY_DELAY_MS};
pub use session::{DataSession, Phase};
