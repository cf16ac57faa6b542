//! Supervision of one adapter process and multiplexing of many callers'
//! commands over its line-oriented JSON stream.
//!
//! The library decides and computes; it performs no input or output. Its
//! owner spawns the process, reads and writes the streams, keeps the time,
//! and tells the library what happened:
//!
//! - [`supervisor`] holds the state machine of the process and the commands
//!   in flight, and [`router`] what each message from the adapter does to
//!   it; [`traces`] states what holds over whole sequences of events.
//! - [`command`], [`envelope`] and [`wire`] are the wire format;
//!   [`failure`] names what can go wrong.
//! - [`registry`] and [`session`] keep the sessions that are established.
//! - [`saved`], [`profiles`], [`prerequisites`], [`environment`] and
//!   [`clock`] are the rules around the core: saved connections, the
//!   profile configuration text, the tools to be installed, the adapter's
//!   environment, time stamps.
//! - [`model`] holds the records, [`text`] the work on characters.

pub mod clock;
pub mod command;
pub mod envelope;
pub mod environment;
pub mod failure;
pub mod model;
pub mod prerequisites;
pub mod profiles;
pub mod registry;
pub mod router;
pub mod saved;
pub mod session;
pub mod supervisor;
pub mod text;
pub mod traces;
pub mod wire;
