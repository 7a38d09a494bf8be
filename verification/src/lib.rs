//! Session engine for a fleet of remote agents that talk to a ground
//! station over one link each.
//!
//! The library holds the rules of the engine and proves them:
//!
//! - [`io`]: the registration handshake, the supervisor that takes requests
//!   for connections, and the read and write pump of a session, each as the
//!   decision that follows one event;
//! - [`mission`] and [`flight`]: how an agent takes a mission, flies it and
//!   ends it;
//! - [`heartbeat`] and [`clock`]: the keep-alive and its period;
//! - [`agent`], [`drone`], [`connection`], [`coordinates`], [`message`]: the
//!   data that these work on.
//!
//! A session is two bounded channels of tokio ([`channel`], [`outside`]).
//! Waiting on the transport, and turning frames into messages and back, is
//! left to the program around the library. Positions are whole numbers of
//! [`coordinates::UNITS_PER_DEGREE`]ths of a degree, times are microseconds.

pub mod agent;
pub mod channel;
pub mod clock;
pub mod connection;
pub mod coordinates;
pub mod drone;
pub mod fleet;
pub mod flight;
pub mod heartbeat;
pub mod id_tracker;
pub mod io;
pub mod message;
pub mod mission;
pub mod outside;
