//! Verified core of a real-time space simulation server.
//!
//! The crate holds everything about the simulation that is decided over
//! integers, booleans, strings and collections: which bodies and ships
//! exist, what the control surfaces of a ship are set to, how an inbound
//! command is validated and applied, what a broadcast or telemetry cycle
//! carries, and how the tick clock measures time. The orbital state of a
//! body and the kinematic state of a ship are carried as payloads that the
//! crate never inspects: the numeric integration lives with the caller,
//! who hands it in as a function.

pub mod bodies;
pub mod clock;
pub mod command;
pub mod controls;
pub mod ident;
pub mod json;
pub mod session;
pub mod ship;
pub mod telemetry;
pub mod timeline;
pub mod world;
