//! Core of a terminal world viewer: a six-tier zoom state machine with one
//! independent coordinate plane per tier, a pausable simulation clock with a
//! discrete speed ladder, and the per-frame orchestration that ties input
//! actions, clock and zoom state to a render snapshot.

pub mod game;
pub mod input;
pub mod time;
pub mod world;
pub mod zoom;
