//! Game logic of a falling-block puzzle whose pieces are clusters of jointed
//! rigid bodies: the shape catalog, board geometry, piece spawning, player
//! forces, settle detection, row clearing and health bookkeeping.
//!
//! The physics engine owns positions, velocities and rest flags; this crate
//! reads them as plain observations and answers with plain requests.
pub mod board;
pub mod game;
pub mod loss;
pub mod settle;
pub mod shape;
pub mod stats;
