//! Simulation core of a side-view flying game.
//!
//! The library holds what the game decides without reading a coordinate: the
//! phases of a play-through and the transitions between them, the
//! bookkeeping of the frame driver that applies those transitions against
//! the system clock, the framing of the level store into one record a level,
//! and the classification of degenerate geometry. Coordinates, distances and
//! drawing stay with the host, which hands the library yes-or-no facts and
//! clock readings and acts on what it decides.

pub mod clock;
pub mod driver;
pub mod geometry;
pub mod level_data;
pub mod states;
