//! Core logic of a minimal side-scrolling "flappy bird" game: the bird's
//! gravity integration and death detection, the obstacle ring's movement and
//! wrap-around recycling, the one-time level layout, and the tick positions
//! of a debug coordinate overlay.
//!
//! Everything is computed in fixed-point integers (see `config`); rendering,
//! windowing, input polling and the inspector overlay live outside this
//! library and hand it plain values.

pub mod bird;
pub mod config;
pub mod entities;
pub mod game;
pub mod grid;
pub mod laws;
pub mod obstacle;
pub mod random;
pub mod setup;
