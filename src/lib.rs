//! Per-frame simulation core of a lane-dodging game: entity recycling,
//! steering, collision resolution, the health/score state machine, the intro
//! slideshow and the celebration timer.
//!
//! Lengths are in thousandths of a world unit and time in milliseconds, so
//! that every rule is exact integer arithmetic.

pub mod tuning;
pub mod category;
pub mod chance;
pub mod recycler;
pub mod intro;
pub mod celebration;
pub mod steering;
pub mod game;
pub mod frame;
