//! Per-frame rules of a small top-down collecting game, stated over integer
//! world coordinates and whole nanoseconds, with each rule's effect proved
//! against a mathematical model of the game state.

pub mod animation;
pub mod camera;
pub mod chance;
pub mod clock;
pub mod collectible;
pub mod countdown;
pub mod geometry;
pub mod input;
pub mod session;
pub mod subject;
pub mod ticker;
