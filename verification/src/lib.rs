//! Chaikin corner-cutting curve subdivision, with the point store and the
//! animation state machine that drive an interactive editor around it.
//!
//! Coordinates are fixed-point screen units held in `u64`, so that every
//! computation here is exact and verified; the windowing front end converts
//! to and from its own floating-point pixels.

pub mod point;
pub mod session;
pub mod subdivide;
