//! Per-frame simulation core of a side-scrolling platform-jumping game.
//!
//! All lengths are integers in milli-units (thousandths of a world unit, one
//! world unit being one pixel at the reference resolution), velocities are in
//! milli-units per second and times are in milliseconds. Window sizes are in
//! whole pixels.
pub mod scale;
pub mod body;
pub mod jump;
pub mod physics;
pub mod collision;
pub mod spawner;
pub mod scroller;
pub mod anchor;
pub mod world;
