//! A verified model of a small first-person room: a player capsule walks on a
//! horizontal plane, looks around with the mouse, interacts with nearby console
//! objects, and console screens pulse their emissive color over time.
//!
//! All quantities are fixed-point integers: lengths and colors in thousandths
//! (milli-units), angles in microradians. A host renderer or physics backend
//! drives the per-tick functions and converts these values to whatever floating
//! point form it needs at its own edge.

pub mod angle;
pub mod color;
pub mod cursor;
pub mod geom;
pub mod input;
pub mod player;
pub mod scene;
