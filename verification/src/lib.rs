//! An orbit-camera controller: the state of a camera that circles a look-at
//! point, and the per-frame updates that pointer motion, scroll wheel and
//! keyboard input apply to it.
//!
//! All quantities (angles, distances, sensitivities, time deltas) are held in
//! signed fixed-point form: an `i64` counts millionths of the unit, so `1.5`
//! radians is stored as `1_500_000`. The arithmetic on that representation
//! lives in `fixed`, the sine approximation used for camera placement in
//! `trig`, vectors and their norms in `vec3`, and the controller itself in
//! `camera`. `input` holds the frame's input as plain values, `config` parses
//! the startup box-count option, and `grid` lays out the demo scene's box
//! grid.

pub mod camera;
pub mod config;
pub mod fixed;
pub mod grid;
pub mod input;
pub mod trig;
pub mod vec3;
