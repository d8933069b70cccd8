//! A small side-scrolling driving game: a car dodges obstacles and picks up
//! collectibles. Every rule of a frame is verified here; drawing, sound and
//! keyboard input are left to the host program.
//!
//! Positions are fixed-point integers in millionths of a screen unit, time
//! steps are whole microseconds, and tilts are in milliradians.
pub mod entity;
pub mod hud;
pub mod placement;
pub mod state;
pub mod frame;
pub mod scene;
pub mod laws;

