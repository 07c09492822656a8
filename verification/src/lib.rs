//! Core of a minimal image viewer: an ordered catalog of browsable image
//! paths discovered in one directory, and the navigation-and-viewport state
//! machine that steps through the catalog, fits each image to the viewport,
//! and applies wheel-driven zoom increments.
//!
//! All file-system access, image decoding and window handling live outside
//! this crate; the functions here work on plain values (byte paths, pixel
//! dimensions, discrete input events) and carry contracts for what they
//! decide.

pub mod catalog;
pub mod geometry;
pub mod viewport;
