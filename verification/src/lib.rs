//! The verified core of a small line-drawing harness: a batch that gathers
//! coloured line segments during a frame and decides what a flush uploads and
//! draws, and the limits that a first-person camera keeps its pitch and field
//! of view within.
//!
//! Single-precision numbers cross this crate as their IEEE-754 bit patterns;
//! nothing here calls a graphics context. The owner of the context carries
//! out the commands that the batch returns.

#![allow(non_snake_case)]

pub mod batch_laws;
pub mod bytes;
pub mod camera;
pub mod error;
pub mod ieee;
pub mod line_renderer;
pub mod vector;
