use vstd::prelude::*;

verus! {

/// A three-component vector of single-precision numbers. Each component is
/// carried as its IEEE-754 bit pattern, so that a vector is a plain triple of
/// 32-bit words and equality of vectors is equality of those words.
#[derive(Copy, Clone, PartialEq, Eq, Structural, Debug)]
pub struct Vec3 {
    pub x: u32,
    pub y: u32,
    pub z: u32,
}

/// A 4x4 matrix of single-precision numbers in column-major order, each entry
/// carried as its IEEE-754 bit pattern.
#[derive(Copy, Clone, Debug)]
pub struct Mat4 {
    pub cols: [u32; 16],
}

} // verus!
