use vstd::prelude::*;
use crate::ieee::{clampBits, clamp_bits, is_nan, order_key};

verus! {

/// A discrete movement request for the camera.
#[derive(Copy, Clone, PartialEq, Eq, Structural, Debug)]
pub enum Movement {
    Up,
    Down,
    Forward,
    Backward,
    Left,
    Right,
}

/// The vectors along which the camera can be displaced.
#[derive(Copy, Clone, PartialEq, Eq, Structural, Debug)]
pub enum Axis {
    /// The fixed world-up reference.
    WorldUp,
    /// The direction the camera faces.
    Front,
    /// The camera's right-hand direction.
    Right,
}

/// The bit pattern of 89, the steepest pitch in degrees that a constrained
/// look allows upwards.
pub const PITCH_MAX: u32 = 0x42b2_0000;

/// The bit pattern of -89, the steepest constrained pitch downwards.
pub const PITCH_MIN: u32 = 0xc2b2_0000;

/// The bit pattern of 1, the narrowest field of view in degrees.
pub const FOV_MIN: u32 = 0x3f80_0000;

/// The bit pattern of 45, the widest field of view in degrees.
pub const FOV_MAX: u32 = 0x4234_0000;

impl Movement {
    /// The vector along which the movement displaces the camera.
    pub open spec fn axis_of(self) -> Axis {
        match self {
            Movement::Up | Movement::Down => Axis::WorldUp,
            Movement::Forward | Movement::Backward => Axis::Front,
            Movement::Left | Movement::Right => Axis::Right,
        }
    }

    /// Whether the movement goes against its axis.
    pub open spec fn is_reversed(self) -> bool {
        self == Movement::Down || self == Movement::Backward || self == Movement::Left
    }

    /// The movement that undoes this one.
    pub open spec fn opposite(self) -> Movement {
        match self {
            Movement::Up => Movement::Down,
            Movement::Down => Movement::Up,
            Movement::Forward => Movement::Backward,
            Movement::Backward => Movement::Forward,
            Movement::Left => Movement::Right,
            Movement::Right => Movement::Left,
        }
    }

    /// The vector along which the movement displaces the camera.
    pub fn axis(self) -> (a: Axis)
        ensures
            a == self.axis_of(),
    {
        match self {
            Movement::Up => Axis::WorldUp,
            Movement::Down => Axis::WorldUp,
            Movement::Forward => Axis::Front,
            Movement::Backward => Axis::Front,
            Movement::Left => Axis::Right,
            Movement::Right => Axis::Right,
        }
    }

    /// Whether the displacement is subtracted from the position rather than
    /// added to it.
    pub fn reversed(self) -> (b: bool)
        ensures
            b == self.is_reversed(),
    {
        match self {
            Movement::Up => false,
            Movement::Down => true,
            Movement::Forward => false,
            Movement::Backward => true,
            Movement::Left => true,
            Movement::Right => false,
        }
    }
}

/// A movement and its opposite displace along the same vector, one adding
/// what the other subtracts; the opposite of the opposite is the movement.
pub proof fn lemma_opposite_movement(dir: Movement)
    ensures
        dir.opposite().axis_of() == dir.axis_of(),
        dir.opposite().is_reversed() == !dir.is_reversed(),
        dir.opposite().opposite() == dir,
{
}

/// The order keys of the four limits: 89 and -89 mirror each other, and
/// 1 lies below 45.
pub proof fn lemma_limit_keys()
    ensures
        !is_nan(PITCH_MIN),
        !is_nan(PITCH_MAX),
        !is_nan(FOV_MIN),
        !is_nan(FOV_MAX),
        order_key(PITCH_MAX) == 0x42b2_0000,
        order_key(PITCH_MIN) == -0x42b2_0000,
        order_key(FOV_MIN) == 0x3f80_0000,
        order_key(FOV_MAX) == 0x4234_0000,
{
    assert(0x42b2_0000u32 & 0x7fff_ffff == 0x42b2_0000) by (bit_vector);
    assert(0x42b2_0000u32 & 0x8000_0000 == 0) by (bit_vector);
    assert(0xc2b2_0000u32 & 0x7fff_ffff == 0x42b2_0000) by (bit_vector);
    assert(0xc2b2_0000u32 & 0x8000_0000 != 0) by (bit_vector);
    assert(0x3f80_0000u32 & 0x7fff_ffff == 0x3f80_0000) by (bit_vector);
    assert(0x3f80_0000u32 & 0x8000_0000 == 0) by (bit_vector);
    assert(0x4234_0000u32 & 0x7fff_ffff == 0x4234_0000) by (bit_vector);
    assert(0x4234_0000u32 & 0x8000_0000 == 0) by (bit_vector);
}

/// The pitch that a look leaves, given the pitch it arrived at: clamped to
/// the interval from -89 to 89 degrees when `constrain` is set, as it is
/// otherwise.
pub fn constrainPitch(pitch: u32, constrain: bool) -> (r: u32)
    ensures
        constrain ==> r == clamp_bits(pitch, PITCH_MIN, PITCH_MAX),
        !constrain ==> r == pitch,
        constrain && !is_nan(pitch) ==> order_key(PITCH_MIN) <= order_key(r) <= order_key(
            PITCH_MAX,
        ),
{
    proof {
        lemma_limit_keys();
    }
    if constrain {
        clampBits(pitch, PITCH_MIN, PITCH_MAX)
    } else {
        pitch
    }
}

/// The field of view that a zoom leaves, given the one it arrived at:
/// clamped to the interval from 1 to 45 degrees.
pub fn constrainFov(fov: u32) -> (r: u32)
    ensures
        r == clamp_bits(fov, FOV_MIN, FOV_MAX),
        !is_nan(fov) ==> order_key(FOV_MIN) <= order_key(r) <= order_key(FOV_MAX),
{
    proof {
        lemma_limit_keys();
    }
    clampBits(fov, FOV_MIN, FOV_MAX)
}

/// However far a constrained look pushes the pitch, it leaves it between
/// -89 and 89 degrees, at the bound it would have passed, and keeps one that
/// is within.
pub proof fn lemma_pitch_stays_constrained(pitch: u32)
    requires
        !is_nan(pitch),
    ensures
        order_key(PITCH_MIN) <= order_key(clamp_bits(pitch, PITCH_MIN, PITCH_MAX)) <= order_key(
            PITCH_MAX,
        ),
        order_key(pitch) < order_key(PITCH_MIN) ==> clamp_bits(pitch, PITCH_MIN, PITCH_MAX)
            == PITCH_MIN,
        order_key(pitch) > order_key(PITCH_MAX) ==> clamp_bits(pitch, PITCH_MIN, PITCH_MAX)
            == PITCH_MAX,
        order_key(PITCH_MIN) <= order_key(pitch) <= order_key(PITCH_MAX) ==> clamp_bits(
            pitch,
            PITCH_MIN,
            PITCH_MAX,
        ) == pitch,
{
    lemma_limit_keys();
}

/// A zoom leaves the field of view between 1 and 45 degrees, at the bound it
/// would have passed, and keeps one that is within.
pub proof fn lemma_fov_stays_clamped(fov: u32)
    requires
        !is_nan(fov),
    ensures
        order_key(FOV_MIN) <= order_key(clamp_bits(fov, FOV_MIN, FOV_MAX)) <= order_key(FOV_MAX),
        order_key(fov) < order_key(FOV_MIN) ==> clamp_bits(fov, FOV_MIN, FOV_MAX) == FOV_MIN,
        order_key(fov) > order_key(FOV_MAX) ==> clamp_bits(fov, FOV_MIN, FOV_MAX) == FOV_MAX,
        order_key(FOV_MIN) <= order_key(fov) <= order_key(FOV_MAX) ==> clamp_bits(
            fov,
            FOV_MIN,
            FOV_MAX,
        ) == fov,
{
    lemma_limit_keys();
}

} // verus!
