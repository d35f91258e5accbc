use catbox::camera::{
    constrainFov, constrainPitch, Axis, Movement, FOV_MAX, FOV_MIN, PITCH_MAX, PITCH_MIN,
};
use catbox::ieee::{clampBits, isNan, orderKey, INFINITY_BITS};

fn samples() -> Vec<f32> {
    let mut out = vec![
        0.0,
        -0.0,
        1.0,
        -1.0,
        0.5,
        0.999_999_94,
        1.000_000_1,
        44.999_996,
        45.0,
        45.000_004,
        88.999_99,
        89.0,
        89.000_01,
        -88.999_99,
        -89.0,
        -89.000_01,
        360.0,
        -360.0,
        1.0e-45,
        -1.0e-45,
        f32::MIN_POSITIVE,
        f32::MAX,
        f32::MIN,
        f32::INFINITY,
        f32::NEG_INFINITY,
    ];
    let mut x = -200.0f32;
    while x < 200.0 {
        out.push(x);
        x += 0.37;
    }
    out
}

#[test]
fn limits_are_the_patterns_of_their_numbers() {
    assert_eq!(PITCH_MAX, 89.0f32.to_bits());
    assert_eq!(PITCH_MIN, (-89.0f32).to_bits());
    assert_eq!(FOV_MIN, 1.0f32.to_bits());
    assert_eq!(FOV_MAX, 45.0f32.to_bits());
    assert_eq!(INFINITY_BITS, f32::INFINITY.to_bits());
}

#[test]
fn nan_is_recognised() {
    assert!(isNan(f32::NAN.to_bits()));
    assert!(isNan(0x7f80_0001));
    assert!(isNan(0xffc0_0000));
    assert!(!isNan(f32::INFINITY.to_bits()));
    assert!(!isNan(f32::NEG_INFINITY.to_bits()));
    for x in samples() {
        assert_eq!(isNan(x.to_bits()), x.is_nan());
    }
}

#[test]
fn order_key_orders_as_the_numbers_do() {
    let xs = samples();
    for a in &xs {
        for b in &xs {
            let ka = orderKey(a.to_bits());
            let kb = orderKey(b.to_bits());
            assert_eq!(ka < kb, a < b);
            assert_eq!(ka == kb, a == b);
        }
    }
    assert_eq!(orderKey(0.0f32.to_bits()), 0);
    assert_eq!(orderKey((-0.0f32).to_bits()), 0);
    assert_eq!(orderKey(1.0f32.to_bits()), 0x3f80_0000);
    assert_eq!(orderKey((-1.0f32).to_bits()), -0x3f80_0000);
}

#[test]
fn clamp_agrees_with_the_number_clamp() {
    for x in samples() {
        assert_eq!(constrainFov(x.to_bits()), x.clamp(1.0, 45.0).to_bits());
        assert_eq!(constrainPitch(x.to_bits(), true), x.clamp(-89.0, 89.0).to_bits());
        assert_eq!(
            clampBits(x.to_bits(), (-0.5f32).to_bits(), 0.0f32.to_bits()),
            x.clamp(-0.5, 0.0).to_bits()
        );
    }
}

#[test]
fn clamp_hands_a_nan_back() {
    let nan = f32::NAN.to_bits();
    assert_eq!(constrainFov(nan), nan);
    assert_eq!(constrainPitch(nan, true), nan);
    assert_eq!(constrainFov(0xffc0_1234), 0xffc0_1234);
}

#[test]
fn zoom_in_past_the_limit_gives_one_degree() {
    let fov = 45.0f32 - 50.0;
    assert_eq!(f32::from_bits(constrainFov(fov.to_bits())), 1.0);
}

#[test]
fn zoom_out_past_the_limit_gives_forty_five_degrees() {
    let fov = 45.0f32 - (-100.0);
    assert_eq!(f32::from_bits(constrainFov(fov.to_bits())), 45.0);
}

#[test]
fn zoom_within_the_limits_is_kept() {
    let fov = 45.0f32 - 12.5;
    assert_eq!(f32::from_bits(constrainFov(fov.to_bits())), 32.5);
    assert_eq!(constrainFov(FOV_MIN), FOV_MIN);
    assert_eq!(constrainFov(FOV_MAX), FOV_MAX);
}

#[test]
fn constrained_pitch_stays_within_eighty_nine_degrees() {
    let mut pitch = 0.0f32;
    for _ in 0..1000 {
        pitch += 7.3;
        pitch = f32::from_bits(constrainPitch(pitch.to_bits(), true));
        assert!((-89.0..=89.0).contains(&pitch));
    }
    assert_eq!(pitch, 89.0);
    for _ in 0..1000 {
        pitch += -1.0e30;
        pitch = f32::from_bits(constrainPitch(pitch.to_bits(), true));
        assert!((-89.0..=89.0).contains(&pitch));
    }
    assert_eq!(pitch, -89.0);
}

#[test]
fn unconstrained_pitch_is_kept() {
    assert_eq!(constrainPitch(120.0f32.to_bits(), false), 120.0f32.to_bits());
    assert_eq!(constrainPitch((-400.0f32).to_bits(), false), (-400.0f32).to_bits());
    assert_eq!(constrainPitch(120.0f32.to_bits(), true), 89.0f32.to_bits());
    assert_eq!(constrainPitch((-400.0f32).to_bits(), true), (-89.0f32).to_bits());
}

#[test]
fn movements_map_to_axes() {
    assert_eq!(Movement::Up.axis(), Axis::WorldUp);
    assert_eq!(Movement::Down.axis(), Axis::WorldUp);
    assert_eq!(Movement::Forward.axis(), Axis::Front);
    assert_eq!(Movement::Backward.axis(), Axis::Front);
    assert_eq!(Movement::Left.axis(), Axis::Right);
    assert_eq!(Movement::Right.axis(), Axis::Right);
}

#[test]
fn down_backward_and_left_are_reversed() {
    assert!(!Movement::Up.reversed());
    assert!(Movement::Down.reversed());
    assert!(!Movement::Forward.reversed());
    assert!(Movement::Backward.reversed());
    assert!(Movement::Left.reversed());
    assert!(!Movement::Right.reversed());
}

#[test]
fn forward_then_backward_returns() {
    let front = [0.0f32, 0.0, -1.0];
    let start = [0.0f32, 0.0, 5.0];
    let step = 2.5f32 * 0.016;
    let mut pos = start;
    for dir in [Movement::Forward, Movement::Backward] {
        assert_eq!(dir.axis(), Axis::Front);
        for i in 0..3 {
            if dir.reversed() {
                pos[i] -= front[i] * step;
            } else {
                pos[i] += front[i] * step;
            }
        }
    }
    for i in 0..3 {
        assert!((pos[i] - start[i]).abs() < 1.0e-6);
    }
}
