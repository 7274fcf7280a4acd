use vstd::prelude::*;

use crate::rotation::Rotation;

verus! {

/// Readings are fixed-point: one unit is a ten-thousandth of a metre per
/// second squared, so standard gravity (9.81) is 98100 units.
pub const UNITS_PER_MS2: i64 = 10000;

/// Above this magnitude on the z axis (85% of standard gravity) the device is
/// lying nearly flat, face up or down, and no rotation is reported.
pub const FLAT_LIMIT: i64 = 83385;

/// The horizontal axes must differ in magnitude by more than this margin
/// (plus half the magnitude on the z axis) for a rotation to be reported.
pub const TILT_MARGIN: i64 = 14715;

/// One three-axis accelerometer reading, in the fixed-point units above.
#[derive(Debug, Clone, Copy, PartialEq, Eq, Structural)]
pub struct Sample {
    pub x: i32,
    pub y: i32,
    pub z: i32,
}

pub open spec fn abs(v: int) -> int {
    if v < 0 {
        -v
    } else {
        v
    }
}

/// The orientation that a (filtered) reading shows, or `None` where it is
/// indeterminate. The tilt test `|(|x| - |y|)| > |z| / 2 + margin` is stated
/// here multiplied through by two, which keeps it exact over the integers.
pub open spec fn classify_spec(s: Sample) -> Option<Rotation> {
    let ax = abs(s.x as int);
    let ay = abs(s.y as int);
    let az = abs(s.z as int);
    if az > FLAT_LIMIT {
        None
    } else if 2 * abs(ax - ay) > az + 2 * TILT_MARGIN {
        if ax > ay {
            if s.x < 0 {
                Some(Rotation::Right)
            } else {
                Some(Rotation::Left)
            }
        } else if s.y < 0 {
            Some(Rotation::Normal)
        } else {
            Some(Rotation::Inverted)
        }
    } else {
        None
    }
}

fn abs_i64(v: i32) -> (r: i64)
    ensures
        r == abs(v as int),
{
    if v < 0 {
        -(v as i64)
    } else {
        v as i64
    }
}

/// Maps a filtered reading to one of the four orientations, or to `None`
/// where the device lies flat or the horizontal axes are too close to call.
pub fn classify(s: Sample) -> (r: Option<Rotation>)
    ensures
        r == classify_spec(s),
        abs(s.z as int) > FLAT_LIMIT ==> r.is_none(),
        abs(s.z as int) <= FLAT_LIMIT && 2 * abs(abs(s.x as int) - abs(s.y as int)) <= abs(
            s.z as int,
        ) + 2 * TILT_MARGIN ==> r.is_none(),
{
    let ax = abs_i64(s.x);
    let ay = abs_i64(s.y);
    let az = abs_i64(s.z);
    let dxy: i64 = if ax >= ay {
        ax - ay
    } else {
        ay - ax
    };
    if az > FLAT_LIMIT {
        None
    } else if 2 * dxy > az + 2 * TILT_MARGIN {
        if ax > ay {
            if s.x < 0 {
                Some(Rotation::Right)
            } else {
                Some(Rotation::Left)
            }
        } else if s.y < 0 {
            Some(Rotation::Normal)
        } else {
            Some(Rotation::Inverted)
        }
    } else {
        None
    }
}

} // verus!
