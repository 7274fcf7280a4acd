use spinnrd::classify::{classify, Sample, UNITS_PER_MS2};
use spinnrd::filter::LowPass;
use spinnrd::orientator::{Accelerometer, FilteredAccelerometer, Orientator};
use spinnrd::rotation::Rotation;
use spinnrd::RotParseErrKind;

fn ms2(x: i64, y: i64, z: i64) -> Sample {
    Sample {
        x: (x * UNITS_PER_MS2) as i32,
        y: (y * UNITS_PER_MS2) as i32,
        z: (z * UNITS_PER_MS2) as i32,
    }
}

#[test]
fn negative_x_is_right() {
    assert_eq!(classify(ms2(-5, 0, 0)), Some(Rotation::Right));
}

#[test]
fn positive_x_is_left() {
    assert_eq!(classify(ms2(5, 0, 0)), Some(Rotation::Left));
}

#[test]
fn negative_y_is_normal() {
    assert_eq!(classify(ms2(0, -5, 0)), Some(Rotation::Normal));
}

#[test]
fn positive_y_is_inverted() {
    assert_eq!(classify(ms2(0, 5, 0)), Some(Rotation::Inverted));
}

#[test]
fn flat_device_is_indeterminate_whatever_x_and_y() {
    assert_eq!(classify(Sample { x: -50000, y: 0, z: 83386 }), None);
    assert_eq!(classify(Sample { x: 0, y: 90000, z: -98100 }), None);
    // exactly at the limit the device is not yet flat
    assert_eq!(classify(Sample { x: 0, y: 90000, z: 83385 }), Some(Rotation::Inverted));
}

#[test]
fn close_horizontal_axes_are_indeterminate() {
    // |x| - |y| equals |z| / 2 + 1.4715 exactly: not enough
    assert_eq!(classify(Sample { x: 34715, y: 0, z: 40000 }), None);
    assert_eq!(classify(Sample { x: 34716, y: 0, z: 40000 }), Some(Rotation::Left));
    assert_eq!(classify(Sample { x: 30000, y: -30000, z: 0 }), None);
    assert_eq!(classify(Sample { x: 0, y: 0, z: 0 }), None);
}

#[test]
fn rotation_names_are_lowercase() {
    assert_eq!(Rotation::Normal.name(), "normal");
    assert_eq!(Rotation::Left.name(), "left");
    assert_eq!(Rotation::Inverted.name(), "inverted");
    assert_eq!(Rotation::Right.name(), "right");
    assert_eq!(Rotation::default(), Rotation::Normal);
}

#[test]
fn filter_is_seeded_with_first_sample() {
    let mut f = LowPass::new(1000, 150);
    let raw = Sample { x: 123, y: -456, z: 789 };
    assert_eq!(f.update(raw), raw);
    assert_eq!(f.current, Some(raw));
}

#[test]
fn filter_steps_by_ratio_of_hysteresis_to_period() {
    let mut f = LowPass::new(1000, 150);
    f.update(Sample { x: 0, y: 0, z: 100 });
    // step = (raw - prev) * 1000 / 150, rounded toward zero
    let r = f.update(Sample { x: 150, y: -3, z: 100 });
    assert_eq!(r, Sample { x: 1000, y: -20, z: 100 });
}

#[test]
fn filter_with_half_coefficient() {
    let mut f = LowPass::new(1, 2);
    f.update(Sample { x: 0, y: 10, z: -10 });
    let r = f.update(Sample { x: -1, y: 20, z: -20 });
    assert_eq!(r, Sample { x: 0, y: 15, z: -15 });
}

#[test]
fn filter_saturates_at_i32_bounds() {
    let mut f = LowPass::new(1000, 150);
    f.update(Sample { x: 0, y: 0, z: 0 });
    let r = f.update(Sample { x: i32::MAX, y: i32::MIN, z: 1 });
    assert_eq!(r, Sample { x: i32::MAX, y: i32::MIN, z: 6 });
}

struct Fixed(Vec<Sample>, usize);

impl Accelerometer for Fixed {
    fn read(&mut self) -> Sample {
        let s = self.0[self.1 % self.0.len()];
        self.1 += 1;
        s
    }
}

#[test]
fn filtered_accelerometer_reports_orientation() {
    let mut a = FilteredAccelerometer::new(Fixed(vec![ms2(-5, 0, 0)], 0), 150, 150);
    assert_eq!(a.orientation(), Some(Rotation::Right));
    assert_eq!(a.orientation(), Some(Rotation::Right));
    assert_eq!(a.filter.current, Some(ms2(-5, 0, 0)));
}

#[test]
fn orientation_of_filters_then_classifies() {
    let mut a = FilteredAccelerometer::new(Fixed(vec![ms2(0, 0, 0)], 0), 1, 2);
    assert_eq!(a.orientation_of(ms2(0, -5, 0)), Some(Rotation::Normal));
    // halfway from -5 to +5 on y: 0, indeterminate
    assert_eq!(a.orientation_of(ms2(0, 5, 0)), None);
}

#[test]
fn names_read_back() {
    for r in [Rotation::Normal, Rotation::Left, Rotation::Inverted, Rotation::Right] {
        assert_eq!(Rotation::from_name(r.name()), Ok(r));
    }
    assert_eq!(Rotation::from_name("up"), Err(RotParseErrKind::TooShort));
    assert_eq!(Rotation::from_name(""), Err(RotParseErrKind::TooShort));
    assert_eq!(Rotation::from_name("upside-down"), Err(RotParseErrKind::TooLong));
    assert_eq!(Rotation::from_name("Normal"), Err(RotParseErrKind::NoMatch));
    assert_eq!(Rotation::from_name("lefty"), Err(RotParseErrKind::NoMatch));
}
