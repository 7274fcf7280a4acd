use vstd::prelude::*;

use crate::classify::{classify, classify_spec, Sample};
use crate::filter::LowPass;
use crate::rotation::Rotation;

verus! {

/// A source of raw accelerometer readings.
pub trait Accelerometer {
    /// Takes one reading.
    fn read(&mut self) -> Sample;
}

/// Something that can give the device's orientation.
pub trait Orientator {
    /// Returns the current orientation, if it can figure it out.
    fn orientation(&mut self) -> Option<Rotation>;
}

/// An accelerometer whose readings pass through a low-pass filter before
/// they are classified.
pub struct FilteredAccelerometer<A> {
    pub accel: A,
    pub filter: LowPass,
}

impl<A: Accelerometer> FilteredAccelerometer<A> {
    /// Wraps `accel` with a filter whose coefficient is `hysteresis / period`.
    pub fn new(accel: A, hysteresis: u32, period: u32) -> (r: Self)
        requires
            period > 0,
        ensures
            r.filter.wf(),
            r.filter.hysteresis == hysteresis,
            r.filter.period == period,
            r.filter.current.is_none(),
    {
        FilteredAccelerometer { accel, filter: LowPass::new(hysteresis, period) }
    }

    /// Filters one raw reading and classifies the result.
    pub fn orientation_of(&mut self, raw: Sample) -> (r: Option<Rotation>)
        requires
            old(self).filter.wf(),
        ensures
            final(self).filter == old(self).filter.next(raw),
            final(self).filter.wf(),
            r == classify_spec(final(self).filter.current.unwrap()),
    {
        let filtered = self.filter.update(raw);
        classify(filtered)
    }
}

impl<A: Accelerometer> Orientator for FilteredAccelerometer<A> {
    /// Reads once, filters and classifies; a filter with a zero period
    /// reports nothing.
    fn orientation(&mut self) -> (r: Option<Rotation>)
        ensures
            old(self).filter.wf() ==> exists|raw: Sample|
                final(self).filter == #[trigger] old(self).filter.next(raw) && r == classify_spec(
                    final(self).filter.current.unwrap(),
                ),
            !old(self).filter.wf() ==> r.is_none() && final(self).filter == old(self).filter,
    {
        let raw = self.accel.read();
        if self.filter.period == 0 {
            return None;
        }
        self.orientation_of(raw)
    }
}

} // verus!
