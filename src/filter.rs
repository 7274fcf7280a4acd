use vstd::prelude::*;

use crate::classify::Sample;

verus! {

/// Integer division that rounds toward zero, as Rust's `/` does.
pub open spec fn div_trunc(a: int, d: int) -> int {
    if a >= 0 {
        a / d
    } else {
        -((-a) / d)
    }
}

/// Keeps a value within the range of `i32`.
pub open spec fn clamp_i32(v: int) -> int {
    if v < i32::MIN {
        i32::MIN as int
    } else if v > i32::MAX {
        i32::MAX as int
    } else {
        v
    }
}

/// One axis moves from `prev` toward `raw` by the step `m * (raw - prev)`,
/// where `m = num / den`. The result saturates at the bounds of `i32`.
pub open spec fn smooth_axis(prev: int, raw: int, num: int, den: int) -> int {
    clamp_i32(prev + div_trunc((raw - prev) * num, den))
}

pub open spec fn smooth_sample(prev: Sample, raw: Sample, num: int, den: int) -> Sample {
    Sample {
        x: smooth_axis(prev.x as int, raw.x as int, num, den) as i32,
        y: smooth_axis(prev.y as int, raw.y as int, num, den) as i32,
        z: smooth_axis(prev.z as int, raw.z as int, num, den) as i32,
    }
}

/// Exponential smoothing of successive readings: each axis moves toward the
/// new raw reading by `m * (raw - previous)`, where the coefficient `m` is the
/// ratio of the hysteresis window to the poll period. The first reading seeds
/// the state directly.
#[derive(Debug, Clone, Copy)]
pub struct LowPass {
    pub hysteresis: u32,
    pub period: u32,
    pub current: Option<Sample>,
}

impl LowPass {
    pub open spec fn wf(&self) -> bool {
        self.period > 0
    }

    /// The state after one more raw reading.
    pub open spec fn next(self, raw: Sample) -> LowPass {
        LowPass {
            current: Some(
                match self.current {
                    None => raw,
                    Some(prev) => smooth_sample(prev, raw, self.hysteresis as int, self.period as int),
                },
            ),
            ..self
        }
    }

    /// An unseeded filter whose coefficient is `hysteresis / period`; both
    /// durations are in the same unit.
    pub fn new(hysteresis: u32, period: u32) -> (r: LowPass)
        requires
            period > 0,
        ensures
            r.wf(),
            r.hysteresis == hysteresis,
            r.period == period,
            r.current.is_none(),
    {
        LowPass { hysteresis, period, current: None }
    }

    /// Feeds one raw reading and returns the new filtered reading.
    pub fn update(&mut self, raw: Sample) -> (r: Sample)
        requires
            old(self).wf(),
        ensures
            *final(self) == old(self).next(raw),
            final(self).wf(),
            final(self).current == Some(r),
            old(self).current.is_none() ==> r == raw,
    {
        let filtered = match self.current {
            None => raw,
            Some(prev) => Sample {
                x: smooth_step(prev.x, raw.x, self.hysteresis, self.period),
                y: smooth_step(prev.y, raw.y, self.hysteresis, self.period),
                z: smooth_step(prev.z, raw.z, self.hysteresis, self.period),
            },
        };
        self.current = Some(filtered);
        filtered
    }
}

fn smooth_step(prev: i32, raw: i32, num: u32, den: u32) -> (r: i32)
    requires
        den > 0,
    ensures
        r as int == smooth_axis(prev as int, raw as int, num as int, den as int),
{
    let d: i128 = raw as i128 - prev as i128;
    assert(-0x1_0000_0000 <= d <= 0x1_0000_0000);
    assert(-0x1_0000_0000 * 0x1_0000_0000 <= d * (num as i128) <= 0x1_0000_0000 * 0x1_0000_0000)
        by (nonlinear_arith)
        requires
            -0x1_0000_0000 <= d <= 0x1_0000_0000,
            0 <= num <= 0xffff_ffff,
    ;
    let p: i128 = d * (num as i128);
    let q: i128 = if p >= 0 {
        p / (den as i128)
    } else {
        -((-p) / (den as i128))
    };
    assert(-0x1_0000_0000 * 0x1_0000_0000 <= q <= 0x1_0000_0000 * 0x1_0000_0000) by {
        if p >= 0 {
            assert((p as int) / (den as int) <= p as int) by (nonlinear_arith)
                requires
                    p >= 0,
                    den >= 1,
            ;
        } else {
            assert((-(p as int)) / (den as int) <= -(p as int)) by (nonlinear_arith)
                requires
                    -(p as int) >= 0,
                    den >= 1,
            ;
        }
    }
    let v: i128 = prev as i128 + q;
    if v < i32::MIN as i128 {
        i32::MIN
    } else if v > i32::MAX as i128 {
        i32::MAX
    } else {
        v as i32
    }
}

} // verus!
