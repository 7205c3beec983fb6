//! Channel level indicators, modelled by the state the drivers must show:
//! the number of lit segments on the shift-register bar, and the on/off
//! state and brightness level of the PWM indicators.
//!
//! Driving the shift-register pins and computing the PWM duty curve from
//! the stored level are hardware concerns outside this model.

use vstd::prelude::*;

use crate::common::LEVEL_FULL;

verus! {

/// Number of segments on the main-level bar display.
pub const SHIFT_REG_SEGMENTS: u16 = 20;

/// Number of bar segments lit for a level: the level scaled to `0 ..= 20`
/// with a half-segment offset, so full scale lights the whole bar.
pub open spec fn spec_segments_lit(level: u16) -> u16 {
    ((level * 41) / (2 * LEVEL_FULL)) as u16
}

/// Level indicator built from a shift-register chain.  It shows a bar of
/// `segments_lit` segments out of [`SHIFT_REG_SEGMENTS`].
pub struct ShiftRegLevel {
    /// Number of segments currently lit.
    pub segments_lit: u16,
}

impl ShiftRegLevel {
    /// A fresh indicator showing nothing.
    pub fn new() -> (r: Self)
        ensures
            r.segments_lit == 0,
    {
        ShiftRegLevel { segments_lit: 0 }
    }

    /// Show a level on the bar.
    pub fn update_level(&mut self, level: u16)
        requires
            level <= LEVEL_FULL,
        ensures
            final(self).segments_lit == spec_segments_lit(level),
            final(self).segments_lit <= SHIFT_REG_SEGMENTS,
    {
        assert(level * 41 <= 410000 && level * 41 / 20000 <= 20) by (nonlinear_arith)
            requires
                level <= 10000,
        ;
        let lit: u32 = (level as u32 * 41) / (2 * LEVEL_FULL as u32);
        self.segments_lit = lit as u16;
    }

    /// The level each data-pin write of one refresh must take, first write
    /// first: the pin is driven low — lighting the segment — exactly for
    /// the segments within the lit count, counted from the far end of the
    /// chain.
    pub fn pin_pattern(&self) -> (r: Vec<bool>)
        ensures
            r@.len() == SHIFT_REG_SEGMENTS,
            forall|i: int|
                0 <= i < SHIFT_REG_SEGMENTS ==> r@[i] == !(SHIFT_REG_SEGMENTS - 1 - i
                    < self.segments_lit),
    {
        let mut out: Vec<bool> = Vec::new();
        let mut i: u16 = 0;
        while i < SHIFT_REG_SEGMENTS
            invariant
                i <= SHIFT_REG_SEGMENTS,
                out@.len() == i,
                forall|j: int|
                    0 <= j < i ==> out@[j] == !(SHIFT_REG_SEGMENTS - 1 - j < self.segments_lit),
            decreases SHIFT_REG_SEGMENTS - i,
        {
            out.push(!(SHIFT_REG_SEGMENTS - 1 - i < self.segments_lit));
            i += 1;
        }
        out
    }
}

/// A PWM level indicator is switched off below this level (1% of full
/// scale), instead of glowing faintly forever.
pub const PWM_CUTOFF: u16 = 100;

/// Level indicator built from a PWM pin.  The brightness curve mapping the
/// stored level to a PWM duty is the hardware driver's concern.
pub struct PwmLevel {
    /// Whether the indicator is lit at all.
    pub active: bool,
    /// The level the indicator shows, in ten-thousandths of full scale.
    pub level: u16,
}

impl PwmLevel {
    /// A fresh indicator, switched off.
    pub fn new() -> (r: Self)
        ensures
            !r.active,
            r.level == 0,
    {
        PwmLevel { active: false, level: 0 }
    }

    /// Show a level: the indicator lights exactly when the level exceeds
    /// the cutoff.
    pub fn update_level(&mut self, level: u16)
        ensures
            final(self).active == (level > PWM_CUTOFF),
            final(self).level == level,
    {
        self.active = level > PWM_CUTOFF;
        self.level = level;
    }
}

} // verus!
