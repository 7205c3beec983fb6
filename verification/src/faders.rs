//! Fader sampling policy: rescaling of raw ADC readings and the hysteresis
//! that keeps fader noise off the link while guaranteeing that the hard
//! limits are always reported.

use vstd::prelude::*;

use crate::common::Channel;
use crate::common::LEVEL_FULL;
use crate::pending::PendingUpdates;
use crate::pending::PendingView;
use crate::pending::spec_slot;
use crate::pending::slot;

verus! {

/// Lowest raw ADC count of the usable fader range; readings below are
/// dead zone.
pub const ADC_DEAD_LOW: u16 = 8;

/// Highest raw ADC count of the usable fader range; readings above are
/// dead zone.
pub const ADC_DEAD_HIGH: u16 = 3308;

/// A fader movement is reported only when it exceeds this many
/// ten-thousandths of full scale (4%) — or when it newly reaches an end of
/// the range.
pub const HYSTERESIS: u16 = 400;

/// A raw ADC reading rescaled from the dead-zone-trimmed range to
/// `0 ..= LEVEL_FULL`.
pub open spec fn spec_scale_adc(raw: u16) -> u16 {
    let c = if raw < ADC_DEAD_LOW {
        ADC_DEAD_LOW as int
    } else if raw > ADC_DEAD_HIGH {
        ADC_DEAD_HIGH as int
    } else {
        raw as int
    };
    ((c - ADC_DEAD_LOW) * LEVEL_FULL / (ADC_DEAD_HIGH - ADC_DEAD_LOW)) as u16
}

/// Whether a newly sampled value must be reported, given the last reported
/// one: any change beyond the hysteresis threshold, any value newly
/// reaching exactly the bottom or the top of the range, and everything
/// after a reset (when there is no last reported value).
pub open spec fn spec_should_report(prev: Option<u16>, scaled: u16) -> bool {
    match prev {
        None => true,
        Some(p) => {
            let diff = if p >= scaled {
                p - scaled
            } else {
                scaled - p
            };
            diff > HYSTERESIS || (scaled == LEVEL_FULL && p != LEVEL_FULL) || (scaled == 0 && p
                != 0)
        }
    }
}

/// Rescale a raw ADC reading to `0 ..= LEVEL_FULL`.
pub fn scale_adc(raw: u16) -> (r: u16)
    ensures
        r == spec_scale_adc(raw),
        r <= LEVEL_FULL,
{
    let c: u32 = if raw < ADC_DEAD_LOW {
        ADC_DEAD_LOW as u32
    } else if raw > ADC_DEAD_HIGH {
        ADC_DEAD_HIGH as u32
    } else {
        raw as u32
    };
    assert(ADC_DEAD_LOW <= c <= ADC_DEAD_HIGH);
    let span: u32 = (ADC_DEAD_HIGH - ADC_DEAD_LOW) as u32;
    let scaled: u32 = ((c - ADC_DEAD_LOW as u32) * LEVEL_FULL as u32) / span;
    assert(scaled <= LEVEL_FULL) by {
        assert((c - ADC_DEAD_LOW as u32) * LEVEL_FULL as u32 <= 33000000) by (nonlinear_arith)
            requires
                c <= 3308,
        ;
    }
    scaled as u16
}

/// The last value reported for each fader, used by the hysteresis.  After a
/// reset every fader counts as changed, so the next sampling pass re-emits
/// the complete state.
pub struct FaderState {
    previous: Vec<Option<u16>>,
}

impl View for FaderState {
    type V = Seq<Option<u16>>;

    closed spec fn view(&self) -> Seq<Option<u16>> {
        self.previous@
    }
}

impl FaderState {
    /// One slot per channel.
    pub open spec fn wf(self) -> bool {
        self@.len() == 5
    }

    /// At boot no fader has been reported yet, so the first sampling pass
    /// reports every channel.
    pub fn new() -> (r: Self)
        ensures
            r.wf(),
            r@ =~= seq![None::<u16>, None, None, None, None],
    {
        let mut previous: Vec<Option<u16>> = Vec::new();
        let mut i: usize = 0;
        while i < 5
            invariant
                i <= 5,
                previous@ =~= Seq::new(i as nat, |j: int| None::<u16>),
            decreases 5 - i,
        {
            previous.push(None);
            i += 1;
        }
        FaderState { previous }
    }

    /// Take one raw ADC sample for a channel.  When the rescaled value must
    /// be reported — hysteresis exceeded, an end of the range newly
    /// reached, or the first sample after a reset — it becomes the
    /// channel's pending volume update and the new reference value;
    /// otherwise nothing changes.
    pub fn sample(&mut self, pending: &mut PendingUpdates, ch: Channel, raw: u16)
        requires
            old(self).wf(),
            old(pending)@.wf(),
        ensures
            final(self).wf(),
            final(pending)@.wf(),
            ({
                let scaled = spec_scale_adc(raw);
                if spec_should_report(old(self)@[spec_slot(ch)], scaled) {
                    final(self)@ == old(self)@.update(spec_slot(ch), Some(scaled))
                        && final(pending)@ == old(pending)@.with_volume(ch, scaled)
                } else {
                    final(self)@ == old(self)@ && final(pending)@ == old(pending)@
                }
            }),
    {
        let scaled = scale_adc(raw);
        let s = slot(ch);
        let report = match self.previous[s] {
            None => true,
            Some(p) => {
                let diff = if p >= scaled {
                    p - scaled
                } else {
                    scaled - p
                };
                diff > HYSTERESIS || (scaled == LEVEL_FULL && p != LEVEL_FULL) || (scaled == 0 && p
                    != 0)
            }
        };
        if report {
            self.previous.set(s, Some(scaled));
            pending.insert_volume(ch, scaled);
        }
    }

    /// End one sampling round: when a forced update is pending, consume it
    /// and forget all reference values, so the next round re-reports every
    /// channel — the same thing that happens at boot.
    pub fn end_of_round(&mut self, pending: &mut PendingUpdates) -> (forced: bool)
        requires
            old(self).wf(),
        ensures
            final(self).wf(),
            forced == old(pending)@.force_update,
            final(pending)@ == (PendingView {
                force_update: false,
                ..old(pending)@
            }),
            final(self)@ == if forced {
                seq![None::<u16>, None, None, None, None]
            } else {
                old(self)@
            },
    {
        if pending.take_force_update() {
            let mut previous: Vec<Option<u16>> = Vec::new();
            let mut i: usize = 0;
            while i < 5
                invariant
                    i <= 5,
                    previous@ =~= Seq::new(i as nat, |j: int| None::<u16>),
                decreases 5 - i,
            {
                previous.push(None);
                i += 1;
            }
            self.previous = previous;
            proof {
                assert(self@ =~= seq![None::<u16>, None, None, None, None]);
            }
            true
        } else {
            false
        }
    }
}

} // verus!
