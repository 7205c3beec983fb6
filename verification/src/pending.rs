//! Device-side bookkeeping of not-yet-sent updates: one bounded map of
//! pending volume updates, one of pending mute-button presses, and the
//! level-triggered "force full update" flag.
//!
//! Both maps are keyed by channel and hold exactly five entries' worth of
//! room; inserting for a channel that already has a pending entry
//! overwrites it, so only the newest value survives until it is sent
//! (coalescing).

use vstd::prelude::*;

use crate::common::Channel;
use crate::common::DeviceMessage;

verus! {

/// Fixed slot of a channel in device-side arrays.  The order — `Main`
/// first, then `Ch1` to `Ch4` — is also the order in which pending updates
/// are offered for sending each round.
pub open spec fn spec_slot(ch: Channel) -> int {
    match ch {
        Channel::Main => 0,
        Channel::Ch1 => 1,
        Channel::Ch2 => 2,
        Channel::Ch3 => 3,
        Channel::Ch4 => 4,
    }
}

/// The channel stored at a slot.
pub open spec fn spec_channel_of_slot(s: int) -> Channel {
    if s == 0 {
        Channel::Main
    } else if s == 1 {
        Channel::Ch1
    } else if s == 2 {
        Channel::Ch2
    } else if s == 3 {
        Channel::Ch3
    } else {
        Channel::Ch4
    }
}

/// Fixed slot of a channel in device-side arrays.
pub fn slot(ch: Channel) -> (r: usize)
    ensures
        r == spec_slot(ch),
        r < 5,
{
    match ch {
        Channel::Main => 0,
        Channel::Ch1 => 1,
        Channel::Ch2 => 2,
        Channel::Ch3 => 3,
        Channel::Ch4 => 4,
    }
}

/// The channel stored at a slot.
pub fn channel_of_slot(s: usize) -> (r: Channel)
    requires
        s < 5,
    ensures
        r == spec_channel_of_slot(s as int),
        spec_slot(r) == s,
{
    match s {
        0 => Channel::Main,
        1 => Channel::Ch1,
        2 => Channel::Ch2,
        3 => Channel::Ch3,
        _ => Channel::Ch4,
    }
}

/// Mathematical model of the pending-update state.
pub ghost struct PendingView {
    /// Latest not-yet-sent volume per slot.
    pub volumes: Seq<Option<u16>>,
    /// Whether a mute-button press is pending per slot.
    pub presses: Seq<bool>,
    /// Whether a full re-report of all fader values is pending.
    pub force_update: bool,
}

impl PendingView {
    /// Both maps have exactly one slot per channel.
    pub open spec fn wf(self) -> bool {
        self.volumes.len() == 5 && self.presses.len() == 5
    }

    /// The message a slot would send next: a pending press takes precedence
    /// over a pending volume of the same channel.
    pub open spec fn slot_message(self, s: int) -> Option<DeviceMessage> {
        if self.presses[s] {
            Some(DeviceMessage::ToggleChannelMute(spec_channel_of_slot(s)))
        } else if self.volumes[s] is Some {
            Some(DeviceMessage::UpdateVolume(spec_channel_of_slot(s), self.volumes[s]->0))
        } else {
            None
        }
    }

    /// The next message to transmit: slots are drained in fixed order,
    /// `Main` first, then `Ch1` to `Ch4`.
    pub open spec fn next_message(self) -> Option<DeviceMessage> {
        if self.slot_message(0) is Some {
            self.slot_message(0)
        } else if self.slot_message(1) is Some {
            self.slot_message(1)
        } else if self.slot_message(2) is Some {
            self.slot_message(2)
        } else if self.slot_message(3) is Some {
            self.slot_message(3)
        } else {
            self.slot_message(4)
        }
    }

    /// State after recording a fader volume for a channel: any pending
    /// volume for that channel is overwritten.
    pub open spec fn with_volume(self, ch: Channel, v: u16) -> PendingView {
        PendingView {
            volumes: self.volumes.update(spec_slot(ch), Some(v)),
            presses: self.presses,
            force_update: self.force_update,
        }
    }

    /// State after recording a mute-button press for a channel.
    pub open spec fn with_press(self, ch: Channel) -> PendingView {
        PendingView {
            volumes: self.volumes,
            presses: self.presses.update(spec_slot(ch), true),
            force_update: self.force_update,
        }
    }

    /// State after a message was successfully transmitted: its map entry is
    /// gone; nothing else changes.
    pub open spec fn after_sent(self, msg: DeviceMessage) -> PendingView {
        match msg {
            DeviceMessage::UpdateVolume(ch, _) => PendingView {
                volumes: self.volumes.update(spec_slot(ch), None),
                presses: self.presses,
                force_update: self.force_update,
            },
            DeviceMessage::ToggleChannelMute(ch) => PendingView {
                volumes: self.volumes,
                presses: self.presses.update(spec_slot(ch), false),
                force_update: self.force_update,
            },
        }
    }

    /// A fresh state: nothing pending, no forced update.
    pub open spec fn is_fresh(self) -> bool {
        self.volumes =~= seq![None::<u16>, None, None, None, None] && self.presses =~= seq![
            false,
            false,
            false,
            false,
            false,
        ] && !self.force_update
    }
}

/// Device-side pending updates: what has been detected locally but not yet
/// transmitted to the host.
pub struct PendingUpdates {
    volumes: Vec<Option<u16>>,
    presses: Vec<bool>,
    force_update: bool,
}

impl View for PendingUpdates {
    type V = PendingView;

    closed spec fn view(&self) -> PendingView {
        PendingView {
            volumes: self.volumes@,
            presses: self.presses@,
            force_update: self.force_update,
        }
    }
}

impl PendingUpdates {
    /// A fresh device boots with nothing pending.
    pub fn new() -> (r: Self)
        ensures
            r@.wf(),
            r@.is_fresh(),
            r@.next_message() is None,
    {
        let mut volumes: Vec<Option<u16>> = Vec::new();
        let mut presses: Vec<bool> = Vec::new();
        let mut i: usize = 0;
        while i < 5
            invariant
                i <= 5,
                volumes@ =~= Seq::new(i as nat, |j: int| None::<u16>),
                presses@ =~= Seq::new(i as nat, |j: int| false),
            decreases 5 - i,
        {
            volumes.push(None);
            presses.push(false);
            i += 1;
        }
        let r = PendingUpdates { volumes, presses, force_update: false };
        proof {
            assert(r@.volumes =~= seq![None::<u16>, None, None, None, None]);
            assert(r@.presses =~= seq![false, false, false, false, false]);
        }
        r
    }

    /// Record the newest fader value for a channel, overwriting any pending
    /// one: only the newest value survives until a send occurs.
    pub fn insert_volume(&mut self, ch: Channel, v: u16)
        requires
            old(self)@.wf(),
        ensures
            final(self)@.wf(),
            final(self)@ == old(self)@.with_volume(ch, v),
    {
        let s = slot(ch);
        self.volumes.set(s, Some(v));
    }

    /// Record a mute-button press for a channel.  A press that is already
    /// pending stays a single press.
    pub fn record_press(&mut self, ch: Channel)
        requires
            old(self)@.wf(),
        ensures
            final(self)@.wf(),
            final(self)@ == old(self)@.with_press(ch),
    {
        let s = slot(ch);
        self.presses.set(s, true);
    }

    /// Note that the host asked for a full re-report of device state.
    pub fn set_force_update(&mut self)
        ensures
            final(self)@ == (PendingView {
                force_update: true,
                ..old(self)@
            }),
    {
        self.force_update = true;
    }

    /// Consume the "force full update" flag: returns whether it was set and
    /// resets it, so one request triggers exactly one re-report.
    pub fn take_force_update(&mut self) -> (r: bool)
        ensures
            r == old(self)@.force_update,
            final(self)@ == (PendingView {
                force_update: false,
                ..old(self)@
            }),
    {
        let r = self.force_update;
        self.force_update = false;
        r
    }

    /// The message the send task should transmit next, if anything is
    /// pending: slots are offered in fixed order (`Main`, `Ch1` to `Ch4`),
    /// presses before volumes within a slot.
    ///
    /// A transmission that would block leaves the state unchanged, so the
    /// same message is offered again next round until it is sent or, for a
    /// volume, superseded.
    pub fn next_pending(&self) -> (r: Option<DeviceMessage>)
        requires
            self@.wf(),
        ensures
            r == self@.next_message(),
    {
        let mut s: usize = 0;
        while s < 5
            invariant
                self@.wf(),
                s <= 5,
                forall|j: int| 0 <= j < s ==> self@.slot_message(j) is None,
            decreases 5 - s,
        {
            if self.presses[s] {
                return Some(DeviceMessage::ToggleChannelMute(channel_of_slot(s)));
            }
            match self.volumes[s] {
                Some(v) => {
                    return Some(DeviceMessage::UpdateVolume(channel_of_slot(s), v));
                }
                None => {}
            }
            s += 1;
        }
        None
    }

    /// Record that a message was transmitted: its entry leaves the map
    /// atomically, so it is sent exactly once.
    pub fn mark_sent(&mut self, msg: DeviceMessage)
        requires
            old(self)@.wf(),
        ensures
            final(self)@.wf(),
            final(self)@ == old(self)@.after_sent(msg),
    {
        match msg {
            DeviceMessage::UpdateVolume(ch, _) => {
                let s = slot(ch);
                self.volumes.set(s, None);
            }
            DeviceMessage::ToggleChannelMute(ch) => {
                let s = slot(ch);
                self.presses.set(s, false);
            }
        }
    }
}

/// Coalescing: however many volume updates are recorded for one channel
/// before a send occurs, only the newest survives, and once it is sent the
/// channel has no pending volume at all.
pub proof fn lemma_volume_coalescing(p: PendingView, ch: Channel, v1: u16, v2: u16, v3: u16)
    requires
        p.wf(),
    ensures
        ({
            let q = p.with_volume(ch, v1).with_volume(ch, v2).with_volume(ch, v3);
            q.volumes[spec_slot(ch)] == Some(v3) && q.after_sent(
                DeviceMessage::UpdateVolume(ch, v3),
            ).volumes[spec_slot(ch)] is None
        }),
{
}

/// On a fresh device the three coalesced updates cause exactly one
/// transmission: the newest value is offered, and after it is sent nothing
/// is pending any more.
pub proof fn lemma_coalescing_single_send(p: PendingView, ch: Channel, v1: u16, v2: u16, v3: u16)
    requires
        p.wf(),
        p.is_fresh(),
    ensures
        ({
            let q = p.with_volume(ch, v1).with_volume(ch, v2).with_volume(ch, v3);
            q.next_message() == Some(DeviceMessage::UpdateVolume(ch, v3)) && q.after_sent(
                DeviceMessage::UpdateVolume(ch, v3),
            ).next_message() is None
        }),
{
}

} // verus!
