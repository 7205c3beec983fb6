//! Host event dispatching: one mixer state over the five channel engines,
//! translating audio-server events and device messages into engine calls,
//! stream instructions and outgoing protocol messages.
//!
//! The blocking loops — audio-server iteration, USB reads — live in the
//! surrounding application; it drains its queues and calls one method here
//! per event, all from a single thread.

use vstd::prelude::*;

use crate::channel::Channel as EngineChannel;
use crate::channel::StreamSync;
use crate::channel::spec_attach_relation;
use crate::channel::spec_drop_relation;
use crate::channel::spec_is_empty;
use crate::channel::spec_max_peak;
use crate::channel::spec_occupied;
use crate::channel::spec_occupied_indices;
use crate::channel::spec_peak_update;
use crate::channel::StreamData;
use crate::common::Channel;
use crate::common::ChannelState;
use crate::common::HostMessage;
use crate::common::LEVEL_FULL;
use crate::config::Config;
use crate::config::IconMapping;
use crate::config::SinkPeakMultiplier;
use crate::config::set_ok;
use crate::config::spec_set_ok;
use crate::pa::SinkInfo;
use crate::pa::SinkInputInfo;

verus! {

/// The mixer's host-side state: one engine per physical channel, the name
/// of the active output device, and the configured peak multipliers and
/// icon mappings.
pub struct Mixer {
    /// The main channel, bound to the server's default output.
    pub main: EngineChannel,
    /// Channels one to four, matched against configured property sets.
    pub ch1: EngineChannel,
    pub ch2: EngineChannel,
    pub ch3: EngineChannel,
    pub ch4: EngineChannel,
    /// Name of the current default output device, used for peak scaling.
    pub active_sink: Option<String>,
    /// Peak scaling per output device.
    pub sink_peak_multiplier: Vec<SinkPeakMultiplier>,
    /// Icon lookup by stream properties.
    pub icon_mappings: Vec<IconMapping>,
}

/// The engine of a channel.
pub open spec fn spec_engine_of(m: Mixer, ch: Channel) -> EngineChannel {
    match ch {
        Channel::Main => m.main,
        Channel::Ch1 => m.ch1,
        Channel::Ch2 => m.ch2,
        Channel::Ch3 => m.ch3,
        Channel::Ch4 => m.ch4,
    }
}

/// Everything but the engine of `ch` is untouched.
pub open spec fn spec_frame_except(pre: Mixer, post: Mixer, ch: Channel) -> bool {
    &&& post.active_sink == pre.active_sink
    &&& post.sink_peak_multiplier == pre.sink_peak_multiplier
    &&& post.icon_mappings == pre.icon_mappings
    &&& (ch != Channel::Main ==> post.main == pre.main)
    &&& (ch != Channel::Ch1 ==> post.ch1 == pre.ch1)
    &&& (ch != Channel::Ch2 ==> post.ch2 == pre.ch2)
    &&& (ch != Channel::Ch3 ==> post.ch3 == pre.ch3)
    &&& (ch != Channel::Ch4 ==> post.ch4 == pre.ch4)
}

/// Whether a channel holds a stream monitoring this sink-input.
pub open spec fn spec_has_sink_input(c: EngineChannel, sink_input: u32) -> bool {
    exists|j: int|
        spec_occupied(c.attached_streams@, j) && c.attached_streams@[j]->0.sink_input == Some(
            sink_input,
        )
}

/// The first configured channel, in order, that matches the stream.
pub open spec fn spec_first_match(m: Mixer, info: SinkInputInfo) -> Option<Channel> {
    if m.ch1.spec_matches_sink_input(info) {
        Some(Channel::Ch1)
    } else if m.ch2.spec_matches_sink_input(info) {
        Some(Channel::Ch2)
    } else if m.ch3.spec_matches_sink_input(info) {
        Some(Channel::Ch3)
    } else if m.ch4.spec_matches_sink_input(info) {
        Some(Channel::Ch4)
    } else {
        None
    }
}

/// The multiplier configured for the named output device: the first entry
/// with that name wins.
pub open spec fn spec_multiplier_for(name: Seq<char>, multis: Seq<SinkPeakMultiplier>) -> Option<
    u16,
>
    decreases multis.len(),
{
    if multis.len() == 0 {
        None
    } else if multis[0].sink_name@ == name {
        Some(multis[0].multiplier)
    } else {
        spec_multiplier_for(name, multis.drop_first())
    }
}

/// A peak scaled by a multiplier in ten-thousandths, saturating at full
/// scale.
pub open spec fn spec_saturating_scale(peak: u16, m: u16) -> u16 {
    let x = peak * m / (LEVEL_FULL as int);
    if x > LEVEL_FULL {
        LEVEL_FULL
    } else {
        x as u16
    }
}

/// The peak as it goes out to the device: scaled by the active output
/// device's configured multiplier, if one is configured.
pub open spec fn spec_scaled_peak(
    peak: u16,
    active: Option<String>,
    multis: Seq<SinkPeakMultiplier>,
) -> u16 {
    match active {
        Some(name) => match spec_multiplier_for(name@, multis) {
            Some(m) => spec_saturating_scale(peak, m),
            None => peak,
        },
        None => peak,
    }
}

/// The icon name configured for a stream with these properties: the first
/// mapping whose constraints are all satisfied wins.
pub open spec fn spec_icon_for(mappings: Seq<IconMapping>, props: Seq<(String, String)>) -> Option<
    String,
>
    decreases mappings.len(),
{
    if mappings.len() == 0 {
        None
    } else if spec_set_ok(props, mappings[0].property_matches@) {
        Some(mappings[0].icon)
    } else {
        spec_icon_for(mappings.drop_first(), props)
    }
}

/// The messages that put the device into a known state at startup: every
/// channel is declared inactive with a zero peak, `Main` first, then the
/// device is asked to re-report its own full state.
pub open spec fn spec_startup_messages() -> Seq<HostMessage> {
    seq![
        HostMessage::UpdateChannelState(Channel::Main, ChannelState::Inactive),
        HostMessage::UpdatePeak(Channel::Main, 0u16),
        HostMessage::UpdateChannelState(Channel::Ch1, ChannelState::Inactive),
        HostMessage::UpdatePeak(Channel::Ch1, 0u16),
        HostMessage::UpdateChannelState(Channel::Ch2, ChannelState::Inactive),
        HostMessage::UpdatePeak(Channel::Ch2, 0u16),
        HostMessage::UpdateChannelState(Channel::Ch3, ChannelState::Inactive),
        HostMessage::UpdatePeak(Channel::Ch3, 0u16),
        HostMessage::UpdateChannelState(Channel::Ch4, ChannelState::Inactive),
        HostMessage::UpdatePeak(Channel::Ch4, 0u16),
        HostMessage::ForceUpdate,
    ]
}

impl Mixer {
    /// Build the mixer from the configuration: four matched channels, a
    /// main channel without match-sets, no active output yet.
    pub fn new(config: Config) -> (r: Self)
        ensures
            r.main.property_matches is None,
            r.ch1.property_matches == Some(config.channel_1.property_matches),
            r.ch2.property_matches == Some(config.channel_2.property_matches),
            r.ch3.property_matches == Some(config.channel_3.property_matches),
            r.ch4.property_matches == Some(config.channel_4.property_matches),
            r.main.attached_streams@.len() == 0 && !r.main.mute && r.main.volume is None,
            r.ch1.attached_streams@.len() == 0 && !r.ch1.mute && r.ch1.volume is None,
            r.ch2.attached_streams@.len() == 0 && !r.ch2.mute && r.ch2.volume is None,
            r.ch3.attached_streams@.len() == 0 && !r.ch3.mute && r.ch3.volume is None,
            r.ch4.attached_streams@.len() == 0 && !r.ch4.mute && r.ch4.volume is None,
            r.active_sink is None,
            r.sink_peak_multiplier == config.sink_peak_multiplier,
            r.icon_mappings == config.icon_mappings,
    {
        Mixer {
            main: EngineChannel::new(None),
            ch1: EngineChannel::new(Some(config.channel_1.property_matches)),
            ch2: EngineChannel::new(Some(config.channel_2.property_matches)),
            ch3: EngineChannel::new(Some(config.channel_3.property_matches)),
            ch4: EngineChannel::new(Some(config.channel_4.property_matches)),
            active_sink: None,
            sink_peak_multiplier: config.sink_peak_multiplier,
            icon_mappings: config.icon_mappings,
        }
    }

    /// The messages to send once at startup, after stale device messages
    /// were drained: full known state for all five channels, then a forced
    /// update request.
    pub fn startup_messages() -> (r: Vec<HostMessage>)
        ensures
            r@ =~= spec_startup_messages(),
    {
        let mut out: Vec<HostMessage> = Vec::new();
        let mut i: usize = 0;
        while i < 5
            invariant
                i <= 5,
                out@.len() == 2 * i,
                forall|k: int|
                    0 <= k < 2 * i ==> out@[k] == spec_startup_messages()[k],
            decreases 5 - i,
        {
            let ch = crate::pending::channel_of_slot(i);
            out.push(HostMessage::UpdateChannelState(ch, ChannelState::Inactive));
            out.push(HostMessage::UpdatePeak(ch, 0));
            i += 1;
        }
        out.push(HostMessage::ForceUpdate);
        out
    }

    /// The default output changed: the main channel drops all its streams
    /// and binds the new default sink's monitoring stream.  Returns the
    /// arena index the stream was stored under, what the stream must be
    /// told to conform, and the state message to send to the device.
    pub fn on_new_default_sink(&mut self, info: SinkInfo) -> (r: (usize, StreamSync, HostMessage))
        ensures
            final(self).main.attached_streams@ =~= seq![
                Some(StreamData { sink_input: None, last_peak: 0u16 }),
            ],
            final(self).main.mute == info.mute,
            final(self).main.volume == old(self).main.volume,
            final(self).main.property_matches == old(self).main.property_matches,
            final(self).ch1 == old(self).ch1,
            final(self).ch2 == old(self).ch2,
            final(self).ch3 == old(self).ch3,
            final(self).ch4 == old(self).ch4,
            final(self).active_sink == info.name,
            final(self).sink_peak_multiplier == old(self).sink_peak_multiplier,
            final(self).icon_mappings == old(self).icon_mappings,
            r.0 == 0,
            r.1 == (StreamSync { set_mute: None, set_volume: old(self).main.volume }),
            r.2 == HostMessage::UpdateChannelState(
                Channel::Main,
                if info.mute {
                    ChannelState::Muted
                } else {
                    ChannelState::Running
                },
            ),
    {
        self.main.detach_all();
        let (index, state, sync) = self.main.attach_stream(None, info.mute);
        self.active_sink = info.name;
        proof {
            assert(spec_occupied(self.main.attached_streams@, 0));
        }
        (index, sync, HostMessage::UpdateChannelState(Channel::Main, state))
    }

    /// New peak data arrived for the stream at an arena index of a
    /// channel: the engine's aggregate is recomputed and goes out scaled
    /// by the active output's multiplier.  A sample of `None` keeps the
    /// stream's cached peak (the audio layer had nothing new); the caller
    /// maps a failed peak read to `Some(0)`.
    pub fn on_peak_data(&mut self, ch: Channel, index: usize, sample: Option<u16>) -> (msg:
        HostMessage)
        ensures
            spec_frame_except(*old(self), *final(self), ch),
            ({
                let pre = spec_engine_of(*old(self), ch);
                let post = spec_engine_of(*final(self), ch);
                &&& post.attached_streams@ == spec_peak_update(
                    pre.attached_streams@,
                    index as int,
                    sample,
                )
                &&& post.property_matches == pre.property_matches
                &&& post.mute == pre.mute
                &&& post.volume == pre.volume
                &&& msg == HostMessage::UpdatePeak(
                    ch,
                    spec_scaled_peak(
                        spec_max_peak(post.attached_streams@),
                        old(self).active_sink,
                        old(self).sink_peak_multiplier@,
                    ),
                )
            }),
    {
        let peak = match ch {
            Channel::Main => self.main.update_peak(index, sample),
            Channel::Ch1 => self.ch1.update_peak(index, sample),
            Channel::Ch2 => self.ch2.update_peak(index, sample),
            Channel::Ch3 => self.ch3.update_peak(index, sample),
            Channel::Ch4 => self.ch4.update_peak(index, sample),
        };
        let scaled = self.scaled_peak(peak);
        HostMessage::UpdatePeak(ch, scaled)
    }

    /// Scale a peak by the active output device's configured multiplier.
    fn scaled_peak(&self, peak: u16) -> (r: u16)
        ensures
            r == spec_scaled_peak(peak, self.active_sink, self.sink_peak_multiplier@),
    {
        let name = match &self.active_sink {
            Some(name) => name,
            None => {
                return peak;
            }
        };
        let n = self.sink_peak_multiplier.len();
        proof {
            assert(self.sink_peak_multiplier@.subrange(0, n as int) =~= self.sink_peak_multiplier@);
        }
        let mut i: usize = 0;
        while i < n
            invariant
                n == self.sink_peak_multiplier@.len(),
                i <= n,
                self.active_sink == Some(*name),
                spec_multiplier_for(name@, self.sink_peak_multiplier@) == spec_multiplier_for(
                    name@,
                    self.sink_peak_multiplier@.subrange(i as int, n as int),
                ),
            decreases n - i,
        {
            proof {
                let rest = self.sink_peak_multiplier@.subrange(i as int, n as int);
                assert(rest[0] == self.sink_peak_multiplier@[i as int]);
                assert(rest.drop_first() =~= self.sink_peak_multiplier@.subrange(
                    i + 1,
                    n as int,
                ));
            }
            if self.sink_peak_multiplier[i].sink_name == *name {
                let m = self.sink_peak_multiplier[i].multiplier;
                assert(peak * m <= 4294836225) by (nonlinear_arith)
                    requires
                        peak <= 65535,
                        m <= 65535,
                ;
                assert(peak * m / 10000 == (peak as u32) * (m as u32) / 10000);
                let x: u32 = (peak as u32) * (m as u32) / 10000;
                return if x > LEVEL_FULL as u32 {
                    LEVEL_FULL
                } else {
                    x as u16
                };
            }
            i += 1;
        }
        proof {
            assert(self.sink_peak_multiplier@.subrange(n as int, n as int) =~= Seq::<
                SinkPeakMultiplier,
            >::empty());
        }
        peak
    }

    /// A new sink-input appeared: the first configured channel whose
    /// match-sets it satisfies should have a monitoring stream requested
    /// for it; a stream matches at most one channel.
    pub fn on_sink_input_added(&self, info: &SinkInputInfo) -> (r: Option<Channel>)
        ensures
            r == spec_first_match(*self, *info),
    {
        if self.ch1.match_sink_input(info) {
            Some(Channel::Ch1)
        } else if self.ch2.match_sink_input(info) {
            Some(Channel::Ch2)
        } else if self.ch3.match_sink_input(info) {
            Some(Channel::Ch3)
        } else if self.ch4.match_sink_input(info) {
            Some(Channel::Ch4)
        } else {
            None
        }
    }

    /// A monitoring stream for a sink-input is ready for a channel.  If
    /// the channel does not already hold this sink-input, the stream is
    /// attached: the result carries the arena index, what the stream must
    /// be told to conform, the state message to send, and the configured
    /// icon name to display, if any.
    pub fn on_new_sink_input(&mut self, ch: Channel, info: &SinkInputInfo) -> (r: Option<
        (usize, StreamSync, HostMessage, Option<String>),
    >)
        requires
            ch != Channel::Main,
        ensures
            match r {
                None => spec_has_sink_input(spec_engine_of(*old(self), ch), info.index)
                    && *final(self) == *old(self),
                Some(t) => {
                    &&& !spec_has_sink_input(spec_engine_of(*old(self), ch), info.index)
                    &&& spec_frame_except(*old(self), *final(self), ch)
                    &&& spec_attach_relation(
                        spec_engine_of(*old(self), ch),
                        spec_engine_of(*final(self), ch),
                        Some(info.index),
                        info.mute,
                        t.0 as int,
                    )
                    &&& t.1.set_mute == if info.mute != spec_engine_of(*final(self), ch).mute {
                        Some(spec_engine_of(*final(self), ch).mute)
                    } else {
                        None::<bool>
                    }
                    &&& t.1.set_volume == spec_engine_of(*old(self), ch).volume
                    &&& t.2 == HostMessage::UpdateChannelState(
                        ch,
                        spec_engine_of(*final(self), ch).spec_state(),
                    )
                    &&& t.3 == spec_icon_for(old(self).icon_mappings@, info.properties@)
                },
            },
    {
        let already = match ch {
            Channel::Ch1 => self.ch1.index_for_sink_input(info.index),
            Channel::Ch2 => self.ch2.index_for_sink_input(info.index),
            Channel::Ch3 => self.ch3.index_for_sink_input(info.index),
            Channel::Ch4 => self.ch4.index_for_sink_input(info.index),
            Channel::Main => None,
        };
        match already {
            Some(_) => None,
            None => {
                let (index, state, sync) = match ch {
                    Channel::Ch1 => self.ch1.attach_stream(Some(info.index), info.mute),
                    Channel::Ch2 => self.ch2.attach_stream(Some(info.index), info.mute),
                    Channel::Ch3 => self.ch3.attach_stream(Some(info.index), info.mute),
                    Channel::Ch4 => self.ch4.attach_stream(Some(info.index), info.mute),
                    Channel::Main => self.main.attach_stream(Some(info.index), info.mute),
                };
                let icon = self.icon_for(info);
                Some((index, sync, HostMessage::UpdateChannelState(ch, state), icon))
            }
        }
    }

    /// The icon name configured for a stream with these properties.
    fn icon_for(&self, info: &SinkInputInfo) -> (r: Option<String>)
        ensures
            r == spec_icon_for(self.icon_mappings@, info.properties@),
    {
        let n = self.icon_mappings.len();
        proof {
            assert(self.icon_mappings@.subrange(0, n as int) =~= self.icon_mappings@);
        }
        let mut i: usize = 0;
        while i < n
            invariant
                n == self.icon_mappings@.len(),
                i <= n,
                spec_icon_for(self.icon_mappings@, info.properties@) == spec_icon_for(
                    self.icon_mappings@.subrange(i as int, n as int),
                    info.properties@,
                ),
            decreases n - i,
        {
            proof {
                let rest = self.icon_mappings@.subrange(i as int, n as int);
                assert(rest[0] == self.icon_mappings@[i as int]);
                assert(rest.drop_first() =~= self.icon_mappings@.subrange(i + 1, n as int));
            }
            if set_ok(&info.properties, &self.icon_mappings[i].property_matches) {
                return Some(self.icon_mappings[i].icon.clone());
            }
            i += 1;
        }
        proof {
            assert(self.icon_mappings@.subrange(n as int, n as int) =~= Seq::<
                IconMapping,
            >::empty());
        }
        None
    }

    /// A sink-input changed, possibly moving to another channel.  When the
    /// first channel that now matches it does not already own it, it is
    /// dropped from every configured channel — each reporting its new
    /// state — and a fresh stream should be requested for the new owner.
    pub fn on_sink_input_changed(&mut self, info: &SinkInputInfo) -> (r: Option<
        (Channel, Vec<HostMessage>),
    >)
        ensures
            match r {
                None => {
                    &&& *final(self) == *old(self)
                    &&& (spec_first_match(*old(self), *info) is None || spec_has_sink_input(
                        spec_engine_of(*old(self), spec_first_match(*old(self), *info)->0),
                        info.index,
                    ))
                },
                Some(t) => {
                    &&& spec_first_match(*old(self), *info) == Some(t.0)
                    &&& !spec_has_sink_input(spec_engine_of(*old(self), t.0), info.index)
                    &&& spec_drop_relation(old(self).ch1, final(self).ch1, info.index)
                    &&& spec_drop_relation(old(self).ch2, final(self).ch2, info.index)
                    &&& spec_drop_relation(old(self).ch3, final(self).ch3, info.index)
                    &&& spec_drop_relation(old(self).ch4, final(self).ch4, info.index)
                    &&& final(self).main == old(self).main
                    &&& final(self).active_sink == old(self).active_sink
                    &&& final(self).sink_peak_multiplier == old(self).sink_peak_multiplier
                    &&& final(self).icon_mappings == old(self).icon_mappings
                    &&& t.1@.len() == 4
                    &&& t.1@[0] == HostMessage::UpdateChannelState(
                        Channel::Ch1,
                        final(self).ch1.spec_state(),
                    )
                    &&& t.1@[1] == HostMessage::UpdateChannelState(
                        Channel::Ch2,
                        final(self).ch2.spec_state(),
                    )
                    &&& t.1@[2] == HostMessage::UpdateChannelState(
                        Channel::Ch3,
                        final(self).ch3.spec_state(),
                    )
                    &&& t.1@[3] == HostMessage::UpdateChannelState(
                        Channel::Ch4,
                        final(self).ch4.spec_state(),
                    )
                },
            },
    {
        let target = if self.ch1.match_sink_input(info) {
            Channel::Ch1
        } else if self.ch2.match_sink_input(info) {
            Channel::Ch2
        } else if self.ch3.match_sink_input(info) {
            Channel::Ch3
        } else if self.ch4.match_sink_input(info) {
            Channel::Ch4
        } else {
            return None;
        };
        let already = match target {
            Channel::Ch1 => self.ch1.index_for_sink_input(info.index),
            Channel::Ch2 => self.ch2.index_for_sink_input(info.index),
            Channel::Ch3 => self.ch3.index_for_sink_input(info.index),
            Channel::Ch4 => self.ch4.index_for_sink_input(info.index),
            Channel::Main => None,
        };
        if already.is_some() {
            return None;
        }
        let msgs = self.drop_from_all(info.index);
        Some((target, msgs))
    }

    /// A sink-input went away: it is dropped from every configured
    /// channel, and each channel's new state goes out to the device.
    pub fn on_sink_input_removed(&mut self, index: u32) -> (msgs: Vec<HostMessage>)
        ensures
            spec_drop_relation(old(self).ch1, final(self).ch1, index),
            spec_drop_relation(old(self).ch2, final(self).ch2, index),
            spec_drop_relation(old(self).ch3, final(self).ch3, index),
            spec_drop_relation(old(self).ch4, final(self).ch4, index),
            final(self).main == old(self).main,
            final(self).active_sink == old(self).active_sink,
            final(self).sink_peak_multiplier == old(self).sink_peak_multiplier,
            final(self).icon_mappings == old(self).icon_mappings,
            msgs@.len() == 4,
            msgs@[0] == HostMessage::UpdateChannelState(Channel::Ch1, final(self).ch1.spec_state()),
            msgs@[1] == HostMessage::UpdateChannelState(Channel::Ch2, final(self).ch2.spec_state()),
            msgs@[2] == HostMessage::UpdateChannelState(Channel::Ch3, final(self).ch3.spec_state()),
            msgs@[3] == HostMessage::UpdateChannelState(Channel::Ch4, final(self).ch4.spec_state()),
    {
        self.drop_from_all(index)
    }

    /// Drop a sink-input from all four configured channels, reporting each
    /// channel's resulting state in order.
    fn drop_from_all(&mut self, index: u32) -> (msgs: Vec<HostMessage>)
        ensures
            spec_drop_relation(old(self).ch1, final(self).ch1, index),
            spec_drop_relation(old(self).ch2, final(self).ch2, index),
            spec_drop_relation(old(self).ch3, final(self).ch3, index),
            spec_drop_relation(old(self).ch4, final(self).ch4, index),
            final(self).main == old(self).main,
            final(self).active_sink == old(self).active_sink,
            final(self).sink_peak_multiplier == old(self).sink_peak_multiplier,
            final(self).icon_mappings == old(self).icon_mappings,
            msgs@.len() == 4,
            msgs@[0] == HostMessage::UpdateChannelState(Channel::Ch1, final(self).ch1.spec_state()),
            msgs@[1] == HostMessage::UpdateChannelState(Channel::Ch2, final(self).ch2.spec_state()),
            msgs@[2] == HostMessage::UpdateChannelState(Channel::Ch3, final(self).ch3.spec_state()),
            msgs@[3] == HostMessage::UpdateChannelState(Channel::Ch4, final(self).ch4.spec_state()),
    {
        let mut msgs: Vec<HostMessage> = Vec::new();
        let s1 = self.ch1.try_drop_stream(index);
        msgs.push(HostMessage::UpdateChannelState(Channel::Ch1, s1));
        let s2 = self.ch2.try_drop_stream(index);
        msgs.push(HostMessage::UpdateChannelState(Channel::Ch2, s2));
        let s3 = self.ch3.try_drop_stream(index);
        msgs.push(HostMessage::UpdateChannelState(Channel::Ch3, s3));
        let s4 = self.ch4.try_drop_stream(index);
        msgs.push(HostMessage::UpdateChannelState(Channel::Ch4, s4));
        msgs
    }

    /// The device reported a fader move: the channel stores the volume and
    /// the caller applies it to the streams at the returned arena indices.
    pub fn on_update_volume(&mut self, ch: Channel, volume: u16) -> (indices: Vec<usize>)
        ensures
            spec_frame_except(*old(self), *final(self), ch),
            ({
                let pre = spec_engine_of(*old(self), ch);
                let post = spec_engine_of(*final(self), ch);
                &&& post.attached_streams@ == pre.attached_streams@
                &&& post.property_matches == pre.property_matches
                &&& post.mute == pre.mute
                &&& post.volume == Some(volume)
                &&& indices@.map_values(|x: usize| x as int) == spec_occupied_indices(
                    post.attached_streams@,
                )
            }),
    {
        match ch {
            Channel::Main => self.main.update_volume(volume),
            Channel::Ch1 => self.ch1.update_volume(volume),
            Channel::Ch2 => self.ch2.update_volume(volume),
            Channel::Ch3 => self.ch3.update_volume(volume),
            Channel::Ch4 => self.ch4.update_volume(volume),
        }
    }

    /// The device reported a mute-button press: the channel's authority
    /// flips, the new state goes out to the device, and the caller applies
    /// the returned flag to the streams at the returned arena indices.
    pub fn on_toggle_mute(&mut self, ch: Channel) -> (r: (HostMessage, bool, Vec<usize>))
        ensures
            spec_frame_except(*old(self), *final(self), ch),
            ({
                let pre = spec_engine_of(*old(self), ch);
                let post = spec_engine_of(*final(self), ch);
                &&& post.attached_streams@ == pre.attached_streams@
                &&& post.property_matches == pre.property_matches
                &&& post.mute == !pre.mute
                &&& post.volume == pre.volume
                &&& r.0 == HostMessage::UpdateChannelState(ch, post.spec_state())
                &&& r.1 == post.mute
                &&& r.2@.map_values(|x: usize| x as int) == spec_occupied_indices(
                    post.attached_streams@,
                )
            }),
    {
        let (state, indices) = match ch {
            Channel::Main => self.main.toggle_mute(),
            Channel::Ch1 => self.ch1.toggle_mute(),
            Channel::Ch2 => self.ch2.toggle_mute(),
            Channel::Ch3 => self.ch3.toggle_mute(),
            Channel::Ch4 => self.ch4.toggle_mute(),
        };
        let muted = match ch {
            Channel::Main => self.main.mute,
            Channel::Ch1 => self.ch1.mute,
            Channel::Ch2 => self.ch2.mute,
            Channel::Ch3 => self.ch3.mute,
            Channel::Ch4 => self.ch4.mute,
        };
        (HostMessage::UpdateChannelState(ch, state), muted, indices)
    }
}

} // verus!
