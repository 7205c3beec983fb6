//! Device-side USB logic: the error taxonomy of the control channel, the
//! UI state driven by received host messages, and the suspend/resume
//! transitions following the USB device state.
//!
//! Polling the USB peripheral, reading and writing endpoints, and driving
//! the modelled pin and display state out to the hardware are the
//! surrounding application's job.

use vstd::prelude::*;

use crate::common::Channel;
use crate::common::ChannelState;
use crate::common::DecodeError;
use crate::common::HostMessage;
use crate::display::Gui;
use crate::display::spec_icon_coords;
use crate::level::PwmLevel;
use crate::level::ShiftRegLevel;
use crate::level::spec_segments_lit;
use crate::pending::PendingUpdates;
use crate::pending::PendingView;
use crate::status_leds::ChannelStatusLeds;
use crate::status_leds::spec_button_led1;
use crate::status_leds::spec_button_led2;
use crate::status_leds::spec_led_for_state;
use crate::waveshare::spec_fb_partial_ops;
use crate::waveshare::spec_op_group;
use crate::waveshare::spec_zero_bytes;

verus! {

/// Ways a control-channel operation can fail.  `WouldBlock` is transient
/// and expected: the operation simply could not complete now and must be
/// retried next round, never treated as an error.
#[derive(Clone, Copy, PartialEq, Eq, Structural, Debug)]
pub enum Error {
    /// The USB peripheral reported a failure.
    Usb,
    /// A received frame could not be decoded; the datagram is dropped.
    Serdes(DecodeError),
    /// The operation could not complete immediately; retry next round.
    WouldBlock,
}

/// State of the USB device as the suspend logic reads it.
#[derive(Clone, Copy, PartialEq, Eq, Structural, Debug)]
pub enum LinkState {
    /// The bus is suspended: the UI must go dark.
    Suspend,
    /// The device is configured and running.
    Configured,
    /// Any other bus state: the UI mode is kept as it is.
    Other,
}

/// The whole device UI as one single-owner state struct: level indicators,
/// status LEDs, the GUI, and the suspended flag.  Each scheduler task
/// mutates it only through these methods, never concurrently.
pub struct DeviceUi {
    /// Whether the UI is in the suspended mode.
    pub suspended: bool,
    /// Bar indicator of the main channel's level.
    pub main_level: ShiftRegLevel,
    /// PWM indicators of channels one to four, by ordinal.
    pub ch1_level: PwmLevel,
    pub ch2_level: PwmLevel,
    pub ch3_level: PwmLevel,
    pub ch4_level: PwmLevel,
    /// Status LEDs of the main channel and of channels one to four.
    pub main_leds: ChannelStatusLeds,
    pub ch1_leds: ChannelStatusLeds,
    pub ch2_leds: ChannelStatusLeds,
    pub ch3_leds: ChannelStatusLeds,
    pub ch4_leds: ChannelStatusLeds,
    /// The display GUI.
    pub gui: Gui,
}

impl DeviceUi {
    /// The PWM level indicator of a non-main channel.
    pub open spec fn spec_level_of(self, ch: Channel) -> PwmLevel {
        match ch {
            Channel::Ch1 => self.ch1_level,
            Channel::Ch2 => self.ch2_level,
            Channel::Ch3 => self.ch3_level,
            Channel::Ch4 => self.ch4_level,
            Channel::Main => arbitrary(),
        }
    }

    /// The status LEDs of a channel.
    pub open spec fn spec_leds_of(self, ch: Channel) -> ChannelStatusLeds {
        match ch {
            Channel::Ch1 => self.ch1_leds,
            Channel::Ch2 => self.ch2_leds,
            Channel::Ch3 => self.ch3_leds,
            Channel::Ch4 => self.ch4_leds,
            Channel::Main => self.main_leds,
        }
    }

    /// The GUI invariant carries through.
    pub open spec fn wf(self) -> bool {
        self.gui.wf()
    }

    /// A fresh UI over a GUI: everything dark, not suspended — the boot
    /// state before the host asserts any state.
    pub fn new(gui: Gui) -> (r: Self)
        requires
            gui.wf(),
        ensures
            r.wf(),
            !r.suspended,
            r.main_level.segments_lit == 0,
            r.ch1_level == (PwmLevel { active: false, level: 0u16 }),
            r.ch2_level == (PwmLevel { active: false, level: 0u16 }),
            r.ch3_level == (PwmLevel { active: false, level: 0u16 }),
            r.ch4_level == (PwmLevel { active: false, level: 0u16 }),
            r.main_leds == (ChannelStatusLeds { sync_led: true, button_led1: true, button_led2: true }),
            r.ch1_leds == r.main_leds,
            r.ch2_leds == r.main_leds,
            r.ch3_leds == r.main_leds,
            r.ch4_leds == r.main_leds,
            r.gui == gui,
    {
        DeviceUi {
            suspended: false,
            main_level: ShiftRegLevel::new(),
            ch1_level: PwmLevel::new(),
            ch2_level: PwmLevel::new(),
            ch3_level: PwmLevel::new(),
            ch4_level: PwmLevel::new(),
            main_leds: ChannelStatusLeds::new(),
            ch1_leds: ChannelStatusLeds::new(),
            ch2_leds: ChannelStatusLeds::new(),
            ch3_leds: ChannelStatusLeds::new(),
            ch4_leds: ChannelStatusLeds::new(),
            gui,
        }
    }

    /// Apply one received host message to the UI and the pending state.
    ///
    /// Peak updates drive the level indicators (a level beyond full scale
    /// shows as full scale on the bar).  A channel-state update drives the
    /// channel's button LEDs, and a transition to `Inactive` additionally
    /// forces the channel's level indicator to zero and blanks its icon
    /// region — stale data must never remain visible for a channel with no
    /// attached stream.  `SetIcon` starts icon assembly; the main channel
    /// has no icon region, so `SetIcon` for it is ignored rather than
    /// trusted.  `ForceUpdate` raises the pending flag the fader task
    /// consumes.
    pub fn handle_host_message(&mut self, msg: HostMessage, pending: &mut PendingUpdates)
        requires
            old(self).wf(),
            old(pending)@.wf(),
        ensures
            final(self).wf(),
            final(pending)@.wf(),
            final(pending)@ == if msg == HostMessage::ForceUpdate {
                PendingView { force_update: true, ..old(pending)@ }
            } else {
                old(pending)@
            },
            match msg {
                HostMessage::UpdatePeak(Channel::Main, v) => *final(self) == (DeviceUi {
                    main_level: ShiftRegLevel {
                        segments_lit: spec_segments_lit(
                            if v <= crate::common::LEVEL_FULL {
                                v
                            } else {
                                crate::common::LEVEL_FULL
                            },
                        ),
                    },
                    ..*old(self)
                }),
                HostMessage::UpdatePeak(Channel::Ch1, v) => *final(self) == (DeviceUi {
                    ch1_level: PwmLevel { active: v > crate::level::PWM_CUTOFF, level: v },
                    ..*old(self)
                }),
                HostMessage::UpdatePeak(Channel::Ch2, v) => *final(self) == (DeviceUi {
                    ch2_level: PwmLevel { active: v > crate::level::PWM_CUTOFF, level: v },
                    ..*old(self)
                }),
                HostMessage::UpdatePeak(Channel::Ch3, v) => *final(self) == (DeviceUi {
                    ch3_level: PwmLevel { active: v > crate::level::PWM_CUTOFF, level: v },
                    ..*old(self)
                }),
                HostMessage::UpdatePeak(Channel::Ch4, v) => *final(self) == (DeviceUi {
                    ch4_level: PwmLevel { active: v > crate::level::PWM_CUTOFF, level: v },
                    ..*old(self)
                }),
                HostMessage::UpdateChannelState(Channel::Main, st) => *final(self) == (DeviceUi {
                    main_leds: ChannelStatusLeds {
                        sync_led: old(self).main_leds.sync_led,
                        button_led1: spec_button_led1(spec_led_for_state(st)),
                        button_led2: spec_button_led2(spec_led_for_state(st)),
                    },
                    ..*old(self)
                }),
                HostMessage::UpdateChannelState(ch, st) => final(self).spec_channel_state_applied(
                    *old(self),
                    ch,
                    st,
                ),
                HostMessage::SetIcon(Channel::Main) => *final(self) == *old(self),
                HostMessage::SetIcon(ch) => *final(self) == (DeviceUi {
                    gui: Gui {
                        active_icon_stream: Some(
                            crate::display::ActiveIconStream { ch, cursor: 0 },
                        ),
                        ..old(self).gui
                    },
                    ..*old(self)
                }),
                HostMessage::ForceUpdate => *final(self) == *old(self),
            },
    {
        match msg {
            HostMessage::UpdatePeak(Channel::Main, v) => {
                let clamped = if v <= crate::common::LEVEL_FULL {
                    v
                } else {
                    crate::common::LEVEL_FULL
                };
                self.main_level.update_level(clamped);
            }
            HostMessage::UpdatePeak(Channel::Ch1, v) => self.ch1_level.update_level(v),
            HostMessage::UpdatePeak(Channel::Ch2, v) => self.ch2_level.update_level(v),
            HostMessage::UpdatePeak(Channel::Ch3, v) => self.ch3_level.update_level(v),
            HostMessage::UpdatePeak(Channel::Ch4, v) => self.ch4_level.update_level(v),
            HostMessage::UpdateChannelState(Channel::Main, st) => {
                self.main_leds.set_button_led_state(st);
            }
            HostMessage::UpdateChannelState(ch, st) => {
                match ch {
                    Channel::Ch1 => self.ch1_leds.set_button_led_state(st),
                    Channel::Ch2 => self.ch2_leds.set_button_led_state(st),
                    Channel::Ch3 => self.ch3_leds.set_button_led_state(st),
                    Channel::Ch4 => self.ch4_leds.set_button_led_state(st),
                    Channel::Main => {}
                }
                if !st.is_active() {
                    match ch {
                        Channel::Ch1 => self.ch1_level.update_level(0),
                        Channel::Ch2 => self.ch2_level.update_level(0),
                        Channel::Ch3 => self.ch3_level.update_level(0),
                        Channel::Ch4 => self.ch4_level.update_level(0),
                        Channel::Main => {}
                    }
                    self.gui.clear_icon(ch);
                }
            }
            HostMessage::SetIcon(Channel::Main) => {}
            HostMessage::SetIcon(ch) => {
                self.gui.start_icon_stream(ch);
            }
            HostMessage::ForceUpdate => {
                pending.set_force_update();
            }
        }
    }

    /// What a channel-state update for a non-main channel leaves behind:
    /// the channel's button LEDs show the state, and on `Inactive` the
    /// channel's level indicator is zeroed and its icon region blanked in
    /// 25 four-row writes of zero pixels; everything else is untouched.
    pub open spec fn spec_channel_state_applied(
        self,
        pre: DeviceUi,
        ch: Channel,
        st: ChannelState,
    ) -> bool {
        let leds_set = ChannelStatusLeds {
            sync_led: pre.spec_leds_of(ch).sync_led,
            button_led1: spec_button_led1(spec_led_for_state(st)),
            button_led2: spec_button_led2(spec_led_for_state(st)),
        };
        &&& self.suspended == pre.suspended
        &&& self.main_level == pre.main_level
        &&& self.main_leds == pre.main_leds
        &&& self.spec_leds_of(ch) == leds_set
        &&& forall|c: Channel|
            c != ch && c != Channel::Main ==> self.spec_leds_of(c) == pre.spec_leds_of(c)
        &&& if st == ChannelState::Inactive {
            &&& self.spec_level_of(ch) == PwmLevel { active: false, level: 0u16 }
            &&& forall|c: Channel|
                c != ch && c != Channel::Main ==> self.spec_level_of(c) == pre.spec_level_of(c)
            &&& self.gui.backlight_on == pre.gui.backlight_on
            &&& self.gui.icon_buf == pre.gui.icon_buf
            &&& self.gui.active_icon_stream == pre.gui.active_icon_stream
            &&& self.gui.display.ops_view().len() == pre.gui.display.ops_view().len() + 75
            &&& self.gui.display.ops_view().take(pre.gui.display.ops_view().len() as int)
                =~= pre.gui.display.ops_view()
            &&& forall|g: int|
                0 <= g < 25 ==> spec_op_group(
                    self.gui.display.ops_view(),
                    pre.gui.display.ops_view().len() as int,
                    g,
                ) =~= spec_fb_partial_ops(
                    spec_icon_coords(ch).0,
                    (spec_icon_coords(ch).1 + 4 * g) as u16,
                    spec_icon_coords(ch).2,
                    (spec_icon_coords(ch).1 + 4 * g + 3) as u16,
                    spec_zero_bytes(800),
                )
        } else {
            &&& self.spec_level_of(ch) == pre.spec_level_of(ch)
            &&& forall|c: Channel|
                c != ch && c != Channel::Main ==> self.spec_level_of(c) == pre.spec_level_of(c)
            &&& self.gui == pre.gui
        }
    }

    /// Follow the USB device state: entering suspend forces the whole UI
    /// dark — backlight off, every level indicator at zero, every LED off;
    /// leaving it blanks the screen and lights the backlight again, and the
    /// host's own updates re-assert the rest.  Any other bus state keeps
    /// the current mode.
    pub fn set_link_state(&mut self, state: LinkState)
        requires
            old(self).wf(),
        ensures
            final(self).wf(),
            ({
                let ns = match state {
                    LinkState::Suspend => true,
                    LinkState::Configured => false,
                    LinkState::Other => old(self).suspended,
                };
                &&& final(self).suspended == ns
                &&& if ns == old(self).suspended {
                    *final(self) == *old(self)
                } else if ns {
                    *final(self) == (DeviceUi {
                        suspended: true,
                        main_level: ShiftRegLevel { segments_lit: 0u16 },
                        ch1_level: PwmLevel { active: false, level: 0u16 },
                        ch2_level: PwmLevel { active: false, level: 0u16 },
                        ch3_level: PwmLevel { active: false, level: 0u16 },
                        ch4_level: PwmLevel { active: false, level: 0u16 },
                        main_leds: ChannelStatusLeds {
                            sync_led: true,
                            button_led1: true,
                            button_led2: true,
                        },
                        ch1_leds: ChannelStatusLeds {
                            sync_led: true,
                            button_led1: true,
                            button_led2: true,
                        },
                        ch2_leds: ChannelStatusLeds {
                            sync_led: true,
                            button_led1: true,
                            button_led2: true,
                        },
                        ch3_leds: ChannelStatusLeds {
                            sync_led: true,
                            button_led1: true,
                            button_led2: true,
                        },
                        ch4_leds: ChannelStatusLeds {
                            sync_led: true,
                            button_led1: true,
                            button_led2: true,
                        },
                        gui: Gui { backlight_on: false, ..old(self).gui },
                    })
                } else {
                    &&& final(self).main_level == old(self).main_level
                    &&& final(self).ch1_level == old(self).ch1_level
                    &&& final(self).ch2_level == old(self).ch2_level
                    &&& final(self).ch3_level == old(self).ch3_level
                    &&& final(self).ch4_level == old(self).ch4_level
                    &&& final(self).main_leds == old(self).main_leds
                    &&& final(self).ch1_leds == old(self).ch1_leds
                    &&& final(self).ch2_leds == old(self).ch2_leds
                    &&& final(self).ch3_leds == old(self).ch3_leds
                    &&& final(self).ch4_leds == old(self).ch4_leds
                    &&& final(self).gui.backlight_on
                    &&& final(self).gui.icon_buf == old(self).gui.icon_buf
                    &&& final(self).gui.active_icon_stream == old(self).gui.active_icon_stream
                    &&& final(self).gui.display.ops_view().len() == old(
                        self,
                    ).gui.display.ops_view().len() + 180
                    &&& final(self).gui.display.ops_view().take(
                        old(self).gui.display.ops_view().len() as int,
                    ) =~= old(self).gui.display.ops_view()
                    &&& forall|g: int|
                        0 <= g < 60 ==> spec_op_group(
                            final(self).gui.display.ops_view(),
                            old(self).gui.display.ops_view().len() as int,
                            g,
                        ) =~= spec_fb_partial_ops(
                            0,
                            (4 * g) as u16,
                            239,
                            (4 * g + 3) as u16,
                            spec_zero_bytes(1920),
                        )
                }
            }),
    {
        let new_suspend = match state {
            LinkState::Suspend => true,
            LinkState::Configured => false,
            LinkState::Other => self.suspended,
        };
        if self.suspended != new_suspend {
            if new_suspend {
                // Going into suspend: turn off all UI.
                self.gui.suspend();
                self.ch1_level.update_level(0);
                self.ch2_level.update_level(0);
                self.ch3_level.update_level(0);
                self.ch4_level.update_level(0);
                self.main_level.update_level(0);
                self.ch1_leds.set_button_led_state(ChannelState::Inactive);
                self.ch2_leds.set_button_led_state(ChannelState::Inactive);
                self.ch3_leds.set_button_led_state(ChannelState::Inactive);
                self.ch4_leds.set_button_led_state(ChannelState::Inactive);
                self.main_leds.set_button_led_state(ChannelState::Inactive);
                self.ch1_leds.set_sync(false);
                self.ch2_leds.set_sync(false);
                self.ch3_leds.set_sync(false);
                self.ch4_leds.set_sync(false);
                self.main_leds.set_sync(false);
            } else {
                self.gui.resume();
            }
        }
        self.suspended = new_suspend;
    }
}

} // verus!
