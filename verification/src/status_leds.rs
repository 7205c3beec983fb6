//! Per-channel status LEDs, modelled by the pin levels the port expander
//! must be driven to.  The two-LED button indicator shows a tri-state
//! colour mapped from the channel state; all LED outputs are active-low.

use vstd::prelude::*;

use crate::common::ChannelState;

verus! {

/// Colour of the two-LED button indicator.
#[derive(Clone, Copy, PartialEq, Eq, Structural, Debug)]
pub enum Led {
    Green,
    Red,
    Off,
}

/// The indicator colour a channel state is shown as: off when inactive,
/// green when running, red when muted.
pub open spec fn spec_led_for_state(state: ChannelState) -> Led {
    match state {
        ChannelState::Inactive => Led::Off,
        ChannelState::Running => Led::Green,
        ChannelState::Muted => Led::Red,
    }
}

/// Pin level of the first button LED for a colour (active-low green).
pub open spec fn spec_button_led1(led: Led) -> bool {
    match led {
        Led::Green => true,
        Led::Red => false,
        Led::Off => true,
    }
}

/// Pin level of the second button LED for a colour (active-low red).
pub open spec fn spec_button_led2(led: Led) -> bool {
    match led {
        Led::Green => false,
        Led::Red => true,
        Led::Off => true,
    }
}

/// The status LEDs of one channel: the pin levels they are driven to.
pub struct ChannelStatusLeds {
    /// Pin level of the desync indicator LED (lit when low).
    pub sync_led: bool,
    /// Pin level of the first LED of the button indicator.
    pub button_led1: bool,
    /// Pin level of the second LED of the button indicator.
    pub button_led2: bool,
}

impl ChannelStatusLeds {
    /// Fresh LED state with every pin high, so every LED dark.
    pub fn new() -> (r: Self)
        ensures
            r.sync_led,
            r.button_led1,
            r.button_led2,
    {
        ChannelStatusLeds { sync_led: true, button_led1: true, button_led2: true }
    }

    /// Show or hide the sync indicator; the LED is active-low.
    pub fn set_sync(&mut self, state: bool)
        ensures
            final(self).sync_led == !state,
            final(self).button_led1 == old(self).button_led1,
            final(self).button_led2 == old(self).button_led2,
    {
        self.sync_led = !state;
    }

    /// Show a channel state on the button indicator.
    pub fn set_button_led_state(&mut self, state: ChannelState)
        ensures
            final(self).sync_led == old(self).sync_led,
            final(self).button_led1 == spec_button_led1(spec_led_for_state(state)),
            final(self).button_led2 == spec_button_led2(spec_led_for_state(state)),
    {
        let led = match state {
            ChannelState::Inactive => Led::Off,
            ChannelState::Running => Led::Green,
            ChannelState::Muted => Led::Red,
        };
        self.set_button_led(led);
    }

    /// Show a colour on the button indicator.
    pub fn set_button_led(&mut self, state: Led)
        ensures
            final(self).sync_led == old(self).sync_led,
            final(self).button_led1 == spec_button_led1(state),
            final(self).button_led2 == spec_button_led2(state),
    {
        match state {
            Led::Green => {
                self.button_led1 = true;
                self.button_led2 = false;
            }
            Led::Red => {
                self.button_led1 = false;
                self.button_led2 = true;
            }
            Led::Off => {
                self.button_led1 = true;
                self.button_led2 = true;
            }
        }
    }
}

} // verus!
