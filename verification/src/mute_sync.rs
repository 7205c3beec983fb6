//! Combined mute-button and status-LED block of one channel, modelled by
//! the pin levels driven out and the sampled button input.  The LED
//! outputs are active-low, and so is the button.

use vstd::prelude::*;

verus! {

/// Colour of the two-LED button indicator.
#[derive(Clone, Copy, PartialEq, Eq, Structural, Debug)]
pub enum Led {
    Green,
    Red,
    Off,
}

impl Led {
    /// The colour for a synchronization state: in sync shows green, out of
    /// sync red, unknown off.
    pub fn from_state(state: Option<bool>) -> (r: Led)
        ensures
            r == match state {
                Some(true) => Led::Green,
                Some(false) => Led::Red,
                None => Led::Off,
            },
    {
        match state {
            Some(true) => Led::Green,
            Some(false) => Led::Red,
            None => Led::Off,
        }
    }
}

/// Pin level of the first button LED for a colour.
pub open spec fn spec_button_led1(led: Led) -> bool {
    match led {
        Led::Green => true,
        Led::Red => false,
        Led::Off => true,
    }
}

/// Pin level of the second button LED for a colour.
pub open spec fn spec_button_led2(led: Led) -> bool {
    match led {
        Led::Green => false,
        Led::Red => true,
        Led::Off => true,
    }
}

/// One channel's mute-button block: LED pin levels and the last sampled
/// button input level.
pub struct ChannelMuteSync {
    /// Pin level of the sync indicator LED (lit when low).
    pub sync_led: bool,
    /// Pin level of the first LED of the button indicator.
    pub button_led1: bool,
    /// Pin level of the second LED of the button indicator.
    pub button_led2: bool,
    /// Last sampled input level of the button; low while held down.
    pub button: bool,
}

impl ChannelMuteSync {
    /// Show or hide the sync indicator; the LED is active-low.
    pub fn set_sync(&mut self, state: bool)
        ensures
            final(self).sync_led == !state,
            final(self).button_led1 == old(self).button_led1,
            final(self).button_led2 == old(self).button_led2,
            final(self).button == old(self).button,
    {
        self.sync_led = !state;
    }

    /// Show a colour on the button indicator.
    pub fn set_button_led(&mut self, state: Led)
        ensures
            final(self).sync_led == old(self).sync_led,
            final(self).button_led1 == spec_button_led1(state),
            final(self).button_led2 == spec_button_led2(state),
            final(self).button == old(self).button,
    {
        match state {
            Led::Green => {
                self.button_led1 = true;
                self.button_led2 = false;
            }
            Led::Red => {
                self.button_led1 = false;
                self.button_led2 = true;
            }
            Led::Off => {
                self.button_led1 = true;
                self.button_led2 = true;
            }
        }
    }

    /// Whether the button is held down: it is active-low.
    pub fn read_button_state(&self) -> (r: bool)
        ensures
            r == !self.button,
    {
        !self.button
    }
}

} // verus!
