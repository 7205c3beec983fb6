//! Mute-button sampling: turning one read of the five button inputs into
//! pending press events.
//!
//! The buttons are active-low: a `false` input level means the button is
//! held down.

use vstd::prelude::*;

use crate::pending::PendingUpdates;
use crate::pending::channel_of_slot;

verus! {

/// Record one sample of all five button inputs, in slot order (`Main`,
/// `Ch1` to `Ch4`).  Every button read low becomes a pending press for its
/// channel; a press already pending stays a single press, so holding a
/// button does not queue repeats beyond what transmission consumes.
pub fn record_button_states(pending: &mut PendingUpdates, buttons: &[bool])
    requires
        old(pending)@.wf(),
        buttons@.len() == 5,
    ensures
        final(pending)@.wf(),
        final(pending)@.volumes == old(pending)@.volumes,
        final(pending)@.force_update == old(pending)@.force_update,
        forall|s: int|
            0 <= s < 5 ==> final(pending)@.presses[s] == (old(pending)@.presses[s] || !buttons@[s]),
    {
    let ghost base = old(pending)@;
    let mut s: usize = 0;
    while s < 5
        invariant
            pending@.wf(),
            buttons@.len() == 5,
            s <= 5,
            pending@.volumes == base.volumes,
            pending@.force_update == base.force_update,
            forall|j: int|
                0 <= j < s ==> pending@.presses[j] == (base.presses[j] || !buttons@[j]),
            forall|j: int| s <= j < 5 ==> pending@.presses[j] == base.presses[j],
        decreases 5 - s,
    {
        if !buttons[s] {
            let ch = channel_of_slot(s);
            pending.record_press(ch);
        }
        s += 1;
    }
}

} // verus!
