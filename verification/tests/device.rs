//! Device-side tests: coalescing of pending updates, the send order, fader
//! hysteresis, button recording, and the forced full update.

use pavu_mixer::common::Channel;
use pavu_mixer::common::DeviceMessage;
use pavu_mixer::faders::FaderState;
use pavu_mixer::faders::scale_adc;
use pavu_mixer::mute::record_button_states;
use pavu_mixer::pending::PendingUpdates;

#[test]
fn fresh_device_has_nothing_pending() {
    let pending = PendingUpdates::new();
    assert_eq!(pending.next_pending(), None);
}

#[test]
fn volume_updates_coalesce_to_one_send() {
    // Three updates for the same channel before a send: exactly one
    // transmission, carrying the newest value.
    let mut pending = PendingUpdates::new();
    pending.insert_volume(Channel::Ch2, 1000);
    pending.insert_volume(Channel::Ch2, 4000);
    pending.insert_volume(Channel::Ch2, 9000);
    let msg = pending.next_pending();
    assert_eq!(msg, Some(DeviceMessage::UpdateVolume(Channel::Ch2, 9000)));
    pending.mark_sent(msg.unwrap());
    assert_eq!(pending.next_pending(), None);
}

#[test]
fn send_order_is_main_first_presses_before_volumes() {
    let mut pending = PendingUpdates::new();
    pending.insert_volume(Channel::Ch1, 5000);
    pending.insert_volume(Channel::Main, 2000);
    pending.record_press(Channel::Ch1);

    // Main's volume comes before anything of channel one.
    let m1 = pending.next_pending().unwrap();
    assert_eq!(m1, DeviceMessage::UpdateVolume(Channel::Main, 2000));
    pending.mark_sent(m1);

    // Within channel one, the press precedes the volume.
    let m2 = pending.next_pending().unwrap();
    assert_eq!(m2, DeviceMessage::ToggleChannelMute(Channel::Ch1));
    pending.mark_sent(m2);

    let m3 = pending.next_pending().unwrap();
    assert_eq!(m3, DeviceMessage::UpdateVolume(Channel::Ch1, 5000));
    pending.mark_sent(m3);

    assert_eq!(pending.next_pending(), None);
}

#[test]
fn blocked_send_leaves_the_message_pending() {
    // On a would-block condition the caller simply does not mark the
    // message sent; the same message is offered again next round.
    let mut pending = PendingUpdates::new();
    pending.insert_volume(Channel::Ch3, 1234);
    let first = pending.next_pending();
    let second = pending.next_pending();
    assert_eq!(first, second);
    // A newer value supersedes the blocked one.
    pending.insert_volume(Channel::Ch3, 4321);
    assert_eq!(
        pending.next_pending(),
        Some(DeviceMessage::UpdateVolume(Channel::Ch3, 4321))
    );
}

#[test]
fn adc_scaling_trims_the_dead_zones() {
    assert_eq!(scale_adc(0), 0);
    assert_eq!(scale_adc(8), 0);
    assert_eq!(scale_adc(3308), 10000);
    assert_eq!(scale_adc(4095), 10000);
    // Mid-range: (1658 - 8) * 10000 / 3300.
    assert_eq!(scale_adc(1658), 5000);
}

#[test]
fn small_changes_are_suppressed_large_ones_reported() {
    let mut faders = FaderState::new();
    let mut pending = PendingUpdates::new();

    // The very first sample after boot is always reported.
    faders.sample(&mut pending, Channel::Ch1, 1658); // 50.00%
    let msg = pending.next_pending().unwrap();
    assert_eq!(msg, DeviceMessage::UpdateVolume(Channel::Ch1, 5000));
    pending.mark_sent(msg);

    // A 2% move stays under the hysteresis: nothing is enqueued.
    faders.sample(&mut pending, Channel::Ch1, 1724); // 52.00%
    assert_eq!(pending.next_pending(), None);

    // A 5% move from the last reported value crosses it.
    faders.sample(&mut pending, Channel::Ch1, 1823); // 55.00%
    assert_eq!(
        pending.next_pending(),
        Some(DeviceMessage::UpdateVolume(Channel::Ch1, 5500))
    );
}

#[test]
fn reaching_the_limits_is_always_reported() {
    let mut faders = FaderState::new();
    let mut pending = PendingUpdates::new();

    // Settle at 97%.
    faders.sample(&mut pending, Channel::Ch4, 3209);
    let msg = pending.next_pending().unwrap();
    assert_eq!(msg, DeviceMessage::UpdateVolume(Channel::Ch4, 9700));
    pending.mark_sent(msg);

    // 97% to 100% is only a 3% delta, but the top must be reported.
    faders.sample(&mut pending, Channel::Ch4, 3308);
    let msg = pending.next_pending().unwrap();
    assert_eq!(msg, DeviceMessage::UpdateVolume(Channel::Ch4, 10000));
    pending.mark_sent(msg);

    // Jitter at the top does not re-report it.
    faders.sample(&mut pending, Channel::Ch4, 3400);
    assert_eq!(pending.next_pending(), None);

    // Likewise near the bottom: 2% down to 0% is reported.
    faders.sample(&mut pending, Channel::Ch4, 74); // 2.00%
    let msg = pending.next_pending().unwrap();
    pending.mark_sent(msg);
    faders.sample(&mut pending, Channel::Ch4, 8); // 0.00%
    assert_eq!(
        pending.next_pending(),
        Some(DeviceMessage::UpdateVolume(Channel::Ch4, 0))
    );
}

#[test]
fn forced_update_resets_the_reference_values() {
    let mut faders = FaderState::new();
    let mut pending = PendingUpdates::new();

    faders.sample(&mut pending, Channel::Ch2, 1658);
    pending.mark_sent(pending.next_pending().unwrap());

    // Without a forced update the unchanged fader stays quiet.
    assert!(!faders.end_of_round(&mut pending));
    faders.sample(&mut pending, Channel::Ch2, 1658);
    assert_eq!(pending.next_pending(), None);

    // The host asks for a full re-report: the flag is consumed once and
    // the next pass treats every channel as changed.
    pending.set_force_update();
    assert!(faders.end_of_round(&mut pending));
    assert!(!faders.end_of_round(&mut pending));
    faders.sample(&mut pending, Channel::Ch2, 1658);
    assert_eq!(
        pending.next_pending(),
        Some(DeviceMessage::UpdateVolume(Channel::Ch2, 5000))
    );
}

#[test]
fn pressed_buttons_become_pending_presses() {
    let mut pending = PendingUpdates::new();
    // Buttons are active-low: Main and Ch3 are held down.
    record_button_states(&mut pending, &[false, true, true, false, true]);
    let m1 = pending.next_pending().unwrap();
    assert_eq!(m1, DeviceMessage::ToggleChannelMute(Channel::Main));
    pending.mark_sent(m1);
    let m2 = pending.next_pending().unwrap();
    assert_eq!(m2, DeviceMessage::ToggleChannelMute(Channel::Ch3));
    pending.mark_sent(m2);
    assert_eq!(pending.next_pending(), None);
}

#[test]
fn holding_a_button_queues_no_repeats() {
    let mut pending = PendingUpdates::new();
    record_button_states(&mut pending, &[true, false, true, true, true]);
    record_button_states(&mut pending, &[true, false, true, true, true]);
    let m = pending.next_pending().unwrap();
    assert_eq!(m, DeviceMessage::ToggleChannelMute(Channel::Ch1));
    pending.mark_sent(m);
    assert_eq!(pending.next_pending(), None);
}
