//! Device UI tests: host messages driving indicators, LEDs and the icon
//! pipeline, the suspend transitions, the display command stream, and the
//! icon pixel conversion.

use pavu_mixer::common::Channel;
use pavu_mixer::common::ChannelState;
use pavu_mixer::common::HostMessage;
use pavu_mixer::display::Gui;
use pavu_mixer::display::ICON_BYTES;
use pavu_mixer::icon::rgba_to_rgb565;
use pavu_mixer::level::PwmLevel;
use pavu_mixer::level::ShiftRegLevel;
use pavu_mixer::mute_sync::ChannelMuteSync;
use pavu_mixer::mute_sync::Led as SyncLed;
use pavu_mixer::pending::PendingUpdates;
use pavu_mixer::status_leds::ChannelStatusLeds;
use pavu_mixer::status_leds::Led;
use pavu_mixer::usb::DeviceUi;
use pavu_mixer::usb::LinkState;
use pavu_mixer::waveshare::WaveshareDisplay;

fn fresh_ui() -> DeviceUi {
    DeviceUi::new(Gui::new(WaveshareDisplay::new()))
}

#[test]
fn shift_register_bar_scales_levels() {
    let mut bar = ShiftRegLevel::new();
    assert_eq!(bar.segments_lit, 0);
    bar.update_level(10000);
    assert_eq!(bar.segments_lit, 20);
    bar.update_level(5000);
    assert_eq!(bar.segments_lit, 10);
    bar.update_level(487);
    assert_eq!(bar.segments_lit, 0);
    bar.update_level(488);
    assert_eq!(bar.segments_lit, 1);
}

#[test]
fn shift_register_pin_pattern_lights_from_the_far_end() {
    let mut bar = ShiftRegLevel::new();
    bar.update_level(1000);
    assert_eq!(bar.segments_lit, 2);
    let pattern = bar.pin_pattern();
    assert_eq!(pattern.len(), 20);
    // A low pin (false) lights a segment; the lit ones sit at the end of
    // the shift chain.
    assert!(pattern[..18].iter().all(|&p| p));
    assert!(pattern[18..].iter().all(|&p| !p));
}

#[test]
fn pwm_level_cuts_off_below_one_percent() {
    let mut level = PwmLevel::new();
    level.update_level(100);
    assert!(!level.active);
    level.update_level(101);
    assert!(level.active);
    assert_eq!(level.level, 101);
    level.update_level(0);
    assert!(!level.active);
}

#[test]
fn button_leds_encode_the_tristate_colour() {
    let mut leds = ChannelStatusLeds::new();
    leds.set_button_led(Led::Green);
    assert_eq!((leds.button_led1, leds.button_led2), (true, false));
    leds.set_button_led(Led::Red);
    assert_eq!((leds.button_led1, leds.button_led2), (false, true));
    leds.set_button_led(Led::Off);
    assert_eq!((leds.button_led1, leds.button_led2), (true, true));
}

#[test]
fn channel_state_maps_to_led_colour() {
    let mut leds = ChannelStatusLeds::new();
    leds.set_button_led_state(ChannelState::Running);
    assert_eq!((leds.button_led1, leds.button_led2), (true, false));
    leds.set_button_led_state(ChannelState::Muted);
    assert_eq!((leds.button_led1, leds.button_led2), (false, true));
    leds.set_button_led_state(ChannelState::Inactive);
    assert_eq!((leds.button_led1, leds.button_led2), (true, true));
    // The sync LED is active-low.
    leds.set_sync(true);
    assert!(!leds.sync_led);
    leds.set_sync(false);
    assert!(leds.sync_led);
}

#[test]
fn mute_sync_block_reads_its_button() {
    let mut block = ChannelMuteSync {
        sync_led: true,
        button_led1: true,
        button_led2: true,
        button: false,
    };
    // The button input is active-low.
    assert!(block.read_button_state());
    block.button = true;
    assert!(!block.read_button_state());
    block.set_button_led(SyncLed::Red);
    assert_eq!((block.button_led1, block.button_led2), (false, true));
    assert_eq!(SyncLed::from_state(Some(true)), SyncLed::Green);
    assert_eq!(SyncLed::from_state(Some(false)), SyncLed::Red);
    assert_eq!(SyncLed::from_state(None), SyncLed::Off);
}

#[test]
fn display_window_write_issues_the_three_commands() {
    let mut display = WaveshareDisplay::new();
    let fb = vec![0xAA; 8];
    display.write_fb_partial(10, 130, 11, 131, &fb).unwrap();
    assert_eq!(display.ops.len(), 3);
    // Column window, big-endian.
    assert_eq!(display.ops[0].command, 0x2A);
    assert_eq!(display.ops[0].args, vec![0, 10, 0, 11]);
    // Row window, displaced by the 80-row panel offset.
    assert_eq!(display.ops[1].command, 0x2B);
    assert_eq!(display.ops[1].args, vec![0, 210, 0, 211]);
    // Pixel data.
    assert_eq!(display.ops[2].command, 0x2C);
    assert_eq!(display.ops[2].args, fb);
}

#[test]
fn full_frame_write_covers_the_panel() {
    let mut display = WaveshareDisplay::new();
    display.write_fb(&[0u8; 4]).unwrap();
    assert_eq!(display.ops[0].args, vec![0, 0, 0, 239]);
    assert_eq!(display.ops[1].args, vec![0, 80, 1, 63]);
}

#[test]
fn clear_screen_blanks_all_rows() {
    let mut display = WaveshareDisplay::new();
    display.clear_screen().unwrap();
    assert_eq!(display.ops.len(), 180);
    // First group: rows 0..=3 (displaced by 80).
    assert_eq!(display.ops[1].args, vec![0, 80, 0, 83]);
    // Last group: rows 236..=239.
    assert_eq!(display.ops[178].args, vec![1, 60, 1, 63]);
    assert!(display.ops[179].args.iter().all(|&b| b == 0));
    assert_eq!(display.ops[179].args.len(), 240 * 2 * 4);
}

#[test]
fn initialization_sequence_ends_display_on() {
    let mut display = WaveshareDisplay::new();
    display.initialize().unwrap();
    assert_eq!(display.ops.len(), 16);
    assert_eq!(display.ops[0].command, 0x36);
    assert_eq!(display.ops[1].command, 0x3A);
    assert_eq!(display.ops[1].args, vec![0x55]);
    assert_eq!(display.ops[14].command, 0x11);
    assert_eq!(display.ops[15].command, 0x29);
}

#[test]
fn icon_stream_commits_only_when_complete() {
    let mut gui = Gui::new(WaveshareDisplay::new());
    assert!(!gui.icon_stream_active());

    gui.start_icon_stream(Channel::Ch2);
    assert!(gui.icon_stream_active());
    assert_eq!(gui.icon_remaining(), ICON_BYTES);

    // A first chunk arrives: buffered, nothing drawn yet.
    let chunk = vec![0x5A; 64];
    gui.try_push_icon_data_if_active(&chunk);
    assert!(gui.icon_stream_active());
    assert_eq!(gui.icon_remaining(), ICON_BYTES - 64);
    assert_eq!(gui.display.ops.len(), 0);

    // Feed the rest; completion draws the icon region once.
    while gui.icon_stream_active() {
        let n = gui.icon_remaining().min(64);
        gui.try_push_icon_data_if_active(&vec![0x5A; n]);
    }
    assert_eq!(gui.display.ops.len(), 3);
    // Channel two's region: x 10..=109, y 130..=229 (+80 offset).
    assert_eq!(gui.display.ops[0].args, vec![0, 10, 0, 109]);
    assert_eq!(gui.display.ops[1].args, vec![0, 210, 1, 53]);
    assert_eq!(gui.display.ops[2].args.len(), ICON_BYTES);
    assert!(gui.display.ops[2].args.iter().all(|&b| b == 0x5A));
}

#[test]
fn data_without_active_stream_is_ignored() {
    let mut gui = Gui::new(WaveshareDisplay::new());
    gui.try_push_icon_data_if_active(&[1, 2, 3]);
    assert!(!gui.icon_stream_active());
    assert_eq!(gui.display.ops.len(), 0);
    assert!(gui.icon_buf.iter().all(|&b| b == 0));
}

#[test]
fn peak_messages_drive_the_level_indicators() {
    let mut ui = fresh_ui();
    let mut pending = PendingUpdates::new();
    ui.handle_host_message(HostMessage::UpdatePeak(Channel::Main, 5000), &mut pending);
    assert_eq!(ui.main_level.segments_lit, 10);
    ui.handle_host_message(HostMessage::UpdatePeak(Channel::Ch3, 7000), &mut pending);
    assert!(ui.ch3_level.active);
    assert_eq!(ui.ch3_level.level, 7000);
    // Other indicators untouched.
    assert!(!ui.ch1_level.active);
}

#[test]
fn inactive_state_clears_level_and_icon() {
    let mut ui = fresh_ui();
    let mut pending = PendingUpdates::new();
    ui.handle_host_message(HostMessage::UpdatePeak(Channel::Ch1, 9000), &mut pending);
    ui.handle_host_message(
        HostMessage::UpdateChannelState(Channel::Ch1, ChannelState::Running),
        &mut pending,
    );
    assert_eq!((ui.ch1_leds.button_led1, ui.ch1_leds.button_led2), (true, false));
    let ops_before = ui.gui.display.ops.len();

    ui.handle_host_message(
        HostMessage::UpdateChannelState(Channel::Ch1, ChannelState::Inactive),
        &mut pending,
    );
    assert_eq!((ui.ch1_leds.button_led1, ui.ch1_leds.button_led2), (true, true));
    assert!(!ui.ch1_level.active);
    assert_eq!(ui.ch1_level.level, 0);
    // The icon region was blanked: 25 window writes of zero pixels.
    assert_eq!(ui.gui.display.ops.len(), ops_before + 75);
    // Channel one's region starts at x 10..=109, y 10 (+80 offset).
    assert_eq!(ui.gui.display.ops[ops_before].args, vec![0, 10, 0, 109]);
    assert_eq!(ui.gui.display.ops[ops_before + 1].args, vec![0, 90, 0, 93]);
}

#[test]
fn set_icon_starts_assembly_except_for_main() {
    let mut ui = fresh_ui();
    let mut pending = PendingUpdates::new();
    ui.handle_host_message(HostMessage::SetIcon(Channel::Ch4), &mut pending);
    assert!(ui.gui.icon_stream_active());

    let mut ui2 = fresh_ui();
    ui2.handle_host_message(HostMessage::SetIcon(Channel::Main), &mut pending);
    assert!(!ui2.gui.icon_stream_active());
}

#[test]
fn force_update_raises_the_pending_flag() {
    let mut ui = fresh_ui();
    let mut pending = PendingUpdates::new();
    ui.handle_host_message(HostMessage::ForceUpdate, &mut pending);
    let mut faders = pavu_mixer::faders::FaderState::new();
    assert!(faders.end_of_round(&mut pending));
}

#[test]
fn suspend_turns_the_ui_dark_and_resume_relights_it() {
    let mut ui = fresh_ui();
    let mut pending = PendingUpdates::new();
    // Bring the device up first.
    ui.set_link_state(LinkState::Configured);
    ui.handle_host_message(HostMessage::UpdatePeak(Channel::Main, 8000), &mut pending);
    ui.handle_host_message(HostMessage::UpdatePeak(Channel::Ch2, 8000), &mut pending);
    ui.handle_host_message(
        HostMessage::UpdateChannelState(Channel::Ch2, ChannelState::Muted),
        &mut pending,
    );

    ui.set_link_state(LinkState::Suspend);
    assert!(ui.suspended);
    assert!(!ui.gui.backlight_on);
    assert_eq!(ui.main_level.segments_lit, 0);
    assert!(!ui.ch2_level.active);
    assert_eq!((ui.ch2_leds.button_led1, ui.ch2_leds.button_led2), (true, true));

    // An intermediate bus state keeps the mode.
    ui.set_link_state(LinkState::Other);
    assert!(ui.suspended);

    let ops_before = ui.gui.display.ops.len();
    ui.set_link_state(LinkState::Configured);
    assert!(!ui.suspended);
    assert!(ui.gui.backlight_on);
    // Resume blanked the whole screen.
    assert_eq!(ui.gui.display.ops.len(), ops_before + 180);
}

#[test]
fn oversized_peak_shows_as_full_scale() {
    let mut ui = fresh_ui();
    let mut pending = PendingUpdates::new();
    ui.handle_host_message(HostMessage::UpdatePeak(Channel::Main, u16::MAX), &mut pending);
    assert_eq!(ui.main_level.segments_lit, 20);
}

#[test]
fn rgba_conversion_premultiplies_and_packs() {
    // Opaque pure red: five ones in the red field, big-endian.
    assert_eq!(rgba_to_rgb565(&[255, 0, 0, 255]), vec![0xF8, 0x00]);
    // Opaque pure green and blue.
    assert_eq!(rgba_to_rgb565(&[0, 255, 0, 255]), vec![0x07, 0xE0]);
    assert_eq!(rgba_to_rgb565(&[0, 0, 255, 255]), vec![0x00, 0x1F]);
    // Half-transparent white premultiplies onto black: 128 per component.
    assert_eq!(rgba_to_rgb565(&[255, 255, 255, 128]), vec![0x84, 0x10]);
    // Fully transparent pixels vanish.
    assert_eq!(rgba_to_rgb565(&[200, 100, 50, 0]), vec![0x00, 0x00]);
    // Two pixels in, four bytes out.
    assert_eq!(
        rgba_to_rgb565(&[255, 0, 0, 255, 0, 0, 255, 255]),
        vec![0xF8, 0x00, 0x00, 0x1F]
    );
    assert_eq!(rgba_to_rgb565(&[]), Vec::<u8>::new());
}
