//! Host-side tests: the connection manager's backoff and disconnect
//! handling, endpoint resolution, and the dispatcher over the channel
//! engines.

use pavu_mixer::channel::StreamSync;
use pavu_mixer::common::Channel;
use pavu_mixer::common::ChannelState;
use pavu_mixer::common::HostMessage;
use pavu_mixer::config::ChannelConfig;
use pavu_mixer::config::Config;
use pavu_mixer::config::Connection;
use pavu_mixer::config::IconMapping;
use pavu_mixer::config::SinkPeakMultiplier;
use pavu_mixer::connection::ConnectionManager;
use pavu_mixer::connection::ConnectionPhase;
use pavu_mixer::connection::Direction;
use pavu_mixer::connection::EndpointError;
use pavu_mixer::connection::LinkError;
use pavu_mixer::connection::TransferKind;
use pavu_mixer::connection::UsbErrorKind;
use pavu_mixer::connection::endpoints_from_descriptors;
use pavu_mixer::connection::interpret_usb_error;
use pavu_mixer::connection::match_interface;
use pavu_mixer::dispatch::Mixer;
use pavu_mixer::pa::Event;
use pavu_mixer::pa::Facility;
use pavu_mixer::pa::Operation;
use pavu_mixer::pa::SinkInfo;
use pavu_mixer::pa::SinkInputInfo;
use pavu_mixer::pa::SubscribeDispatch;
use pavu_mixer::pa::classify_subscription;

fn props(pairs: &[(&str, &str)]) -> Vec<(String, String)> {
    pairs
        .iter()
        .map(|(k, v)| (k.to_string(), v.to_string()))
        .collect()
}

fn test_config() -> Config {
    Config {
        connection: Connection { sudo_hack: false },
        channel_1: ChannelConfig {
            property_matches: vec![props(&[("media.role", "music")])],
        },
        channel_2: ChannelConfig {
            property_matches: vec![props(&[("media.role", "music")])],
        },
        channel_3: ChannelConfig {
            property_matches: vec![props(&[("application.name", "^Fire.*x$")])],
        },
        channel_4: ChannelConfig {
            property_matches: vec![],
        },
        icon_mappings: vec![IconMapping {
            icon: "web-browser".to_string(),
            property_matches: props(&[("application.name", "^Fire.*x$")]),
        }],
        sink_peak_multiplier: vec![SinkPeakMultiplier {
            sink_name: "quiet-sink".to_string(),
            multiplier: 20000,
        }],
    }
}

fn sink_input(index: u32, pairs: &[(&str, &str)], mute: bool) -> SinkInputInfo {
    SinkInputInfo {
        index,
        name: None,
        application: None,
        connected_sink: 0,
        properties: props(pairs),
        volume: 0,
        mute,
    }
}

fn default_sink(name: &str, mute: bool) -> SinkInfo {
    SinkInfo {
        index: 0,
        name: Some(name.to_string()),
        monitoring_source: 7,
        volume: 10000,
        mute,
    }
}

#[test]
fn usb_errors_classify_disconnection_broadly() {
    // Disconnection surfaces ambiguously: both "no device" and a generic
    // I/O failure mean the device vanished.
    assert!(matches!(
        interpret_usb_error(UsbErrorKind::NoDevice),
        LinkError::Disconnected(_)
    ));
    assert!(matches!(
        interpret_usb_error(UsbErrorKind::Io),
        LinkError::Disconnected(_)
    ));
    assert!(matches!(
        interpret_usb_error(UsbErrorKind::Other),
        LinkError::Fatal
    ));
}

#[test]
fn interface_triple_must_match_exactly() {
    assert!(match_interface(0xff, 0xc3, 0xc3));
    assert!(!match_interface(0xff, 0xc3, 0x00));
    assert!(!match_interface(0x03, 0xc3, 0xc3));
}

#[test]
fn endpoints_resolve_by_shape() {
    let eps = vec![
        (TransferKind::Interrupt, Direction::In, 0x81),
        (TransferKind::Interrupt, Direction::Out, 0x01),
        (TransferKind::Bulk, Direction::Out, 0x02),
    ];
    let found = endpoints_from_descriptors(&eps).unwrap();
    assert_eq!(found.read_address, 0x81);
    assert_eq!(found.write_address, 0x01);
    assert_eq!(found.bulk_address, 0x02);
}

#[test]
fn endpoint_resolution_reports_what_is_wrong() {
    let mut eps = vec![
        (TransferKind::Interrupt, Direction::In, 0x81),
        (TransferKind::Interrupt, Direction::Out, 0x01),
    ];
    assert_eq!(
        endpoints_from_descriptors(&eps),
        Err(EndpointError::MissingBulk)
    );
    eps.push((TransferKind::Isochronous, Direction::Out, 0x03));
    assert_eq!(
        endpoints_from_descriptors(&eps),
        Err(EndpointError::Unexpected)
    );
    assert_eq!(
        endpoints_from_descriptors(&vec![]),
        Err(EndpointError::MissingRead)
    );
}

#[test]
fn discovery_backs_off_and_gives_up() {
    let mut manager = ConnectionManager::new();
    assert_eq!(manager.phase, ConnectionPhase::Connecting);
    // Delays grow by a quarter each time: 500, 625, 781, ...
    assert_eq!(manager.device_not_found(), Some(500));
    assert_eq!(manager.device_not_found(), Some(625));
    assert_eq!(manager.device_not_found(), Some(781));
    // Eventually the accumulated waiting exceeds the budget.
    let mut gave_up = false;
    for _ in 0..100 {
        if manager.device_not_found().is_none() {
            gave_up = true;
            break;
        }
    }
    assert!(gave_up);
    assert_eq!(manager.phase, ConnectionPhase::Failed);
}

#[test]
fn disconnect_reconnects_without_losing_engine_state() {
    // The background reader hits "no device": the manager reports the
    // distinguished disconnection error and goes back to discovery, while
    // already-matched channel state survives untouched.
    let mut mixer = Mixer::new(test_config());
    let info = sink_input(42, &[("media.role", "music")], false);
    assert_eq!(mixer.on_sink_input_added(&info), Some(Channel::Ch1));
    let attached = mixer.on_new_sink_input(Channel::Ch1, &info).unwrap();
    assert_eq!(
        attached.2,
        HostMessage::UpdateChannelState(Channel::Ch1, ChannelState::Running)
    );

    let mut manager = ConnectionManager::new();
    manager.device_found();
    assert_eq!(manager.phase, ConnectionPhase::Connected);
    let decision = manager.on_read_error(UsbErrorKind::NoDevice);
    assert!(matches!(decision, LinkError::Disconnected(_)));
    assert_eq!(manager.phase, ConnectionPhase::Connecting);

    // Reconnect; the channel engine still owns the stream.
    manager.device_found();
    assert_eq!(manager.phase, ConnectionPhase::Connected);
    assert_eq!(mixer.ch1.index_for_sink_input(42), Some(0));
    assert_eq!(mixer.ch1.state(), ChannelState::Running);

    // A fatal error instead ends the run.
    let decision = manager.on_read_error(UsbErrorKind::Other);
    assert!(matches!(decision, LinkError::Fatal));
    assert_eq!(manager.phase, ConnectionPhase::Failed);
}

#[test]
fn subscription_callbacks_classify_into_work() {
    assert_eq!(
        classify_subscription(Facility::Sink, Operation::New, 3),
        SubscribeDispatch::SinkUpdateNeeded
    );
    assert_eq!(
        classify_subscription(Facility::Sink, Operation::Changed, 3),
        SubscribeDispatch::Ignore
    );
    assert_eq!(
        classify_subscription(Facility::Server, Operation::Changed, 0),
        SubscribeDispatch::SinkUpdateNeeded
    );
    assert_eq!(
        classify_subscription(Facility::SinkInput, Operation::New, 9),
        SubscribeDispatch::QueryAddedSinkInput(9)
    );
    assert_eq!(
        classify_subscription(Facility::SinkInput, Operation::Changed, 9),
        SubscribeDispatch::QueryChangedSinkInput(9)
    );
    assert_eq!(
        classify_subscription(Facility::SinkInput, Operation::Removed, 9),
        SubscribeDispatch::DeliverSinkInputRemoved(9)
    );
}

#[test]
fn startup_asserts_full_state_then_forces_an_update() {
    let msgs = Mixer::startup_messages();
    assert_eq!(msgs.len(), 11);
    for (i, ch) in [
        Channel::Main,
        Channel::Ch1,
        Channel::Ch2,
        Channel::Ch3,
        Channel::Ch4,
    ]
    .into_iter()
    .enumerate()
    {
        assert_eq!(
            msgs[2 * i],
            HostMessage::UpdateChannelState(ch, ChannelState::Inactive)
        );
        assert_eq!(msgs[2 * i + 1], HostMessage::UpdatePeak(ch, 0));
    }
    assert_eq!(msgs[10], HostMessage::ForceUpdate);
}

#[test]
fn default_sink_rebinds_the_main_channel() {
    let mut mixer = Mixer::new(test_config());
    let (index, sync, msg) = mixer.on_new_default_sink(default_sink("speakers", true));
    assert_eq!(index, 0);
    assert_eq!(
        sync,
        StreamSync {
            set_mute: None,
            set_volume: None
        }
    );
    assert_eq!(
        msg,
        HostMessage::UpdateChannelState(Channel::Main, ChannelState::Muted)
    );
    assert_eq!(mixer.main.state(), ChannelState::Muted);

    // A later default-sink change detaches the old stream first.
    let (index, _, msg) = mixer.on_new_default_sink(default_sink("headphones", false));
    assert_eq!(index, 0);
    assert_eq!(
        msg,
        HostMessage::UpdateChannelState(Channel::Main, ChannelState::Running)
    );
}

#[test]
fn first_matching_channel_wins() {
    // Channels one and two share a match-set; a matching stream goes to
    // channel one, and to one channel only.
    let mixer = Mixer::new(test_config());
    let info = sink_input(5, &[("media.role", "music")], false);
    assert_eq!(mixer.on_sink_input_added(&info), Some(Channel::Ch1));
    let other = sink_input(6, &[("media.role", "phone")], false);
    assert_eq!(mixer.on_sink_input_added(&other), None);
}

#[test]
fn new_sink_input_attaches_once_with_icon() {
    let mut mixer = Mixer::new(test_config());
    let info = sink_input(7, &[("application.name", "Firefox")], false);
    assert_eq!(mixer.on_sink_input_added(&info), Some(Channel::Ch3));

    let (index, sync, msg, icon) = mixer.on_new_sink_input(Channel::Ch3, &info).unwrap();
    assert_eq!(index, 0);
    assert_eq!(sync.set_mute, None);
    assert_eq!(
        msg,
        HostMessage::UpdateChannelState(Channel::Ch3, ChannelState::Running)
    );
    assert_eq!(icon, Some("web-browser".to_string()));

    // The same sink-input arriving again is not attached twice.
    assert!(mixer.on_new_sink_input(Channel::Ch3, &info).is_none());
}

#[test]
fn peak_data_flows_out_scaled() {
    let mut mixer = Mixer::new(test_config());
    let info = sink_input(5, &[("media.role", "music")], false);
    let (index, _, _, _) = mixer.on_new_sink_input(Channel::Ch1, &info).unwrap();

    // No active sink: the aggregate goes out as it is.
    let msg = mixer.on_peak_data(Channel::Ch1, index, Some(3000));
    assert_eq!(msg, HostMessage::UpdatePeak(Channel::Ch1, 3000));

    // The active output has a doubling multiplier configured.
    let _ = mixer.on_new_default_sink(default_sink("quiet-sink", false));
    let msg = mixer.on_peak_data(Channel::Ch1, index, Some(3000));
    assert_eq!(msg, HostMessage::UpdatePeak(Channel::Ch1, 6000));
    // Scaling saturates at full scale.
    let msg = mixer.on_peak_data(Channel::Ch1, index, Some(9000));
    assert_eq!(msg, HostMessage::UpdatePeak(Channel::Ch1, 10000));
}

#[test]
fn removed_sink_input_reports_every_channel() {
    let mut mixer = Mixer::new(test_config());
    let info = sink_input(5, &[("media.role", "music")], false);
    let _ = mixer.on_new_sink_input(Channel::Ch1, &info).unwrap();

    let msgs = mixer.on_sink_input_removed(5);
    assert_eq!(
        msgs,
        vec![
            HostMessage::UpdateChannelState(Channel::Ch1, ChannelState::Inactive),
            HostMessage::UpdateChannelState(Channel::Ch2, ChannelState::Inactive),
            HostMessage::UpdateChannelState(Channel::Ch3, ChannelState::Inactive),
            HostMessage::UpdateChannelState(Channel::Ch4, ChannelState::Inactive),
        ]
    );
}

#[test]
fn changed_sink_input_moves_channels() {
    let mut mixer = Mixer::new(test_config());
    // A stream sits on channel one.
    let info = sink_input(5, &[("media.role", "music")], false);
    let _ = mixer.on_new_sink_input(Channel::Ch1, &info).unwrap();

    // Unchanged ownership: nothing happens.
    assert!(mixer.on_sink_input_changed(&info).is_none());

    // Its properties now match channel three instead: dropped everywhere,
    // and a new stream is requested for channel three.
    let moved = sink_input(5, &[("application.name", "Firefox")], false);
    let (target, msgs) = mixer.on_sink_input_changed(&moved).unwrap();
    assert_eq!(target, Channel::Ch3);
    assert_eq!(msgs.len(), 4);
    assert_eq!(
        msgs[0],
        HostMessage::UpdateChannelState(Channel::Ch1, ChannelState::Inactive)
    );
    assert_eq!(mixer.ch1.index_for_sink_input(5), None);

    // A stream matching nothing moves nowhere.
    let nowhere = sink_input(5, &[("media.role", "phone")], false);
    assert!(mixer.on_sink_input_changed(&nowhere).is_none());
}

#[test]
fn device_messages_drive_volume_and_mute() {
    let mut mixer = Mixer::new(test_config());
    let info = sink_input(5, &[("media.role", "music")], true);
    let (index, _, _, _) = mixer.on_new_sink_input(Channel::Ch1, &info).unwrap();
    assert_eq!(mixer.ch1.state(), ChannelState::Muted);

    // A fader move stores the volume and addresses every attached stream.
    let indices = mixer.on_update_volume(Channel::Ch1, 7500);
    assert_eq!(indices, vec![index]);
    assert_eq!(mixer.ch1.volume, Some(7500));

    // A button press flips the authority and reports the new state.
    let (msg, muted, indices) = mixer.on_toggle_mute(Channel::Ch1);
    assert_eq!(
        msg,
        HostMessage::UpdateChannelState(Channel::Ch1, ChannelState::Running)
    );
    assert!(!muted);
    assert_eq!(indices, vec![index]);
}

#[test]
fn events_carry_plain_values() {
    // The event queue the dispatcher drains is built from plain values.
    let ev = Event::NewPeakData(Channel::Ch2, 3);
    match ev {
        Event::NewPeakData(ch, index) => {
            assert_eq!(ch, Channel::Ch2);
            assert_eq!(index, 3);
        }
        _ => unreachable!(),
    }
}
