//! Wire-codec tests: round trips for every message variant, exact frame
//! bytes, and one input for every decode error.

use pavu_mixer::common::Channel;
use pavu_mixer::common::ChannelState;
use pavu_mixer::common::DecodeError;
use pavu_mixer::common::DeviceMessage;
use pavu_mixer::common::HostMessage;
use pavu_mixer::common::decode_device_message;
use pavu_mixer::common::decode_host_message;
use pavu_mixer::common::encode_device_message;
use pavu_mixer::common::encode_host_message;

fn host_round_trip(m: HostMessage) {
    let bytes = encode_host_message(&m);
    assert!(bytes.len() <= 64);
    assert_eq!(decode_host_message(&bytes), Ok(m));
}

fn device_round_trip(m: DeviceMessage) {
    let bytes = encode_device_message(&m);
    assert!(bytes.len() <= 64);
    assert_eq!(decode_device_message(&bytes), Ok(m));
}

#[test]
fn host_message_round_trips() {
    for ch in [
        Channel::Ch1,
        Channel::Ch2,
        Channel::Ch3,
        Channel::Ch4,
        Channel::Main,
    ] {
        for v in [0u16, 1, 117, 9999, 10000, u16::MAX] {
            host_round_trip(HostMessage::UpdatePeak(ch, v));
        }
        for st in [
            ChannelState::Inactive,
            ChannelState::Running,
            ChannelState::Muted,
        ] {
            host_round_trip(HostMessage::UpdateChannelState(ch, st));
        }
        host_round_trip(HostMessage::SetIcon(ch));
    }
    host_round_trip(HostMessage::ForceUpdate);
}

#[test]
fn device_message_round_trips() {
    for ch in [
        Channel::Ch1,
        Channel::Ch2,
        Channel::Ch3,
        Channel::Ch4,
        Channel::Main,
    ] {
        for v in [0u16, 256, 10000, u16::MAX] {
            device_round_trip(DeviceMessage::UpdateVolume(ch, v));
        }
        device_round_trip(DeviceMessage::ToggleChannelMute(ch));
    }
}

#[test]
fn exact_frame_bytes() {
    assert_eq!(
        encode_host_message(&HostMessage::UpdatePeak(Channel::Ch2, 0x1234)),
        vec![0, 1, 0x34, 0x12]
    );
    assert_eq!(
        encode_host_message(&HostMessage::UpdateChannelState(
            Channel::Main,
            ChannelState::Muted
        )),
        vec![1, 4, 2]
    );
    assert_eq!(
        encode_host_message(&HostMessage::SetIcon(Channel::Ch4)),
        vec![2, 3]
    );
    assert_eq!(encode_host_message(&HostMessage::ForceUpdate), vec![3]);
    assert_eq!(
        encode_device_message(&DeviceMessage::UpdateVolume(Channel::Main, 10000)),
        vec![0, 4, 0x10, 0x27]
    );
    assert_eq!(
        encode_device_message(&DeviceMessage::ToggleChannelMute(Channel::Ch1)),
        vec![1, 0]
    );
}

#[test]
fn decode_rejects_empty() {
    assert_eq!(decode_host_message(&[]), Err(DecodeError::Truncated));
    assert_eq!(decode_device_message(&[]), Err(DecodeError::Truncated));
}

#[test]
fn decode_rejects_truncated_payload() {
    assert_eq!(decode_host_message(&[0, 1, 0x34]), Err(DecodeError::Truncated));
    assert_eq!(decode_host_message(&[1, 0]), Err(DecodeError::Truncated));
    assert_eq!(decode_host_message(&[2]), Err(DecodeError::Truncated));
    assert_eq!(decode_device_message(&[0, 1]), Err(DecodeError::Truncated));
    assert_eq!(decode_device_message(&[1]), Err(DecodeError::Truncated));
}

#[test]
fn decode_rejects_unknown_tag() {
    assert_eq!(decode_host_message(&[9, 0]), Err(DecodeError::UnknownTag));
    assert_eq!(decode_device_message(&[7]), Err(DecodeError::UnknownTag));
}

#[test]
fn decode_rejects_unknown_channel() {
    assert_eq!(
        decode_host_message(&[0, 5, 0, 0]),
        Err(DecodeError::UnknownChannel)
    );
    assert_eq!(
        decode_device_message(&[1, 200]),
        Err(DecodeError::UnknownChannel)
    );
}

#[test]
fn decode_rejects_unknown_state() {
    assert_eq!(
        decode_host_message(&[1, 0, 3]),
        Err(DecodeError::UnknownState)
    );
}

#[test]
fn decode_rejects_trailing_bytes() {
    assert_eq!(decode_host_message(&[3, 0]), Err(DecodeError::TrailingData));
    assert_eq!(
        decode_host_message(&[2, 0, 0]),
        Err(DecodeError::TrailingData)
    );
    assert_eq!(
        decode_device_message(&[1, 0, 0]),
        Err(DecodeError::TrailingData)
    );
}

#[test]
fn channel_ordinals_round_trip() {
    for i in 0..4usize {
        let ch = Channel::from_index(i);
        assert_ne!(ch, Channel::Main);
        assert_eq!(ch.to_index(), i);
    }
    assert_eq!(Channel::from_index(0), Channel::Ch1);
    assert_eq!(Channel::from_index(3), Channel::Ch4);
}

#[test]
fn only_inactive_is_not_active() {
    assert!(!ChannelState::Inactive.is_active());
    assert!(ChannelState::Running.is_active());
    assert!(ChannelState::Muted.is_active());
}
