//! Message types shared by the device and the host, and the wire codec that
//! turns them into compact binary frames.
//!
//! Levels (fader positions, signal peaks) travel as integers in
//! ten-thousandths of full scale: `0` is silence, [`LEVEL_FULL`] is full
//! scale.

use vstd::prelude::*;

verus! {

/// Side length of a channel icon, in pixels.
pub const ICON_SIZE: usize = 100;

/// A full-scale level value: levels range over `0 ..= LEVEL_FULL`.
pub const LEVEL_FULL: u16 = 10000;

/// One of the five logical mixer channels.
#[derive(Clone, Copy, PartialEq, Eq, Structural, Debug)]
pub enum Channel {
    Ch1,
    Ch2,
    Ch3,
    Ch4,
    Main,
}

impl Channel {
    /// Array index of a non-`Main` channel.
    pub open spec fn spec_to_index(self) -> int {
        match self {
            Channel::Ch1 => 0,
            Channel::Ch2 => 1,
            Channel::Ch3 => 2,
            Channel::Ch4 => 3,
            Channel::Main => arbitrary(),
        }
    }

    /// Ordinal of a non-`Main` channel, used to index per-channel arrays.
    ///
    /// `Main` has no ordinal; calling this for `Main` is a programming
    /// error, so it is excluded outright.
    pub fn to_index(self) -> (r: usize)
        requires
            self != Channel::Main,
        ensures
            r == self.spec_to_index(),
            r < 4,
    {
        match self {
            Channel::Ch1 => 0,
            Channel::Ch2 => 1,
            Channel::Ch3 => 2,
            Channel::Ch4 => 3,
            Channel::Main => 0,
        }
    }

    /// The non-`Main` channel with the given ordinal.
    pub fn from_index(i: usize) -> (r: Self)
        requires
            i < 4,
        ensures
            r.spec_to_index() == i,
            r != Channel::Main,
    {
        match i {
            0 => Channel::Ch1,
            1 => Channel::Ch2,
            2 => Channel::Ch3,
            _ => Channel::Ch4,
        }
    }
}

/// Displayed state of one channel.
#[derive(Clone, Copy, PartialEq, Eq, Structural, Debug)]
pub enum ChannelState {
    Inactive,
    Running,
    Muted,
}

impl ChannelState {
    /// Whether any stream is attached: true for `Running` and `Muted`.
    pub fn is_active(self) -> (r: bool)
        ensures
            r == (self != ChannelState::Inactive),
    {
        self != ChannelState::Inactive
    }
}

/// Message sent from the host to the device.
#[derive(Clone, Copy, PartialEq, Eq, Structural, Debug)]
pub enum HostMessage {
    /// New aggregate peak level for a channel.
    UpdatePeak(Channel, u16),
    /// New displayed state for a channel.
    UpdateChannelState(Channel, ChannelState),
    /// Announces that an icon bulk transfer for this channel is starting.
    SetIcon(Channel),
    /// Asks the device to re-report its full state.
    ForceUpdate,
}

/// Message sent from the device to the host.
#[derive(Clone, Copy, PartialEq, Eq, Structural, Debug)]
pub enum DeviceMessage {
    /// A fader moved: new volume for a channel.
    UpdateVolume(Channel, u16),
    /// A mute button was pressed on a channel.
    ToggleChannelMute(Channel),
}

/// Why a frame could not be decoded.  A decode failure drops that one
/// datagram only; it is never a reason to crash the caller.
#[derive(Clone, Copy, PartialEq, Eq, Structural, Debug)]
pub enum DecodeError {
    /// The frame ended before the payload of its message was complete.
    Truncated,
    /// The first byte is not a known message discriminant.
    UnknownTag,
    /// A channel byte does not name one of the five channels.
    UnknownChannel,
    /// A state byte does not name one of the three channel states.
    UnknownState,
    /// Bytes follow a complete message.
    TrailingData,
}

/// Wire byte of a channel.
pub open spec fn spec_channel_byte(ch: Channel) -> u8 {
    match ch {
        Channel::Ch1 => 0,
        Channel::Ch2 => 1,
        Channel::Ch3 => 2,
        Channel::Ch4 => 3,
        Channel::Main => 4,
    }
}

/// Channel named by a wire byte.
pub open spec fn spec_channel_of_byte(b: u8) -> Option<Channel> {
    if b == 0 {
        Some(Channel::Ch1)
    } else if b == 1 {
        Some(Channel::Ch2)
    } else if b == 2 {
        Some(Channel::Ch3)
    } else if b == 3 {
        Some(Channel::Ch4)
    } else if b == 4 {
        Some(Channel::Main)
    } else {
        None
    }
}

/// Wire byte of a channel state.
pub open spec fn spec_state_byte(st: ChannelState) -> u8 {
    match st {
        ChannelState::Inactive => 0,
        ChannelState::Running => 1,
        ChannelState::Muted => 2,
    }
}

/// Channel state named by a wire byte.
pub open spec fn spec_state_of_byte(b: u8) -> Option<ChannelState> {
    if b == 0 {
        Some(ChannelState::Inactive)
    } else if b == 1 {
        Some(ChannelState::Running)
    } else if b == 2 {
        Some(ChannelState::Muted)
    } else {
        None
    }
}

/// Little-endian bytes of a level value.
pub open spec fn spec_level_bytes(v: u16) -> Seq<u8> {
    seq![(v % 256) as u8, (v / 256) as u8]
}

/// Level value read back from its two little-endian bytes.
pub open spec fn spec_level_of_bytes(lo: u8, hi: u8) -> u16 {
    (lo + hi * 256) as u16
}

/// Encoding of a host-to-device message: a single-byte discriminant followed
/// by the payload fields in declaration order.
pub open spec fn spec_encode_host(m: HostMessage) -> Seq<u8> {
    match m {
        HostMessage::UpdatePeak(ch, v) => seq![0u8, spec_channel_byte(ch)] + spec_level_bytes(v),
        HostMessage::UpdateChannelState(ch, st) => seq![
            1u8,
            spec_channel_byte(ch),
            spec_state_byte(st),
        ],
        HostMessage::SetIcon(ch) => seq![2u8, spec_channel_byte(ch)],
        HostMessage::ForceUpdate => seq![3u8],
    }
}

/// Encoding of a device-to-host message.
pub open spec fn spec_encode_device(m: DeviceMessage) -> Seq<u8> {
    match m {
        DeviceMessage::UpdateVolume(ch, v) => seq![0u8, spec_channel_byte(ch)]
            + spec_level_bytes(v),
        DeviceMessage::ToggleChannelMute(ch) => seq![1u8, spec_channel_byte(ch)],
    }
}

/// Decoding of a host-to-device frame.
pub open spec fn spec_decode_host(s: Seq<u8>) -> Result<HostMessage, DecodeError> {
    if s.len() == 0 {
        Err(DecodeError::Truncated)
    } else if s[0] == 0 {
        if s.len() < 4 {
            Err(DecodeError::Truncated)
        } else if s.len() > 4 {
            Err(DecodeError::TrailingData)
        } else {
            match spec_channel_of_byte(s[1]) {
                Some(ch) => Ok(HostMessage::UpdatePeak(ch, spec_level_of_bytes(s[2], s[3]))),
                None => Err(DecodeError::UnknownChannel),
            }
        }
    } else if s[0] == 1 {
        if s.len() < 3 {
            Err(DecodeError::Truncated)
        } else if s.len() > 3 {
            Err(DecodeError::TrailingData)
        } else {
            match spec_channel_of_byte(s[1]) {
                Some(ch) => match spec_state_of_byte(s[2]) {
                    Some(st) => Ok(HostMessage::UpdateChannelState(ch, st)),
                    None => Err(DecodeError::UnknownState),
                },
                None => Err(DecodeError::UnknownChannel),
            }
        }
    } else if s[0] == 2 {
        if s.len() < 2 {
            Err(DecodeError::Truncated)
        } else if s.len() > 2 {
            Err(DecodeError::TrailingData)
        } else {
            match spec_channel_of_byte(s[1]) {
                Some(ch) => Ok(HostMessage::SetIcon(ch)),
                None => Err(DecodeError::UnknownChannel),
            }
        }
    } else if s[0] == 3 {
        if s.len() > 1 {
            Err(DecodeError::TrailingData)
        } else {
            Ok(HostMessage::ForceUpdate)
        }
    } else {
        Err(DecodeError::UnknownTag)
    }
}

/// Decoding of a device-to-host frame.
pub open spec fn spec_decode_device(s: Seq<u8>) -> Result<DeviceMessage, DecodeError> {
    if s.len() == 0 {
        Err(DecodeError::Truncated)
    } else if s[0] == 0 {
        if s.len() < 4 {
            Err(DecodeError::Truncated)
        } else if s.len() > 4 {
            Err(DecodeError::TrailingData)
        } else {
            match spec_channel_of_byte(s[1]) {
                Some(ch) => Ok(DeviceMessage::UpdateVolume(ch, spec_level_of_bytes(s[2], s[3]))),
                None => Err(DecodeError::UnknownChannel),
            }
        }
    } else if s[0] == 1 {
        if s.len() < 2 {
            Err(DecodeError::Truncated)
        } else if s.len() > 2 {
            Err(DecodeError::TrailingData)
        } else {
            match spec_channel_of_byte(s[1]) {
                Some(ch) => Ok(DeviceMessage::ToggleChannelMute(ch)),
                None => Err(DecodeError::UnknownChannel),
            }
        }
    } else {
        Err(DecodeError::UnknownTag)
    }
}

fn channel_byte(ch: Channel) -> (r: u8)
    ensures
        r == spec_channel_byte(ch),
{
    match ch {
        Channel::Ch1 => 0,
        Channel::Ch2 => 1,
        Channel::Ch3 => 2,
        Channel::Ch4 => 3,
        Channel::Main => 4,
    }
}

fn channel_of_byte(b: u8) -> (r: Option<Channel>)
    ensures
        r == spec_channel_of_byte(b),
{
    match b {
        0 => Some(Channel::Ch1),
        1 => Some(Channel::Ch2),
        2 => Some(Channel::Ch3),
        3 => Some(Channel::Ch4),
        4 => Some(Channel::Main),
        _ => None,
    }
}

fn state_byte(st: ChannelState) -> (r: u8)
    ensures
        r == spec_state_byte(st),
{
    match st {
        ChannelState::Inactive => 0,
        ChannelState::Running => 1,
        ChannelState::Muted => 2,
    }
}

fn state_of_byte(b: u8) -> (r: Option<ChannelState>)
    ensures
        r == spec_state_of_byte(b),
{
    match b {
        0 => Some(ChannelState::Inactive),
        1 => Some(ChannelState::Running),
        2 => Some(ChannelState::Muted),
        _ => None,
    }
}

/// Encode a host-to-device message into one frame.  A frame always fits the
/// 64-byte control-channel payload.
pub fn encode_host_message(m: &HostMessage) -> (r: Vec<u8>)
    ensures
        r@ == spec_encode_host(*m),
        r@.len() <= 64,
{
    let mut out: Vec<u8> = Vec::new();
    match m {
        HostMessage::UpdatePeak(ch, v) => {
            out.push(0);
            out.push(channel_byte(*ch));
            out.push((*v % 256) as u8);
            out.push((*v / 256) as u8);
        }
        HostMessage::UpdateChannelState(ch, st) => {
            out.push(1);
            out.push(channel_byte(*ch));
            out.push(state_byte(*st));
        }
        HostMessage::SetIcon(ch) => {
            out.push(2);
            out.push(channel_byte(*ch));
        }
        HostMessage::ForceUpdate => {
            out.push(3);
        }
    }
    assert(out@ =~= spec_encode_host(*m));
    out
}

/// Encode a device-to-host message into one frame.  A frame always fits the
/// 64-byte control-channel payload.
pub fn encode_device_message(m: &DeviceMessage) -> (r: Vec<u8>)
    ensures
        r@ == spec_encode_device(*m),
        r@.len() <= 64,
{
    let mut out: Vec<u8> = Vec::new();
    match m {
        DeviceMessage::UpdateVolume(ch, v) => {
            out.push(0);
            out.push(channel_byte(*ch));
            out.push((*v % 256) as u8);
            out.push((*v / 256) as u8);
        }
        DeviceMessage::ToggleChannelMute(ch) => {
            out.push(1);
            out.push(channel_byte(*ch));
        }
    }
    assert(out@ =~= spec_encode_device(*m));
    out
}

/// Decode one host-to-device frame.
pub fn decode_host_message(s: &[u8]) -> (r: Result<HostMessage, DecodeError>)
    ensures
        r == spec_decode_host(s@),
{
    if s.len() == 0 {
        return Err(DecodeError::Truncated);
    }
    let tag = s[0];
    if tag == 0 {
        if s.len() < 4 {
            Err(DecodeError::Truncated)
        } else if s.len() > 4 {
            Err(DecodeError::TrailingData)
        } else {
            match channel_of_byte(s[1]) {
                Some(ch) => {
                    let v: u16 = s[2] as u16 + s[3] as u16 * 256;
                    Ok(HostMessage::UpdatePeak(ch, v))
                }
                None => Err(DecodeError::UnknownChannel),
            }
        }
    } else if tag == 1 {
        if s.len() < 3 {
            Err(DecodeError::Truncated)
        } else if s.len() > 3 {
            Err(DecodeError::TrailingData)
        } else {
            match channel_of_byte(s[1]) {
                Some(ch) => match state_of_byte(s[2]) {
                    Some(st) => Ok(HostMessage::UpdateChannelState(ch, st)),
                    None => Err(DecodeError::UnknownState),
                },
                None => Err(DecodeError::UnknownChannel),
            }
        }
    } else if tag == 2 {
        if s.len() < 2 {
            Err(DecodeError::Truncated)
        } else if s.len() > 2 {
            Err(DecodeError::TrailingData)
        } else {
            match channel_of_byte(s[1]) {
                Some(ch) => Ok(HostMessage::SetIcon(ch)),
                None => Err(DecodeError::UnknownChannel),
            }
        }
    } else if tag == 3 {
        if s.len() > 1 {
            Err(DecodeError::TrailingData)
        } else {
            Ok(HostMessage::ForceUpdate)
        }
    } else {
        Err(DecodeError::UnknownTag)
    }
}

/// Decode one device-to-host frame.
pub fn decode_device_message(s: &[u8]) -> (r: Result<DeviceMessage, DecodeError>)
    ensures
        r == spec_decode_device(s@),
{
    if s.len() == 0 {
        return Err(DecodeError::Truncated);
    }
    let tag = s[0];
    if tag == 0 {
        if s.len() < 4 {
            Err(DecodeError::Truncated)
        } else if s.len() > 4 {
            Err(DecodeError::TrailingData)
        } else {
            match channel_of_byte(s[1]) {
                Some(ch) => {
                    let v: u16 = s[2] as u16 + s[3] as u16 * 256;
                    Ok(DeviceMessage::UpdateVolume(ch, v))
                }
                None => Err(DecodeError::UnknownChannel),
            }
        }
    } else if tag == 1 {
        if s.len() < 2 {
            Err(DecodeError::Truncated)
        } else if s.len() > 2 {
            Err(DecodeError::TrailingData)
        } else {
            match channel_of_byte(s[1]) {
                Some(ch) => Ok(DeviceMessage::ToggleChannelMute(ch)),
                None => Err(DecodeError::UnknownChannel),
            }
        }
    } else {
        Err(DecodeError::UnknownTag)
    }
}

/// Encoding then decoding any host-to-device message yields the message
/// back.
pub proof fn lemma_host_message_round_trip(m: HostMessage)
    ensures
        spec_decode_host(spec_encode_host(m)) == Ok::<HostMessage, DecodeError>(m),
{
}

/// Encoding then decoding any device-to-host message yields the message
/// back.
pub proof fn lemma_device_message_round_trip(m: DeviceMessage)
    ensures
        spec_decode_device(spec_encode_device(m)) == Ok::<DeviceMessage, DecodeError>(m),
{
}

/// Decoding is the exact inverse of encoding: a frame that decodes to a
/// host-to-device message is that message's encoding.
pub proof fn lemma_host_decode_inverse(s: Seq<u8>, m: HostMessage)
    requires
        spec_decode_host(s) == Ok::<HostMessage, DecodeError>(m),
    ensures
        spec_encode_host(m) =~= s,
{
}

/// Decoding is the exact inverse of encoding: a frame that decodes to a
/// device-to-host message is that message's encoding.
pub proof fn lemma_device_decode_inverse(s: Seq<u8>, m: DeviceMessage)
    requires
        spec_decode_device(s) == Ok::<DeviceMessage, DecodeError>(m),
    ensures
        spec_encode_device(m) =~= s,
{
}

} // verus!
