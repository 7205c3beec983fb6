//! Audio-server data as the core consumes it: plain-value descriptions of
//! sinks and sink-inputs, the events the dispatcher drains, and the
//! classification of raw subscription callbacks into those events.
//!
//! Talking to the audio server itself — callbacks, mainloop iteration,
//! monitoring streams — is the surrounding application's job; it converts
//! what the server reports into these types.

use vstd::prelude::*;

use crate::common::Channel;

verus! {

/// What the audio server reports about one sink-input (a playing stream).
#[derive(Debug)]
pub struct SinkInputInfo {
    /// Server-side index of the sink-input.
    pub index: u32,
    /// Human-readable stream name, if the server reports one.
    pub name: Option<String>,
    /// Name of the owning application, if the server reports one.
    pub application: Option<String>,
    /// Server-side index of the sink the stream plays into.
    pub connected_sink: u32,
    /// The stream's property list, in server order.
    pub properties: Vec<(String, String)>,
    /// The stream's current volume, in ten-thousandths of full scale.
    pub volume: u16,
    /// Whether the stream is currently muted.
    pub mute: bool,
}

/// What the audio server reports about one sink (an output device).
#[derive(Debug)]
pub struct SinkInfo {
    /// Server-side index of the sink.
    pub index: u32,
    /// Name of the sink, if the server reports one.
    pub name: Option<String>,
    /// Server-side index of the sink's monitoring source.
    pub monitoring_source: u32,
    /// The sink's current volume, in ten-thousandths of full scale.
    pub volume: u16,
    /// Whether the sink is currently muted.
    pub mute: bool,
}

/// An event for the dispatcher, produced from audio-server callbacks.
#[derive(Debug)]
pub enum Event {
    /// After querying the default sink, the audio layer came back with a
    /// monitoring stream for it, described here.
    NewDefaultSink(SinkInfo),
    /// A new sink-input showed up; if it matches a channel, a stream should
    /// be requested for it.
    SinkInputAdded(SinkInputInfo),
    /// A sink-input was removed and should be dropped from a potentially
    /// connected channel.
    SinkInputRemoved(u32),
    /// A sink-input changed; if its ownership moved, it must be detached
    /// from the old channel and attached to the new one.
    SinkInputChanged(SinkInputInfo),
    /// A monitoring stream for this sink-input is now available for the
    /// given channel.
    NewSinkInput(Channel, SinkInputInfo),
    /// New signal peak information is available for the stream at the given
    /// arena index of the given channel.
    NewPeakData(Channel, usize),
}

/// The kind of server object a subscription callback is about.
#[derive(Clone, Copy, PartialEq, Eq, Structural, Debug)]
pub enum Facility {
    Sink,
    SinkInput,
    Server,
}

/// What happened to the object a subscription callback is about.
#[derive(Clone, Copy, PartialEq, Eq, Structural, Debug)]
pub enum Operation {
    New,
    Changed,
    Removed,
}

/// What the audio layer must do with one subscription callback.
#[derive(Clone, Copy, PartialEq, Eq, Structural, Debug)]
pub enum SubscribeDispatch {
    /// Re-query the default sink: the set of sinks, or the server's choice
    /// of default, may have changed.
    SinkUpdateNeeded,
    /// Query the named sink-input and deliver it as [`Event::SinkInputAdded`].
    QueryAddedSinkInput(u32),
    /// Query the named sink-input and deliver it as
    /// [`Event::SinkInputChanged`].
    QueryChangedSinkInput(u32),
    /// Deliver [`Event::SinkInputRemoved`] for the named sink-input.
    DeliverSinkInputRemoved(u32),
    /// Nothing to do for this callback.
    Ignore,
}

/// How one raw subscription callback is turned into work: sink-set and
/// server changes re-query the default sink; sink-input arrivals, changes
/// and removals flow to the dispatcher; everything else is ignored.
pub fn classify_subscription(facility: Facility, op: Operation, index: u32) -> (r:
    SubscribeDispatch)
    ensures
        r == match (facility, op) {
            (Facility::Sink, Operation::New) => SubscribeDispatch::SinkUpdateNeeded,
            (Facility::Sink, Operation::Removed) => SubscribeDispatch::SinkUpdateNeeded,
            (Facility::Sink, Operation::Changed) => SubscribeDispatch::Ignore,
            (Facility::Server, _) => SubscribeDispatch::SinkUpdateNeeded,
            (Facility::SinkInput, Operation::New) => SubscribeDispatch::QueryAddedSinkInput(
                index,
            ),
            (Facility::SinkInput, Operation::Changed) => SubscribeDispatch::QueryChangedSinkInput(
                index,
            ),
            (Facility::SinkInput, Operation::Removed) => SubscribeDispatch::DeliverSinkInputRemoved(
                index,
            ),
        },
{
    match (facility, op) {
        (Facility::Sink, Operation::New) => SubscribeDispatch::SinkUpdateNeeded,
        (Facility::Sink, Operation::Removed) => SubscribeDispatch::SinkUpdateNeeded,
        (Facility::Sink, Operation::Changed) => SubscribeDispatch::Ignore,
        (Facility::Server, _) => SubscribeDispatch::SinkUpdateNeeded,
        (Facility::SinkInput, Operation::New) => SubscribeDispatch::QueryAddedSinkInput(index),
        (Facility::SinkInput, Operation::Changed) => SubscribeDispatch::QueryChangedSinkInput(
            index,
        ),
        (Facility::SinkInput, Operation::Removed) => SubscribeDispatch::DeliverSinkInputRemoved(
            index,
        ),
    }
}

} // verus!
