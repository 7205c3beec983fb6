//! One logical mixer channel on the host: the set of attached audio streams,
//! the channel's mute authority and last-known volume, and the peak
//! aggregate.
//!
//! Streams are held in an arena of optional slots so that indices handed out
//! to the audio layer stay stable while other entries are removed out of
//! order.

use vstd::prelude::*;

use crate::common::ChannelState;
use crate::config::PropertyMatches;
use crate::pa::SinkInputInfo;

verus! {

/// What the channel knows about one attached stream.
#[derive(Clone, Copy, PartialEq, Eq, Structural, Debug)]
pub struct StreamData {
    /// Audio-server index of the sink-input this stream monitors, or `None`
    /// for the default-sink stream of the main channel.
    pub sink_input: Option<u32>,
    /// Most recent peak sample reported for this stream, in ten-thousandths
    /// of full scale.
    pub last_peak: u16,
}

/// What a newly attached stream must be told so that it conforms to the
/// channel's established mute flag and last-known volume.
#[derive(Clone, Copy, PartialEq, Eq, Structural, Debug)]
pub struct StreamSync {
    /// `Some(m)` when the stream's own mute state must be changed to `m`.
    pub set_mute: Option<bool>,
    /// `Some(v)` when the channel has a last-known volume to apply.
    pub set_volume: Option<u16>,
}

/// Number of occupied slots.
pub open spec fn spec_count(s: Seq<Option<StreamData>>) -> int
    decreases s.len(),
{
    if s.len() == 0 {
        0
    } else {
        spec_count(s.drop_last()) + if s.last() is Some {
            1int
        } else {
            0int
        }
    }
}

/// Whether slot `i` holds a stream.
pub open spec fn spec_occupied(s: Seq<Option<StreamData>>, i: int) -> bool {
    0 <= i < s.len() && s[i] is Some
}

/// Whether no slot holds a stream.
pub open spec fn spec_is_empty(s: Seq<Option<StreamData>>) -> bool {
    forall|i: int| !spec_occupied(s, i)
}

/// The maximum `last_peak` over all occupied slots, `0` when none.
pub open spec fn spec_max_peak(s: Seq<Option<StreamData>>) -> u16
    decreases s.len(),
{
    if s.len() == 0 {
        0
    } else {
        let rest = spec_max_peak(s.drop_last());
        match s.last() {
            Some(sd) => if sd.last_peak > rest {
                sd.last_peak
            } else {
                rest
            },
            None => rest,
        }
    }
}

/// The occupied slot indices, in ascending order.
pub open spec fn spec_occupied_indices(s: Seq<Option<StreamData>>) -> Seq<int>
    decreases s.len(),
{
    if s.len() == 0 {
        Seq::empty()
    } else {
        spec_occupied_indices(s.drop_last()) + if s.last() is Some {
            seq![s.len() - 1]
        } else {
            Seq::empty()
        }
    }
}

/// A channel is empty exactly when it holds zero streams.
pub proof fn lemma_count_zero_iff_empty(s: Seq<Option<StreamData>>)
    ensures
        spec_count(s) == 0 <==> spec_is_empty(s),
        spec_count(s) >= 0,
    decreases s.len(),
{
    if s.len() > 0 {
        lemma_count_zero_iff_empty(s.drop_last());
        if spec_count(s) == 0 {
            assert forall|i: int| !spec_occupied(s, i) by {
                if 0 <= i < s.len() - 1 {
                    assert(!spec_occupied(s.drop_last(), i));
                    assert(s.drop_last()[i] == s[i]);
                }
            }
        } else {
            if !spec_is_empty(s.drop_last()) {
                let i = choose|i: int| spec_occupied(s.drop_last(), i);
                assert(s.drop_last()[i] == s[i]);
                assert(spec_occupied(s, i));
            } else {
                assert(spec_occupied(s, s.len() - 1));
            }
        }
    }
}

/// Replacing a free slot by a stream raises the count by one.
pub proof fn lemma_count_fill(s: Seq<Option<StreamData>>, i: int, sd: StreamData)
    requires
        0 <= i < s.len(),
        s[i] is None,
    ensures
        spec_count(s.update(i, Some(sd))) == spec_count(s) + 1,
    decreases s.len(),
{
    let t = s.update(i, Some(sd));
    if i == s.len() - 1 {
        assert(t.drop_last() =~= s.drop_last());
    } else {
        lemma_count_fill(s.drop_last(), i, sd);
        assert(t.drop_last() =~= s.drop_last().update(i, Some(sd)));
        assert(t.last() == s.last());
    }
}

/// Appending a stream raises the count by one.
pub proof fn lemma_count_push(s: Seq<Option<StreamData>>, sd: StreamData)
    ensures
        spec_count(s.push(Some(sd))) == spec_count(s) + 1,
{
    assert(s.push(Some(sd)).drop_last() =~= s);
}

/// How a channel relates to its earlier self after a stream was attached
/// at slot `index`: the slot was free (or freshly appended), the channel's
/// mute authority came from the stream exactly when the channel was empty,
/// and everything else is untouched.
pub open spec fn spec_attach_relation(
    pre: Channel,
    post: Channel,
    sink_input: Option<u32>,
    stream_mute: bool,
    index: int,
) -> bool {
    let sd = StreamData { sink_input, last_peak: 0u16 };
    &&& post.mute == if spec_is_empty(pre.attached_streams@) {
        stream_mute
    } else {
        pre.mute
    }
    &&& post.volume == pre.volume
    &&& post.property_matches == pre.property_matches
    &&& 0 <= index <= pre.attached_streams@.len()
    &&& index < pre.attached_streams@.len() ==> pre.attached_streams@[index] is None
        && post.attached_streams@ == pre.attached_streams@.update(index, Some(sd))
    &&& index == pre.attached_streams@.len() ==> post.attached_streams@
        == pre.attached_streams@.push(Some(sd))
    &&& spec_count(post.attached_streams@) == spec_count(pre.attached_streams@) + 1
}

/// The stream slots after a peak sample for slot `index` was taken in:
/// the slot's cached peak is replaced when the slot holds a stream and a
/// sample arrived, otherwise nothing changes.
pub open spec fn spec_peak_update(
    pre: Seq<Option<StreamData>>,
    index: int,
    sample: Option<u16>,
) -> Seq<Option<StreamData>> {
    if spec_occupied(pre, index) && sample is Some {
        pre.update(index, Some(StreamData { sink_input: pre[index]->0.sink_input, last_peak: sample->0 }))
    } else {
        pre
    }
}

/// Mute authority: a channel with no streams adopts the first attached
/// stream's own mute state — the device has no memory across reboots, so
/// the initial authority is the audio server's — and shows `Muted` or
/// `Running` accordingly.  A channel that already has streams keeps its own
/// established flag instead, whatever the newcomer reports.
pub proof fn lemma_mute_authority(
    pre: Channel,
    post: Channel,
    sink_input: Option<u32>,
    stream_mute: bool,
    index: int,
)
    requires
        spec_attach_relation(pre, post, sink_input, stream_mute, index),
    ensures
        spec_is_empty(pre.attached_streams@) ==> post.mute == stream_mute,
        !spec_is_empty(pre.attached_streams@) ==> post.mute == pre.mute,
        post.spec_state() == if post.mute {
            ChannelState::Muted
        } else {
            ChannelState::Running
        },
{
    assert(spec_occupied(post.attached_streams@, index));
}

/// How a channel relates to its earlier self after every stream monitoring
/// `sink_input` was dropped: those slots are freed, every other slot and
/// every other field is untouched.
pub open spec fn spec_drop_relation(pre: Channel, post: Channel, sink_input: u32) -> bool {
    &&& post.attached_streams@.len() == pre.attached_streams@.len()
    &&& forall|j: int|
        0 <= j < pre.attached_streams@.len() ==> post.attached_streams@[j] == if pre
            .attached_streams@[j] matches Some(sd) && sd.sink_input == Some(sink_input) {
            None::<StreamData>
        } else {
            pre.attached_streams@[j]
        }
    &&& post.property_matches == pre.property_matches
    &&& post.mute == pre.mute
    &&& post.volume == pre.volume
}

/// Representation of one of the "physical" mixer channels, including the
/// main channel.
pub struct Channel {
    /// Attached audio streams; a `None` slot is free.  Their volume is
    /// controlled by this channel.
    pub attached_streams: Vec<Option<StreamData>>,
    /// Property match-sets for this channel (from the configuration).
    /// Absent for the main channel, which always binds the default output.
    pub property_matches: Option<PropertyMatches>,
    /// Whether this channel is currently muted.
    pub mute: bool,
    /// The current volume for this channel, as last reported by the mixer
    /// device.
    pub volume: Option<u16>,
}

impl Channel {
    /// The displayed state this channel is in: `Inactive` exactly when no
    /// stream is attached, otherwise `Muted` or `Running` by the mute flag.
    pub open spec fn spec_state(self) -> ChannelState {
        if spec_is_empty(self.attached_streams@) {
            ChannelState::Inactive
        } else if self.mute {
            ChannelState::Muted
        } else {
            ChannelState::Running
        }
    }

    /// A fresh channel: no streams, not muted, no known volume.
    pub fn new(property_matches: Option<PropertyMatches>) -> (r: Self)
        ensures
            r.attached_streams@.len() == 0,
            r.property_matches == property_matches,
            !r.mute,
            r.volume is None,
            r.spec_state() == ChannelState::Inactive,
    {
        Channel {
            attached_streams: Vec::new(),
            property_matches,
            mute: false,
            volume: None,
        }
    }

    /// Detach all currently connected streams.
    pub fn detach_all(&mut self)
        ensures
            final(self).attached_streams@.len() == 0,
            final(self).spec_state() == ChannelState::Inactive,
            final(self).property_matches == old(self).property_matches,
            final(self).mute == old(self).mute,
            final(self).volume == old(self).volume,
    {
        self.attached_streams = Vec::new();
    }

    /// Attach a new stream to this channel.
    ///
    /// If it is the first stream, the channel adopts the stream's own mute
    /// state as its initial authority; afterwards the stream is brought in
    /// line with the channel's mute flag and last-known volume.  Returns the
    /// arena index the stream was stored under, the channel's new state, and
    /// what the stream must be told to conform.
    pub fn attach_stream(&mut self, sink_input: Option<u32>, stream_mute: bool) -> (r: (
        usize,
        ChannelState,
        StreamSync,
    ))
        ensures
            spec_attach_relation(*old(self), *final(self), sink_input, stream_mute, r.0 as int),
            r.1 == final(self).spec_state(),
            r.1 != ChannelState::Inactive,
            r.2.set_mute == if stream_mute != final(self).mute {
                Some(final(self).mute)
            } else {
                None::<bool>
            },
            r.2.set_volume == old(self).volume,
    {
        // If this is the first stream, update the local mute information.
        // It is the initial source of truth for the channel until the device
        // updates it.
        let was_empty = self.is_empty();
        if was_empty {
            self.mute = stream_mute;
        }

        // Bring the stream in line with the channel's knowledge.
        let set_mute = if stream_mute != self.mute {
            Some(self.mute)
        } else {
            None
        };
        let sync = StreamSync { set_mute, set_volume: self.volume };

        let sd = StreamData { sink_input, last_peak: 0 };
        let index = self.store_stream(sd);

        proof {
            if index < old(self).attached_streams@.len() {
                lemma_count_fill(old(self).attached_streams@, index as int, sd);
            } else {
                lemma_count_push(old(self).attached_streams@, sd);
            }
            lemma_count_zero_iff_empty(old(self).attached_streams@);
            lemma_count_zero_iff_empty(self.attached_streams@);
        }
        let state = self.state();
        (index, state, sync)
    }

    /// Store a stream in the first free slot, or append a new slot.
    fn store_stream(&mut self, sd: StreamData) -> (r: usize)
        ensures
            final(self).property_matches == old(self).property_matches,
            final(self).mute == old(self).mute,
            final(self).volume == old(self).volume,
            r <= old(self).attached_streams@.len(),
            r < old(self).attached_streams@.len() ==> old(self).attached_streams@[r as int]
                is None && final(self).attached_streams@ == old(self).attached_streams@.update(
                r as int,
                Some(sd),
            ),
            r == old(self).attached_streams@.len() ==> final(self).attached_streams@ == old(
                self,
            ).attached_streams@.push(Some(sd)),
    {
        let n = self.attached_streams.len();
        let mut i: usize = 0;
        while i < n
            invariant
                n == self.attached_streams@.len(),
                i <= n,
                forall|j: int| 0 <= j < i ==> self.attached_streams@[j] is Some,
                *self == *old(self),
            decreases n - i,
        {
            if self.attached_streams[i].is_none() {
                self.attached_streams.set(i, Some(sd));
                return i;
            }
            i += 1;
        }
        self.attached_streams.push(Some(sd));
        n
    }

    /// Whether no stream is attached.
    fn is_empty(&self) -> (r: bool)
        ensures
            r == spec_is_empty(self.attached_streams@),
    {
        let n = self.attached_streams.len();
        let mut i: usize = 0;
        while i < n
            invariant
                n == self.attached_streams@.len(),
                i <= n,
                forall|j: int| 0 <= j < i ==> self.attached_streams@[j] is None,
            decreases n - i,
        {
            if self.attached_streams[i].is_some() {
                assert(spec_occupied(self.attached_streams@, i as int));
                return false;
            }
            i += 1;
        }
        true
    }

    /// Arena index of the stream monitoring the given sink-input, if any.
    pub fn index_for_sink_input(&self, sink_input: u32) -> (r: Option<usize>)
        ensures
            match r {
                Some(i) => spec_occupied(self.attached_streams@, i as int)
                    && self.attached_streams@[i as int]->0.sink_input == Some(sink_input)
                    && forall|j: int|
                    0 <= j < i ==> !(spec_occupied(self.attached_streams@, j)
                        && self.attached_streams@[j]->0.sink_input == Some(sink_input)),
                None => forall|j: int|
                    !(spec_occupied(self.attached_streams@, j)
                        && self.attached_streams@[j]->0.sink_input == Some(sink_input)),
            },
    {
        let n = self.attached_streams.len();
        let mut i: usize = 0;
        while i < n
            invariant
                n == self.attached_streams@.len(),
                i <= n,
                forall|j: int|
                    0 <= j < i ==> !(spec_occupied(self.attached_streams@, j)
                        && self.attached_streams@[j]->0.sink_input == Some(sink_input)),
            decreases n - i,
        {
            match &self.attached_streams[i] {
                Some(sd) => {
                    match sd.sink_input {
                        Some(si) => {
                            if si == sink_input {
                                return Some(i);
                            }
                        }
                        None => {}
                    }
                }
                None => {}
            }
            i += 1;
        }
        None
    }

    /// Drop every stream monitoring the given sink-input (there is at most
    /// one) and report the channel's resulting state.
    pub fn try_drop_stream(&mut self, sink_input: u32) -> (r: ChannelState)
        ensures
            spec_drop_relation(*old(self), *final(self), sink_input),
            r == final(self).spec_state(),
    {
        let n = self.attached_streams.len();
        let mut i: usize = 0;
        while i < n
            invariant
                n == self.attached_streams@.len(),
                i <= n,
                self.property_matches == old(self).property_matches,
                self.mute == old(self).mute,
                self.volume == old(self).volume,
                forall|j: int|
                    0 <= j < i ==> self.attached_streams@[j] == if old(
                        self,
                    ).attached_streams@[j] matches Some(sd) && sd.sink_input == Some(sink_input) {
                        None::<StreamData>
                    } else {
                        old(self).attached_streams@[j]
                    },
                forall|j: int|
                    i <= j < n ==> self.attached_streams@[j] == old(self).attached_streams@[j],
            decreases n - i,
        {
            let drop_it = match &self.attached_streams[i] {
                Some(sd) => {
                    match sd.sink_input {
                        Some(si) => si == sink_input,
                        None => false,
                    }
                }
                None => false,
            };
            if drop_it {
                self.attached_streams.set(i, None);
            }
            i += 1;
        }
        self.state()
    }

    /// Replace the cached peak sample of the stream at `index` (when the
    /// audio layer delivered one) and return the maximum peak across all
    /// attached streams, `0` when none is attached.
    ///
    /// A sample for a slot that no longer holds a stream is ignored.
    pub fn update_peak(&mut self, index: usize, sample: Option<u16>) -> (r: u16)
        ensures
            final(self).property_matches == old(self).property_matches,
            final(self).mute == old(self).mute,
            final(self).volume == old(self).volume,
            final(self).attached_streams@ == spec_peak_update(
                old(self).attached_streams@,
                index as int,
                sample,
            ),
            r == spec_max_peak(final(self).attached_streams@),
    {
        if index < self.attached_streams.len() {
            let current = self.attached_streams[index];
            match (current, sample) {
                (Some(sd), Some(p)) => {
                    self.attached_streams.set(
                        index,
                        Some(StreamData { sink_input: sd.sink_input, last_peak: p }),
                    );
                }
                _ => {}
            }
        }
        self.max_peak()
    }

    /// The maximum cached peak over all attached streams, `0` when none.
    fn max_peak(&self) -> (r: u16)
        ensures
            r == spec_max_peak(self.attached_streams@),
    {
        let n = self.attached_streams.len();
        let mut best: u16 = 0;
        let mut i: usize = 0;
        while i < n
            invariant
                n == self.attached_streams@.len(),
                i <= n,
                best == spec_max_peak(self.attached_streams@.take(i as int)),
            decreases n - i,
        {
            proof {
                assert(self.attached_streams@.take(i + 1).drop_last() =~= self.attached_streams@
                    .take(i as int));
                assert(self.attached_streams@.take(i + 1).last() == self.attached_streams@[
                    i as int]);
            }
            match &self.attached_streams[i] {
                Some(sd) => {
                    if sd.last_peak > best {
                        best = sd.last_peak;
                    }
                }
                None => {}
            }
            i += 1;
        }
        proof {
            assert(self.attached_streams@.take(n as int) =~= self.attached_streams@);
        }
        best
    }

    /// Record `volume` as the channel's last-known volume.  The caller must
    /// apply it to every attached stream; the returned indices say, in
    /// ascending order, which arena slots those are.
    pub fn update_volume(&mut self, volume: u16) -> (r: Vec<usize>)
        ensures
            final(self).attached_streams@ == old(self).attached_streams@,
            final(self).property_matches == old(self).property_matches,
            final(self).mute == old(self).mute,
            final(self).volume == Some(volume),
            r@.map_values(|x: usize| x as int) == spec_occupied_indices(
                final(self).attached_streams@,
            ),
    {
        self.volume = Some(volume);
        self.occupied_indices()
    }

    /// Flip the channel's authoritative mute flag and report the resulting
    /// state.  The caller must propagate the new flag to every attached
    /// stream; the returned indices say which arena slots those are.
    pub fn toggle_mute(&mut self) -> (r: (ChannelState, Vec<usize>))
        ensures
            final(self).attached_streams@ == old(self).attached_streams@,
            final(self).property_matches == old(self).property_matches,
            final(self).mute == !old(self).mute,
            final(self).volume == old(self).volume,
            r.0 == final(self).spec_state(),
            r.1@.map_values(|x: usize| x as int) == spec_occupied_indices(
                final(self).attached_streams@,
            ),
    {
        self.mute = !self.mute;
        let indices = self.occupied_indices();
        let state = self.state();
        (state, indices)
    }

    /// The occupied arena slots, in ascending order.
    fn occupied_indices(&self) -> (r: Vec<usize>)
        ensures
            r@.map_values(|x: usize| x as int) == spec_occupied_indices(self.attached_streams@),
    {
        let n = self.attached_streams.len();
        let mut out: Vec<usize> = Vec::new();
        let mut i: usize = 0;
        while i < n
            invariant
                n == self.attached_streams@.len(),
                i <= n,
                out@.map_values(|x: usize| x as int) == spec_occupied_indices(
                    self.attached_streams@.take(i as int),
                ),
            decreases n - i,
        {
            proof {
                assert(self.attached_streams@.take(i + 1).drop_last() =~= self.attached_streams@
                    .take(i as int));
                assert(self.attached_streams@.take(i + 1).last() == self.attached_streams@[
                    i as int]);
            }
            match &self.attached_streams[i] {
                Some(_) => {
                    out.push(i);
                    proof {
                        assert(out@.map_values(|x: usize| x as int) =~= out@.drop_last().map_values(
                            |x: usize| x as int,
                        ).push(i as int));
                    }
                }
                None => {
                    proof {
                        assert(spec_occupied_indices(self.attached_streams@.take(i + 1))
                            =~= spec_occupied_indices(self.attached_streams@.take(i as int)));
                    }
                }
            }
            i += 1;
        }
        proof {
            assert(self.attached_streams@.take(n as int) =~= self.attached_streams@);
        }
        out
    }

    /// Whether a stream with these properties belongs on this channel: it
    /// must satisfy all constraints of any one configured match-set.  The
    /// main channel has no match-sets and matches no sink-input.
    pub open spec fn spec_matches_sink_input(self, info: SinkInputInfo) -> bool {
        match self.property_matches {
            Some(sets) => crate::config::spec_matches_any(info.properties@, sets@),
            None => false,
        }
    }

    /// Whether this sink-input should be connected to this channel.
    pub fn match_sink_input(&self, info: &SinkInputInfo) -> (r: bool)
        ensures
            r == self.spec_matches_sink_input(*info),
    {
        match &self.property_matches {
            Some(sets) => crate::config::matches_any(&info.properties, sets),
            None => false,
        }
    }

    /// The channel's displayed state.
    pub fn state(&self) -> (r: ChannelState)
        ensures
            r == self.spec_state(),
    {
        if self.is_empty() {
            ChannelState::Inactive
        } else if self.mute {
            ChannelState::Muted
        } else {
            ChannelState::Running
        }
    }

    /// `state()` classifies a channel exactly: `Inactive` iff no stream is
    /// attached; `Running` iff streams are attached and the mute flag is
    /// clear; `Muted` iff streams are attached and the mute flag is set.
    pub proof fn lemma_state_classification(self)
        ensures
            self.spec_state() == ChannelState::Inactive <==> spec_count(self.attached_streams@)
                == 0,
            self.spec_state() == ChannelState::Running <==> spec_count(self.attached_streams@) > 0
                && !self.mute,
            self.spec_state() == ChannelState::Muted <==> spec_count(self.attached_streams@) > 0
                && self.mute,
    {
        lemma_count_zero_iff_empty(self.attached_streams@);
    }
}

} // verus!
