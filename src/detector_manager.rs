use vstd::prelude::*;

use crate::decision::{Decision, DetectorDecision};
use crate::params::{default_params, DetectorParams};
use crate::poller;
use crate::spam_detector::{
    batch, decisions_view, reanalysis_decisions, DetectorView, SpamDetector,
};
use crate::types::Action;
use crate::user_data::{calm, reanalysis};

verus! {

/// Messages to the detector manager.
pub enum IncMessages {
    Close,
    ChatPoller(poller::OutMessages),
    UpdateParams { channel: String, params: DetectorParams },
}

/// What the detector manager reports.
pub enum OutMessages {
    NewChat { channel: String, video_id: String },
    ChatClosed { channel: String, video_id: String },
    DetectorResult { video_id: String, processed_messages: usize, decisions: Vec<DetectorDecision> },
}

/// The detector of one live stream.
pub struct StreamEntry {
    pub channel: String,
    pub video_id: String,
    pub detector: SpamDetector,
}

/// A stream's key: `(channel id, video id)`.
pub type StreamKey = (Seq<char>, Seq<char>);

pub open spec fn key_of(e: StreamEntry) -> StreamKey {
    (e.channel@, e.video_id@)
}

/// A fresh detector as plain values.
pub open spec fn empty_detector() -> DetectorView {
    DetectorView { index: Seq::empty(), users: Map::empty() }
}

/// A detector after its users were judged again under `p`.
pub open spec fn reanalyzed(d: DetectorView, p: DetectorParams) -> DetectorView {
    DetectorView {
        index: d.index,
        users: Map::new(
            |k: Seq<char>| d.users.contains_key(k),
            |k: Seq<char>| reanalysis(d.users[k], p).0,
        ),
    }
}

/// The detectors of all active streams, and the thresholds of every channel
/// that has one.
pub struct DetectorManager {
    streams: Vec<StreamEntry>,
    channels: Vec<(String, DetectorParams)>,
}

pub open spec fn has_stream(streams: Seq<StreamEntry>, k: StreamKey) -> bool {
    exists|i: int| 0 <= i < streams.len() && key_of(#[trigger] streams[i]) == k
}

pub open spec fn stream_position(streams: Seq<StreamEntry>, k: StreamKey) -> int {
    choose|i: int| 0 <= i < streams.len() && key_of(#[trigger] streams[i]) == k
}

/// Some stream belongs to channel `c`.
pub open spec fn serves_channel(streams: Seq<StreamEntry>, c: Seq<char>) -> bool {
    exists|j: int| 0 <= j < streams.len() && (#[trigger] streams[j]).channel@ == c
}

pub open spec fn has_channel(channels: Seq<(String, DetectorParams)>, c: Seq<char>) -> bool {
    exists|i: int| 0 <= i < channels.len() && (#[trigger] channels[i]).0@ == c
}

pub open spec fn channel_position(channels: Seq<(String, DetectorParams)>, c: Seq<char>) -> int {
    choose|i: int| 0 <= i < channels.len() && (#[trigger] channels[i]).0@ == c
}

pub open spec fn streams_map(s: Seq<StreamEntry>) -> Map<StreamKey, DetectorView> {
    Map::new(|k: StreamKey| has_stream(s, k), |k: StreamKey| s[stream_position(s, k)].detector@)
}

pub open spec fn channels_map(s: Seq<(String, DetectorParams)>) -> Map<Seq<char>, DetectorParams> {
    Map::new(|c: Seq<char>| has_channel(s, c), |c: Seq<char>| s[channel_position(s, c)].1)
}

pub open spec fn streams_unique(s: Seq<StreamEntry>) -> bool {
    forall|i: int, j: int|
        0 <= i < s.len() && 0 <= j < s.len() && key_of(#[trigger] s[i]) == key_of(#[trigger] s[j])
            ==> i == j
}

pub open spec fn channels_unique(s: Seq<(String, DetectorParams)>) -> bool {
    forall|i: int, j: int|
        0 <= i < s.len() && 0 <= j < s.len() && (#[trigger] s[i]).0@ == (#[trigger] s[j]).0@ ==> i
            == j
}

proof fn lemma_streams_push(s: Seq<StreamEntry>, e: StreamEntry)
    requires
        streams_unique(s),
        !has_stream(s, key_of(e)),
    ensures
        streams_unique(s.push(e)),
        streams_map(s.push(e)) == streams_map(s).insert(key_of(e), e.detector@),
{
    let t = s.push(e);
    assert forall|k: StreamKey| has_stream(t, k) <==> (has_stream(s, k) || k == key_of(e)) by {
        if has_stream(s, k) {
            let j = stream_position(s, k);
            assert(key_of(t[j]) == k);
        }
        if has_stream(t, k) && k != key_of(e) {
            let j = stream_position(t, k);
            assert(key_of(s[j]) == k);
        }
        if k == key_of(e) {
            assert(key_of(t[s.len() as int]) == k);
        }
    }
    assert forall|k: StreamKey| has_stream(s, k) implies stream_position(t, k) == stream_position(s, k) by {
        let j = stream_position(s, k);
        let j2 = stream_position(t, k);
        assert(key_of(t[j]) == k);
        assert(key_of(t[j2]) == k);
    }
    assert(has_stream(t, key_of(e)));
    assert(stream_position(t, key_of(e)) == s.len());
    assert(streams_map(t) =~= streams_map(s).insert(key_of(e), e.detector@));
}

proof fn lemma_streams_update(s: Seq<StreamEntry>, i: int, e: StreamEntry)
    requires
        streams_unique(s),
        0 <= i < s.len(),
        key_of(s[i]) == key_of(e),
    ensures
        streams_unique(s.update(i, e)),
        streams_map(s.update(i, e)) == streams_map(s).insert(key_of(e), e.detector@),
{
    let t = s.update(i, e);
    assert forall|k: StreamKey| has_stream(t, k) <==> has_stream(s, k) by {
        if has_stream(s, k) {
            let j = stream_position(s, k);
            assert(key_of(t[j]) == k);
        }
        if has_stream(t, k) {
            let j = stream_position(t, k);
            assert(key_of(s[j]) == k);
        }
    }
    assert forall|k: StreamKey| has_stream(s, k) implies stream_position(t, k) == stream_position(s, k) by {
        let j = stream_position(s, k);
        let j2 = stream_position(t, k);
        assert(key_of(t[j]) == k);
        assert(key_of(s[j2]) == k);
    }
    assert(has_stream(s, key_of(e)));
    assert(stream_position(s, key_of(e)) == i);
    assert(streams_map(t) =~= streams_map(s).insert(key_of(e), e.detector@));
}

proof fn lemma_streams_remove(s: Seq<StreamEntry>, i: int)
    requires
        streams_unique(s),
        0 <= i < s.len(),
    ensures
        streams_unique(s.remove(i)),
        streams_map(s.remove(i)) == streams_map(s).remove(key_of(s[i])),
{
    let t = s.remove(i);
    let gone = key_of(s[i]);
    assert forall|k: StreamKey| has_stream(t, k) <==> (has_stream(s, k) && k != gone) by {
        if has_stream(s, k) && k != gone {
            let j = stream_position(s, k);
            if j < i {
                assert(key_of(t[j]) == k);
            } else {
                assert(j != i);
                assert(key_of(t[j - 1]) == k);
            }
        }
        if has_stream(t, k) {
            let j = stream_position(t, k);
            if j < i {
                assert(key_of(s[j]) == k);
            } else {
                assert(key_of(s[j + 1]) == k);
            }
        }
    }
    assert forall|k: StreamKey| has_stream(t, k) implies t[stream_position(t, k)] == s[stream_position(
        s,
        k,
    )] by {
        let j = stream_position(s, k);
        let j2 = stream_position(t, k);
        if j2 < i {
            assert(key_of(s[j2]) == k);
        } else {
            assert(key_of(s[j2 + 1]) == k);
        }
    }
    assert(streams_map(t) =~= streams_map(s).remove(gone));
}

proof fn lemma_channels_push(s: Seq<(String, DetectorParams)>, e: (String, DetectorParams))
    requires
        channels_unique(s),
        !has_channel(s, e.0@),
    ensures
        channels_unique(s.push(e)),
        channels_map(s.push(e)) == channels_map(s).insert(e.0@, e.1),
{
    let t = s.push(e);
    assert forall|c: Seq<char>| has_channel(t, c) <==> (has_channel(s, c) || c == e.0@) by {
        if has_channel(s, c) {
            let j = channel_position(s, c);
            assert(t[j].0@ == c);
        }
        if has_channel(t, c) && c != e.0@ {
            let j = channel_position(t, c);
            assert(s[j].0@ == c);
        }
        if c == e.0@ {
            assert(t[s.len() as int].0@ == c);
        }
    }
    assert forall|c: Seq<char>| has_channel(s, c) implies channel_position(t, c) == channel_position(s, c) by {
        let j = channel_position(s, c);
        let j2 = channel_position(t, c);
        assert(t[j].0@ == c);
        assert(t[j2].0@ == c);
    }
    assert(has_channel(t, e.0@));
    assert(channel_position(t, e.0@) == s.len());
    assert(channels_map(t) =~= channels_map(s).insert(e.0@, e.1));
}

proof fn lemma_channels_update(s: Seq<(String, DetectorParams)>, i: int, e: (String, DetectorParams))
    requires
        channels_unique(s),
        0 <= i < s.len(),
        s[i].0@ == e.0@,
    ensures
        channels_unique(s.update(i, e)),
        channels_map(s.update(i, e)) == channels_map(s).insert(e.0@, e.1),
{
    let t = s.update(i, e);
    assert forall|c: Seq<char>| has_channel(t, c) <==> has_channel(s, c) by {
        if has_channel(s, c) {
            let j = channel_position(s, c);
            assert(t[j].0@ == c);
        }
        if has_channel(t, c) {
            let j = channel_position(t, c);
            assert(s[j].0@ == c);
        }
    }
    assert forall|c: Seq<char>| has_channel(s, c) implies channel_position(t, c) == channel_position(s, c) by {
        let j = channel_position(s, c);
        let j2 = channel_position(t, c);
        assert(t[j].0@ == c);
        assert(s[j2].0@ == c);
    }
    assert(has_channel(s, e.0@));
    assert(channel_position(s, e.0@) == i);
    assert(channels_map(t) =~= channels_map(s).insert(e.0@, e.1));
}

proof fn lemma_channels_remove(s: Seq<(String, DetectorParams)>, i: int)
    requires
        channels_unique(s),
        0 <= i < s.len(),
    ensures
        channels_unique(s.remove(i)),
        channels_map(s.remove(i)) == channels_map(s).remove(s[i].0@),
{
    let t = s.remove(i);
    let gone = s[i].0@;
    assert forall|c: Seq<char>| has_channel(t, c) <==> (has_channel(s, c) && c != gone) by {
        if has_channel(s, c) && c != gone {
            let j = channel_position(s, c);
            if j < i {
                assert(t[j].0@ == c);
            } else {
                assert(j != i);
                assert(t[j - 1].0@ == c);
            }
        }
        if has_channel(t, c) {
            let j = channel_position(t, c);
            if j < i {
                assert(s[j].0@ == c);
            } else {
                assert(s[j + 1].0@ == c);
            }
        }
    }
    assert forall|c: Seq<char>| has_channel(t, c) implies t[channel_position(t, c)] == s[channel_position(
        s,
        c,
    )] by {
        let j2 = channel_position(t, c);
        if j2 < i {
            assert(s[j2].0@ == c);
        } else {
            assert(s[j2 + 1].0@ == c);
        }
    }
    assert(channels_map(t) =~= channels_map(s).remove(gone));
}

impl DetectorManager {
    /// Thresholds of each channel with an active stream.
    pub closed spec fn params_view(&self) -> Map<Seq<char>, DetectorParams> {
        channels_map(self.channels@)
    }

    /// The detector of each active stream.
    pub closed spec fn streams_view(&self) -> Map<StreamKey, DetectorView> {
        streams_map(self.streams@)
    }

    /// Streams and channels are kept once each; a channel is kept exactly
    /// while it has a stream; every detector is well formed.
    pub closed spec fn wf(&self) -> bool {
        &&& streams_unique(self.streams@)
        &&& channels_unique(self.channels@)
        &&& forall|i: int|
            0 <= i < self.streams.len() ==> has_channel(
                self.channels@,
                (#[trigger] self.streams@[i]).channel@,
            )
        &&& forall|i: int|
            0 <= i < self.channels.len() ==> serves_channel(
                self.streams@,
                (#[trigger] self.channels@[i]).0@,
            )
        &&& forall|i: int| 0 <= i < self.streams.len() ==> (#[trigger] self.streams@[i]).detector.wf()
    }

    pub fn init() -> (r: Self)
        ensures
            r.wf(),
            r.params_view() == Map::<Seq<char>, DetectorParams>::empty(),
            r.streams_view() == Map::<StreamKey, DetectorView>::empty(),
    {
        let r = DetectorManager { streams: Vec::new(), channels: Vec::new() };
        assert(r.params_view() =~= Map::<Seq<char>, DetectorParams>::empty());
        assert(r.streams_view() =~= Map::<StreamKey, DetectorView>::empty());
        r
    }

    fn find_stream(&self, channel: &String, video_id: &String) -> (r: Option<usize>)
        ensures
            match r {
                Some(i) => i < self.streams.len() && key_of(self.streams@[i as int]) == (
                    channel@,
                    video_id@,
                ),
                None => !has_stream(self.streams@, (channel@, video_id@)),
            },
    {
        let mut i: usize = 0;
        while i < self.streams.len()
            invariant
                i <= self.streams.len(),
                forall|k: int| 0 <= k < i ==> key_of(#[trigger] self.streams@[k]) != (channel@, video_id@),
            decreases self.streams.len() - i,
        {
            if self.streams[i].channel == *channel && self.streams[i].video_id == *video_id {
                return Some(i);
            }
            i = i + 1;
        }
        None
    }

    fn find_channel(&self, channel: &String) -> (r: Option<usize>)
        ensures
            match r {
                Some(i) => i < self.channels.len() && self.channels@[i as int].0@ == channel@,
                None => !has_channel(self.channels@, channel@),
            },
    {
        let mut i: usize = 0;
        while i < self.channels.len()
            invariant
                i <= self.channels.len(),
                forall|k: int| 0 <= k < i ==> (#[trigger] self.channels@[k]).0@ != channel@,
            decreases self.channels.len() - i,
        {
            if self.channels[i].0 == *channel {
                return Some(i);
            }
            i = i + 1;
        }
        None
    }

    /// A stream's chat opened: its channel gets the default thresholds if it
    /// has none yet, and the stream a fresh detector.
    fn chat_init(&mut self, channel: String, video_id: String) -> (r: Vec<OutMessages>)
        requires
            old(self).wf(),
        ensures
            final(self).wf(),
            chat_init_effect(*old(self), *final(self), channel@, video_id@, r@),
    {
        let ghost old_streams = self.streams@;
        let ghost old_channels = self.channels@;
        match self.find_channel(&channel) {
            Some(_) => {},
            None => {
                let entry = (channel.clone(), DetectorParams::default());
                proof {
                    lemma_channels_push(self.channels@, entry);
                }
                self.channels.push(entry);
            },
        }
        assert(has_channel(self.channels@, channel@)) by {
            if has_channel(old_channels, channel@) {
                let j = channel_position(old_channels, channel@);
                assert(self.channels@[j].0@ == channel@);
            } else {
                assert(self.channels@[old_channels.len() as int].0@ == channel@);
            }
        }
        let detector = SpamDetector::init();
        assert(detector@ =~= empty_detector());
        let entry = StreamEntry { channel: channel.clone(), video_id: video_id.clone(), detector };
        match self.find_stream(&channel, &video_id) {
            Some(i) => {
                proof {
                    lemma_streams_update(self.streams@, i as int, entry);
                }
                self.streams.set(i, entry);
            },
            None => {
                proof {
                    lemma_streams_push(self.streams@, entry);
                }
                self.streams.push(entry);
            },
        }
        proof {
            assert forall|i: int| 0 <= i < self.streams.len() implies has_channel(
                self.channels@,
                (#[trigger] self.streams@[i]).channel@,
            ) by {
                if self.streams@[i].channel@ != channel@ {
                    let c = self.streams@[i].channel@;
                    assert(has_channel(old_channels, c));
                    let j = channel_position(old_channels, c);
                    assert(self.channels@[j].0@ == c);
                }
            }
            assert forall|i: int| 0 <= i < self.channels.len() implies serves_channel(
                self.streams@,
                (#[trigger] self.channels@[i]).0@,
            ) by {
                let c = self.channels@[i].0@;
                if c == channel@ {
                    assert(streams_map(self.streams@).contains_key((channel@, video_id@)));
                    assert(has_stream(self.streams@, (channel@, video_id@)));
                    let j = stream_position(self.streams@, (channel@, video_id@));
                    assert(self.streams@[j].channel@ == c);
                } else {
                    assert(i < old_channels.len());
                    assert(self.channels@[i] == old_channels[i]);
                    let j = choose|j: int|
                        0 <= j < old_streams.len() && (#[trigger] old_streams[j]).channel@ == (
                        #[trigger] old_channels[i]).0@;
                    assert(self.streams@[j].channel@ == c);
                }
            }
        }
        let mut out: Vec<OutMessages> = Vec::new();
        out.push(OutMessages::NewChat { channel, video_id });
        out
    }

    /// A batch for a known stream goes through its detector, under its
    /// channel's thresholds; a batch for an unknown stream is dropped.
    fn new_batch(&mut self, channel: String, video_id: String, actions: Vec<Action>) -> (r: Vec<
        OutMessages,
    >)
        requires
            old(self).wf(),
        ensures
            final(self).wf(),
            new_batch_effect(*old(self), *final(self), channel@, video_id@, actions@, r@),
    {
        let ghost old_streams = self.streams@;
        let ghost k = (channel@, video_id@);
        let i = match self.find_stream(&channel, &video_id) {
            Some(i) => i,
            None => {
                return Vec::new();
            },
        };
        assert(has_stream(old_streams, k));
        assert(stream_position(old_streams, k) == i);
        let ci = match self.find_channel(&channel) {
            Some(ci) => ci,
            None => {
                assert(has_channel(self.channels@, self.streams@[i as int].channel@));
                return Vec::new();
            },
        };
        assert(has_channel(self.channels@, channel@));
        assert(channel_position(self.channels@, channel@) == ci);
        let params = self.channels[ci].1;
        let result = self.streams[i].detector.process_new_messages(actions, &params);
        proof {
            let entry = self.streams@[i as int];
            assert(self.streams@ =~= old_streams.update(i as int, entry));
            lemma_streams_update(old_streams, i as int, entry);
            assert forall|j: int| 0 <= j < self.streams.len() implies has_channel(
                self.channels@,
                (#[trigger] self.streams@[j]).channel@,
            ) by {
                if j != i {
                    assert(self.streams@[j] == old_streams[j]);
                }
            }
            assert forall|ii: int| 0 <= ii < self.channels.len() implies exists|j: int|
                0 <= j < self.streams.len() && (#[trigger] self.streams@[j]).channel@ == (
                #[trigger] self.channels@[ii]).0@ by {
                let j = choose|j: int|
                    0 <= j < old_streams.len() && (#[trigger] old_streams[j]).channel@ == (
                    #[trigger] self.channels@[ii]).0@;
                assert(self.streams@[j].channel@ == old_streams[j].channel@);
            }
            assert forall|j: int| 0 <= j < self.streams.len() implies (
            #[trigger] self.streams@[j]).detector.wf() by {
                if j != i {
                    assert(self.streams@[j] == old_streams[j]);
                }
            }
        }
        let mut out: Vec<OutMessages> = Vec::new();
        out.push(
            OutMessages::DetectorResult {
                video_id,
                processed_messages: result.processed_messages,
                decisions: result.decisions,
            },
        );
        out
    }

    /// A stream ended: its detector goes, and its channel's thresholds go
    /// with the channel's last stream. Unknown channels are ignored.
    fn stream_ended(&mut self, channel: String, video_id: String) -> (r: Vec<OutMessages>)
        requires
            old(self).wf(),
        ensures
            final(self).wf(),
            stream_ended_effect(*old(self), *final(self), channel@, video_id@, r@),
    {
        let ghost old_streams = self.streams@;
        let ghost old_channels = self.channels@;
        let ghost k = (channel@, video_id@);
        let ci = match self.find_channel(&channel) {
            Some(ci) => ci,
            None => {
                return Vec::new();
            },
        };
        match self.find_stream(&channel, &video_id) {
            Some(i) => {
                proof {
                    lemma_streams_remove(self.streams@, i as int);
                }
                self.streams.remove(i);
                assert(self.streams@ == old_streams.remove(i as int));
                assert(has_stream(old_streams, k));
                assert(i == stream_position(old_streams, k));
            },
            None => {
                assert(streams_map(old_streams).remove(k) =~= streams_map(old_streams));
            },
        }
        let ghost mid_streams = self.streams@;
        assert(has_stream(old_streams, k) ==> mid_streams == old_streams.remove(
            stream_position(old_streams, k),
        ));
        assert(!has_stream(old_streams, k) ==> mid_streams == old_streams);
        assert(streams_map(mid_streams) == streams_map(old_streams).remove(k));
        proof {
            assert forall|j: int| 0 <= j < mid_streams.len() implies exists|o: int|
                0 <= o < old_streams.len() && #[trigger] mid_streams[j] == #[trigger] old_streams[o] by {
                if mid_streams.len() < old_streams.len() {
                    let i = stream_position(old_streams, k);
                    if has_stream(old_streams, k) {
                        if j < i {
                            assert(mid_streams[j] == old_streams[j]);
                        } else {
                            assert(mid_streams[j] == old_streams[j + 1]);
                        }
                    }
                } else {
                    assert(mid_streams[j] == old_streams[j]);
                }
            }
        }
        let mut remaining = false;
        let mut j: usize = 0;
        while j < self.streams.len()
            invariant
                j <= self.streams.len(),
                self.streams@ == mid_streams,
                remaining ==> exists|m: int|
                    0 <= m < mid_streams.len() && (#[trigger] mid_streams[m]).channel@ == channel@,
                !remaining ==> forall|m: int|
                    0 <= m < j ==> (#[trigger] mid_streams[m]).channel@ != channel@,
            decreases self.streams.len() - j,
        {
            if self.streams[j].channel == channel {
                remaining = true;
            }
            j = j + 1;
        }
        if !remaining {
            proof {
                lemma_channels_remove(self.channels@, ci as int);
            }
            self.channels.remove(ci);
        }
        proof {
            if remaining {
                let m = choose|m: int|
                    0 <= m < mid_streams.len() && (#[trigger] mid_streams[m]).channel@ == channel@;
                assert(has_stream(mid_streams, key_of(mid_streams[m])));
                assert(streams_map(mid_streams).contains_key((channel@, mid_streams[m].video_id@)));
            } else {
                assert forall|v: Seq<char>| !streams_map(mid_streams).contains_key((channel@, v)) by {
                    if has_stream(mid_streams, (channel@, v)) {
                        let m = stream_position(mid_streams, (channel@, v));
                        assert(mid_streams[m].channel@ == channel@);
                    }
                }
            }
            assert forall|jj: int| 0 <= jj < self.streams.len() implies has_channel(
                self.channels@,
                (#[trigger] self.streams@[jj]).channel@,
            ) by {
                let o = choose|o: int| 0 <= o < old_streams.len() && #[trigger] mid_streams[jj] == #[trigger] old_streams[o];
                let c = old_streams[o].channel@;
                assert(has_channel(old_channels, c));
                let p = channel_position(old_channels, c);
                assert(old_channels[p].0@ == c);
                if remaining {
                    assert(self.channels@[p].0@ == c);
                } else {
                    assert(c != channel@);
                    assert(p != ci);
                    if p < ci {
                        assert(self.channels@[p].0@ == c);
                    } else {
                        assert(self.channels@[p - 1].0@ == c);
                    }
                }
            }
            assert forall|ii: int| 0 <= ii < self.channels.len() implies serves_channel(
                self.streams@,
                (#[trigger] self.channels@[ii]).0@,
            ) by {
                let c = self.channels@[ii].0@;
                if c == channel@ {
                    assert(remaining);
                    let m = choose|m: int|
                        0 <= m < mid_streams.len() && (#[trigger] mid_streams[m]).channel@ == channel@;
                    assert(self.streams@[m].channel@ == c);
                } else {
                    let oi = if remaining || ii < ci { ii } else { ii + 1 };
                    assert(old_channels[oi].0@ == c);
                    let o = choose|o: int|
                        0 <= o < old_streams.len() && (#[trigger] old_streams[o]).channel@ == (
                        #[trigger] old_channels[oi]).0@;
                    assert(old_streams[o].channel@ == c);
                    if has_stream(old_streams, k) {
                        let i = stream_position(old_streams, k);
                        assert(o != i);
                        if o < i {
                            assert(self.streams@[o].channel@ == c);
                        } else {
                            assert(self.streams@[o - 1].channel@ == c);
                        }
                    } else {
                        assert(self.streams@[o].channel@ == c);
                    }
                }
            }
            assert forall|jj: int| 0 <= jj < self.streams.len() implies (
            #[trigger] self.streams@[jj]).detector.wf() by {
                let o = choose|o: int| 0 <= o < old_streams.len() && #[trigger] mid_streams[jj] == #[trigger] old_streams[o];
                assert(old_streams[o].detector.wf());
            }
        }
        assert(streams_unique(self.streams@));
        assert(channels_unique(self.channels@));
        assert(self.streams_view() == old(self).streams_view().remove(k));
        assert(old(self).params_view().contains_key(channel@));
        let mut out: Vec<OutMessages> = Vec::new();
        out.push(OutMessages::ChatClosed { channel, video_id });
        out
    }

    /// The decisions that judging the users of stream `k` again under `p`
    /// gives, in the order its detector keeps its users.
    pub closed spec fn reanalysis_of(&self, k: StreamKey, p: DetectorParams) -> Seq<
        (Seq<char>, Decision),
    > {
        reanalysis_decisions(self.streams@[stream_position(self.streams@, k)].detector.entries(), p)
    }

    /// New thresholds for a channel with active streams: they replace the
    /// old ones and every user of its streams is judged again; each stream
    /// with decisions reports them. Unknown channels are ignored.
    fn update_params(&mut self, channel: String, params: DetectorParams) -> (r: Vec<OutMessages>)
        requires
            old(self).wf(),
        ensures
            final(self).wf(),
            update_params_effect(*old(self), *final(self), channel@, params, r@),
    {
        let ghost old_streams = self.streams@;
        let ghost old_self = *self;
        let ci = match self.find_channel(&channel) {
            Some(ci) => ci,
            None => {
                return Vec::new();
            },
        };
        let entry = (self.channels[ci].0.clone(), params);
        proof {
            lemma_channels_update(self.channels@, ci as int, entry);
        }
        self.channels.set(ci, entry);
        let ghost new_channels = self.channels@;
        proof {
            assert forall|c: Seq<char>| has_channel(old_self.channels@, c) <==> has_channel(
                new_channels,
                c,
            ) by {
                assert(channels_map(old_self.channels@).contains_key(c) == channels_map(
                    new_channels,
                ).contains_key(c));
            }
            assert forall|i: int| 0 <= i < new_channels.len() implies new_channels[i].0@
                == old_self.channels@[i].0@ by {}
        }
        let mut out: Vec<OutMessages> = Vec::new();
        let mut i: usize = 0;
        while i < self.streams.len()
            invariant
                old_self.wf(),
                old_streams == old_self.streams@,
                self.channels@ == new_channels,
                forall|c: Seq<char>| has_channel(old_self.channels@, c) <==> has_channel(
                    new_channels,
                    c,
                ),
                forall|j: int| 0 <= j < new_channels.len() ==> (#[trigger] new_channels[j]).0@
                    == old_self.channels@[j].0@,
                self.streams.len() == old_streams.len(),
                i <= self.streams.len(),
                forall|j: int|
                    0 <= j < self.streams.len() ==> key_of(#[trigger] self.streams@[j]) == key_of(
                        old_streams[j],
                    ),
                forall|j: int| 0 <= j < self.streams.len() ==> (#[trigger] self.streams@[j]).detector.wf(),
                forall|j: int|
                    0 <= j < i ==> (#[trigger] self.streams@[j]).detector@ == if old_streams[j].channel@
                        == channel@ {
                        reanalyzed(old_streams[j].detector@, params)
                    } else {
                        old_streams[j].detector@
                    },
                forall|j: int| i <= j < self.streams.len() ==> #[trigger] self.streams@[j] == old_streams[j],
                forall|o: int|
                    0 <= o < out@.len() ==> exists|j: int|
                        0 <= j < i && #[trigger] old_streams[j].channel@ == channel@ && match #[trigger] out@[o] {
                            OutMessages::DetectorResult { video_id, processed_messages, decisions } => {
                                &&& processed_messages == 0
                                &&& video_id@ == old_streams[j].video_id@
                                &&& decisions_view(decisions@) == reanalysis_decisions(
                                    old_streams[j].detector.entries(),
                                    params,
                                )
                                &&& decisions@.len() > 0
                            },
                            _ => false,
                        },
                forall|j: int|
                    0 <= j < i && old_streams[j].channel@ == channel@ && reanalysis_decisions(
                        (#[trigger] old_streams[j]).detector.entries(),
                        params,
                    ).len() > 0 ==> exists|o: int|
                        0 <= o < out@.len() && (#[trigger] out@[o]) is DetectorResult
                            && out@[o]->DetectorResult_video_id@ == old_streams[j].video_id@,
            decreases old_streams.len() - i,
        {
            if self.streams[i].channel == channel {
                let ghost before = self.streams@;
                let ghost before_out = out@;
                let decisions = self.streams[i].detector.reanalyze(&params);
                assert(decisions_view(decisions@) == reanalysis_decisions(old_streams[i as int].detector.entries(), params));
                assert forall|j: int| 0 <= j < self.streams.len() && j != i implies self.streams@[j] == before[j] by {}
                if decisions.len() > 0 {
                    let video_id = self.streams[i].video_id.clone();
                    out.push(OutMessages::DetectorResult { video_id, processed_messages: 0, decisions });
                    assert(out@[before_out.len() as int] is DetectorResult);
                    assert forall|o: int| 0 <= o < before_out.len() implies out@[o] == before_out[o] by {}
                }
            }
            i = i + 1;
        }
        proof {
            let t = self.streams@;
            assert forall|k: StreamKey| has_stream(t, k) <==> has_stream(old_streams, k) by {
                if has_stream(t, k) {
                    let j = stream_position(t, k);
                    assert(key_of(old_streams[j]) == k);
                }
                if has_stream(old_streams, k) {
                    let j = stream_position(old_streams, k);
                    assert(key_of(t[j]) == k);
                }
            }
            assert forall|a: int, b: int|
                0 <= a < t.len() && 0 <= b < t.len() && key_of(#[trigger] t[a]) == key_of(#[trigger] t[b])
                    implies a == b by {
                assert(key_of(old_streams[a]) == key_of(old_streams[b]));
            }
            assert forall|k: StreamKey| has_stream(old_streams, k) implies stream_position(t, k)
                == stream_position(old_streams, k) by {
                let j = stream_position(old_streams, k);
                let j2 = stream_position(t, k);
                assert(key_of(t[j]) == k);
                assert(key_of(old_streams[j2]) == k);
            }
            assert(self.streams_view() =~= Map::new(
                |k: StreamKey| old_self.streams_view().contains_key(k),
                |k: StreamKey|
                    if k.0 == channel@ {
                        reanalyzed(old_self.streams_view()[k], params)
                    } else {
                        old_self.streams_view()[k]
                    },
            ));
            assert forall|j: int| 0 <= j < t.len() implies has_channel(
                self.channels@,
                (#[trigger] t[j]).channel@,
            ) by {
                assert(has_channel(old_self.channels@, old_streams[j].channel@));
            }
            assert forall|ii: int| 0 <= ii < self.channels.len() implies serves_channel(
                t,
                (#[trigger] self.channels@[ii]).0@,
            ) by {
                assert(serves_channel(old_streams, old_self.channels@[ii].0@));
                let j = choose|j: int|
                    0 <= j < old_streams.len() && (#[trigger] old_streams[j]).channel@
                        == old_self.channels@[ii].0@;
                assert(t[j].channel@ == old_streams[j].channel@);
            }
            assert forall|o: int| 0 <= o < out@.len() implies match #[trigger] out@[o] {
                OutMessages::DetectorResult { video_id, processed_messages, decisions } => {
                    &&& processed_messages == 0
                    &&& old_self.streams_view().contains_key((channel@, video_id@))
                    &&& decisions_view(decisions@) == old_self.reanalysis_of((channel@, video_id@), params)
                    &&& decisions@.len() > 0
                },
                _ => false,
            } by {
                let j = choose|j: int|
                    0 <= j < old_streams.len() && #[trigger] old_streams[j].channel@ == channel@ && match #[trigger] out@[o] {
                        OutMessages::DetectorResult { video_id, processed_messages, decisions } => {
                            &&& processed_messages == 0
                            &&& video_id@ == old_streams[j].video_id@
                            &&& decisions_view(decisions@) == reanalysis_decisions(
                                old_streams[j].detector.entries(),
                                params,
                            )
                            &&& decisions@.len() > 0
                        },
                        _ => false,
                    };
                let k = key_of(old_streams[j]);
                assert(has_stream(old_streams, k));
                assert(stream_position(old_streams, k) == j);
            }
            assert forall|v: Seq<char>|
                old_self.streams_view().contains_key((channel@, v)) && (#[trigger] old_self.reanalysis_of(
                    (channel@, v),
                    params,
                )).len() > 0 implies exists|o: int|
                    0 <= o < out@.len() && (#[trigger] out@[o]) is DetectorResult
                        && out@[o]->DetectorResult_video_id@ == v by {
                let j = stream_position(old_streams, (channel@, v));
                assert(key_of(old_streams[j]) == (channel@, v));
            }
        }
        out
    }
}


/// A stream's chat opened: its channel gets the default thresholds if it
/// has none yet, and the stream a fresh detector; `NewChat` is reported.
pub open spec fn chat_init_effect(
    pre: DetectorManager,
    post: DetectorManager,
    channel: Seq<char>,
    video_id: Seq<char>,
    r: Seq<OutMessages>,
) -> bool {
    &&& post.params_view() == if pre.params_view().contains_key(channel) {
        pre.params_view()
    } else {
        pre.params_view().insert(channel, default_params())
    }
    &&& post.streams_view() == pre.streams_view().insert((channel, video_id), empty_detector())
    &&& r.len() == 1
    &&& match r[0] {
        OutMessages::NewChat { channel: c, video_id: v } => c@ == channel && v@ == video_id,
        _ => false,
    }
}

/// A batch for a known stream goes through its detector, under its
/// channel's thresholds, and its result is reported; a batch for an unknown
/// stream is dropped.
pub open spec fn new_batch_effect(
    pre: DetectorManager,
    post: DetectorManager,
    channel: Seq<char>,
    video_id: Seq<char>,
    actions: Seq<Action>,
    r: Seq<OutMessages>,
) -> bool {
    let k = (channel, video_id);
    &&& post.params_view() == pre.params_view()
    &&& if pre.streams_view().contains_key(k) {
        let (d, decisions, processed) = batch(
            pre.streams_view()[k],
            actions,
            pre.params_view()[channel],
        );
        &&& post.streams_view() == pre.streams_view().insert(k, d)
        &&& r.len() == 1
        &&& match r[0] {
            OutMessages::DetectorResult { video_id: v, processed_messages, decisions: ds } => {
                &&& v@ == video_id
                &&& processed_messages == processed
                &&& decisions_view(ds@) == decisions
            },
            _ => false,
        }
    } else {
        &&& post.streams_view() == pre.streams_view()
        &&& r.len() == 0
    }
}

/// A stream ended: its detector goes, the channel's thresholds go with the
/// channel's last stream, and `ChatClosed` is reported. Unknown channels are
/// ignored.
pub open spec fn stream_ended_effect(
    pre: DetectorManager,
    post: DetectorManager,
    channel: Seq<char>,
    video_id: Seq<char>,
    r: Seq<OutMessages>,
) -> bool {
    if pre.params_view().contains_key(channel) {
        &&& post.streams_view() == pre.streams_view().remove((channel, video_id))
        &&& post.params_view() == if exists|v: Seq<char>|
            post.streams_view().contains_key((channel, v)) {
            pre.params_view()
        } else {
            pre.params_view().remove(channel)
        }
        &&& r.len() == 1
        &&& match r[0] {
            OutMessages::ChatClosed { channel: c, video_id: v } => c@ == channel && v@ == video_id,
            _ => false,
        }
    } else {
        &&& post.streams_view() == pre.streams_view()
        &&& post.params_view() == pre.params_view()
        &&& r.len() == 0
    }
}

/// New thresholds for a channel with active streams replace the old ones,
/// and every user of its streams is judged again; each stream with
/// decisions reports them. Unknown channels are ignored.
pub open spec fn update_params_effect(
    pre: DetectorManager,
    post: DetectorManager,
    channel: Seq<char>,
    params: DetectorParams,
    r: Seq<OutMessages>,
) -> bool {
    if pre.params_view().contains_key(channel) {
        &&& post.params_view() == pre.params_view().insert(channel, params)
        &&& post.streams_view() == Map::new(
            |k: StreamKey| pre.streams_view().contains_key(k),
            |k: StreamKey|
                if k.0 == channel {
                    reanalyzed(pre.streams_view()[k], params)
                } else {
                    pre.streams_view()[k]
                },
        )
        &&& forall|i: int|
            0 <= i < r.len() ==> match #[trigger] r[i] {
                OutMessages::DetectorResult { video_id, processed_messages, decisions } => {
                    &&& processed_messages == 0
                    &&& pre.streams_view().contains_key((channel, video_id@))
                    &&& decisions_view(decisions@) == pre.reanalysis_of((channel, video_id@), params)
                    &&& decisions@.len() > 0
                },
                _ => false,
            }
        &&& forall|v: Seq<char>|
            pre.streams_view().contains_key((channel, v)) && (#[trigger] pre.reanalysis_of(
                (channel, v),
                params,
            )).len() > 0 ==> exists|i: int|
                0 <= i < r.len() && (#[trigger] r[i]) is DetectorResult && r[i]->DetectorResult_video_id@
                    == v
    } else {
        &&& post.streams_view() == pre.streams_view()
        &&& post.params_view() == pre.params_view()
        &&& r.len() == 0
    }
}

impl DetectorManager {
    /// Handles one message. `None` answers `Close`: the manager is done.
    pub fn handle(&mut self, message: IncMessages) -> (r: Option<Vec<OutMessages>>)
        requires
            old(self).wf(),
        ensures
            final(self).wf(),
            match message {
                IncMessages::Close => r is None && final(self).params_view() == old(
                    self,
                ).params_view() && final(self).streams_view() == old(self).streams_view(),
                IncMessages::ChatPoller(poller::OutMessages::ChatInit { channel, video_id }) => r
                    is Some && chat_init_effect(*old(self), *final(self), channel@, video_id@, r->0@),
                IncMessages::ChatPoller(
                    poller::OutMessages::NewBatch { channel, video_id, actions },
                ) => r is Some && new_batch_effect(
                    *old(self),
                    *final(self),
                    channel@,
                    video_id@,
                    actions@,
                    r->0@,
                ),
                IncMessages::ChatPoller(poller::OutMessages::StreamEnded { channel, video_id }) => r
                    is Some && stream_ended_effect(*old(self), *final(self), channel@, video_id@, r->0@),
                IncMessages::UpdateParams { channel, params } => r is Some && update_params_effect(
                    *old(self),
                    *final(self),
                    channel@,
                    params,
                    r->0@,
                ),
            },
    {
        match message {
            IncMessages::Close => None,
            IncMessages::ChatPoller(m) => match m {
                poller::OutMessages::ChatInit { channel, video_id } => Some(self.chat_init(channel, video_id)),
                poller::OutMessages::NewBatch { channel, video_id, actions } => Some(
                    self.new_batch(channel, video_id, actions),
                ),
                poller::OutMessages::StreamEnded { channel, video_id } => Some(
                    self.stream_ended(channel, video_id),
                ),
            },
            IncMessages::UpdateParams { channel, params } => Some(self.update_params(channel, params)),
        }
    }
}


/// Re-evaluation with unchanged thresholds: new thresholds equal to those a
/// channel already has give no results, when every user of the channel's
/// streams is calm under them and none is suspicious.
pub proof fn lemma_same_params_no_results(
    pre: DetectorManager,
    post: DetectorManager,
    channel: Seq<char>,
    params: DetectorParams,
    r: Seq<OutMessages>,
)
    requires
        pre.wf(),
        pre.params_view().contains_key(channel),
        pre.params_view()[channel] == params,
        forall|v: Seq<char>, u: Seq<char>|
            #![trigger pre.streams_view()[(channel, v)].users[u]]
            pre.streams_view().contains_key((channel, v)) && pre.streams_view()[(
                channel,
                v,
            )].users.contains_key(u) ==> !(pre.streams_view()[(channel, v)].users[u] is Suspicious)
                && calm(pre.streams_view()[(channel, v)].users[u], params),
        update_params_effect(pre, post, channel, params, r),
    ensures
        r.len() == 0,
{
    if r.len() > 0 {
        let out = r[0];
        match out {
            OutMessages::DetectorResult { video_id, processed_messages, decisions } => {
                let k = (channel, video_id@);
                assert(pre.streams_view().contains_key(k));
                let i = stream_position(pre.streams@, k);
                let d = pre.streams@[i].detector;
                assert(d.wf());
                assert(d@ == pre.streams_view()[k]);
                assert forall|u: Seq<char>| #[trigger] d@.users.contains_key(u) implies !(
                d@.users[u] is Suspicious) && calm(d@.users[u], params) by {
                    assert(pre.streams_view()[(channel, video_id@)].users[u] == d@.users[u]);
                }
                d.lemma_same_params_emits_nothing(params);
                assert(decisions_view(decisions@).len() == decisions@.len());
            },
            _ => {},
        }
    }
}

} // verus!
