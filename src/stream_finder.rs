use vstd::prelude::*;
use vstd::string::*;

use crate::poller::{settings_view, RequestSettings};

verus! {

/// Control messages to the stream finder.
#[derive(Clone, Debug)]
pub enum IncMessages {
    Close,
    AddChannel(String),
    RemoveChannel(String),
    UpdatePollInterval(u64),
    UpdateUserAgent(String),
    UpdateBrowserVersion(String),
    UpdateBrowserNameAndVersion { name: String, version: String },
}

/// The videos of a channel that are live or scheduled.
#[derive(Clone, Debug)]
pub struct OutMessages {
    pub channel: String,
    pub streams: Vec<String>,
}

#[derive(Clone, Copy, Debug, PartialEq, Eq, Structural)]
pub enum StreamFinderError {
    IncomingChannelClosed,
}

/// What a channel's videos page lists as live or scheduled: the ids of the
/// items that carry no publication time.
#[derive(Clone, Debug)]
pub struct VideoList {
    pub streams: Vec<String>,
}

pub const CHANNEL_URL_PREFIX: &'static str = "https://www.youtube.com/channel/";

pub const CHANNEL_URL_SUFFIX: &'static str = "/videos?view=57";

/// The page that lists a channel's videos.
pub fn discovery_url(channel_id: &str) -> (r: String)
    ensures
        r@ == CHANNEL_URL_PREFIX@ + channel_id@ + CHANNEL_URL_SUFFIX@,
{
    let mut url = String::from_str(CHANNEL_URL_PREFIX);
    url.append(channel_id);
    url.append(CHANNEL_URL_SUFFIX);
    url
}

/// What one channel's discovery reports: the page's list, or nothing when
/// the page could not be loaded or read.
pub fn discovery_result(channel: String, list: Option<VideoList>) -> (r: OutMessages)
    ensures
        r.channel@ == channel@,
        match list {
            Some(l) => r.streams@ == l.streams@,
            None => r.streams@.len() == 0,
        },
{
    match list {
        Some(l) => OutMessages { channel, streams: l.streams },
        None => OutMessages { channel, streams: Vec::new() },
    }
}

pub open spec fn watches(channels: Seq<(String, String)>, c: Seq<char>) -> bool {
    exists|i: int| 0 <= i < channels.len() && (#[trigger] channels[i]).0@ == c
}

/// The channels a stream finder polls, and when.
pub struct StreamFinderState {
    pub channels: Vec<(String, String)>,
    pub poll_interval_ms: u64,
    pub request_settings: RequestSettings,
}

impl StreamFinderState {
    /// Each polled channel with the page it is polled at.
    pub closed spec fn channels_view(&self) -> Map<Seq<char>, Seq<char>> {
        Map::new(
            |c: Seq<char>| watches(self.channels@, c),
            |c: Seq<char>| CHANNEL_URL_PREFIX@ + c + CHANNEL_URL_SUFFIX@,
        )
    }

    /// Each channel is kept once, with its page.
    pub closed spec fn wf(&self) -> bool {
        &&& forall|i: int, j: int|
            0 <= i < self.channels.len() && 0 <= j < self.channels.len() && (
            #[trigger] self.channels@[i]).0@ == (#[trigger] self.channels@[j]).0@ ==> i == j
        &&& forall|i: int|
            0 <= i < self.channels.len() ==> (#[trigger] self.channels@[i]).1@ == CHANNEL_URL_PREFIX@
                + self.channels@[i].0@ + CHANNEL_URL_SUFFIX@
    }

    pub fn new(poll_interval_ms: u64, request_settings: RequestSettings) -> (r: Self)
        ensures
            r.wf(),
            r.channels_view() == Map::<Seq<char>, Seq<char>>::empty(),
            r.poll_interval_ms == poll_interval_ms,
            settings_view(r.request_settings) == settings_view(request_settings),
    {
        let r = StreamFinderState { channels: Vec::new(), poll_interval_ms, request_settings };
        assert(r.channels_view() =~= Map::<Seq<char>, Seq<char>>::empty());
        r
    }

    /// The channels to poll, each with its page.
    pub fn channels(&self) -> (r: Vec<(String, String)>)
        requires
            self.wf(),
        ensures
            forall|i: int|
                0 <= i < r.len() ==> self.channels_view().contains_key((#[trigger] r@[i]).0@)
                    && self.channels_view()[r@[i].0@] == r@[i].1@,
            forall|c: Seq<char>|
                #[trigger] self.channels_view().contains_key(c) ==> exists|i: int|
                    0 <= i < r.len() && (#[trigger] r@[i]).0@ == c,
    {
        let mut out: Vec<(String, String)> = Vec::new();
        let mut i: usize = 0;
        while i < self.channels.len()
            invariant
                self.wf(),
                i <= self.channels.len(),
                out.len() == i,
                forall|j: int|
                    0 <= j < i ==> (#[trigger] out@[j]).0@ == self.channels@[j].0@ && out@[j].1@
                        == self.channels@[j].1@,
            decreases self.channels.len() - i,
        {
            out.push((self.channels[i].0.clone(), self.channels[i].1.clone()));
            i = i + 1;
        }
        proof {
            assert forall|c: Seq<char>| #[trigger] self.channels_view().contains_key(c) implies exists|
                j: int,
            | 0 <= j < out.len() && (#[trigger] out@[j]).0@ == c by {
                let j = choose|j: int| 0 <= j < self.channels.len() && (#[trigger] self.channels@[j]).0@ == c;
                assert(out@[j].0@ == c);
            }
            assert forall|j: int| 0 <= j < out.len() implies self.channels_view().contains_key(
                (#[trigger] out@[j]).0@,
            ) && self.channels_view()[out@[j].0@] == out@[j].1@ by {
                assert(self.channels@[j].0@ == out@[j].0@);
            }
        }
        out
    }

    fn find(&self, channel_id: &String) -> (r: Option<usize>)
        ensures
            match r {
                Some(i) => i < self.channels.len() && self.channels@[i as int].0@ == channel_id@,
                None => !watches(self.channels@, channel_id@),
            },
    {
        let mut i: usize = 0;
        while i < self.channels.len()
            invariant
                i <= self.channels.len(),
                forall|k: int| 0 <= k < i ==> (#[trigger] self.channels@[k]).0@ != channel_id@,
            decreases self.channels.len() - i,
        {
            if self.channels[i].0 == *channel_id {
                return Some(i);
            }
            i = i + 1;
        }
        None
    }

    /// Handles one control message; `false` answers `Close`.
    pub fn handle(&mut self, message: IncMessages) -> (r: bool)
        requires
            old(self).wf(),
        ensures
            final(self).wf(),
            r == !(message is Close),
            match message {
                IncMessages::AddChannel(c) => final(self).channels_view() == old(
                    self,
                ).channels_view().insert(c@, CHANNEL_URL_PREFIX@ + c@ + CHANNEL_URL_SUFFIX@),
                IncMessages::RemoveChannel(c) => final(self).channels_view() == old(
                    self,
                ).channels_view().remove(c@),
                _ => final(self).channels_view() == old(self).channels_view(),
            },
            match message {
                IncMessages::UpdatePollInterval(ms) => final(self).poll_interval_ms == ms,
                _ => final(self).poll_interval_ms == old(self).poll_interval_ms,
            },
            settings_view(final(self).request_settings) == match message {
                IncMessages::UpdateUserAgent(a) => (
                    a@,
                    old(self).request_settings.browser_name@,
                    old(self).request_settings.browser_version@,
                ),
                IncMessages::UpdateBrowserVersion(v) => (
                    old(self).request_settings.user_agent@,
                    old(self).request_settings.browser_name@,
                    v@,
                ),
                IncMessages::UpdateBrowserNameAndVersion { name, version } => (
                    old(self).request_settings.user_agent@,
                    name@,
                    version@,
                ),
                _ => settings_view(old(self).request_settings),
            },
    {
        let ghost before = self.channels@;
        match message {
            IncMessages::Close => false,
            IncMessages::AddChannel(channel_id) => {
                let url = discovery_url(channel_id.as_str());
                match self.find(&channel_id) {
                    Some(_) => {
                        assert(self.channels_view() =~= self.channels_view().insert(
                            channel_id@,
                            CHANNEL_URL_PREFIX@ + channel_id@ + CHANNEL_URL_SUFFIX@,
                        ));
                    },
                    None => {
                        let ghost c = channel_id@;
                        self.channels.push((channel_id, url));
                        proof {
                            let after = self.channels@;
                            assert(after[before.len() as int].0@ == c);
                            assert forall|k: Seq<char>| watches(after, k) <==> (watches(before, k) || k == c) by {
                                if watches(before, k) {
                                    let j = choose|j: int| 0 <= j < before.len() && (#[trigger] before[j]).0@ == k;
                                    assert(after[j].0@ == k);
                                }
                                if watches(after, k) && k != c {
                                    let j = choose|j: int| 0 <= j < after.len() && (#[trigger] after[j]).0@ == k;
                                    assert(before[j].0@ == k);
                                }
                            }
                            assert(self.channels_view() =~= old(self).channels_view().insert(
                                c,
                                CHANNEL_URL_PREFIX@ + c + CHANNEL_URL_SUFFIX@,
                            ));
                        }
                    },
                }
                true
            },
            IncMessages::RemoveChannel(channel_id) => {
                match self.find(&channel_id) {
                    Some(i) => {
                        self.channels.remove(i);
                        proof {
                            let after = self.channels@;
                            let c = channel_id@;
                            assert forall|k: Seq<char>| watches(after, k) <==> (watches(before, k) && k != c) by {
                                if watches(before, k) && k != c {
                                    let j = choose|j: int| 0 <= j < before.len() && (#[trigger] before[j]).0@ == k;
                                    if j < i {
                                        assert(after[j].0@ == k);
                                    } else {
                                        assert(j != i);
                                        assert(after[j - 1].0@ == k);
                                    }
                                }
                                if watches(after, k) {
                                    let j = choose|j: int| 0 <= j < after.len() && (#[trigger] after[j]).0@ == k;
                                    if j < i {
                                        assert(before[j].0@ == k);
                                    } else {
                                        assert(before[j + 1].0@ == k);
                                    }
                                }
                            }
                            assert(self.channels_view() =~= old(self).channels_view().remove(c));
                        }
                    },
                    None => {
                        assert(self.channels_view() =~= self.channels_view().remove(channel_id@));
                    },
                }
                true
            },
            IncMessages::UpdatePollInterval(interval_ms) => {
                self.poll_interval_ms = interval_ms;
                true
            },
            IncMessages::UpdateUserAgent(user_agent) => {
                self.request_settings.user_agent = user_agent;
                true
            },
            IncMessages::UpdateBrowserVersion(version) => {
                self.request_settings.browser_version = version;
                true
            },
            IncMessages::UpdateBrowserNameAndVersion { name, version } => {
                self.request_settings.browser_name = name;
                self.request_settings.browser_version = version;
                true
            },
        }
    }
}

} // verus!
