use vstd::prelude::*;

use crate::poller::{self, settings_view, RequestSettings};

verus! {

/// Messages to the chat manager.
#[derive(Clone, Debug)]
pub enum IncMessages {
    Close,
    FoundStreams { channel: String, streams: Vec<String> },
    UpdateUserAgent(String),
    UpdateBrowserVersion(String),
    UpdateBrowserNameAndVersion { name: String, version: String },
}

/// What the chat manager's runner does after a message.
#[derive(Clone, Debug)]
pub enum ManagerAction {
    /// Close every poller and stop.
    Stop,
    /// Start a poller for each of these videos of the channel.
    StartPollers { channel: String, video_ids: Vec<String> },
    /// Send this message to every poller.
    Broadcast(poller::IncMessages),
}

/// The videos of `streams` that have no poller: each once, in order.
pub open spec fn fresh_streams(running: Set<Seq<char>>, streams: Seq<Seq<char>>) -> Seq<Seq<char>>
    decreases streams.len(),
{
    if streams.len() == 0 {
        Seq::empty()
    } else {
        let prev = fresh_streams(running, streams.drop_last());
        let v = streams.last();
        if running.contains(v) || prev.contains(v) {
            prev
        } else {
            prev.push(v)
        }
    }
}

pub open spec fn view_ids(ids: Seq<String>) -> Seq<Seq<char>> {
    ids.map_values(|s: String| s@)
}

/// The chat manager's bookkeeping: the videos with a running poller and the
/// settings new pollers start with.
pub struct ChatManagerState {
    pub inprogress_chats: Vec<String>,
    pub request_settings: RequestSettings,
}

impl ChatManagerState {
    pub open spec fn running(&self) -> Set<Seq<char>> {
        view_ids(self.inprogress_chats@).to_set()
    }

    pub fn new(request_settings: RequestSettings) -> (r: Self)
        ensures
            r.running() == Set::<Seq<char>>::empty(),
            settings_view(r.request_settings) == settings_view(request_settings),
    {
        let r = ChatManagerState { inprogress_chats: Vec::new(), request_settings };
        assert(view_ids(r.inprogress_chats@) =~= Seq::<Seq<char>>::empty());
        assert(r.running() =~= Set::<Seq<char>>::empty());
        r
    }

    fn is_running(&self, video_id: &String) -> (r: bool)
        ensures
            r == self.running().contains(video_id@),
    {
        let mut i: usize = 0;
        while i < self.inprogress_chats.len()
            invariant
                i <= self.inprogress_chats.len(),
                forall|k: int| 0 <= k < i ==> (#[trigger] self.inprogress_chats@[k])@ != video_id@,
            decreases self.inprogress_chats.len() - i,
        {
            if self.inprogress_chats[i] == *video_id {
                assert(view_ids(self.inprogress_chats@)[i as int] == video_id@);
                return true;
            }
            i = i + 1;
        }
        proof {
            if self.running().contains(video_id@) {
                let k = choose|k: int|
                    0 <= k < view_ids(self.inprogress_chats@).len() && view_ids(self.inprogress_chats@)[k]
                        == video_id@;
                assert(self.inprogress_chats@[k]@ == video_id@);
            }
        }
        false
    }

    /// The videos of a discovery that need a poller.
    pub fn new_streams(&self, streams: &Vec<String>) -> (r: Vec<String>)
        ensures
            view_ids(r@) == fresh_streams(self.running(), view_ids(streams@)),
    {
        let mut out: Vec<String> = Vec::new();
        let mut i: usize = 0;
        while i < streams.len()
            invariant
                i <= streams.len(),
                view_ids(out@) == fresh_streams(self.running(), view_ids(streams@).take(i as int)),
            decreases streams.len() - i,
        {
            let ghost prefix = view_ids(streams@).take(i as int + 1);
            assert(prefix.drop_last() == view_ids(streams@).take(i as int));
            assert(prefix.last() == streams@[i as int]@);
            let v = &streams[i];
            let mut seen = self.is_running(v);
            let mut j: usize = 0;
            while j < out.len() && !seen
                invariant
                    j <= out.len(),
                    seen ==> self.running().contains(v@) || view_ids(out@).contains(v@),
                    !seen ==> !self.running().contains(v@) && forall|k: int| 0 <= k < j ==> (#[trigger] out@[k])@ != v@,
                decreases out.len() - j,
            {
                if out[j] == *v {
                    assert(view_ids(out@)[j as int] == v@);
                    seen = true;
                }
                j = j + 1;
            }
            proof {
                if !seen && view_ids(out@).contains(v@) {
                    let k = choose|k: int| 0 <= k < view_ids(out@).len() && view_ids(out@)[k] == v@;
                    assert(out@[k]@ == v@);
                }
            }
            if !seen {
                let ghost before = out@;
                out.push(v.clone());
                assert(view_ids(out@) =~= view_ids(before).push(v@));
            }
            i = i + 1;
        }
        assert(view_ids(streams@).take(streams.len() as int) == view_ids(streams@));
        out
    }

    /// Handles one message: settings updates change the settings new
    /// pollers start with and go to every poller.
    pub fn handle(&mut self, message: IncMessages) -> (r: ManagerAction)
        ensures
            final(self).inprogress_chats == old(self).inprogress_chats,
            match message {
                IncMessages::Close => r is Stop && settings_view(final(self).request_settings)
                    == settings_view(old(self).request_settings),
                IncMessages::FoundStreams { channel, streams } => (match r {
                    ManagerAction::StartPollers { channel: c, video_ids } => c@ == channel@
                        && view_ids(video_ids@) == fresh_streams(
                        old(self).running(),
                        view_ids(streams@),
                    ),
                    _ => false,
                }) && settings_view(final(self).request_settings) == settings_view(
                    old(self).request_settings,
                ),
                IncMessages::UpdateUserAgent(a) => (match r {
                    ManagerAction::Broadcast(poller::IncMessages::UpdateUserAgent(b)) => b@ == a@,
                    _ => false,
                }) && settings_view(final(self).request_settings) == (
                    a@,
                    old(self).request_settings.browser_name@,
                    old(self).request_settings.browser_version@,
                ),
                IncMessages::UpdateBrowserVersion(v) => (match r {
                    ManagerAction::Broadcast(poller::IncMessages::UpdateBrowserVersion(w)) => w@ == v@,
                    _ => false,
                }) && settings_view(final(self).request_settings) == (
                    old(self).request_settings.user_agent@,
                    old(self).request_settings.browser_name@,
                    v@,
                ),
                IncMessages::UpdateBrowserNameAndVersion { name, version } => (match r {
                    ManagerAction::Broadcast(
                        poller::IncMessages::UpdateBrowserNameAndVersion { name: n, version: v },
                    ) => n@ == name@ && v@ == version@,
                    _ => false,
                }) && settings_view(final(self).request_settings) == (
                    old(self).request_settings.user_agent@,
                    name@,
                    version@,
                ),
            },
    {
        match message {
            IncMessages::Close => ManagerAction::Stop,
            IncMessages::FoundStreams { channel, streams } => {
                let video_ids = self.new_streams(&streams);
                ManagerAction::StartPollers { channel, video_ids }
            },
            IncMessages::UpdateUserAgent(user_agent) => {
                self.request_settings.user_agent = user_agent.clone();
                ManagerAction::Broadcast(poller::IncMessages::UpdateUserAgent(user_agent))
            },
            IncMessages::UpdateBrowserVersion(version) => {
                self.request_settings.browser_version = version.clone();
                ManagerAction::Broadcast(poller::IncMessages::UpdateBrowserVersion(version))
            },
            IncMessages::UpdateBrowserNameAndVersion { name, version } => {
                self.request_settings.browser_name = name.clone();
                self.request_settings.browser_version = version.clone();
                ManagerAction::Broadcast(
                    poller::IncMessages::UpdateBrowserNameAndVersion { name, version },
                )
            },
        }
    }

    /// A poller started for the video.
    pub fn poller_started(&mut self, video_id: String)
        ensures
            final(self).running() == old(self).running().insert(video_id@),
            final(self).request_settings == old(self).request_settings,
    {
        let ghost before = self.inprogress_chats@;
        let ghost v = video_id@;
        self.inprogress_chats.push(video_id);
        assert(view_ids(self.inprogress_chats@) =~= view_ids(before).push(v));
        proof {
            view_ids(before).lemma_push_to_set_commute(v);
        }
    }

    /// A poller ended: its video has no poller any more.
    pub fn poller_gone(&mut self, video_id: &String)
        ensures
            final(self).running() == old(self).running().remove(video_id@),
            final(self).request_settings == old(self).request_settings,
    {
        let ghost start = self.inprogress_chats@;
        let mut kept: Vec<String> = Vec::new();
        let mut i: usize = 0;
        while i < self.inprogress_chats.len()
            invariant
                self.inprogress_chats@ == start,
                i <= start.len(),
                view_ids(kept@).to_set() == view_ids(start.take(i as int)).to_set().remove(video_id@),
            decreases start.len() - i,
        {
            let ghost prefix = start.take(i as int + 1);
            assert(prefix == start.take(i as int).push(start[i as int]));
            assert(view_ids(prefix) =~= view_ids(start.take(i as int)).push(start[i as int]@));
            proof {
                view_ids(start.take(i as int)).lemma_push_to_set_commute(start[i as int]@);
            }
            if self.inprogress_chats[i] != *video_id {
                let ghost before = kept@;
                kept.push(self.inprogress_chats[i].clone());
                assert(view_ids(kept@) =~= view_ids(before).push(start[i as int]@));
                proof {
                    view_ids(before).lemma_push_to_set_commute(start[i as int]@);
                }
                assert(view_ids(kept@).to_set() =~= view_ids(prefix).to_set().remove(video_id@));
            } else {
                assert(view_ids(kept@).to_set() =~= view_ids(prefix).to_set().remove(video_id@));
            }
            i = i + 1;
        }
        assert(start.take(start.len() as int) == start);
        self.inprogress_chats = kept;
    }
}

/// The message sent to every poller now and then, so that pollers that died
/// are noticed.
pub fn liveness_ping() -> (r: poller::IncMessages)
    ensures
        r is Ping,
{
    poller::IncMessages::Ping
}

} // verus!
