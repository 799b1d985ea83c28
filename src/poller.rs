use vstd::prelude::*;

use crate::types::Action;

verus! {

/// How many failed requests in a row a poller survives; one more ends it.
pub const MAX_RETRIES: u8 = 2;

/// Pause before a failed request is tried again, in milliseconds.
pub const RETRY_DELAY_MS: u64 = 100;

/// What the browser that a poller imitates says about itself.
#[derive(Clone, Debug)]
pub struct RequestSettings {
    pub user_agent: String,
    pub browser_name: String,
    pub browser_version: String,
}

/// Control messages to a chat poller.
#[derive(Clone, Debug)]
pub enum IncMessages {
    Close,
    Ping,
    UpdateUserAgent(String),
    UpdateBrowserVersion(String),
    UpdateBrowserNameAndVersion { name: String, version: String },
}

/// What a chat poller emits about its stream.
#[derive(Clone, Debug)]
pub enum OutMessages {
    ChatInit { channel: String, video_id: String },
    NewBatch { channel: String, video_id: String, actions: Vec<Action> },
    StreamEnded { channel: String, video_id: String },
}

/// Where to go on from a poll: the cursor and the wait the server asks for.
#[derive(Clone, Debug)]
pub struct Continuation {
    pub timeout_ms: u64,
    pub continuation: String,
}

/// A poll response, as far as the poller needs it. `continuation` is absent
/// when the chat has ended.
#[derive(Clone, Debug)]
pub enum PollResponse {
    Chat { continuation: Option<Continuation>, actions: Vec<Action> },
    Unparseable,
}

/// What happens to a poller.
pub enum PollerEvent {
    Started,
    Control(IncMessages),
    RequestFailed,
    Response(PollResponse),
}

/// What the poller asks its runner to do next.
#[derive(Clone, Copy, Debug, PartialEq, Eq, Structural)]
pub enum PollerCommand {
    /// Keep waiting for the poll already scheduled.
    Wait,
    /// Poll after this many milliseconds.
    PollAfter(u64),
    /// Stop: nothing more will be emitted.
    Stop,
}

#[derive(Clone, Copy, Debug, PartialEq, Eq, Structural)]
pub enum PollerPhase {
    Created,
    Running,
    Finished,
}

/// The kinds of emitted messages.
#[derive(Clone, Copy, Debug, PartialEq, Eq, Structural)]
pub enum OutKind {
    ChatInit,
    NewBatch,
    StreamEnded,
}

pub open spec fn kind_of(m: OutMessages) -> OutKind {
    match m {
        OutMessages::ChatInit { .. } => OutKind::ChatInit,
        OutMessages::NewBatch { .. } => OutKind::NewBatch,
        OutMessages::StreamEnded { .. } => OutKind::StreamEnded,
    }
}

/// The settings after a control message.
pub open spec fn settings_after(s: RequestSettings, m: IncMessages) -> (Seq<char>, Seq<char>, Seq<
    char,
>) {
    match m {
        IncMessages::UpdateUserAgent(agent) => (agent@, s.browser_name@, s.browser_version@),
        IncMessages::UpdateBrowserVersion(version) => (s.user_agent@, s.browser_name@, version@),
        IncMessages::UpdateBrowserNameAndVersion { name, version } => (
            s.user_agent@,
            name@,
            version@,
        ),
        _ => (s.user_agent@, s.browser_name@, s.browser_version@),
    }
}

pub open spec fn settings_view(s: RequestSettings) -> (Seq<char>, Seq<char>, Seq<char>) {
    (s.user_agent@, s.browser_name@, s.browser_version@)
}

impl RequestSettings {
    /// Applies a settings update; other control messages change nothing.
    pub fn update(&mut self, message: IncMessages)
        ensures
            settings_view(*final(self)) == settings_after(*old(self), message),
    {
        match message {
            IncMessages::UpdateUserAgent(agent) => {
                self.user_agent = agent;
            },
            IncMessages::UpdateBrowserVersion(version) => {
                self.browser_version = version;
            },
            IncMessages::UpdateBrowserNameAndVersion { name, version } => {
                self.browser_name = name;
                self.browser_version = version;
            },
            _ => {},
        }
    }
}

/// The poller's lifecycle as plain values.
pub struct PollerView {
    pub phase: PollerPhase,
    pub poll_errors_count: u8,
}

/// One step of a poller: its next phase and error count, the kind of the
/// message it emits, and what it asks of its runner.
pub open spec fn poller_step(s: PollerView, e: PollerEvent) -> (PollerView, Option<OutKind>, PollerCommand) {
    match s.phase {
        PollerPhase::Finished => (s, None, PollerCommand::Stop),
        PollerPhase::Created => match e {
            PollerEvent::Started => (
                PollerView { phase: PollerPhase::Running, poll_errors_count: 0 },
                Some(OutKind::ChatInit),
                PollerCommand::PollAfter(0),
            ),
            _ => (s, None, PollerCommand::Wait),
        },
        PollerPhase::Running => {
            let finished = PollerView { phase: PollerPhase::Finished, poll_errors_count: s.poll_errors_count };
            match e {
                PollerEvent::Started => (s, None, PollerCommand::Wait),
                PollerEvent::Control(m) => match m {
                    IncMessages::Close => (finished, Some(OutKind::StreamEnded), PollerCommand::Stop),
                    _ => (s, None, PollerCommand::Wait),
                },
                PollerEvent::RequestFailed => if s.poll_errors_count >= MAX_RETRIES {
                    (
                        PollerView { phase: PollerPhase::Finished, poll_errors_count: s.poll_errors_count },
                        Some(OutKind::StreamEnded),
                        PollerCommand::Stop,
                    )
                } else {
                    (
                        PollerView { phase: PollerPhase::Running, poll_errors_count: (s.poll_errors_count + 1) as u8 },
                        None,
                        PollerCommand::PollAfter(RETRY_DELAY_MS),
                    )
                },
                PollerEvent::Response(r) => match r {
                    PollResponse::Unparseable => (
                        PollerView { phase: PollerPhase::Finished, poll_errors_count: 0 },
                        Some(OutKind::StreamEnded),
                        PollerCommand::Stop,
                    ),
                    PollResponse::Chat { continuation, actions } => match continuation {
                        None => (
                            PollerView { phase: PollerPhase::Finished, poll_errors_count: 0 },
                            Some(OutKind::StreamEnded),
                            PollerCommand::Stop,
                        ),
                        Some(c) => (
                            PollerView { phase: PollerPhase::Running, poll_errors_count: 0 },
                            if actions.len() > 0 {
                                Some(OutKind::NewBatch)
                            } else {
                                None
                            },
                            PollerCommand::PollAfter(c.timeout_ms),
                        ),
                    },
                },
            }
        },
    }
}

/// The decisions of one chat poller. Its runner performs the requests and
/// waits, and hands back what happened.
pub struct PollerState {
    pub channel: String,
    pub video_id: String,
    pub phase: PollerPhase,
    pub poll_errors_count: u8,
    pub request_settings: RequestSettings,
    pub continuation: String,
}

impl PollerState {
    pub open spec fn view(&self) -> PollerView {
        PollerView { phase: self.phase, poll_errors_count: self.poll_errors_count }
    }

    pub open spec fn wf(&self) -> bool {
        self.poll_errors_count <= MAX_RETRIES
    }

    pub fn new(
        channel: String,
        video_id: String,
        request_settings: RequestSettings,
        continuation: String,
    ) -> (r: Self)
        ensures
            r.wf(),
            r.phase == PollerPhase::Created,
            r.poll_errors_count == 0,
            r.channel@ == channel@,
            r.video_id@ == video_id@,
            settings_view(r.request_settings) == settings_view(request_settings),
            r.continuation@ == continuation@,
    {
        PollerState {
            channel,
            video_id,
            phase: PollerPhase::Created,
            poll_errors_count: 0,
            request_settings,
            continuation,
        }
    }

    fn emit_ended(&self) -> (r: OutMessages)
        ensures
            match r {
                OutMessages::StreamEnded { channel, video_id } => channel@ == self.channel@
                    && video_id@ == self.video_id@,
                _ => false,
            },
    {
        OutMessages::StreamEnded { channel: self.channel.clone(), video_id: self.video_id.clone() }
    }

    /// Moves the poller by one event. The emitted message names this
    /// poller's stream; a batch carries the response's actions.
    pub fn step(&mut self, event: PollerEvent) -> (r: (Option<OutMessages>, PollerCommand))
        requires
            old(self).wf(),
        ensures
            final(self).wf(),
            final(self).channel == old(self).channel,
            final(self).video_id == old(self).video_id,
            final(self)@ == poller_step(old(self)@, event).0,
            r.1 == poller_step(old(self)@, event).2,
            match r.0 {
                Some(m) => poller_step(old(self)@, event).1 == Some(kind_of(m)),
                None => poller_step(old(self)@, event).1 is None,
            },
            match r.0 {
                Some(OutMessages::ChatInit { channel, video_id }) => channel@ == old(self).channel@
                    && video_id@ == old(self).video_id@,
                Some(OutMessages::NewBatch { channel, video_id, actions }) => channel@
                    == old(self).channel@ && video_id@ == old(self).video_id@ && match event {
                    PollerEvent::Response(PollResponse::Chat { actions: given, .. }) => actions
                        == given,
                    _ => false,
                },
                Some(OutMessages::StreamEnded { channel, video_id }) => channel@
                    == old(self).channel@ && video_id@ == old(self).video_id@,
                None => true,
            },
            match event {
                PollerEvent::Control(m) => old(self).phase == PollerPhase::Running ==> settings_view(
                    final(self).request_settings,
                ) == settings_after(old(self).request_settings, m),
                PollerEvent::Response(PollResponse::Chat { continuation: Some(c), .. }) => old(
                    self,
                ).phase == PollerPhase::Running ==> final(self).continuation@ == c.continuation@,
                _ => true,
            },
    {
        match self.phase {
            PollerPhase::Finished => (None, PollerCommand::Stop),
            PollerPhase::Created => match event {
                PollerEvent::Started => {
                    self.phase = PollerPhase::Running;
                    self.poll_errors_count = 0;
                    let m = OutMessages::ChatInit {
                        channel: self.channel.clone(),
                        video_id: self.video_id.clone(),
                    };
                    (Some(m), PollerCommand::PollAfter(0))
                },
                _ => (None, PollerCommand::Wait),
            },
            PollerPhase::Running => match event {
                PollerEvent::Started => (None, PollerCommand::Wait),
                PollerEvent::Control(m) => match m {
                    IncMessages::Close => {
                        self.phase = PollerPhase::Finished;
                        (Some(self.emit_ended()), PollerCommand::Stop)
                    },
                    other => {
                        self.request_settings.update(other);
                        (None, PollerCommand::Wait)
                    },
                },
                PollerEvent::RequestFailed => {
                    if self.poll_errors_count >= MAX_RETRIES {
                        self.phase = PollerPhase::Finished;
                        (Some(self.emit_ended()), PollerCommand::Stop)
                    } else {
                        self.poll_errors_count = self.poll_errors_count + 1;
                        (None, PollerCommand::PollAfter(RETRY_DELAY_MS))
                    }
                },
                PollerEvent::Response(response) => {
                    self.poll_errors_count = 0;
                    match response {
                        PollResponse::Unparseable => {
                            self.phase = PollerPhase::Finished;
                            (Some(self.emit_ended()), PollerCommand::Stop)
                        },
                        PollResponse::Chat { continuation, actions } => match continuation {
                            None => {
                                self.phase = PollerPhase::Finished;
                                (Some(self.emit_ended()), PollerCommand::Stop)
                            },
                            Some(c) => {
                                self.continuation = c.continuation;
                                let out = if actions.len() > 0 {
                                    Some(
                                        OutMessages::NewBatch {
                                            channel: self.channel.clone(),
                                            video_id: self.video_id.clone(),
                                            actions,
                                        },
                                    )
                                } else {
                                    None
                                };
                                (out, PollerCommand::PollAfter(c.timeout_ms))
                            },
                        },
                    }
                },
            },
        }
    }
}

/// The poller after a sequence of events, and the kinds of the messages it
/// emitted along the way, in order.
pub open spec fn poller_run(s: PollerView, events: Seq<PollerEvent>) -> (PollerView, Seq<OutKind>)
    decreases events.len(),
{
    if events.len() == 0 {
        (s, Seq::empty())
    } else {
        let (prev, emitted) = poller_run(s, events.drop_last());
        let (next, out, _) = poller_step(prev, events.last());
        (
            next,
            match out {
                Some(k) => emitted.push(k),
                None => emitted,
            },
        )
    }
}

/// `ChatInit` first and only first, `StreamEnded` only last.
pub open spec fn well_ordered(trace: Seq<OutKind>) -> bool {
    &&& trace.len() > 0 ==> trace[0] == OutKind::ChatInit
    &&& forall|i: int| 0 < i < trace.len() ==> trace[i] != OutKind::ChatInit
    &&& forall|i: int| 0 <= i < trace.len() - 1 ==> trace[i] != OutKind::StreamEnded
}

spec fn phase_matches(s: PollerView, trace: Seq<OutKind>) -> bool {
    &&& well_ordered(trace)
    &&& s.poll_errors_count <= MAX_RETRIES
    &&& match s.phase {
        PollerPhase::Created => trace.len() == 0,
        PollerPhase::Running => trace.len() > 0 && trace.last() != OutKind::StreamEnded,
        PollerPhase::Finished => trace.len() > 0 && trace.last() == OutKind::StreamEnded,
    }
}

proof fn lemma_poller_run_phase(events: Seq<PollerEvent>)
    ensures
        phase_matches(
            poller_run(PollerView { phase: PollerPhase::Created, poll_errors_count: 0 }, events).0,
            poller_run(PollerView { phase: PollerPhase::Created, poll_errors_count: 0 }, events).1,
        ),
    decreases events.len(),
{
    if events.len() > 0 {
        lemma_poller_run_phase(events.drop_last());
    }
}

/// Ordering: whatever happens to a poller, the messages it emits for its
/// stream begin with `ChatInit`, which never comes again, and nothing
/// follows `StreamEnded`.
pub proof fn lemma_emitted_in_order(events: Seq<PollerEvent>)
    ensures
        well_ordered(
            poller_run(PollerView { phase: PollerPhase::Created, poll_errors_count: 0 }, events).1,
        ),
{
    lemma_poller_run_phase(events);
}

} // verus!
