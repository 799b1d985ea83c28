use vstd::prelude::*;

use crate::decision::{Decision, DetectorDecision};
use crate::params::DetectorParams;
use crate::types::{Action, IdEntry, MessageContent};
use crate::user_data::{
    calm, initial_status, lemma_reanalysis_same_params, reanalysis, step, StatusView, UserData,
    UserMessage, UserMessageView,
};

verus! {

/// The message index as plain values: `(message id, author's channel id)`,
/// in the order the messages were seen.
pub type IndexView = Seq<(Seq<char>, Seq<char>)>;

/// The author of a message: the latest entry recorded for its id.
pub open spec fn author_of(index: IndexView, id: Seq<char>) -> Option<Seq<char>>
    decreases index.len(),
{
    if index.len() == 0 {
        None
    } else if index.last().0 == id {
        Some(index.last().1)
    } else {
        author_of(index.drop_last(), id)
    }
}

/// What a chat message tells about its author, and the message index after it.
pub open spec fn content_user_message(index: IndexView, id: IdEntry, content: MessageContent) -> (
    IndexView,
    Option<(Seq<char>, UserMessageView)>,
) {
    match content {
        MessageContent::SimpleMessage { author, message } => (
            index.push((id.id@, author.channel_id@)),
            Some(
                (
                    author.channel_id@,
                    UserMessageView::Regular {
                        text: message@,
                        timestamp: id.timestamp,
                        author_has_badges: author.badges is Some,
                    },
                ),
            ),
        ),
        MessageContent::Membership { author, .. } => (
            index,
            Some((author.channel_id@, UserMessageView::Support)),
        ),
        MessageContent::Superchat { author, .. } => (
            index,
            Some((author.channel_id@, UserMessageView::Support)),
        ),
        MessageContent::Sticker { author, .. } => (
            index,
            Some((author.channel_id@, UserMessageView::Support)),
        ),
        MessageContent::Fundraiser { author, .. } => match author {
            Some(user) => (index, Some((user.channel_id@, UserMessageView::Support))),
            None => (index, None),
        },
        _ => (index, None),
    }
}

/// What a chat action tells about a user, and the message index after it.
pub open spec fn action_user_message(index: IndexView, a: Action) -> (
    IndexView,
    Option<(Seq<char>, UserMessageView)>,
) {
    match a {
        Action::NewMessage { id, message } => content_user_message(index, id, message),
        Action::ReplaceMessage { new_id, message, .. } => content_user_message(index, new_id, message),
        Action::DeleteMessage { target_id } => match author_of(index, target_id@) {
            Some(author) => (index, Some((author, UserMessageView::Delete))),
            None => (index, None),
        },
        Action::BlockUser { channel_id } => (index, Some((channel_id@, UserMessageView::Blocked))),
        _ => (index, None),
    }
}

/// A detector as plain values: the message index and the state of every
/// user seen so far.
pub struct DetectorView {
    pub index: IndexView,
    pub users: Map<Seq<char>, StatusView>,
}

/// The state of a user; one never seen is a new user.
pub open spec fn status_in(users: Map<Seq<char>, StatusView>, user: Seq<char>) -> StatusView {
    if users.contains_key(user) {
        users[user]
    } else {
        initial_status()
    }
}

/// One action of a batch: the detector after it, the decisions emitted, and
/// how many user messages it counted for.
pub open spec fn batch_step(s: DetectorView, a: Action, p: DetectorParams) -> (
    DetectorView,
    Seq<(Seq<char>, Decision)>,
    int,
) {
    let (index, derived) = action_user_message(s.index, a);
    match derived {
        None => (DetectorView { index, users: s.users }, Seq::empty(), 0),
        Some((user, m)) => {
            let (next, d) = step(status_in(s.users, user), m, p);
            (
                DetectorView { index, users: s.users.insert(user, next) },
                match d {
                    Some(x) => seq![(user, x)],
                    None => Seq::empty(),
                },
                1,
            )
        },
    }
}

/// A batch of actions, processed in order.
pub open spec fn batch(s: DetectorView, actions: Seq<Action>, p: DetectorParams) -> (
    DetectorView,
    Seq<(Seq<char>, Decision)>,
    int,
)
    decreases actions.len(),
{
    if actions.len() == 0 {
        (s, Seq::empty(), 0)
    } else {
        let (s1, d1, n1) = batch(s, actions.drop_last(), p);
        let (s2, d2, n2) = batch_step(s1, actions.last(), p);
        (s2, d1 + d2, n1 + n2)
    }
}

pub open spec fn known(ids: Seq<String>, user: Seq<char>) -> bool {
    exists|i: int| 0 <= i < ids.len() && (#[trigger] ids[i])@ == user
}

pub open spec fn position(ids: Seq<String>, user: Seq<char>) -> int {
    choose|i: int| 0 <= i < ids.len() && (#[trigger] ids[i])@ == user
}

/// Decisions of judging every user again, in the order the users are kept.
pub open spec fn reanalysis_decisions(entries: Seq<(Seq<char>, StatusView)>, p: DetectorParams) -> Seq<
    (Seq<char>, Decision),
>
    decreases entries.len(),
{
    if entries.len() == 0 {
        Seq::empty()
    } else {
        let prev = reanalysis_decisions(entries.drop_last(), p);
        match reanalysis(entries.last().1, p).1 {
            Some(d) => prev.push((entries.last().0, d)),
            None => prev,
        }
    }
}

/// Judging again, under the thresholds already in force, users who are all
/// calm and none suspicious emits no decision.
pub proof fn lemma_reanalysis_same_params_emits_nothing(
    entries: Seq<(Seq<char>, StatusView)>,
    p: DetectorParams,
)
    requires
        forall|i: int|
            0 <= i < entries.len() ==> !((#[trigger] entries[i]).1 is Suspicious) && calm(
                entries[i].1,
                p,
            ),
    ensures
        reanalysis_decisions(entries, p).len() == 0,
    decreases entries.len(),
{
    if entries.len() > 0 {
        let last = entries.last();
        assert(entries[entries.len() - 1] == last);
        lemma_reanalysis_same_params(last.1, p);
        assert forall|i: int| 0 <= i < entries.len() - 1 implies !((#[trigger] entries.drop_last()[
            i
        ]).1 is Suspicious) && calm(entries.drop_last()[i].1, p) by {
            assert(entries.drop_last()[i] == entries[i]);
        }
        lemma_reanalysis_same_params_emits_nothing(entries.drop_last(), p);
    }
}

/// The action posts a chat message of `user`, with id `id`.
pub open spec fn posts_message(a: Action, user: Seq<char>, id: Seq<char>) -> bool {
    match a {
        Action::NewMessage { id: entry, message } => match message {
            MessageContent::SimpleMessage { author, .. } => author.channel_id@ == user && entry.id@
                == id,
            _ => false,
        },
        _ => false,
    }
}

/// After a batch in which a user posts chat messages, each of them is
/// attributed to that user.
pub proof fn lemma_posts_are_indexed(
    s: DetectorView,
    posts: Seq<Action>,
    ids: Seq<Seq<char>>,
    user: Seq<char>,
    p: DetectorParams,
)
    requires
        posts.len() == ids.len(),
        forall|j: int| 0 <= j < posts.len() ==> posts_message(#[trigger] posts[j], user, ids[j]),
    ensures
        forall|j: int|
            0 <= j < posts.len() ==> author_of(batch(s, posts, p).0.index, #[trigger] ids[j]) == Some(
                user,
            ),
    decreases posts.len(),
{
    if posts.len() > 0 {
        let n = posts.len() - 1;
        assert forall|j: int| 0 <= j < n implies posts_message(
            #[trigger] posts.drop_last()[j],
            user,
            ids.drop_last()[j],
        ) by {
            assert(posts.drop_last()[j] == posts[j]);
        }
        lemma_posts_are_indexed(s, posts.drop_last(), ids.drop_last(), user, p);
        assert(posts_message(posts[n], user, ids[n]));
        let before = batch(s, posts.drop_last(), p).0.index;
        let after = batch(s, posts, p).0.index;
        assert(after == before.push((ids[n], user)));
        assert forall|j: int| 0 <= j < posts.len() implies author_of(after, #[trigger] ids[j])
            == Some(user) by {
            assert(after.drop_last() == before);
            if j < n {
                assert(ids.drop_last()[j] == ids[j]);
            }
        }
    }
}

/// Deletion attribution: once a user has posted chat messages, deleting any
/// of them gives a deletion event for that user.
pub proof fn lemma_deletion_attribution(
    s: DetectorView,
    posts: Seq<Action>,
    ids: Seq<Seq<char>>,
    user: Seq<char>,
    i: int,
    target_id: String,
    p: DetectorParams,
)
    requires
        posts.len() == ids.len(),
        forall|j: int| 0 <= j < posts.len() ==> posts_message(#[trigger] posts[j], user, ids[j]),
        0 <= i < posts.len(),
        target_id@ == ids[i],
    ensures
        action_user_message(batch(s, posts, p).0.index, Action::DeleteMessage { target_id }).1
            == Some((user, UserMessageView::Delete)),
{
    lemma_posts_are_indexed(s, posts, ids, user, p);
    assert(author_of(batch(s, posts, p).0.index, ids[i]) == Some(user));
}

/// What one batch gave: the decisions, and how many user messages it held.
pub struct ProcessingResult {
    pub decisions: Vec<DetectorDecision>,
    pub processed_messages: usize,
}

/// The decisions of a result as plain values: `(user, decision)`.
pub open spec fn decisions_view(ds: Seq<DetectorDecision>) -> Seq<(Seq<char>, Decision)> {
    ds.map_values(|d: DetectorDecision| (d.channel@, d.decision))
}

/// The detector of one stream: every user's state and the author of every
/// message seen.
pub struct SpamDetector {
    user_ids: Vec<String>,
    users: Vec<UserData>,
    message_to_user: Vec<(String, String)>,
}

impl View for SpamDetector {
    type V = DetectorView;

    closed spec fn view(&self) -> DetectorView {
        DetectorView {
            index: self.message_to_user@.map_values(|e: (String, String)| (e.0@, e.1@)),
            users: Map::new(
                |k: Seq<char>| known(self.user_ids@, k),
                |k: Seq<char>| self.users@[position(self.user_ids@, k)].status@,
            ),
        }
    }
}

impl SpamDetector {
    /// The users with their states, in the order they were first seen.
    pub closed spec fn entries(&self) -> Seq<(Seq<char>, StatusView)> {
        Seq::new(self.users.len() as nat, |i: int| (self.user_ids@[i]@, self.users@[i].status@))
    }

    /// `entries` lists exactly the users of the view, each with its state.
    proof fn lemma_entries_are_users(&self)
        requires
            self.wf(),
        ensures
            forall|i: int|
                0 <= i < self.entries().len() ==> self@.users.contains_key(
                    (#[trigger] self.entries()[i]).0,
                ) && self@.users[self.entries()[i].0] == self.entries()[i].1,
            forall|k: Seq<char>|
                #[trigger] self@.users.contains_key(k) ==> exists|i: int|
                    0 <= i < self.entries().len() && (#[trigger] self.entries()[i]).0 == k,
    {
        assert forall|i: int| 0 <= i < self.entries().len() implies self@.users.contains_key(
            (#[trigger] self.entries()[i]).0,
        ) && self@.users[self.entries()[i].0] == self.entries()[i].1 by {
            let k = self.user_ids@[i]@;
            assert(known(self.user_ids@, k));
            let j = position(self.user_ids@, k);
            assert(self.user_ids@[j]@ == k);
        }
        assert forall|k: Seq<char>| #[trigger] self@.users.contains_key(k) implies exists|i: int|
            0 <= i < self.entries().len() && (#[trigger] self.entries()[i]).0 == k by {
            let j = position(self.user_ids@, k);
            assert(self.entries()[j].0 == k);
        }
    }

    /// Judging a detector's users again under the thresholds already in
    /// force emits no decision when every user is calm and none is
    /// suspicious.
    pub proof fn lemma_same_params_emits_nothing(&self, p: DetectorParams)
        requires
            self.wf(),
            forall|u: Seq<char>|
                #[trigger] self@.users.contains_key(u) ==> !(self@.users[u] is Suspicious) && calm(
                    self@.users[u],
                    p,
                ),
        ensures
            reanalysis_decisions(self.entries(), p).len() == 0,
    {
        self.lemma_entries_are_users();
        assert forall|i: int| 0 <= i < self.entries().len() implies !((
        #[trigger] self.entries()[i]).1 is Suspicious) && calm(self.entries()[i].1, p) by {
            assert(self@.users.contains_key(self.entries()[i].0));
        }
        lemma_reanalysis_same_params_emits_nothing(self.entries(), p);
    }

    /// Each user is kept once.
    pub closed spec fn wf(&self) -> bool {
        &&& self.user_ids.len() == self.users.len()
        &&& forall|i: int, j: int|
            0 <= i < self.user_ids.len() && 0 <= j < self.user_ids.len() && (#[trigger] self.user_ids@[i])@
                == (#[trigger] self.user_ids@[j])@ ==> i == j
    }

    pub fn init() -> (r: Self)
        ensures
            r.wf(),
            r@.index == Seq::<(Seq<char>, Seq<char>)>::empty(),
            r@.users == Map::<Seq<char>, StatusView>::empty(),
    {
        let r = SpamDetector { user_ids: Vec::new(), users: Vec::new(), message_to_user: Vec::new() };
        assert(r@.users =~= Map::<Seq<char>, StatusView>::empty());
        assert(r@.index =~= Seq::<(Seq<char>, Seq<char>)>::empty());
        r
    }

    fn find_author(&self, id: &String) -> (r: Option<String>)
        ensures
            match r {
                Some(author) => author_of(self@.index, id@) == Some(author@),
                None => author_of(self@.index, id@) is None,
            },
    {
        let ghost index = self@.index;
        let mut i: usize = self.message_to_user.len();
        assert(index.take(i as int) == index);
        while i > 0
            invariant
                i <= self.message_to_user.len(),
                index == self@.index,
                author_of(index, id@) == author_of(index.take(i as int), id@),
            decreases i,
        {
            i = i - 1;
            let ghost prefix = index.take(i as int + 1);
            assert(prefix.drop_last() == index.take(i as int));
            assert(prefix.last() == index[i as int]);
            if self.message_to_user[i].0 == *id {
                return Some(self.message_to_user[i].1.clone());
            }
        }
        assert(index.take(0) == Seq::<(Seq<char>, Seq<char>)>::empty());
        None
    }

    fn find_user(&self, user: &String) -> (r: Option<usize>)
        ensures
            match r {
                Some(i) => i < self.user_ids.len() && self.user_ids@[i as int]@ == user@,
                None => !known(self.user_ids@, user@),
            },
    {
        let mut i: usize = 0;
        while i < self.user_ids.len()
            invariant
                i <= self.user_ids.len(),
                forall|k: int| 0 <= k < i ==> (#[trigger] self.user_ids@[k])@ != user@,
            decreases self.user_ids.len() - i,
        {
            if self.user_ids[i] == *user {
                return Some(i);
            }
            i = i + 1;
        }
        None
    }

    fn user_message_of_content(&mut self, id: &IdEntry, content: &MessageContent) -> (r: Option<
        (String, UserMessage),
    >)
        ensures
            final(self).user_ids == old(self).user_ids,
            final(self).users == old(self).users,
            (final(self)@.index, match r {
                Some(pair) => Some((pair.0@, pair.1@)),
                None => None,
            }) == content_user_message(old(self)@.index, *id, *content),
    {
        let ghost old_index = self@.index;
        match content {
            MessageContent::SimpleMessage { author, message } => {
                self.message_to_user.push((id.id.clone(), author.channel_id.clone()));
                assert(self@.index =~= old_index.push((id.id@, author.channel_id@)));
                let m = UserMessage::Regular {
                    message: message.clone(),
                    timestamp: id.timestamp,
                    author_has_badges: author.badges.is_some(),
                };
                Some((author.channel_id.clone(), m))
            },
            MessageContent::Membership { author, .. } => Some(
                (author.channel_id.clone(), UserMessage::Support),
            ),
            MessageContent::Superchat { author, .. } => Some(
                (author.channel_id.clone(), UserMessage::Support),
            ),
            MessageContent::Sticker { author, .. } => Some(
                (author.channel_id.clone(), UserMessage::Support),
            ),
            MessageContent::Fundraiser { author, .. } => match author {
                Some(user) => Some((user.channel_id.clone(), UserMessage::Support)),
                None => None,
            },
            MessageContent::ChatMode { .. } => None,
            MessageContent::PollResult { .. } => None,
        }
    }

    fn user_message_of_action(&mut self, action: &Action) -> (r: Option<(String, UserMessage)>)
        ensures
            final(self).user_ids == old(self).user_ids,
            final(self).users == old(self).users,
            (final(self)@.index, match r {
                Some(pair) => Some((pair.0@, pair.1@)),
                None => None,
            }) == action_user_message(old(self)@.index, *action),
    {
        match action {
            Action::NewMessage { id, message } => self.user_message_of_content(id, message),
            Action::ReplaceMessage { new_id, message, .. } => self.user_message_of_content(
                new_id,
                message,
            ),
            Action::DeleteMessage { target_id } => match self.find_author(target_id) {
                Some(author) => Some((author, UserMessage::Delete)),
                None => None,
            },
            Action::BlockUser { channel_id } => Some((channel_id.clone(), UserMessage::Blocked)),
            Action::CloseBanner { .. } => None,
            Action::StartPoll { .. } => None,
            Action::FinishPoll { .. } => None,
            Action::ChannelNotice { .. } => None,
            Action::FundraiserProgress { .. } => None,
            Action::ClosePanel { .. } => None,
        }
    }

    fn apply(&mut self, user: String, message: UserMessage, params: &DetectorParams) -> (r: Option<
        Decision,
    >)
        requires
            old(self).wf(),
        ensures
            final(self).wf(),
            final(self)@.index == old(self)@.index,
            final(self)@.users == old(self)@.users.insert(
                user@,
                step(status_in(old(self)@.users, user@), message@, *params).0,
            ),
            r == step(status_in(old(self)@.users, user@), message@, *params).1,
    {
        let ghost old_users = self@.users;
        let ghost old_ids = self.user_ids@;
        let ghost u = user@;
        match self.find_user(&user) {
            Some(i) => {
                assert(old_users.contains_key(u));
                assert(position(old_ids, u) == i);
                let r = self.users[i].analyze_new_message(message, params);
                proof {
                    assert forall|k: Seq<char>| known(old_ids, k) && k != u implies position(old_ids, k)
                        != i by {
                        let j = position(old_ids, k);
                        assert(old_ids[j]@ == k);
                    }
                    assert(self@.users =~= old_users.insert(u, self.users@[i as int].status@));
                }
                r
            },
            None => {
                let mut data = UserData::new();
                let r = data.analyze_new_message(message, params);
                let ghost n = old_ids.len();
                self.user_ids.push(user);
                self.users.push(data);
                proof {
                    let ids = self.user_ids@;
                    assert(ids[n as int]@ == u);
                    assert forall|k: Seq<char>| known(ids, k) <==> (known(old_ids, k) || k == u) by {
                        if known(old_ids, k) {
                            let j = position(old_ids, k);
                            assert(ids[j]@ == k);
                        }
                        if known(ids, k) && k != u {
                            let j = position(ids, k);
                            assert(old_ids[j]@ == k);
                        }
                    }
                    assert forall|k: Seq<char>| known(old_ids, k) implies position(ids, k) == position(
                        old_ids,
                        k,
                    ) by {
                        let j = position(old_ids, k);
                        let j2 = position(ids, k);
                        assert(old_ids[j]@ == k);
                        assert(ids[j]@ == k);
                        assert(ids[j2]@ == k);
                    }
                    assert(position(ids, u) == n);
                    assert(self@.users =~= old_users.insert(u, data.status@));
                }
                r
            },
        }
    }

    /// Processes a batch of chat actions in order: each action that concerns
    /// a user moves that user's state machine, and every decision made is
    /// returned with the user it is about.
    pub fn process_new_messages(&mut self, actions: Vec<Action>, detector_params: &DetectorParams) -> (r:
        ProcessingResult)
        requires
            old(self).wf(),
        ensures
            final(self).wf(),
            (final(self)@, decisions_view(r.decisions@), r.processed_messages as int) == batch(
                old(self)@,
                actions@,
                *detector_params,
            ),
    {
        let ghost start = self@;
        let mut decisions: Vec<DetectorDecision> = Vec::new();
        let mut processed_messages: usize = 0;
        let mut i: usize = 0;
        while i < actions.len()
            invariant
                self.wf(),
                i <= actions.len(),
                processed_messages <= i,
                (self@, decisions_view(decisions@), processed_messages as int) == batch(
                    start,
                    actions@.take(i as int),
                    *detector_params,
                ),
            decreases actions.len() - i,
        {
            let ghost before = self@;
            let ghost before_decisions = decisions_view(decisions@);
            let ghost prefix = actions@.take(i as int + 1);
            assert(prefix.drop_last() == actions@.take(i as int));
            assert(prefix.last() == actions@[i as int]);
            match self.user_message_of_action(&actions[i]) {
                Some((user, message)) => {
                    processed_messages = processed_messages + 1;
                    let ghost u = user@;
                    let channel = user.clone();
                    match self.apply(user, message, detector_params) {
                        Some(decision) => {
                            decisions.push(DetectorDecision::new(channel, decision));
                            assert(decisions_view(decisions@) =~= before_decisions + seq![
                                (u, decision),
                            ]);
                        },
                        None => {
                            assert(decisions_view(decisions@) =~= before_decisions
                                + Seq::<(Seq<char>, Decision)>::empty());
                        },
                    }
                },
                None => {
                    assert(decisions_view(decisions@) =~= before_decisions
                        + Seq::<(Seq<char>, Decision)>::empty());
                    assert(self@.users == before.users);
                },
            }
            i = i + 1;
        }
        assert(actions@.take(actions.len() as int) == actions@);
        ProcessingResult { decisions, processed_messages }
    }

    /// Judges every user again under new thresholds and returns the
    /// decisions made, each with the user it is about.
    pub fn reanalyze(&mut self, params: &DetectorParams) -> (r: Vec<DetectorDecision>)
        requires
            old(self).wf(),
        ensures
            final(self).wf(),
            final(self)@.index == old(self)@.index,
            final(self)@.users == Map::new(
                |k: Seq<char>| old(self)@.users.contains_key(k),
                |k: Seq<char>| reanalysis(old(self)@.users[k], *params).0,
            ),
            decisions_view(r@) == reanalysis_decisions(old(self).entries(), *params),
    {
        let ghost start = *self;
        let ghost old_entries = self.entries();
        let mut decisions: Vec<DetectorDecision> = Vec::new();
        let mut i: usize = 0;
        while i < self.users.len()
            invariant
                self.wf(),
                start.wf(),
                self.user_ids == start.user_ids,
                self.message_to_user == start.message_to_user,
                self.users.len() == start.users.len(),
                old_entries == start.entries(),
                i <= self.users.len(),
                forall|j: int|
                    0 <= j < i ==> (#[trigger] self.users@[j]).status@ == reanalysis(
                        start.users@[j].status@,
                        *params,
                    ).0,
                forall|j: int| i <= j < self.users.len() ==> #[trigger] self.users@[j] == start.users@[j],
                decisions_view(decisions@) == reanalysis_decisions(old_entries.take(i as int), *params),
            decreases start.users.len() - i,
        {
            let ghost before = decisions_view(decisions@);
            let ghost prefix = old_entries.take(i as int + 1);
            assert(prefix.drop_last() == old_entries.take(i as int));
            assert(prefix.last() == old_entries[i as int]);
            match self.users[i].reanalyze(params) {
                Some(decision) => {
                    let channel = self.user_ids[i].clone();
                    decisions.push(DetectorDecision::new(channel, decision));
                    assert(decisions_view(decisions@) =~= before.push((self.user_ids@[i as int]@, decision)));
                },
                None => {},
            }
            i = i + 1;
        }
        assert(old_entries.take(self.users.len() as int) == old_entries);
        proof {
            assert forall|k: Seq<char>| known(start.user_ids@, k) implies self.users@[position(
                self.user_ids@,
                k,
            )].status@ == reanalysis(start@.users[k], *params).0 by {
                let j = position(start.user_ids@, k);
                assert(start.user_ids@[j]@ == k);
            }
            assert(self@.users =~= Map::new(
                |k: Seq<char>| start@.users.contains_key(k),
                |k: Seq<char>| reanalysis(start@.users[k], *params).0,
            ));
        }
        decisions
    }
}

} // verus!
