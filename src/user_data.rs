use vstd::prelude::*;
use vstd::string::*;

use crate::decision::{Average, Decision};
use crate::params::DetectorParams;
use crate::similarity::{jaro_bits, jaro_similarity_bits};

verus! {

/// A user's history as plain values: `(timestamp in microseconds, text)`.
pub type HistoryView = Seq<(u64, Seq<char>)>;

pub open spec fn history_view(h: Seq<(u64, String)>) -> HistoryView {
    h.map_values(|e: (u64, String)| (e.0, e.1@))
}

/// Sum of the lengths of the texts, in characters.
pub open spec fn sum_of_lengths(h: HistoryView) -> int
    decreases h.len(),
{
    if h.len() == 0 {
        0
    } else {
        sum_of_lengths(h.drop_last()) + h.last().1.len()
    }
}

/// Delay between two consecutive messages; a timestamp that goes back counts
/// as no delay.
pub open spec fn gap(earlier: u64, later: u64) -> int {
    if later >= earlier {
        later - earlier
    } else {
        0
    }
}

/// Sum of the delays between consecutive messages, in microseconds.
pub open spec fn sum_of_delays(h: HistoryView) -> int
    decreases h.len(),
{
    if h.len() <= 1 {
        0
    } else {
        sum_of_delays(h.drop_last()) + gap(h[h.len() - 2].0, h.last().0)
    }
}

/// Some later message of the history is similar to message `i`.
pub open spec fn has_similar_successor(h: HistoryView, i: int, p: DetectorParams) -> bool {
    exists|j: int| i < j < h.len() && p.similar(#[trigger] jaro_bits(h[i].1, h[j].1))
}

/// How many of the first `m` messages have a similar later message.
pub open spec fn similar_prefix_count(h: HistoryView, m: int, p: DetectorParams) -> int
    decreases m,
{
    if m <= 0 {
        0
    } else {
        similar_prefix_count(h, m - 1, p) + if has_similar_successor(h, m - 1, p) {
            1int
        } else {
            0int
        }
    }
}

/// The similarity heuristic fires: the history is long enough to be checked,
/// and enough of its messages have a similar later message.
pub open spec fn too_similar(h: HistoryView, p: DetectorParams) -> bool {
    &&& p.similarity_gate(h.len() as int)
    &&& h.len() > 0
    &&& p.too_many_similar(similar_prefix_count(h, h.len() as int, p))
}

/// The verdict on a history and a count of deleted messages, heuristics tried
/// in order: deletions, length, rate, similarity.
pub open spec fn decision_for(h: HistoryView, deleted: int, p: DetectorParams) -> Option<Decision> {
    let n = h.len() as int;
    let lengths = Average { total: sum_of_lengths(h) as u128, count: n as usize };
    if p.too_many_deleted(deleted) {
        Some(Decision::TooManyDeleted)
    } else if p.too_long(sum_of_lengths(h), n) {
        Some(Decision::TooLong(lengths))
    } else if p.too_fast(sum_of_delays(h), n) {
        Some(Decision::TooFast(lengths))
    } else if too_similar(h, p) {
        Some(Decision::Similar)
    } else {
        None
    }
}

proof fn lemma_similar_prefix_count_monotone(h: HistoryView, a: int, b: int, p: DetectorParams)
    requires
        0 <= a <= b,
    ensures
        similar_prefix_count(h, a, p) <= similar_prefix_count(h, b, p),
    decreases b - a,
{
    if a < b {
        lemma_similar_prefix_count_monotone(h, a, b - 1, p);
    }
}

/// The verdict is a function of the history's timestamps and texts, the
/// number of deleted messages and the thresholds alone: two histories that
/// hold the same messages get the same verdict, however often it is asked.
pub proof fn lemma_decision_is_pure(
    first: Seq<(u64, String)>,
    second: Seq<(u64, String)>,
    deleted: int,
    p: DetectorParams,
)
    requires
        history_view(first) == history_view(second),
    ensures
        decision_for(history_view(first), deleted, p) == decision_for(
            history_view(second),
            deleted,
            p,
        ),
{
}

/// The verdict on a history: a function of the history, the number of
/// deleted messages and the thresholds alone.
pub fn make_decision(
    history: &Vec<(u64, String)>,
    delete_messages_count: usize,
    params: &DetectorParams,
) -> (r: Option<Decision>)
    ensures
        r == decision_for(history_view(history@), delete_messages_count as int, *params),
{
    if params.is_too_many_deleted_messages(delete_messages_count) {
        return Some(Decision::TooManyDeleted);
    }
    let ghost h = history_view(history@);
    let n: usize = history.len();
    let mut total_length: u128 = 0;
    let mut total_delay: u128 = 0;
    let mut i: usize = 0;
    while i < n
        invariant
            n == history.len(),
            h == history_view(history@),
            i <= n,
            total_length == sum_of_lengths(h.take(i as int)),
            total_delay == sum_of_delays(h.take(i as int)),
            total_length <= i * (usize::MAX as int),
            total_delay <= i * (u64::MAX as int),
        decreases n - i,
    {
        let len: usize = history[i].1.as_str().unicode_len();
        let ghost prefix = h.take(i as int + 1);
        assert(prefix.drop_last() == h.take(i as int));
        assert(prefix.last() == h[i as int]);
        if i > 0 {
            let earlier: u64 = history[i - 1].0;
            let later: u64 = history[i].0;
            assert(prefix[prefix.len() - 2] == h[i - 1]);
            if later >= earlier {
                assert(total_delay + (later - earlier) <= (i + 1) * (u64::MAX as int))
                    by (nonlinear_arith)
                    requires
                        total_delay <= i * (u64::MAX as int),
                        later - earlier <= u64::MAX,
                ;
                assert((i + 1) * (u64::MAX as int) <= u128::MAX) by (nonlinear_arith)
                    requires
                        i < usize::MAX,
                ;
                total_delay = total_delay + (later - earlier) as u128;
            }
        }
        assert(total_length + len <= (i + 1) * (usize::MAX as int)) by (nonlinear_arith)
            requires
                total_length <= i * (usize::MAX as int),
                len <= usize::MAX,
        ;
        assert((i + 1) * (usize::MAX as int) <= u128::MAX) by (nonlinear_arith)
            requires
                i < usize::MAX,
        ;
        total_length = total_length + len as u128;
        i = i + 1;
    }
    assert(h.take(n as int) == h);
    let lengths = Average { total: total_length, count: n };
    if params.are_messages_too_long(total_length, n) {
        return Some(Decision::TooLong(lengths));
    }
    if params.is_too_fast(total_delay, n) {
        return Some(Decision::TooFast(lengths));
    }
    if params.should_check_similarity(n) {
        let mut similar_count: usize = 0;
        let mut i: usize = 0;
        while i < n
            invariant
                n == history.len(),
                h == history_view(history@),
                i <= n,
                similar_count == similar_prefix_count(h, i as int, *params),
                similar_count <= i,
                params.similarity_gate(n as int),
                decision_for(h, delete_messages_count as int, *params) == if too_similar(
                    h,
                    *params,
                ) {
                    Some(Decision::Similar)
                } else {
                    None
                },
                i == 0 || !params.too_many_similar(similar_count as int),
            decreases n - i,
        {
            let mut j: usize = i + 1;
            let mut found = false;
            while j < n && !found
                invariant
                    n == history.len(),
                    h == history_view(history@),
                    i < n,
                    i + 1 <= j <= n,
                    found ==> has_similar_successor(h, i as int, *params),
                    !found ==> forall|k: int|
                        i < k < j ==> !params.similar(#[trigger] jaro_bits(h[i as int].1, h[k].1)),
                decreases n - j,
            {
                let similarity = jaro_similarity_bits(history[i].1.as_str(), history[j].1.as_str());
                if params.are_messages_similar(similarity) {
                    assert(params.similar(jaro_bits(h[i as int].1, h[j as int].1)));
                    found = true;
                }
                j = j + 1;
            }
            assert(found == has_similar_successor(h, i as int, *params));
            if found {
                similar_count = similar_count + 1;
            }
            i = i + 1;
            assert(similar_count == similar_prefix_count(h, i as int, *params));
            if params.too_many_similar_messages(similar_count) {
                proof {
                    lemma_similar_prefix_count_monotone(h, i as int, n as int, *params);
                    assert(h.len() == n);
                    assert(too_similar(h, *params));
                }
                return Some(Decision::Similar);
            }
        }
    }
    None
}

/// What the detector learns of one user from one chat action.
pub enum UserMessage {
    Regular { message: String, timestamp: u64, author_has_badges: bool },
    Support,
    Delete,
    Blocked,
}

/// A user's state: what is kept of them and how they are judged.
///
/// `Immune` users (supporters, badged authors) are never judged again.
/// `Suspicious` users keep collecting history but are not flagged again.
/// `Blocked` users were blocked by a moderator; their next message lets them
/// back in as `Regular`.
pub enum UserStatus {
    Immune,
    Blocked { history: Vec<(u64, String)>, delete_messages_count: usize },
    Suspicious { history: Vec<(u64, String)>, delete_messages_count: usize },
    Regular { history: Vec<(u64, String)>, delete_messages_count: usize },
}

/// `UserMessage` as plain values.
pub enum UserMessageView {
    Regular { text: Seq<char>, timestamp: u64, author_has_badges: bool },
    Support,
    Delete,
    Blocked,
}

impl View for UserMessage {
    type V = UserMessageView;

    open spec fn view(&self) -> UserMessageView {
        match self {
            UserMessage::Regular { message, timestamp, author_has_badges } => UserMessageView::Regular {
                text: message@,
                timestamp: *timestamp,
                author_has_badges: *author_has_badges,
            },
            UserMessage::Support => UserMessageView::Support,
            UserMessage::Delete => UserMessageView::Delete,
            UserMessage::Blocked => UserMessageView::Blocked,
        }
    }
}

/// `UserStatus` as plain values.
pub enum StatusView {
    Immune,
    Blocked { history: HistoryView, deleted: nat },
    Suspicious { history: HistoryView, deleted: nat },
    Regular { history: HistoryView, deleted: nat },
}

impl View for UserStatus {
    type V = StatusView;

    open spec fn view(&self) -> StatusView {
        match self {
            UserStatus::Immune => StatusView::Immune,
            UserStatus::Blocked { history, delete_messages_count } => StatusView::Blocked {
                history: history_view(history@),
                deleted: *delete_messages_count as nat,
            },
            UserStatus::Suspicious { history, delete_messages_count } => StatusView::Suspicious {
                history: history_view(history@),
                deleted: *delete_messages_count as nat,
            },
            UserStatus::Regular { history, delete_messages_count } => StatusView::Regular {
                history: history_view(history@),
                deleted: *delete_messages_count as nat,
            },
        }
    }
}

/// One more deleted message; the count stops at the largest `usize`.
pub open spec fn deleted_after(deleted: nat) -> nat {
    if deleted < usize::MAX {
        deleted + 1
    } else {
        deleted
    }
}

/// The message makes its author immune: a support event or a message from
/// an author with badges.
pub open spec fn is_immunizing(m: UserMessageView) -> bool {
    match m {
        UserMessageView::Support => true,
        UserMessageView::Regular { author_has_badges, .. } => author_has_badges,
        _ => false,
    }
}

/// Step of a `Regular` user.
pub open spec fn regular_step(h: HistoryView, d: nat, m: UserMessageView, p: DetectorParams) -> (
    StatusView,
    Option<Decision>,
) {
    match m {
        UserMessageView::Support => (StatusView::Immune, None),
        UserMessageView::Blocked => (
            StatusView::Blocked { history: h, deleted: d },
            Some(Decision::Blocked),
        ),
        UserMessageView::Delete => {
            let d2 = deleted_after(d);
            if p.too_many_deleted(d2 as int) {
                (StatusView::Suspicious { history: h, deleted: d2 }, Some(Decision::TooManyDeleted))
            } else {
                (StatusView::Regular { history: h, deleted: d2 }, None)
            }
        },
        UserMessageView::Regular { text, timestamp, author_has_badges } => {
            if author_has_badges {
                (StatusView::Immune, None)
            } else {
                let h2 = h.push((timestamp, text));
                match decision_for(h2, d as int, p) {
                    Some(r) => (StatusView::Suspicious { history: h2, deleted: d }, Some(r)),
                    None => (StatusView::Regular { history: h2, deleted: d }, None),
                }
            }
        },
    }
}

/// Step of a `Suspicious` user: history is kept, nothing is flagged again.
pub open spec fn suspicious_step(h: HistoryView, d: nat, m: UserMessageView) -> (
    StatusView,
    Option<Decision>,
) {
    match m {
        UserMessageView::Support => (StatusView::Immune, Some(Decision::Clear)),
        UserMessageView::Blocked => (
            StatusView::Blocked { history: h, deleted: d },
            Some(Decision::Blocked),
        ),
        UserMessageView::Delete => (StatusView::Suspicious { history: h, deleted: deleted_after(d) }, None),
        UserMessageView::Regular { text, timestamp, author_has_badges } => {
            if author_has_badges {
                (StatusView::Immune, Some(Decision::Clear))
            } else {
                (StatusView::Suspicious { history: h.push((timestamp, text)), deleted: d }, None)
            }
        },
    }
}

/// The user state machine: the next state and the decision emitted, if any.
pub open spec fn step(s: StatusView, m: UserMessageView, p: DetectorParams) -> (
    StatusView,
    Option<Decision>,
) {
    match s {
        StatusView::Immune => (StatusView::Immune, None),
        StatusView::Blocked { history, deleted } => {
            let (next, decision) = regular_step(history, deleted, m, p);
            (next, if decision is Some { decision } else { Some(Decision::Clear) })
        },
        StatusView::Suspicious { history, deleted } => suspicious_step(history, deleted, m),
        StatusView::Regular { history, deleted } => regular_step(history, deleted, m, p),
    }
}

/// Re-judging a user under new thresholds.
pub open spec fn reanalysis(s: StatusView, p: DetectorParams) -> (StatusView, Option<Decision>) {
    match s {
        StatusView::Suspicious { history, deleted } => match decision_for(history, deleted as int, p) {
            Some(r) => (s, Some(r)),
            None => (StatusView::Regular { history, deleted }, Some(Decision::Clear)),
        },
        StatusView::Regular { history, deleted } => match decision_for(history, deleted as int, p) {
            Some(r) => (StatusView::Suspicious { history, deleted }, Some(r)),
            None => (s, None),
        },
        _ => (s, None),
    }
}

/// The state of a new user.
pub open spec fn initial_status() -> StatusView {
    StatusView::Regular { history: Seq::empty(), deleted: 0 }
}

fn regular_analysis(
    mut history: Vec<(u64, String)>,
    delete_messages_count: usize,
    message: UserMessage,
    params: &DetectorParams,
) -> (r: (UserStatus, Option<Decision>))
    ensures
        (r.0@, r.1) == regular_step(
            history_view(history@),
            delete_messages_count as nat,
            message@,
            *params,
        ),
{
    let ghost h = history_view(history@);
    match message {
        UserMessage::Support => (UserStatus::Immune, None),
        UserMessage::Blocked => (
            UserStatus::Blocked { history, delete_messages_count },
            Some(Decision::Blocked),
        ),
        UserMessage::Delete => {
            let deleted = delete_messages_count.saturating_add(1);
            if params.is_too_many_deleted_messages(deleted) {
                (
                    UserStatus::Suspicious { history, delete_messages_count: deleted },
                    Some(Decision::TooManyDeleted),
                )
            } else {
                (UserStatus::Regular { history, delete_messages_count: deleted }, None)
            }
        },
        UserMessage::Regular { message, timestamp, author_has_badges } => {
            if author_has_badges {
                return (UserStatus::Immune, None);
            }
            let ghost text = message@;
            history.push((timestamp, message));
            assert(history_view(history@) == h.push((timestamp, text)));
            match make_decision(&history, delete_messages_count, params) {
                Some(decision) => (
                    UserStatus::Suspicious { history, delete_messages_count },
                    Some(decision),
                ),
                None => (UserStatus::Regular { history, delete_messages_count }, None),
            }
        },
    }
}

fn suspicious_analysis(
    mut history: Vec<(u64, String)>,
    delete_messages_count: usize,
    message: UserMessage,
) -> (r: (UserStatus, Option<Decision>))
    ensures
        (r.0@, r.1) == suspicious_step(history_view(history@), delete_messages_count as nat, message@),
{
    let ghost h = history_view(history@);
    match message {
        UserMessage::Support => (UserStatus::Immune, Some(Decision::Clear)),
        UserMessage::Blocked => (
            UserStatus::Blocked { history, delete_messages_count },
            Some(Decision::Blocked),
        ),
        UserMessage::Delete => (
            UserStatus::Suspicious {
                history,
                delete_messages_count: delete_messages_count.saturating_add(1),
            },
            None,
        ),
        UserMessage::Regular { message, timestamp, author_has_badges } => {
            if author_has_badges {
                return (UserStatus::Immune, Some(Decision::Clear));
            }
            let ghost text = message@;
            history.push((timestamp, message));
            assert(history_view(history@) == h.push((timestamp, text)));
            (UserStatus::Suspicious { history, delete_messages_count }, None)
        },
    }
}

fn do_analysis(status: UserStatus, message: UserMessage, params: &DetectorParams) -> (r: (
    UserStatus,
    Option<Decision>,
))
    ensures
        (r.0@, r.1) == step(status@, message@, *params),
{
    match status {
        UserStatus::Immune => (UserStatus::Immune, None),
        UserStatus::Blocked { history, delete_messages_count } => {
            let (next, decision) = regular_analysis(history, delete_messages_count, message, params);
            match decision {
                Some(d) => (next, Some(d)),
                None => (next, Some(Decision::Clear)),
            }
        },
        UserStatus::Suspicious { history, delete_messages_count } => {
            suspicious_analysis(history, delete_messages_count, message)
        },
        UserStatus::Regular { history, delete_messages_count } => {
            regular_analysis(history, delete_messages_count, message, params)
        },
    }
}

/// Everything the detector keeps about one user of one stream.
pub struct UserData {
    pub status: UserStatus,
}

impl UserData {
    pub fn new() -> (r: Self)
        ensures
            r.status@ == initial_status(),
    {
        let r = UserData {
            status: UserStatus::Regular { history: Vec::new(), delete_messages_count: 0 },
        };
        assert(history_view(Seq::<(u64, String)>::empty()) == Seq::<(u64, Seq<char>)>::empty());
        r
    }

    /// Moves the user's state machine by one message.
    pub fn analyze_new_message(&mut self, message: UserMessage, detector_params: &DetectorParams) -> (r:
        Option<Decision>)
        ensures
            (final(self).status@, r) == step(old(self).status@, message@, *detector_params),
    {
        let mut status = UserStatus::Immune;
        std::mem::swap(&mut status, &mut self.status);
        let (next, decision) = do_analysis(status, message, detector_params);
        self.status = next;
        decision
    }

    /// Judges the user again under new thresholds.
    pub fn reanalyze(&mut self, params: &DetectorParams) -> (r: Option<Decision>)
        ensures
            (final(self).status@, r) == reanalysis(old(self).status@, *params),
    {
        let mut status = UserStatus::Immune;
        std::mem::swap(&mut status, &mut self.status);
        let (next, decision) = match status {
            UserStatus::Suspicious { history, delete_messages_count } => {
                match make_decision(&history, delete_messages_count, params) {
                    Some(d) => (UserStatus::Suspicious { history, delete_messages_count }, Some(d)),
                    None => (UserStatus::Regular { history, delete_messages_count }, Some(Decision::Clear)),
                }
            },
            UserStatus::Regular { history, delete_messages_count } => {
                match make_decision(&history, delete_messages_count, params) {
                    Some(d) => (UserStatus::Suspicious { history, delete_messages_count }, Some(d)),
                    None => (UserStatus::Regular { history, delete_messages_count }, None),
                }
            },
            other => (other, None),
        };
        self.status = next;
        decision
    }
}


/// The state reached from `s` after the messages `ms`, in order.
pub open spec fn run(s: StatusView, ms: Seq<UserMessageView>, p: DetectorParams) -> StatusView
    decreases ms.len(),
{
    if ms.len() == 0 {
        s
    } else {
        run(step(s, ms[0], p).0, ms.drop_first(), p)
    }
}

/// The decisions emitted along `run(s, ms, p)`, one per message.
pub open spec fn run_decisions(s: StatusView, ms: Seq<UserMessageView>, p: DetectorParams) -> Seq<
    Option<Decision>,
>
    decreases ms.len(),
{
    if ms.len() == 0 {
        Seq::empty()
    } else {
        let (next, d) = step(s, ms[0], p);
        seq![d] + run_decisions(next, ms.drop_first(), p)
    }
}

/// Nothing in a `Regular` user's stored history and deletions fires under
/// `p`; other states are calm as they are.
pub open spec fn calm(s: StatusView, p: DetectorParams) -> bool {
    match s {
        StatusView::Regular { history, deleted } => decision_for(history, deleted as int, p) is None,
        _ => true,
    }
}

/// A user who has not yet become immune becomes immune after a sequence of
/// messages exactly when one of the messages was a support event or came
/// with author badges.
pub proof fn lemma_immune_iff_immunizing(s: StatusView, ms: Seq<UserMessageView>, p: DetectorParams)
    requires
        !(s is Immune),
    ensures
        run(s, ms, p) is Immune <==> exists|i: int| 0 <= i < ms.len() && is_immunizing(#[trigger] ms[i]),
    decreases ms.len(),
{
    if ms.len() > 0 {
        let next = step(s, ms[0], p).0;
        if next is Immune {
            assert(is_immunizing(ms[0]));
            lemma_immune_stays(ms.drop_first(), p);
        } else {
            assert(!is_immunizing(ms[0]));
            lemma_immune_iff_immunizing(next, ms.drop_first(), p);
            if exists|i: int| 0 <= i < ms.len() && is_immunizing(#[trigger] ms[i]) {
                let i = choose|i: int| 0 <= i < ms.len() && is_immunizing(#[trigger] ms[i]);
                assert(ms.drop_first()[i - 1] == ms[i]);
            }
            if exists|i: int| 0 <= i < ms.len() - 1 && is_immunizing(#[trigger] ms.drop_first()[i]) {
                let i = choose|i: int|
                    0 <= i < ms.len() - 1 && is_immunizing(#[trigger] ms.drop_first()[i]);
                assert(ms[i + 1] == ms.drop_first()[i]);
            }
        }
    }
}

/// A new user ends immune exactly when a support event or a message with
/// author badges came while the user was not blocked, for every sequence
/// in which no such message reaches the user while blocked (one that does
/// also makes the user immune).
pub proof fn lemma_new_user_immune_iff_immunized_unblocked(ms: Seq<UserMessageView>, p: DetectorParams)
    requires
        forall|i: int|
            0 <= i < ms.len() && (#[trigger] run(initial_status(), ms.take(i), p)) is Blocked
                ==> !is_immunizing(ms[i]),
    ensures
        run(initial_status(), ms, p) is Immune <==> exists|i: int|
            0 <= i < ms.len() && is_immunizing(#[trigger] ms[i]) && !(run(
                initial_status(),
                ms.take(i),
                p,
            ) is Blocked),
{
    lemma_immune_iff_immunizing(initial_status(), ms, p);
    if exists|i: int| 0 <= i < ms.len() && is_immunizing(#[trigger] ms[i]) {
        let i = choose|i: int| 0 <= i < ms.len() && is_immunizing(#[trigger] ms[i]);
        assert(!(run(initial_status(), ms.take(i), p) is Blocked));
    }
}

/// An immune user stays immune and emits no decision, whatever follows.
pub proof fn lemma_immune_stays(ms: Seq<UserMessageView>, p: DetectorParams)
    ensures
        run(StatusView::Immune, ms, p) is Immune,
        run_decisions(StatusView::Immune, ms, p).len() == ms.len(),
        forall|i: int|
            0 <= i < ms.len() ==> #[trigger] run_decisions(StatusView::Immune, ms, p)[i] is None,
    decreases ms.len(),
{
    if ms.len() > 0 {
        lemma_immune_stays(ms.drop_first(), p);
        let tail = run_decisions(StatusView::Immune, ms.drop_first(), p);
        assert forall|i: int| 0 <= i < ms.len() implies #[trigger] run_decisions(
            StatusView::Immune,
            ms,
            p,
        )[i] is None by {
            if i > 0 {
                assert(run_decisions(StatusView::Immune, ms, p)[i] == tail[i - 1]);
            }
        }
    }
}

/// The step that makes a user immune emits `Clear` when the user was
/// suspicious or blocked, and nothing when the user was regular.
pub proof fn lemma_entering_immunity(s: StatusView, m: UserMessageView, p: DetectorParams)
    requires
        !(s is Immune),
        step(s, m, p).0 is Immune,
    ensures
        s is Regular ==> step(s, m, p).1 is None,
        !(s is Regular) ==> step(s, m, p).1 == Some(Decision::Clear),
{
}

/// Judging a calm user again under the thresholds already in force changes
/// nothing and emits nothing, unless the user is suspicious.
pub proof fn lemma_reanalysis_same_params(s: StatusView, p: DetectorParams)
    requires
        !(s is Suspicious),
        calm(s, p),
    ensures
        reanalysis(s, p) == (s, None::<Decision>),
{
}

/// Under fixed thresholds every step keeps a user calm, except a deletion
/// that reaches a blocked user.
pub proof fn lemma_step_keeps_calm(s: StatusView, m: UserMessageView, p: DetectorParams)
    requires
        calm(s, p),
        !(s is Blocked && m is Delete),
    ensures
        calm(step(s, m, p).0, p),
{
}

} // verus!
