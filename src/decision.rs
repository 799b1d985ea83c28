use vstd::prelude::*;

verus! {

/// A mean over a user's history, kept exact as a total and a count.
#[derive(Clone, Copy, Debug, PartialEq, Eq, Structural)]
pub struct Average {
    pub total: u128,
    pub count: usize,
}

/// What the detector concludes about a user.
///
/// `TooFast` carries the mean message length, not the mean delay: consumers
/// rely on that value.
#[derive(Clone, Copy, Debug, PartialEq, Eq, Structural)]
pub enum Decision {
    TooFast(Average),
    TooLong(Average),
    TooManyDeleted,
    Similar,
    Blocked,
    Clear,
}

} // verus!

verus! {

/// Relies on `chrono::Utc::now`: the current time as Unix seconds. Nothing
/// is known of the value.
#[verifier::external_body]
fn now_unix_seconds() -> (r: i64) {
    chrono::Utc::now().timestamp()
}

/// A decision about one user, stamped with the time it was made.
#[derive(Clone, Debug)]
pub struct DetectorDecision {
    pub channel: String,
    pub timestamp: i64,
    pub decision: Decision,
}

impl DetectorDecision {
    pub fn new(channel: String, decision: Decision) -> (r: Self)
        ensures
            r.channel@ == channel@,
            r.decision == decision,
    {
        DetectorDecision { channel, timestamp: now_unix_seconds(), decision }
    }
}

} // verus!
