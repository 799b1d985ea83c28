use vstd::prelude::*;

verus! {

/// Thresholds of the heuristics, set per channel.
///
/// Delays are in milliseconds, lengths in characters. The similarity
/// threshold is the bit pattern of a non-negative Jaro score (see
/// `jaro_bits`), so that comparisons with scores are integer comparisons.
#[derive(Clone, Copy, Debug, PartialEq, Eq)]
pub struct DetectorParams {
    pub deleted_messages_threshold: usize,
    pub avg_delay_threshold: u64,
    pub avg_delay_min_message_count: usize,
    pub avg_length_threshold: u64,
    pub avg_length_min_message_count: usize,
    pub similarity_threshold: u64,
    pub similarity_count_threshold: usize,
    pub similarity_min_message_length: usize,
}

/// Number of microseconds in a millisecond: timestamps are in microseconds,
/// the delay threshold in milliseconds.
pub const MICROS_PER_MILLI: u128 = 1000;

impl DetectorParams {
    pub open spec fn too_many_deleted(self, deleted: int) -> bool {
        deleted >= self.deleted_messages_threshold
    }

    /// The mean delay `sum_of_delays_us / 1000 / count` is under the threshold,
    /// with enough messages. With no messages there is no mean.
    pub open spec fn too_fast(self, sum_of_delays_us: int, count: int) -> bool {
        &&& count > 0
        &&& count >= self.avg_delay_min_message_count
        &&& sum_of_delays_us < MICROS_PER_MILLI * self.avg_delay_threshold * count
    }

    /// The mean length `sum_of_lengths / count` reaches the threshold, with
    /// enough messages. With no messages there is no mean.
    pub open spec fn too_long(self, sum_of_lengths: int, count: int) -> bool {
        &&& count > 0
        &&& count >= self.avg_length_min_message_count
        &&& sum_of_lengths >= self.avg_length_threshold * count
    }

    pub open spec fn similarity_gate(self, history_len: int) -> bool {
        history_len >= self.similarity_min_message_length
    }

    pub open spec fn similar(self, similarity_bits: u64) -> bool {
        similarity_bits > self.similarity_threshold
    }

    pub open spec fn too_many_similar(self, similar_count: int) -> bool {
        similar_count >= self.similarity_count_threshold
    }

    pub fn new(
        deleted_messages_threshold: usize,
        avg_delay_threshold: u64,
        avg_delay_min_message_count: usize,
        avg_length_threshold: u64,
        avg_length_min_message_count: usize,
        similarity_threshold: u64,
        similarity_count_threshold: usize,
        similarity_min_message_length: usize,
    ) -> (r: Self)
        ensures
            r == (DetectorParams {
                deleted_messages_threshold,
                avg_delay_threshold,
                avg_delay_min_message_count,
                avg_length_threshold,
                avg_length_min_message_count,
                similarity_threshold,
                similarity_count_threshold,
                similarity_min_message_length,
            }),
    {
        DetectorParams {
            deleted_messages_threshold,
            avg_delay_threshold,
            avg_delay_min_message_count,
            avg_length_threshold,
            avg_length_min_message_count,
            similarity_threshold,
            similarity_count_threshold,
            similarity_min_message_length,
        }
    }

    pub fn is_too_many_deleted_messages(&self, delete_messages_count: usize) -> (r: bool)
        ensures
            r == self.too_many_deleted(delete_messages_count as int),
    {
        delete_messages_count >= self.deleted_messages_threshold
    }

    pub fn is_too_fast(&self, sum_of_delays_us: u128, sent_messages_count: usize) -> (r: bool)
        ensures
            r == self.too_fast(sum_of_delays_us as int, sent_messages_count as int),
    {
        if sent_messages_count == 0 || sent_messages_count < self.avg_delay_min_message_count {
            return false;
        }
        let per_message = MICROS_PER_MILLI * (self.avg_delay_threshold as u128);
        match per_message.checked_mul(sent_messages_count as u128) {
            Some(bound) => sum_of_delays_us < bound,
            None => {
                assert(sum_of_delays_us < per_message * sent_messages_count) by (nonlinear_arith)
                    requires
                        per_message * sent_messages_count > u128::MAX,
                        sum_of_delays_us <= u128::MAX,
                ;
                true
            },
        }
    }

    pub fn are_messages_too_long(&self, sum_of_lengths: u128, sent_messages_count: usize) -> (r:
        bool)
        ensures
            r == self.too_long(sum_of_lengths as int, sent_messages_count as int),
    {
        if sent_messages_count == 0 || sent_messages_count < self.avg_length_min_message_count {
            return false;
        }
        let threshold = self.avg_length_threshold as u128;
        assert(threshold * (sent_messages_count as u128) <= u128::MAX) by (nonlinear_arith)
            requires
                threshold <= u64::MAX,
                sent_messages_count <= u64::MAX,
        ;
        sum_of_lengths >= threshold * (sent_messages_count as u128)
    }

    pub fn should_check_similarity(&self, history_len: usize) -> (r: bool)
        ensures
            r == self.similarity_gate(history_len as int),
    {
        history_len >= self.similarity_min_message_length
    }

    pub fn are_messages_similar(&self, similarity_bits: u64) -> (r: bool)
        ensures
            r == self.similar(similarity_bits),
    {
        similarity_bits > self.similarity_threshold
    }

    pub fn too_many_similar_messages(&self, similar_messages_count: usize) -> (r: bool)
        ensures
            r == self.too_many_similar(similar_messages_count as int),
    {
        similar_messages_count >= self.similarity_count_threshold
    }
}

/// Bit pattern of the Jaro score 0.85, the default similarity threshold.
pub const DEFAULT_SIMILARITY_THRESHOLD: u64 = 0x3FEB_3333_3333_3333;

/// The thresholds a channel starts with.
pub open spec fn default_params() -> DetectorParams {
    DetectorParams {
        deleted_messages_threshold: 4,
        avg_delay_threshold: 5000,
        avg_delay_min_message_count: 5,
        avg_length_threshold: 30,
        avg_length_min_message_count: 5,
        similarity_threshold: DEFAULT_SIMILARITY_THRESHOLD,
        similarity_count_threshold: 3,
        similarity_min_message_length: 10,
    }
}

impl Default for DetectorParams {
    fn default() -> (r: Self)
        ensures
            r == default_params(),
    {
        DetectorParams {
            deleted_messages_threshold: 4,
            avg_delay_threshold: 5000,
            avg_delay_min_message_count: 5,
            avg_length_threshold: 30,
            avg_length_min_message_count: 5,
            similarity_threshold: DEFAULT_SIMILARITY_THRESHOLD,
            similarity_count_threshold: 3,
            similarity_min_message_length: 10,
        }
    }
}

} // verus!
