use vstd::prelude::*;

verus! {

/// How many sends stay blocking after a channel was found full.
pub const BACKPRESSURE_SPAN: u8 = 9;

/// The sender's mode. `Off`: try a non-blocking send first. `On`: send
/// blocking, for `until_switching_off` more messages.
#[derive(Clone, Copy, Debug, PartialEq, Eq, Structural)]
pub enum Backpressure {
    Off,
    On { until_switching_off: u8 },
}

/// The receiving side is gone; the message comes back.
#[derive(Debug)]
pub enum ChannelSendError<T> {
    Closed(T),
}

/// How a non-blocking send attempt ended.
#[derive(Debug)]
pub enum TrySendOutcome<T> {
    Sent,
    Full(T),
    Closed(T),
}

/// What the sender does next: it is done with a result, or it must wait
/// until the channel takes the message.
#[derive(Debug)]
pub enum SendStep<T> {
    Finished(Result<(), ChannelSendError<T>>),
    SendBlocking(T),
}

/// The result of a blocking send: a channel that was closed hands the
/// message back.
pub fn blocking_result<T>(delivered: Result<(), T>) -> (r: Result<(), ChannelSendError<T>>)
    ensures
        match delivered {
            Ok(()) => r == Ok::<(), ChannelSendError<T>>(()),
            Err(m) => r == Err::<(), ChannelSendError<T>>(ChannelSendError::Closed(m)),
        },
{
    match delivered {
        Ok(()) => Ok(()),
        Err(m) => Err(ChannelSendError::Closed(m)),
    }
}

impl Backpressure {
    /// The counter of an `On` mode is never zero and never above the span.
    pub open spec fn wf(self) -> bool {
        match self {
            Backpressure::Off => true,
            Backpressure::On { until_switching_off } => 1 <= until_switching_off
                <= BACKPRESSURE_SPAN,
        }
    }

    /// Whether the next send must block.
    pub fn is_blocking(&self) -> (r: bool)
        ensures
            r == (*self is On),
    {
        match self {
            Backpressure::Off => false,
            Backpressure::On { .. } => true,
        }
    }

    /// After a non-blocking attempt, made in mode `Off`: a full channel
    /// turns backpressure on and the message is then sent blocking.
    pub fn after_try_send<T>(self, outcome: TrySendOutcome<T>) -> (r: (Backpressure, SendStep<T>))
        requires
            self is Off,
        ensures
            r.0.wf(),
            match outcome {
                TrySendOutcome::Sent => r.0 == Backpressure::Off && r.1 == SendStep::<T>::Finished(
                    Ok(()),
                ),
                TrySendOutcome::Full(m) => r.0 == (Backpressure::On {
                    until_switching_off: BACKPRESSURE_SPAN,
                }) && r.1 == SendStep::SendBlocking(m),
                TrySendOutcome::Closed(m) => r.0 == Backpressure::Off && r.1 == SendStep::<
                    T,
                >::Finished(Err(ChannelSendError::Closed(m))),
            },
    {
        match outcome {
            TrySendOutcome::Sent => (Backpressure::Off, SendStep::Finished(Ok(()))),
            TrySendOutcome::Full(m) => (
                Backpressure::On { until_switching_off: BACKPRESSURE_SPAN },
                SendStep::SendBlocking(m),
            ),
            TrySendOutcome::Closed(m) => (
                Backpressure::Off,
                SendStep::Finished(Err(ChannelSendError::Closed(m))),
            ),
        }
    }

    /// The mode after one blocking send made in mode `self`: the counter
    /// goes down, and backpressure turns off when it reaches zero.
    pub open spec fn after_blocking(self) -> Backpressure {
        match self {
            Backpressure::On { until_switching_off } => if until_switching_off <= 1 {
                Backpressure::Off
            } else {
                Backpressure::On { until_switching_off: (until_switching_off - 1) as u8 }
            },
            Backpressure::Off => Backpressure::Off,
        }
    }

    /// After a blocking send made in mode `On`. A channel that was closed
    /// hands the message back, and so does the result.
    pub fn after_blocking_send<T>(self, delivered: Result<(), T>) -> (r: (
        Backpressure,
        Result<(), ChannelSendError<T>>,
    ))
        requires
            self is On,
            self.wf(),
        ensures
            r.0 == self.after_blocking(),
            r.0.wf(),
            match delivered {
                Ok(()) => r.1 == Ok::<(), ChannelSendError<T>>(()),
                Err(m) => r.1 == Err::<(), ChannelSendError<T>>(ChannelSendError::Closed(m)),
            },
    {
        let next = match self {
            Backpressure::On { until_switching_off } => {
                let left: u8 = until_switching_off - 1;
                if left == 0 {
                    Backpressure::Off
                } else {
                    Backpressure::On { until_switching_off: left }
                }
            },
            Backpressure::Off => Backpressure::Off,
        };
        (next, blocking_result(delivered))
    }
}

/// A delivery attempt with a non-blocking try and, if the channel was full,
/// a blocking send: the result of the whole send.
pub open spec fn send_result<T>(first: TrySendOutcome<T>, blocking: Result<(), T>) -> Result<
    (),
    ChannelSendError<T>,
> {
    match first {
        TrySendOutcome::Sent => Ok(()),
        TrySendOutcome::Closed(m) => Err(ChannelSendError::Closed(m)),
        TrySendOutcome::Full(_) => match blocking {
            Ok(()) => Ok(()),
            Err(m) => Err(ChannelSendError::Closed(m)),
        },
    }
}

/// A send never drops its message: it ends in `Ok` exactly when the channel
/// took the message, and otherwise in `Closed` with the message that the
/// channel handed back.
pub proof fn lemma_send_never_drops<T>(first: TrySendOutcome<T>, blocking: Result<(), T>)
    ensures
        send_result(first, blocking) is Ok <==> (first is Sent || (first is Full && blocking is Ok)),
        match send_result(first, blocking) {
            Ok(()) => true,
            Err(ChannelSendError::Closed(m)) => first == TrySendOutcome::Closed(m) || (first is Full
                && blocking == Err::<(), T>(m)),
        },
{
}

/// Backpressure lasts for exactly `BACKPRESSURE_SPAN` blocking sends after
/// the channel was found full.
pub proof fn lemma_backpressure_span()
    ensures
        forall|k: u8|
            1 <= k <= BACKPRESSURE_SPAN ==> #[trigger] (Backpressure::On {
                until_switching_off: k,
            }).after_blocking() == if k == 1 {
                Backpressure::Off
            } else {
                Backpressure::On { until_switching_off: (k - 1) as u8 }
            },
{
}

} // verus!
