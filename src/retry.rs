use vstd::prelude::*;

use crate::model::MessengerError;

verus! {

/// How many copies of an event the reliable send transmits at most.
pub const MAX_REPEATS: u64 = 8;

/// What the sender of a reliable event does next.
#[derive(Clone, Copy, Debug, PartialEq, Eq, Structural)]
pub enum SendStep {
    /// Register a waiter, transmit one more copy and wait for its acknowledgment.
    Transmit,
    /// The event was acknowledged.
    Delivered,
    /// The event was given up.
    Failed(MessengerError),
}

/// The step after a wait ends, with `sent` copies transmitted so far:
/// delivered on an acknowledgment, else one more copy while the budget
/// lasts, else a timeout.
pub open spec fn retry_step(sent: nat, acked: bool) -> SendStep {
    if acked {
        SendStep::Delivered
    } else if sent < MAX_REPEATS {
        SendStep::Transmit
    } else {
        SendStep::Failed(MessengerError::Timeout)
    }
}

/// How a reliable send ends, with `sent` copies transmitted so far, when the
/// transport drops the next `drops` acknowledgments and delivers the one
/// after: the last step and the number of copies transmitted.
pub open spec fn send_outcome(sent: nat, drops: nat) -> (SendStep, nat)
    decreases drops,
{
    match retry_step(sent, drops == 0) {
        SendStep::Transmit => if drops > 0 {
            send_outcome(sent + 1, (drops - 1) as nat)
        } else {
            (SendStep::Transmit, sent)
        },
        step => (step, sent),
    }
}

/// The retry state of one reliable send.
pub struct SendRetry {
    sent: u64,
}

impl SendRetry {
    /// Copies transmitted so far.
    pub closed spec fn spec_sent(&self) -> nat {
        self.sent as nat
    }

    pub fn new() -> (r: Self)
        ensures
            r.spec_sent() == 0,
    {
        SendRetry { sent: 0 }
    }

    /// Copies transmitted so far.
    pub fn sent(&self) -> (r: u64)
        ensures
            r == self.spec_sent(),
    {
        self.sent
    }

    /// The first step: transmit the first copy.
    pub fn begin(&mut self) -> (r: SendStep)
        requires
            old(self).spec_sent() == 0,
        ensures
            r == SendStep::Transmit,
            final(self).spec_sent() == 1,
    {
        self.sent = 1;
        SendStep::Transmit
    }

    /// The step after a wait that ended with an acknowledgment (`acked`) or
    /// a timeout.
    pub fn next(&mut self, acked: bool) -> (r: SendStep)
        requires
            1 <= old(self).spec_sent() <= MAX_REPEATS,
        ensures
            r == retry_step(old(self).spec_sent(), acked),
            final(self).spec_sent() == if r == SendStep::Transmit {
                old(self).spec_sent() + 1
            } else {
                old(self).spec_sent()
            },
            1 <= final(self).spec_sent() <= MAX_REPEATS,
    {
        if acked {
            SendStep::Delivered
        } else if self.sent < MAX_REPEATS {
            self.sent = self.sent + 1;
            SendStep::Transmit
        } else {
            SendStep::Failed(MessengerError::Timeout)
        }
    }
}

proof fn lemma_send_outcome_from(sent: nat, drops: nat)
    requires
        1 <= sent <= MAX_REPEATS,
    ensures
        send_outcome(sent, drops) == if sent + drops <= MAX_REPEATS {
            (SendStep::Delivered, sent + drops)
        } else {
            (SendStep::Failed(MessengerError::Timeout), MAX_REPEATS as nat)
        },
    decreases drops,
{
    if drops > 0 && sent < MAX_REPEATS {
        lemma_send_outcome_from(sent + 1, (drops - 1) as nat);
    }
}

/// When the transport drops the first `drops` acknowledgments of a reliable
/// send and delivers the next, the send succeeds iff `drops < MAX_REPEATS`,
/// and then `drops + 1` copies were transmitted; otherwise `MAX_REPEATS` were.
pub proof fn lemma_retry_outcome(drops: nat)
    ensures
        (send_outcome(1, drops).0 == SendStep::Delivered) <==> (drops < MAX_REPEATS),
        drops < MAX_REPEATS ==> send_outcome(1, drops).1 == drops + 1,
        drops >= MAX_REPEATS ==> send_outcome(1, drops) == (
            SendStep::Failed(MessengerError::Timeout),
            MAX_REPEATS as nat,
        ),
{
    lemma_send_outcome_from(1, drops);
}

} // verus!
