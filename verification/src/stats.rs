//! Outcome accounting: one counter for acknowledged votes, one for failed
//! attempts.

use vstd::prelude::*;

verus! {

/// How one attempt ended.
#[derive(Clone, Copy, Debug, PartialEq, Eq, Structural)]
pub enum Outcome {
    /// The ciphertext was sent and the remote side began to answer.
    Acknowledged,
    /// The payload could not be encrypted.
    EncryptionFailed,
    /// Connecting, writing or waiting for the acknowledgment failed.
    TransportFailed,
}

impl Outcome {
    /// Whether the attempt counts as a delivered vote.
    pub open spec fn is_success(self) -> bool {
        self is Acknowledged
    }

    /// Executable form of [`Outcome::is_success`].
    pub fn counts_as_vote(self) -> (b: bool)
        ensures
            b == self.is_success(),
    {
        match self {
            Outcome::Acknowledged => true,
            Outcome::EncryptionFailed => false,
            Outcome::TransportFailed => false,
        }
    }
}

/// A counter value after one more event: it counts up and wraps past the
/// largest value to zero.
pub open spec fn bump(n: u64) -> u64 {
    if n == u64::MAX {
        0
    } else {
        (n + 1) as u64
    }
}

/// The two counters: every finished attempt moves exactly one of them.
#[derive(Clone, Copy, Debug, PartialEq, Eq, Structural)]
pub struct Stats {
    /// Attempts that were acknowledged.
    pub votes: u64,
    /// Attempts that failed, whatever the reason.
    pub errors: u64,
}

impl Stats {
    /// Both counters at zero.
    pub fn new() -> (stats: Stats)
        ensures
            stats.votes == 0,
            stats.errors == 0,
    {
        Stats { votes: 0, errors: 0 }
    }

    /// The counters after an attempt that ended with `outcome`.
    pub open spec fn after(self, outcome: Outcome) -> Stats {
        if outcome.is_success() {
            Stats { votes: bump(self.votes), errors: self.errors }
        } else {
            Stats { votes: self.votes, errors: bump(self.errors) }
        }
    }

    /// Number of attempts counted so far, as long as neither counter has
    /// wrapped.
    pub open spec fn total(self) -> int {
        self.votes + self.errors
    }

    /// Counts one finished attempt: an acknowledged one under `votes`, any
    /// other under `errors`. The other counter is left as it was.
    pub fn record(&mut self, outcome: Outcome)
        ensures
            *final(self) == old(self).after(outcome),
    {
        if outcome.counts_as_vote() {
            self.votes = self.votes.wrapping_add(1);
        } else {
            self.errors = self.errors.wrapping_add(1);
        }
    }
}

/// Every finished attempt is counted exactly once: one counter goes up by
/// one and the other stays, so the total goes up by one. A counter at its
/// largest value wraps instead, which is why both are required to be below
/// it.
pub proof fn lemma_record_counts_once(stats: Stats, outcome: Outcome)
    requires
        stats.votes < u64::MAX,
        stats.errors < u64::MAX,
    ensures
        stats.after(outcome).total() == stats.total() + 1,
        stats.after(outcome).votes >= stats.votes,
        stats.after(outcome).errors >= stats.errors,
        outcome.is_success() ==> stats.after(outcome).votes == stats.votes + 1
            && stats.after(outcome).errors == stats.errors,
        !outcome.is_success() ==> stats.after(outcome).errors == stats.errors + 1
            && stats.after(outcome).votes == stats.votes,
{
}

} // verus!
