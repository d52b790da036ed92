//! Trying a write again while another one holds the database.
use vstd::prelude::*;

verus! {

/// How many times a write is tried again.
pub const SQLITE_MAX_RETRIES: u8 = 3;

/// The code with which SQLite says that another writer holds the database.
pub const SQLITE_BUSY: isize = 5;

/// How long to wait before a write is tried again, in milliseconds.
pub const RETRY_DELAY_MILLIS: u64 = 100;

/// What came of trying a write.
#[derive(Clone, Copy, Debug, PartialEq, Eq)]
pub enum Attempt {
    Done,
    Failed { code: Option<isize> },
}

/// What to do after a write was tried.
#[derive(Clone, Copy, Debug, PartialEq, Eq)]
pub enum Decision {
    /// Leave it at that: the write is done.
    Succeed,
    /// Leave it at that: the error stands.
    GiveUp,
    /// Wait, and try again.
    TryAgain { after_millis: u64 },
}

/// Whether a write failed because of another writer.
pub open spec fn is_busy(attempt: Attempt) -> bool {
    attempt == Attempt::Failed { code: Some(SQLITE_BUSY) }
}

/// What to do after a write was tried, when it was tried again so many times before.
pub open spec fn decision(retries: int, attempt: Attempt) -> Decision {
    if attempt is Done {
        Decision::Succeed
    } else if is_busy(attempt) && retries < SQLITE_MAX_RETRIES {
        Decision::TryAgain { after_millis: RETRY_DELAY_MILLIS }
    } else {
        Decision::GiveUp
    }
}

/// The count of how many times a write was tried again.
pub struct Retry {
    retries: u8,
}

impl Retry {
    /// How many times the write was tried again.
    pub closed spec fn retries(&self) -> int {
        self.retries as int
    }

    /// Whether the write was tried again no more often than it may be.
    pub open spec fn is_valid(&self) -> bool {
        0 <= self.retries() <= SQLITE_MAX_RETRIES
    }

    /// A write that was not tried again yet.
    pub fn new() -> (retry: Retry)
        ensures
            retry.is_valid(),
            retry.retries() == 0,
    {
        Retry { retries: 0 }
    }

    /// Decides what to do after the write was tried.
    pub fn next(&mut self, attempt: Attempt) -> (next: Decision)
        requires
            old(self).is_valid(),
        ensures
            final(self).is_valid(),
            next == decision(old(self).retries(), attempt),
            final(self).retries() == old(self).retries() + if next is TryAgain {
                1int
            } else {
                0
            },
    {
        match attempt {
            Attempt::Done => Decision::Succeed,
            Attempt::Failed { code } => {
                let busy = match code {
                    Some(code) => code == SQLITE_BUSY,
                    None => false,
                };
                if !busy || self.retries >= SQLITE_MAX_RETRIES {
                    Decision::GiveUp
                } else {
                    self.retries = self.retries + 1;
                    Decision::TryAgain { after_millis: RETRY_DELAY_MILLIS }
                }
            },
        }
    }
}

/// A write is tried again if and only if the database said, with the code 5, that it is busy, and
/// it was tried again less than three times before; then after a tenth of a second. One that is
/// done succeeds, and any other failure stands.
pub proof fn law_only_a_busy_database_is_waited_for(retries: int, code: Option<isize>)
    ensures
        decision(retries, Attempt::Done) == Decision::Succeed,
        code == Some(5isize) && retries < 3 ==> decision(retries, Attempt::Failed { code }) == (
        Decision::TryAgain { after_millis: 100 }),
        code != Some(5isize) || retries >= 3 ==> decision(retries, Attempt::Failed { code })
            == Decision::GiveUp,
{
}

/// What a write comes to in the end, and how often it is tried, when trying it would come to the
/// given results in turn and it was tried again so many times before. It has come to nothing yet
/// where the results are too few to tell.
pub open spec fn outcome(retries: int, attempts: Seq<Attempt>) -> (Option<Attempt>, nat)
    decreases attempts.len(),
{
    if attempts.len() == 0 {
        (None, 0)
    } else if decision(retries, attempts[0]) is TryAgain {
        let rest = outcome(retries + 1, attempts.drop_first());
        (rest.0, rest.1 + 1)
    } else {
        (Some(attempts[0]), 1)
    }
}

/// A write is tried four times at most, and four times are enough to tell what comes of it.
pub proof fn law_writes_end(retries: int, attempts: Seq<Attempt>)
    requires
        0 <= retries <= SQLITE_MAX_RETRIES,
    ensures
        outcome(retries, attempts).1 <= SQLITE_MAX_RETRIES - retries + 1,
        attempts.len() > SQLITE_MAX_RETRIES - retries ==> outcome(retries, attempts).0 is Some,
    decreases attempts.len(),
{
    if attempts.len() > 0 && decision(retries, attempts[0]) is TryAgain {
        law_writes_end(retries + 1, attempts.drop_first());
    }
}

/// A write that is done, or that fails for another reason than another writer, after no more
/// than three failures because of one, ends in that.
pub proof fn law_busy_database_is_waited_for(retries: int, attempts: Seq<Attempt>, n: int)
    requires
        0 <= retries,
        0 <= n < attempts.len(),
        retries + n <= SQLITE_MAX_RETRIES,
        forall|i: int| 0 <= i < n ==> is_busy(#[trigger] attempts[i]),
        !is_busy(attempts[n]),
    ensures
        outcome(retries, attempts) == (Some(attempts[n]), (n + 1) as nat),
    decreases n,
{
    if n > 0 {
        let rest = attempts.drop_first();
        assert forall|i: int| 0 <= i < n - 1 implies is_busy(#[trigger] rest[i]) by {
            assert(is_busy(attempts[i + 1]));
        }
        law_busy_database_is_waited_for(retries + 1, rest, n - 1);
        assert(is_busy(attempts[0]));
    }
}

/// A write that another writer keeps out four times fails for that.
pub proof fn law_busy_database_is_given_up(attempts: Seq<Attempt>)
    requires
        attempts.len() > SQLITE_MAX_RETRIES,
        forall|i: int| 0 <= i <= SQLITE_MAX_RETRIES ==> is_busy(#[trigger] attempts[i]),
    ensures
        outcome(0, attempts).0 matches Some(attempt) && is_busy(attempt),
        outcome(0, attempts).1 == SQLITE_MAX_RETRIES + 1,
{
    reveal_with_fuel(outcome, 5);
    assert(is_busy(attempts[0]) && is_busy(attempts[1]) && is_busy(attempts[2]) && is_busy(
        attempts[3],
    ));
}

} // verus!
