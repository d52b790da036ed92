//! Batches: writes that are kept all together, or not at all.
use vstd::prelude::*;

use crate::db::statement::{Command, Statement};

verus! {

/// How far a batch has come.
#[derive(Clone, Copy, Debug, PartialEq, Eq)]
pub enum Phase {
    /// Nothing was written in it.
    Fresh,
    /// It was begun, and all that was written in it was done.
    Open,
    /// A write in it failed, or it was ended.
    Over,
}

/// Whether a batch takes another write.
#[derive(Clone, Copy, Debug, PartialEq, Eq)]
pub enum Admission {
    /// It does, once it was begun.
    First,
    /// It does.
    Later,
    /// It does not, because it is over.
    Refused,
}

/// Whether a batch that has come so far takes another write.
pub open spec fn admission(phase: Phase) -> Admission {
    match phase {
        Phase::Fresh => Admission::First,
        Phase::Open => Admission::Later,
        Phase::Over => Admission::Refused,
    }
}

/// How far a batch has come when a step of it was done, or was not.
pub open spec fn after_step(done: bool) -> Phase {
    if done {
        Phase::Open
    } else {
        Phase::Over
    }
}

/// The statement that ends a batch: one that failed is taken back.
pub open spec fn end_command(failed: bool) -> Command {
    if failed {
        Command::Rollback
    } else {
        Command::Commit
    }
}

/// The statement that ends a batch that has come so far, if there is something to end.
pub open spec fn ending(phase: Phase, failed: bool) -> Option<Command> {
    if phase is Open {
        Some(end_command(failed))
    } else {
        None
    }
}

/// What a statement says, if there is one.
pub open spec fn viewed(statement: Option<Statement>) -> Option<Command> {
    match statement {
        Some(s) => Some(s@),
        None => None,
    }
}

/// The writing side of the store: a batch of writes that are kept all together, or not at all. It
/// begins with the first write. The first write that fails takes back the ones before it, and
/// those after it are refused.
pub struct Batch {
    phase: Phase,
}

impl Batch {
    /// How far the batch has come.
    pub closed spec fn phase(&self) -> Phase {
        self.phase
    }

    /// A batch in which nothing was written yet.
    pub fn new() -> (batch: Batch)
        ensures
            batch.phase() == Phase::Fresh,
    {
        Batch { phase: Phase::Fresh }
    }

    /// The statement that begins a batch.
    pub fn begin() -> (statement: Statement)
        ensures
            statement@ == Command::Begin,
            statement.is_writable(),
    {
        Statement::Begin
    }

    /// The statement that ends a batch: one that failed is taken back.
    pub fn end(failed: bool) -> (statement: Statement)
        ensures
            statement@ == end_command(failed),
            statement.is_writable(),
    {
        if failed {
            Statement::Rollback
        } else {
            Statement::Commit
        }
    }

    /// Whether the batch takes another write.
    pub fn next_write(&self) -> (next: Admission)
        ensures
            next == admission(self.phase()),
    {
        match self.phase {
            Phase::Fresh => Admission::First,
            Phase::Open => Admission::Later,
            Phase::Over => Admission::Refused,
        }
    }

    /// Notes whether the batch could be begun.
    pub fn begun(&mut self, done: bool)
        requires
            old(self).phase() is Fresh,
        ensures
            final(self).phase() == after_step(done),
    {
        self.phase = if done {
            Phase::Open
        } else {
            Phase::Over
        };
    }

    /// Notes whether a write in the batch was done. If it was not, the result is the statement
    /// that takes back the writes before it.
    pub fn written(&mut self, done: bool) -> (statement: Option<Statement>)
        requires
            old(self).phase() is Open,
        ensures
            final(self).phase() == after_step(done),
            viewed(statement) == if done {
                None
            } else {
                ending(old(self).phase(), true)
            },
            statement matches Some(s) ==> s.is_writable(),
    {
        if done {
            None
        } else {
            self.phase = Phase::Over;
            Some(Batch::end(true))
        }
    }

    /// Ends the batch. The result is the statement that does so, if there is something to end: it
    /// keeps what was written, or takes it back if the batch is given up.
    pub fn finish(&mut self, given_up: bool) -> (statement: Option<Statement>)
        ensures
            final(self).phase() is Over,
            viewed(statement) == ending(old(self).phase(), given_up),
            statement matches Some(s) ==> s.is_writable(),
    {
        let statement = match self.phase {
            Phase::Open => Some(Batch::end(given_up)),
            _ => None,
        };
        self.phase = Phase::Over;
        statement
    }
}

} // verus!
