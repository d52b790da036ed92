//! What a batch does to the table: all of its writes, or nothing.
use vstd::prelude::*;

use crate::db::batch::{admission, after_step, end_command, ending, Admission, Phase};
use crate::db::statement::{Cell, Command};
use crate::db::store::{data_in, put_command, Serializable, Step};
use crate::db::table::{
    after_put, effect, has_key, is_consistent, is_get_step, law_get_returns_what_was_put, lookup,
    Table,
};

verus! {

/// The database: the table, and while a transaction goes on the table as it was before.
pub struct Database {
    pub table: Table,
    pub saved: Option<Table>,
}

/// The database with the given table, in which no transaction goes on.
pub open spec fn at_rest(table: Table) -> Database {
    Database { table, saved: None }
}

/// The database after a statement. The statement fails, and changes nothing, where a transaction
/// would begin in another one, where there is none to end, or where the table would break a
/// constraint.
pub open spec fn performed(db: Database, command: Command, fresh: int) -> Option<Database> {
    match command {
        Command::Begin => match db.saved {
            Some(_) => None,
            None => Some(Database { saved: Some(db.table), ..db }),
        },
        Command::Commit => match db.saved {
            Some(_) => Some(at_rest(db.table)),
            None => None,
        },
        Command::Rollback => match db.saved {
            Some(table) => Some(at_rest(table)),
            None => None,
        },
        _ => match effect(db.table, command, fresh) {
            Some(table) => Some(Database { table, ..db }),
            None => None,
        },
    }
}

/// Whether a statement is a write of a batch.
pub open spec fn is_write(command: Command) -> bool {
    command is Insert || command is Update || command is Delete
}

/// The table after writes in turn. There is none if one of them fails.
pub open spec fn in_turn(table: Table, commands: Seq<Command>, fresh: Seq<int>) -> Option<Table>
    decreases commands.len(),
{
    if commands.len() == 0 {
        Some(table)
    } else {
        match in_turn(table, commands.drop_last(), fresh) {
            Some(t) => effect(t, commands.last(), fresh[commands.len() - 1]),
            None => None,
        }
    }
}

/// The table after a batch of writes: after all of them in turn, or as it was if one of them
/// fails.
pub open spec fn after_batch(table: Table, commands: Seq<Command>, fresh: Seq<int>) -> Table {
    match in_turn(table, commands, fresh) {
        Some(t) => t,
        None => table,
    }
}

/// What a statement comes to, which the database may also fail to carry out for reasons of its
/// own.
pub open spec fn attempted(
    db: Database,
    command: Command,
    fresh: int,
    works: bool,
) -> Option<Database> {
    if works {
        performed(db, command, fresh)
    } else {
        None
    }
}

/// The database after a write in a batch, and how far the batch has come then. The batch is begun
/// if it must be; a write that fails takes back the ones before it; and a batch that is over
/// leaves the database alone.
pub open spec fn run_write(
    db: Database,
    phase: Phase,
    command: Command,
    fresh: int,
    begins: bool,
    works: bool,
) -> (Database, Phase) {
    let begun = match admission(phase) {
        Admission::First => attempted(db, Command::Begin, fresh, begins),
        Admission::Later => Some(db),
        Admission::Refused => None,
    };
    match begun {
        None => (db, after_step(false)),
        Some(open) => match attempted(open, command, fresh, works) {
            Some(new) => (new, after_step(true)),
            None => (
                match performed(open, end_command(true), fresh) {
                    Some(back) => back,
                    None => open,
                },
                after_step(false),
            ),
        },
    }
}

/// The database after some writes in a batch, and how far the batch has come then.
pub open spec fn run_writes(
    db: Database,
    commands: Seq<Command>,
    fresh: Seq<int>,
    begins: bool,
    works: Seq<bool>,
) -> (Database, Phase)
    decreases commands.len(),
{
    if commands.len() == 0 {
        (db, Phase::Fresh)
    } else {
        let n = commands.len() - 1;
        let before = run_writes(db, commands.drop_last(), fresh, begins, works);
        run_write(before.0, before.1, commands[n], fresh[n], begins, works[n])
    }
}

/// The database after a batch is ended. A batch that cannot be kept is taken back.
pub open spec fn run_end(db: Database, phase: Phase, given_up: bool, ends: bool) -> Database {
    match ending(phase, given_up) {
        None => db,
        Some(end) => match attempted(db, end, 0, ends) {
            Some(new) => new,
            None => match performed(db, end_command(true), 0) {
                Some(back) => back,
                None => db,
            },
        },
    }
}

/// The database after a batch, from its first write to its end.
pub open spec fn run_batch(
    db: Database,
    commands: Seq<Command>,
    fresh: Seq<int>,
    begins: bool,
    works: Seq<bool>,
    given_up: bool,
    ends: bool,
) -> Database {
    let written = run_writes(db, commands, fresh, begins, works);
    run_end(written.0, written.1, given_up, ends)
}

/// Whether each of the first writes in a batch is carried out.
pub open spec fn all_work(works: Seq<bool>, n: int) -> bool {
    forall|i: int| 0 <= i < n ==> #[trigger] works[i]
}

/// If a write fails, so do the writes up to any later place.
proof fn lemma_in_turn_fails(
    table: Table,
    commands: Seq<Command>,
    fresh: Seq<int>,
    i: int,
)
    requires
        0 <= i < commands.len(),
        in_turn(table, commands.take(i), fresh) matches Some(t) && effect(
            t,
            commands[i],
            fresh[i],
        ) is None,
    ensures
        in_turn(table, commands, fresh) is None,
    decreases commands.len(),
{
    let rest = commands.drop_last();
    if i == commands.len() - 1 {
        assert(commands.take(i) =~= rest);
    } else {
        assert(rest.take(i) =~= commands.take(i));
        lemma_in_turn_fails(table, rest, fresh, i);
    }
}

/// Of a batch of which one write fails, nothing is kept: the table is as it was.
pub proof fn law_failed_batch_keeps_nothing(
    table: Table,
    commands: Seq<Command>,
    fresh: Seq<int>,
    i: int,
)
    requires
        0 <= i < commands.len(),
        in_turn(table, commands.take(i), fresh) matches Some(t) && effect(
            t,
            commands[i],
            fresh[i],
        ) is None,
    ensures
        after_batch(table, commands, fresh) == table,
{
    lemma_in_turn_fails(table, commands, fresh, i);
}

/// What some writes in a batch come to: a transaction in which all of them are done, or the
/// database as it was.
proof fn lemma_run_writes(
    table: Table,
    commands: Seq<Command>,
    fresh: Seq<int>,
    begins: bool,
    works: Seq<bool>,
)
    requires
        forall|i: int| 0 <= i < commands.len() ==> is_write(#[trigger] commands[i]),
    ensures
        run_writes(at_rest(table), commands, fresh, begins, works) == (if commands.len() == 0 {
            (at_rest(table), Phase::Fresh)
        } else {
            match in_turn(table, commands, fresh) {
                Some(t) if begins && all_work(works, commands.len() as int) => (
                    Database { table: t, saved: Some(table) },
                    Phase::Open,
                ),
                _ => (at_rest(table), Phase::Over),
            }
        }),
    decreases commands.len(),
{
    if commands.len() > 0 {
        let n = commands.len() - 1;
        let rest = commands.drop_last();
        assert forall|i: int| 0 <= i < rest.len() implies is_write(#[trigger] rest[i]) by {
            assert(is_write(commands[i]));
        }
        lemma_run_writes(table, rest, fresh, begins, works);
        assert(is_write(commands[n]));
        assert(all_work(works, n + 1) == (all_work(works, n) && works[n])) by {
            if all_work(works, n) && works[n] {
                assert forall|i: int| 0 <= i < n + 1 implies #[trigger] works[i] by {
                    if i < n {
                        assert(works[i]);
                    }
                }
            }
        }
    }
}

/// The writes of a batch are kept all together, or not at all. Whichever of its steps the
/// database fails to carry out, it ends with no transaction left over, and with the table either
/// after all of the writes or as it was; and it is as it was wherever a write failed, or the
/// batch could not be begun or kept, or was given up.
pub proof fn law_batches_are_atomic(
    table: Table,
    commands: Seq<Command>,
    fresh: Seq<int>,
    begins: bool,
    works: Seq<bool>,
    given_up: bool,
    ends: bool,
)
    requires
        forall|i: int| 0 <= i < commands.len() ==> is_write(#[trigger] commands[i]),
    ensures
        run_batch(at_rest(table), commands, fresh, begins, works, given_up, ends) == at_rest(
            if begins && all_work(works, commands.len() as int) && !given_up && ends {
                after_batch(table, commands, fresh)
            } else {
                table
            },
        ),
{
    lemma_run_writes(table, commands, fresh, begins, works);
}

/// As soon as a write of a batch failed, nothing of the batch is there: under each key is what
/// was there before the batch, whatever else is written in it.
pub proof fn law_failed_write_takes_back_the_batch(
    table: Table,
    commands: Seq<Command>,
    fresh: Seq<int>,
    begins: bool,
    works: Seq<bool>,
    failed: int,
    key: Seq<u8>,
    step: Step<Option<String>>,
)
    requires
        forall|i: int| 0 <= i < commands.len() ==> is_write(#[trigger] commands[i]),
        0 <= failed < commands.len(),
        !works[failed],
        is_get_step(
            run_writes(at_rest(table), commands, fresh, begins, works).0.table,
            key,
            step,
        ),
    ensures
        run_writes(at_rest(table), commands, fresh, begins, works) == (
            at_rest(table),
            Phase::Over,
        ),
        is_get_step(table, key, step),
        !has_key(table, key) ==> data_in(step) is None,
{
    lemma_run_writes(table, commands, fresh, begins, works);
    assert(!all_work(works, commands.len() as int));
}

/// What is written last in a batch, after other writes, is read back once the batch is kept.
pub proof fn law_kept_batch_is_read_back(
    table: Table,
    before: Seq<Command>,
    fresh: Seq<int>,
    key: Seq<u8>,
    value: Serializable,
    data: Seq<char>,
    step: Step<Option<String>>,
)
    requires
        is_consistent(table),
        key.len() > 0,
        in_turn(table, before, fresh) matches Some(t) && !t.contains_key(
            fresh[before.len() as int],
        ),
        ({
            let present = has_key(in_turn(table, before, fresh)->0, key);
            is_get_step(
                after_batch(
                    table,
                    before.push(put_command(key, value, data, present)),
                    fresh,
                ),
                key,
                step,
            )
        }),
    ensures
        data_in(step) matches Some(d) && d@ == data,
{
    let mid = in_turn(table, before, fresh)->0;
    let put = put_command(key, value, data, has_key(mid, key));
    let commands = before.push(put);
    assert(commands.drop_last() =~= before);
    lemma_in_turn_is_consistent(table, before, fresh);
    let id = fresh[before.len() as int];
    assert(in_turn(table, commands, fresh) == after_put(mid, key, value, data, id));
    law_get_returns_what_was_put(mid, key, value, data, id, key, step);
}

/// Writes leave the table consistent.
proof fn lemma_in_turn_is_consistent(table: Table, commands: Seq<Command>, fresh: Seq<int>)
    requires
        is_consistent(table),
    ensures
        in_turn(table, commands, fresh) matches Some(t) ==> is_consistent(t),
{
}

} // verus!
