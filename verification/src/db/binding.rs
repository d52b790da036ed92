//! What the text of a statement and the values that are bound in it say together.
use vstd::prelude::*;

use crate::db::statement::{
    bound_cells, cells, changes_text, column_name, names_text, placeholders_text, sql_text, Cell,
    Column, Command, Statement, Value,
};
use crate::db::store::{data_in, put_command, Serializable, Step};
use crate::db::table::{changed, is_row_of, lookup, Table};

verus! {

/// Whether two sequences of assignments are to the same columns, in the same order.
pub open spec fn are_of_same_columns(a: Seq<(Column, Cell)>, b: Seq<(Column, Cell)>) -> bool {
    a.len() == b.len() && forall|i: int| 0 <= i < a.len() ==> (#[trigger] a[i]).0 == b[i].0
}

/// Whether two statements are of the same form: they differ in nothing but values.
pub open spec fn are_of_same_form(a: Command, b: Command) -> bool {
    match (a, b) {
        (Command::Insert { row }, Command::Insert { row: other }) => are_of_same_columns(
            row,
            other,
        ),
        (Command::Update { changes, .. }, Command::Update { changes: other, .. }) =>
            are_of_same_columns(changes, other),
        (Command::Delete { .. }, Command::Delete { .. }) => true,
        (Command::Get { .. }, Command::Get { .. }) => true,
        (Command::Exists { .. }, Command::Exists { .. }) => true,
        (Command::List { .. }, Command::List { .. }) => true,
        (Command::Keys, Command::Keys) => true,
        (Command::Rekey { .. }, Command::Rekey { .. }) => true,
        (Command::Begin, Command::Begin) => true,
        (Command::Commit, Command::Commit) => true,
        (Command::Rollback, Command::Rollback) => true,
        _ => false,
    }
}

/// The names of columns depend on the columns alone.
proof fn lemma_names_hold_no_values(a: Seq<(Column, Cell)>, b: Seq<(Column, Cell)>, n: int)
    requires
        are_of_same_columns(a, b),
        n <= a.len(),
    ensures
        names_text(a, n) == names_text(b, n),
        changes_text(a, n) == changes_text(b, n),
    decreases n,
{
    if n > 0 {
        lemma_names_hold_no_values(a, b, n - 1);
        assert(a[n - 1].0 == b[n - 1].0);
        assert(a[0].0 == b[0].0);
    }
}

/// The text of a statement holds nothing of its values: whatever the keys, the data and the other
/// values are, statements of the same form have the same text.
pub proof fn law_text_holds_no_values(a: Command, b: Command)
    requires
        are_of_same_form(a, b),
    ensures
        sql_text(a) == sql_text(b),
{
    match (a, b) {
        (Command::Insert { row }, Command::Insert { row: other }) => {
            lemma_names_hold_no_values(row, other, row.len() as int);
        },
        (Command::Update { changes, .. }, Command::Update { changes: other, .. }) => {
            lemma_names_hold_no_values(changes, other, changes.len() as int);
        },
        _ => {},
    }
}

/// The values hold all that the text does not: statements of the same form that are bound to the
/// same values are the same. No part of a key or of a value is lost.
pub proof fn law_values_hold_all_else(a: Command, b: Command)
    requires
        are_of_same_form(a, b),
        bound_cells(a) == bound_cells(b),
    ensures
        a == b,
{
    match (a, b) {
        (Command::Insert { row }, Command::Insert { row: other }) => {
            assert forall|i: int| 0 <= i < row.len() implies row[i] == other[i] by {
                assert(bound_cells(a)[i] == row[i].1);
                assert(bound_cells(b)[i] == other[i].1);
                assert(row[i].0 == other[i].0);
            }
            assert(row =~= other);
        },
        (Command::Update { key, changes }, Command::Update { key: k, changes: other }) => {
            assert(bound_cells(a)[0] == Cell::Binary(key));
            assert(bound_cells(b)[0] == Cell::Binary(k));
            assert forall|i: int| 0 <= i < changes.len() implies changes[i] == other[i] by {
                assert(bound_cells(a)[i + 1] == changes[i].1);
                assert(bound_cells(b)[i + 1] == other[i].1);
                assert(changes[i].0 == other[i].0);
            }
            assert(changes =~= other);
        },
        _ => {
            if bound_cells(a).len() > 0 {
                assert(bound_cells(a)[0] == bound_cells(b)[0]);
            }
            if bound_cells(a).len() > 1 {
                assert(bound_cells(a)[1] == bound_cells(b)[1]);
            }
        },
    }
}

/// Whether a value is bytes, byte for byte the given ones.
pub open spec fn is_bytes(value: Value, bytes: Seq<u8>) -> bool {
    value matches Value::Binary(b) && b@ == bytes
}

/// Whether a value is the given text.
pub open spec fn is_text(value: Value, text: Seq<char>) -> bool {
    value matches Value::Text(t) && t@ == text
}

/// Whether a value is the given number.
pub open spec fn is_integer(value: Value, n: int) -> bool {
    value matches Value::Integer(i) && i == n
}

/// What cells stand for, one by one.
proof fn lemma_cells(values: Seq<Value>, bound: Seq<Cell>)
    requires
        cells(values) == bound,
    ensures
        values.len() == bound.len(),
        forall|i: int| 0 <= i < values.len() ==> (#[trigger] values[i])@ == bound[i],
{
    assert forall|i: int| 0 <= i < values.len() implies (#[trigger] values[i])@ == bound[i] by {
        assert(cells(values)[i] == values[i]@);
    }
}

/// Every key is bound byte for byte, and every other value as it is: in a statement that takes out,
/// asks for, looks for, changes or adds a row, and in one that lists rows or gives one a key.
pub proof fn law_keys_are_bound_whole(statement: Statement, values: Seq<Value>)
    requires
        cells(values) == bound_cells(statement@),
    ensures
        match statement {
            Statement::Delete { key } => values.len() == 1 && is_bytes(values[0], key@),
            Statement::Get { key } => values.len() == 1 && is_bytes(values[0], key@),
            Statement::Exists { key } => values.len() == 1 && is_bytes(values[0], key@),
            Statement::List { prefix } => values.len() == 1 && is_text(values[0], prefix@),
            Statement::Update { key, changes } => {
                &&& values.len() == changes@.len() + 1
                &&& is_bytes(values[0], key@)
                &&& forall|i: int|
                    0 <= i < changes@.len() ==> values[i + 1]@ == (#[trigger] changes@[i]).value@
            },
            Statement::Insert { row } => {
                &&& values.len() == row@.len()
                &&& forall|i: int|
                    0 <= i < row@.len() ==> values[i]@ == (#[trigger] row@[i]).value@
            },
            Statement::Rekey { id, key } => {
                &&& values.len() == 2
                &&& is_bytes(values[0], key@)
                &&& is_integer(values[1], id as int)
            },
            _ => values.len() == 0,
        },
{
    let bound = bound_cells(statement@);
    lemma_cells(values, bound);
    if values.len() > 0 {
        assert(values[0]@ == bound[0]);
    }
    if values.len() > 1 {
        assert(values[1]@ == bound[1]);
    }
    match statement {
        Statement::Update { key, changes } => {
            assert forall|i: int| 0 <= i < changes@.len() implies values[i + 1]@ == (
            #[trigger] changes@[i]).value@ by {
                assert(values[i + 1]@ == bound[i + 1]);
            }
        },
        Statement::Insert { row } => {
            assert forall|i: int| 0 <= i < row@.len() implies values[i]@ == (
            #[trigger] row@[i]).value@ by {
                assert(values[i]@ == bound[i]);
            }
        },
        _ => {},
    }
}

/// Whether a value is the number that may be missing: the number, or nothing.
pub open spec fn is_optional(value: Value, n: Option<u32>) -> bool {
    match n {
        Some(n) => is_integer(value, n as int),
        None => value == Value::Null,
    }
}

/// A record is bound as it is: the whole key first, then all of its data. A new row also gets the
/// first byte of the key, as the character with that number, and then what the record has columns
/// for; a row that is there gets that at once. Nothing more is bound.
pub proof fn law_records_are_bound_whole(
    key: Seq<u8>,
    value: Serializable,
    data: Seq<char>,
    present: bool,
    values: Seq<Value>,
)
    requires
        key.len() > 0,
        cells(values) == bound_cells(put_command(key, value, data, present)),
    ensures
        ({
            let n: int = if present {
                2
            } else {
                3
            };
            &&& values.len() >= n
            &&& is_bytes(values[0], key)
            &&& is_text(values[1], data)
            &&& !present ==> is_text(values[2], seq![key[0] as char])
            &&& match value {
                Serializable::TxLogEntry { id, confirmed, tx_type } => {
                    &&& values.len() == n + 3
                    &&& is_integer(values[n], id as int)
                    &&& confirmed ==> is_integer(values[n + 1], 1)
                    &&& !confirmed ==> is_integer(values[n + 1], 0)
                    &&& is_text(values[n + 2], tx_type@)
                },
                Serializable::OutputData { tx_log_entry, status } => {
                    &&& values.len() == n + 2
                    &&& is_optional(values[n], tx_log_entry)
                    &&& is_text(values[n + 1], status@)
                },
                Serializable::Other => values.len() == n,
            }
        }),
{
    let bound = bound_cells(put_command(key, value, data, present));
    lemma_cells(values, bound);
    assert(values[0]@ == bound[0]);
    assert(values[1]@ == bound[1]);
    if values.len() > 2 {
        assert(values[2]@ == bound[2]);
    }
    if values.len() > 3 {
        assert(values[3]@ == bound[3]);
    }
    if values.len() > 4 {
        assert(values[4]@ == bound[4]);
    }
    if values.len() > 5 {
        assert(values[5]@ == bound[5]);
    }
    assert(prefix_is_first(key));
}

/// Whether the prefix of a key is its first byte, as the character with that number.
spec fn prefix_is_first(key: Seq<u8>) -> bool {
    crate::db::store::prefix_of(key) =~= seq![key[0] as char]
}

/// The columns that a record is written to are those that it has: a new row gets its key, data and
/// prefix and then the columns of the record; a row that is there gets its data and then those.
pub proof fn law_records_have_their_columns(
    key: Seq<u8>,
    value: Serializable,
    data: Seq<char>,
    present: bool,
)
    ensures
        ({
            let columns = match put_command(key, value, data, present) {
                Command::Insert { row } => row,
                Command::Update { changes, .. } => changes,
                _ => seq![],
            };
            let n: int = if present {
                1
            } else {
                3
            };
            &&& put_command(key, value, data, present) is Update <==> present
            &&& put_command(key, value, data, present) is Insert <==> !present
            &&& present ==> columns[0].0 == Column::Data
            &&& !present ==> columns[0].0 == Column::Key && columns[1].0 == Column::Data
                && columns[2].0 == Column::Prefix
            &&& value is TxLogEntry ==> columns.len() == n + 3 && columns[n].0 == Column::QTxId
                && columns[n + 1].0 == Column::QConfirmed && columns[n + 2].0 == Column::QTxStatus
            &&& value is OutputData ==> columns.len() == n + 2 && columns[n].0 == Column::QTxId
                && columns[n + 1].0 == Column::QTxStatus
            &&& value is Other ==> columns.len() == n
        }),
{
}

/// What is put to the database does what the statement is for. With the values that are bound: the
/// rows that are taken out are those whose key is the first value, and no others; the row that is
/// changed is one whose key is the first value; what is read is under the first value; and the row
/// whose number is the second value gets the first for its key.
pub proof fn law_bound_values_have_the_effect(
    table: Table,
    statement: Statement,
    values: Seq<Value>,
    fresh: int,
    id: int,
)
    requires
        cells(values) == bound_cells(statement@),
    ensures
        ({
            let new = changed(table, statement@, fresh);
            match statement {
                Statement::Delete { .. } => {
                    &&& new.contains_key(id) <==> table.contains_key(id) && table[id].key
                        != values[0]@
                    &&& new.contains_key(id) ==> new[id] == table[id]
                },
                Statement::Update { .. } => {
                    &&& new.contains_key(id) <==> table.contains_key(id)
                    &&& table.contains_key(id) && table[id].key != values[0]@ ==> new[id]
                        == table[id]
                },
                Statement::Get { key } => {
                    &&& new == table
                    &&& is_row_of(table, key@, id) <==> table.contains_key(id) && table[id].key
                        == values[0]@
                },
                Statement::Exists { key } => {
                    &&& new == table
                    &&& is_row_of(table, key@, id) <==> table.contains_key(id) && table[id].key
                        == values[0]@
                },
                Statement::Rekey { .. } => {
                    &&& new.contains_key(id) <==> table.contains_key(id)
                    &&& table.contains_key(id) ==> if values[1]@ == Cell::Integer(id) {
                        new[id].key == values[0]@ && new[id].data == table[id].data
                    } else {
                        new[id] == table[id]
                    }
                },
                Statement::Insert { .. } => {
                    &&& new.contains_key(id) <==> table.contains_key(id) || id == fresh
                    &&& table.contains_key(id) && id != fresh ==> new[id] == table[id]
                },
                _ => new == table,
            }
        }),
{
    let bound = bound_cells(statement@);
    lemma_cells(values, bound);
    if values.len() > 0 {
        assert(values[0]@ == bound[0]);
    }
    if values.len() > 1 {
        assert(values[1]@ == bound[1]);
    }
}

/// The text of a statement that adds a row names its columns and as many parameters, and that of
/// one that changes a row its columns with a parameter each, the first being left for the key. One
/// column more adds its name, and the next parameter.
pub proof fn law_text_names_each_column(
    row: Seq<(Column, Cell)>,
    key: Seq<u8>,
    column: Column,
    cell: Cell,
)
    requires
        0 < row.len() < 9,
    ensures
        ({
            let n = row.len() as int;
            let more = row.push((column, cell));
            &&& sql_text(Command::Insert { row }) == "INSERT INTO data ("@ + names_text(row, n)
                + ") VALUES ("@ + placeholders_text(n) + ");"@
            &&& sql_text(Command::Update { key, changes: row }) == "UPDATE data SET "@
                + changes_text(row, n) + " WHERE key = ?1;"@
            &&& names_text(row, 1) == column_name(row[0].0)
            &&& names_text(more, n + 1) == names_text(row, n) + ", "@ + column_name(column)
            &&& placeholders_text(1) == "?"@.push('1')
            &&& placeholders_text(n + 1) == placeholders_text(n) + ", "@ + "?"@.push(
                (49 + n) as char,
            )
            &&& changes_text(row, 1) == column_name(row[0].0) + " = "@ + "?"@.push('2')
            &&& changes_text(more, n + 1) == changes_text(row, n) + ", "@ + (column_name(column)
                + " = "@ + "?"@.push((50 + n) as char))
        }),
{
    let n = row.len() as int;
    let more = row.push((column, cell));
    lemma_names_of_first(row, more, n);
    reveal_with_fuel(names_text, 2);
    reveal_with_fuel(changes_text, 2);
    reveal_with_fuel(placeholders_text, 2);
    assert(more[n] == (column, cell));
}

/// The names of the first columns do not depend on what follows.
proof fn lemma_names_of_first(a: Seq<(Column, Cell)>, b: Seq<(Column, Cell)>, n: int)
    requires
        n <= a.len() <= b.len(),
        forall|i: int| 0 <= i < a.len() ==> #[trigger] a[i] == b[i],
    ensures
        names_text(a, n) == names_text(b, n),
        changes_text(a, n) == changes_text(b, n),
    decreases n,
{
    if n > 0 {
        lemma_names_of_first(a, b, n - 1);
        assert(a[n - 1] == b[n - 1]);
        assert(a[0] == b[0]);
    }
}

/// Data that is read is handed on as it is, and there is none without a row.
pub proof fn law_data_is_handed_on(data: String)
    ensures
        data_in(Step::Row(Some(data))) == Some(data),
        data_in(Step::Row(None)) is None,
        data_in(Step::Done) is None,
        data_in(Step::Failed) is None,
{
}

} // verus!
