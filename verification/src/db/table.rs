//! What the statements do to the table, and what holds of that.
use vstd::prelude::*;
use vstd::utf8::{
    decode_utf8, encode_utf8, encode_utf8_decode_utf8, encode_utf8_valid_utf8,
    is_ascii_chars_encode_utf8, valid_utf8,
};

use crate::db::migration::{legacy_key_of, rewrites_of};
use crate::db::statement::{Cell, Column, Command};
use crate::db::store::{
    data_in, flag, indexed, optional, prefix_of, presence_in, put_command, Serializable, Step,
};

verus! {

/// A row of the table, but for its id.
pub struct Row {
    pub key: Cell,
    pub prefix: Cell,
    pub data: Cell,
    pub q_tx_id: Cell,
    pub q_confirmed: Cell,
    pub q_tx_status: Cell,
}

/// The table: its rows by their ids.
pub type Table = Map<int, Row>;

/// A row in which nothing is set.
pub open spec fn blank_row() -> Row {
    Row {
        key: Cell::Null,
        prefix: Cell::Null,
        data: Cell::Null,
        q_tx_id: Cell::Null,
        q_confirmed: Cell::Null,
        q_tx_status: Cell::Null,
    }
}

/// A row with one cell set.
pub open spec fn with_cell(row: Row, column: Column, cell: Cell) -> Row {
    match column {
        Column::Key => Row { key: cell, ..row },
        Column::Prefix => Row { prefix: cell, ..row },
        Column::Data => Row { data: cell, ..row },
        Column::QTxId => Row { q_tx_id: cell, ..row },
        Column::QConfirmed => Row { q_confirmed: cell, ..row },
        Column::QTxStatus => Row { q_tx_status: cell, ..row },
    }
}

/// A row with some cells set.
pub open spec fn with_cells(row: Row, cells: Seq<(Column, Cell)>) -> Row
    decreases cells.len(),
{
    if cells.len() == 0 {
        row
    } else {
        with_cell(with_cells(row, cells.drop_last()), cells.last().0, cells.last().1)
    }
}

/// The constraints on the table: no row is without a key or without data, and no two rows have
/// the same key.
pub open spec fn is_consistent(table: Table) -> bool {
    &&& forall|id: int|
        #[trigger] table.contains_key(id) ==> !(table[id].key is Null) && !(table[id].data
            is Null)
    &&& forall|id: int, other: int|
        #[trigger] table.contains_key(id) && #[trigger] table.contains_key(other)
            && table[id].key == table[other].key ==> id == other
}

/// The table as a statement would leave it, constraints aside. A row that is added gets a fresh
/// id.
pub open spec fn changed(table: Table, command: Command, fresh: int) -> Table {
    match command {
        Command::Insert { row } => table.insert(fresh, with_cells(blank_row(), row)),
        Command::Update { key, changes } => table.map_values(
            |row: Row|
                if row.key == Cell::Binary(key) {
                    with_cells(row, changes)
                } else {
                    row
                },
        ),
        Command::Delete { key } => table.remove_keys(
            Set::new(|id: int| table.contains_key(id) && table[id].key == Cell::Binary(key)),
        ),
        Command::Rekey { id, key } => if table.contains_key(id) {
            table.insert(id, Row { key: Cell::Binary(key), ..table[id] })
        } else {
            table
        },
        _ => table,
    }
}

/// The table after a statement. The statement fails, and changes nothing, where the table would
/// break a constraint.
pub open spec fn effect(table: Table, command: Command, fresh: int) -> Option<Table> {
    let new = changed(table, command, fresh);
    if is_consistent(new) {
        Some(new)
    } else {
        None
    }
}

/// Whether the row with an id is the one for a key.
pub open spec fn is_row_of(table: Table, key: Seq<u8>, id: int) -> bool {
    table.contains_key(id) && table[id].key == Cell::Binary(key)
}

/// Whether there is a row for a key: what `Command::Exists` asks.
pub open spec fn has_key(table: Table, key: Seq<u8>) -> bool {
    exists|id: int| is_row_of(table, key, id)
}

/// The row for a key.
pub open spec fn row_of(table: Table, key: Seq<u8>) -> Row {
    table[choose|id: int| is_row_of(table, key, id)]
}

/// The data for a key: what `Command::Get` asks for.
pub open spec fn lookup(table: Table, key: Seq<u8>) -> Option<Cell> {
    if has_key(table, key) {
        Some(row_of(table, key).data)
    } else {
        None
    }
}

/// Whether a step is what `Command::Get` comes to, when the database does not fail: the data for
/// the key, or the end if there is none. Data that is not text is not said to be readable.
pub open spec fn is_get_step(table: Table, key: Seq<u8>, step: Step<Option<String>>) -> bool {
    match lookup(table, key) {
        Some(Cell::Text(text)) => step matches Step::Row(Some(data)) && data@ == text,
        Some(_) => step is Row,
        None => step is Done,
    }
}

/// The step that `Command::Exists` comes to, when the database does not fail.
pub open spec fn exists_step(table: Table, key: Seq<u8>) -> Step<()> {
    if has_key(table, key) {
        Step::Row(())
    } else {
        Step::Done
    }
}

/// The ids of the rows whose data `Command::List` asks for.
pub open spec fn listed(table: Table, prefix: Seq<char>) -> Set<int> {
    Set::new(|id: int| table.contains_key(id) && table[id].prefix == Cell::Text(prefix))
}

/// The table after a record is written under a key.
pub open spec fn after_put(
    table: Table,
    key: Seq<u8>,
    value: Serializable,
    data: Seq<char>,
    fresh: int,
) -> Option<Table> {
    effect(table, put_command(key, value, data, has_key(table, key)), fresh)
}

/// A row in which the data and the columns of its own that a record has are set.
pub open spec fn with_record(row: Row, value: Serializable, data: Seq<char>) -> Row {
    match value {
        Serializable::TxLogEntry { id, confirmed, tx_type } => Row {
            data: Cell::Text(data),
            q_tx_id: Cell::Integer(id as int),
            q_confirmed: Cell::Integer(flag(confirmed)),
            q_tx_status: Cell::Text(tx_type@),
            ..row
        },
        Serializable::OutputData { tx_log_entry, status } => Row {
            data: Cell::Text(data),
            q_tx_id: optional(tx_log_entry),
            q_tx_status: Cell::Text(status@),
            ..row
        },
        Serializable::Other => Row { data: Cell::Text(data), ..row },
    }
}

/// Setting cells one more is setting the others first.
proof fn lemma_with_cells_push(row: Row, cells: Seq<(Column, Cell)>, column: Column, cell: Cell)
    ensures
        with_cells(row, cells.push((column, cell))) == with_cell(
            with_cells(row, cells),
            column,
            cell,
        ),
{
    assert(cells.push((column, cell)).drop_last() =~= cells);
}

/// What the columns of its own that a record has are set to, after others.
proof fn lemma_with_indexed(row: Row, cells: Seq<(Column, Cell)>, value: Serializable)
    ensures
        with_cells(row, cells + indexed(value)) == (match value {
            Serializable::TxLogEntry { id, confirmed, tx_type } => Row {
                q_tx_id: Cell::Integer(id as int),
                q_confirmed: Cell::Integer(flag(confirmed)),
                q_tx_status: Cell::Text(tx_type@),
                ..with_cells(row, cells)
            },
            Serializable::OutputData { tx_log_entry, status } => Row {
                q_tx_id: optional(tx_log_entry),
                q_tx_status: Cell::Text(status@),
                ..with_cells(row, cells)
            },
            Serializable::Other => with_cells(row, cells),
        }),
{
    let extra = indexed(value);
    match value {
        Serializable::TxLogEntry { id, confirmed, tx_type } => {
            let one = cells.push(extra[0]);
            let two = one.push(extra[1]);
            assert(cells + extra =~= two.push(extra[2]));
            lemma_with_cells_push(row, cells, extra[0].0, extra[0].1);
            lemma_with_cells_push(row, one, extra[1].0, extra[1].1);
            lemma_with_cells_push(row, two, extra[2].0, extra[2].1);
        },
        Serializable::OutputData { tx_log_entry, status } => {
            let one = cells.push(extra[0]);
            assert(cells + extra =~= one.push(extra[1]));
            lemma_with_cells_push(row, cells, extra[0].0, extra[0].1);
            lemma_with_cells_push(row, one, extra[1].0, extra[1].1);
        },
        Serializable::Other => {
            assert(cells + extra =~= cells);
        },
    }
}

/// What writing a record does to the row that is there.
proof fn lemma_update_row(row: Row, value: Serializable, data: Seq<char>)
    ensures
        with_cells(row, seq![(Column::Data, Cell::Text(data))] + indexed(value)) == with_record(
            row,
            value,
            data,
        ),
{
    let head = seq![(Column::Data, Cell::Text(data))];
    lemma_with_indexed(row, head, value);
    let none = Seq::<(Column, Cell)>::empty();
    assert(head =~= none.push((Column::Data, Cell::Text(data))));
    lemma_with_cells_push(row, none, Column::Data, Cell::Text(data));
}

/// What row writing a record adds.
proof fn lemma_insert_row(key: Seq<u8>, value: Serializable, data: Seq<char>)
    ensures
        with_cells(
            blank_row(),
            seq![
                (Column::Key, Cell::Binary(key)),
                (Column::Data, Cell::Text(data)),
                (Column::Prefix, Cell::Text(prefix_of(key))),
            ] + indexed(value),
        ) == with_record(
            Row {
                key: Cell::Binary(key),
                prefix: Cell::Text(prefix_of(key)),
                ..blank_row()
            },
            value,
            data,
        ),
{
    let head = seq![
        (Column::Key, Cell::Binary(key)),
        (Column::Data, Cell::Text(data)),
        (Column::Prefix, Cell::Text(prefix_of(key))),
    ];
    lemma_with_indexed(blank_row(), head, value);
    let none = Seq::<(Column, Cell)>::empty();
    let one = none.push(head[0]);
    let two = one.push(head[1]);
    assert(head =~= two.push(head[2]));
    lemma_with_cells_push(blank_row(), none, head[0].0, head[0].1);
    lemma_with_cells_push(blank_row(), one, head[1].0, head[1].1);
    lemma_with_cells_push(blank_row(), two, head[2].0, head[2].1);
}

/// In a consistent table there is one row at most for a key.
proof fn lemma_row_of(table: Table, key: Seq<u8>, id: int)
    requires
        is_consistent(table),
        is_row_of(table, key, id),
    ensures
        has_key(table, key),
        row_of(table, key) == table[id],
        lookup(table, key) == Some(table[id].data),
{
    let chosen = choose|i: int| is_row_of(table, key, i);
    assert(is_row_of(table, key, chosen));
    assert(table.contains_key(chosen) && table.contains_key(id));
}

/// What writing a record leaves: one row is new or changed, and every other row is as it was.
proof fn lemma_after_put(
    table: Table,
    key: Seq<u8>,
    value: Serializable,
    data: Seq<char>,
    fresh: int,
) -> (id: int)
    requires
        is_consistent(table),
        !table.contains_key(fresh),
    ensures
        after_put(table, key, value, data, fresh) is Some,
        ({
            let new = after_put(table, key, value, data, fresh)->0;
            &&& is_consistent(new)
            &&& is_row_of(new, key, id)
            &&& new.dom() == table.dom().insert(id)
            &&& new[id] == with_record(
                if has_key(table, key) {
                    row_of(table, key)
                } else {
                    Row {
                        key: Cell::Binary(key),
                        prefix: Cell::Text(prefix_of(key)),
                        ..blank_row()
                    }
                },
                value,
                data,
            )
            &&& forall|other: int|
                table.contains_key(other) && other != id ==> #[trigger] new[other] == table[other]
            &&& has_key(table, key) ==> is_row_of(table, key, id)
            &&& !has_key(table, key) ==> id == fresh
        }),
{
    let command = put_command(key, value, data, has_key(table, key));
    let new = changed(table, command, fresh);
    if has_key(table, key) {
        let id = choose|i: int| is_row_of(table, key, i);
        lemma_update_row(table[id], value, data);
        assert forall|other: int| table.contains_key(other) && other != id implies new[other]
            == table[other] by {
            assert(table.contains_key(id));
        }
        assert(new.dom() =~= table.dom().insert(id));
        assert(is_consistent(new)) by {
            assert forall|i: int, j: int|
                new.contains_key(i) && new.contains_key(j) && new[i].key == new[j].key implies i
                == j by {
                assert(table.contains_key(i) && table.contains_key(j));
                assert(new[i].key == table[i].key);
                assert(new[j].key == table[j].key);
            }
            assert forall|i: int| #[trigger] new.contains_key(i) implies !(new[i].key is Null)
                && !(new[i].data is Null) by {
                assert(table.contains_key(i));
            }
        }
        id
    } else {
        lemma_insert_row(key, value, data);
        assert(new[fresh].key == Cell::Binary(key));
        assert(new.dom() =~= table.dom().insert(fresh));
        assert(is_consistent(new)) by {
            assert forall|i: int, j: int|
                new.contains_key(i) && new.contains_key(j) && new[i].key == new[j].key implies i
                == j by {
                assert(i != fresh ==> table.contains_key(i) && !is_row_of(table, key, i));
                assert(j != fresh ==> table.contains_key(j) && !is_row_of(table, key, j));
            }
            assert forall|i: int| #[trigger] new.contains_key(i) implies !(new[i].key is Null)
                && !(new[i].data is Null) by {
                assert(i != fresh ==> table.contains_key(i));
            }
        }
        fresh
    }
}

/// Whether there is a key is told as it is; and where the database fails, it is not told.
pub proof fn law_presence_is_told(table: Table, key: Seq<u8>)
    ensures
        presence_in(exists_step(table, key)) == Some(has_key(table, key)),
        presence_in(Step::<()>::Failed) is None,
{
}

/// What is written under a key is read back from there, whatever was there before; and what is
/// under any other key stays.
pub proof fn law_get_returns_what_was_put(
    table: Table,
    key: Seq<u8>,
    value: Serializable,
    data: Seq<char>,
    fresh: int,
    other: Seq<u8>,
    step: Step<Option<String>>,
)
    requires
        is_consistent(table),
        key.len() > 0,
        !table.contains_key(fresh),
    ensures
        after_put(table, key, value, data, fresh) matches Some(new) && {
            &&& is_consistent(new)
            &&& presence_in(exists_step(new, key)) == Some(true)
            &&& lookup(new, key) == Some(Cell::Text(data))
            &&& is_get_step(new, key, step) ==> (data_in(step) matches Some(d) && d@ == data)
            &&& other != key ==> is_get_step(new, other, step) == is_get_step(table, other, step)
            &&& other != key ==> has_key(new, other) == has_key(table, other)
            &&& other != key ==> lookup(new, other) == lookup(table, other)
        },
{
    let id = lemma_after_put(table, key, value, data, fresh);
    let new = after_put(table, key, value, data, fresh)->0;
    lemma_row_of(new, key, id);
    if other != key {
        if has_key(table, other) {
            let o = choose|i: int| is_row_of(table, other, i);
            assert(is_row_of(table, other, o));
            assert(new.contains_key(o));
            assert(new[o] == table[o]);
            lemma_row_of(table, other, o);
            lemma_row_of(new, other, o);
        } else if has_key(new, other) {
            let o = choose|i: int| is_row_of(new, other, i);
            assert(is_row_of(new, other, o));
            assert(o != id);
            assert(table.contains_key(o));
            assert(new[o] == table[o]);
            assert(is_row_of(table, other, o));
        }
    }
}

/// The columns of its own that a record has agree with the record that was last written under
/// its key, whether or not the key was there.
pub proof fn law_put_sets_queryable_columns(
    table: Table,
    key: Seq<u8>,
    value: Serializable,
    data: Seq<char>,
    fresh: int,
)
    requires
        is_consistent(table),
        key.len() > 0,
        !table.contains_key(fresh),
    ensures
        after_put(table, key, value, data, fresh) matches Some(new) && {
            let row = row_of(new, key);
            match value {
                Serializable::TxLogEntry { id, confirmed, tx_type } => {
                    &&& row.q_tx_id == Cell::Integer(id as int)
                    &&& row.q_confirmed == Cell::Integer(flag(confirmed))
                    &&& row.q_tx_status == Cell::Text(tx_type@)
                },
                Serializable::OutputData { tx_log_entry, status } => {
                    &&& row.q_tx_id == optional(tx_log_entry)
                    &&& row.q_tx_status == Cell::Text(status@)
                },
                Serializable::Other => true,
            }
        },
{
    let id = lemma_after_put(table, key, value, data, fresh);
    lemma_row_of(after_put(table, key, value, data, fresh)->0, key, id);
}

/// What a record leaves in the table: its row holds the whole key, all of the data and, if it is
/// new, the first byte of the key as the character with that number. The columns that the record
/// has a part in hold that; in a row that was there the others, and the prefix, are as they were,
/// and in a new row nothing. Every other row is as it was.
pub proof fn law_put_writes_the_record_and_no_more(
    table: Table,
    key: Seq<u8>,
    value: Serializable,
    data: Seq<char>,
    fresh: int,
    other: int,
)
    requires
        is_consistent(table),
        key.len() > 0,
        !table.contains_key(fresh),
    ensures
        after_put(table, key, value, data, fresh) matches Some(new) && {
            let row = row_of(new, key);
            let old_row = row_of(table, key);
            let was_there = has_key(table, key);
            &&& row.key == Cell::Binary(key)
            &&& row.data == Cell::Text(data)
            &&& row.prefix == if was_there {
                old_row.prefix
            } else {
                Cell::Text(seq![key[0] as char])
            }
            &&& match value {
                Serializable::TxLogEntry { id, confirmed, tx_type } => {
                    &&& row.q_tx_id == Cell::Integer(id as int)
                    &&& row.q_confirmed == Cell::Integer(
                        if confirmed {
                            1
                        } else {
                            0
                        },
                    )
                    &&& row.q_tx_status == Cell::Text(tx_type@)
                },
                Serializable::OutputData { tx_log_entry, status } => {
                    &&& tx_log_entry matches Some(entry) ==> row.q_tx_id == Cell::Integer(
                        entry as int,
                    )
                    &&& tx_log_entry is None ==> row.q_tx_id is Null
                    &&& row.q_tx_status == Cell::Text(status@)
                    &&& was_there ==> row.q_confirmed == old_row.q_confirmed
                    &&& !was_there ==> row.q_confirmed is Null
                },
                Serializable::Other => {
                    &&& was_there ==> row.q_tx_id == old_row.q_tx_id && row.q_confirmed
                        == old_row.q_confirmed && row.q_tx_status == old_row.q_tx_status
                    &&& !was_there ==> row.q_tx_id is Null && row.q_confirmed is Null
                        && row.q_tx_status is Null
                },
            }
            &&& table.contains_key(other) && table[other].key != Cell::Binary(key)
                ==> new.contains_key(other) && new[other] == table[other]
            &&& new.contains_key(other) && !table.contains_key(other) ==> other == fresh
                && !was_there
        },
{
    let id = lemma_after_put(table, key, value, data, fresh);
    let new = after_put(table, key, value, data, fresh)->0;
    lemma_row_of(new, key, id);
    if has_key(table, key) {
        lemma_row_of(table, key, id);
    }
    assert(prefix_of(key) =~= seq![key[0] as char]);
}

/// Of two records that are written under one key, the second alone is left, but for columns
/// that only the first has a part in.
pub proof fn law_last_put_stands(
    table: Table,
    key: Seq<u8>,
    value: Serializable,
    data: Seq<char>,
    fresh: int,
    next_value: Serializable,
    next_data: Seq<char>,
    next_fresh: int,
)
    requires
        is_consistent(table),
        key.len() > 0,
        !table.contains_key(fresh),
        after_put(table, key, value, data, fresh) matches Some(new) && !new.contains_key(
            next_fresh,
        ),
    ensures
        ({
            let new = after_put(table, key, value, data, fresh)->0;
            after_put(new, key, next_value, next_data, next_fresh) matches Some(last) && {
                &&& last.dom() == new.dom()
                &&& row_of(last, key) == with_record(row_of(new, key), next_value, next_data)
                &&& lookup(last, key) == Some(Cell::Text(next_data))
            }
        }),
{
    let id = lemma_after_put(table, key, value, data, fresh);
    let new = after_put(table, key, value, data, fresh)->0;
    lemma_row_of(new, key, id);
    let next_id = lemma_after_put(new, key, next_value, next_data, next_fresh);
    let last = after_put(new, key, next_value, next_data, next_fresh)->0;
    lemma_row_of(last, key, next_id);
    lemma_row_of(new, key, next_id);
    assert(new.contains_key(next_id));
    assert(last.dom() =~= new.dom());
}

/// What is taken out under a key is not there any more; and what is under any other key stays.
pub proof fn law_delete_removes(
    table: Table,
    key: Seq<u8>,
    fresh: int,
    other: Seq<u8>,
    step: Step<Option<String>>,
)
    requires
        is_consistent(table),
    ensures
        effect(table, Command::Delete { key }, fresh) matches Some(new) && {
            &&& is_consistent(new)
            &&& presence_in(exists_step(new, key)) == Some(false)
            &&& lookup(new, key) is None
            &&& is_get_step(new, key, step) ==> data_in(step) is None
            &&& other != key ==> is_get_step(new, other, step) == is_get_step(table, other, step)
            &&& other != key ==> has_key(new, other) == has_key(table, other)
            &&& other != key ==> lookup(new, other) == lookup(table, other)
        },
{
    let new = changed(table, Command::Delete { key }, fresh);
    assert forall|i: int| #[trigger] new.contains_key(i) implies table.contains_key(i) && new[i]
        == table[i] && new[i].key != Cell::Binary(key) by {}
    assert(is_consistent(new));
    if other != key {
        if has_key(table, other) {
            let o = choose|i: int| is_row_of(table, other, i);
            assert(is_row_of(table, other, o));
            assert(is_row_of(new, other, o));
            lemma_row_of(table, other, o);
            lemma_row_of(new, other, o);
        } else if has_key(new, other) {
            let o = choose|i: int| is_row_of(new, other, i);
            assert(is_row_of(new, other, o));
            assert(is_row_of(table, other, o));
        }
    }
}

/// Whether every row that has bytes for a key has the prefix of that key.
pub open spec fn is_prefixed(table: Table) -> bool {
    forall|id: int| #[trigger]
        table.contains_key(id) ==> (table[id].key matches Cell::Binary(key) ==> table[id].prefix
            == Cell::Text(prefix_of(key)))
}

/// Writing and taking out keep the prefixes right: a record never changes its prefix.
pub proof fn law_prefixes_are_kept(
    table: Table,
    key: Seq<u8>,
    value: Serializable,
    data: Seq<char>,
    fresh: int,
)
    requires
        is_consistent(table),
        is_prefixed(table),
        key.len() > 0,
        !table.contains_key(fresh),
    ensures
        after_put(table, key, value, data, fresh) matches Some(new) && is_prefixed(new),
        effect(table, Command::Delete { key }, fresh) matches Some(new) && is_prefixed(new),
{
    let id = lemma_after_put(table, key, value, data, fresh);
    let new = after_put(table, key, value, data, fresh)->0;
    if has_key(table, key) {
        lemma_row_of(table, key, id);
    }
    assert forall|i: int| #[trigger] new.contains_key(i) implies (new[i].key matches Cell::Binary(
        k,
    ) ==> new[i].prefix == Cell::Text(prefix_of(k))) by {
        if i != id {
            assert(table.contains_key(i));
            assert(new[i] == table[i]);
        }
    }
    law_delete_removes(table, key, fresh, key, Step::Done);
    let rest = effect(table, Command::Delete { key }, fresh)->0;
    assert forall|i: int| #[trigger] rest.contains_key(i) implies (rest[i].key matches Cell::Binary(
        k,
    ) ==> rest[i].prefix == Cell::Text(prefix_of(k))) by {
        assert(table.contains_key(i));
        assert(rest[i] == table[i]);
    }
}

/// Text of one ASCII character is encoded as the one byte of that character.
proof fn lemma_ascii_prefix(byte: u8)
    requires
        byte < 128,
    ensures
        valid_utf8(seq![byte]),
        decode_utf8(seq![byte]) == seq![byte as char],
{
    let text = seq![byte as char];
    is_ascii_chars_encode_utf8(text);
    assert(encode_utf8(text) =~= seq![byte]);
    encode_utf8_valid_utf8(text);
    encode_utf8_decode_utf8(text);
}

/// Listing by one ASCII byte lists the records whose keys begin with that byte, and no others
/// that have bytes for keys.
pub proof fn law_list_is_by_first_byte(table: Table, byte: u8, key: Seq<u8>, id: int)
    requires
        is_prefixed(table),
        byte < 128,
        is_row_of(table, key, id),
    ensures
        valid_utf8(seq![byte]),
        listed(table, decode_utf8(seq![byte])).contains(id) <==> key[0] == byte,
{
    lemma_ascii_prefix(byte);
    assert(prefix_of(key)[0] == key[0] as char);
    assert(seq![byte as char][0] == byte as char);
    if key[0] != byte {
        assert(key[0] as char != byte as char);
    }
}

/// A record that is written under a new key is listed by the first byte of the key, if that is
/// ASCII.
pub proof fn law_list_finds_what_was_put(
    table: Table,
    key: Seq<u8>,
    value: Serializable,
    data: Seq<char>,
    fresh: int,
)
    requires
        is_consistent(table),
        is_prefixed(table),
        key.len() > 0,
        key[0] < 128,
        !table.contains_key(fresh),
    ensures
        after_put(table, key, value, data, fresh) matches Some(new) && exists|id: int| #[trigger]
            listed(new, decode_utf8(key.take(1))).contains(id) && new[id].data == Cell::Text(data)
            && is_row_of(new, key, id),
{
    let id = lemma_after_put(table, key, value, data, fresh);
    law_prefixes_are_kept(table, key, value, data, fresh);
    let new = after_put(table, key, value, data, fresh)->0;
    assert(key.take(1) =~= seq![key[0]]);
    law_list_is_by_first_byte(new, key[0], key, id);
    assert(listed(new, decode_utf8(key.take(1))).contains(id));
}

/// Whether rows are the ids and the keys of a table: what `Command::Keys` asks for.
pub open spec fn are_keys_of(table: Table, rows: Seq<(int, Option<Seq<char>>)>) -> bool {
    &&& forall|i: int|
        0 <= i < rows.len() ==> #[trigger] table.contains_key(rows[i].0) && rows[i].1 == (
        match table[rows[i].0].key {
            Cell::Text(text) => Some(text),
            _ => None,
        })
    &&& forall|i: int, j: int|
        0 <= i < j < rows.len() ==> (#[trigger] rows[i]).0 != (#[trigger] rows[j]).0
    &&& forall|id: int| #[trigger]
        table.contains_key(id) ==> exists|i: int|
            0 <= i < rows.len() && (#[trigger] rows[i]).0 == id
}

/// The table after keys are rewritten in turn. There is none if one of them cannot be, because
/// another row has the key already.
pub open spec fn after_rewrites(table: Table, rewrites: Seq<(int, Seq<u8>)>) -> Option<Table>
    decreases rewrites.len(),
{
    if rewrites.len() == 0 {
        Some(table)
    } else {
        match after_rewrites(table, rewrites.drop_last()) {
            Some(t) => effect(
                t,
                Command::Rekey { id: rewrites.last().0, key: rewrites.last().1 },
                0,
            ),
            None => None,
        }
    }
}

/// Whether each rewrite is of a row of its own.
pub open spec fn are_distinct(rewrites: Seq<(int, Seq<u8>)>) -> bool {
    forall|i: int, j: int|
        0 <= i < j < rewrites.len() ==> (#[trigger] rewrites[i]).0 != (#[trigger] rewrites[j]).0
}

/// What rewriting keys leaves.
proof fn lemma_after_rewrites(table: Table, rewrites: Seq<(int, Seq<u8>)>)
    requires
        is_consistent(table),
        are_distinct(rewrites),
        forall|i: int| 0 <= i < rewrites.len() ==> table.contains_key((#[trigger] rewrites[i]).0),
        after_rewrites(table, rewrites) is Some,
    ensures
        ({
            let new = after_rewrites(table, rewrites)->0;
            &&& is_consistent(new)
            &&& new.dom() == table.dom()
            &&& forall|i: int|
                0 <= i < rewrites.len() ==> new[(#[trigger] rewrites[i]).0] == (Row {
                    key: Cell::Binary(rewrites[i].1),
                    ..table[rewrites[i].0]
                })
            &&& forall|id: int|
                table.contains_key(id) && (forall|i: int|
                    0 <= i < rewrites.len() ==> (#[trigger] rewrites[i]).0 != id)
                    ==> #[trigger] new[id] == table[id]
        }),
    decreases rewrites.len(),
{
    if rewrites.len() > 0 {
        let before = rewrites.drop_last();
        assert forall|i: int, j: int| 0 <= i < j < before.len() implies (#[trigger] before[i]).0
            != (#[trigger] before[j]).0 by {
            assert(rewrites[i].0 != rewrites[j].0);
        }
        assert forall|i: int| 0 <= i < before.len() implies table.contains_key(
            (#[trigger] before[i]).0,
        ) by {
            assert(table.contains_key(rewrites[i].0));
        }
        lemma_after_rewrites(table, before);
        let mid = after_rewrites(table, before)->0;
        let new = after_rewrites(table, rewrites)->0;
        let n = rewrites.len() - 1;
        let last = rewrites[n];
        assert(last == rewrites.last());
        assert(table.contains_key(last.0));
        assert(mid.contains_key(last.0));
        assert(new.dom() =~= table.dom());
        assert forall|i: int| 0 <= i < before.len() implies (#[trigger] before[i]).0 != last.0 by {
            assert(rewrites[i].0 != rewrites[n].0);
        }
        assert(mid[last.0] == table[last.0]);
        assert forall|i: int| 0 <= i < rewrites.len() implies new[(#[trigger] rewrites[i]).0] == (
        Row { key: Cell::Binary(rewrites[i].1), ..table[rewrites[i].0] }) by {
            if i < n {
                assert(before[i] == rewrites[i]);
                assert(before[i].0 != last.0);
            }
        }
        assert forall|id: int|
            table.contains_key(id) && (forall|i: int|
                0 <= i < rewrites.len() ==> (#[trigger] rewrites[i]).0
                    != id) implies #[trigger] new[id] == table[id] by {
            assert(rewrites[n].0 != id);
            assert forall|i: int| 0 <= i < before.len() implies (#[trigger] before[i]).0 != id by {
                assert(rewrites[i].0 != id);
            }
            assert(mid[id] == table[id]);
        }
    }
}

/// Which rewrites there are for rows: one for each row whose key was kept as text.
proof fn lemma_rewrites_of(rows: Seq<(int, Option<Seq<char>>)>)
    requires
        forall|i: int, j: int|
            0 <= i < j < rows.len() ==> (#[trigger] rows[i]).0 != (#[trigger] rows[j]).0,
    ensures
        are_distinct(rewrites_of(rows)),
        forall|k: int|
            0 <= k < rewrites_of(rows).len() ==> is_rewrite_of(
                rows,
                #[trigger] rewrites_of(rows)[k],
            ),
        forall|i: int|
            0 <= i < rows.len() ==> (legacy_key_of_row(#[trigger] rows[i]) matches Some(key)
                ==> rewrites_of(rows).contains((rows[i].0, key))),
    decreases rows.len(),
{
    let rewrites = rewrites_of(rows);
    if rows.len() > 0 {
        let rest = rows.drop_last();
        let n = rows.len() - 1;
        assert forall|i: int, j: int| 0 <= i < j < rest.len() implies (#[trigger] rest[i]).0 != (
        #[trigger] rest[j]).0 by {
            assert(rows[i].0 != rows[j].0);
        }
        lemma_rewrites_of(rest);
        let before = rewrites_of(rest);
        assert forall|k: int| 0 <= k < before.len() implies is_rewrite_of(
            rows,
            #[trigger] before[k],
        ) && before[k].0 != rows[n].0 by {
            assert(is_rewrite_of(rest, before[k]));
            let i = choose|i: int|
                0 <= i < rest.len() && (#[trigger] rest[i]).0 == before[k].0 && legacy_key_of_row(
                    rest[i],
                ) == Some(before[k].1);
            assert(rows[i] == rest[i]);
            assert(rows[i].0 != rows[n].0);
        }
        match legacy_key_of_row(rows.last()) {
            Some(key) => {
                assert(rewrites == before.push((rows[n].0, key)));
                assert(is_rewrite_of(rows, (rows[n].0, key))) by {
                    assert(legacy_key_of_row(rows[n]) == Some(key));
                }
                assert forall|k: int| 0 <= k < rewrites.len() implies is_rewrite_of(
                    rows,
                    #[trigger] rewrites[k],
                ) by {
                    if k < before.len() {
                        assert(rewrites[k] == before[k]);
                    }
                }
                assert forall|i: int, j: int| 0 <= i < j < rewrites.len() implies (
                #[trigger] rewrites[i]).0 != (#[trigger] rewrites[j]).0 by {
                    assert(rewrites[i] == before[i]);
                    if j < before.len() {
                        assert(rewrites[j] == before[j]);
                    }
                }
                assert(rewrites[before.len() as int] == (rows[n].0, key));
            },
            None => {
                assert(rewrites == before);
            },
        }
        assert forall|i: int| 0 <= i < rows.len() implies (legacy_key_of_row(
            #[trigger] rows[i],
        ) matches Some(key) ==> rewrites.contains((rows[i].0, key))) by {
            if i < n && legacy_key_of_row(rows[i]) is Some {
                let key = legacy_key_of_row(rows[i])->0;
                assert(rest[i] == rows[i]);
                assert(before.contains((rest[i].0, key)));
                let k = choose|k: int| 0 <= k < before.len() && before[k] == (rest[i].0, key);
                assert(rewrites[k] == before[k]);
            }
        }
    }
}

/// The key that the text in a row was kept for, if the row has text for a key, and it was kept
/// for one.
pub open spec fn legacy_key_of_row(row: (int, Option<Seq<char>>)) -> Option<Seq<u8>> {
    match row.1 {
        Some(text) => legacy_key_of(text),
        None => None,
    }
}

/// Whether a rewrite is for one of some rows.
pub open spec fn is_rewrite_of(
    rows: Seq<(int, Option<Seq<char>>)>,
    rewrite: (int, Seq<u8>),
) -> bool {
    exists|i: int|
        0 <= i < rows.len() && (#[trigger] rows[i]).0 == rewrite.0 && legacy_key_of_row(rows[i])
            == Some(rewrite.1)
}

/// The rewrites for the rows of a table are of rows that are there.
proof fn lemma_rewrites_are_in_table(table: Table, rows: Seq<(int, Option<Seq<char>>)>)
    requires
        are_keys_of(table, rows),
    ensures
        forall|k: int|
            0 <= k < rewrites_of(rows).len() ==> table.contains_key(
                (#[trigger] rewrites_of(rows)[k]).0,
            ),
{
    let rewrites = rewrites_of(rows);
    lemma_rewrites_of(rows);
    assert forall|k: int| 0 <= k < rewrites.len() implies table.contains_key(
        (#[trigger] rewrites[k]).0,
    ) by {
        assert(is_rewrite_of(rows, rewrites[k]));
        let r = choose|r: int|
            0 <= r < rows.len() && (#[trigger] rows[r]).0 == rewrites[k].0 && legacy_key_of_row(
                rows[r],
            ) == Some(rewrites[k].1);
        assert(table.contains_key(rows[r].0));
    }
}

/// After the keys that were kept as text are rewritten, each of their rows is found by the bytes
/// of its key, and has changed in nothing but the key; all other rows are as they were; and no row
/// is left whose key was kept as text.
pub proof fn law_migrated_keys_are_found(
    table: Table,
    rows: Seq<(int, Option<Seq<char>>)>,
    i: int,
    id: int,
)
    requires
        is_consistent(table),
        are_keys_of(table, rows),
        after_rewrites(table, rewrites_of(rows)) is Some,
        0 <= i < rows.len(),
        table.contains_key(id),
    ensures
        ({
            let new = after_rewrites(table, rewrites_of(rows))->0;
            &&& is_consistent(new)
            &&& new.dom() == table.dom()
            &&& match legacy_key_of_row(rows[i]) {
                Some(key) => {
                    &&& is_row_of(new, key, rows[i].0)
                    &&& lookup(new, key) == Some(table[rows[i].0].data)
                    &&& new[rows[i].0] == (Row {
                        key: Cell::Binary(key),
                        ..table[rows[i].0]
                    })
                },
                None => new[rows[i].0] == table[rows[i].0],
            }
            &&& new[id].key matches Cell::Text(text) ==> legacy_key_of(text) is None
        }),
{
    let rewrites = rewrites_of(rows);
    lemma_rewrites_of(rows);
    lemma_rewrites_are_in_table(table, rows);
    lemma_after_rewrites(table, rewrites);
    let new = after_rewrites(table, rewrites)->0;
    lemma_row_after_rewrites(table, rows, new, i);
    if let Some(key) = legacy_key_of_row(rows[i]) {
        lemma_row_of(new, key, rows[i].0);
    }
    let r = choose|r: int| 0 <= r < rows.len() && (#[trigger] rows[r]).0 == id;
    lemma_row_after_rewrites(table, rows, new, r);
    assert(table.contains_key(rows[r].0));
}

/// Where no row has a key that was kept as text, there is nothing to rewrite.
proof fn lemma_nothing_to_rewrite(rows: Seq<(int, Option<Seq<char>>)>)
    requires
        forall|i: int| 0 <= i < rows.len() ==> legacy_key_of_row(#[trigger] rows[i]) is None,
    ensures
        rewrites_of(rows).len() == 0,
    decreases rows.len(),
{
    if rows.len() > 0 {
        let rest = rows.drop_last();
        assert forall|i: int| 0 <= i < rest.len() implies legacy_key_of_row(
            #[trigger] rest[i],
        ) is None by {
            assert(rest[i] == rows[i]);
        }
        lemma_nothing_to_rewrite(rest);
        assert(legacy_key_of_row(rows[rows.len() - 1]) is None);
    }
}

/// Opening the store on a table that is there, which rewrites the keys that were kept as text,
/// keeps all rows: each has changed in nothing but such a key, and what is under a key of bytes is
/// read as before. Opening it once more, whatever the order in which the rows are then given,
/// rewrites nothing.
pub proof fn law_opening_keeps_rows(
    table: Table,
    rows: Seq<(int, Option<Seq<char>>)>,
    id: int,
    key: Seq<u8>,
    step: Step<Option<String>>,
    rows_again: Seq<(int, Option<Seq<char>>)>,
)
    requires
        is_consistent(table),
        are_keys_of(table, rows),
        after_rewrites(table, rewrites_of(rows)) is Some,
        are_keys_of(after_rewrites(table, rewrites_of(rows))->0, rows_again),
    ensures
        ({
            let new = after_rewrites(table, rewrites_of(rows))->0;
            &&& is_consistent(new)
            &&& new.dom() == table.dom()
            &&& table.contains_key(id) ==> new[id] == (Row {
                key: match table[id].key {
                    Cell::Text(text) => match legacy_key_of(text) {
                        Some(k) => Cell::Binary(k),
                        None => table[id].key,
                    },
                    _ => table[id].key,
                },
                ..table[id]
            })
            &&& has_key(table, key) ==> has_key(new, key) && is_get_step(new, key, step)
                == is_get_step(table, key, step)
            &&& rewrites_of(rows_again) == Seq::<(int, Seq<u8>)>::empty()
            &&& after_rewrites(new, rewrites_of(rows_again)) == Some(new)
        }),
{
    let rewrites = rewrites_of(rows);
    lemma_rewrites_of(rows);
    lemma_rewrites_are_in_table(table, rows);
    lemma_after_rewrites(table, rewrites);
    let new = after_rewrites(table, rewrites)->0;
    if table.contains_key(id) {
        let r = choose|r: int| 0 <= r < rows.len() && (#[trigger] rows[r]).0 == id;
        assert(table.contains_key(rows[r].0));
        lemma_row_after_rewrites(table, rows, new, r);
    }
    if has_key(table, key) {
        let o = choose|o: int| is_row_of(table, key, o);
        assert(is_row_of(table, key, o));
        let r = choose|r: int| 0 <= r < rows.len() && (#[trigger] rows[r]).0 == o;
        assert(table.contains_key(rows[r].0));
        lemma_row_after_rewrites(table, rows, new, r);
        assert(is_row_of(new, key, o));
        lemma_row_of(table, key, o);
        lemma_row_of(new, key, o);
    }
    assert forall|i: int| 0 <= i < rows_again.len() implies legacy_key_of_row(
        #[trigger] rows_again[i],
    ) is None by {
        let o = rows_again[i].0;
        assert(new.contains_key(o));
        assert(table.contains_key(o));
        let r = choose|r: int| 0 <= r < rows.len() && (#[trigger] rows[r]).0 == o;
        law_migrated_keys_are_found(table, rows, r, o);
    }
    lemma_nothing_to_rewrite(rows_again);
    assert(rewrites_of(rows_again) =~= Seq::<(int, Seq<u8>)>::empty());
}

/// What becomes of one row when keys are rewritten.
proof fn lemma_row_after_rewrites(
    table: Table,
    rows: Seq<(int, Option<Seq<char>>)>,
    new: Table,
    i: int,
)
    requires
        is_consistent(table),
        are_keys_of(table, rows),
        after_rewrites(table, rewrites_of(rows)) == Some(new),
        0 <= i < rows.len(),
    ensures
        match legacy_key_of_row(rows[i]) {
            Some(key) => new[rows[i].0] == (Row {
                key: Cell::Binary(key),
                ..table[rows[i].0]
            }) && new.contains_key(rows[i].0),
            None => new[rows[i].0] == table[rows[i].0],
        },
{
    let rewrites = rewrites_of(rows);
    lemma_rewrites_of(rows);
    lemma_rewrites_are_in_table(table, rows);
    lemma_after_rewrites(table, rewrites);
    assert(table.contains_key(rows[i].0));
    match legacy_key_of_row(rows[i]) {
        Some(key) => {
            assert(rewrites.contains((rows[i].0, key)));
            let k = choose|k: int| 0 <= k < rewrites.len() && rewrites[k] == (rows[i].0, key);
            assert(new[rewrites[k].0] == (Row {
                key: Cell::Binary(rewrites[k].1),
                ..table[rewrites[k].0]
            }));
        },
        None => {
            assert forall|k: int| 0 <= k < rewrites.len() implies (#[trigger] rewrites[k]).0
                != rows[i].0 by {
                assert(is_rewrite_of(rows, rewrites[k]));
                let r = choose|r: int|
                    0 <= r < rows.len() && (#[trigger] rows[r]).0 == rewrites[k].0
                        && legacy_key_of_row(rows[r]) == Some(rewrites[k].1);
                if r < i {
                    assert(rows[r].0 != rows[i].0);
                } else if i < r {
                    assert(rows[i].0 != rows[r].0);
                }
            }
        },
    }
}

} // verus!
