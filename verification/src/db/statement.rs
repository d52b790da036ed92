//! The statements that are put to the database, and their text.
use vstd::prelude::*;

use crate::text::char_to_string;

verus! {

/// A column of the table `data`, but for its `id`.
#[derive(Clone, Copy, Debug, PartialEq, Eq, Structural)]
pub enum Column {
    Key,
    Prefix,
    Data,
    QTxId,
    QConfirmed,
    QTxStatus,
}

/// A value that is bound to a parameter of a statement.
#[derive(Debug, PartialEq, Eq)]
pub enum Value {
    Binary(Vec<u8>),
    Text(String),
    Integer(i64),
    Null,
}

/// What a cell of the table holds.
pub enum Cell {
    Binary(Seq<u8>),
    Text(Seq<char>),
    Integer(int),
    Null,
}

impl View for Value {
    type V = Cell;

    open spec fn view(&self) -> Cell {
        match self {
            Value::Binary(bytes) => Cell::Binary(bytes@),
            Value::Text(text) => Cell::Text(text@),
            Value::Integer(n) => Cell::Integer(*n as int),
            Value::Null => Cell::Null,
        }
    }
}

/// A column with the value that a statement gives it.
#[derive(Debug, PartialEq, Eq)]
pub struct Assignment {
    pub column: Column,
    pub value: Value,
}

impl View for Assignment {
    type V = (Column, Cell);

    open spec fn view(&self) -> (Column, Cell) {
        (self.column, self.value@)
    }
}

/// A statement on the table `data`.
#[derive(Debug, PartialEq, Eq)]
pub enum Statement {
    /// Adds a row.
    Insert { row: Vec<Assignment> },
    /// Changes the row with a key.
    Update { key: Vec<u8>, changes: Vec<Assignment> },
    /// Takes out the row with a key.
    Delete { key: Vec<u8> },
    /// Asks for the data of the row with a key.
    Get { key: Vec<u8> },
    /// Asks whether there is a row with a key.
    Exists { key: Vec<u8> },
    /// Asks for the data of the rows with a prefix.
    List { prefix: String },
    /// Asks for the ids and the keys of all rows.
    Keys,
    /// Changes the key of the row with an id.
    Rekey { id: i64, key: Vec<u8> },
    /// Begins a transaction, and keeps other writers out until it ends.
    Begin,
    /// Ends a transaction, and keeps what was written in it.
    Commit,
    /// Ends a transaction, and takes back what was written in it.
    Rollback,
}

/// What a statement says.
pub enum Command {
    Insert { row: Seq<(Column, Cell)> },
    Update { key: Seq<u8>, changes: Seq<(Column, Cell)> },
    Delete { key: Seq<u8> },
    Get { key: Seq<u8> },
    Exists { key: Seq<u8> },
    List { prefix: Seq<char> },
    Keys,
    Rekey { id: int, key: Seq<u8> },
    Begin,
    Commit,
    Rollback,
}

/// What assignments say.
pub open spec fn assigned(assignments: Seq<Assignment>) -> Seq<(Column, Cell)> {
    Seq::new(assignments.len(), |i: int| assignments[i]@)
}

impl View for Statement {
    type V = Command;

    open spec fn view(&self) -> Command {
        match self {
            Statement::Insert { row } => Command::Insert { row: assigned(row@) },
            Statement::Update { key, changes } => Command::Update {
                key: key@,
                changes: assigned(changes@),
            },
            Statement::Delete { key } => Command::Delete { key: key@ },
            Statement::Get { key } => Command::Get { key: key@ },
            Statement::Exists { key } => Command::Exists { key: key@ },
            Statement::List { prefix } => Command::List { prefix: prefix@ },
            Statement::Keys => Command::Keys,
            Statement::Rekey { id, key } => Command::Rekey { id: *id as int, key: key@ },
            Statement::Begin => Command::Begin,
            Statement::Commit => Command::Commit,
            Statement::Rollback => Command::Rollback,
        }
    }
}

/// The name of a column.
pub open spec fn column_name(column: Column) -> Seq<char> {
    match column {
        Column::Key => "key"@,
        Column::Prefix => "prefix"@,
        Column::Data => "data"@,
        Column::QTxId => "q_tx_id"@,
        Column::QConfirmed => "q_confirmed"@,
        Column::QTxStatus => "q_tx_status"@,
    }
}

/// The text that stands for a parameter, of which there are less than ten. Parameters are
/// counted from 1.
pub open spec fn placeholder(n: int) -> Seq<char> {
    "?"@.push((48 + n) as char)
}

/// The names of the first columns that are assigned, with commas between.
pub open spec fn names_text(row: Seq<(Column, Cell)>, n: int) -> Seq<char>
    decreases n,
{
    if n <= 0 {
        Seq::empty()
    } else if n == 1 {
        column_name(row[0].0)
    } else {
        names_text(row, n - 1) + ", "@ + column_name(row[n - 1].0)
    }
}

/// The first parameters, with commas between.
pub open spec fn placeholders_text(n: int) -> Seq<char>
    decreases n,
{
    if n <= 0 {
        Seq::empty()
    } else if n == 1 {
        placeholder(1)
    } else {
        placeholders_text(n - 1) + ", "@ + placeholder(n)
    }
}

/// The first changes to a row, with commas between. The parameters are counted from 2: the first
/// is the key of the row.
pub open spec fn changes_text(changes: Seq<(Column, Cell)>, n: int) -> Seq<char>
    decreases n,
{
    if n <= 0 {
        Seq::empty()
    } else {
        let change = column_name(changes[n - 1].0) + " = "@ + placeholder(n + 1);
        if n == 1 {
            change
        } else {
            changes_text(changes, n - 1) + ", "@ + change
        }
    }
}

/// The text of a statement.
pub open spec fn sql_text(command: Command) -> Seq<char> {
    match command {
        Command::Insert { row } => "INSERT INTO data ("@ + names_text(row, row.len() as int)
            + ") VALUES ("@ + placeholders_text(row.len() as int) + ");"@,
        Command::Update { changes, .. } => "UPDATE data SET "@ + changes_text(
            changes,
            changes.len() as int,
        ) + " WHERE key = ?1;"@,
        Command::Delete { .. } => "DELETE FROM data WHERE key = ?1;"@,
        Command::Get { .. } => "SELECT data FROM data WHERE key = ?1 LIMIT 1;"@,
        Command::Exists { .. } => "SELECT 1 FROM data WHERE key = ?1 LIMIT 1;"@,
        Command::List { .. } => "SELECT data FROM data WHERE prefix = ?1;"@,
        Command::Keys => "SELECT id, key FROM data;"@,
        Command::Rekey { .. } => "UPDATE data SET key = ?1 WHERE id = ?2;"@,
        Command::Begin => "BEGIN IMMEDIATE;"@,
        Command::Commit => "COMMIT;"@,
        Command::Rollback => "ROLLBACK;"@,
    }
}

/// What is bound to the parameters of a statement, the first to `?1` and so on.
pub open spec fn bound_cells(command: Command) -> Seq<Cell> {
    match command {
        Command::Insert { row } => Seq::new(row.len(), |i: int| row[i].1),
        Command::Update { key, changes } => seq![Cell::Binary(key)] + Seq::new(
            changes.len(),
            |i: int| changes[i].1,
        ),
        Command::Delete { key } => seq![Cell::Binary(key)],
        Command::Get { key } => seq![Cell::Binary(key)],
        Command::Exists { key } => seq![Cell::Binary(key)],
        Command::List { prefix } => seq![Cell::Text(prefix)],
        Command::Keys => Seq::empty(),
        Command::Rekey { id, key } => seq![Cell::Binary(key), Cell::Integer(id)],
        Command::Begin => Seq::empty(),
        Command::Commit => Seq::empty(),
        Command::Rollback => Seq::empty(),
    }
}

/// What values stand for.
pub open spec fn cells(values: Seq<Value>) -> Seq<Cell> {
    Seq::new(values.len(), |i: int| values[i]@)
}

impl Column {
    /// The name of the column.
    pub fn name(&self) -> (name: &'static str)
        ensures
            name@ == column_name(*self),
    {
        match self {
            Column::Key => "key",
            Column::Prefix => "prefix",
            Column::Data => "data",
            Column::QTxId => "q_tx_id",
            Column::QConfirmed => "q_confirmed",
            Column::QTxStatus => "q_tx_status",
        }
    }
}

/// Puts a parameter at the end of a text.
fn append_placeholder(text: &mut String, n: u8)
    requires
        n < 10,
    ensures
        final(text)@ == old(text)@ + placeholder(n as int),
{
    text.append("?");
    let digit: String = char_to_string((48 + n) as char);
    text.append(digit.as_str());
    assert(text@ =~= old(text)@ + placeholder(n as int));
}

impl Statement {
    /// Whether the text can be written: a statement assigns at least one column, and no more
    /// than there are.
    pub open spec fn is_writable(&self) -> bool {
        match self {
            Statement::Insert { row } => 1 <= row@.len() <= 6,
            Statement::Update { changes, .. } => 1 <= changes@.len() <= 5,
            _ => true,
        }
    }

    /// The text of the statement.
    pub fn sql(&self) -> (text: String)
        requires
            self.is_writable(),
        ensures
            text@ == sql_text(self@),
    {
        match self {
            Statement::Insert { row } => {
                let ghost columns = assigned(row@);
                let mut text: String = "INSERT INTO data (".to_owned();
                let ghost head = text@;
                let mut i: usize = 0;
                while i < row.len()
                    invariant
                        i <= row@.len(),
                        columns == assigned(row@),
                        text@ == head + names_text(columns, i as int),
                    decreases row@.len() - i,
                {
                    if i > 0 {
                        text.append(", ");
                    }
                    text.append(row[i].column.name());
                    i = i + 1;
                    assert(text@ =~= head + names_text(columns, i as int));
                }
                text.append(") VALUES (");
                let ghost head = text@;
                let mut n: u8 = 0;
                while (n as usize) < row.len()
                    invariant
                        n <= row@.len() <= 6,
                        text@ == head + placeholders_text(n as int),
                    decreases row@.len() - n,
                {
                    if n > 0 {
                        text.append(", ");
                    }
                    n = n + 1;
                    append_placeholder(&mut text, n);
                    assert(text@ =~= head + placeholders_text(n as int));
                }
                text.append(");");
                assert(text@ =~= sql_text(self@));
                text
            },
            Statement::Update { key, changes } => {
                let ghost columns = assigned(changes@);
                let mut text: String = "UPDATE data SET ".to_owned();
                let ghost head = text@;
                let mut n: u8 = 0;
                while (n as usize) < changes.len()
                    invariant
                        n <= changes@.len() <= 5,
                        columns == assigned(changes@),
                        text@ == head + changes_text(columns, n as int),
                    decreases changes@.len() - n,
                {
                    if n > 0 {
                        text.append(", ");
                    }
                    text.append(changes[n as usize].column.name());
                    text.append(" = ");
                    append_placeholder(&mut text, n + 2);
                    n = n + 1;
                    assert(text@ =~= head + changes_text(columns, n as int));
                }
                text.append(" WHERE key = ?1;");
                assert(text@ =~= sql_text(self@));
                text
            },
            Statement::Delete { .. } => "DELETE FROM data WHERE key = ?1;".to_owned(),
            Statement::Get { .. } => "SELECT data FROM data WHERE key = ?1 LIMIT 1;".to_owned(),
            Statement::Exists { .. } => "SELECT 1 FROM data WHERE key = ?1 LIMIT 1;".to_owned(),
            Statement::List { .. } => "SELECT data FROM data WHERE prefix = ?1;".to_owned(),
            Statement::Keys => "SELECT id, key FROM data;".to_owned(),
            Statement::Rekey { .. } => "UPDATE data SET key = ?1 WHERE id = ?2;".to_owned(),
            Statement::Begin => "BEGIN IMMEDIATE;".to_owned(),
            Statement::Commit => "COMMIT;".to_owned(),
            Statement::Rollback => "ROLLBACK;".to_owned(),
        }
    }

    /// The values to bind to the parameters of the text, in order.
    pub fn into_params(self) -> (values: Vec<Value>)
        ensures
            cells(values@) == bound_cells(self@),
    {
        let mut values: Vec<Value> = Vec::new();
        match self {
            Statement::Insert { row } => {
                for a in iter: row
                    invariant
                        iter.seq() == row@,
                        values@.len() == iter.index(),
                        forall|j: int|
                            0 <= j < values@.len() ==> values@[j] == (#[trigger] row@[j]).value,
                {
                    values.push(a.value);
                }
            },
            Statement::Update { key, changes } => {
                values.push(Value::Binary(key));
                for a in iter: changes
                    invariant
                        iter.seq() == changes@,
                        values@.len() == iter.index() + 1,
                        values@[0] == Value::Binary(key),
                        forall|j: int|
                            0 <= j < values@.len() - 1 ==> values@[j + 1] == (
                            #[trigger] changes@[j]).value,
                {
                    values.push(a.value);
                }
            },
            Statement::Delete { key } => {
                values.push(Value::Binary(key));
            },
            Statement::Get { key } => {
                values.push(Value::Binary(key));
            },
            Statement::Exists { key } => {
                values.push(Value::Binary(key));
            },
            Statement::List { prefix } => {
                values.push(Value::Text(prefix));
            },
            Statement::Keys => {},
            Statement::Rekey { id, key } => {
                values.push(Value::Binary(key));
                values.push(Value::Integer(id));
            },
            Statement::Begin => {},
            Statement::Commit => {},
            Statement::Rollback => {},
        }
        assert(cells(values@) =~= bound_cells(self@));
        values
    }
}

} // verus!
