//! What the store asks of the database, and what it makes of the answers.
use vstd::prelude::*;
use vstd::utf8::{decode_utf8, valid_utf8};

use crate::db::batch::Batch;
use crate::db::statement::{assigned, Assignment, Cell, Column, Command, Statement, Value};
use crate::text::char_to_string;

verus! {

/// The file that holds the database, in the directory of the wallet.
pub const SQLITE_FILENAME: &'static str = "epic.db";

/// Makes the table and its indexes where they are not there yet, and sets the database up for
/// more than one thread: writes go to a log that is synced when it must be, and that is cut back
/// now.
pub const CREATION: &'static str = "
CREATE TABLE IF NOT EXISTS data (
    id INTEGER PRIMARY KEY,
    key BLOB NOT NULL UNIQUE,
    prefix TEXT,
    data TEXT NOT NULL,
    q_tx_id INTEGER,
    q_confirmed INTEGER,
    q_tx_status TEXT);

CREATE INDEX IF NOT EXISTS prefix_index ON data (prefix);
CREATE INDEX IF NOT EXISTS q_tx_id_index ON data (q_tx_id);
CREATE INDEX IF NOT EXISTS q_confirmed_index ON data (q_confirmed);
CREATE INDEX IF NOT EXISTS q_tx_status_index ON data (q_tx_status);

PRAGMA journal_mode=WAL;
PRAGMA synchronous=NORMAL;
PRAGMA wal_checkpoint(TRUNCATE);
";

/// What of a record goes into columns of its own, besides its key and its data.
#[derive(Debug, PartialEq, Eq)]
pub enum Serializable {
    /// An entry of the transaction log: its id, whether it is confirmed, its kind as text.
    TxLogEntry { id: u32, confirmed: bool, tx_type: String },
    /// An output: the entry of the transaction log that it belongs to, and its status as text.
    OutputData { tx_log_entry: Option<u32>, status: String },
    /// Any other record, of which nothing does.
    Other,
}

/// What a step of a query comes to.
#[derive(Debug, PartialEq, Eq)]
pub enum Step<T> {
    /// There is a row.
    Row(T),
    /// There are no more rows.
    Done,
    /// The database gave an error.
    Failed,
}

/// `String::from_utf8` of std: the text that the bytes encode, if they encode one.
#[verifier::external_body]
fn string_from_utf8(bytes: &[u8]) -> (text: Option<String>)
    ensures
        text is Some <==> valid_utf8(bytes@),
        text matches Some(t) ==> t@ == decode_utf8(bytes@),
{
    String::from_utf8(bytes.to_vec()).ok()
}

/// The bytes of a slice in a vector.
fn to_vec(bytes: &[u8]) -> (copy: Vec<u8>)
    ensures
        copy@ == bytes@,
{
    let mut copy: Vec<u8> = Vec::new();
    copy.extend_from_slice(bytes);
    assert(copy@ =~= bytes@);
    copy
}

/// The prefix of a key: its first byte, as the character with that number.
pub open spec fn prefix_of(key: Seq<u8>) -> Seq<char> {
    seq![key[0] as char]
}

/// A flag as a number.
pub open spec fn flag(b: bool) -> int {
    if b {
        1
    } else {
        0
    }
}

/// A number that may be missing, as what a cell holds.
pub open spec fn optional(n: Option<u32>) -> Cell {
    match n {
        Some(n) => Cell::Integer(n as int),
        None => Cell::Null,
    }
}

/// What goes into the columns of its own that a record has.
pub open spec fn indexed(value: Serializable) -> Seq<(Column, Cell)> {
    match value {
        Serializable::TxLogEntry { id, confirmed, tx_type } => seq![
            (Column::QTxId, Cell::Integer(id as int)),
            (Column::QConfirmed, Cell::Integer(flag(confirmed))),
            (Column::QTxStatus, Cell::Text(tx_type@)),
        ],
        Serializable::OutputData { tx_log_entry, status } => seq![
            (Column::QTxId, optional(tx_log_entry)),
            (Column::QTxStatus, Cell::Text(status@)),
        ],
        Serializable::Other => seq![],
    }
}

/// The statement that writes a record. It adds a row where there is none with the key. Where
/// there is one it changes the data and the columns that the record has a part in, and leaves
/// the other columns alone.
pub open spec fn put_command(
    key: Seq<u8>,
    value: Serializable,
    data: Seq<char>,
    present: bool,
) -> Command {
    if present {
        Command::Update { key, changes: seq![(Column::Data, Cell::Text(data))] + indexed(value) }
    } else {
        Command::Insert {
            row: seq![
                (Column::Key, Cell::Binary(key)),
                (Column::Data, Cell::Text(data)),
                (Column::Prefix, Cell::Text(prefix_of(key))),
            ] + indexed(value),
        }
    }
}

/// The assignment of what goes into the columns of its own that a record has, at the end of
/// other assignments.
fn push_indexed(assignments: &mut Vec<Assignment>, value: &Serializable)
    ensures
        assigned(final(assignments)@) == assigned(old(assignments)@) + indexed(*value),
{
    match value {
        Serializable::TxLogEntry { id, confirmed, tx_type } => {
            assignments.push(
                Assignment { column: Column::QTxId, value: Value::Integer(*id as i64) },
            );
            let confirmed: i64 = if *confirmed {
                1
            } else {
                0
            };
            assignments.push(
                Assignment { column: Column::QConfirmed, value: Value::Integer(confirmed) },
            );
            assignments.push(
                Assignment { column: Column::QTxStatus, value: Value::Text(tx_type.clone()) },
            );
        },
        Serializable::OutputData { tx_log_entry, status } => {
            let entry = match tx_log_entry {
                Some(entry) => Value::Integer(*entry as i64),
                None => Value::Null,
            };
            assignments.push(Assignment { column: Column::QTxId, value: entry });
            assignments.push(
                Assignment { column: Column::QTxStatus, value: Value::Text(status.clone()) },
            );
        },
        Serializable::Other => {},
    }
    assert(assigned(assignments@) =~= assigned(old(assignments)@) + indexed(*value));
}

/// The data that a step of the query for it came to, if there is any.
pub open spec fn data_in(step: Step<Option<String>>) -> Option<String> {
    match step {
        Step::Row(data) => data,
        _ => None,
    }
}

/// Whether there is a key, as far as a step of the query for it tells.
pub open spec fn presence_in(step: Step<()>) -> Option<bool> {
    match step {
        Step::Row(_) => Some(true),
        Step::Done => Some(false),
        Step::Failed => None,
    }
}

/// The reading side of the store.
pub struct Store {}

impl Store {
    /// The query for the data under a key.
    pub fn get_query(key: &[u8]) -> (query: Statement)
        ensures
            query@ == (Command::Get { key: key@ }),
            query.is_writable(),
    {
        Statement::Get { key: to_vec(key) }
    }

    /// The data under a key, by what the first step of the query for it came to. It is not there
    /// if there is no row, and no more if the database failed, or the data cannot be read.
    pub fn get(step: Step<Option<String>>) -> (data: Option<String>)
        ensures
            data == data_in(step),
    {
        match step {
            Step::Row(data) => data,
            _ => None,
        }
    }

    /// The query whether there is a key.
    pub fn exists_query(key: &[u8]) -> (query: Statement)
        ensures
            query@ == (Command::Exists { key: key@ }),
            query.is_writable(),
    {
        Statement::Exists { key: to_vec(key) }
    }

    /// Whether there is a key, by what the first step of the query for it came to. That is not
    /// known if the database failed.
    pub fn key_exists(step: &Step<()>) -> (present: Option<bool>)
        ensures
            present == presence_in(*step),
    {
        match step {
            Step::Row(_) => Some(true),
            Step::Done => Some(false),
            Step::Failed => None,
        }
    }

    /// The query for the data of all records with a prefix.
    pub fn iter(from: &[u8]) -> (query: Statement)
        requires
            valid_utf8(from@),
        ensures
            query@ == (Command::List { prefix: decode_utf8(from@) }),
            query.is_writable(),
    {
        Statement::List { prefix: string_from_utf8(from).unwrap() }
    }
}

impl Batch {
    /// The statement that writes a record under a key, given whether there is one already.
    pub fn put(
        key: &[u8],
        value: &Serializable,
        data: &str,
        present: bool,
    ) -> (statement: Statement)
        requires
            key@.len() > 0,
        ensures
            statement@ == put_command(key@, *value, data@, present),
            statement.is_writable(),
    {
        let prefix = char_to_string(key[0] as char);
        let value_s = Assignment { column: Column::Data, value: Value::Text(data.to_owned()) };
        let mut assignments: Vec<Assignment> = Vec::new();
        if present {
            assignments.push(value_s);
            assert(assigned(assignments@) =~= seq![(Column::Data, Cell::Text(data@))]);
            push_indexed(&mut assignments, value);
            assert(assigned(assignments@).len() == assignments@.len());
            Statement::Update { key: to_vec(key), changes: assignments }
        } else {
            assignments.push(Assignment { column: Column::Key, value: Value::Binary(to_vec(key)) });
            assignments.push(value_s);
            assignments.push(Assignment { column: Column::Prefix, value: Value::Text(prefix) });
            assert(assigned(assignments@) =~= seq![
                (Column::Key, Cell::Binary(key@)),
                (Column::Data, Cell::Text(data@)),
                (Column::Prefix, Cell::Text(prefix_of(key@))),
            ]);
            push_indexed(&mut assignments, value);
            assert(assigned(assignments@).len() == assignments@.len());
            Statement::Insert { row: assignments }
        }
    }

    /// The statement that takes a record out.
    pub fn delete(key: &[u8]) -> (statement: Statement)
        ensures
            statement@ == (Command::Delete { key: key@ }),
            statement.is_writable(),
    {
        Statement::Delete { key: to_vec(key) }
    }
}

} // verus!
