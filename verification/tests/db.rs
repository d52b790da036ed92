use epic_wallet::db::migration::{has_brackets, legacy_key};
use epic_wallet::db::store::{CREATION, SQLITE_FILENAME};
use epic_wallet::db::{
    plan_migration, Admission, Attempt, Batch, Decision, KeyRewrite, KeyRow, Retry, Serializable,
    Statement, Step, Store, Value,
};
use sqlite::{Connection, State};

fn bindable(value: Value) -> sqlite::Value {
    match value {
        Value::Binary(bytes) => sqlite::Value::Binary(bytes),
        Value::Text(text) => sqlite::Value::String(text),
        Value::Integer(n) => sqlite::Value::Integer(n),
        Value::Null => sqlite::Value::Null,
    }
}

fn open() -> Connection {
    let db = sqlite::open(":memory:").unwrap();
    db.execute(CREATION).unwrap();
    db
}

fn prepare(db: &Connection, statement: Statement) -> sqlite::Statement<'_> {
    let mut prepared = db.prepare(statement.sql()).unwrap();
    for (i, value) in statement.into_params().into_iter().enumerate() {
        prepared.bind((i + 1, bindable(value))).unwrap();
    }
    prepared
}

fn run(db: &Connection, statement: Statement) {
    let mut prepared = prepare(db, statement);
    while prepared.next().unwrap() == State::Row {}
}

fn get(db: &Connection, key: &[u8]) -> Option<String> {
    let mut prepared = prepare(db, Store::get_query(key));
    let step = match prepared.next().unwrap() {
        State::Row => Step::Row(prepared.read::<String, _>("data").ok()),
        State::Done => Step::Done,
    };
    Store::get(step)
}

fn key_exists(db: &Connection, key: &[u8]) -> bool {
    let mut prepared = prepare(db, Store::exists_query(key));
    let step = match prepared.next().unwrap() {
        State::Row => Step::Row(()),
        State::Done => Step::Done,
    };
    Store::key_exists(&step).unwrap()
}

fn put(db: &Connection, key: &[u8], value: &Serializable, data: &str) {
    let present = key_exists(db, key);
    run(db, Batch::put(key, value, data, present));
}

fn list(db: &Connection, from: &[u8]) -> Vec<String> {
    let mut prepared = prepare(db, Store::iter(from));
    let mut found = Vec::new();
    while prepared.next().unwrap() == State::Row {
        found.push(prepared.read::<String, _>("data").unwrap());
    }
    found.sort();
    found
}

/// The cells of the one row with the given data, but for its id.
fn row(db: &Connection, data: &str) -> Vec<sqlite::Value> {
    let text = "SELECT key, prefix, q_tx_id, q_confirmed, q_tx_status FROM data WHERE data = ?1";
    let mut prepared = db.prepare(text).unwrap();
    prepared.bind((1, data)).unwrap();
    assert_eq!(prepared.next().unwrap(), State::Row);
    let cells = (0..5).map(|i| prepared.read::<sqlite::Value, _>(i).unwrap()).collect();
    assert_eq!(prepared.next().unwrap(), State::Done);
    cells
}

fn entry(id: u32, confirmed: bool, tx_type: &str) -> Serializable {
    Serializable::TxLogEntry { id, confirmed, tx_type: tx_type.to_owned() }
}

fn output(tx_log_entry: Option<u32>, status: &str) -> Serializable {
    Serializable::OutputData { tx_log_entry, status: status.to_owned() }
}

fn text(text: &str) -> sqlite::Value {
    sqlite::Value::String(text.to_owned())
}

#[test]
fn file_name() {
    assert_eq!(SQLITE_FILENAME, "epic.db");
}

#[test]
fn statement_texts() {
    let sql = |statement: Statement| statement.sql();
    assert_eq!(
        sql(Batch::put(b"t", &entry(1, true, "x"), "d", false)),
        "INSERT INTO data (key, data, prefix, q_tx_id, q_confirmed, q_tx_status) \
         VALUES (?1, ?2, ?3, ?4, ?5, ?6);"
    );
    assert_eq!(
        sql(Batch::put(b"t", &entry(1, true, "x"), "d", true)),
        "UPDATE data SET data = ?2, q_tx_id = ?3, q_confirmed = ?4, q_tx_status = ?5 \
         WHERE key = ?1;"
    );
    assert_eq!(
        sql(Batch::put(b"o", &output(None, "x"), "d", false)),
        "INSERT INTO data (key, data, prefix, q_tx_id, q_tx_status) VALUES (?1, ?2, ?3, ?4, ?5);"
    );
    assert_eq!(
        sql(Batch::put(b"o", &output(None, "x"), "d", true)),
        "UPDATE data SET data = ?2, q_tx_id = ?3, q_tx_status = ?4 WHERE key = ?1;"
    );
    assert_eq!(
        sql(Batch::put(b"o", &Serializable::Other, "d", false)),
        "INSERT INTO data (key, data, prefix) VALUES (?1, ?2, ?3);"
    );
    assert_eq!(
        sql(Batch::put(b"o", &Serializable::Other, "d", true)),
        "UPDATE data SET data = ?2 WHERE key = ?1;"
    );
    assert_eq!(sql(Batch::delete(b"o")), "DELETE FROM data WHERE key = ?1;");
    assert_eq!(sql(Store::get_query(b"o")), "SELECT data FROM data WHERE key = ?1 LIMIT 1;");
    assert_eq!(sql(Store::exists_query(b"o")), "SELECT 1 FROM data WHERE key = ?1 LIMIT 1;");
    assert_eq!(sql(Store::iter(b"o")), "SELECT data FROM data WHERE prefix = ?1;");
    assert_eq!(sql(Statement::Keys), "SELECT id, key FROM data;");
    assert_eq!(
        sql(KeyRewrite { id: 3, key: vec![1] }.into_statement()),
        "UPDATE data SET key = ?1 WHERE id = ?2;"
    );
    assert_eq!(sql(Batch::begin()), "BEGIN IMMEDIATE;");
    assert_eq!(sql(Batch::end(false)), "COMMIT;");
    assert_eq!(sql(Batch::end(true)), "ROLLBACK;");
}

#[test]
fn statement_values() {
    let owned = |t: &str| Value::Text(t.to_owned());
    assert_eq!(
        Batch::put(b"t1", &entry(u32::MAX, true, "Sent"), "d", false).into_params(),
        vec![
            Value::Binary(b"t1".to_vec()),
            owned("d"),
            owned("t"),
            Value::Integer(4294967295),
            Value::Integer(1),
            owned("Sent"),
        ]
    );
    assert_eq!(
        Batch::put(b"t1", &entry(0, false, "Sent"), "d", true).into_params(),
        vec![
            Value::Binary(b"t1".to_vec()),
            owned("d"),
            Value::Integer(0),
            Value::Integer(0),
            owned("Sent"),
        ]
    );
    assert_eq!(
        Batch::put(&[200, 1], &output(None, "Unspent"), "d", false).into_params(),
        vec![
            Value::Binary(vec![200, 1]),
            owned("d"),
            owned("\u{c8}"),
            Value::Null,
            owned("Unspent"),
        ]
    );
    assert_eq!(
        Batch::put(b"o", &output(Some(9), "Spent"), "d", true).into_params(),
        vec![Value::Binary(b"o".to_vec()), owned("d"), Value::Integer(9), owned("Spent")]
    );
    assert_eq!(Store::iter("\u{e9}".as_bytes()).into_params(), vec![owned("\u{e9}")]);
    assert_eq!(Statement::Keys.into_params(), vec![]);
    assert_eq!(Batch::begin().into_params(), vec![]);
    assert_eq!(Batch::end(false).into_params(), vec![]);
    assert_eq!(Batch::end(true).into_params(), vec![]);
    assert_eq!(
        KeyRewrite { id: -3, key: vec![1] }.into_statement().into_params(),
        vec![Value::Binary(vec![1]), Value::Integer(-3)]
    );
}

#[test]
fn answers_are_read() {
    assert_eq!(Store::get(Step::Row(Some("d".to_owned()))), Some("d".to_owned()));
    assert_eq!(Store::get(Step::Row(None)), None);
    assert_eq!(Store::get(Step::Done), None);
    assert_eq!(Store::get(Step::Failed), None);
    assert_eq!(Store::key_exists(&Step::Row(())), Some(true));
    assert_eq!(Store::key_exists(&Step::Done), Some(false));
    assert_eq!(Store::key_exists(&Step::Failed), None);
}

#[test]
fn get_returns_what_was_put() {
    let db = open();
    assert_eq!(get(&db, b"a1"), None);
    assert!(!key_exists(&db, b"a1"));
    put(&db, b"a1", &Serializable::Other, "first");
    put(&db, b"a2", &entry(1, false, "Sent"), "it's; \"quoted\"");
    put(&db, &[0xff, 0, 0x27], &output(None, "Unspent"), "bytes");
    assert!(key_exists(&db, b"a1"));
    assert_eq!(get(&db, b"a1").unwrap(), "first");
    assert_eq!(get(&db, b"a2").unwrap(), "it's; \"quoted\"");
    assert_eq!(get(&db, &[0xff, 0, 0x27]).unwrap(), "bytes");
    assert_eq!(get(&db, b"a"), None);
}

#[test]
fn put_sets_queryable_columns() {
    let db = open();
    put(&db, b"t1", &entry(7, true, "Sent Tx"), "entry");
    assert_eq!(
        row(&db, "entry"),
        vec![
            sqlite::Value::Binary(b"t1".to_vec()),
            text("t"),
            sqlite::Value::Integer(7),
            sqlite::Value::Integer(1),
            text("Sent Tx"),
        ]
    );
    put(&db, b"o1", &output(None, "Locked"), "output");
    assert_eq!(
        row(&db, "output"),
        vec![
            sqlite::Value::Binary(b"o1".to_vec()),
            text("o"),
            sqlite::Value::Null,
            sqlite::Value::Null,
            text("Locked"),
        ]
    );
    put(&db, b"x1", &Serializable::Other, "other");
    assert_eq!(
        row(&db, "other"),
        vec![
            sqlite::Value::Binary(b"x1".to_vec()),
            text("x"),
            sqlite::Value::Null,
            sqlite::Value::Null,
            sqlite::Value::Null,
        ]
    );
}

#[test]
fn last_put_stands() {
    let db = open();
    put(&db, b"t1", &entry(7, true, "Sent Tx"), "entry");
    put(&db, b"t1", &entry(8, false, "Received Tx"), "again");
    assert_eq!(get(&db, b"t1").unwrap(), "again");
    assert_eq!(list(&db, b"t"), vec!["again"]);
    assert_eq!(row(&db, "again")[2], sqlite::Value::Integer(8));
    assert_eq!(row(&db, "again")[3], sqlite::Value::Integer(0));
    assert_eq!(row(&db, "again")[4], text("Received Tx"));
    put(&db, b"t1", &output(Some(2), "Spent"), "output");
    assert_eq!(row(&db, "output")[2], sqlite::Value::Integer(2));
    assert_eq!(row(&db, "output")[3], sqlite::Value::Integer(0));
    assert_eq!(row(&db, "output")[4], text("Spent"));
    put(&db, b"t1", &Serializable::Other, "other");
    assert_eq!(row(&db, "other")[1], text("t"));
    assert_eq!(row(&db, "other")[2], sqlite::Value::Integer(2));
    assert_eq!(row(&db, "other")[4], text("Spent"));
}

#[test]
fn delete_removes() {
    let db = open();
    put(&db, b"a1", &Serializable::Other, "first");
    put(&db, b"a2", &Serializable::Other, "second");
    run(&db, Batch::delete(b"a1"));
    assert!(!key_exists(&db, b"a1"));
    assert_eq!(get(&db, b"a1"), None);
    assert_eq!(get(&db, b"a2").unwrap(), "second");
    run(&db, Batch::delete(b"a1"));
    assert_eq!(list(&db, b"a"), vec!["second"]);
}

#[test]
fn list_is_by_first_byte() {
    let db = open();
    put(&db, b"a1", &Serializable::Other, "1");
    put(&db, b"ab", &entry(1, false, "Sent"), "2");
    put(&db, b"b1", &Serializable::Other, "3");
    put(&db, b"a1", &Serializable::Other, "4");
    put(&db, &[0xe9, 1], &Serializable::Other, "5");
    assert_eq!(list(&db, b"a"), vec!["2", "4"]);
    assert_eq!(list(&db, b"b"), vec!["3"]);
    assert!(list(&db, b"ab").is_empty());
    assert!(list(&db, b"").is_empty());
    assert_eq!(list(&db, "\u{e9}".as_bytes()), vec!["5"]);
}

#[test]
fn one_key_has_one_row() {
    let db = open();
    put(&db, b"a1", &Serializable::Other, "1");
    let mut again = prepare(&db, Batch::put(b"a1", &Serializable::Other, "2", false));
    assert!(again.next().is_err());
    assert_eq!(get(&db, b"a1").unwrap(), "1");
}

#[test]
fn update_of_a_missing_key_adds_nothing() {
    let db = open();
    run(&db, Batch::put(b"a1", &Serializable::Other, "1", true));
    assert!(!key_exists(&db, b"a1"));
}

#[test]
fn creation_can_be_repeated() {
    let db = open();
    put(&db, b"a1", &Serializable::Other, "1");
    db.execute(CREATION).unwrap();
    assert_eq!(get(&db, b"a1").unwrap(), "1");
}

#[test]
fn legacy_keys() {
    assert_eq!(legacy_key("[97, 58, 0, 255]"), Some(vec![97, 58, 0, 255]));
    assert_eq!(legacy_key("[]"), Some(vec![]));
    assert_eq!(legacy_key("[97,58]"), Some(vec![97, 58]));
    assert_eq!(legacy_key("[256]"), None);
    assert_eq!(legacy_key("[-1]"), None);
    assert_eq!(legacy_key("[97, 58"), None);
    assert_eq!(legacy_key(" [97]"), None);
    assert_eq!(legacy_key("[a]"), None);
    assert_eq!(legacy_key("97"), None);
    assert_eq!(legacy_key(""), None);
    assert_eq!(legacy_key(&format!("{:?}", b"o:key")), Some(b"o:key".to_vec()));
}

#[test]
fn brackets() {
    assert!(has_brackets("[]"));
    assert!(has_brackets("[\u{e9}]"));
    assert!(!has_brackets("["));
    assert!(!has_brackets("]"));
    assert!(!has_brackets("[1] "));
    assert!(!has_brackets(""));
}

#[test]
fn migration_is_planned_in_order() {
    let row = |id: i64, key: Option<&str>| KeyRow { id, key: key.map(str::to_owned) };
    let rows = vec![
        row(4, Some("[1, 2]")),
        row(2, None),
        row(9, Some("text")),
        row(1, Some("[3]")),
        row(5, Some("[300]")),
    ];
    assert_eq!(
        plan_migration(&rows),
        vec![KeyRewrite { id: 4, key: vec![1, 2] }, KeyRewrite { id: 1, key: vec![3] }]
    );
    assert_eq!(plan_migration(&Vec::new()), vec![]);
}

fn migrate(db: &Connection) -> usize {
    let mut rows = Vec::new();
    for row in prepare(db, Statement::Keys).into_iter() {
        let row = row.unwrap();
        let key = row.try_read::<&str, _>("key").ok().map(str::to_owned);
        rows.push(KeyRow { id: row.read::<i64, _>("id"), key });
    }
    let plan = plan_migration(&rows);
    let n = plan.len();
    for rewrite in plan {
        run(db, rewrite.into_statement());
    }
    n
}

#[test]
fn migrated_keys_are_found() {
    let db = open();
    db.execute("INSERT INTO data (key, data, prefix) VALUES ('[97, 58, 1]', 'old', 'a')").unwrap();
    db.execute("INSERT INTO data (key, data, prefix) VALUES ('plain', 'kept', 'p')").unwrap();
    put(&db, b"[5]", &Serializable::Other, "new");
    assert_eq!(get(&db, &[97, 58, 1]), None);
    let row_before = row(&db, "old");
    assert_eq!(migrate(&db), 1);
    assert_eq!(get(&db, &[97, 58, 1]).unwrap(), "old");
    assert_eq!(get(&db, b"[5]").unwrap(), "new");
    assert_eq!(row(&db, "kept")[0], text("plain"));
    assert_eq!(row(&db, "old")[1..], row_before[1..]);
    assert_eq!(list(&db, b"a"), vec!["old"]);
    assert_eq!(migrate(&db), 0);
}

/// Carries out one write of a batch, as the batch says, and tells whether it was done.
fn write(db: &Connection, batch: &mut Batch, statement: Statement) -> bool {
    match batch.next_write() {
        Admission::First => {
            run(db, Batch::begin());
            batch.begun(true);
        }
        Admission::Later => {}
        Admission::Refused => return false,
    }
    let done = prepare(db, statement).next().is_ok();
    if let Some(rollback) = batch.written(done) {
        run(db, rollback);
    }
    done
}

fn finish(db: &Connection, batch: &mut Batch, given_up: bool) {
    if let Some(end) = batch.finish(given_up) {
        run(db, end);
    }
}

fn insert(key: &[u8], data: &str) -> Statement {
    Batch::put(key, &Serializable::Other, data, false)
}

#[test]
fn batches_are_kept() {
    let db = open();
    let mut batch = Batch::new();
    assert!(write(&db, &mut batch, insert(b"a1", "1")));
    assert!(write(&db, &mut batch, insert(b"a2", "2")));
    assert!(write(&db, &mut batch, Batch::delete(b"a1")));
    assert_eq!(get(&db, b"a2").unwrap(), "2");
    finish(&db, &mut batch, false);
    assert_eq!(get(&db, b"a1"), None);
    assert_eq!(get(&db, b"a2").unwrap(), "2");
    assert!(prepare(&db, Batch::end(true)).next().is_err());
    assert!(!write(&db, &mut batch, insert(b"a3", "3")));
    assert_eq!(get(&db, b"a3"), None);
}

#[test]
fn failed_write_takes_back_the_batch() {
    let db = open();
    put(&db, b"a0", &Serializable::Other, "0");
    let mut batch = Batch::new();
    assert!(write(&db, &mut batch, insert(b"a1", "1")));
    assert!(write(&db, &mut batch, Batch::delete(b"a0")));
    assert!(write(&db, &mut batch, insert(b"a2", "2")));
    assert!(!write(&db, &mut batch, insert(b"a2", "again")));
    assert_eq!(list(&db, b"a"), vec!["0"]);
    assert!(!write(&db, &mut batch, insert(b"a3", "3")));
    finish(&db, &mut batch, false);
    assert_eq!(list(&db, b"a"), vec!["0"]);
    let mut next = Batch::new();
    assert!(write(&db, &mut next, insert(b"a4", "4")));
    finish(&db, &mut next, false);
    assert_eq!(list(&db, b"a"), vec!["0", "4"]);
}

#[test]
fn batches_that_are_given_up_keep_nothing() {
    let db = open();
    let mut batch = Batch::new();
    assert!(write(&db, &mut batch, insert(b"a1", "1")));
    finish(&db, &mut batch, true);
    assert_eq!(get(&db, b"a1"), None);
}

#[test]
fn batches_that_write_nothing_have_nothing_to_end() {
    assert!(Batch::new().finish(false).is_none());
    assert!(Batch::new().finish(true).is_none());
    let mut batch = Batch::new();
    assert_eq!(batch.next_write(), Admission::First);
    batch.begun(false);
    assert_eq!(batch.next_write(), Admission::Refused);
    assert!(batch.finish(false).is_none());
}

#[test]
fn batches_do_not_begin_in_one_another() {
    let db = open();
    run(&db, Batch::begin());
    assert!(prepare(&db, Batch::begin()).next().is_err());
    run(&db, Batch::end(false));
    assert!(prepare(&db, Batch::end(false)).next().is_err());
}

#[test]
fn writes_are_tried_again_while_busy() {
    let busy = Attempt::Failed { code: Some(5) };
    let again = Decision::TryAgain { after_millis: 100 };
    let mut retry = Retry::new();
    assert_eq!(retry.next(busy), again);
    assert_eq!(retry.next(busy), again);
    assert_eq!(retry.next(busy), again);
    assert_eq!(retry.next(busy), Decision::GiveUp);
}

#[test]
fn writes_succeed_after_waiting() {
    let mut retry = Retry::new();
    for _ in 0..3 {
        let next = retry.next(Attempt::Failed { code: Some(5) });
        assert_eq!(next, Decision::TryAgain { after_millis: 100 });
    }
    assert_eq!(retry.next(Attempt::Done), Decision::Succeed);
}

#[test]
fn other_failures_are_not_tried_again() {
    assert_eq!(Retry::new().next(Attempt::Done), Decision::Succeed);
    assert_eq!(Retry::new().next(Attempt::Failed { code: Some(6) }), Decision::GiveUp);
    assert_eq!(Retry::new().next(Attempt::Failed { code: None }), Decision::GiveUp);
    let mut retry = Retry::new();
    retry.next(Attempt::Failed { code: Some(5) });
    assert_eq!(retry.next(Attempt::Failed { code: Some(1) }), Decision::GiveUp);
}
