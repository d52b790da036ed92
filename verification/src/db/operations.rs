//! What the functions of the store come to together: what is put to the database for them, and what
//! is read back of what was written.
use vstd::prelude::*;
use vstd::utf8::decode_utf8;

use crate::db::batch::{Admission, Batch};
use crate::db::binding::{
    are_of_same_form, is_bytes, is_integer, is_optional, is_text, law_keys_are_bound_whole,
    law_records_are_bound_whole, law_text_holds_no_values,
};
use crate::db::migration::{
    json_bytes, legacy_key, legacy_text, plan_migration, rewrites_of, viewed_rewrites, viewed_rows,
    KeyRewrite, KeyRow,
};
use crate::db::retry::{Attempt, Decision, Retry};
use crate::db::statement::{Statement, Value};
use crate::db::store::{Serializable, Step, Store};
use crate::db::table::{
    effect, exists_step, has_key, is_consistent, is_get_step, law_delete_removes,
    law_get_returns_what_was_put, Table,
};

verus! {

/// Taking a record out binds its key, byte for byte, and nothing else; and the text is the same for
/// every key.
pub proof fn law_deleting_binds_the_key(
    key: &[u8],
    statement: Statement,
    values: Vec<Value>,
    text: String,
    other_key: &[u8],
    other: Statement,
    other_text: String,
)
    requires
        call_ensures(Batch::delete, (key,), statement),
        call_ensures(Statement::into_params, (statement,), values),
        call_ensures(Statement::sql, (&statement,), text),
        call_ensures(Batch::delete, (other_key,), other),
        call_ensures(Statement::sql, (&other,), other_text),
    ensures
        statement matches Statement::Delete { key: k } && k@ == key@,
        values@.len() == 1,
        is_bytes(values@[0], key@),
        text@ == other_text@,
{
    law_keys_are_bound_whole(statement, values@);
    law_text_holds_no_values(statement@, other@);
}

/// Asking for a record, or whether there is one, binds its key, byte for byte, and nothing else;
/// and the text is the same for every key.
pub proof fn law_reading_binds_the_key(
    key: &[u8],
    get: Statement,
    get_values: Vec<Value>,
    get_text: String,
    presence: Statement,
    presence_values: Vec<Value>,
    presence_text: String,
    other_key: &[u8],
    other_get: Statement,
    other_get_text: String,
    other_presence: Statement,
    other_presence_text: String,
)
    requires
        call_ensures(Store::get_query, (key,), get),
        call_ensures(Statement::into_params, (get,), get_values),
        call_ensures(Statement::sql, (&get,), get_text),
        call_ensures(Store::exists_query, (key,), presence),
        call_ensures(Statement::into_params, (presence,), presence_values),
        call_ensures(Statement::sql, (&presence,), presence_text),
        call_ensures(Store::get_query, (other_key,), other_get),
        call_ensures(Statement::sql, (&other_get,), other_get_text),
        call_ensures(Store::exists_query, (other_key,), other_presence),
        call_ensures(Statement::sql, (&other_presence,), other_presence_text),
    ensures
        get is Get,
        get_values@.len() == 1,
        is_bytes(get_values@[0], key@),
        get_text@ == other_get_text@,
        presence is Exists,
        presence_values@.len() == 1,
        is_bytes(presence_values@[0], key@),
        presence_text@ == other_presence_text@,
{
    law_keys_are_bound_whole(get, get_values@);
    law_keys_are_bound_whole(presence, presence_values@);
    law_text_holds_no_values(get@, other_get@);
    law_text_holds_no_values(presence@, other_presence@);
}

/// Listing records binds the whole prefix, as the text that its bytes encode, and nothing else; and
/// the text of the statement is the same for every prefix.
pub proof fn law_listing_binds_the_prefix(
    from: &[u8],
    statement: Statement,
    values: Vec<Value>,
    text: String,
    other_from: &[u8],
    other: Statement,
    other_text: String,
)
    requires
        call_ensures(Store::iter, (from,), statement),
        call_ensures(Statement::into_params, (statement,), values),
        call_ensures(Statement::sql, (&statement,), text),
        call_ensures(Store::iter, (other_from,), other),
        call_ensures(Statement::sql, (&other,), other_text),
    ensures
        statement is List,
        values@.len() == 1,
        is_text(values@[0], decode_utf8(from@)),
        text@ == other_text@,
{
    law_keys_are_bound_whole(statement, values@);
    law_text_holds_no_values(statement@, other@);
}

/// Writing a record binds its whole key, then all of its data, then in a new row the first byte of
/// the key as the character with that number, and then what the record has columns for, each as it
/// is.
pub proof fn law_writing_binds_the_record(
    key: &[u8],
    value: &Serializable,
    data: &str,
    present: bool,
    statement: Statement,
    values: Vec<Value>,
)
    requires
        key@.len() > 0,
        call_ensures(Batch::put, (key, value, data, present), statement),
        call_ensures(Statement::into_params, (statement,), values),
    ensures
        statement is Update <==> present,
        statement is Insert <==> !present,
        ({
            let n: int = if present {
                2
            } else {
                3
            };
            &&& values@.len() >= n
            &&& is_bytes(values@[0], key@)
            &&& is_text(values@[1], data@)
            &&& !present ==> is_text(values@[2], seq![key@[0] as char])
            &&& match *value {
                Serializable::TxLogEntry { id, confirmed, tx_type } => {
                    &&& values@.len() == n + 3
                    &&& is_integer(values@[n], id as int)
                    &&& confirmed ==> is_integer(values@[n + 1], 1)
                    &&& !confirmed ==> is_integer(values@[n + 1], 0)
                    &&& is_text(values@[n + 2], tx_type@)
                },
                Serializable::OutputData { tx_log_entry, status } => {
                    &&& values@.len() == n + 2
                    &&& is_optional(values@[n], tx_log_entry)
                    &&& is_text(values@[n + 1], status@)
                },
                Serializable::Other => values@.len() == n,
            }
        }),
{
    law_records_are_bound_whole(key@, *value, data@, present, values@);
}

/// The text for writing a record depends on nothing but what sort of record it is and whether there
/// is one already: not on the key, the data or any other value.
pub proof fn law_writing_has_one_text_for_each_sort(
    key: &[u8],
    value: &Serializable,
    data: &str,
    present: bool,
    statement: Statement,
    text: String,
    other_key: &[u8],
    other_value: &Serializable,
    other_data: &str,
    other: Statement,
    other_text: String,
)
    requires
        key@.len() > 0,
        other_key@.len() > 0,
        *value is TxLogEntry <==> *other_value is TxLogEntry,
        *value is OutputData <==> *other_value is OutputData,
        call_ensures(Batch::put, (key, value, data, present), statement),
        call_ensures(Statement::sql, (&statement,), text),
        call_ensures(Batch::put, (other_key, other_value, other_data, present), other),
        call_ensures(Statement::sql, (&other,), other_text),
    ensures
        text@ == other_text@,
{
    assert(are_of_same_form(statement@, other@));
    law_text_holds_no_values(statement@, other@);
}

/// A record that is written is read back. Let it be asked whether there is a record under a key,
/// and one be written by what comes of that: then the write can be done, there is one under the
/// key, and what the store reads there is the data that was written. What it reads under any other
/// key is what it would have read before.
pub proof fn law_written_record_is_read_back(
    table: Table,
    fresh: int,
    key: &[u8],
    value: &Serializable,
    data: &str,
    present: bool,
    statement: Statement,
    step: Step<Option<String>>,
    read: Option<String>,
    other: Seq<u8>,
)
    requires
        is_consistent(table),
        !table.contains_key(fresh),
        key@.len() > 0,
        call_ensures(Store::key_exists, (&exists_step(table, key@),), Some(present)),
        call_ensures(Batch::put, (key, value, data, present), statement),
        call_ensures(Store::get, (step,), read),
    ensures
        effect(table, statement@, fresh) matches Some(new) && {
            &&& has_key(new, key@)
            &&& is_get_step(new, key@, step) ==> (read matches Some(d) && d@ == data@)
            &&& other != key@ ==> is_get_step(new, other, step) == is_get_step(table, other, step)
        },
{
    law_get_returns_what_was_put(table, key@, *value, data@, fresh, other, step);
}

/// A record that is taken out is not read back: there is none under the key, and nothing is read
/// there. What is read under any other key is what would have been read before.
pub proof fn law_deleted_record_is_not_read_back(
    table: Table,
    fresh: int,
    key: &[u8],
    statement: Statement,
    step: Step<Option<String>>,
    read: Option<String>,
    present: Option<bool>,
    other: Seq<u8>,
)
    requires
        is_consistent(table),
        call_ensures(Batch::delete, (key,), statement),
        call_ensures(Store::get, (step,), read),
        effect(table, statement@, fresh) matches Some(new) ==> call_ensures(
            Store::key_exists,
            (&exists_step(new, key@),),
            present,
        ),
    ensures
        effect(table, statement@, fresh) matches Some(new) && {
            &&& present == Some(false)
            &&& is_get_step(new, key@, step) ==> read is None
            &&& other != key@ ==> is_get_step(new, other, step) == is_get_step(table, other, step)
        },
{
    law_delete_removes(table, key@, fresh, other, step);
}

/// Whether there is a record is told if and only if the database did not fail.
pub proof fn law_failed_queries_tell_nothing(step: Step<()>, present: Option<bool>)
    requires
        call_ensures(Store::key_exists, (&step,), present),
    ensures
        step is Row <==> present == Some(true),
        step is Done <==> present == Some(false),
        step is Failed <==> present is None,
{
}

/// A text that was kept for a key stands for the bytes that it lists in JSON, if it stands in
/// brackets and lists bytes, and else for none; and the text as which a key was kept stands for
/// that key. A row gets just that key, by its number.
pub proof fn law_kept_texts_stand_for_keys(
    text: &str,
    key: Option<Vec<u8>>,
    kept: Seq<u8>,
    rewrite: KeyRewrite,
    statement: Statement,
    values: Vec<Value>,
)
    requires
        call_ensures(legacy_key, (text,), key),
        call_ensures(KeyRewrite::into_statement, (rewrite,), statement),
        call_ensures(Statement::into_params, (statement,), values),
    ensures
        key matches Some(k) ==> {
            &&& text@.len() > 0
            &&& text@[0] == '['
            &&& text@[text@.len() - 1] == ']'
            &&& json_bytes(text@) == Some(k@)
        },
        key is None ==> !(text@.len() > 0 && text@[0] == '[' && text@[text@.len() - 1] == ']'
            && json_bytes(text@) is Some),
        text@ == legacy_text(kept) ==> (key matches Some(k) && k@ == kept),
        values@.len() == 2,
        is_bytes(values@[0], rewrite.key@),
        is_integer(values@[1], rewrite.id as int),
{
    law_keys_are_bound_whole(statement, values@);
}

/// Each row whose key was kept as text is planned to get that key, and no row is planned to get a
/// key that its text does not stand for.
pub proof fn law_plan_is_of_kept_texts(
    rows: &Vec<KeyRow>,
    rewrites: Vec<KeyRewrite>,
    i: int,
    k: int,
    bytes: Seq<u8>,
)
    requires
        call_ensures(plan_migration, (rows,), rewrites),
    ensures
        0 <= k < rewrites@.len() ==> exists|j: int|
            0 <= j < rows@.len() && (#[trigger] rows@[j]).id == rewrites@[k].id && (
            rows@[j].key matches Some(text) && stands_for(text@, rewrites@[k].key@)),
        0 <= i < rows@.len() && (rows@[i].key matches Some(text) && stands_for(text@, bytes))
            ==> exists|j: int|
            0 <= j < rewrites@.len() && (#[trigger] rewrites@[j]).id == rows@[i].id
                && rewrites@[j].key@ == bytes,
{
    let held = viewed_rows(rows@);
    let plan = viewed_rewrites(rewrites@);
    lemma_plan(held);
    if 0 <= k < rewrites@.len() {
        assert(plan[k] == (rewrites@[k].id as int, rewrites@[k].key@));
        assert(is_for_one_of(held, plan[k]));
        let j = choose|j: int| 0 <= j < held.len() && #[trigger] is_planned(held[j], plan[k]);
        assert(held[j] == rows@[j]@);
    }
    if 0 <= i < rows@.len() && (rows@[i].key matches Some(text) && stands_for(text@, bytes)) {
        assert(held[i] == rows@[i]@);
        assert(is_planned(held[i], (rows@[i].id as int, bytes)));
        let r = choose|r: int|
            0 <= r < plan.len() && #[trigger] plan[r] == (rows@[i].id as int, bytes);
        assert(rewrites@[r].id == rows@[i].id);
    }
}

/// Whether a text stands for bytes: it stands in brackets and lists them in JSON.
pub open spec fn stands_for(text: Seq<char>, bytes: Seq<u8>) -> bool {
    &&& text.len() > 0
    &&& text[0] == '['
    &&& text[text.len() - 1] == ']'
    &&& json_bytes(text) == Some(bytes)
}

/// Whether a rewrite is the one for a row.
spec fn is_planned(row: (int, Option<Seq<char>>), rewrite: (int, Seq<u8>)) -> bool {
    row.0 == rewrite.0 && (row.1 matches Some(text) && stands_for(text, rewrite.1))
}

/// Whether a rewrite is the one for one of some rows.
spec fn is_for_one_of(rows: Seq<(int, Option<Seq<char>>)>, rewrite: (int, Seq<u8>)) -> bool {
    exists|j: int| 0 <= j < rows.len() && #[trigger] is_planned(rows[j], rewrite)
}

/// Which rewrites there are for rows.
proof fn lemma_plan(rows: Seq<(int, Option<Seq<char>>)>)
    ensures
        forall|k: int|
            0 <= k < rewrites_of(rows).len() ==> is_for_one_of(
                rows,
                #[trigger] rewrites_of(rows)[k],
            ),
        forall|i: int, bytes: Seq<u8>|
            0 <= i < rows.len() && #[trigger] is_planned(rows[i], (rows[i].0, bytes))
                ==> rewrites_of(rows).contains((rows[i].0, bytes)),
    decreases rows.len(),
{
    let plan = rewrites_of(rows);
    if rows.len() > 0 {
        let rest = rows.drop_last();
        let before = rewrites_of(rest);
        lemma_plan(rest);
        let n = rows.len() - 1;
        assert(forall|k: int| 0 <= k < before.len() ==> #[trigger] plan[k] == before[k]);
        assert forall|k: int| 0 <= k < plan.len() implies is_for_one_of(
            rows,
            #[trigger] plan[k],
        ) by {
            if k < before.len() {
                assert(plan[k] == before[k]);
                assert(is_for_one_of(rest, before[k]));
                let j = choose|j: int|
                    0 <= j < rest.len() && #[trigger] is_planned(rest[j], before[k]);
                assert(is_planned(rows[j], plan[k]));
            } else {
                assert(is_planned(rows[n], plan[k]));
            }
        }
        assert forall|i: int, bytes: Seq<u8>|
            0 <= i < rows.len() && #[trigger] is_planned(
                rows[i],
                (rows[i].0, bytes),
            ) implies plan.contains((rows[i].0, bytes)) by {
            if i < n {
                assert(is_planned(rest[i], (rest[i].0, bytes)));
                let k = choose|k: int| 0 <= k < before.len() && before[k] == (rest[i].0, bytes);
                assert(plan[k] == before[k]);
            } else {
                assert(plan[plan.len() - 1] == (rows[n].0, bytes));
            }
        }
    }
}

/// A write that was never tried again is tried again three times at most, and only while the
/// database says that it is busy; each time that it is, that is counted.
pub proof fn law_retries_are_counted(
    first: Retry,
    retry: &mut Retry,
    attempt: Attempt,
    next: Decision,
)
    requires
        call_ensures(Retry::new, (), first),
        old(retry).is_valid(),
        call_ensures(Retry::next, (retry, attempt), next),
    ensures
        first.retries() == 0,
        next is Succeed <==> attempt is Done,
        next is TryAgain <==> attempt == (Attempt::Failed { code: Some(5isize) })
            && old(retry).retries() < 3,
        next matches Decision::TryAgain { after_millis } ==> after_millis == 100
            && final(retry).retries() == old(retry).retries() + 1,
        !(next is TryAgain) ==> final(retry).retries() == old(retry).retries(),
{
}

/// A batch is begun with its first write; a write that fails ends it, and takes back what it wrote;
/// and when it ends, what it wrote is kept unless it is given up.
pub proof fn law_batch_ends_with_its_first_failure(
    fresh: Batch,
    batch: &mut Batch,
    done: bool,
    rollback: Option<Statement>,
    last: &mut Batch,
    given_up: bool,
    end: Option<Statement>,
    begin: Statement,
    begun: &mut Batch,
    began: bool,
    next: Admission,
)
    requires
        call_ensures(Batch::new, (), fresh),
        old(begun).phase() is Fresh,
        call_ensures(Batch::begun, (begun, began), ()),
        call_ensures(Batch::next_write, (&*old(last),), next),
        call_ensures(Batch::begin, (), begin),
        old(batch).phase() is Open,
        call_ensures(Batch::written, (batch, done), rollback),
        call_ensures(Batch::finish, (last, given_up), end),
    ensures
        fresh.phase() is Fresh,
        begin is Begin,
        next is First <==> old(last).phase() is Fresh,
        next is Later <==> old(last).phase() is Open,
        next is Refused <==> old(last).phase() is Over,
        began ==> final(begun).phase() is Open,
        !began ==> final(begun).phase() is Over,
        done ==> rollback is None && final(batch).phase() is Open,
        !done ==> (rollback matches Some(s) && s is Rollback) && final(batch).phase() is Over,
        final(last).phase() is Over,
        old(last).phase() is Open && given_up ==> (end matches Some(s) && s is Rollback),
        old(last).phase() is Open && !given_up ==> (end matches Some(s) && s is Commit),
        !(old(last).phase() is Open) ==> end is None,
{
}

} // verus!
