//! Keys that were kept as text, and the bytes that they stand for.
use vstd::prelude::*;

use crate::db::statement::{Command, Statement};
use crate::text::decimal;

verus! {

/// Numbers in decimal, with commas between.
pub open spec fn list_text(bytes: Seq<u8>) -> Seq<char>
    decreases bytes.len(),
{
    if bytes.len() == 0 {
        Seq::empty()
    } else if bytes.len() == 1 {
        decimal(bytes[0] as nat)
    } else {
        list_text(bytes.drop_last()) + seq![',', ' '] + decimal(bytes.last() as nat)
    }
}

/// The text as which a key was kept: its bytes in decimal, with commas between, in brackets.
pub open spec fn legacy_text(key: Seq<u8>) -> Seq<char> {
    seq!['['] + list_text(key) + seq![']']
}

/// Whether a text stands in brackets.
pub open spec fn in_brackets(text: Seq<char>) -> bool {
    text.len() > 0 && text[0] == '[' && text.last() == ']'
}

/// The bytes that a text lists in JSON: what `from_str` of the crate serde_json makes of it.
pub uninterp spec fn json_bytes(text: Seq<char>) -> Option<Seq<u8>>;

/// The key that a text was kept for, if it was kept for one.
pub open spec fn legacy_key_of(text: Seq<char>) -> Option<Seq<u8>> {
    if in_brackets(text) {
        json_bytes(text)
    } else {
        None
    }
}

/// Bytes, if there are any, as a sequence.
pub open spec fn viewed(bytes: Option<Vec<u8>>) -> Option<Seq<u8>> {
    match bytes {
        Some(b) => Some(b@),
        None => None,
    }
}

/// `from_str` of the crate serde_json, for a vector of bytes. The result is named. Of a list in
/// brackets of numbers below 256, with a comma and a blank between, it makes those bytes.
#[verifier::external_body]
fn parse_bytes(text: &str) -> (bytes: Option<Vec<u8>>)
    ensures
        viewed(bytes) == json_bytes(text@),
        forall|key: Seq<u8>|
            text@ == #[trigger] legacy_text(key) ==> viewed(bytes) == Some(key),
{
    serde_json::from_str::<Vec<u8>>(text).ok()
}

/// Whether a text stands in brackets.
pub fn has_brackets(text: &str) -> (found: bool)
    ensures
        found == in_brackets(text@),
{
    let n: usize = text.unicode_len();
    n > 0 && text.get_char(0) == '[' && text.get_char(n - 1) == ']'
}

/// The key that a text was kept for, if it was kept for one. For the text as which a key was
/// kept, it is the key.
pub fn legacy_key(text: &str) -> (key: Option<Vec<u8>>)
    ensures
        viewed(key) == legacy_key_of(text@),
        forall|k: Seq<u8>| text@ == #[trigger] legacy_text(k) ==> viewed(key) == Some(k),
{
    proof {
        assert forall|k: Seq<u8>| text@ == #[trigger] legacy_text(k) implies in_brackets(
            text@,
        ) by {
            assert(text@[0] == '[');
            assert(text@.last() == ']');
        }
    }
    if has_brackets(text) {
        parse_bytes(text)
    } else {
        None
    }
}

/// The id of a row, and its key if that is text.
#[derive(Debug, PartialEq, Eq)]
pub struct KeyRow {
    pub id: i64,
    pub key: Option<String>,
}

/// The id of a row, and the key that it is to have.
#[derive(Debug, PartialEq, Eq)]
pub struct KeyRewrite {
    pub id: i64,
    pub key: Vec<u8>,
}

impl View for KeyRow {
    type V = (int, Option<Seq<char>>);

    open spec fn view(&self) -> (int, Option<Seq<char>>) {
        (
            self.id as int,
            match self.key {
                Some(text) => Some(text@),
                None => None,
            },
        )
    }
}

impl View for KeyRewrite {
    type V = (int, Seq<u8>);

    open spec fn view(&self) -> (int, Seq<u8>) {
        (self.id as int, self.key@)
    }
}

/// The keys that rows are to have, for those whose keys were kept as text, in the order of the
/// rows.
pub open spec fn rewrites_of(rows: Seq<(int, Option<Seq<char>>)>) -> Seq<(int, Seq<u8>)>
    decreases rows.len(),
{
    if rows.len() == 0 {
        Seq::empty()
    } else {
        let before = rewrites_of(rows.drop_last());
        match rows.last().1 {
            Some(text) => match legacy_key_of(text) {
                Some(key) => before.push((rows.last().0, key)),
                None => before,
            },
            None => before,
        }
    }
}

/// The key of a row is rewritten if and only if it is text that begins with an opening and ends
/// with a closing bracket and lists bytes in JSON, and then to just those bytes. What is to be
/// done with one row more is what was to be done before, and that row last.
pub proof fn law_listed_keys_are_rewritten(
    rows: Seq<(int, Option<Seq<char>>)>,
    id: int,
    key: Option<Seq<char>>,
)
    ensures
        rewrites_of(Seq::empty()).len() == 0,
        ({
            let before = rewrites_of(rows);
            let after = rewrites_of(rows.push((id, key)));
            match key {
                None => after == before,
                Some(text) => if text.len() > 0 && text[0] == '[' && text[text.len() - 1] == ']'
                    && json_bytes(text) is Some {
                    after == before.push((id, json_bytes(text)->0))
                } else {
                    after == before
                },
            }
        }),
{
    assert(rows.push((id, key)).drop_last() =~= rows);
}

/// What rows hold.
pub open spec fn viewed_rows(rows: Seq<KeyRow>) -> Seq<(int, Option<Seq<char>>)> {
    Seq::new(rows.len(), |i: int| rows[i]@)
}

/// What rewrites say.
pub open spec fn viewed_rewrites(rewrites: Seq<KeyRewrite>) -> Seq<(int, Seq<u8>)> {
    Seq::new(rewrites.len(), |i: int| rewrites[i]@)
}

/// Notes the key that a row is to have, if it is to have another one.
pub fn note_rewrite(rewrites: &mut Vec<KeyRewrite>, id: i64, key: Option<Vec<u8>>)
    ensures
        viewed_rewrites(final(rewrites)@) == match key {
            Some(k) => viewed_rewrites(old(rewrites)@).push((id as int, k@)),
            None => viewed_rewrites(old(rewrites)@),
        },
{
    if let Some(key) = key {
        rewrites.push(KeyRewrite { id, key });
        assert(viewed_rewrites(rewrites@) =~= viewed_rewrites(old(rewrites)@).push(
            (id as int, key@),
        ));
    }
}

/// The keys that rows are to have, for those whose keys were kept as text. A row with the text
/// as which a key was kept is to have that key.
pub fn plan_migration(rows: &Vec<KeyRow>) -> (rewrites: Vec<KeyRewrite>)
    ensures
        viewed_rewrites(rewrites@) == rewrites_of(viewed_rows(rows@)),
        forall|i: int, key: Seq<u8>|
            #![trigger rows@[i], legacy_text(key)]
            0 <= i < rows@.len() && rows@[i]@.1 == Some(legacy_text(key)) ==> legacy_key_of(
                legacy_text(key),
            ) == Some(key) && viewed_rewrites(rewrites@).contains((rows@[i].id as int, key)),
{
    let mut rows_to_fix: Vec<KeyRewrite> = Vec::new();
    let mut i: usize = 0;
    while i < rows.len()
        invariant
            i <= rows@.len(),
            viewed_rewrites(rows_to_fix@) == rewrites_of(viewed_rows(rows@).take(i as int)),
            forall|j: int, key: Seq<u8>|
                #![trigger rows@[j], legacy_text(key)]
                0 <= j < i && rows@[j]@.1 == Some(legacy_text(key)) ==> legacy_key_of(
                    legacy_text(key),
                ) == Some(key) && viewed_rewrites(rows_to_fix@).contains((rows@[j].id as int, key)),
        decreases rows@.len() - i,
    {
        let ghost done = viewed_rows(rows@).take(i + 1);
        assert(done.drop_last() =~= viewed_rows(rows@).take(i as int));
        assert(done.last() == rows@[i as int]@);
        if let Some(text) = &rows[i].key {
            let ghost before = viewed_rewrites(rows_to_fix@);
            let key = legacy_key(text.as_str());
            note_rewrite(&mut rows_to_fix, rows[i].id, key);
            proof {
                let after = viewed_rewrites(rows_to_fix@);
                assert forall|r: (int, Seq<u8>)|
                    before.contains(r) implies #[trigger] after.contains(r) by {
                    let k = choose|k: int| 0 <= k < before.len() && before[k] == r;
                    assert(after[k] == r);
                }
                if key is Some {
                    assert(after[after.len() - 1] == (rows@[i as int].id as int, key->0@));
                }
            }
        }
        i = i + 1;
    }
    assert(viewed_rows(rows@).take(i as int) =~= viewed_rows(rows@));
    rows_to_fix
}

impl KeyRewrite {
    /// The statement that gives the row its key.
    pub fn into_statement(self) -> (statement: Statement)
        ensures
            statement@ == (Command::Rekey { id: self.id as int, key: self.key@ }),
            statement.is_writable(),
    {
        Statement::Rekey { id: self.id, key: self.key }
    }
}

} // verus!
