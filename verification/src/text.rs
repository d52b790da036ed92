//! Numbers and ids as text.
use vstd::prelude::*;

use crate::types::Uuid;

verus! {

/// The digit of a number below ten.
pub open spec fn digit(n: nat) -> char {
    (48 + n) as char
}

/// A number in decimal, without leading zeros.
pub open spec fn decimal(n: nat) -> Seq<char>
    decreases n,
{
    if n < 10 {
        seq![digit(n)]
    } else {
        decimal(n / 10).push(digit(n % 10))
    }
}

/// The digit of a number below sixteen, in lower case.
pub open spec fn hex_digit(n: int) -> char {
    if n < 10 {
        (48 + n) as char
    } else {
        (87 + n) as char
    }
}

/// The places of the hyphens in the text of an id.
pub open spec fn is_hyphen(i: int) -> bool {
    i == 8 || i == 13 || i == 18 || i == 23
}

/// How many hyphens stand before a place in the text of an id.
pub open spec fn hyphens_before(i: int) -> int {
    if i <= 8 {
        0
    } else if i <= 13 {
        1
    } else if i <= 18 {
        2
    } else if i <= 23 {
        3
    } else {
        4
    }
}

/// The hexadecimal digit at a place among the digits of some bytes, two to a byte.
pub open spec fn nibble(bytes: Seq<u8>, n: int) -> int {
    if n % 2 == 0 {
        bytes[n / 2] as int / 16
    } else {
        bytes[n / 2] as int % 16
    }
}

/// The text of an id: its bytes in hexadecimal, in groups of eight, four, four, four and twelve
/// digits with hyphens between.
pub open spec fn hyphenated(bytes: Seq<u8>) -> Seq<char> {
    Seq::new(
        36,
        |i: int|
            if is_hyphen(i) {
                '-'
            } else {
                hex_digit(nibble(bytes, i - hyphens_before(i)))
            },
    )
}

/// `u32::to_string` of std: the number in decimal.
#[verifier::external_body]
pub(crate) fn u32_to_string(n: u32) -> (text: String)
    ensures
        text@ == decimal(n as nat),
{
    n.to_string()
}

/// `char::to_string` of std: the text of that one character.
#[verifier::external_body]
pub(crate) fn char_to_string(c: char) -> (text: String)
    ensures
        text@ == seq![c],
{
    c.to_string()
}

/// `Uuid::from_slice` of the crate uuid: the id with the given bytes, if there are sixteen of
/// them.
#[verifier::external_body]
fn uuid_from_slice(bytes: &[u8]) -> (id: Option<[u8; 16]>)
    ensures
        id is Some <==> bytes@.len() == 16,
        id matches Some(b) ==> b@ == bytes@,
{
    match uuid::Uuid::from_slice(bytes) {
        Ok(id) => Some(*id.as_bytes()),
        Err(_) => None,
    }
}

/// `to_string` of `Uuid` of the crate uuid: the hyphenated text, in lower case.
#[verifier::external_body]
fn uuid_to_string(bytes: &[u8; 16]) -> (text: String)
    ensures
        text@ == hyphenated(bytes@),
{
    uuid::Uuid::from_bytes(*bytes).to_string()
}

impl Uuid {
    /// The id with the given bytes. There is none unless there are sixteen bytes.
    pub fn from_slice(bytes: &[u8]) -> (id: Option<Uuid>)
        ensures
            id is Some <==> bytes@.len() == 16,
            id matches Some(id) ==> id@ == bytes@,
    {
        match uuid_from_slice(bytes) {
            Some(bytes) => Some(Uuid { bytes }),
            None => None,
        }
    }

    /// The id as text.
    pub fn to_string(&self) -> (text: String)
        ensures
            text@ == hyphenated(self@),
    {
        uuid_to_string(&self.bytes)
    }
}

} // verus!
