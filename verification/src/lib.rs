//! The transactions of a wallet and the table in which it keeps its records.
//!
//! - `tx`: building, storing, cancelling and proving transactions.
//! - `payment_proof`: the message that a payment proof signs, and the checks on a proof.
//! - `wallet`: what a wallet is built on, and the record of what it was asked.
//! - `db`: the statements that are put to the database, and what they do to the table.
//! - `build_script`: what the build says about the database library.
//! - `ed25519`, `text`, `types`: keys, texts and plain data.
pub mod build_script;
pub mod db;
pub mod ed25519;
pub mod payment_proof;
pub mod text;
pub mod tx;
pub mod types;
pub mod wallet;
