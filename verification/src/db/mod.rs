//! The table in which the wallet keeps its records.
pub mod atomicity;
pub mod batch;
pub mod binding;
pub mod migration;
pub mod operations;
pub mod retry;
pub mod statement;
pub mod store;
pub mod table;

pub use batch::{Admission, Batch};
pub use migration::{plan_migration, KeyRewrite, KeyRow};
pub use retry::{Attempt, Decision, Retry};
pub use statement::{Statement, Value};
pub use store::{Serializable, Step, Store};
