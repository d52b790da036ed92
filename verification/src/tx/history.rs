//! What the transaction functions say of the history of a wallet.
use vstd::prelude::*;

use crate::types::Error;
use crate::wallet::{Wallet, WalletBackend};

verus! {

/// Whether a history goes on where another one ends.
pub open spec fn extends<T>(before: Seq<T>, after: Seq<T>) -> bool {
    &&& before.len() <= after.len()
    &&& forall|i: int| 0 <= i < before.len() ==> #[trigger] after[i] == before[i]
}

/// Whether what a wallet was asked goes on from where it stood: nothing of the record is lost,
/// and the backend was asked all that is new.
pub open spec fn goes_on<B: WalletBackend>(before: Wallet<B>, after: Wallet<B>) -> bool {
    &&& after.is_genuine()
    &&& extends(before.history(), after.history())
    &&& extends(before.states(), after.states())
}

/// Whether an operation succeeds just where the last thing that it asks for does, and otherwise
/// fails with the error of that.
pub open spec fn passes_on<T, U>(reply: Result<T, Error>, result: Result<U, Error>) -> bool {
    match reply {
        Ok(_) => result is Ok,
        Err(e) => result == Err::<U, Error>(e),
    }
}

} // verus!
