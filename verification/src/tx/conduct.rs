//! What is asked of a wallet in the course of each operation, and what becomes of the replies.
use vstd::prelude::*;

use crate::ed25519::{ed25519_accepts, ed25519_public_key, ed25519_signature};
use crate::payment_proof::{message_of, refused};
use crate::text::{decimal, hyphenated};
use crate::tx::building::{
    add_inputs_run, add_output_run, complete_run, estimate_run, new_tx_slate_run,
    test_slate_id_bytes,
};
use crate::tx::history::goes_on;
use crate::tx::laws::law_own_side_is_unique;
use crate::tx::log::{
    cancel_run, own_side_is, save_messages_run, store_run, update_message_run, update_stored_run,
};
use crate::tx::proving::verify_run;
use crate::types::{
    Commitment, Context, Error, Identifier, PaymentInfo, SecretKey, Slate, StoredProofInfo,
    TxLogEntry, TxLogEntryType, Uuid,
};
use crate::wallet::{unborrowed, Call, Wallet, WalletBackend};

verus! {

/// The error that the backend replied with, if it did.
pub open spec fn error_of<B: WalletBackend>(call: Call<B>) -> Option<Error> {
    match call {
        Call::GetChainTip { reply: Err(e) } => Some(e),
        Call::RefreshOutputs { reply: Err(e), .. } => Some(e),
        Call::SelectCoinsAndFee { reply: Err(e), .. } => Some(e),
        Call::Keychain { reply: Err(e), .. } => Some(e),
        Call::BuildSendTx { reply: Err(e), .. } => Some(e),
        Call::BuildRecipientOutput { reply: Err(e), .. } => Some(e),
        Call::FillRound1 { reply: Err(e), .. } => Some(e),
        Call::FillRound2 { reply: Err(e), .. } => Some(e),
        Call::Finalize { reply: Err(e), .. } => Some(e),
        Call::CalcExcess { reply: Err(e), .. } => Some(e),
        Call::AddressFromDerivationPath { reply: Err(e), .. } => Some(e),
        Call::RetrieveTxs { reply: Err(e), .. } => Some(e),
        Call::RetrieveOutputs { reply: Err(e), .. } => Some(e),
        Call::CancelTxAndOutputs { reply: Err(e), .. } => Some(e),
        Call::StoreTx { reply: Err(e), .. } => Some(e),
        Call::Batch { reply: Err(e), .. } => Some(e),
        Call::SaveTxLogEntry { reply: Err(e), .. } => Some(e),
        Call::Commit { reply: Err(e), .. } => Some(e),
        _ => None,
    }
}

/// Whether an operation stops at the first error of the backend, and fails with that error.
pub open spec fn stops_at_error<B: WalletBackend, T>(
    history: Seq<Call<B>>,
    at: int,
    result: Result<T, Error>,
) -> bool {
    &&& at < history.len()
    &&& forall|i: int| at <= i < history.len() - 1 ==> error_of(#[trigger] history[i]) is None
    &&& error_of(history.last()) matches Some(e) ==> result == Err::<T, Error>(e)
}

/// Whether an operation has no errors but those of the backend.
pub open spec fn fails_with_backend_only<B: WalletBackend, T>(
    history: Seq<Call<B>>,
    result: Result<T, Error>,
) -> bool {
    result matches Err(e) ==> error_of(history.last()) == Some(e)
}

/// A wallet that goes on forgets nothing: what was asked of it before is still in its record, in
/// its place, and all that is new was asked of the backend.
pub proof fn law_nothing_is_forgotten<B: WalletBackend>(before: Wallet<B>, after: Wallet<B>)
    requires
        goes_on(before, after),
    ensures
        before.history().len() <= after.history().len(),
        after.history().take(before.history().len() as int) == before.history(),
        before.states().len() <= after.states().len(),
        after.states().take(before.states().len() as int) == before.states(),
        after.states().len() == after.history().len() + 1,
        after.states().last() == after.backend(),
        forall|i: int|
            0 <= i < after.history().len() ==> B::answers(
                after.states()[i],
                #[trigger] after.history()[i],
                after.states()[i + 1],
            ),
{
    assert(after.history().take(before.history().len() as int) =~= before.history());
    assert(after.states().take(before.states().len() as int) =~= before.states());
}

/// What is borrowed is recorded as what it is.
pub proof fn law_borrowed_values_are_recorded<T>(value: &T)
    ensures
        unborrowed(Some(value)) == Some(*value),
        unborrowed(None::<&T>) == None::<T>,
{
}

/// A new slate is the blank slate that the backend makes for so many parties, but for the amount,
/// the heights, the version and, for tests, the id. It is made wherever the node tells the height
/// of the tip and the slate does not expire past the largest height; the counter goes up by one
/// just where a slate for tests is made.
pub proof fn law_new_slate_is_the_blank_one_filled_in<B: WalletBackend>(
    history: Seq<Call<B>>,
    at: int,
    amount: u64,
    num_participants: usize,
    use_test_rng: bool,
    ttl_blocks: Option<u64>,
    count: u8,
    new_count: u8,
    result: Result<Slate<B>, Error>,
)
    requires
        0 <= at,
        new_tx_slate_run(
            history,
            at,
            amount,
            num_participants,
            use_test_rng,
            ttl_blocks,
            count,
            new_count,
            result,
        ),
    ensures
        stops_at_error(history, at, result),
        history[at] is GetChainTip,
        history.len() > at + 1 ==> (history[at + 1] matches Call::BlankSlate {
            num_participants: parties,
            ..
        } && parties == num_participants),
        result matches Err(e) ==> new_count == count && (error_of(history.last()) == Some(e) || (e
            == Error::TtlOutOfRange && ttl_blocks is Some && history[at]->GetChainTip_reply->Ok_0
            + ttl_blocks->0 > u64::MAX)),
        result matches Ok(slate) ==> {
            let blank = history[at + 1]->BlankSlate_reply;
            &&& history.len() == at + 4
            &&& history[at]->GetChainTip_reply == Ok::<u64, Error>(slate.height)
            &&& history[at + 2] matches Call::ValidHeaderVersion {
                height: height_6,
                version: 6,
                reply: is_6,
            }
            &&& history[at + 3] matches Call::ValidHeaderVersion {
                height: height_7,
                version: 7,
                reply: is_7,
            }
            &&& height_6 == slate.height && height_7 == slate.height
            &&& slate.amount == amount
            &&& slate.lock_height == 0
            &&& match ttl_blocks {
                Some(blocks) => slate.ttl_cutoff_height matches Some(cutoff) && cutoff
                    == slate.height + blocks,
                None => slate.ttl_cutoff_height == blank.ttl_cutoff_height,
            }
            &&& is_7 ==> slate.version_info.block_header_version == 7
            &&& !is_7 && is_6 ==> slate.version_info.block_header_version == 6
            &&& !is_7 && !is_6 ==> slate.version_info == blank.version_info
            &&& slate.payment_proof == blank.payment_proof
            &&& slate.tx == blank.tx
            &&& slate.parts == blank.parts
            &&& !use_test_rng ==> slate.id == blank.id && new_count == count
            &&& use_test_rng ==> slate.id@.len() == 16 && slate.id@[15] == count && new_count
                == count + 1
            &&& use_test_rng ==> forall|other: u8, i: int|
                0 <= i < 15 ==> slate.id@[i] == #[trigger] test_slate_id_bytes(other)[i]
        },
{
    assert forall|i: int| at <= i < history.len() - 1 implies error_of(
        #[trigger] history[i],
    ) is None by {
        assert(i == at || i == at + 1 || i == at + 2);
    }
    if let Ok(slate) = result {
        if use_test_rng {
            assert forall|other: u8, i: int| 0 <= i < 15 implies slate.id@[i]
                == #[trigger] test_slate_id_bytes(other)[i] by {
                assert(slate.id@ == test_slate_id_bytes(count));
                assert(i == 0 || i == 1 || i == 2 || i == 3 || i == 4 || i == 5 || i == 6 || i == 7
                    || i == 8 || i == 9 || i == 10 || i == 11 || i == 12 || i == 13 || i == 14);
            }
        }
        assert(slate.version_info.block_header_version == history[at
            + 1]->BlankSlate_reply.version_info.block_header_version ==> slate.version_info
            == history[at + 1]->BlankSlate_reply.version_info);
    }
}

/// An estimate is for just the payment that was asked for, at the height of the tip, over outputs
/// that were brought up to date: what it gives is the total and the fee of the coins that would be
/// picked. It fails only where the backend does.
pub proof fn law_estimate_is_of_the_payment<B: WalletBackend>(
    history: Seq<Call<B>>,
    at: int,
    mask: Option<SecretKey>,
    amount: u64,
    minimum_confirmations: u64,
    max_outputs: usize,
    num_change_outputs: usize,
    use_all: bool,
    parent: Identifier,
    result: Result<(u64, u64), Error>,
)
    requires
        0 <= at,
        estimate_run(
            history,
            at,
            mask,
            amount,
            minimum_confirmations,
            max_outputs,
            num_change_outputs,
            use_all,
            parent,
            result,
        ),
    ensures
        stops_at_error(history, at, result),
        fails_with_backend_only(history, result),
        history.len() <= at + 3,
        history[at] is GetChainTip,
        history.len() > at + 1 ==> asks_to_refresh(history[at + 1], mask, parent),
        history.len() > at + 2 ==> (history[at + 2] matches Call::SelectCoinsAndFee {
            amount: a,
            current_height: h,
            minimum_confirmations: c,
            max_outputs: m,
            num_change_outputs: n,
            selection_strategy_is_use_all: all,
            parent_key_id: p,
            ..
        } && a == amount && history[at]->GetChainTip_reply == Ok::<u64, Error>(h) && c
            == minimum_confirmations && m == max_outputs && n == num_change_outputs && all
            == use_all && p == parent),
        result matches Ok((total, fee)) ==> {
            &&& history.len() == at + 3
            &&& history[at + 2]->SelectCoinsAndFee_reply matches Ok(selection)
            &&& total == selection.total
            &&& fee == selection.fee
        },
{
    assert forall|i: int| at <= i < history.len() - 1 implies error_of(
        #[trigger] history[i],
    ) is None by {
        assert(i == at || i == at + 1);
    }
}

/// Whether the backend is asked to bring the outputs of an account up to date, and no others.
pub open spec fn asks_to_refresh<B: WalletBackend>(
    call: Call<B>,
    mask: Option<SecretKey>,
    parent: Identifier,
) -> bool {
    &&& call matches Call::RefreshOutputs { keychain_mask, parent_key_id, update_all, .. }
    &&& keychain_mask == mask
    &&& parent_key_id == parent
    &&& update_all == false
}

/// Whether the backend is asked for the keys under a mask.
pub open spec fn asks_for_keys<B: WalletBackend>(call: Call<B>, mask: Option<SecretKey>) -> bool {
    call matches Call::Keychain { keychain_mask, .. } && keychain_mask == mask
}

/// Whether two calls are those of the first round of a party: the keys under a mask are asked for,
/// and the round is run with them on the slate that was left, with the secrets that were made.
pub open spec fn asks_for_round_1<B: WalletBackend>(
    keys: Call<B>,
    round: Call<B>,
    mask: Option<SecretKey>,
    left: Slate<B>,
    secrets: Context<B>,
    id: usize,
    text: Option<String>,
    test_rng: bool,
) -> bool {
    &&& asks_for_keys(keys, mask)
    &&& round matches Call::FillRound1 {
        before,
        keychain,
        sec_key_before,
        sec_nonce,
        participant_id,
        message,
        use_test_rng,
        ..
    }
    &&& keys->Keychain_reply == Ok::<B::Keychain, Error>(keychain)
    &&& before == left
    &&& sec_key_before == secrets.sec_key
    &&& sec_nonce == secrets.sec_nonce
    &&& participant_id == id
    &&& message == text
    &&& use_test_rng == test_rng
}

/// Whether two calls are those of the second round of a party: the keys under a mask are asked
/// for, and the slate that was left is signed with them and the given secrets.
pub open spec fn asks_for_round_2<B: WalletBackend>(
    keys: Call<B>,
    round: Call<B>,
    mask: Option<SecretKey>,
    left: Slate<B>,
    key: SecretKey,
    nonce: SecretKey,
    id: usize,
) -> bool {
    &&& asks_for_keys(keys, mask)
    &&& round matches Call::FillRound2 {
        before,
        keychain,
        sec_key,
        sec_nonce,
        participant_id,
        ..
    }
    &&& keys->Keychain_reply == Ok::<B::Keychain, Error>(keychain)
    &&& before == left
    &&& sec_key == key
    &&& sec_nonce == nonce
    &&& participant_id == id
}

/// The sender builds on the slate that it is given, and each step on the slate that the step
/// before left: the inputs are added to the given slate, the first round begins with that, and the
/// second with what the first leaves. What was asked for is handed on as it is; the secrets that
/// the sender is left with are those that were made for it, with the secret key that the first
/// round leaves; and it fails only where the backend does.
pub proof fn law_sender_builds_on_the_given_slate<B: WalletBackend>(
    history: Seq<Call<B>>,
    at: int,
    mask: Option<SecretKey>,
    slate: Slate<B>,
    min_confirmations: u64,
    outputs_limit: usize,
    change_outputs: usize,
    use_all: bool,
    parent: Identifier,
    participant_id: usize,
    message: Option<String>,
    is_initiator: bool,
    test_rng: bool,
    new_slate: Slate<B>,
    result: Result<Context<B>, Error>,
)
    requires
        0 <= at,
        add_inputs_run(
            history,
            at,
            mask,
            slate,
            min_confirmations,
            outputs_limit,
            change_outputs,
            use_all,
            parent,
            participant_id,
            message,
            is_initiator,
            test_rng,
            new_slate,
            result,
        ),
    ensures
        stops_at_error(history, at, result),
        fails_with_backend_only(history, result),
        history.len() <= if is_initiator {
            at + 5
        } else {
            at + 7
        },
        asks_to_refresh(history[at], mask, parent),
        history.len() > at + 1 ==> asks_for_keys(history[at + 1], mask),
        history.len() > at + 2 ==> (history[at + 2] matches Call::BuildSendTx {
            keychain,
            keychain_mask,
            before,
            minimum_confirmations,
            max_outputs,
            num_change_outputs,
            selection_strategy_is_use_all,
            parent_key_id,
            use_test_rng,
            ..
        } && {
            &&& before == slate
            &&& before.amount == slate.amount
            &&& history[at + 1]->Keychain_reply == Ok::<B::Keychain, Error>(keychain)
            &&& keychain_mask == mask
            &&& minimum_confirmations == min_confirmations
            &&& max_outputs == outputs_limit
            &&& num_change_outputs == change_outputs
            &&& selection_strategy_is_use_all == use_all
            &&& parent_key_id == parent
            &&& use_test_rng == test_rng
        }),
        history.len() > at + 3 ==> asks_for_keys(history[at + 3], mask),
        history.len() > at + 4 ==> asks_for_round_1(
            history[at + 3],
            history[at + 4],
            mask,
            history[at + 2]->BuildSendTx_after,
            history[at + 2]->BuildSendTx_reply->Ok_0,
            participant_id,
            message,
            test_rng,
        ),
        history.len() > at + 5 ==> asks_for_keys(history[at + 5], mask),
        history.len() > at + 6 ==> asks_for_round_2(
            history[at + 5],
            history[at + 6],
            mask,
            history[at + 4]->FillRound1_after,
            history[at + 4]->FillRound1_sec_key_after,
            history[at + 2]->BuildSendTx_reply->Ok_0.sec_nonce,
            participant_id,
        ),
        new_slate == if history.len() <= at + 2 {
            slate
        } else if history.len() <= at + 4 {
            history[at + 2]->BuildSendTx_after
        } else if history.len() <= at + 6 {
            history[at + 4]->FillRound1_after
        } else {
            history[at + 6]->FillRound2_after
        },
        result matches Ok(secrets) ==> {
            let made = history[at + 2]->BuildSendTx_reply->Ok_0;
            &&& history.len() == if is_initiator {
                at + 5
            } else {
                at + 7
            }
            &&& secrets.sec_key == history[at + 4]->FillRound1_sec_key_after
            &&& secrets.sec_nonce == made.sec_nonce
            &&& secrets.payment_proof_derivation_index == made.payment_proof_derivation_index
            &&& secrets.parts == made.parts
        },
{
    assert forall|i: int| at <= i < history.len() - 1 implies error_of(
        #[trigger] history[i],
    ) is None by {
        assert(i == at || i == at + 1 || i == at + 2 || i == at + 3 || i == at + 4 || i == at + 5);
    }
}

/// The receiver builds on the slate that it is given, and each step on the slate that the step
/// before left: the output is added to the given slate, the first round begins with that, for
/// party 1, and the second with what the first leaves, for the party that was asked for. What was
/// asked for is handed on as it is; the secrets that the receiver is left with are those that were
/// made for it, with the secret key that the first round leaves; and it fails only where the
/// backend does.
pub proof fn law_receiver_builds_on_the_given_slate<B: WalletBackend>(
    history: Seq<Call<B>>,
    at: int,
    mask: Option<SecretKey>,
    slate: Slate<B>,
    parent: Identifier,
    participant_id: usize,
    message: Option<String>,
    is_initiator: bool,
    test_rng: bool,
    new_slate: Slate<B>,
    result: Result<Context<B>, Error>,
)
    requires
        0 <= at,
        add_output_run(
            history,
            at,
            mask,
            slate,
            parent,
            participant_id,
            message,
            is_initiator,
            test_rng,
            new_slate,
            result,
        ),
    ensures
        stops_at_error(history, at, result),
        fails_with_backend_only(history, result),
        history.len() <= if is_initiator {
            at + 3
        } else {
            at + 5
        },
        history[at] matches Call::BuildRecipientOutput {
            keychain_mask,
            before,
            parent_key_id,
            use_test_rng,
            ..
        } && {
            &&& before == slate
            &&& before.amount == slate.amount
            &&& keychain_mask == mask
            &&& parent_key_id == parent
            &&& use_test_rng == test_rng
        },
        history.len() > at + 1 ==> asks_for_keys(history[at + 1], mask),
        history.len() > at + 2 ==> asks_for_round_1(
            history[at + 1],
            history[at + 2],
            mask,
            history[at]->BuildRecipientOutput_after,
            history[at]->BuildRecipientOutput_reply->Ok_0.1,
            1,
            message,
            test_rng,
        ),
        history.len() > at + 3 ==> asks_for_keys(history[at + 3], mask),
        history.len() > at + 4 ==> asks_for_round_2(
            history[at + 3],
            history[at + 4],
            mask,
            history[at + 2]->FillRound1_after,
            history[at + 2]->FillRound1_sec_key_after,
            history[at]->BuildRecipientOutput_reply->Ok_0.1.sec_nonce,
            participant_id,
        ),
        new_slate == if history.len() <= at + 2 {
            history[at]->BuildRecipientOutput_after
        } else if history.len() <= at + 4 {
            history[at + 2]->FillRound1_after
        } else {
            history[at + 4]->FillRound2_after
        },
        result matches Ok(secrets) ==> {
            let made = history[at]->BuildRecipientOutput_reply->Ok_0.1;
            &&& history.len() == if is_initiator {
                at + 3
            } else {
                at + 5
            }
            &&& secrets.sec_key == history[at + 2]->FillRound1_sec_key_after
            &&& secrets.sec_nonce == made.sec_nonce
            &&& secrets.payment_proof_derivation_index == made.payment_proof_derivation_index
            &&& secrets.parts == made.parts
        },
{
    assert forall|i: int| at <= i < history.len() - 1 implies error_of(
        #[trigger] history[i],
    ) is None by {
        assert(i == at || i == at + 1 || i == at + 2 || i == at + 3);
    }
}

/// A transaction is completed on the slate that is given: that is signed with the secrets of the
/// party, and the final transaction is built out of the signed slate. It fails only where the
/// backend does.
pub proof fn law_completing_builds_on_the_given_slate<B: WalletBackend>(
    history: Seq<Call<B>>,
    at: int,
    mask: Option<SecretKey>,
    slate: Slate<B>,
    participant_id: usize,
    context: Context<B>,
    new_slate: Slate<B>,
    result: Result<(), Error>,
)
    requires
        0 <= at,
        complete_run(history, at, mask, slate, participant_id, context, new_slate, result),
    ensures
        stops_at_error(history, at, result),
        fails_with_backend_only(history, result),
        history.len() <= at + 4,
        asks_for_keys(history[at], mask),
        history.len() > at + 1 ==> asks_for_round_2(
            history[at],
            history[at + 1],
            mask,
            slate,
            context.sec_key,
            context.sec_nonce,
            participant_id,
        ),
        history.len() > at + 2 ==> asks_for_keys(history[at + 2], mask),
        history.len() > at + 3 ==> (history[at + 3] matches Call::Finalize {
            before,
            keychain,
            ..
        } && before == history[at + 1]->FillRound2_after && history[at + 2]->Keychain_reply == Ok::<
            B::Keychain,
            Error,
        >(keychain)),
        new_slate == if history.len() <= at + 1 {
            slate
        } else if history.len() <= at + 3 {
            history[at + 1]->FillRound2_after
        } else {
            history[at + 3]->Finalize_after
        },
        result is Ok ==> history.len() == at + 4,
{
    assert forall|i: int| at <= i < history.len() - 1 implies error_of(
        #[trigger] history[i],
    ) is None by {
        assert(i == at || i == at + 1 || i == at + 2);
    }
}

/// Whether the log is asked for the entries that answer to the given ids, in an account if one is
/// given, whether or not they are settled.
pub open spec fn asks_for_entries<B: WalletBackend>(
    call: Call<B>,
    id: Option<u32>,
    slate_id: Option<Uuid>,
    parent: Option<Identifier>,
) -> bool {
    &&& call matches Call::RetrieveTxs {
        tx_id,
        tx_slate_id,
        parent_key_id,
        outstanding_only,
        ..
    }
    &&& tx_id == id
    &&& tx_slate_id == slate_id
    &&& parent_key_id == parent
    &&& outstanding_only == false
}

/// What is cancelled is the one entry that was found, as it was found, with all of its outputs:
/// a payment sent or received that is not confirmed. Where that entry is confirmed, whatever it is
/// of, or is neither of a payment sent nor of one received, or where there is not one entry, the
/// operation is refused by the name of the transaction and nothing more is asked. Where it can be
/// cancelled, only the backend can keep it from being so.
pub proof fn law_confirmed_payments_stay<B: WalletBackend>(
    history: Seq<Call<B>>,
    at: int,
    mask: Option<SecretKey>,
    parent: Identifier,
    tx_id: Option<u32>,
    tx_slate_id: Option<Uuid>,
    result: Result<(), Error>,
)
    requires
        0 <= at,
        cancel_run(history, at, mask, parent, tx_id, tx_slate_id, result),
    ensures
        stops_at_error(history, at, result),
        history.len() <= at + 3,
        asks_for_entries(history[at], tx_id, tx_slate_id, Some(parent)),
        forall|i: int|
            at <= i < history.len() ==> (#[trigger] history[i] matches Call::CancelTxAndOutputs {
                tx,
                ..
            } ==> tx.confirmed == false && tx.tx_type != TxLogEntryType::Other),
        history[at] matches Call::RetrieveTxs { reply: Ok(found), .. } ==> {
            let pending = found@.len() == 1 && found@[0].confirmed == false && (
            found@[0].tx_type == TxLogEntryType::TxSent || found@[0].tx_type
                == TxLogEntryType::TxReceived);
            &&& !pending ==> history.len() == at + 1
            &&& found@.len() != 1 ==> (result matches Err(
                Error::TransactionDoesntExist(text),
            ) && names(text@, tx_id, tx_slate_id))
            &&& found@.len() == 1 && !pending ==> (result matches Err(
                Error::TransactionNotCancellable(text),
            ) && names(text@, tx_id, tx_slate_id))
            &&& pending ==> {
                &&& fails_with_backend_only(history, result)
                &&& history.len() > at + 1
                &&& history[at + 1] matches Call::RetrieveOutputs {
                    keychain_mask,
                    show_spent,
                    tx_id: outputs_of_id,
                    parent_key_id,
                    ..
                }
                &&& keychain_mask == mask
                &&& show_spent == false
                &&& outputs_of_id == Some(found@[0].id)
                &&& parent_key_id == Some(parent)
                &&& history.len() > at + 2 ==> {
                    &&& history[at + 1]->RetrieveOutputs_reply matches Ok(mappings)
                    &&& history[at + 2] matches Call::CancelTxAndOutputs {
                        keychain_mask,
                        tx,
                        outputs,
                        parent_key_id,
                        ..
                    }
                    &&& keychain_mask == mask
                    &&& tx == found@[0]
                    &&& parent_key_id == parent
                    &&& outputs@.len() == mappings@.len()
                    &&& forall|k: int|
                        0 <= k < outputs@.len() ==> #[trigger] outputs@[k] == mappings@[k].output
                }
                &&& result is Ok ==> history.len() == at + 3
            }
        },
{
    assert forall|i: int| at <= i < history.len() - 1 implies error_of(
        #[trigger] history[i],
    ) is None by {
        assert(i == at || i == at + 1);
    }
    assert forall|i: int|
        at <= i < history.len() && (#[trigger] history[i]) is CancelTxAndOutputs implies i == at
        + 2 by {
        assert(i == at || i == at + 1 || i == at + 2);
    }
}

/// Whether a text names a transaction: by the number of its entry if it was asked for by that, else
/// by the id of its slate, else not at all.
pub open spec fn names(text: Seq<char>, tx_id: Option<u32>, tx_slate_id: Option<Uuid>) -> bool {
    &&& tx_id matches Some(id) ==> text == decimal(id as nat)
    &&& tx_id is None ==> (tx_slate_id matches Some(id) ==> text == hyphenated(id@))
    &&& tx_id is None && tx_slate_id is None ==> text.len() == 0
}

/// Whether an entry of the log is of the side that a slate is stored for: of a payment received
/// for an invoice, else of a payment sent.
pub open spec fn is_of_side<B: WalletBackend>(tx: TxLogEntry<B>, is_invoiced: bool) -> bool {
    tx.tx_type == if is_invoiced {
        TxLogEntryType::TxReceived
    } else {
        TxLogEntryType::TxSent
    }
}

/// Whether a place is that of the first entry of the side that a slate is stored for.
pub open spec fn is_first_of_side<B: WalletBackend>(
    entries: Seq<TxLogEntry<B>>,
    is_invoiced: bool,
    i: usize,
) -> bool {
    &&& i < entries.len()
    &&& is_of_side(entries[i as int], is_invoiced)
    &&& forall|j: int| 0 <= j < i ==> !is_of_side(#[trigger] entries[j], is_invoiced)
}

/// Storing needs an entry of the right side: where the log has none for the slate, the operation is
/// refused by the id of the slate and nothing more is asked.
pub proof fn law_storing_needs_an_entry_of_its_side<B: WalletBackend>(
    history: Seq<Call<B>>,
    at: int,
    mask: Option<SecretKey>,
    context: Context<B>,
    slate: Slate<B>,
    is_invoiced: bool,
    result: Result<(), Error>,
)
    requires
        0 <= at,
        update_stored_run(history, at, mask, context, slate, is_invoiced, result),
    ensures
        at < history.len(),
        asks_for_entries(history[at], None, Some(slate.id), None),
        history[at] matches Call::RetrieveTxs { reply: Err(e), .. } ==> history.len() == at + 1
            && result == Err::<(), Error>(e),
        history[at] matches Call::RetrieveTxs { reply: Ok(found), .. } ==> ((forall|j: int|
            0 <= j < found@.len() ==> !is_of_side(#[trigger] found@[j], is_invoiced)) ==> {
            &&& history.len() == at + 1
            &&& result matches Err(Error::TransactionDoesntExist(text))
            &&& text@ == hyphenated(slate.id@)
        }),
{
}

/// The entry that is saved when a transaction is stored is the first of its side that was found,
/// and differs from it in nothing but the kernel excess and the payment proof: in particular it is
/// not confirmed by being stored. Without a proof on the slate the payment proof of the entry stays
/// too. It is saved under its own account, in one batch, once the transaction of the slate is kept
/// under the id in the entry; and only the backend can keep it from being saved, unless the entry
/// does not name its slate.
pub proof fn law_storing_changes_nothing_else<B: WalletBackend>(
    history: Seq<Call<B>>,
    at: int,
    mask: Option<SecretKey>,
    context: Context<B>,
    slate: Slate<B>,
    is_invoiced: bool,
    found: Seq<TxLogEntry<B>>,
    i: usize,
    result: Result<(), Error>,
)
    requires
        0 <= at,
        slate.tx.kernels@.len() > 0,
        update_stored_run(history, at, mask, context, slate, is_invoiced, result),
        history[at] matches Call::RetrieveTxs { reply: Ok(entries), .. } && entries@ == found,
        is_first_of_side(found, is_invoiced, i),
    ensures
        ({
            let entry = found[i as int];
            let n = history.len();
            let first = if slate.payment_proof is Some {
                at + 6
            } else {
                at + 2
            };
            &&& stops_at_error(history, at, result)
            &&& n <= first + 3
            &&& entry.tx_slate_id is None ==> n == at + 1 && result == Err::<(), Error>(
                Error::MissingSlateId,
            )
            &&& entry.tx_slate_id matches Some(id) ==> {
                &&& fails_with_backend_only(history, result)
                &&& n > at + 1
                &&& history[at + 1] matches Call::StoreTx { uuid, tx, .. }
                &&& uuid == hyphenated(id@)
                &&& tx == slate.tx
                &&& result is Ok ==> n == first + 3
            }
            &&& forall|k: int|
                at <= k < n ==> {
                    &&& #[trigger] history[k] is SaveTxLogEntry ==> k == first + 1
                    &&& history[k] is Batch ==> k == first
                    &&& history[k] is Commit ==> k == first + 2
                }
            &&& n > first ==> (history[first] matches Call::Batch { keychain_mask, .. }
                && keychain_mask == mask)
            &&& n > first + 1 ==> {
                &&& history[first + 1] matches Call::SaveTxLogEntry {
                    before,
                    tx,
                    parent_key_id,
                    ..
                }
                &&& history[first]->Batch_reply matches Ok(opened)
                &&& before == opened
                &&& parent_key_id == entry.parent_key_id
                &&& is_same_but_for_proof(tx, entry)
                &&& tx.kernel_excess == Some(slate.tx.kernels@[0].excess)
                &&& slate.payment_proof is None ==> tx.payment_proof == entry.payment_proof
            }
            &&& n > first + 2 ==> {
                &&& history[first + 2] matches Call::Commit { batch, .. }
                &&& batch == history[first + 1]->SaveTxLogEntry_after
            }
        }),
{
    lemma_stored_entry(history, at, mask, context, slate, is_invoiced, found, i, result);
    let n = history.len();
    assert forall|k: int| at <= k < n - 1 implies error_of(#[trigger] history[k]) is None by {
        assert(k == at || k == at + 1 || k == at + 2 || k == at + 3 || k == at + 4 || k == at + 5
            || k == at + 6 || k == at + 7);
    }
    let first = if slate.payment_proof is Some {
        at + 6
    } else {
        at + 2
    };
    assert forall|k: int| at <= k < n implies {
        &&& #[trigger] history[k] is SaveTxLogEntry ==> k == first + 1
        &&& history[k] is Batch ==> k == first
        &&& history[k] is Commit ==> k == first + 2
    } by {
        assert(k == at || k == at + 1 || k == at + 2 || k == at + 3 || k == at + 4 || k == at + 5
            || k == at + 6 || k == at + 7 || k == at + 8);
    }
}

/// Whether two entries are the same in all but the kernel excess and the payment proof.
pub open spec fn is_same_but_for_proof<B: WalletBackend>(
    tx: TxLogEntry<B>,
    entry: TxLogEntry<B>,
) -> bool {
    &&& tx.id == entry.id
    &&& tx.tx_type == entry.tx_type
    &&& tx.confirmed == entry.confirmed
    &&& tx.tx_slate_id == entry.tx_slate_id
    &&& tx.parent_key_id == entry.parent_key_id
    &&& tx.messages == entry.messages
    &&& tx.parts == entry.parts
}

/// What is stored is stored in the first entry of its side.
proof fn lemma_stored_entry<B: WalletBackend>(
    history: Seq<Call<B>>,
    at: int,
    mask: Option<SecretKey>,
    context: Context<B>,
    slate: Slate<B>,
    is_invoiced: bool,
    found: Seq<TxLogEntry<B>>,
    i: usize,
    result: Result<(), Error>,
)
    requires
        update_stored_run(history, at, mask, context, slate, is_invoiced, result),
        history[at] matches Call::RetrieveTxs { reply: Ok(entries), .. } && entries@ == found,
        is_first_of_side(found, is_invoiced, i),
    ensures
        store_run(history, at + 1, mask, context, slate, found[i as int], result),
{
    let place = choose|place: Option<usize>|
        {
            &&& #[trigger] own_side_is(found, is_invoiced, place)
            &&& match place {
                None => {
                    &&& history.len() == at + 1
                    &&& result matches Err(Error::TransactionDoesntExist(text))
                    &&& text@ == hyphenated(slate.id@)
                },
                Some(p) => store_run(
                    history,
                    at + 1,
                    mask,
                    context,
                    slate,
                    found[p as int],
                    result,
                ),
            }
        };
    assert forall|j: int| 0 <= j < i implies !crate::tx::log::is_own_side(
        #[trigger] found[j],
        is_invoiced,
    ) by {
        assert(!is_of_side(found[j], is_invoiced));
    }
    assert(own_side_is(found, is_invoiced, Some(i)));
    law_own_side_is_unique(found, is_invoiced, place, Some(i));
}

/// The payment proof that is stored for a slate with one is of the address that the wallet has, in
/// the account that it is set to, at just the index in the context, or at the first where that has
/// none: with that index, that address, the signature under its key on the amount, the kernel and
/// the sender on the slate, and what the slate says of the receiver.
pub proof fn law_stored_proof_is_of_its_index<B: WalletBackend>(
    history: Seq<Call<B>>,
    at: int,
    mask: Option<SecretKey>,
    context: Context<B>,
    slate: Slate<B>,
    is_invoiced: bool,
    found: Seq<TxLogEntry<B>>,
    i: usize,
    proof: PaymentInfo,
    result: Result<(), Error>,
)
    requires
        0 <= at,
        slate.tx.kernels@.len() > 0,
        update_stored_run(history, at, mask, context, slate, is_invoiced, result),
        history[at] matches Call::RetrieveTxs { reply: Ok(entries), .. } && entries@ == found,
        is_first_of_side(found, is_invoiced, i),
        slate.payment_proof == Some(proof),
    ensures
        history.len() > at + 2 ==> asks_for_keys(history[at + 2], mask),
        history.len() > at + 3 ==> history[at + 3] is ParentKeyId && history.len() > at + 4,
        history.len() > at + 4 ==> (history[at + 4] matches Call::CalcExcess {
            slate: s,
            keychain,
            ..
        } && s == slate && history[at + 2]->Keychain_reply == Ok::<B::Keychain, Error>(keychain)),
        history.len() > at + 5 ==> (history[at + 5] matches Call::AddressFromDerivationPath {
            keychain,
            parent_key_id,
            index,
            ..
        } && history[at + 2]->Keychain_reply == Ok::<B::Keychain, Error>(keychain) && parent_key_id
            == history[at + 3]->ParentKeyId_reply && is_index_of(context, index)),
        history.len() > at + 7 ==> {
            &&& history[at + 7] matches Call::SaveTxLogEntry { tx, .. }
            &&& history[at + 4]->CalcExcess_reply matches Ok(excess)
            &&& history[at + 5]->AddressFromDerivationPath_reply matches Ok(key)
            &&& tx.payment_proof matches Some(stored)
            &&& is_index_of(context, stored.sender_address_path)
            &&& stored.sender_address@ == ed25519_public_key(key@)
            &&& stored.receiver_address == proof.receiver_address
            &&& stored.receiver_signature == proof.receiver_signature
            &&& stored.sender_signature matches Some(signature)
            &&& signature@ == ed25519_signature(
                key@,
                message_of(slate.amount, excess@, proof.sender_address@),
            )
        },
{
    lemma_stored_entry(history, at, mask, context, slate, is_invoiced, found, i, result);
}

/// Whether an index is the one that the secrets of a party name for its address, or the first
/// where they name none.
pub open spec fn is_index_of<B: WalletBackend>(context: Context<B>, index: u32) -> bool {
    &&& context.payment_proof_derivation_index matches Some(i) ==> index == i
    &&& context.payment_proof_derivation_index is None ==> index == 0
}

/// The address that a payment proof is checked against is the one that the wallet has, in the given
/// account, at just the index in the context, whichever that is. The excess is that of the slate;
/// both are asked for with the keys under the mask; and nothing else is asked.
pub proof fn law_proof_is_checked_at_its_index<B: WalletBackend>(
    history: Seq<Call<B>>,
    at: int,
    mask: Option<SecretKey>,
    parent: Identifier,
    context: Context<B>,
    slate: Slate<B>,
    result: Result<(), Error>,
)
    requires
        0 <= at,
        verify_run(history, at, mask, parent, context, slate, result),
    ensures
        stops_at_error(history, at, result),
        history.len() <= at + 4,
        asks_for_entries(history[at], None, Some(slate.id), Some(parent)),
        history.len() > at + 1 ==> asks_for_keys(history[at + 1], mask),
        history.len() > at + 2 ==> (history[at + 2] matches Call::AddressFromDerivationPath {
            keychain,
            parent_key_id,
            index,
            ..
        } && {
            &&& context.payment_proof_derivation_index == Some(index)
            &&& parent_key_id == parent
            &&& history[at + 1]->Keychain_reply == Ok::<B::Keychain, Error>(keychain)
        }),
        history.len() > at + 3 ==> (history[at + 3] matches Call::CalcExcess {
            slate: s,
            keychain,
            ..
        } && s == slate && history[at + 1]->Keychain_reply == Ok::<B::Keychain, Error>(keychain)),
{
    assert forall|i: int| at <= i < history.len() - 1 implies error_of(
        #[trigger] history[i],
    ) is None by {
        assert(i == at || i == at + 1 || i == at + 2);
    }
}

/// A check of a payment proof ends just as the log, the slate and the replies have it. Where the
/// log has no entry, or one of the log and the slate alone has a proof, it is refused at once, and
/// where neither has one it passes at once. Else it passes if and only if the context names an
/// index, the sender on the slate is the address at that index, the receivers in the log and on
/// the slate are the same, and the receiver signed; and each way in which it can fail has a
/// refusal of its own, in that order.
pub proof fn law_proof_is_checked_in_every_respect<B: WalletBackend>(
    history: Seq<Call<B>>,
    at: int,
    mask: Option<SecretKey>,
    parent: Identifier,
    context: Context<B>,
    slate: Slate<B>,
    found: Seq<TxLogEntry<B>>,
    result: Result<(), Error>,
)
    requires
        0 <= at,
        verify_run(history, at, mask, parent, context, slate, result),
        history[at] matches Call::RetrieveTxs { reply: Ok(entries), .. } && entries@ == found,
        error_of(history.last()) is None,
    ensures
        found.len() == 0 ==> history.len() == at + 1 && refused(
            result,
            "TxLogEntry with original proof info not found (is account correct?)",
        ),
        found.len() > 0 && found[0].payment_proof is Some && slate.payment_proof is None
            ==> history.len() == at + 1 && refused(
            result,
            "Expected Payment Proof for this Transaction is not present",
        ),
        found.len() > 0 && found[0].payment_proof is None && slate.payment_proof is Some
            ==> history.len() == at + 1 && refused(result, "Original proof info not stored in tx"),
        found.len() > 0 && found[0].payment_proof is None && slate.payment_proof is None
            ==> history.len() == at + 1 && result is Ok,
        found.len() > 0 ==> (found[0].payment_proof matches Some(stored) ==> (
        slate.payment_proof matches Some(proof) ==> {
            let key = history[at + 2]->AddressFromDerivationPath_reply->Ok_0;
            let excess = history[at + 3]->CalcExcess_reply->Ok_0;
            let sender = ed25519_public_key(key@);
            let message = message_of(slate.amount, excess@, sender);
            let receiver = stored.receiver_address@;
            if context.payment_proof_derivation_index is None {
                &&& history.len() == at + 2
                &&& refused(result, "Payment proof derivation index required")
            } else if proof.sender_address@ != sender {
                &&& history.len() == at + 3
                &&& refused(
                    result,
                    "Sender address on slate does not match original sender address",
                )
            } else if proof.receiver_address@ != receiver {
                &&& history.len() == at + 3
                &&& refused(
                    result,
                    "Recipient address on slate does not match original recipient address",
                )
            } else {
                &&& history.len() == at + 4
                &&& match proof.receiver_signature {
                    None => refused(
                        result,
                        "Recipient did not provide requested proof signature",
                    ),
                    Some(signature) => if ed25519_accepts(receiver, message, signature@) {
                        result is Ok
                    } else {
                        refused(result, "Invalid proof signature")
                    },
                }
            }
        })),
{
}

/// Whether a backend derives keys and excesses: the same keys, account and index give the same
/// secret key each time, and the same slate and keys the same excess.
pub open spec fn derives<B: WalletBackend>(
    history: Seq<Call<B>>,
    key_at: spec_fn(B::Keychain, Identifier, u32) -> SecretKey,
    excess_of: spec_fn(Slate<B>, B::Keychain) -> Commitment,
) -> bool {
    forall|i: int|
        0 <= i < history.len() ==> match #[trigger] history[i] {
            Call::AddressFromDerivationPath {
                keychain,
                parent_key_id,
                index,
                reply: Ok(key),
            } => key == key_at(keychain, parent_key_id, index),
            Call::CalcExcess { slate, keychain, reply: Ok(excess) } => excess == excess_of(
                slate,
                keychain,
            ),
            _ => true,
        }
}

/// A payment proof that was stored for an index passes with the same index. Let a slate with a
/// proof be stored, and then checked in the account that it was stored from, with the same keys
/// and the same index: if the log gives the entry that was saved, and the sender on the slate is
/// the address that was stored, then it passes if and only if the receiver signed; and the address
/// that it is checked against is the one that was stored.
pub proof fn law_stored_proof_passes_with_its_index<B: WalletBackend>(
    key_at: spec_fn(B::Keychain, Identifier, u32) -> SecretKey,
    excess_of: spec_fn(Slate<B>, B::Keychain) -> Commitment,
    storing: Seq<Call<B>>,
    store_at: int,
    store_mask: Option<SecretKey>,
    store_context: Context<B>,
    is_invoiced: bool,
    found: Seq<TxLogEntry<B>>,
    i: usize,
    checking: Seq<Call<B>>,
    at: int,
    mask: Option<SecretKey>,
    parent: Identifier,
    context: Context<B>,
    slate: Slate<B>,
    proof: PaymentInfo,
    stored: StoredProofInfo,
    result: Result<(), Error>,
)
    requires
        0 <= store_at,
        0 <= at,
        slate.tx.kernels@.len() > 0,
        slate.payment_proof == Some(proof),
        derives(storing, key_at, excess_of),
        derives(checking, key_at, excess_of),
        update_stored_run(
            storing,
            store_at,
            store_mask,
            store_context,
            slate,
            is_invoiced,
            Ok::<(), Error>(()),
        ),
        storing[store_at] matches Call::RetrieveTxs { reply: Ok(entries), .. } && entries@ == found,
        is_first_of_side(found, is_invoiced, i),
        storing[store_at + 7] matches Call::SaveTxLogEntry { tx, .. } && tx.payment_proof == Some(
            stored,
        ),
        verify_run(checking, at, mask, parent, context, slate, result),
        error_of(checking.last()) is None,
        checking[at] matches Call::RetrieveTxs { reply: Ok(given), .. } && given@.len() > 0
            && given@[0].payment_proof == Some(stored),
        storing[store_at + 2] matches Call::Keychain { reply: Ok(k), .. } && checking[at
            + 1] matches Call::Keychain { reply: Ok(l), .. } && k == l,
        parent == storing[store_at + 3]->ParentKeyId_reply,
        is_index_of(store_context, 0) ==> context.payment_proof_derivation_index == Some(0u32),
        store_context.payment_proof_derivation_index is Some
            ==> context.payment_proof_derivation_index
            == store_context.payment_proof_derivation_index,
        proof.sender_address@ == stored.sender_address@,
    ensures
        context.payment_proof_derivation_index == Some(stored.sender_address_path),
        checking[at + 2] matches Call::AddressFromDerivationPath { reply: Ok(key), .. }
            && ed25519_public_key(key@) == stored.sender_address@,
        result is Ok <==> (proof.receiver_signature matches Some(signature) && ed25519_accepts(
            stored.receiver_address@,
            message_of(
                slate.amount,
                excess_of(slate, checking[at + 1]->Keychain_reply->Ok_0)@,
                stored.sender_address@,
            ),
            signature@,
        )),
{
    law_storing_changes_nothing_else(
        storing,
        store_at,
        store_mask,
        store_context,
        slate,
        is_invoiced,
        found,
        i,
        Ok::<(), Error>(()),
    );
    law_stored_proof_is_of_its_index(
        storing,
        store_at,
        store_mask,
        store_context,
        slate,
        is_invoiced,
        found,
        i,
        proof,
        Ok::<(), Error>(()),
    );
    law_proof_is_checked_at_its_index(checking, at, mask, parent, context, slate, result);
    let given = checking[at]->RetrieveTxs_reply->Ok_0;
    law_proof_is_checked_in_every_respect(
        checking,
        at,
        mask,
        parent,
        context,
        slate,
        given@,
        result,
    );
    assert(storing[store_at + 5] is AddressFromDerivationPath);
    assert(checking[at + 2] is AddressFromDerivationPath);
    if checking.len() > at + 3 {
        assert(checking[at + 3] is CalcExcess);
    }
}

/// The messages that are kept are those of the slate, in each entry that the log has for it, in the
/// order in which it gave them, under the account of each; an entry changes in nothing else. They
/// are written one after the other in the one batch that was opened, and that batch is committed
/// after the last. Where the log has no entry it is refused by the id of the slate; else only the
/// backend can keep them from being saved.
pub proof fn law_messages_change_nothing_else<B: WalletBackend>(
    history: Seq<Call<B>>,
    at: int,
    mask: Option<SecretKey>,
    slate: Slate<B>,
    found: Seq<TxLogEntry<B>>,
    result: Result<(), Error>,
)
    requires
        0 <= at,
        update_message_run(history, at, mask, slate, result),
        history[at] matches Call::RetrieveTxs { reply: Ok(entries), .. } && entries@ == found,
    ensures
        stops_at_error(history, at, result),
        asks_for_entries(history[at], None, Some(slate.id), None),
        found.len() == 0 ==> history.len() == at + 1 && (result matches Err(
            Error::TransactionDoesntExist(text),
        ) && text@ == hyphenated(slate.id@)),
        found.len() > 0 ==> {
            &&& fails_with_backend_only(history, result)
            &&& history.len() > at + 1
            &&& history[at + 1] matches Call::Batch { keychain_mask, .. }
            &&& keychain_mask == mask
            &&& history.len() <= at + 3 + 2 * found.len()
            &&& result is Ok ==> history.len() == at + 3 + 2 * found.len()
            &&& forall|k: int|
                0 <= k < found.len() && at + 3 + 2 * k < history.len()
                    ==> is_saved_with_messages(history, at + 2, k, slate, #[trigger] found[k])
            &&& history.len() > at + 2 + 2 * found.len() ==> {
                &&& history[at + 2 + 2 * found.len()] matches Call::Commit { batch, .. }
                &&& batch == history[at + 1 + 2 * found.len()]->SaveTxLogEntry_after
            }
        },
{
    if history[at]->RetrieveTxs_reply is Ok && found.len() > 0 {
        if let Ok(batch) = history[at + 1]->Batch_reply {
            lemma_messages_chain(history, at + 2, slate, found, batch, result);
            assert forall|k: int|
                0 <= k < found.len() && at + 3 + 2 * k
                    < history.len() implies is_saved_with_messages(
                history,
                at + 2,
                k,
                slate,
                #[trigger] found[k],
            ) by {
                assert(is_next_in_batch(history, at + 2, k, slate, found[k], batch));
            }
            assert(is_next_in_batch(
                history,
                at + 2,
                found.len() as int - 1,
                slate,
                found[found.len() - 1],
                batch,
            ) || history.len() <= at + 1 + 2 * found.len());
        }
    }
    assert forall|i: int| at <= i < history.len() - 1 implies error_of(
        #[trigger] history[i],
    ) is None by {
        if i >= at + 2 {
            assert(at + 2 <= i < history.len() - 1);
        } else {
            assert(i == at || i == at + 1);
        }
    }
}

/// Whether an entry is the one that is saved at its turn, with the messages of a slate and changed
/// in nothing else, in the batch as the entry before it left it, or as it was opened.
pub open spec fn is_saved_with_messages<B: WalletBackend>(
    history: Seq<Call<B>>,
    from: int,
    k: int,
    slate: Slate<B>,
    entry: TxLogEntry<B>,
) -> bool {
    &&& history[from + 2 * k] matches Call::ParticipantMessages { slate: s, reply: messages }
    &&& s == slate
    &&& history[from + 2 * k + 1] matches Call::SaveTxLogEntry { before, tx, parent_key_id, .. }
    &&& parent_key_id == entry.parent_key_id
    &&& tx.messages == Some(messages)
    &&& tx.id == entry.id
    &&& tx.tx_type == entry.tx_type
    &&& tx.confirmed == entry.confirmed
    &&& tx.tx_slate_id == entry.tx_slate_id
    &&& tx.parent_key_id == entry.parent_key_id
    &&& tx.kernel_excess == entry.kernel_excess
    &&& tx.payment_proof == entry.payment_proof
    &&& tx.parts == entry.parts
    &&& k == 0 ==> history[from - 1]->Batch_reply == Ok::<B::Batch, Error>(before)
    &&& k > 0 ==> before == history[from + 2 * k - 1]->SaveTxLogEntry_after
}

/// The same, with the batch as it was opened.
spec fn is_next_in_batch<B: WalletBackend>(
    history: Seq<Call<B>>,
    from: int,
    k: int,
    slate: Slate<B>,
    entry: TxLogEntry<B>,
    opened: B::Batch,
) -> bool {
    &&& history[from + 2 * k] matches Call::ParticipantMessages { slate: s, reply: messages }
    &&& s == slate
    &&& history[from + 2 * k + 1] matches Call::SaveTxLogEntry { before, tx, parent_key_id, .. }
    &&& parent_key_id == entry.parent_key_id
    &&& tx == (TxLogEntry { messages: Some(messages), ..entry })
    &&& before == if k == 0 {
        opened
    } else {
        history[from + 2 * k - 1]->SaveTxLogEntry_after
    }
}

/// What saving messages comes to, call by call.
proof fn lemma_messages_chain<B: WalletBackend>(
    history: Seq<Call<B>>,
    from: int,
    slate: Slate<B>,
    entries: Seq<TxLogEntry<B>>,
    batch: B::Batch,
    result: Result<(), Error>,
)
    requires
        0 <= from,
        save_messages_run(history, from, slate, entries, batch, result),
    ensures
        stops_at_error(history, from, result),
        fails_with_backend_only(history, result),
        history.len() <= from + 1 + 2 * entries.len(),
        result is Ok ==> history.len() == from + 1 + 2 * entries.len(),
        forall|k: int|
            0 <= k < entries.len() && from + 1 + 2 * k < history.len() ==> is_next_in_batch(
                history,
                from,
                k,
                slate,
                #[trigger] entries[k],
                batch,
            ),
        history.len() > from + 2 * entries.len() ==> {
            &&& history[from + 2 * entries.len()] matches Call::Commit { batch: committed, .. }
            &&& entries.len() == 0 ==> committed == batch
            &&& entries.len() > 0 ==> committed == history[from + 2 * entries.len()
                - 1]->SaveTxLogEntry_after
        },
    decreases entries.len(),
{
    if entries.len() > 0 {
        let rest = entries.drop_first();
        let after = history[from + 1]->SaveTxLogEntry_after;
        if history[from + 1]->SaveTxLogEntry_reply is Ok {
            lemma_messages_chain(history, from + 2, slate, rest, after, result);
        }
        assert forall|k: int|
            0 <= k < entries.len() && from + 1 + 2 * k < history.len() implies is_next_in_batch(
            history,
            from,
            k,
            slate,
            #[trigger] entries[k],
            batch,
        ) by {
            if k > 0 {
                assert(entries[k] == rest[k - 1]);
                assert(is_next_in_batch(history, from + 2, k - 1, slate, rest[k - 1], after));
            }
        }
        assert forall|i: int| from <= i < history.len() - 1 implies error_of(
            #[trigger] history[i],
        ) is None by {
            if i < from + 2 {
                assert(i == from || i == from + 1);
            }
        }
    }
}

} // verus!
