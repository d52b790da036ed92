//! What holds of every run of the transaction functions.
use vstd::prelude::*;

use crate::ed25519::{ed25519_accepts, ed25519_public_key};
use crate::payment_proof::{message_of, refused};
use crate::tx::building::{
    add_inputs_run, add_output_run, estimate_run, new_tx_slate_run, rounds_run,
    test_slate_id_bytes,
};
use crate::tx::history::goes_on;
use crate::tx::log::{
    cancel_run, is_cancellable, is_own_side, own_side_is, save_messages_run,
    store_run, tx_name, update_message_run, update_stored_run,
};
use crate::tx::proving::verify_run;
use crate::types::{
    Commitment, Context, Error, Identifier, PaymentInfo, SecretKey, Signature, Slate,
    StoredProofInfo, TxLogEntry, Uuid,
};
use crate::wallet::{Call, Wallet, WalletBackend};

verus! {

/// A new slate is for the amount that was asked for, at the height of the tip, and its kernel
/// will be a plain one.
pub proof fn law_new_slate_is_plain<B: WalletBackend>(
    history: Seq<Call<B>>,
    at: int,
    amount: u64,
    num_participants: usize,
    use_test_rng: bool,
    ttl_blocks: Option<u64>,
    count: u8,
    new_count: u8,
    result: Result<Slate<B>, Error>,
)
    requires
        new_tx_slate_run(
            history,
            at,
            amount,
            num_participants,
            use_test_rng,
            ttl_blocks,
            count,
            new_count,
            result,
        ),
    ensures
        result matches Ok(slate) ==> {
            &&& slate.amount == amount
            &&& slate.lock_height == 0
            &&& history[at] matches Call::GetChainTip { reply } && reply == Ok::<u64, Error>(
                slate.height,
            )
            &&& ttl_blocks matches Some(blocks) ==> slate.ttl_cutoff_height == Some(
                (slate.height + blocks) as u64,
            ) && slate.height + blocks <= u64::MAX
        },
{
}

/// Slates for tests that take different counts have different ids.
pub proof fn law_test_slate_ids_differ(count: u8, other: u8)
    requires
        count != other,
    ensures
        test_slate_id_bytes(count).len() == 16,
        test_slate_id_bytes(count) != test_slate_id_bytes(other),
{
    assert(test_slate_id_bytes(count)[15] == count);
    assert(test_slate_id_bytes(other)[15] == other);
}

/// Whether asking this changes nothing: it looks at the chain, or at the wallet.
pub open spec fn only_looks<B: WalletBackend>(call: Call<B>) -> bool {
    ||| call is GetChainTip
    ||| call is SelectCoinsAndFee
    ||| call is Keychain
    ||| call is RetrieveTxs
    ||| call is AddressFromDerivationPath
    ||| call is CalcExcess
}

/// An estimate makes no transaction: but for bringing the outputs up to date with the chain, it
/// changes nothing.
pub proof fn law_estimate_makes_no_transaction<B: WalletBackend>(
    history: Seq<Call<B>>,
    at: int,
    mask: Option<SecretKey>,
    amount: u64,
    minimum_confirmations: u64,
    max_outputs: usize,
    num_change_outputs: usize,
    use_all: bool,
    parent: Identifier,
    result: Result<(u64, u64), Error>,
)
    requires
        0 <= at,
        estimate_run(
            history,
            at,
            mask,
            amount,
            minimum_confirmations,
            max_outputs,
            num_change_outputs,
            use_all,
            parent,
            result,
        ),
    ensures
        forall|i: int|
            at <= i < history.len() ==> only_looks(#[trigger] history[i]) || history[i]
                is RefreshOutputs,
{
    assert forall|i: int| at <= i < history.len() implies only_looks(#[trigger] history[i])
        || history[i] is RefreshOutputs by {
        assert(i == at || i == at + 1 || i == at + 2);
    }
}

/// The rounds of the party that begins an exchange do not sign.
proof fn lemma_initiator_does_not_sign<B: WalletBackend>(
    history: Seq<Call<B>>,
    at: int,
    mask: Option<SecretKey>,
    slate: Slate<B>,
    context: Context<B>,
    round_1_id: usize,
    round_2_id: usize,
    message: Option<String>,
    use_test_rng: bool,
    new_slate: Slate<B>,
    result: Result<Context<B>, Error>,
)
    requires
        0 <= at,
        rounds_run(
            history,
            at,
            mask,
            slate,
            context,
            round_1_id,
            round_2_id,
            message,
            true,
            use_test_rng,
            new_slate,
            result,
        ),
    ensures
        forall|i: int| at <= i < history.len() ==> !(#[trigger] history[i] is FillRound2),
{
    assert forall|i: int| at <= i < history.len() implies !(#[trigger] history[i]
        is FillRound2) by {
        assert(i == at || i == at + 1);
    }
}

/// The sender that begins an exchange does not sign: that is left for later. The sender that does
/// not begin it, and succeeds, has signed with the secret key that it is left with.
pub proof fn law_sender_signs_unless_initiator<B: WalletBackend>(
    history: Seq<Call<B>>,
    at: int,
    mask: Option<SecretKey>,
    slate: Slate<B>,
    min_confirmations: u64,
    outputs_limit: usize,
    change_outputs: usize,
    use_all: bool,
    parent: Identifier,
    participant_id: usize,
    message: Option<String>,
    is_initiator: bool,
    test_rng: bool,
    new_slate: Slate<B>,
    result: Result<Context<B>, Error>,
)
    requires
        0 <= at,
        add_inputs_run(
            history,
            at,
            mask,
            slate,
            min_confirmations,
            outputs_limit,
            change_outputs,
            use_all,
            parent,
            participant_id,
            message,
            is_initiator,
            test_rng,
            new_slate,
            result,
        ),
    ensures
        is_initiator ==> forall|i: int|
            at <= i < history.len() ==> !(#[trigger] history[i] is FillRound2),
        !is_initiator ==> (result matches Ok(context) ==> signed_last(
            history,
            new_slate,
            context,
            participant_id,
        )),
{
    if history.len() > at + 3 {
        let after = history[at + 2]->BuildSendTx_after;
        let context = history[at + 2]->BuildSendTx_reply->Ok_0;
        if is_initiator {
            lemma_initiator_does_not_sign(
                history,
                at + 3,
                mask,
                after,
                context,
                participant_id,
                participant_id,
                message,
                test_rng,
                new_slate,
                result,
            );
        } else {
            lemma_responder_signs(
                history,
                at + 3,
                mask,
                after,
                context,
                participant_id,
                participant_id,
                message,
                test_rng,
                new_slate,
                result,
            );
        }
    }
    assert forall|i: int| at <= i < history.len() && i < at + 3 implies !(#[trigger] history[i]
        is FillRound2) by {
        assert(i == at || i == at + 1 || i == at + 2);
    }
}

/// The receiver that begins an exchange does not sign: that is left for later. The receiver that
/// does not begin it, and succeeds, has signed with the secret key that it is left with.
pub proof fn law_receiver_signs_unless_initiator<B: WalletBackend>(
    history: Seq<Call<B>>,
    at: int,
    mask: Option<SecretKey>,
    slate: Slate<B>,
    parent: Identifier,
    participant_id: usize,
    message: Option<String>,
    is_initiator: bool,
    test_rng: bool,
    new_slate: Slate<B>,
    result: Result<Context<B>, Error>,
)
    requires
        0 <= at,
        add_output_run(
            history,
            at,
            mask,
            slate,
            parent,
            participant_id,
            message,
            is_initiator,
            test_rng,
            new_slate,
            result,
        ),
    ensures
        is_initiator ==> forall|i: int|
            at <= i < history.len() ==> !(#[trigger] history[i] is FillRound2),
        !is_initiator ==> (result matches Ok(context) ==> signed_last(
            history,
            new_slate,
            context,
            participant_id,
        )),
{
    if history.len() > at + 1 {
        let after = history[at]->BuildRecipientOutput_after;
        let context = history[at]->BuildRecipientOutput_reply->Ok_0.1;
        if is_initiator {
            lemma_initiator_does_not_sign(
                history,
                at + 1,
                mask,
                after,
                context,
                1,
                participant_id,
                message,
                test_rng,
                new_slate,
                result,
            );
        } else {
            lemma_responder_signs(
                history,
                at + 1,
                mask,
                after,
                context,
                1,
                participant_id,
                message,
                test_rng,
                new_slate,
                result,
            );
        }
    }
    assert(!(history[at] is FillRound2));
}

/// Whether the last thing that a wallet was asked was to sign a slate for a party, and it did.
pub open spec fn signed_last<B: WalletBackend>(
    history: Seq<Call<B>>,
    slate: Slate<B>,
    context: Context<B>,
    id: usize,
) -> bool {
    &&& history.last() matches Call::FillRound2 {
        after,
        sec_key,
        sec_nonce,
        participant_id,
        reply,
        ..
    }
    &&& after == slate
    &&& sec_key == context.sec_key
    &&& sec_nonce == context.sec_nonce
    &&& participant_id == id
    &&& reply is Ok
}

/// The rounds of a party that did not begin an exchange end with its signature.
proof fn lemma_responder_signs<B: WalletBackend>(
    history: Seq<Call<B>>,
    at: int,
    mask: Option<SecretKey>,
    slate: Slate<B>,
    context: Context<B>,
    round_1_id: usize,
    round_2_id: usize,
    message: Option<String>,
    use_test_rng: bool,
    new_slate: Slate<B>,
    result: Result<Context<B>, Error>,
)
    requires
        rounds_run(
            history,
            at,
            mask,
            slate,
            context,
            round_1_id,
            round_2_id,
            message,
            false,
            use_test_rng,
            new_slate,
            result,
        ),
    ensures
        result matches Ok(filled) ==> signed_last(history, new_slate, filled, round_2_id),
{
}

/// Nothing is cancelled but a payment, sent or received, that is not confirmed; and nothing at
/// all where the transaction is not the only one that was found.
pub proof fn law_only_pending_payments_are_cancelled<B: WalletBackend>(
    history: Seq<Call<B>>,
    at: int,
    mask: Option<SecretKey>,
    parent: Identifier,
    tx_id: Option<u32>,
    tx_slate_id: Option<Uuid>,
    result: Result<(), Error>,
)
    requires
        0 <= at,
        cancel_run(history, at, mask, parent, tx_id, tx_slate_id, result),
    ensures
        forall|i: int|
            at <= i < history.len() ==> (#[trigger] history[i] matches Call::CancelTxAndOutputs {
                tx,
                ..
            } ==> {
                &&& is_cancellable(tx)
                &&& history[at] matches Call::RetrieveTxs { reply: Ok(found), .. }
                &&& found@ == seq![tx]
            }),
        result is Ok ==> {
            &&& history.last() matches Call::CancelTxAndOutputs { reply, .. }
            &&& reply is Ok
        },
{
    assert forall|i: int|
        at <= i < history.len() && (#[trigger] history[i]) is CancelTxAndOutputs implies {
        &&& i == at + 2
        &&& history[at] matches Call::RetrieveTxs { reply: Ok(found), .. }
        &&& found@ =~= seq![history[i]->CancelTxAndOutputs_tx]
    } by {
        assert(i == at || i == at + 1 || i == at + 2);
    }
}

/// Whether an entry of the log answers to the given ids, in an account.
pub open spec fn answers_to<B: WalletBackend>(
    tx: TxLogEntry<B>,
    tx_id: Option<u32>,
    tx_slate_id: Option<Uuid>,
    parent: Identifier,
) -> bool {
    &&& tx_id matches Some(id) ==> tx.id == id
    &&& tx_slate_id is Some ==> tx.tx_slate_id == tx_slate_id
    &&& tx.parent_key_id == parent
}

/// Whether an entry is what another one becomes when it is cancelled: it is the entry of the same
/// transaction, and no longer of a payment.
pub open spec fn is_cancelled_form<B: WalletBackend>(
    tx: TxLogEntry<B>,
    cancelled: TxLogEntry<B>,
) -> bool {
    &&& cancelled.id == tx.id
    &&& cancelled.tx_slate_id == tx.tx_slate_id
    &&& cancelled.parent_key_id == tx.parent_key_id
    &&& cancelled.tx_type is Other
}

/// Whether a backend keeps a log: it finds in it what answers to the given ids, looking does not
/// change it, and cancelling a transaction puts the cancelled form of its entry in the place of
/// the entry.
pub open spec fn keeps_log<B: WalletBackend>(log: spec_fn(B) -> Set<TxLogEntry<B>>) -> bool {
    forall|before: B, call: Call<B>, after: B| #[trigger]
        B::answers(before, call, after) ==> match call {
            Call::RetrieveTxs {
                tx_id,
                tx_slate_id,
                parent_key_id: Some(parent),
                outstanding_only: false,
                reply: Ok(found),
            } => {
                &&& log(after) == log(before)
                &&& found@.no_duplicates()
                &&& forall|tx: TxLogEntry<B>| #[trigger]
                    found@.contains(tx) <==> log(before).contains(tx) && answers_to(
                        tx,
                        tx_id,
                        tx_slate_id,
                        parent,
                    )
            },
            Call::RetrieveOutputs { .. } => log(after) == log(before),
            Call::CancelTxAndOutputs { tx, reply: Ok(_), .. } => exists|cancelled: TxLogEntry<B>|
                {
                    &&& #[trigger] is_cancelled_form(tx, cancelled)
                    &&& log(after) == log(before).remove(tx).insert(cancelled)
                },
            _ => true,
        }
}

/// On a backend that keeps a log, a transaction that was cancelled is still found, but is not
/// cancelled again: when the same is asked once more with nothing in between, and the log can be
/// read, it is refused by its name, and nothing more is asked.
pub proof fn law_cancelled_tx_is_not_cancelled_again<B: WalletBackend>(
    log: spec_fn(B) -> Set<TxLogEntry<B>>,
    wallet: Wallet<B>,
    again: Wallet<B>,
    at: int,
    mask: Option<SecretKey>,
    parent: Identifier,
    tx_id: Option<u32>,
    tx_slate_id: Option<Uuid>,
    result: Result<(), Error>,
)
    requires
        keeps_log(log),
        0 <= at,
        cancel_run(wallet.history(), at, mask, parent, tx_id, tx_slate_id, Ok::<(), Error>(())),
        wallet.is_genuine(),
        goes_on(wallet, again),
        cancel_run(
            again.history(),
            wallet.history().len() as int,
            mask,
            parent,
            tx_id,
            tx_slate_id,
            result,
        ),
        again.history()[wallet.history().len() as int] matches Call::RetrieveTxs {
            reply: Ok(_),
            ..
        },
    ensures
        result matches Err(Error::TransactionNotCancellable(text)) && text@ == tx_name(
            tx_id,
            tx_slate_id,
        ),
        again.history().len() == wallet.history().len() + 1,
        log(again.backend()) == log(wallet.backend()),
{
    let first = wallet.history();
    let n = first.len() as int;
    let history = again.history();
    let states = again.states();
    let tx = first[at + 2]->CancelTxAndOutputs_tx;
    let found = first[at]->RetrieveTxs_reply->Ok_0;
    assert(n == at + 3);
    assert(history[at] == first[at] && history[at + 1] == first[at + 1] && history[at + 2]
        == first[at + 2]);
    assert(B::answers(states[at], history[at], states[at + 1]));
    assert(B::answers(states[at + 1], history[at + 1], states[at + 2]));
    assert(B::answers(states[at + 2], history[at + 2], states[at + 3]));
    assert(B::answers(states[n], history[n], states[n + 1]));
    assert(found@[0] == tx);
    assert(found@.contains(tx));
    let cancelled = choose|c: TxLogEntry<B>|
        {
            &&& #[trigger] is_cancelled_form(tx, c)
            &&& log(states[at + 3]) == log(states[at + 2]).remove(tx).insert(c)
        };
    let next = history[n]->RetrieveTxs_reply->Ok_0;
    assert(answers_to(cancelled, tx_id, tx_slate_id, parent));
    assert(next@.contains(cancelled));
    assert forall|i: int| 0 <= i < next@.len() implies next@[i] == cancelled by {
        let other = next@[i];
        assert(next@.contains(other));
        if other != cancelled {
            assert(log(states[at]).contains(other));
            assert(found@.contains(other));
            assert(other == tx);
        }
    }
    assert(next@.len() == 1) by {
        if next@.len() > 1 {
            assert(next@[0] == next@[1]);
        }
    }
    assert(wallet.backend() == states[n]);
    assert(again.backend() == states[n + 1]);
}

/// There is one place at most that `own_side` can return, so what is stored for a slate is
/// stored in one entry: for a wallet that pays itself, in the entry of the side that it is on.
pub proof fn law_own_side_is_unique<B: WalletBackend>(
    entries: Seq<TxLogEntry<B>>,
    is_invoiced: bool,
    place: Option<usize>,
    other: Option<usize>,
)
    requires
        own_side_is(entries, is_invoiced, place),
        own_side_is(entries, is_invoiced, other),
    ensures
        place == other,
{
    if let (Some(i), Some(j)) = (place, other) {
        if i < j {
            assert(!is_own_side(entries[i as int], is_invoiced));
        } else if j < i {
            assert(!is_own_side(entries[j as int], is_invoiced));
        }
    }
}

/// When a transaction is stored, it is the transaction of the slate, under the id of the slate in
/// the entry; and the entry is kept with the excess of the kernel and, for a slate with a payment
/// proof, with a signature of the sender that holds under the address that is kept with it.
pub proof fn law_stored_tx_is_kept<B: WalletBackend>(
    history: Seq<Call<B>>,
    at: int,
    mask: Option<SecretKey>,
    context: Context<B>,
    slate: Slate<B>,
    is_invoiced: bool,
    result: Result<(), Error>,
)
    requires
        0 <= at,
        slate.tx.kernels@.len() > 0,
        update_stored_run(history, at, mask, context, slate, is_invoiced, result),
        result is Ok,
    ensures
        ({
            let n = history.len() as int;
            &&& n >= at + 5
            &&& history[at + 1] matches Call::StoreTx { tx: stored_tx, reply: Ok(_), .. }
            &&& stored_tx == slate.tx
            &&& history[n - 2] matches Call::SaveTxLogEntry { tx, reply: Ok(_), .. }
            &&& history[n - 1] matches Call::Commit { reply: Ok(_), .. }
            &&& is_own_side(tx, is_invoiced)
            &&& tx.kernel_excess == Some(slate.tx.kernels@[0].excess)
            &&& slate.payment_proof matches Some(proof) ==> {
                &&& history[at + 4] matches Call::CalcExcess { reply: Ok(excess), .. }
                &&& tx.payment_proof matches Some(stored)
                &&& stored.receiver_address == proof.receiver_address
                &&& stored.receiver_signature == proof.receiver_signature
                &&& stored.sender_signature matches Some(signature)
                &&& ed25519_accepts(
                    stored.sender_address@,
                    message_of(slate.amount, excess@, proof.sender_address@),
                    signature@,
                )
            }
        }),
{
    let entries = history[at]->RetrieveTxs_reply->Ok_0;
    let place = choose|place: Option<usize>|
        {
            &&& #[trigger] own_side_is(entries@, is_invoiced, place)
            &&& place is Some
            &&& store_run(history, at + 1, mask, context, slate, entries@[place->0 as int], result)
        };
    assert(store_run(history, at + 1, mask, context, slate, entries@[place->0 as int], result));
}

/// The messages of a slate are kept for all of its entries or for none: if an entry is not
/// saved nothing is committed, and if it is all kept every entry was saved.
pub proof fn law_messages_are_saved_together<B: WalletBackend>(
    history: Seq<Call<B>>,
    at: int,
    mask: Option<SecretKey>,
    slate: Slate<B>,
    result: Result<(), Error>,
)
    requires
        0 <= at,
        update_message_run(history, at, mask, slate, result),
    ensures
        result is Ok ==> {
            &&& history.last() matches Call::Commit { reply, .. }
            &&& reply is Ok
        },
        forall|i: int|
            at <= i < history.len() && #[trigger] history[i] is Commit ==> {
                &&& history[at] matches Call::RetrieveTxs { reply: Ok(entries), .. }
                &&& forall|k: int|
                    0 <= k < entries@.len() ==> entry_saved(
                        history,
                        at + 2 + 2 * k,
                        slate,
                        #[trigger] entries@[k],
                    )
            },
{
    if history.len() > at + 2 {
        let entries = history[at]->RetrieveTxs_reply->Ok_0;
        let batch = history[at + 1]->Batch_reply->Ok_0;
        lemma_messages_are_saved_together(history, at + 2, slate, entries@, batch, result);
    }
    assert forall|i: int| at <= i < history.len() && #[trigger] history[i] is Commit implies i
        >= at + 2 by {
        assert(i != at && i != at + 1);
    }
}

/// What holds of saving the messages of a slate in some entries.
proof fn lemma_messages_are_saved_together<B: WalletBackend>(
    history: Seq<Call<B>>,
    at: int,
    slate: Slate<B>,
    entries: Seq<TxLogEntry<B>>,
    batch: B::Batch,
    result: Result<(), Error>,
)
    requires
        0 <= at,
        save_messages_run(history, at, slate, entries, batch, result),
    ensures
        result is Ok ==> {
            &&& history.len() == at + 2 * entries.len() + 1
            &&& history.last() matches Call::Commit { reply, .. } && reply is Ok
            &&& forall|k: int|
                0 <= k < entries.len() ==> entry_saved(
                    history,
                    at + 2 * k,
                    slate,
                    #[trigger] entries[k],
                )
        },
        forall|i: int|
            at <= i < history.len() && #[trigger] history[i] is Commit ==> {
                &&& i == at + 2 * entries.len()
                &&& forall|k: int|
                    0 <= k < entries.len() ==> entry_saved(
                        history,
                        at + 2 * k,
                        slate,
                        #[trigger] entries[k],
                    )
            },
    decreases entries.len(),
{
    if entries.len() > 0 && history[at + 1]->SaveTxLogEntry_reply is Ok {
        let rest = entries.drop_first();
        let after = history[at + 1]->SaveTxLogEntry_after;
        lemma_messages_are_saved_together(history, at + 2, slate, rest, after, result);
        if result is Ok || exists|i: int|
            at <= i < history.len() && #[trigger] history[i] is Commit {
            assert forall|k: int| 0 <= k < entries.len() implies entry_saved(
                history,
                at + 2 * k,
                slate,
                #[trigger] entries[k],
            ) by {
                if k > 0 {
                    assert(entries[k] == rest[k - 1]);
                }
            }
        }
    }
}

/// Whether an entry is saved with the messages of a slate, at a place in a history.
pub open spec fn entry_saved<B: WalletBackend>(
    history: Seq<Call<B>>,
    at: int,
    slate: Slate<B>,
    entry: TxLogEntry<B>,
) -> bool {
    &&& history[at] matches Call::ParticipantMessages { slate: s, reply: messages }
    &&& s == slate
    &&& history[at + 1] matches Call::SaveTxLogEntry { tx, parent_key_id, reply, .. }
    &&& tx == (TxLogEntry { messages: Some(messages), ..entry })
    &&& parent_key_id == entry.parent_key_id
    &&& reply is Ok
}

/// Checking a payment proof changes nothing.
pub proof fn law_verification_only_looks<B: WalletBackend>(
    history: Seq<Call<B>>,
    at: int,
    mask: Option<SecretKey>,
    parent: Identifier,
    context: Context<B>,
    slate: Slate<B>,
    result: Result<(), Error>,
)
    requires
        0 <= at,
        verify_run(history, at, mask, parent, context, slate, result),
    ensures
        forall|i: int| at <= i < history.len() ==> only_looks(#[trigger] history[i]),
{
    assert forall|i: int| at <= i < history.len() implies only_looks(#[trigger] history[i]) by {
        assert(i == at || i == at + 1 || i == at + 2 || i == at + 3);
    }
}

/// A payment proof that passes is one: the receiver that the log knows signed the amount of the
/// slate, its kernel and the address of the sender, which is an address of the wallet.
pub proof fn law_accepted_proof_is_signed<B: WalletBackend>(
    history: Seq<Call<B>>,
    at: int,
    mask: Option<SecretKey>,
    parent: Identifier,
    context: Context<B>,
    slate: Slate<B>,
    result: Result<(), Error>,
)
    requires
        verify_run(history, at, mask, parent, context, slate, result),
        result is Ok,
        slate.payment_proof is Some,
    ensures
        ({
            let proof = slate.payment_proof->0;
            &&& history[at] matches Call::RetrieveTxs { reply: Ok(found), .. }
            &&& found@.len() > 0
            &&& found@[0].payment_proof matches Some(stored)
            &&& stored.receiver_address@ == proof.receiver_address@
            &&& history[at + 2] matches Call::AddressFromDerivationPath { reply: Ok(key), .. }
            &&& proof.sender_address@ == ed25519_public_key(key@)
            &&& history[at + 3] matches Call::CalcExcess { reply: Ok(excess), .. }
            &&& proof.receiver_signature matches Some(signature)
            &&& ed25519_accepts(
                stored.receiver_address@,
                message_of(slate.amount, excess@, proof.sender_address@),
                signature@,
            )
        }),
{
}

/// A payment proof on which the parties and the signature are right passes.
pub proof fn law_signed_proof_is_accepted<B: WalletBackend>(
    history: Seq<Call<B>>,
    at: int,
    mask: Option<SecretKey>,
    parent: Identifier,
    context: Context<B>,
    slate: Slate<B>,
    proof: PaymentInfo,
    stored: StoredProofInfo,
    signature: Signature,
    sender_key: SecretKey,
    excess: Commitment,
    result: Result<(), Error>,
)
    requires
        verify_run(history, at, mask, parent, context, slate, result),
        context.payment_proof_derivation_index is Some,
        history[at] matches Call::RetrieveTxs { reply: Ok(found), .. } && found@.len() > 0
            && found@[0].payment_proof == Some(stored),
        history[at + 1] matches Call::Keychain { reply: Ok(_), .. },
        history[at + 2] matches Call::AddressFromDerivationPath { reply: Ok(key), .. } && key
            == sender_key,
        history[at + 3] matches Call::CalcExcess { reply: Ok(e), .. } && e == excess,
        slate.payment_proof == Some(proof),
        proof.sender_address@ == ed25519_public_key(sender_key@),
        proof.receiver_address@ == stored.receiver_address@,
        proof.receiver_signature == Some(signature),
        ed25519_accepts(
            proof.receiver_address@,
            message_of(slate.amount, excess@, proof.sender_address@),
            signature@,
        ),
    ensures
        result is Ok,
{
}

/// A slate without the payment proof that the log expects of it is refused.
pub proof fn law_missing_proof_is_refused<B: WalletBackend>(
    history: Seq<Call<B>>,
    at: int,
    mask: Option<SecretKey>,
    parent: Identifier,
    context: Context<B>,
    slate: Slate<B>,
    result: Result<(), Error>,
)
    requires
        verify_run(history, at, mask, parent, context, slate, result),
        slate.payment_proof is None,
        history[at] matches Call::RetrieveTxs { reply: Ok(found), .. } && found@.len() > 0
            && found@[0].payment_proof is Some,
    ensures
        refused(result, "Expected Payment Proof for this Transaction is not present"),
        history.len() == at + 1,
{
}

} // verus!
