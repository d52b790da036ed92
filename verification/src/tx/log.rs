//! Transactions in the log: cancelling them, and keeping them up to date.
use vstd::prelude::*;

use crate::ed25519::{ed25519_accepts, ed25519_keypair, ed25519_public_key, ed25519_signature};
use crate::payment_proof::{create_payment_proof_signature, message_of};
use crate::text::{decimal, hyphenated, u32_to_string};
use crate::tx::history::{extends, goes_on, passes_on};
use crate::types::{
    Commitment, Context, Error, Identifier, OutputCommitMapping, PaymentInfo, SecretKey, Slate,
    StoredProofInfo, TxLogEntry, TxLogEntryType, Uuid,
};
use crate::wallet::{unborrowed, Call, Wallet, WalletBackend};

verus! {

/// How an error names the transaction that was asked for: by its log id if it was asked for by
/// that, else by the id of its slate, else not at all.
pub open spec fn tx_name(tx_id: Option<u32>, tx_slate_id: Option<Uuid>) -> Seq<char> {
    match (tx_id, tx_slate_id) {
        (Some(id), _) => decimal(id as nat),
        (None, Some(id)) => hyphenated(id@),
        (None, None) => Seq::empty(),
    }
}

/// The name of a transaction in errors.
fn tx_id_string(tx_id: Option<u32>, tx_slate_id: Option<Uuid>) -> (text: String)
    ensures
        text@ == tx_name(tx_id, tx_slate_id),
{
    if let Some(tx_id) = tx_id {
        u32_to_string(tx_id)
    } else if let Some(tx_slate_id) = tx_slate_id {
        tx_slate_id.to_string()
    } else {
        String::new()
    }
}

/// Whether an entry of the log can be cancelled: a payment sent or received, not yet confirmed.
pub open spec fn is_cancellable<B: WalletBackend>(tx: TxLogEntry<B>) -> bool {
    (tx.tx_type is TxSent || tx.tx_type is TxReceived) && !tx.confirmed
}

/// What `cancellable_tx` returns.
pub open spec fn cancellable_tx_is<B: WalletBackend>(
    entries: Seq<TxLogEntry<B>>,
    name: Seq<char>,
    result: Result<TxLogEntry<B>, Error>,
) -> bool {
    if entries.len() != 1 {
        result matches Err(Error::TransactionDoesntExist(text)) && text@ == name
    } else if !is_cancellable(entries[0]) {
        result matches Err(Error::TransactionNotCancellable(text)) && text@ == name
    } else {
        result == Ok::<_, Error>(entries[0])
    }
}

/// The one entry that was found for a transaction, if it can be cancelled.
pub fn cancellable_tx<B: WalletBackend>(entries: Vec<TxLogEntry<B>>, name: String) -> (result:
    Result<TxLogEntry<B>, Error>)
    ensures
        cancellable_tx_is(entries@, name@, result),
{
    let mut entries = entries;
    if entries.len() != 1 {
        return Err(Error::TransactionDoesntExist(name));
    }
    let tx = entries.swap_remove(0);
    if tx.tx_type != TxLogEntryType::TxSent && tx.tx_type != TxLogEntryType::TxReceived {
        return Err(Error::TransactionNotCancellable(name));
    }
    if tx.confirmed {
        return Err(Error::TransactionNotCancellable(name));
    }
    Ok(tx)
}

/// The outputs among outputs with their commitments.
pub fn outputs_of<B: WalletBackend>(mappings: Vec<OutputCommitMapping<B>>) -> (outputs: Vec<
    B::Output,
>)
    ensures
        outputs@ == mappings@.map_values(|m: OutputCommitMapping<B>| m.output),
{
    let mut outputs: Vec<B::Output> = Vec::new();
    for m in iter: mappings
        invariant
            outputs@.len() == iter.index(),
            iter.seq() == mappings@,
            forall|i: int|
                0 <= i < outputs@.len() ==> outputs@[i] == (#[trigger] mappings@[i]).output,
    {
        outputs.push(m.output);
    }
    assert(outputs@ =~= mappings@.map_values(|m: OutputCommitMapping<B>| m.output));
    outputs
}

/// What `cancel_tx` asks of the wallet, and what it makes of the replies.
pub open spec fn cancel_run<B: WalletBackend>(
    history: Seq<Call<B>>,
    at: int,
    mask: Option<SecretKey>,
    parent: Identifier,
    tx_id: Option<u32>,
    tx_slate_id: Option<Uuid>,
    result: Result<(), Error>,
) -> bool {
    &&& history.len() > at
    &&& history[at] matches Call::RetrieveTxs {
        tx_id: wanted_id,
        tx_slate_id: wanted_slate_id,
        parent_key_id: wanted_parent,
        outstanding_only,
        reply: found,
    }
    &&& wanted_id == tx_id && wanted_slate_id == tx_slate_id
    &&& wanted_parent == Some(parent) && !outstanding_only
    &&& match found {
        Err(e) => history.len() == at + 1 && result == Err::<(), Error>(e),
        Ok(entries) => if entries@.len() != 1 || !is_cancellable(entries@[0]) {
            &&& history.len() == at + 1
            &&& result matches Err(e)
            &&& cancellable_tx_is(
                entries@,
                tx_name(tx_id, tx_slate_id),
                Err::<TxLogEntry<B>, Error>(e),
            )
        } else {
            &&& history.len() > at + 1
            &&& history[at + 1] matches Call::RetrieveOutputs {
                keychain_mask,
                show_spent,
                tx_id: outputs_of_id,
                parent_key_id,
                reply: mappings,
            }
            &&& keychain_mask == mask && !show_spent
            &&& outputs_of_id == Some(entries@[0].id) && parent_key_id == Some(parent)
            &&& match mappings {
                Err(e) => history.len() == at + 2 && result == Err::<(), Error>(e),
                Ok(mappings) => {
                    &&& history.len() == at + 3
                    &&& history[at + 2] matches Call::CancelTxAndOutputs {
                        keychain_mask: cancel_mask,
                        tx,
                        outputs,
                        parent_key_id: cancel_parent,
                        reply,
                    }
                    &&& cancel_mask == mask && tx == entries@[0] && cancel_parent == parent
                    &&& outputs@ == mappings@.map_values(|m: OutputCommitMapping<B>| m.output)
                    &&& passes_on(reply, result)
                },
            }
        },
    }
}

/// Takes back the outputs of a transaction that was not confirmed.
pub fn cancel_tx<B: WalletBackend>(
    wallet: &mut Wallet<B>,
    keychain_mask: Option<&SecretKey>,
    parent_key_id: &Identifier,
    tx_id: Option<u32>,
    tx_slate_id: Option<Uuid>,
) -> (result: Result<(), Error>)
    requires
        old(wallet).is_genuine(),
    ensures
        goes_on(*old(wallet), *final(wallet)),
        cancel_run(
            final(wallet).history(),
            old(wallet).history().len() as int,
            unborrowed(keychain_mask),
            *parent_key_id,
            tx_id,
            tx_slate_id,
            result,
        ),
{
    let name = tx_id_string(tx_id, tx_slate_id);
    let entries = match wallet.retrieve_txs(tx_id, tx_slate_id, Some(parent_key_id), false) {
        Ok(entries) => entries,
        Err(e) => {
            return Err(e);
        },
    };
    let tx = match cancellable_tx(entries, name) {
        Ok(tx) => tx,
        Err(e) => {
            return Err(e);
        },
    };
    let mappings = match wallet.retrieve_outputs(
        keychain_mask,
        false,
        Some(tx.id),
        Some(parent_key_id),
    ) {
        Ok(mappings) => mappings,
        Err(e) => {
            return Err(e);
        },
    };
    wallet.cancel_tx_and_outputs(keychain_mask, tx, outputs_of(mappings), parent_key_id)
}

/// Whether an entry of the log is the payment that a slate is about, on the side of the wallet:
/// the payment sent, or for an invoice the payment received.
pub open spec fn is_own_side<B: WalletBackend>(tx: TxLogEntry<B>, is_invoiced: bool) -> bool {
    if is_invoiced {
        tx.tx_type is TxReceived
    } else {
        tx.tx_type is TxSent
    }
}

/// The place of the first entry on the side of the wallet. A wallet that pays itself has an
/// entry for either side.
pub fn own_side<B: WalletBackend>(entries: &Vec<TxLogEntry<B>>, is_invoiced: bool) -> (place:
    Option<usize>)
    ensures
        own_side_is(entries@, is_invoiced, place),
{
    let mut i: usize = 0;
    while i < entries.len()
        invariant
            i <= entries@.len(),
            forall|j: int| 0 <= j < i ==> !is_own_side(#[trigger] entries@[j], is_invoiced),
        decreases entries@.len() - i,
    {
        if entries[i].tx_type == TxLogEntryType::TxSent && !is_invoiced {
            return Some(i);
        }
        if entries[i].tx_type == TxLogEntryType::TxReceived && is_invoiced {
            return Some(i);
        }
        i = i + 1;
    }
    None
}

/// What `own_side` returns.
pub open spec fn own_side_is<B: WalletBackend>(
    entries: Seq<TxLogEntry<B>>,
    is_invoiced: bool,
    place: Option<usize>,
) -> bool {
    match place {
        Some(i) => {
            &&& i < entries.len()
            &&& is_own_side(entries[i as int], is_invoiced)
            &&& forall|j: int|
                0 <= j < i ==> !is_own_side(#[trigger] entries[j], is_invoiced)
        },
        None => forall|j: int|
            0 <= j < entries.len() ==> !is_own_side(#[trigger] entries[j], is_invoiced),
    }
}

/// What the sender keeps of a payment proof: the side of the receiver as the slate has it, and
/// the address of the sender with a signature that holds under it.
pub open spec fn is_sender_proof(
    stored: StoredProofInfo,
    amount: u64,
    excess: Seq<u8>,
    proof: PaymentInfo,
    sender_key: Seq<u8>,
    derivation_index: u32,
) -> bool {
    let message = message_of(amount, excess, proof.sender_address@);
    &&& stored.receiver_address == proof.receiver_address
    &&& stored.receiver_signature == proof.receiver_signature
    &&& stored.sender_address_path == derivation_index
    &&& stored.sender_address@ == ed25519_public_key(sender_key)
    &&& stored.sender_signature matches Some(signature)
    &&& signature@ == ed25519_signature(sender_key, message)
    &&& ed25519_accepts(stored.sender_address@, message, signature@)
}

/// Signs a payment proof for the sender, and puts together what is kept of it.
pub fn sender_proof(
    amount: u64,
    excess: &Commitment,
    proof: &PaymentInfo,
    sender_key: SecretKey,
    derivation_index: u32,
) -> (result: Result<StoredProofInfo, Error>)
    ensures
        result is Ok,
        is_sender_proof(
            result->Ok_0,
            amount,
            excess@,
            *proof,
            sender_key@,
            derivation_index,
        ),
{
    let sender_address = ed25519_keypair(&sender_key)?.1;
    let sig = create_payment_proof_signature(amount, excess, proof.sender_address, sender_key)?;
    Ok(
        StoredProofInfo {
            receiver_address: proof.receiver_address,
            receiver_signature: proof.receiver_signature,
            sender_address_path: derivation_index,
            sender_address,
            sender_signature: Some(sig),
        },
    )
}

/// What `save_entry` asks of the wallet, and what it makes of the replies.
pub open spec fn save_run<B: WalletBackend>(
    history: Seq<Call<B>>,
    at: int,
    mask: Option<SecretKey>,
    entry: TxLogEntry<B>,
    result: Result<(), Error>,
) -> bool {
    &&& history.len() > at
    &&& history[at] matches Call::Batch { keychain_mask, reply: opened }
    &&& keychain_mask == mask
    &&& match opened {
        Err(e) => history.len() == at + 1 && result == Err::<(), Error>(e),
        Ok(opened) => {
            &&& history.len() > at + 1
            &&& history[at + 1] matches Call::SaveTxLogEntry {
                before,
                after,
                tx,
                parent_key_id,
                reply: saved,
            }
            &&& before == opened && tx == entry && parent_key_id == entry.parent_key_id
            &&& match saved {
                Err(e) => history.len() == at + 2 && result == Err::<(), Error>(e),
                Ok(()) => {
                    &&& history.len() == at + 3
                    &&& history[at + 2] matches Call::Commit { batch, reply }
                    &&& batch == after
                    &&& passes_on(reply, result)
                },
            }
        },
    }
}

/// Writes one entry of the log, under its own account, in a batch of its own.
fn save_entry<B: WalletBackend>(
    wallet: &mut Wallet<B>,
    keychain_mask: Option<&SecretKey>,
    entry: TxLogEntry<B>,
) -> (result: Result<(), Error>)
    requires
        old(wallet).is_genuine(),
    ensures
        goes_on(*old(wallet), *final(wallet)),
        save_run(
            final(wallet).history(),
            old(wallet).history().len() as int,
            unborrowed(keychain_mask),
            entry,
            result,
        ),
{
    let parent_key = entry.parent_key_id;
    let mut batch = match wallet.batch(keychain_mask) {
        Ok(batch) => batch,
        Err(e) => {
            return Err(e);
        },
    };
    match wallet.save_tx_log_entry(&mut batch, entry, &parent_key) {
        Ok(()) => {},
        Err(e) => {
            return Err(e);
        },
    }
    wallet.commit(batch)
}

/// What the proof on a slate asks of the wallet when the transaction is stored, and what is
/// saved then. The address of the sender is the one that the context names, or the first.
pub open spec fn prove_and_save_run<B: WalletBackend>(
    history: Seq<Call<B>>,
    at: int,
    mask: Option<SecretKey>,
    derivation_index: u32,
    slate: Slate<B>,
    proof: PaymentInfo,
    entry: TxLogEntry<B>,
    result: Result<(), Error>,
) -> bool {
    &&& history.len() > at
    &&& history[at] matches Call::Keychain { keychain_mask, reply: key }
    &&& keychain_mask == mask
    &&& match key {
        Err(e) => history.len() == at + 1 && result == Err::<(), Error>(e),
        Ok(key) => {
            &&& history.len() > at + 2
            &&& history[at + 1] matches Call::ParentKeyId { reply: account }
            &&& history[at + 2] matches Call::CalcExcess {
                slate: s,
                keychain: excess_key,
                reply: excess,
            }
            &&& s == slate && excess_key == key
            &&& match excess {
                Err(e) => history.len() == at + 3 && result == Err::<(), Error>(e),
                Ok(excess) => {
                    &&& history.len() > at + 3
                    &&& history[at + 3] matches Call::AddressFromDerivationPath {
                        keychain,
                        parent_key_id,
                        index,
                        reply: sender_key,
                    }
                    &&& keychain == key && parent_key_id == account
                    &&& index == derivation_index
                    &&& match sender_key {
                        Err(e) => history.len() == at + 4 && result == Err::<(), Error>(e),
                        Ok(sender_key) => exists|stored: StoredProofInfo|
                            {
                                &&& #[trigger] is_sender_proof(
                                    stored,
                                    slate.amount,
                                    excess@,
                                    proof,
                                    sender_key@,
                                    derivation_index,
                                )
                                &&& save_run(
                                    history,
                                    at + 4,
                                    mask,
                                    TxLogEntry { payment_proof: Some(stored), ..entry },
                                    result,
                                )
                            },
                    }
                },
            }
        },
    }
}

/// Signs the proof on a slate for the sender, and saves an entry of the log with it.
fn prove_and_save<B: WalletBackend>(
    wallet: &mut Wallet<B>,
    keychain_mask: Option<&SecretKey>,
    derivation_index: u32,
    slate: &Slate<B>,
    proof: &PaymentInfo,
    entry: TxLogEntry<B>,
) -> (result: Result<(), Error>)
    requires
        old(wallet).is_genuine(),
    ensures
        goes_on(*old(wallet), *final(wallet)),
        prove_and_save_run(
            final(wallet).history(),
            old(wallet).history().len() as int,
            unborrowed(keychain_mask),
            derivation_index,
            *slate,
            *proof,
            entry,
            result,
        ),
{
    let keychain = match wallet.keychain(keychain_mask) {
        Ok(k) => k,
        Err(e) => {
            return Err(e);
        },
    };
    let parent_key_id = wallet.parent_key_id();
    let excess = match wallet.calc_excess(slate, &keychain) {
        Ok(excess) => excess,
        Err(e) => {
            return Err(e);
        },
    };
    let sender_key = match wallet.address_from_derivation_path(
        &keychain,
        &parent_key_id,
        derivation_index,
    ) {
        Ok(key) => key,
        Err(e) => {
            return Err(e);
        },
    };
    let mut entry = entry;
    let stored = sender_proof(slate.amount, &excess, proof, sender_key, derivation_index)?;
    entry.payment_proof = Some(stored);
    save_entry(wallet, keychain_mask, entry)
}

/// What `update_stored_tx` asks of the wallet, and what it makes of the replies.
pub open spec fn update_stored_run<B: WalletBackend>(
    history: Seq<Call<B>>,
    at: int,
    mask: Option<SecretKey>,
    context: Context<B>,
    slate: Slate<B>,
    is_invoiced: bool,
    result: Result<(), Error>,
) -> bool {
    &&& history.len() > at
    &&& history[at] matches Call::RetrieveTxs {
        tx_id,
        tx_slate_id,
        parent_key_id,
        outstanding_only,
        reply: found,
    }
    &&& tx_id is None && tx_slate_id == Some(slate.id)
    &&& parent_key_id is None && !outstanding_only
    &&& match found {
        Err(e) => history.len() == at + 1 && result == Err::<(), Error>(e),
        Ok(entries) => exists|place: Option<usize>|
            {
                &&& #[trigger] own_side_is(entries@, is_invoiced, place)
                &&& match place {
                    None => {
                        &&& history.len() == at + 1
                        &&& result matches Err(Error::TransactionDoesntExist(text))
                        &&& text@ == hyphenated(slate.id@)
                    },
                    Some(i) => store_run(
                        history,
                        at + 1,
                        mask,
                        context,
                        slate,
                        entries@[i as int],
                        result,
                    ),
                }
            },
    }
}

/// What storing the transaction of a slate asks of the wallet, once its entry in the log is
/// found.
pub open spec fn store_run<B: WalletBackend>(
    history: Seq<Call<B>>,
    at: int,
    mask: Option<SecretKey>,
    context: Context<B>,
    slate: Slate<B>,
    entry: TxLogEntry<B>,
    result: Result<(), Error>,
) -> bool {
    match entry.tx_slate_id {
        None => history.len() == at && result == Err::<(), Error>(Error::MissingSlateId),
        Some(id) => {
            &&& history.len() > at
            &&& history[at] matches Call::StoreTx { uuid, tx, reply: stored }
            &&& uuid == hyphenated(id@) && tx == slate.tx
            &&& match stored {
                Err(e) => history.len() == at + 1 && result == Err::<(), Error>(e),
                Ok(()) => {
                    let updated = TxLogEntry {
                        kernel_excess: Some(slate.tx.kernels@[0].excess),
                        ..entry
                    };
                    match slate.payment_proof {
                        None => save_run(history, at + 1, mask, updated, result),
                        Some(proof) => prove_and_save_run(
                            history,
                            at + 1,
                            mask,
                            match context.payment_proof_derivation_index {
                                Some(index) => index,
                                None => 0,
                            },
                            slate,
                            proof,
                            updated,
                            result,
                        ),
                    }
                },
            }
        },
    }
}

/// Brings the log up to date with the transaction of a slate, which is due once it is final: the
/// transaction is stored, and its entry gets the kernel excess and the proof of the sender. A final
/// transaction has a kernel.
pub fn update_stored_tx<B: WalletBackend>(
    wallet: &mut Wallet<B>,
    keychain_mask: Option<&SecretKey>,
    context: &Context<B>,
    slate: &Slate<B>,
    is_invoiced: bool,
) -> (result: Result<(), Error>)
    requires
        old(wallet).is_genuine(),
        slate.tx.kernels@.len() > 0,
    ensures
        goes_on(*old(wallet), *final(wallet)),
        update_stored_run(
            final(wallet).history(),
            old(wallet).history().len() as int,
            unborrowed(keychain_mask),
            *context,
            *slate,
            is_invoiced,
            result,
        ),
{
    let mut entries = match wallet.retrieve_txs(None, Some(slate.id), None, false) {
        Ok(entries) => entries,
        Err(e) => {
            return Err(e);
        },
    };
    let ghost found = entries@;
    let place = own_side(&entries, is_invoiced);
    assert(own_side_is(found, is_invoiced, place));
    let i: usize = match place {
        Some(i) => i,
        None => {
            return Err(Error::TransactionDoesntExist(slate.id.to_string()));
        },
    };
    let mut tx = entries.swap_remove(i);
    let tx_slate_id = match tx.tx_slate_id {
        Some(id) => id,
        None => {
            return Err(Error::MissingSlateId);
        },
    };
    let uuid = tx_slate_id.to_string();
    match wallet.store_tx(uuid.as_str(), &slate.tx) {
        Ok(()) => {},
        Err(e) => {
            return Err(e);
        },
    }
    tx.kernel_excess = Some(slate.tx.kernels[0].excess);
    match &slate.payment_proof {
        Some(proof) => {
            let derivation_index: u32 = match context.payment_proof_derivation_index {
                Some(index) => index,
                None => 0,
            };
            prove_and_save(wallet, keychain_mask, derivation_index, slate, proof, tx)
        },
        None => save_entry(wallet, keychain_mask, tx),
    }
}

/// What saving the messages on a slate in each of some entries asks of the wallet, from a place
/// in its history on: for each entry in turn the messages, and that the entry be saved with
/// them. The batch is committed after the last entry, and not at all if an entry is not saved.
pub open spec fn save_messages_run<B: WalletBackend>(
    history: Seq<Call<B>>,
    at: int,
    slate: Slate<B>,
    entries: Seq<TxLogEntry<B>>,
    batch: B::Batch,
    result: Result<(), Error>,
) -> bool
    decreases entries.len(),
{
    if entries.len() == 0 {
        &&& history.len() == at + 1
        &&& history[at] matches Call::Commit { batch: committed, reply }
        &&& committed == batch
        &&& passes_on(reply, result)
    } else {
        &&& history.len() > at + 1
        &&& history[at] matches Call::ParticipantMessages { slate: s, reply: messages }
        &&& s == slate
        &&& history[at + 1] matches Call::SaveTxLogEntry {
            before,
            after,
            tx,
            parent_key_id,
            reply: saved,
        }
        &&& before == batch && parent_key_id == entries[0].parent_key_id
        &&& tx == (TxLogEntry { messages: Some(messages), ..entries[0] })
        &&& match saved {
            Err(e) => history.len() == at + 2 && result == Err::<(), Error>(e),
            Ok(()) => save_messages_run(
                history,
                at + 2,
                slate,
                entries.drop_first(),
                after,
                result,
            ),
        }
    }
}

/// Saves the messages on a slate in each of some entries, in a batch, and commits that.
fn save_messages<B: WalletBackend>(
    wallet: &mut Wallet<B>,
    slate: &Slate<B>,
    entries: Vec<TxLogEntry<B>>,
    batch: B::Batch,
) -> (result: Result<(), Error>)
    requires
        old(wallet).is_genuine(),
    ensures
        goes_on(*old(wallet), *final(wallet)),
        save_messages_run(
            final(wallet).history(),
            old(wallet).history().len() as int,
            *slate,
            entries@,
            batch,
            result,
        ),
{
    let ghost opened = batch;
    let mut current = batch;
    let ghost all = entries@;
    let ghost start = wallet.history();
    assert(all.skip(0) =~= all);
    for tx in iter: entries
        invariant
            start == old(wallet).history(),
            opened == batch,
            all == entries@,
            iter.seq() == all,
            goes_on(*old(wallet), *wallet),
            wallet.history().len() == start.len() + 2 * iter.index(),
            forall|history: Seq<Call<B>>, result: Result<(), Error>|
                extends(wallet.history(), history) && #[trigger] save_messages_run(
                    history,
                    start.len() + 2 * iter.index(),
                    *slate,
                    all.skip(iter.index()),
                    current,
                    result,
                ) ==> save_messages_run(
                    history,
                    start.len() as int,
                    *slate,
                    all,
                    opened,
                    result,
                ),
    {
        let ghost k = iter.index();
        let ghost rest = all.skip(k);
        let ghost now = wallet.history();
        let ghost held = current;
        assert(rest.drop_first() =~= all.skip(k + 1));
        let mut tx = tx;
        tx.messages = Some(wallet.participant_messages(slate));
        let parent_key = tx.parent_key_id;
        let saved = wallet.save_tx_log_entry(&mut current, tx, &parent_key);
        proof {
            let after = wallet.history();
            assert forall|history: Seq<Call<B>>, result: Result<(), Error>|
                extends(after, history) && #[trigger] save_messages_run(
                    history,
                    start.len() + 2 * (k + 1),
                    *slate,
                    all.skip(k + 1),
                    current,
                    result,
                ) && saved is Ok implies save_messages_run(
                history,
                start.len() as int,
                *slate,
                all,
                opened,
                result,
            ) by {
                assert(history[now.len() as int] == after[now.len() as int]);
                assert(history[now.len() as int + 1] == after[now.len() as int + 1]);
                assert(extends(now, history));
                assert(save_messages_run(
                    history,
                    start.len() + 2 * k,
                    *slate,
                    rest,
                    held,
                    result,
                ));
            }
        }
        match saved {
            Ok(()) => {},
            Err(e) => {
                proof {
                    assert(save_messages_run(
                        wallet.history(),
                        start.len() + 2 * k,
                        *slate,
                        rest,
                        held,
                        Err::<(), Error>(e),
                    ));
                }
                return Err(e);
            },
        }
    }
    let ghost now = wallet.history();
    let result = wallet.commit(current);
    proof {
        assert(all.skip(all.len() as int).len() == 0);
        assert(extends(now, wallet.history()));
        assert(save_messages_run(
            wallet.history(),
            start.len() as int + 2 * all.len(),
            *slate,
            all.skip(all.len() as int),
            current,
            result,
        ));
    }
    result
}

/// What `update_message` asks of the wallet, and what it makes of the replies.
pub open spec fn update_message_run<B: WalletBackend>(
    history: Seq<Call<B>>,
    at: int,
    mask: Option<SecretKey>,
    slate: Slate<B>,
    result: Result<(), Error>,
) -> bool {
    &&& history.len() > at
    &&& history[at] matches Call::RetrieveTxs {
        tx_id,
        tx_slate_id,
        parent_key_id,
        outstanding_only,
        reply: found,
    }
    &&& tx_id is None && tx_slate_id == Some(slate.id)
    &&& parent_key_id is None && !outstanding_only
    &&& match found {
        Err(e) => history.len() == at + 1 && result == Err::<(), Error>(e),
        Ok(entries) => if entries@.len() == 0 {
            &&& history.len() == at + 1
            &&& result matches Err(Error::TransactionDoesntExist(text))
            &&& text@ == hyphenated(slate.id@)
        } else {
            &&& history.len() > at + 1
            &&& history[at + 1] matches Call::Batch { keychain_mask, reply: opened }
            &&& keychain_mask == mask
            &&& match opened {
                Err(e) => history.len() == at + 2 && result == Err::<(), Error>(e),
                Ok(batch) => save_messages_run(history, at + 2, slate, entries@, batch, result),
            }
        },
    }
}

/// Puts the messages of the parties to a slate in every entry of the log for it, all in one
/// batch.
pub fn update_message<B: WalletBackend>(
    wallet: &mut Wallet<B>,
    keychain_mask: Option<&SecretKey>,
    slate: &Slate<B>,
) -> (result: Result<(), Error>)
    requires
        old(wallet).is_genuine(),
    ensures
        goes_on(*old(wallet), *final(wallet)),
        update_message_run(
            final(wallet).history(),
            old(wallet).history().len() as int,
            unborrowed(keychain_mask),
            *slate,
            result,
        ),
{
    let entries = match wallet.retrieve_txs(None, Some(slate.id), None, false) {
        Ok(entries) => entries,
        Err(e) => {
            return Err(e);
        },
    };
    if entries.is_empty() {
        return Err(Error::TransactionDoesntExist(slate.id.to_string()));
    }
    let batch = match wallet.batch(keychain_mask) {
        Ok(batch) => batch,
        Err(e) => {
            return Err(e);
        },
    };
    save_messages(wallet, slate, entries, batch)
}

} // verus!
