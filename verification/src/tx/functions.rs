//! What the transaction functions do, by their arguments and results.
use vstd::prelude::*;

use crate::ed25519::{ed25519_is_public_key, ed25519_keypair, ed25519_public_key};
use crate::payment_proof::{
    _decode_payment_proof_message, check_addresses, check_receiver_signature,
    create_payment_proof_signature, law_decoding_inverts_encoding, payment_proof_message, refused,
    stored_proof, try_decode_payment_proof_message,
};
use crate::text::hyphenated;
use crate::tx::building::{
    add_inputs_run, add_inputs_to_slate, add_output_run, add_output_to_slate, complete_run,
    complete_tx, estimate_run, estimate_send_tx, fill_slate, new_tx_slate, new_tx_slate_run,
};
use crate::tx::conduct::is_of_side;
use crate::tx::log::{
    cancel_run, cancel_tx, cancellable_tx, outputs_of, own_side, sender_proof, update_message,
    update_message_run, update_stored_run, update_stored_tx,
};
use crate::tx::proving::{verify_run, verify_slate_payment_proof};
use crate::types::{
    Commitment, Context, Error, Identifier, OutputCommitMapping, PaymentInfo, PublicKey, SecretKey,
    Signature, Slate, StoredProofInfo, TxLogEntry, TxLogEntryType, Uuid,
};
use crate::wallet::{Wallet, WalletBackend};

verus! {

/// What `new_tx_slate` asks of the wallet, and returns, is what one run of it on just its
/// arguments does; what was in the record stays there.
pub proof fn law_new_tx_slate_is_run_on_its_arguments<B: WalletBackend>(
    wallet: &mut Wallet<B>,
    amount: u64,
    num_participants: usize,
    use_test_rng: bool,
    ttl_blocks: Option<u64>,
    slate_counter: &mut u8,
    result: Result<Slate<B>, Error>,
)
    requires
        call_ensures(
            new_tx_slate::<B>,
            (
                wallet,
                amount,
                num_participants,
                use_test_rng,
                ttl_blocks,
                slate_counter,
            ),
            result,
        ),
    ensures
        final(wallet).is_genuine(),
        old(wallet).history().len() < final(wallet).history().len(),
        final(wallet).history().take(old(wallet).history().len() as int)
            == old(wallet).history(),
        new_tx_slate_run(
            final(wallet).history(),
            old(wallet).history().len() as int,
            amount,
            num_participants,
            use_test_rng,
            ttl_blocks,
            *old(slate_counter),
            *final(slate_counter),
            result,
        ),
{
    assert(final(wallet).history().take(old(wallet).history().len() as int) =~= old(
        wallet,
    ).history());
}

/// What `estimate_send_tx` asks of the wallet, and returns, is what one run of it on just its
/// arguments does; what was in the record stays there.
pub proof fn law_estimate_send_tx_is_run_on_its_arguments<B: WalletBackend>(
    wallet: &mut Wallet<B>,
    keychain_mask: Option<&SecretKey>,
    amount: u64,
    minimum_confirmations: u64,
    max_outputs: usize,
    num_change_outputs: usize,
    selection_strategy_is_use_all: bool,
    parent_key_id: &Identifier,
    result: Result<(u64, u64), Error>,
)
    requires
        call_ensures(
            estimate_send_tx::<B>,
            (
                wallet,
                keychain_mask,
                amount,
                minimum_confirmations,
                max_outputs,
                num_change_outputs,
                selection_strategy_is_use_all,
                parent_key_id,
            ),
            result,
        ),
    ensures
        final(wallet).is_genuine(),
        old(wallet).history().len() < final(wallet).history().len(),
        final(wallet).history().take(old(wallet).history().len() as int)
            == old(wallet).history(),
        estimate_run(
            final(wallet).history(),
            old(wallet).history().len() as int,
            match keychain_mask {
                Some(mask) => Some(*mask),
                None => None,
            },
            amount,
            minimum_confirmations,
            max_outputs,
            num_change_outputs,
            selection_strategy_is_use_all,
            *parent_key_id,
            result,
        ),
{
    assert(final(wallet).history().take(old(wallet).history().len() as int) =~= old(
        wallet,
    ).history());
}

/// What `add_inputs_to_slate` asks of the wallet, and returns, is what one run of it on just its
/// arguments does; what was in the record stays there.
pub proof fn law_add_inputs_to_slate_is_run_on_its_arguments<B: WalletBackend>(
    wallet: &mut Wallet<B>,
    keychain_mask: Option<&SecretKey>,
    slate: &mut Slate<B>,
    minimum_confirmations: u64,
    max_outputs: usize,
    num_change_outputs: usize,
    selection_strategy_is_use_all: bool,
    parent_key_id: &Identifier,
    participant_id: usize,
    message: Option<String>,
    is_initiator: bool,
    use_test_rng: bool,
    result: Result<Context<B>, Error>,
)
    requires
        call_ensures(
            add_inputs_to_slate::<B>,
            (
                wallet,
                keychain_mask,
                slate,
                minimum_confirmations,
                max_outputs,
                num_change_outputs,
                selection_strategy_is_use_all,
                parent_key_id,
                participant_id,
                message,
                is_initiator,
                use_test_rng,
            ),
            result,
        ),
    ensures
        final(wallet).is_genuine(),
        old(wallet).history().len() < final(wallet).history().len(),
        final(wallet).history().take(old(wallet).history().len() as int)
            == old(wallet).history(),
        add_inputs_run(
            final(wallet).history(),
            old(wallet).history().len() as int,
            match keychain_mask {
                Some(mask) => Some(*mask),
                None => None,
            },
            *old(slate),
            minimum_confirmations,
            max_outputs,
            num_change_outputs,
            selection_strategy_is_use_all,
            *parent_key_id,
            participant_id,
            message,
            is_initiator,
            use_test_rng,
            *final(slate),
            result,
        ),
{
    assert(final(wallet).history().take(old(wallet).history().len() as int) =~= old(
        wallet,
    ).history());
}

/// What `add_output_to_slate` asks of the wallet, and returns, is what one run of it on just its
/// arguments does; what was in the record stays there.
pub proof fn law_add_output_to_slate_is_run_on_its_arguments<B: WalletBackend>(
    wallet: &mut Wallet<B>,
    keychain_mask: Option<&SecretKey>,
    slate: &mut Slate<B>,
    parent_key_id: &Identifier,
    participant_id: usize,
    message: Option<String>,
    is_initiator: bool,
    use_test_rng: bool,
    result: Result<Context<B>, Error>,
)
    requires
        call_ensures(
            add_output_to_slate::<B>,
            (
                wallet,
                keychain_mask,
                slate,
                parent_key_id,
                participant_id,
                message,
                is_initiator,
                use_test_rng,
            ),
            result,
        ),
    ensures
        final(wallet).is_genuine(),
        old(wallet).history().len() < final(wallet).history().len(),
        final(wallet).history().take(old(wallet).history().len() as int)
            == old(wallet).history(),
        add_output_run(
            final(wallet).history(),
            old(wallet).history().len() as int,
            match keychain_mask {
                Some(mask) => Some(*mask),
                None => None,
            },
            *old(slate),
            *parent_key_id,
            participant_id,
            message,
            is_initiator,
            use_test_rng,
            *final(slate),
            result,
        ),
{
    assert(final(wallet).history().take(old(wallet).history().len() as int) =~= old(
        wallet,
    ).history());
}

/// What `complete_tx` asks of the wallet, and returns, is what one run of it on just its
/// arguments does; what was in the record stays there.
pub proof fn law_complete_tx_is_run_on_its_arguments<B: WalletBackend>(
    wallet: &mut Wallet<B>,
    keychain_mask: Option<&SecretKey>,
    slate: &mut Slate<B>,
    participant_id: usize,
    context: &Context<B>,
    result: Result<(), Error>,
)
    requires
        call_ensures(
            complete_tx::<B>,
            (
                wallet,
                keychain_mask,
                slate,
                participant_id,
                context,
            ),
            result,
        ),
    ensures
        final(wallet).is_genuine(),
        old(wallet).history().len() < final(wallet).history().len(),
        final(wallet).history().take(old(wallet).history().len() as int)
            == old(wallet).history(),
        complete_run(
            final(wallet).history(),
            old(wallet).history().len() as int,
            match keychain_mask {
                Some(mask) => Some(*mask),
                None => None,
            },
            *old(slate),
            participant_id,
            *context,
            *final(slate),
            result,
        ),
{
    assert(final(wallet).history().take(old(wallet).history().len() as int) =~= old(
        wallet,
    ).history());
}

/// What `cancel_tx` asks of the wallet, and returns, is what one run of it on just its arguments
/// does; what was in the record stays there.
pub proof fn law_cancel_tx_is_run_on_its_arguments<B: WalletBackend>(
    wallet: &mut Wallet<B>,
    keychain_mask: Option<&SecretKey>,
    parent_key_id: &Identifier,
    tx_id: Option<u32>,
    tx_slate_id: Option<Uuid>,
    result: Result<(), Error>,
)
    requires
        call_ensures(
            cancel_tx::<B>,
            (
                wallet,
                keychain_mask,
                parent_key_id,
                tx_id,
                tx_slate_id,
            ),
            result,
        ),
    ensures
        final(wallet).is_genuine(),
        old(wallet).history().len() < final(wallet).history().len(),
        final(wallet).history().take(old(wallet).history().len() as int)
            == old(wallet).history(),
        cancel_run(
            final(wallet).history(),
            old(wallet).history().len() as int,
            match keychain_mask {
                Some(mask) => Some(*mask),
                None => None,
            },
            *parent_key_id,
            tx_id,
            tx_slate_id,
            result,
        ),
{
    assert(final(wallet).history().take(old(wallet).history().len() as int) =~= old(
        wallet,
    ).history());
}

/// What `update_stored_tx` asks of the wallet, and returns, is what one run of it on just its
/// arguments does; what was in the record stays there.
pub proof fn law_update_stored_tx_is_run_on_its_arguments<B: WalletBackend>(
    wallet: &mut Wallet<B>,
    keychain_mask: Option<&SecretKey>,
    context: &Context<B>,
    slate: &Slate<B>,
    is_invoiced: bool,
    result: Result<(), Error>,
)
    requires
        call_ensures(
            update_stored_tx::<B>,
            (
                wallet,
                keychain_mask,
                context,
                slate,
                is_invoiced,
            ),
            result,
        ),
    ensures
        final(wallet).is_genuine(),
        old(wallet).history().len() < final(wallet).history().len(),
        final(wallet).history().take(old(wallet).history().len() as int)
            == old(wallet).history(),
        update_stored_run(
            final(wallet).history(),
            old(wallet).history().len() as int,
            match keychain_mask {
                Some(mask) => Some(*mask),
                None => None,
            },
            *context,
            *slate,
            is_invoiced,
            result,
        ),
{
    assert(final(wallet).history().take(old(wallet).history().len() as int) =~= old(
        wallet,
    ).history());
}

/// What `update_message` asks of the wallet, and returns, is what one run of it on just its
/// arguments does; what was in the record stays there.
pub proof fn law_update_message_is_run_on_its_arguments<B: WalletBackend>(
    wallet: &mut Wallet<B>,
    keychain_mask: Option<&SecretKey>,
    slate: &Slate<B>,
    result: Result<(), Error>,
)
    requires
        call_ensures(
            update_message::<B>,
            (
                wallet,
                keychain_mask,
                slate,
            ),
            result,
        ),
    ensures
        final(wallet).is_genuine(),
        old(wallet).history().len() < final(wallet).history().len(),
        final(wallet).history().take(old(wallet).history().len() as int)
            == old(wallet).history(),
        update_message_run(
            final(wallet).history(),
            old(wallet).history().len() as int,
            match keychain_mask {
                Some(mask) => Some(*mask),
                None => None,
            },
            *slate,
            result,
        ),
{
    assert(final(wallet).history().take(old(wallet).history().len() as int) =~= old(
        wallet,
    ).history());
}

/// What `verify_slate_payment_proof` asks of the wallet, and returns, is what one run of it on
/// just its arguments does; what was in the record stays there.
pub proof fn law_verify_slate_payment_proof_is_run_on_its_arguments<B: WalletBackend>(
    wallet: &mut Wallet<B>,
    keychain_mask: Option<&SecretKey>,
    parent_key_id: &Identifier,
    context: &Context<B>,
    slate: &Slate<B>,
    result: Result<(), Error>,
)
    requires
        call_ensures(
            verify_slate_payment_proof::<B>,
            (
                wallet,
                keychain_mask,
                parent_key_id,
                context,
                slate,
            ),
            result,
        ),
    ensures
        final(wallet).is_genuine(),
        old(wallet).history().len() < final(wallet).history().len(),
        final(wallet).history().take(old(wallet).history().len() as int)
            == old(wallet).history(),
        verify_run(
            final(wallet).history(),
            old(wallet).history().len() as int,
            match keychain_mask {
                Some(mask) => Some(*mask),
                None => None,
            },
            *parent_key_id,
            *context,
            *slate,
            result,
        ),
{
    assert(final(wallet).history().take(old(wallet).history().len() as int) =~= old(
        wallet,
    ).history());
}

/// A slate that is filled in has the amount and the height, will have a plain kernel, expires so
/// many blocks after the height if that was asked for, has the given id if there is one, and the
/// highest version that the rules have; all else is as it was.
pub proof fn law_filled_slate_keeps_all_else<B: WalletBackend>(
    blank: Slate<B>,
    amount: u64,
    height: u64,
    ttl_blocks: Option<u64>,
    test_id: Option<Uuid>,
    version_6: bool,
    version_7: bool,
    slate: Slate<B>,
)
    requires
        ttl_blocks matches Some(blocks) ==> height + blocks <= u64::MAX,
        call_ensures(
            fill_slate::<B>,
            (blank, amount, height, ttl_blocks, test_id, version_6, version_7),
            slate,
        ),
    ensures
        slate.amount == amount,
        slate.height == height,
        slate.lock_height == 0,
        match ttl_blocks {
            Some(blocks) => slate.ttl_cutoff_height matches Some(cutoff) && cutoff == height
                + blocks,
            None => slate.ttl_cutoff_height == blank.ttl_cutoff_height,
        },
        test_id matches Some(id) ==> slate.id == id,
        test_id is None ==> slate.id == blank.id,
        version_7 ==> slate.version_info.block_header_version == 7,
        version_6 && !version_7 ==> slate.version_info.block_header_version == 6,
        !version_6 && !version_7 ==> slate.version_info.block_header_version
            == blank.version_info.block_header_version,
        slate.payment_proof == blank.payment_proof,
        slate.tx == blank.tx,
        slate.parts == blank.parts,
{
}

/// The entry that can be cancelled is the one that was found, as it is: a payment sent or received
/// that is not confirmed. A confirmed one cannot be, whatever it is of.
pub proof fn law_confirmed_entries_cannot_be_cancelled<B: WalletBackend>(
    entries: Vec<TxLogEntry<B>>,
    name: String,
    result: Result<TxLogEntry<B>, Error>,
)
    requires
        call_ensures(cancellable_tx::<B>, (entries, name), result),
    ensures
        result matches Ok(tx) ==> {
            &&& entries@.len() == 1
            &&& tx == entries@[0]
            &&& tx.confirmed == false
            &&& tx.tx_type == TxLogEntryType::TxSent || tx.tx_type == TxLogEntryType::TxReceived
        },
        entries@.len() != 1 ==> (result matches Err(Error::TransactionDoesntExist(text)) && text@
            == name@),
        entries@.len() == 1 && (entries@[0].confirmed || entries@[0].tx_type
            == TxLogEntryType::Other) ==> (result matches Err(
            Error::TransactionNotCancellable(text),
        ) && text@ == name@),
        entries@.len() == 1 && !entries@[0].confirmed && entries@[0].tx_type
            != TxLogEntryType::Other ==> result is Ok,
{
}

/// All outputs are taken, each as it is and in its place.
pub proof fn law_outputs_are_all_taken<B: WalletBackend>(
    mappings: Vec<OutputCommitMapping<B>>,
    outputs: Vec<B::Output>,
)
    requires
        call_ensures(outputs_of::<B>, (mappings,), outputs),
    ensures
        outputs@.len() == mappings@.len(),
        forall|i: int|
            0 <= i < outputs@.len() ==> #[trigger] outputs@[i] == mappings@[i].output,
{
}

/// The place that is found is that of the first entry of the side, and there is none only where
/// there is no such entry.
pub proof fn law_own_side_is_the_first<B: WalletBackend>(
    entries: &Vec<TxLogEntry<B>>,
    is_invoiced: bool,
    place: Option<usize>,
    j: int,
)
    requires
        call_ensures(own_side::<B>, (entries, is_invoiced), place),
        0 <= j < entries@.len(),
    ensures
        place matches Some(i) ==> i < entries@.len() && is_of_side(entries@[i as int], is_invoiced),
        is_of_side(entries@[j], is_invoiced) ==> (place matches Some(i) && i <= j),
{
}

/// The proof that the sender keeps holds: with the address of its key, the signature that is kept
/// verifies on the message of the payment. What the slate says of the receiver is kept as it is,
/// and so is the index of the address.
pub proof fn law_sender_proof_verifies(
    amount: u64,
    excess: &Commitment,
    proof: &PaymentInfo,
    sender_key: SecretKey,
    derivation_index: u32,
    result: Result<StoredProofInfo, Error>,
    pair: Result<(SecretKey, PublicKey), Error>,
    message: Result<Vec<u8>, Error>,
    bytes: &[u8],
    accepted: bool,
)
    requires
        call_ensures(sender_proof, (amount, excess, proof, sender_key, derivation_index), result),
        call_ensures(ed25519_keypair, (&sender_key,), pair),
        call_ensures(payment_proof_message, (amount, excess, proof.sender_address), message),
        message matches Ok(msg) ==> bytes@ == msg@,
        result matches Ok(stored) ==> (stored.sender_signature matches Some(signature)
            ==> call_ensures(
            PublicKey::verify,
            (&stored.sender_address, bytes, &signature),
            accepted,
        )),
    ensures
        result matches Ok(stored) && {
            &&& pair matches Ok((_, address)) && stored.sender_address@ == address@
            &&& stored.sender_signature is Some
            &&& accepted
            &&& stored.sender_address_path == derivation_index
            &&& stored.receiver_address == proof.receiver_address
            &&& stored.receiver_signature == proof.receiver_signature
        },
{
}

/// A signature on the message of a payment proof verifies under the address of the key that made
/// it.
pub proof fn law_created_signature_verifies(
    amount: u64,
    kernel_commitment: &Commitment,
    sender_address: PublicKey,
    sec_key: SecretKey,
    pair: Result<(SecretKey, PublicKey), Error>,
    message: Result<Vec<u8>, Error>,
    signature: Result<Signature, Error>,
    bytes: &[u8],
    accepted: bool,
)
    requires
        call_ensures(ed25519_keypair, (&sec_key,), pair),
        call_ensures(
            payment_proof_message,
            (amount, kernel_commitment, sender_address),
            message,
        ),
        call_ensures(
            create_payment_proof_signature,
            (amount, kernel_commitment, sender_address, sec_key),
            signature,
        ),
        message matches Ok(msg) ==> bytes@ == msg@,
        pair is Ok && signature is Ok ==> call_ensures(
            PublicKey::verify,
            (&pair->Ok_0.1, bytes, &signature->Ok_0),
            accepted,
        ),
    ensures
        pair is Ok && message is Ok && signature is Ok,
        pair->Ok_0.0 == sec_key,
        pair->Ok_0.1@ == ed25519_public_key(sec_key@),
        accepted,
{
}

/// What is decoded of a payment proof message is what it was made of: the amount, the kernel and
/// the address of the sender.
pub proof fn law_decoded_message_is_what_was_encoded(
    amount: u64,
    kernel_commitment: &Commitment,
    sender_address: PublicKey,
    message: Result<Vec<u8>, Error>,
    decoded: Result<(u64, Commitment, PublicKey), Error>,
    tried: Option<Result<(u64, Commitment, PublicKey), Error>>,
)
    requires
        call_ensures(
            payment_proof_message,
            (amount, kernel_commitment, sender_address),
            message,
        ),
        message matches Ok(msg) ==> call_ensures(_decode_payment_proof_message, (&msg,), decoded),
        message matches Ok(msg) ==> call_ensures(try_decode_payment_proof_message, (&msg,), tried),
    ensures
        message matches Ok(msg) && msg@.len() == 73,
        decoded matches Ok((a, c, s)) && a == amount && c@ == kernel_commitment@ && s@
            == sender_address@,
        tried is Some <==> ed25519_is_public_key(sender_address@),
        tried matches Some(t) ==> (t matches Ok((a, c, s)) && a == amount && c@
            == kernel_commitment@ && s@ == sender_address@),
{
    law_decoding_inverts_encoding(amount, *kernel_commitment, sender_address);
}

/// A message is decoded by its first seventy-three bytes alone, and not at all if it has less.
pub proof fn law_decoding_reads_the_first_bytes(
    msg: &Vec<u8>,
    other: &Vec<u8>,
    decoded: Result<(u64, Commitment, PublicKey), Error>,
    other_decoded: Result<(u64, Commitment, PublicKey), Error>,
)
    requires
        call_ensures(_decode_payment_proof_message, (msg,), decoded),
        call_ensures(_decode_payment_proof_message, (other,), other_decoded),
    ensures
        msg@.len() < 73 ==> decoded == Err::<(u64, Commitment, PublicKey), Error>(Error::IO),
        msg@.len() >= 73 ==> decoded is Ok,
        msg@.len() >= 73 && other@.len() >= 73 && msg@.take(73) == other@.take(73) ==> {
            let (amount, commitment, address) = decoded->Ok_0;
            let (other_amount, other_commitment, other_address) = other_decoded->Ok_0;
            &&& amount == other_amount
            &&& commitment@ == other_commitment@
            &&& address@ == other_address@
        },
{
    if msg@.len() >= 73 && other@.len() >= 73 && msg@.take(73) == other@.take(73) {
        let first = msg@.take(73);
        assert(msg@.subrange(0, 8) =~= first.subrange(0, 8));
        assert(msg@.subrange(8, 41) =~= first.subrange(8, 41));
        assert(msg@.subrange(41, 73) =~= first.subrange(41, 73));
        assert(other@.subrange(0, 8) =~= first.subrange(0, 8));
        assert(other@.subrange(8, 41) =~= first.subrange(8, 41));
        assert(other@.subrange(41, 73) =~= first.subrange(41, 73));
    }
}

/// The address of a key is the encoding of a point, and is read back from its bytes; so a message
/// with such an address as its sender can be decoded.
pub proof fn law_addresses_are_read_back(
    sec_key: SecretKey,
    pair: Result<(SecretKey, PublicKey), Error>,
    read: Option<PublicKey>,
)
    requires
        call_ensures(ed25519_keypair, (&sec_key,), pair),
        pair matches Ok((_, address)) ==> call_ensures(
            PublicKey::from_bytes,
            (&address.bytes,),
            read,
        ),
    ensures
        pair matches Ok((_, address)) && ed25519_is_public_key(address@) && (read matches Some(key)
            && key@ == address@),
{
}

/// A wallet that was asked nothing gives back the backend that it was made on.
pub proof fn law_wallet_gives_back_its_backend<B: WalletBackend>(
    backend: B,
    wallet: Wallet<B>,
    back: B,
)
    requires
        call_ensures(Wallet::<B>::new, (backend,), wallet),
        call_ensures(Wallet::<B>::into_backend, (wallet,), back),
    ensures
        wallet.is_genuine(),
        wallet.history().len() == 0,
        back == backend,
{
}

/// A proof must be where one was stored, and nowhere else: the first entry of the log and the slate
/// must both have one or neither, and what the log has is what the proof is held against.
pub proof fn law_stored_proof_is_that_of_the_first_entry<B: WalletBackend>(
    entries: &Vec<TxLogEntry<B>>,
    slate_proof: &Option<PaymentInfo>,
    result: Result<Option<StoredProofInfo>, Error>,
)
    requires
        call_ensures(stored_proof::<B>, (entries, slate_proof), result),
    ensures
        result is Ok <==> entries@.len() > 0 && (entries@[0].payment_proof is Some
            <==> *slate_proof is Some),
        result matches Ok(stored) ==> stored == entries@[0].payment_proof,
        entries@.len() == 0 ==> refused(
            result,
            "TxLogEntry with original proof info not found (is account correct?)",
        ),
        entries@.len() > 0 && *slate_proof is None && result is Err ==> refused(
            result,
            "Expected Payment Proof for this Transaction is not present",
        ),
        entries@.len() > 0 && *slate_proof is Some && result is Err ==> refused(
            result,
            "Original proof info not stored in tx",
        ),
{
}

/// The parties on a proof pass if and only if both addresses are the same as those that the wallet
/// knows.
pub proof fn law_parties_must_be_the_same(
    proof: &PaymentInfo,
    stored: &StoredProofInfo,
    orig_sender_address: &PublicKey,
    result: Result<(), Error>,
    same_sender: bool,
    same_receiver: bool,
)
    requires
        call_ensures(check_addresses, (proof, stored, orig_sender_address), result),
        call_ensures(PublicKey::same_as, (&proof.sender_address, orig_sender_address), same_sender),
        call_ensures(
            PublicKey::same_as,
            (&stored.receiver_address, &proof.receiver_address),
            same_receiver,
        ),
    ensures
        same_sender <==> proof.sender_address.bytes@ == orig_sender_address.bytes@,
        same_receiver <==> stored.receiver_address.bytes@ == proof.receiver_address.bytes@,
        result is Ok <==> same_sender && same_receiver,
        !same_sender ==> refused(
            result,
            "Sender address on slate does not match original sender address",
        ),
        same_sender && !same_receiver ==> refused(
            result,
            "Recipient address on slate does not match original recipient address",
        ),
{
}

/// The signature on a proof passes if and only if there is one, and it verifies, under the address
/// of the receiver, on the message of just this payment.
pub proof fn law_receiver_must_have_signed(
    proof: &PaymentInfo,
    amount: u64,
    excess: &Commitment,
    orig_sender_address: PublicKey,
    result: Result<(), Error>,
    message: Result<Vec<u8>, Error>,
    signature: Signature,
    bytes: &[u8],
    accepted: bool,
)
    requires
        call_ensures(
            check_receiver_signature,
            (proof, amount, excess, orig_sender_address),
            result,
        ),
        call_ensures(payment_proof_message, (amount, excess, orig_sender_address), message),
        message matches Ok(msg) ==> bytes@ == msg@,
        call_ensures(PublicKey::verify, (&proof.receiver_address, bytes, &signature), accepted),
    ensures
        proof.receiver_signature is None ==> refused(
            result,
            "Recipient did not provide requested proof signature",
        ),
        proof.receiver_signature == Some(signature) && accepted ==> result is Ok,
        proof.receiver_signature == Some(signature) && !accepted ==> refused(
            result,
            "Invalid proof signature",
        ),
{
}

/// An id is made of its bytes, if there are sixteen of them, and its text is that of those bytes.
pub proof fn law_ids_are_their_bytes(bytes: &[u8], id: Option<Uuid>, text: String)
    requires
        call_ensures(Uuid::from_slice, (bytes,), id),
        id matches Some(i) ==> call_ensures(Uuid::to_string, (&i,), text),
    ensures
        id is Some <==> bytes@.len() == 16,
        id matches Some(i) ==> i.bytes@ == bytes@ && text@ == hyphenated(bytes@),
{
}

} // verus!
