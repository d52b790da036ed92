//! Checking that a payment was proved.
use vstd::prelude::*;

use crate::ed25519::{ed25519_keypair, ed25519_public_key};
use crate::payment_proof::{
    addresses_checked, check_addresses, check_receiver_signature, refuse, refused,
    signature_checked, stored_proof, stored_proof_is,
};
use crate::tx::history::goes_on;
use crate::types::{Context, Error, Identifier, PaymentInfo, SecretKey, Slate, StoredProofInfo};
use crate::wallet::{unborrowed, Call, Wallet, WalletBackend};

verus! {

/// What `verify_slate_payment_proof` asks of the wallet, and what it makes of the replies.
pub open spec fn verify_run<B: WalletBackend>(
    history: Seq<Call<B>>,
    at: int,
    mask: Option<SecretKey>,
    parent: Identifier,
    context: Context<B>,
    slate: Slate<B>,
    result: Result<(), Error>,
) -> bool {
    &&& history.len() > at
    &&& history[at] matches Call::RetrieveTxs {
        tx_id,
        tx_slate_id,
        parent_key_id,
        outstanding_only,
        reply: found,
    }
    &&& tx_id is None && tx_slate_id == Some(slate.id)
    &&& parent_key_id == Some(parent) && !outstanding_only
    &&& match found {
        Err(e) => history.len() == at + 1 && result == Err::<(), Error>(e),
        Ok(entries) => if entries@.len() > 0 && entries@[0].payment_proof is Some
            && slate.payment_proof is Some {
            prove_run(
                history,
                at + 1,
                mask,
                parent,
                context,
                slate,
                slate.payment_proof->0,
                entries@[0].payment_proof->0,
                result,
            )
        } else {
            &&& history.len() == at + 1
            &&& match result {
                Ok(()) => stored_proof_is(
                    entries@,
                    slate.payment_proof,
                    Ok::<Option<StoredProofInfo>, Error>(None),
                ),
                Err(e) => stored_proof_is(
                    entries@,
                    slate.payment_proof,
                    Err::<Option<StoredProofInfo>, Error>(e),
                ),
            }
        },
    }
}

/// What checking the proof on a slate against the stored one asks of the wallet, and what comes
/// of it.
pub open spec fn prove_run<B: WalletBackend>(
    history: Seq<Call<B>>,
    at: int,
    mask: Option<SecretKey>,
    parent: Identifier,
    context: Context<B>,
    slate: Slate<B>,
    proof: PaymentInfo,
    stored: StoredProofInfo,
    result: Result<(), Error>,
) -> bool {
    &&& history.len() > at
    &&& history[at] matches Call::Keychain { keychain_mask, reply: key }
    &&& keychain_mask == mask
    &&& match (key, context.payment_proof_derivation_index) {
        (Err(e), _) => history.len() == at + 1 && result == Err::<(), Error>(e),
        (Ok(_), None) => {
            &&& history.len() == at + 1
            &&& refused(result, "Payment proof derivation index required")
        },
        (Ok(key), Some(derivation_index)) => {
            &&& history.len() > at + 1
            &&& history[at + 1] matches Call::AddressFromDerivationPath {
                keychain,
                parent_key_id,
                index,
                reply: sender_key,
            }
            &&& keychain == key && parent_key_id == parent && index == derivation_index
            &&& match sender_key {
                Err(e) => history.len() == at + 2 && result == Err::<(), Error>(e),
                Ok(sender_key) => {
                    let sender_address = ed25519_public_key(sender_key@);
                    if proof.sender_address@ != sender_address || stored.receiver_address@
                        != proof.receiver_address@ {
                        &&& history.len() == at + 2
                        &&& addresses_checked(proof, stored, sender_address, result)
                    } else {
                        &&& history.len() == at + 3
                        &&& history[at + 2] matches Call::CalcExcess {
                            slate: s,
                            keychain: excess_key,
                            reply: excess,
                        }
                        &&& s == slate && excess_key == key
                        &&& match excess {
                            Err(e) => result == Err::<(), Error>(e),
                            Ok(excess) => signature_checked(
                                proof,
                                slate.amount,
                                excess@,
                                sender_address,
                                result,
                            ),
                        }
                    }
                },
            }
        },
    }
}

/// Checks the proof on a slate against the stored one.
fn prove<B: WalletBackend>(
    wallet: &mut Wallet<B>,
    keychain_mask: Option<&SecretKey>,
    parent_key_id: &Identifier,
    context: &Context<B>,
    slate: &Slate<B>,
    proof: &PaymentInfo,
    stored: &StoredProofInfo,
) -> (result: Result<(), Error>)
    requires
        old(wallet).is_genuine(),
    ensures
        goes_on(*old(wallet), *final(wallet)),
        prove_run(
            final(wallet).history(),
            old(wallet).history().len() as int,
            unborrowed(keychain_mask),
            *parent_key_id,
            *context,
            *slate,
            *proof,
            *stored,
            result,
        ),
{
    let keychain = match wallet.keychain(keychain_mask) {
        Ok(k) => k,
        Err(e) => {
            return Err(e);
        },
    };
    let index: u32 = match context.payment_proof_derivation_index {
        Some(i) => i,
        None => {
            return refuse("Payment proof derivation index required");
        },
    };
    let orig_sender_sk = match wallet.address_from_derivation_path(
        &keychain,
        parent_key_id,
        index,
    ) {
        Ok(key) => key,
        Err(e) => {
            return Err(e);
        },
    };
    let orig_sender_address = ed25519_keypair(&orig_sender_sk)?.1;
    match check_addresses(proof, stored, &orig_sender_address) {
        Ok(()) => {},
        Err(e) => {
            return Err(e);
        },
    }
    let excess = match wallet.calc_excess(slate, &keychain) {
        Ok(excess) => excess,
        Err(e) => {
            return Err(e);
        },
    };
    check_receiver_signature(proof, slate.amount, &excess, orig_sender_address)
}

/// Checks the payment proof on a slate in every respect: that there is one where one was asked
/// for, that it names the parties that the wallet knows, and that the receiver signed it.
pub fn verify_slate_payment_proof<B: WalletBackend>(
    wallet: &mut Wallet<B>,
    keychain_mask: Option<&SecretKey>,
    parent_key_id: &Identifier,
    context: &Context<B>,
    slate: &Slate<B>,
) -> (result: Result<(), Error>)
    requires
        old(wallet).is_genuine(),
    ensures
        goes_on(*old(wallet), *final(wallet)),
        verify_run(
            final(wallet).history(),
            old(wallet).history().len() as int,
            unborrowed(keychain_mask),
            *parent_key_id,
            *context,
            *slate,
            result,
        ),
{
    let entries = match wallet.retrieve_txs(None, Some(slate.id), Some(parent_key_id), false) {
        Ok(entries) => entries,
        Err(e) => {
            return Err(e);
        },
    };
    let stored = match stored_proof(&entries, &slate.payment_proof) {
        Ok(stored) => stored,
        Err(e) => {
            return Err(e);
        },
    };
    match (&slate.payment_proof, &stored) {
        (Some(proof), Some(stored)) => prove(
            wallet,
            keychain_mask,
            parent_key_id,
            context,
            slate,
            proof,
            stored,
        ),
        _ => Ok(()),
    }
}

} // verus!
