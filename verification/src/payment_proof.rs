//! The message that a payment proof signs, and the signatures on it.
use byteorder::{BigEndian, ReadBytesExt, WriteBytesExt};
use vstd::prelude::*;

use crate::ed25519::{
    ed25519_accepts, ed25519_is_public_key, ed25519_public_key, ed25519_sign, ed25519_signature,
};
use crate::types::{
    Commitment, Error, PaymentInfo, PublicKey, SecretKey, Signature, StoredProofInfo, TxLogEntry,
};
use crate::wallet::WalletBackend;

verus! {

/// The number of bytes in a payment proof message.
pub const MESSAGE_LENGTH: usize = 73;

/// The value of eight bytes, the most significant first.
pub open spec fn be_value(bytes: Seq<u8>) -> int {
    bytes[0] * 0x100_0000_0000_0000 + bytes[1] * 0x1_0000_0000_0000 + bytes[2] * 0x100_0000_0000
        + bytes[3] * 0x1_0000_0000 + bytes[4] * 0x100_0000 + bytes[5] * 0x1_0000 + bytes[6] * 0x100
        + bytes[7]
}

/// A number as eight bytes, the most significant first.
pub open spec fn be_bytes(n: u64) -> Seq<u8> {
    seq![
        (n / 0x100_0000_0000_0000) as u8,
        (n / 0x1_0000_0000_0000 % 0x100) as u8,
        (n / 0x100_0000_0000 % 0x100) as u8,
        (n / 0x1_0000_0000 % 0x100) as u8,
        (n / 0x100_0000 % 0x100) as u8,
        (n / 0x1_0000 % 0x100) as u8,
        (n / 0x100 % 0x100) as u8,
        (n % 0x100) as u8,
    ]
}

/// The message of a payment proof: the amount, the kernel commitment, the address of the sender.
pub open spec fn message_of(
    amount: u64,
    kernel_commitment: Seq<u8>,
    sender_address: Seq<u8>,
) -> Seq<u8> {
    be_bytes(amount) + kernel_commitment + sender_address
}

/// `WriteBytesExt::write_u64` of the crate byteorder, on a vector: the eight bytes are put at
/// its end, the most significant first, and that does not fail.
#[verifier::external_body]
fn write_u64(buffer: &mut Vec<u8>, n: u64) -> (written: bool)
    ensures
        written,
        final(buffer)@ == old(buffer)@ + be_bytes(n),
{
    buffer.write_u64::<BigEndian>(n).is_ok()
}

/// `ReadBytesExt::read_u64` of the crate byteorder, on a cursor that stands at a position in
/// some bytes: the value of the next eight bytes, the most significant first, if there are so
/// many.
#[verifier::external_body]
fn read_u64(bytes: &[u8], position: usize) -> (value: Option<u64>)
    ensures
        value is Some <==> position + 8 <= bytes@.len(),
        value matches Some(v) ==> v == be_value(bytes@.subrange(position as int, position + 8)),
{
    let mut reader = std::io::Cursor::new(bytes);
    reader.set_position(position as u64);
    reader.read_u64::<BigEndian>().ok()
}

/// `ReadBytesExt::read_u8` of the crate byteorder, on a cursor that stands at a position in some
/// bytes: the next byte, if there is one.
#[verifier::external_body]
fn read_u8(bytes: &[u8], position: usize) -> (value: Option<u8>)
    ensures
        value is Some <==> position < bytes@.len(),
        value matches Some(v) ==> v == bytes@[position as int],
{
    let mut reader = std::io::Cursor::new(bytes);
    reader.set_position(position as u64);
    reader.read_u8().ok()
}

/// The message that a payment proof signs.
pub fn payment_proof_message(
    amount: u64,
    kernel_commitment: &Commitment,
    sender_address: PublicKey,
) -> (result: Result<Vec<u8>, Error>)
    ensures
        result is Ok,
        result->Ok_0@ == message_of(amount, kernel_commitment@, sender_address@),
{
    let mut msg: Vec<u8> = Vec::new();
    if !write_u64(&mut msg, amount) {
        return Err(Error::IO);
    }
    msg.extend_from_slice(kernel_commitment.bytes.as_slice());
    msg.extend_from_slice(sender_address.bytes.as_slice());
    assert(msg@ =~= message_of(amount, kernel_commitment@, sender_address@));
    Ok(msg)
}

/// The fields of a payment proof message. What follows the message is not looked at. The last
/// field of a whole message must be the encoding of a point.
pub fn _decode_payment_proof_message(msg: &Vec<u8>) -> (result: Result<
    (u64, Commitment, PublicKey),
    Error,
>)
    requires
        msg@.len() >= MESSAGE_LENGTH ==> ed25519_is_public_key(msg@.subrange(41, 73)),
    ensures
        result is Err <==> msg@.len() < MESSAGE_LENGTH,
        result matches Err(e) ==> e == Error::IO,
        result matches Ok((amount, commitment, address)) ==> {
            &&& amount == be_value(msg@.subrange(0, 8))
            &&& commitment@ == msg@.subrange(8, 41)
            &&& address@ == msg@.subrange(41, 73)
        },
{
    let amount: u64 = match read_u64(msg, 0) {
        Some(v) => v,
        None => {
            return Err(Error::IO);
        },
    };
    let mut commit_bytes: [u8; 33] = [0u8;33];
    let mut i: usize = 0;
    while i < 33
        invariant
            i <= 33,
            8 + i <= msg@.len(),
            forall|j: int| 0 <= j < i ==> commit_bytes@[j] == msg@[8 + j],
        decreases 33 - i,
    {
        match read_u8(msg, 8 + i) {
            Some(v) => {
                commit_bytes[i] = v;
            },
            None => {
                return Err(Error::IO);
            },
        }
        i = i + 1;
    }
    let mut sender_address_bytes: [u8; 32] = [0u8;32];
    i = 0;
    while i < 32
        invariant
            i <= 32,
            41 + i <= msg@.len(),
            forall|j: int| 0 <= j < i ==> sender_address_bytes@[j] == msg@[41 + j],
        decreases 32 - i,
    {
        match read_u8(msg, 41 + i) {
            Some(v) => {
                sender_address_bytes[i] = v;
            },
            None => {
                return Err(Error::IO);
            },
        }
        i = i + 1;
    }
    assert(commit_bytes@ =~= msg@.subrange(8, 41));
    assert(sender_address_bytes@ =~= msg@.subrange(41, 73));
    let address = PublicKey::from_bytes(&sender_address_bytes).unwrap();
    Ok((amount, Commitment { bytes: commit_bytes }, address))
}

/// The fields of a payment proof message, as `_decode_payment_proof_message` gives them. There
/// are none where the last field of a whole message is not the encoding of a point.
pub fn try_decode_payment_proof_message(msg: &Vec<u8>) -> (result: Option<
    Result<(u64, Commitment, PublicKey), Error>,
>)
    ensures
        result is None <==> msg@.len() >= MESSAGE_LENGTH && !ed25519_is_public_key(
            msg@.subrange(41, 73),
        ),
        result matches Some(decoded) ==> {
            &&& decoded is Err <==> msg@.len() < MESSAGE_LENGTH
            &&& decoded matches Err(e) ==> e == Error::IO
            &&& decoded matches Ok((amount, commitment, address)) ==> {
                &&& amount == be_value(msg@.subrange(0, 8))
                &&& commitment@ == msg@.subrange(8, 41)
                &&& address@ == msg@.subrange(41, 73)
            }
        },
{
    if msg.len() >= MESSAGE_LENGTH {
        let mut bytes: [u8; 32] = [0u8;32];
        let mut i: usize = 0;
        while i < 32
            invariant
                i <= 32,
                msg@.len() >= MESSAGE_LENGTH,
                forall|j: int| 0 <= j < i ==> bytes@[j] == msg@[41 + j],
            decreases 32 - i,
        {
            bytes[i] = msg[41 + i];
            i = i + 1;
        }
        assert(bytes@ =~= msg@.subrange(41, 73));
        if PublicKey::from_bytes(&bytes).is_none() {
            return None;
        }
    }
    Some(_decode_payment_proof_message(msg))
}

/// Signs the message of a payment proof.
pub fn create_payment_proof_signature(
    amount: u64,
    kernel_commitment: &Commitment,
    sender_address: PublicKey,
    sec_key: SecretKey,
) -> (result: Result<Signature, Error>)
    ensures
        result is Ok,
        result->Ok_0@ == ed25519_signature(
            sec_key@,
            message_of(amount, kernel_commitment@, sender_address@),
        ),
        ed25519_accepts(
            ed25519_public_key(sec_key@),
            message_of(amount, kernel_commitment@, sender_address@),
            result->Ok_0@,
        ),
{
    let msg = payment_proof_message(amount, kernel_commitment, sender_address)?;
    ed25519_sign(&sec_key, &msg)
}

/// Whether an operation was refused because of a payment proof, for the given reason.
pub open spec fn refused<T>(result: Result<T, Error>, reason: &str) -> bool {
    result matches Err(Error::PaymentProof(text)) && text@ == reason@
}

/// Refuses an operation because of a payment proof.
pub(crate) fn refuse<T>(reason: &str) -> (result: Result<T, Error>)
    ensures
        refused(result, reason),
{
    Err(Error::PaymentProof(reason.to_owned()))
}

/// What the log says that the payment proof of a slate must agree with. There is nothing to
/// agree with where neither the log nor the slate speaks of a proof; it is refused where only
/// one of them does, or where the log has no entry for the slate.
pub fn stored_proof<B: WalletBackend>(
    entries: &Vec<TxLogEntry<B>>,
    slate_proof: &Option<PaymentInfo>,
) -> (result: Result<Option<StoredProofInfo>, Error>)
    ensures
        stored_proof_is(entries@, *slate_proof, result),
{
    if entries.len() == 0 {
        return refuse(
            "TxLogEntry with original proof info not found (is account correct?)",
        );
    }
    let orig_proof_info = entries[0].payment_proof;
    if orig_proof_info.is_some() && slate_proof.is_none() {
        return refuse("Expected Payment Proof for this Transaction is not present");
    }
    if slate_proof.is_some() && orig_proof_info.is_none() {
        return refuse("Original proof info not stored in tx");
    }
    Ok(orig_proof_info)
}

/// What `stored_proof` returns.
pub open spec fn stored_proof_is<B: WalletBackend>(
    entries: Seq<TxLogEntry<B>>,
    slate_proof: Option<PaymentInfo>,
    result: Result<Option<StoredProofInfo>, Error>,
) -> bool {
    if entries.len() == 0 {
        refused(result, "TxLogEntry with original proof info not found (is account correct?)")
    } else {
        match (entries[0].payment_proof, slate_proof) {
            (Some(_), None) => refused(
                result,
                "Expected Payment Proof for this Transaction is not present",
            ),
            (None, Some(_)) => refused(result, "Original proof info not stored in tx"),
            (stored, _) => result == Ok::<_, Error>(stored),
        }
    }
}

/// Refuses a payment proof that names other parties than the sender and the stored receiver.
pub fn check_addresses(
    proof: &PaymentInfo,
    stored: &StoredProofInfo,
    orig_sender_address: &PublicKey,
) -> (result: Result<(), Error>)
    ensures
        addresses_checked(*proof, *stored, orig_sender_address@, result),
{
    if !proof.sender_address.same_as(orig_sender_address) {
        return refuse("Sender address on slate does not match original sender address");
    }
    if !stored.receiver_address.same_as(&proof.receiver_address) {
        return refuse("Recipient address on slate does not match original recipient address");
    }
    Ok(())
}

/// What `check_addresses` returns.
pub open spec fn addresses_checked(
    proof: PaymentInfo,
    stored: StoredProofInfo,
    orig_sender_address: Seq<u8>,
    result: Result<(), Error>,
) -> bool {
    if proof.sender_address@ != orig_sender_address {
        refused(result, "Sender address on slate does not match original sender address")
    } else if stored.receiver_address@ != proof.receiver_address@ {
        refused(result, "Recipient address on slate does not match original recipient address")
    } else {
        result is Ok
    }
}

/// Refuses a payment proof without a signature of the receiver on its message.
pub fn check_receiver_signature(
    proof: &PaymentInfo,
    amount: u64,
    excess: &Commitment,
    orig_sender_address: PublicKey,
) -> (result: Result<(), Error>)
    ensures
        signature_checked(*proof, amount, excess@, orig_sender_address@, result),
{
    let msg = payment_proof_message(amount, excess, orig_sender_address)?;
    let sig = match proof.receiver_signature {
        Some(s) => s,
        None => {
            return refuse("Recipient did not provide requested proof signature");
        },
    };
    if !proof.receiver_address.verify(&msg, &sig) {
        return refuse("Invalid proof signature");
    }
    Ok(())
}

/// What `check_receiver_signature` returns.
pub open spec fn signature_checked(
    proof: PaymentInfo,
    amount: u64,
    excess: Seq<u8>,
    orig_sender_address: Seq<u8>,
    result: Result<(), Error>,
) -> bool {
    match proof.receiver_signature {
        None => refused(result, "Recipient did not provide requested proof signature"),
        Some(sig) => if ed25519_accepts(
            proof.receiver_address@,
            message_of(amount, excess, orig_sender_address),
            sig@,
        ) {
            result is Ok
        } else {
            refused(result, "Invalid proof signature")
        },
    }
}

/// Eight bytes made of a number have the value of the number.
pub proof fn law_bytes_keep_value(n: u64)
    ensures
        be_bytes(n).len() == 8,
        be_value(be_bytes(n)) == n,
{
    let a1 = n / 0x100;
    let a2 = n / 0x1_0000;
    let a3 = n / 0x100_0000;
    let a4 = n / 0x1_0000_0000;
    let a5 = n / 0x100_0000_0000;
    let a6 = n / 0x1_0000_0000_0000;
    let a7 = n / 0x100_0000_0000_0000;
    assert(a1 / 0x100 == a2 && a2 / 0x100 == a3 && a3 / 0x100 == a4 && a4 / 0x100 == a5 && a5
        / 0x100 == a6 && a6 / 0x100 == a7 && a7 < 0x100);
}

/// Decoding a payment proof message gives back what it was made of.
pub proof fn law_decoding_inverts_encoding(
    amount: u64,
    kernel_commitment: Commitment,
    sender_address: PublicKey,
)
    ensures
        ({
            let msg = message_of(amount, kernel_commitment@, sender_address@);
            &&& msg.len() == MESSAGE_LENGTH
            &&& be_value(msg.subrange(0, 8)) == amount
            &&& msg.subrange(8, 41) == kernel_commitment@
            &&& msg.subrange(41, 73) == sender_address@
        }),
{
    let msg = message_of(amount, kernel_commitment@, sender_address@);
    law_bytes_keep_value(amount);
    assert(msg.subrange(0, 8) =~= be_bytes(amount));
    assert(msg.subrange(8, 41) =~= kernel_commitment@);
    assert(msg.subrange(41, 73) =~= sender_address@);
}

/// Payments that differ in the amount, the kernel or the sender are proved by different
/// messages.
pub proof fn law_message_determines_payment(
    amount: u64,
    kernel_commitment: Commitment,
    sender_address: PublicKey,
    other_amount: u64,
    other_commitment: Commitment,
    other_address: PublicKey,
)
    requires
        message_of(amount, kernel_commitment@, sender_address@) == message_of(
            other_amount,
            other_commitment@,
            other_address@,
        ),
    ensures
        amount == other_amount,
        kernel_commitment@ == other_commitment@,
        sender_address@ == other_address@,
{
    law_decoding_inverts_encoding(amount, kernel_commitment, sender_address);
    law_decoding_inverts_encoding(other_amount, other_commitment, other_address);
}

} // verus!
