use epic_wallet::ed25519::{ed25519_keypair, ed25519_sign};
use epic_wallet::payment_proof::{
    check_addresses, check_receiver_signature, MESSAGE_LENGTH,
};
use epic_wallet::tx::{
    _decode_payment_proof_message, create_payment_proof_signature, payment_proof_message,
    try_decode_payment_proof_message,
};
use epic_wallet::types::{
    Commitment, Error, PaymentInfo, PublicKey, SecretKey, Signature, StoredProofInfo,
};
use rand::rngs::mock::StepRng;
use rand::RngCore;

fn secret_key(seed: u64) -> SecretKey {
    let mut test_rng = StepRng::new(seed, 1);
    let mut bytes = [0u8; 32];
    test_rng.fill_bytes(&mut bytes);
    SecretKey { bytes }
}

fn address(key: &SecretKey) -> PublicKey {
    ed25519_keypair(key).unwrap().1
}

fn commitment(first: u8) -> Commitment {
    let mut bytes = [first; 33];
    for i in 0..33 {
        bytes[i] = first.wrapping_add(i as u8);
    }
    Commitment { bytes }
}

fn refusal(result: Result<(), Error>) -> String {
    match result {
        Err(Error::PaymentProof(text)) => text,
        other => panic!("{:?}", other),
    }
}

#[test]
fn payment_proof_construction() {
    let sec_key = secret_key(1234567890u64);
    let address = address(&sec_key);
    let kernel_excess = commitment(8);

    let amount = 12345678u64;
    let msg = payment_proof_message(amount, &kernel_excess, address).unwrap();
    println!("payment proof message is (len {}): {:?}", msg.len(), msg);

    let decoded = _decode_payment_proof_message(&msg).unwrap();
    assert_eq!(decoded.0, amount);
    assert_eq!(decoded.1, kernel_excess);
    assert_eq!(decoded.2, address);

    let sig = create_payment_proof_signature(amount, &kernel_excess, address, sec_key).unwrap();

    assert!(address.verify(&msg, &sig));
}

#[test]
fn message_has_the_fields_in_order() {
    let address = PublicKey { bytes: [7; 32] };
    let msg = payment_proof_message(0x0102030405060708, &commitment(100), address).unwrap();
    assert_eq!(msg.len(), MESSAGE_LENGTH);
    assert_eq!(msg.len(), 73);
    assert_eq!(msg[..8], [1, 2, 3, 4, 5, 6, 7, 8]);
    assert_eq!(msg[8..41], commitment(100).bytes);
    assert_eq!(msg[41..], [7; 32]);
}

#[test]
fn extreme_amounts_survive() {
    let address = address(&secret_key(1));
    for amount in [0u64, 1, 255, 256, u64::MAX] {
        let msg = payment_proof_message(amount, &commitment(0), address).unwrap();
        assert_eq!(_decode_payment_proof_message(&msg).unwrap().0, amount);
    }
}

#[test]
fn short_message_is_an_error() {
    let address = address(&secret_key(1));
    let mut msg = payment_proof_message(5, &commitment(0), address).unwrap();
    msg.pop();
    assert_eq!(_decode_payment_proof_message(&msg), Err(Error::IO));
    assert_eq!(_decode_payment_proof_message(&Vec::new()), Err(Error::IO));
    assert_eq!(try_decode_payment_proof_message(&vec![0; 8]), Some(Err(Error::IO)));
    assert_eq!(try_decode_payment_proof_message(&vec![0; 40]), Some(Err(Error::IO)));
}

#[test]
fn what_follows_a_message_is_not_looked_at() {
    let address = address(&secret_key(1));
    let mut msg = payment_proof_message(5, &commitment(0), address).unwrap();
    msg.push(9);
    assert_eq!(
        try_decode_payment_proof_message(&msg),
        Some(Ok((5, commitment(0), address)))
    );
}

#[test]
fn message_with_a_bad_point_is_not_decoded() {
    let mut bad = [0u8; 32];
    bad[0] = 2;
    assert!(PublicKey::from_bytes(&bad).is_none());
    let msg = payment_proof_message(5, &commitment(0), PublicKey { bytes: bad }).unwrap();
    assert_eq!(try_decode_payment_proof_message(&msg), None);
}

#[test]
fn messages_of_different_payments_differ() {
    let a = address(&secret_key(1));
    let b = address(&secret_key(2));
    let msg = payment_proof_message(5, &commitment(0), a).unwrap();
    assert_ne!(msg, payment_proof_message(6, &commitment(0), a).unwrap());
    assert_ne!(msg, payment_proof_message(5, &commitment(1), a).unwrap());
    assert_ne!(msg, payment_proof_message(5, &commitment(0), b).unwrap());
}

#[test]
fn known_key_and_signature() {
    // The first test vector of RFC 8032.
    let secret = SecretKey {
        bytes: [
            0x9d, 0x61, 0xb1, 0x9d, 0xef, 0xfd, 0x5a, 0x60, 0xba, 0x84, 0x4a, 0xf4, 0x92, 0xec,
            0x2c, 0xc4, 0x44, 0x49, 0xc5, 0x69, 0x7b, 0x32, 0x69, 0x19, 0x70, 0x3b, 0xac, 0x03,
            0x1c, 0xae, 0x7f, 0x60,
        ],
    };
    let public = address(&secret);
    assert_eq!(
        public.bytes,
        [
            0xd7, 0x5a, 0x98, 0x01, 0x82, 0xb1, 0x0a, 0xb7, 0xd5, 0x4b, 0xfe, 0xd3, 0xc9, 0x64,
            0x07, 0x3a, 0x0e, 0xe1, 0x72, 0xf3, 0xda, 0xa6, 0x23, 0x25, 0xaf, 0x02, 0x1a, 0x68,
            0xf7, 0x07, 0x51, 0x1a,
        ]
    );
    assert_eq!(PublicKey::from_bytes(&public.bytes), Some(public));
    let sig = ed25519_sign(&secret, &[]).unwrap();
    assert_eq!(sig.bytes[..4], [0xe5, 0x56, 0x43, 0x00]);
    assert_eq!(sig.bytes[60..], [0x8e, 0x7a, 0x10, 0x0b]);
    assert!(public.verify(&[], &sig));
    assert!(!public.verify(&[1], &sig));
    let mut other = sig;
    other.bytes[0] ^= 1;
    assert!(!public.verify(&[], &other));
    assert!(!public.verify(&[], &Signature { bytes: [0xff; 64] }));
}

#[test]
fn addresses_are_checked() {
    let a = address(&secret_key(1));
    let b = address(&secret_key(2));
    let proof = PaymentInfo { sender_address: a, receiver_address: b, receiver_signature: None };
    let stored = StoredProofInfo {
        receiver_address: b,
        receiver_signature: None,
        sender_address_path: 0,
        sender_address: a,
        sender_signature: None,
    };
    assert_eq!(check_addresses(&proof, &stored, &a), Ok(()));
    assert_eq!(
        refusal(check_addresses(&proof, &stored, &b)),
        "Sender address on slate does not match original sender address"
    );
    let other = StoredProofInfo { receiver_address: a, ..stored };
    assert_eq!(
        refusal(check_addresses(&proof, &other, &a)),
        "Recipient address on slate does not match original recipient address"
    );
}

#[test]
fn receiver_signature_is_checked() {
    let sender = address(&secret_key(1));
    let receiver_key = secret_key(2);
    let excess = commitment(9);
    let sig = create_payment_proof_signature(60, &excess, sender, receiver_key).unwrap();
    let proof = PaymentInfo {
        sender_address: sender,
        receiver_address: address(&receiver_key),
        receiver_signature: Some(sig),
    };
    assert_eq!(check_receiver_signature(&proof, 60, &excess, sender), Ok(()));
    assert_eq!(
        refusal(check_receiver_signature(&proof, 61, &excess, sender)),
        "Invalid proof signature"
    );
    let unsigned = PaymentInfo { receiver_signature: None, ..proof };
    assert_eq!(
        refusal(check_receiver_signature(&unsigned, 60, &excess, sender)),
        "Recipient did not provide requested proof signature"
    );
}
