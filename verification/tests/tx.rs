use epic_wallet::ed25519::ed25519_keypair;
use epic_wallet::tx::building::fill_slate;
use epic_wallet::tx::log::{cancellable_tx, outputs_of, own_side, sender_proof};
use epic_wallet::tx::{
    add_inputs_to_slate, add_output_to_slate, cancel_tx, complete_tx,
    create_payment_proof_signature, estimate_send_tx, new_tx_slate, payment_proof_message,
    update_message, update_stored_tx, verify_slate_payment_proof,
};
use epic_wallet::types::{
    Commitment, Context, Error, Identifier, OutputCommitMapping, PaymentInfo, PublicKey, SecretKey,
    Selection, Slate, StoredProofInfo, Transaction, TxKernel, TxLogEntry, TxLogEntryType, Uuid,
    VersionInfo,
};
use epic_wallet::wallet::{Call, Wallet, WalletBackend};

const ACCOUNT: Identifier = Identifier { bytes: [1; 17] };
const OTHER_ACCOUNT: Identifier = Identifier { bytes: [2; 17] };
const MASK: SecretKey = SecretKey { bytes: [5; 32] };
const SENDER_KEY: SecretKey = SecretKey { bytes: [11; 32] };
const RECEIVER_KEY: SecretKey = SecretKey { bytes: [12; 32] };
const EXCESS: Commitment = Commitment { bytes: [9; 33] };
const KERNEL_EXCESS: Commitment = Commitment { bytes: [8; 33] };
const SLATE_ID: Uuid = Uuid { bytes: [0xab; 16] };
const SLATE_TEXT: &str = "abababab-abab-abab-abab-abababababab";

/// A backend that writes down what it is asked. It fails when it is asked for one thing the
/// given number of times, counted from 1.
struct Recorder {
    calls: Vec<String>,
    fail: (&'static str, usize),
    tip: u64,
    valid_versions: Vec<u16>,
    entries: Vec<TxLogEntry<Recorder>>,
    outputs: Vec<u8>,
    kept: Vec<(TxLogEntry<Recorder>, Identifier)>,
    cancelled: Vec<(TxLogEntry<Recorder>, Vec<u8>)>,
}

fn recorder() -> Recorder {
    Recorder {
        calls: Vec::new(),
        fail: ("", 0),
        tip: 1000,
        valid_versions: Vec::new(),
        entries: Vec::new(),
        outputs: Vec::new(),
        kept: Vec::new(),
        cancelled: Vec::new(),
    }
}

impl Recorder {
    fn asked(&mut self, name: &str, details: String) -> Result<(), Error> {
        self.calls.push(format!("{}{}", name, details));
        let n = self.calls.iter().filter(|c| c.split('(').next() == Some(name)).count();
        if (name, n) == self.fail {
            Err(failure(name))
        } else {
            Ok(())
        }
    }
}

fn failure(name: &str) -> Error {
    Error::Backend(name.to_owned())
}

fn masked(mask: Option<&SecretKey>) -> Option<u8> {
    mask.map(|m| m.bytes[0])
}

fn account(id: &Identifier) -> u8 {
    id.bytes[0]
}

impl WalletBackend for Recorder {
    type Keychain = usize;
    type SlateParts = Vec<String>;
    type TransactionParts = u8;
    type ContextParts = u8;
    type TxLogEntryParts = u8;
    type Messages = String;
    type Output = u8;
    type Batch = Vec<(TxLogEntry<Recorder>, Identifier)>;

    fn answers(_before: Self, _call: Call<Self>, _after: Self) -> bool {
        true
    }

    fn get_chain_tip(&mut self) -> Result<u64, Error> {
        self.asked("get_chain_tip", "()".to_owned())?;
        Ok(self.tip)
    }

    fn refresh_outputs(
        &mut self,
        keychain_mask: Option<&SecretKey>,
        parent_key_id: &Identifier,
        update_all: bool,
    ) -> Result<(), Error> {
        let details =
            format!("({:?} {} {})", masked(keychain_mask), account(parent_key_id), update_all);
        self.asked("refresh_outputs", details)
    }

    fn select_coins_and_fee(
        &mut self,
        amount: u64,
        current_height: u64,
        minimum_confirmations: u64,
        max_outputs: usize,
        num_change_outputs: usize,
        selection_strategy_is_use_all: bool,
        parent_key_id: &Identifier,
    ) -> Result<Selection<Recorder>, Error> {
        let details = format!(
            "({} {} {} {} {} {} {})",
            amount,
            current_height,
            minimum_confirmations,
            max_outputs,
            num_change_outputs,
            selection_strategy_is_use_all,
            account(parent_key_id)
        );
        self.asked("select_coins_and_fee", details)?;
        Ok(Selection { coins: vec![1, 2], total: 70, amount: 61, fee: 8 })
    }

    fn keychain(&mut self, keychain_mask: Option<&SecretKey>) -> Result<usize, Error> {
        self.asked("keychain", format!("({:?})", masked(keychain_mask)))?;
        Ok(self.calls.iter().filter(|c| c.starts_with("keychain")).count())
    }

    fn parent_key_id(&mut self) -> Identifier {
        self.calls.push("parent_key_id()".to_owned());
        OTHER_ACCOUNT
    }

    fn build_send_tx(
        &mut self,
        keychain: &usize,
        keychain_mask: Option<&SecretKey>,
        slate: &mut Slate<Recorder>,
        minimum_confirmations: u64,
        max_outputs: usize,
        num_change_outputs: usize,
        selection_strategy_is_use_all: bool,
        parent_key_id: Identifier,
        use_test_rng: bool,
    ) -> Result<Context<Recorder>, Error> {
        slate.parts.push("inputs".to_owned());
        let details = format!(
            "({} {:?} {} {} {} {} {} {})",
            keychain,
            masked(keychain_mask),
            minimum_confirmations,
            max_outputs,
            num_change_outputs,
            selection_strategy_is_use_all,
            account(&parent_key_id),
            use_test_rng
        );
        self.asked("build_send_tx", details)?;
        Ok(context(None))
    }

    fn build_recipient_output(
        &mut self,
        keychain_mask: Option<&SecretKey>,
        slate: &mut Slate<Recorder>,
        parent_key_id: Identifier,
        use_test_rng: bool,
    ) -> Result<(Identifier, Context<Recorder>), Error> {
        slate.parts.push("output".to_owned());
        let details =
            format!("({:?} {} {})", masked(keychain_mask), account(&parent_key_id), use_test_rng);
        self.asked("build_recipient_output", details)?;
        Ok((parent_key_id, context(None)))
    }

    fn blank_slate(&mut self, num_participants: usize) -> Slate<Recorder> {
        self.calls.push(format!("blank_slate({})", num_participants));
        slate(None)
    }

    fn valid_header_version(&mut self, height: u64, version: u16) -> bool {
        self.calls.push(format!("valid_header_version({} {})", height, version));
        self.valid_versions.contains(&version)
    }

    fn fill_round_1(
        &mut self,
        slate: &mut Slate<Recorder>,
        keychain: &usize,
        sec_key: &mut SecretKey,
        sec_nonce: &SecretKey,
        participant_id: usize,
        message: Option<String>,
        use_test_rng: bool,
    ) -> Result<(), Error> {
        slate.parts.push("round 1".to_owned());
        let details = format!(
            "({} {} {} {} {:?} {})",
            keychain, sec_key.bytes[0], sec_nonce.bytes[0], participant_id, message, use_test_rng
        );
        sec_key.bytes[0] += 1;
        self.asked("fill_round_1", details)
    }

    fn fill_round_2(
        &mut self,
        slate: &mut Slate<Recorder>,
        keychain: &usize,
        sec_key: &SecretKey,
        sec_nonce: &SecretKey,
        participant_id: usize,
    ) -> Result<(), Error> {
        slate.parts.push("round 2".to_owned());
        let details = format!(
            "({} {} {} {})",
            keychain, sec_key.bytes[0], sec_nonce.bytes[0], participant_id
        );
        self.asked("fill_round_2", details)
    }

    fn finalize(&mut self, slate: &mut Slate<Recorder>, keychain: &usize) -> Result<(), Error> {
        slate.parts.push("final".to_owned());
        self.asked("finalize", format!("({})", keychain))
    }

    fn calc_excess(
        &mut self,
        slate: &Slate<Recorder>,
        keychain: &usize,
    ) -> Result<Commitment, Error> {
        self.asked("calc_excess", format!("({} {})", slate.amount, keychain))?;
        Ok(EXCESS)
    }

    fn participant_messages(&mut self, slate: &Slate<Recorder>) -> String {
        self.calls.push(format!("participant_messages({})", slate.amount));
        "hello".to_owned()
    }

    fn address_from_derivation_path(
        &mut self,
        keychain: &usize,
        parent_key_id: &Identifier,
        index: u32,
    ) -> Result<SecretKey, Error> {
        let details = format!("({} {} {})", keychain, account(parent_key_id), index);
        self.asked("address_from_derivation_path", details)?;
        Ok(SENDER_KEY)
    }

    fn retrieve_txs(
        &mut self,
        tx_id: Option<u32>,
        tx_slate_id: Option<Uuid>,
        parent_key_id: Option<&Identifier>,
        outstanding_only: bool,
    ) -> Result<Vec<TxLogEntry<Recorder>>, Error> {
        let details = format!(
            "({:?} {:?} {:?} {})",
            tx_id,
            tx_slate_id.map(|id| id.bytes[0]),
            parent_key_id.map(account),
            outstanding_only
        );
        self.asked("retrieve_txs", details)?;
        Ok(std::mem::take(&mut self.entries))
    }

    fn retrieve_outputs(
        &mut self,
        keychain_mask: Option<&SecretKey>,
        show_spent: bool,
        tx_id: Option<u32>,
        parent_key_id: Option<&Identifier>,
    ) -> Result<Vec<OutputCommitMapping<Recorder>>, Error> {
        let details = format!(
            "({:?} {} {:?} {:?})",
            masked(keychain_mask),
            show_spent,
            tx_id,
            parent_key_id.map(account)
        );
        self.asked("retrieve_outputs", details)?;
        Ok(mappings(&self.outputs))
    }

    fn cancel_tx_and_outputs(
        &mut self,
        keychain_mask: Option<&SecretKey>,
        tx: TxLogEntry<Recorder>,
        outputs: Vec<u8>,
        parent_key_id: &Identifier,
    ) -> Result<(), Error> {
        let details = format!(
            "({:?} {} {:?} {})",
            masked(keychain_mask),
            tx.id,
            outputs,
            account(parent_key_id)
        );
        self.asked("cancel_tx_and_outputs", details)?;
        self.cancelled.push((tx, outputs));
        Ok(())
    }

    fn store_tx(&mut self, uuid: &str, tx: &Transaction<Recorder>) -> Result<(), Error> {
        self.asked("store_tx", format!("({} {})", uuid, tx.parts))
    }

    fn batch(&mut self, keychain_mask: Option<&SecretKey>) -> Result<Self::Batch, Error> {
        self.asked("batch", format!("({:?})", masked(keychain_mask)))?;
        Ok(Vec::new())
    }

    fn save_tx_log_entry(
        &mut self,
        batch: &mut Self::Batch,
        tx: TxLogEntry<Recorder>,
        parent_key_id: &Identifier,
    ) -> Result<(), Error> {
        let details = format!("({} {})", tx.id, account(parent_key_id));
        self.asked("save_tx_log_entry", details)?;
        batch.push((tx, *parent_key_id));
        Ok(())
    }

    fn commit(&mut self, batch: Self::Batch) -> Result<(), Error> {
        self.asked("commit", format!("({})", batch.len()))?;
        self.kept.extend(batch);
        Ok(())
    }
}

fn mappings(outputs: &[u8]) -> Vec<OutputCommitMapping<Recorder>> {
    outputs
        .iter()
        .map(|o| OutputCommitMapping { output: *o, commit: Commitment { bytes: [*o; 33] } })
        .collect()
}

fn context(index: Option<u32>) -> Context<Recorder> {
    Context {
        sec_key: SecretKey { bytes: [30; 32] },
        sec_nonce: SecretKey { bytes: [40; 32] },
        payment_proof_derivation_index: index,
        parts: 3,
    }
}

fn slate(payment_proof: Option<PaymentInfo>) -> Slate<Recorder> {
    Slate {
        id: SLATE_ID,
        amount: 60,
        height: 1,
        lock_height: 2,
        ttl_cutoff_height: None,
        version_info: VersionInfo { block_header_version: 5 },
        payment_proof,
        tx: Transaction {
            kernels: vec![TxKernel { excess: KERNEL_EXCESS }, TxKernel { excess: EXCESS }],
            parts: 77,
        },
        parts: Vec::new(),
    }
}

fn entry(id: u32, tx_type: TxLogEntryType) -> TxLogEntry<Recorder> {
    TxLogEntry {
        id,
        tx_type,
        confirmed: false,
        tx_slate_id: Some(SLATE_ID),
        parent_key_id: ACCOUNT,
        kernel_excess: None,
        messages: None,
        payment_proof: None,
        parts: 6,
    }
}

fn address(key: &SecretKey) -> PublicKey {
    ed25519_keypair(key).unwrap().1
}

fn slate_proof() -> PaymentInfo {
    let sender = address(&SENDER_KEY);
    let signature = create_payment_proof_signature(60, &EXCESS, sender, RECEIVER_KEY).unwrap();
    PaymentInfo {
        sender_address: sender,
        receiver_address: address(&RECEIVER_KEY),
        receiver_signature: Some(signature),
    }
}

fn stored() -> StoredProofInfo {
    StoredProofInfo {
        receiver_address: address(&RECEIVER_KEY),
        receiver_signature: None,
        sender_address_path: 4,
        sender_address: address(&SENDER_KEY),
        sender_signature: None,
    }
}

fn proved(stored: Option<StoredProofInfo>) -> Vec<TxLogEntry<Recorder>> {
    vec![TxLogEntry { payment_proof: stored, ..entry(1, TxLogEntryType::TxSent) }]
}

fn refused(reason: &str) -> Result<(), Error> {
    Err(Error::PaymentProof(reason.to_owned()))
}

fn failing(name: &'static str, n: usize) -> Recorder {
    Recorder { fail: (name, n), ..recorder() }
}

#[test]
fn new_slate_is_plain() {
    let mut wallet = Wallet::new(Recorder { valid_versions: vec![6, 7], ..recorder() });
    let mut counter = 9;
    let made = new_tx_slate(&mut wallet, 123, 2, false, Some(10), &mut counter).ok().unwrap();
    assert_eq!(made.amount, 123);
    assert_eq!(made.height, 1000);
    assert_eq!(made.lock_height, 0);
    assert_eq!(made.ttl_cutoff_height, Some(1010));
    assert_eq!(made.version_info.block_header_version, 7);
    assert_eq!(made.id, SLATE_ID);
    assert_eq!(made.tx.parts, 77);
    assert_eq!(counter, 9);
    assert_eq!(
        wallet.into_backend().calls,
        vec![
            "get_chain_tip()",
            "blank_slate(2)",
            "valid_header_version(1000 6)",
            "valid_header_version(1000 7)",
        ]
    );
}

#[test]
fn header_versions() {
    for (valid, version) in [(vec![], 5), (vec![6], 6), (vec![7], 7), (vec![6, 7], 7)] {
        let mut wallet = Wallet::new(Recorder { valid_versions: valid, ..recorder() });
        let made = new_tx_slate(&mut wallet, 1, 2, false, None, &mut 0).ok().unwrap();
        assert_eq!(made.version_info.block_header_version, version);
        assert_eq!(made.ttl_cutoff_height, None);
    }
}

#[test]
fn test_slate_ids_differ() {
    let mut wallet = Wallet::new(recorder());
    let mut counter = 0;
    let first = new_tx_slate(&mut wallet, 1, 2, true, None, &mut counter).ok().unwrap();
    let second = new_tx_slate(&mut wallet, 1, 2, true, None, &mut counter).ok().unwrap();
    assert_eq!(first.id.to_string(), "0436430c-2b02-624c-2032-570501212b00");
    assert_eq!(second.id.to_string(), "0436430c-2b02-624c-2032-570501212b01");
    assert_eq!(counter, 2);
    let mut counter = 254;
    let last = new_tx_slate(&mut wallet, 1, 2, true, None, &mut counter).ok().unwrap();
    assert_eq!(last.id.bytes[15], 254);
    assert_eq!(counter, 255);
}

#[test]
fn new_slate_that_expires_too_late() {
    let mut wallet = Wallet::new(recorder());
    let mut counter = 3;
    let made = new_tx_slate(&mut wallet, 1, 2, true, Some(u64::MAX - 999), &mut counter);
    assert_eq!(made.err(), Some(Error::TtlOutOfRange));
    assert_eq!(counter, 3);
    let made = new_tx_slate(&mut wallet, 1, 2, false, Some(u64::MAX - 1000), &mut counter);
    assert_eq!(made.ok().unwrap().ttl_cutoff_height, Some(u64::MAX));
}

#[test]
fn new_slate_without_a_node() {
    let mut wallet = Wallet::new(failing("get_chain_tip", 1));
    let mut counter = 3;
    let made = new_tx_slate(&mut wallet, 1, 2, true, None, &mut counter);
    assert_eq!(made.err(), Some(failure("get_chain_tip")));
    assert_eq!(counter, 3);
    assert_eq!(wallet.into_backend().calls, vec!["get_chain_tip()"]);
}

#[test]
fn slates_are_filled_in() {
    let filled = fill_slate(slate(None), 5, 6, None, Some(Uuid { bytes: [1; 16] }), true, false);
    assert_eq!(filled.id.bytes, [1; 16]);
    assert_eq!((filled.amount, filled.height, filled.lock_height), (5, 6, 0));
    assert_eq!(filled.version_info.block_header_version, 6);
}

#[test]
fn estimate_makes_no_transaction() {
    let mut wallet = Wallet::new(recorder());
    let result = estimate_send_tx(&mut wallet, Some(&MASK), 60, 10, 500, 1, true, &ACCOUNT);
    assert_eq!(result, Ok((70, 8)));
    assert_eq!(
        wallet.into_backend().calls,
        vec![
            "get_chain_tip()",
            "refresh_outputs(Some(5) 1 false)",
            "select_coins_and_fee(60 1000 10 500 1 true 1)",
        ]
    );
}

#[test]
fn estimate_passes_errors_on() {
    for (i, name) in
        ["get_chain_tip", "refresh_outputs", "select_coins_and_fee"].into_iter().enumerate()
    {
        let mut wallet = Wallet::new(failing(name, 1));
        let result = estimate_send_tx(&mut wallet, None, 60, 10, 500, 1, true, &ACCOUNT);
        assert_eq!(result, Err(failure(name)));
        assert_eq!(wallet.into_backend().calls.len(), i + 1);
    }
}

#[test]
fn sender_signs_unless_initiator() {
    let mut wallet = Wallet::new(recorder());
    let mut s = slate(None);
    let message = Some("hi".to_owned());
    let result = add_inputs_to_slate(
        &mut wallet, Some(&MASK), &mut s, 10, 500, 1, false, &ACCOUNT, 3, message, false, true,
    );
    let secrets = result.ok().unwrap();
    assert_eq!(secrets.sec_key.bytes[0], 31);
    assert_eq!(secrets.sec_nonce.bytes[0], 40);
    assert_eq!(s.parts, vec!["inputs", "round 1", "round 2"]);
    assert_eq!(
        wallet.into_backend().calls,
        vec![
            "refresh_outputs(Some(5) 1 false)",
            "keychain(Some(5))",
            "build_send_tx(1 Some(5) 10 500 1 false 1 true)",
            "keychain(Some(5))",
            "fill_round_1(2 30 40 3 Some(\"hi\") true)",
            "keychain(Some(5))",
            "fill_round_2(3 31 40 3)",
        ]
    );

    let mut wallet = Wallet::new(recorder());
    let mut s = slate(None);
    let result = add_inputs_to_slate(
        &mut wallet, None, &mut s, 10, 500, 1, true, &ACCOUNT, 0, None, true, false,
    );
    assert_eq!(result.ok().unwrap().sec_key.bytes[0], 31);
    assert_eq!(s.parts, vec!["inputs", "round 1"]);
    assert_eq!(wallet.into_backend().calls.len(), 5);
}

#[test]
fn sender_passes_errors_on() {
    let steps = [
        ("refresh_outputs", 1),
        ("keychain", 1),
        ("build_send_tx", 1),
        ("keychain", 2),
        ("fill_round_1", 1),
        ("keychain", 3),
        ("fill_round_2", 1),
    ];
    for (i, (name, n)) in steps.into_iter().enumerate() {
        let mut wallet = Wallet::new(failing(name, n));
        let mut s = slate(None);
        let result = add_inputs_to_slate(
            &mut wallet, None, &mut s, 10, 500, 1, false, &ACCOUNT, 0, None, false, false,
        );
        assert_eq!(result.err(), Some(failure(name)));
        assert_eq!(wallet.into_backend().calls.len(), i + 1);
    }
}

#[test]
fn receiver_signs_unless_initiator() {
    let mut wallet = Wallet::new(recorder());
    let mut s = slate(None);
    let result =
        add_output_to_slate(&mut wallet, Some(&MASK), &mut s, &ACCOUNT, 4, None, false, false);
    assert_eq!(result.ok().unwrap().sec_key.bytes[0], 31);
    assert_eq!(s.parts, vec!["output", "round 1", "round 2"]);
    assert_eq!(
        wallet.into_backend().calls,
        vec![
            "build_recipient_output(Some(5) 1 false)",
            "keychain(Some(5))",
            "fill_round_1(1 30 40 1 None false)",
            "keychain(Some(5))",
            "fill_round_2(2 31 40 4)",
        ]
    );

    let mut wallet = Wallet::new(recorder());
    let mut s = slate(None);
    let result = add_output_to_slate(&mut wallet, None, &mut s, &ACCOUNT, 4, None, true, true);
    assert!(result.is_ok());
    assert_eq!(s.parts, vec!["output", "round 1"]);
}

#[test]
fn receiver_passes_errors_on() {
    let steps = [
        ("build_recipient_output", 1),
        ("keychain", 1),
        ("fill_round_1", 1),
        ("keychain", 2),
        ("fill_round_2", 1),
    ];
    for (i, (name, n)) in steps.into_iter().enumerate() {
        let mut wallet = Wallet::new(failing(name, n));
        let mut s = slate(None);
        let result =
            add_output_to_slate(&mut wallet, None, &mut s, &ACCOUNT, 1, None, false, false);
        assert_eq!(result.err(), Some(failure(name)));
        assert_eq!(wallet.into_backend().calls.len(), i + 1);
    }
}

#[test]
fn completing_signs_and_finalizes() {
    let mut wallet = Wallet::new(recorder());
    let mut s = slate(None);
    assert_eq!(complete_tx(&mut wallet, Some(&MASK), &mut s, 2, &context(None)), Ok(()));
    assert_eq!(s.parts, vec!["round 2", "final"]);
    assert_eq!(
        wallet.into_backend().calls,
        vec![
            "keychain(Some(5))",
            "fill_round_2(1 30 40 2)",
            "keychain(Some(5))",
            "finalize(2)",
        ]
    );
}

#[test]
fn completing_passes_errors_on() {
    let steps = [("keychain", 1), ("fill_round_2", 1), ("keychain", 2), ("finalize", 1)];
    for (i, (name, n)) in steps.into_iter().enumerate() {
        let mut wallet = Wallet::new(failing(name, n));
        let mut s = slate(None);
        let result = complete_tx(&mut wallet, None, &mut s, 0, &context(None));
        assert_eq!(result, Err(failure(name)));
        assert_eq!(wallet.into_backend().calls.len(), i + 1);
    }
}

#[test]
fn pending_payments_are_cancelled() {
    for tx_type in [TxLogEntryType::TxSent, TxLogEntryType::TxReceived] {
        let backend =
            Recorder { entries: vec![entry(42, tx_type)], outputs: vec![8, 9], ..recorder() };
        let mut wallet = Wallet::new(backend);
        let result = cancel_tx(&mut wallet, Some(&MASK), &ACCOUNT, Some(7), None);
        assert_eq!(result, Ok(()));
        let backend = wallet.into_backend();
        assert_eq!(
            backend.calls,
            vec![
                "retrieve_txs(Some(7) None Some(1) false)",
                "retrieve_outputs(Some(5) false Some(42) Some(1))",
                "cancel_tx_and_outputs(Some(5) 42 [8, 9] 1)",
            ]
        );
        assert_eq!(backend.cancelled.len(), 1);
        assert_eq!(backend.cancelled[0].1, vec![8, 9]);
    }
}

#[test]
fn only_pending_payments_are_cancelled() {
    let confirmed = TxLogEntry { confirmed: true, ..entry(1, TxLogEntryType::TxSent) };
    for tx in [confirmed, entry(1, TxLogEntryType::Other)] {
        let mut wallet = Wallet::new(Recorder { entries: vec![tx], ..recorder() });
        let result = cancel_tx(&mut wallet, None, &ACCOUNT, Some(1203), Some(SLATE_ID));
        assert_eq!(result, Err(Error::TransactionNotCancellable("1203".to_owned())));
        assert_eq!(wallet.into_backend().calls.len(), 1);
    }
}

#[test]
fn cancelled_tx_is_not_cancelled_again() {
    let mut wallet =
        Wallet::new(Recorder { entries: vec![entry(9, TxLogEntryType::TxSent)], ..recorder() });
    assert_eq!(cancel_tx(&mut wallet, None, &ACCOUNT, Some(9), None), Ok(()));
    let (mut tx, _) = wallet.into_backend().cancelled.remove(0);
    tx.tx_type = TxLogEntryType::Other;
    let mut wallet = Wallet::new(Recorder { entries: vec![tx], ..recorder() });
    let result = cancel_tx(&mut wallet, None, &ACCOUNT, Some(9), None);
    assert_eq!(result, Err(Error::TransactionNotCancellable("9".to_owned())));
    let backend = wallet.into_backend();
    assert_eq!(backend.calls.len(), 1);
    assert!(backend.cancelled.is_empty());
}

#[test]
fn cancelling_needs_one_transaction() {
    let mut wallet = Wallet::new(recorder());
    let result = cancel_tx(&mut wallet, None, &ACCOUNT, None, Some(SLATE_ID));
    assert_eq!(result, Err(Error::TransactionDoesntExist(SLATE_TEXT.to_owned())));
    let entries = vec![entry(1, TxLogEntryType::TxSent), entry(2, TxLogEntryType::TxReceived)];
    let mut wallet = Wallet::new(Recorder { entries, ..recorder() });
    let result = cancel_tx(&mut wallet, None, &ACCOUNT, None, None);
    assert_eq!(result, Err(Error::TransactionDoesntExist(String::new())));
    let mut wallet = Wallet::new(recorder());
    let result = cancel_tx(&mut wallet, None, &ACCOUNT, Some(0), None);
    assert_eq!(result, Err(Error::TransactionDoesntExist("0".to_owned())));
}

#[test]
fn cancelling_passes_errors_on() {
    for (i, name) in
        ["retrieve_txs", "retrieve_outputs", "cancel_tx_and_outputs"].into_iter().enumerate()
    {
        let entries = vec![entry(1, TxLogEntryType::TxSent)];
        let mut wallet = Wallet::new(Recorder { entries, ..failing(name, 1) });
        let result = cancel_tx(&mut wallet, None, &ACCOUNT, Some(1), None);
        assert_eq!(result, Err(failure(name)));
        assert_eq!(wallet.into_backend().calls.len(), i + 1);
    }
}

#[test]
fn parts_of_the_log() {
    let sent = entry(5, TxLogEntryType::TxSent);
    assert_eq!(cancellable_tx(vec![sent], "x".to_owned()).ok().unwrap().id, 5);
    assert_eq!(outputs_of(mappings(&[3, 1, 2])), vec![3, 1, 2]);
    let both = vec![
        entry(1, TxLogEntryType::Other),
        entry(2, TxLogEntryType::TxReceived),
        entry(3, TxLogEntryType::TxSent),
        entry(4, TxLogEntryType::TxSent),
    ];
    assert_eq!(own_side(&both, false), Some(2));
    assert_eq!(own_side(&both, true), Some(1));
    assert_eq!(own_side(&vec![entry(1, TxLogEntryType::TxSent)], true), None);
}

#[test]
fn stored_tx_is_kept() {
    let entries = vec![entry(1, TxLogEntryType::TxReceived), entry(2, TxLogEntryType::TxSent)];
    let mut wallet = Wallet::new(Recorder { entries, ..recorder() });
    let result = update_stored_tx(&mut wallet, Some(&MASK), &context(None), &slate(None), false);
    assert_eq!(result, Ok(()));
    let backend = wallet.into_backend();
    assert_eq!(
        backend.calls,
        vec![
            "retrieve_txs(None Some(171) None false)".to_owned(),
            format!("store_tx({} 77)", SLATE_TEXT),
            "batch(Some(5))".to_owned(),
            "save_tx_log_entry(2 1)".to_owned(),
            "commit(1)".to_owned(),
        ]
    );
    assert_eq!(backend.kept[0].0.kernel_excess, Some(KERNEL_EXCESS));
    assert_eq!(backend.kept[0].0.payment_proof, None);
    assert_eq!(backend.kept[0].0.parts, 6);
}

#[test]
fn invoices_are_kept_on_the_side_of_the_receiver() {
    let entries = vec![entry(1, TxLogEntryType::TxSent), entry(2, TxLogEntryType::TxReceived)];
    let mut wallet = Wallet::new(Recorder { entries, ..recorder() });
    let result = update_stored_tx(&mut wallet, None, &context(None), &slate(None), true);
    assert_eq!(result, Ok(()));
    assert_eq!(wallet.into_backend().kept[0].0.id, 2);
}

#[test]
fn stored_tx_has_the_proof_of_the_sender() {
    for (index, path) in [(Some(12), 12), (None, 0)] {
        let entries = vec![entry(1, TxLogEntryType::TxSent)];
        let mut wallet = Wallet::new(Recorder { entries, ..recorder() });
        let s = slate(Some(slate_proof()));
        assert_eq!(update_stored_tx(&mut wallet, None, &context(index), &s, false), Ok(()));
        let backend = wallet.into_backend();
        assert_eq!(
            backend.calls,
            vec![
                "retrieve_txs(None Some(171) None false)".to_owned(),
                format!("store_tx({} 77)", SLATE_TEXT),
                "keychain(None)".to_owned(),
                "parent_key_id()".to_owned(),
                "calc_excess(60 1)".to_owned(),
                format!("address_from_derivation_path(1 2 {})", path),
                "batch(None)".to_owned(),
                "save_tx_log_entry(1 1)".to_owned(),
                "commit(1)".to_owned(),
            ]
        );
        let kept = backend.kept[0].0.payment_proof.unwrap();
        assert_eq!(kept.receiver_address, slate_proof().receiver_address);
        assert_eq!(kept.receiver_signature, slate_proof().receiver_signature);
        assert_eq!(kept.sender_address_path, path);
        assert_eq!(kept.sender_address, address(&SENDER_KEY));
        let message = payment_proof_message(60, &EXCESS, address(&SENDER_KEY)).unwrap();
        assert!(kept.sender_address.verify(&message, &kept.sender_signature.unwrap()));
    }
}

#[test]
fn sender_proof_is_signed_by_the_sender() {
    let kept = sender_proof(60, &EXCESS, &slate_proof(), SENDER_KEY, 3).unwrap();
    let sender = slate_proof().sender_address;
    let signature = create_payment_proof_signature(60, &EXCESS, sender, SENDER_KEY).unwrap();
    assert_eq!(kept.sender_signature, Some(signature));
    assert_eq!(kept.sender_address_path, 3);
}

#[test]
fn storing_needs_an_entry() {
    let doesnt_exist = Err(Error::TransactionDoesntExist(SLATE_TEXT.to_owned()));
    let mut wallet = Wallet::new(recorder());
    let result = update_stored_tx(&mut wallet, None, &context(None), &slate(None), false);
    assert_eq!(result, doesnt_exist);
    let entries = vec![entry(1, TxLogEntryType::TxReceived)];
    let mut wallet = Wallet::new(Recorder { entries, ..recorder() });
    let result = update_stored_tx(&mut wallet, None, &context(None), &slate(None), false);
    assert_eq!(result, doesnt_exist);
    assert_eq!(wallet.into_backend().calls.len(), 1);
}

#[test]
fn storing_needs_a_slate_id() {
    let nameless = TxLogEntry { tx_slate_id: None, ..entry(1, TxLogEntryType::TxSent) };
    let mut wallet = Wallet::new(Recorder { entries: vec![nameless], ..recorder() });
    let result = update_stored_tx(&mut wallet, None, &context(None), &slate(None), false);
    assert_eq!(result, Err(Error::MissingSlateId));
}

#[test]
fn storing_passes_errors_on() {
    let steps = [
        ("retrieve_txs", 1),
        ("store_tx", 2),
        ("keychain", 3),
        ("calc_excess", 5),
        ("address_from_derivation_path", 6),
        ("batch", 7),
        ("save_tx_log_entry", 8),
        ("commit", 9),
    ];
    for (name, calls) in steps {
        let entries = vec![entry(1, TxLogEntryType::TxSent)];
        let mut wallet = Wallet::new(Recorder { entries, ..failing(name, 1) });
        let s = slate(Some(slate_proof()));
        let result = update_stored_tx(&mut wallet, None, &context(None), &s, false);
        assert_eq!(result, Err(failure(name)));
        let backend = wallet.into_backend();
        assert_eq!(backend.calls.len(), calls);
        assert!(backend.kept.is_empty());
    }
}

#[test]
fn messages_are_saved_together() {
    let other = TxLogEntry { parent_key_id: OTHER_ACCOUNT, ..entry(2, TxLogEntryType::Other) };
    let entries = vec![entry(1, TxLogEntryType::TxSent), other];
    let mut wallet = Wallet::new(Recorder { entries, ..recorder() });
    assert_eq!(update_message(&mut wallet, Some(&MASK), &slate(None)), Ok(()));
    let backend = wallet.into_backend();
    assert_eq!(
        backend.calls,
        vec![
            "retrieve_txs(None Some(171) None false)",
            "batch(Some(5))",
            "participant_messages(60)",
            "save_tx_log_entry(1 1)",
            "participant_messages(60)",
            "save_tx_log_entry(2 2)",
            "commit(2)",
        ]
    );
    assert_eq!(backend.kept.len(), 2);
    assert!(backend.kept.iter().all(|(tx, _)| tx.messages == Some("hello".to_owned())));
}

#[test]
fn messages_are_not_saved_in_part() {
    let steps =
        [("retrieve_txs", 1, 1), ("batch", 1, 2), ("save_tx_log_entry", 2, 6), ("commit", 1, 7)];
    for (name, n, calls) in steps {
        let entries = vec![entry(1, TxLogEntryType::TxSent), entry(2, TxLogEntryType::TxSent)];
        let mut wallet = Wallet::new(Recorder { entries, ..failing(name, n) });
        assert_eq!(update_message(&mut wallet, None, &slate(None)), Err(failure(name)));
        let backend = wallet.into_backend();
        assert_eq!(backend.calls.len(), calls);
        assert!(backend.kept.is_empty());
    }
}

#[test]
fn messages_need_an_entry() {
    let mut wallet = Wallet::new(recorder());
    let result = update_message(&mut wallet, None, &slate(None));
    assert_eq!(result, Err(Error::TransactionDoesntExist(SLATE_TEXT.to_owned())));
    assert_eq!(wallet.into_backend().calls.len(), 1);
}

#[test]
fn signed_proof_is_accepted() {
    let mut wallet = Wallet::new(Recorder { entries: proved(Some(stored())), ..recorder() });
    let s = slate(Some(slate_proof()));
    let result =
        verify_slate_payment_proof(&mut wallet, Some(&MASK), &ACCOUNT, &context(Some(4)), &s);
    assert_eq!(result, Ok(()));
    assert_eq!(
        wallet.into_backend().calls,
        vec![
            "retrieve_txs(None Some(171) Some(1) false)",
            "keychain(Some(5))",
            "address_from_derivation_path(1 1 4)",
            "calc_excess(60 1)",
        ]
    );
}

#[test]
fn no_proof_is_needed_where_none_was_asked_for() {
    let mut wallet = Wallet::new(Recorder { entries: proved(None), ..recorder() });
    let s = slate(None);
    let result = verify_slate_payment_proof(&mut wallet, None, &ACCOUNT, &context(None), &s);
    assert_eq!(result, Ok(()));
    assert_eq!(wallet.into_backend().calls.len(), 1);
}

#[test]
fn bad_proofs_are_refused() {
    let sender = slate_proof().sender_address;
    let verify = |entries: Vec<TxLogEntry<Recorder>>, index: Option<u32>, s: Slate<Recorder>| {
        let mut wallet = Wallet::new(Recorder { entries, ..recorder() });
        verify_slate_payment_proof(&mut wallet, None, &ACCOUNT, &context(index), &s)
    };
    assert_eq!(
        verify(vec![], Some(4), slate(Some(slate_proof()))),
        refused("TxLogEntry with original proof info not found (is account correct?)")
    );
    assert_eq!(
        verify(proved(Some(stored())), Some(4), slate(None)),
        refused("Expected Payment Proof for this Transaction is not present")
    );
    assert_eq!(
        verify(proved(None), Some(4), slate(Some(slate_proof()))),
        refused("Original proof info not stored in tx")
    );
    assert_eq!(
        verify(proved(Some(stored())), None, slate(Some(slate_proof()))),
        refused("Payment proof derivation index required")
    );
    let receiver = slate_proof().receiver_address;
    let from_receiver = PaymentInfo { sender_address: receiver, ..slate_proof() };
    assert_eq!(
        verify(proved(Some(stored())), Some(4), slate(Some(from_receiver))),
        refused("Sender address on slate does not match original sender address")
    );
    let to_sender = PaymentInfo { receiver_address: sender, ..slate_proof() };
    assert_eq!(
        verify(proved(Some(stored())), Some(4), slate(Some(to_sender))),
        refused("Recipient address on slate does not match original recipient address")
    );
    let unsigned = PaymentInfo { receiver_signature: None, ..slate_proof() };
    assert_eq!(
        verify(proved(Some(stored())), Some(4), slate(Some(unsigned))),
        refused("Recipient did not provide requested proof signature")
    );
    let mut other_amount = slate(Some(slate_proof()));
    other_amount.amount = 61;
    assert_eq!(
        verify(proved(Some(stored())), Some(4), other_amount),
        refused("Invalid proof signature")
    );
    let by_sender = create_payment_proof_signature(60, &EXCESS, sender, SENDER_KEY).unwrap();
    let wrong_signer = PaymentInfo { receiver_signature: Some(by_sender), ..slate_proof() };
    assert_eq!(
        verify(proved(Some(stored())), Some(4), slate(Some(wrong_signer))),
        refused("Invalid proof signature")
    );
}

#[test]
fn verification_passes_errors_on() {
    let steps =
        ["retrieve_txs", "keychain", "address_from_derivation_path", "calc_excess"];
    for (i, name) in steps.into_iter().enumerate() {
        let backend = Recorder { entries: proved(Some(stored())), ..failing(name, 1) };
        let mut wallet = Wallet::new(backend);
        let s = slate(Some(slate_proof()));
        let result =
            verify_slate_payment_proof(&mut wallet, None, &ACCOUNT, &context(Some(4)), &s);
        assert_eq!(result, Err(failure(name)));
        assert_eq!(wallet.into_backend().calls.len(), i + 1);
    }
}
