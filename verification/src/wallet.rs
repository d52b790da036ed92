//! The wallet that the transaction functions work on: what it can be asked, and the record of
//! what it was asked.
use vstd::prelude::*;

use crate::types::{
    Commitment, Context, Error, Identifier, OutputCommitMapping, SecretKey, Selection, Slate,
    Transaction, TxLogEntry, Uuid,
};

verus! {

/// What a wallet is built on: a store, a node and a chain of keys. Nothing is taken for granted
/// of the replies but what `answers` says, which each backend says for itself.
pub trait WalletBackend: Sized {
    /// The keys of the wallet.
    type Keychain;

    /// What of a slate only the backend looks into.
    type SlateParts;

    /// What of a transaction only the backend looks into.
    type TransactionParts;

    /// What of the secrets of a party only the backend looks into.
    type ContextParts;

    /// What of a transaction log entry only the backend looks into.
    type TxLogEntryParts;

    /// The messages of the parties to a slate.
    type Messages;

    /// An output of the wallet.
    type Output;

    /// A batch of writes that is open.
    type Batch;

    /// Whether the backend, when it is as it was `before`, may be asked this and reply so, and be
    /// as it is `after`.
    spec fn answers(before: Self, call: Call<Self>, after: Self) -> bool;

    /// The height of the tip of the chain, as the node tells it.
    fn get_chain_tip(&mut self) -> (reply: Result<u64, Error>)
        ensures
            Self::answers(*old(self), Call::GetChainTip { reply }, *final(self)),
    ;

    /// Brings the outputs of an account up to date with the chain.
    fn refresh_outputs(
        &mut self,
        keychain_mask: Option<&SecretKey>,
        parent_key_id: &Identifier,
        update_all: bool,
    ) -> (reply: Result<(), Error>)
        ensures
            Self::answers(
                *old(self),
                Call::RefreshOutputs {
                    keychain_mask: unborrowed(keychain_mask),
                    parent_key_id: *parent_key_id,
                    update_all,
                    reply,
                },
                *final(self),
            ),
    ;

    /// Picks the coins that pay an amount and the fee.
    fn select_coins_and_fee(
        &mut self,
        amount: u64,
        current_height: u64,
        minimum_confirmations: u64,
        max_outputs: usize,
        num_change_outputs: usize,
        selection_strategy_is_use_all: bool,
        parent_key_id: &Identifier,
    ) -> (reply: Result<Selection<Self>, Error>)
        ensures
            Self::answers(
                *old(self),
                Call::SelectCoinsAndFee {
                    amount,
                    current_height,
                    minimum_confirmations,
                    max_outputs,
                    num_change_outputs,
                    selection_strategy_is_use_all,
                    parent_key_id: *parent_key_id,
                    reply,
                },
                *final(self),
            ),
    ;

    /// The keys of the wallet, with the mask taken off.
    fn keychain(
        &mut self,
        keychain_mask: Option<&SecretKey>,
    ) -> (reply: Result<Self::Keychain, Error>)
        ensures
            Self::answers(
                *old(self),
                Call::Keychain {
                    keychain_mask: unborrowed(keychain_mask),
                    reply,
                },
                *final(self),
            ),
    ;

    /// The account that the wallet is set to.
    fn parent_key_id(&mut self) -> (reply: Identifier)
        ensures
            Self::answers(*old(self), Call::ParentKeyId { reply }, *final(self)),
    ;

    /// Adds inputs and change to a slate, and makes the secrets of the sender.
    fn build_send_tx(
        &mut self,
        keychain: &Self::Keychain,
        keychain_mask: Option<&SecretKey>,
        slate: &mut Slate<Self>,
        minimum_confirmations: u64,
        max_outputs: usize,
        num_change_outputs: usize,
        selection_strategy_is_use_all: bool,
        parent_key_id: Identifier,
        use_test_rng: bool,
    ) -> (reply: Result<Context<Self>, Error>)
        ensures
            Self::answers(
                *old(self),
                Call::BuildSendTx {
                    keychain: *keychain,
                    keychain_mask: unborrowed(keychain_mask),
                    before: *old(slate),
                    after: *final(slate),
                    minimum_confirmations,
                    max_outputs,
                    num_change_outputs,
                    selection_strategy_is_use_all,
                    parent_key_id,
                    use_test_rng,
                    reply,
                },
                *final(self),
            ),
    ;

    /// Adds an output that takes the amount of a slate, and makes the secrets of the receiver.
    fn build_recipient_output(
        &mut self,
        keychain_mask: Option<&SecretKey>,
        slate: &mut Slate<Self>,
        parent_key_id: Identifier,
        use_test_rng: bool,
    ) -> (reply: Result<(Identifier, Context<Self>), Error>)
        ensures
            Self::answers(
                *old(self),
                Call::BuildRecipientOutput {
                    keychain_mask: unborrowed(keychain_mask),
                    before: *old(slate),
                    after: *final(slate),
                    parent_key_id,
                    use_test_rng,
                    reply,
                },
                *final(self),
            ),
    ;

    /// A slate for so many parties, under a fresh id.
    fn blank_slate(&mut self, num_participants: usize) -> (reply: Slate<Self>)
        ensures
            Self::answers(*old(self), Call::BlankSlate { num_participants, reply }, *final(self)),
    ;

    /// Whether the consensus rules have blocks of this version at this height.
    fn valid_header_version(&mut self, height: u64, version: u16) -> (reply: bool)
        ensures
            Self::answers(
                *old(self),
                Call::ValidHeaderVersion {
                    height,
                    version,
                    reply,
                },
                *final(self),
            ),
    ;

    /// Takes the kernel offset off a secret key, and puts the public keys of a party and its
    /// message on a slate.
    fn fill_round_1(
        &mut self,
        slate: &mut Slate<Self>,
        keychain: &Self::Keychain,
        sec_key: &mut SecretKey,
        sec_nonce: &SecretKey,
        participant_id: usize,
        message: Option<String>,
        use_test_rng: bool,
    ) -> (reply: Result<(), Error>)
        ensures
            Self::answers(
                *old(self),
                Call::FillRound1 {
                    before: *old(slate),
                    after: *final(slate),
                    keychain: *keychain,
                    sec_key_before: *old(sec_key),
                    sec_key_after: *final(sec_key),
                    sec_nonce: *sec_nonce,
                    participant_id,
                    message,
                    use_test_rng,
                    reply,
                },
                *final(self),
            ),
    ;

    /// Puts the partial signature of a party on a slate.
    fn fill_round_2(
        &mut self,
        slate: &mut Slate<Self>,
        keychain: &Self::Keychain,
        sec_key: &SecretKey,
        sec_nonce: &SecretKey,
        participant_id: usize,
    ) -> (reply: Result<(), Error>)
        ensures
            Self::answers(
                *old(self),
                Call::FillRound2 {
                    before: *old(slate),
                    after: *final(slate),
                    keychain: *keychain,
                    sec_key: *sec_key,
                    sec_nonce: *sec_nonce,
                    participant_id,
                    reply,
                },
                *final(self),
            ),
    ;

    /// Builds the final transaction of a slate out of its partial signatures.
    fn finalize(
        &mut self,
        slate: &mut Slate<Self>,
        keychain: &Self::Keychain,
    ) -> (reply: Result<(), Error>)
        ensures
            Self::answers(
                *old(self),
                Call::Finalize {
                    before: *old(slate),
                    after: *final(slate),
                    keychain: *keychain,
                    reply,
                },
                *final(self),
            ),
    ;

    /// The kernel excess of the transaction of a slate.
    fn calc_excess(
        &mut self,
        slate: &Slate<Self>,
        keychain: &Self::Keychain,
    ) -> (reply: Result<Commitment, Error>)
        ensures
            Self::answers(
                *old(self),
                Call::CalcExcess {
                    slate: *slate,
                    keychain: *keychain,
                    reply,
                },
                *final(self),
            ),
    ;

    /// The messages that the parties left on a slate.
    fn participant_messages(&mut self, slate: &Slate<Self>) -> (reply: Self::Messages)
        ensures
            Self::answers(
                *old(self),
                Call::ParticipantMessages {
                    slate: *slate,
                    reply,
                },
                *final(self),
            ),
    ;

    /// The secret key of the address with a given index in an account.
    fn address_from_derivation_path(
        &mut self,
        keychain: &Self::Keychain,
        parent_key_id: &Identifier,
        index: u32,
    ) -> (reply: Result<SecretKey, Error>)
        ensures
            Self::answers(
                *old(self),
                Call::AddressFromDerivationPath {
                    keychain: *keychain,
                    parent_key_id: *parent_key_id,
                    index,
                    reply,
                },
                *final(self),
            ),
    ;

    /// The transaction log entries that match the given ids and account.
    fn retrieve_txs(
        &mut self,
        tx_id: Option<u32>,
        tx_slate_id: Option<Uuid>,
        parent_key_id: Option<&Identifier>,
        outstanding_only: bool,
    ) -> (reply: Result<Vec<TxLogEntry<Self>>, Error>)
        ensures
            Self::answers(
                *old(self),
                Call::RetrieveTxs {
                    tx_id,
                    tx_slate_id,
                    parent_key_id: unborrowed(parent_key_id),
                    outstanding_only,
                    reply,
                },
                *final(self),
            ),
    ;

    /// The outputs that belong to a transaction of an account.
    fn retrieve_outputs(
        &mut self,
        keychain_mask: Option<&SecretKey>,
        show_spent: bool,
        tx_id: Option<u32>,
        parent_key_id: Option<&Identifier>,
    ) -> (reply: Result<Vec<OutputCommitMapping<Self>>, Error>)
        ensures
            Self::answers(
                *old(self),
                Call::RetrieveOutputs {
                    keychain_mask: unborrowed(keychain_mask),
                    show_spent,
                    tx_id,
                    parent_key_id: unborrowed(parent_key_id),
                    reply,
                },
                *final(self),
            ),
    ;

    /// Marks a transaction as cancelled, and sets its outputs back.
    fn cancel_tx_and_outputs(
        &mut self,
        keychain_mask: Option<&SecretKey>,
        tx: TxLogEntry<Self>,
        outputs: Vec<Self::Output>,
        parent_key_id: &Identifier,
    ) -> (reply: Result<(), Error>)
        ensures
            Self::answers(
                *old(self),
                Call::CancelTxAndOutputs {
                    keychain_mask: unborrowed(keychain_mask),
                    tx,
                    outputs,
                    parent_key_id: *parent_key_id,
                    reply,
                },
                *final(self),
            ),
    ;

    /// Keeps a transaction under the text of its slate id.
    fn store_tx(&mut self, uuid: &str, tx: &Transaction<Self>) -> (reply: Result<(), Error>)
        ensures
            Self::answers(
                *old(self),
                Call::StoreTx {
                    uuid: uuid@,
                    tx: *tx,
                    reply,
                },
                *final(self),
            ),
    ;

    /// Opens a batch of writes, of which nothing is kept unless it is committed.
    fn batch(&mut self, keychain_mask: Option<&SecretKey>) -> (reply: Result<Self::Batch, Error>)
        ensures
            Self::answers(
                *old(self),
                Call::Batch {
                    keychain_mask: unborrowed(keychain_mask),
                    reply,
                },
                *final(self),
            ),
    ;

    /// Writes a transaction log entry of an account in a batch.
    fn save_tx_log_entry(
        &mut self,
        batch: &mut Self::Batch,
        tx: TxLogEntry<Self>,
        parent_key_id: &Identifier,
    ) -> (reply: Result<(), Error>)
        ensures
            Self::answers(
                *old(self),
                Call::SaveTxLogEntry {
                    before: *old(batch),
                    after: *final(batch),
                    tx,
                    parent_key_id: *parent_key_id,
                    reply,
                },
                *final(self),
            ),
    ;

    /// Keeps all that was written in a batch.
    fn commit(&mut self, batch: Self::Batch) -> (reply: Result<(), Error>)
        ensures
            Self::answers(*old(self), Call::Commit { batch, reply }, *final(self)),
    ;
}

/// One thing that a wallet was asked, with the reply. Of what the backend was free to change,
/// `before` and `after` are what it found and what it left.
#[allow(inconsistent_fields)]
pub enum Call<B: WalletBackend> {
    GetChainTip { reply: Result<u64, Error> },
    RefreshOutputs {
        keychain_mask: Option<SecretKey>,
        parent_key_id: Identifier,
        update_all: bool,
        reply: Result<(), Error>,
    },
    SelectCoinsAndFee {
        amount: u64,
        current_height: u64,
        minimum_confirmations: u64,
        max_outputs: usize,
        num_change_outputs: usize,
        selection_strategy_is_use_all: bool,
        parent_key_id: Identifier,
        reply: Result<Selection<B>, Error>,
    },
    Keychain { keychain_mask: Option<SecretKey>, reply: Result<B::Keychain, Error> },
    ParentKeyId { reply: Identifier },
    BuildSendTx {
        keychain: B::Keychain,
        keychain_mask: Option<SecretKey>,
        before: Slate<B>,
        after: Slate<B>,
        minimum_confirmations: u64,
        max_outputs: usize,
        num_change_outputs: usize,
        selection_strategy_is_use_all: bool,
        parent_key_id: Identifier,
        use_test_rng: bool,
        reply: Result<Context<B>, Error>,
    },
    BuildRecipientOutput {
        keychain_mask: Option<SecretKey>,
        before: Slate<B>,
        after: Slate<B>,
        parent_key_id: Identifier,
        use_test_rng: bool,
        reply: Result<(Identifier, Context<B>), Error>,
    },
    BlankSlate { num_participants: usize, reply: Slate<B> },
    ValidHeaderVersion { height: u64, version: u16, reply: bool },
    FillRound1 {
        before: Slate<B>,
        after: Slate<B>,
        keychain: B::Keychain,
        sec_key_before: SecretKey,
        sec_key_after: SecretKey,
        sec_nonce: SecretKey,
        participant_id: usize,
        message: Option<String>,
        use_test_rng: bool,
        reply: Result<(), Error>,
    },
    FillRound2 {
        before: Slate<B>,
        after: Slate<B>,
        keychain: B::Keychain,
        sec_key: SecretKey,
        sec_nonce: SecretKey,
        participant_id: usize,
        reply: Result<(), Error>,
    },
    Finalize {
        before: Slate<B>,
        after: Slate<B>,
        keychain: B::Keychain,
        reply: Result<(), Error>,
    },
    CalcExcess { slate: Slate<B>, keychain: B::Keychain, reply: Result<Commitment, Error> },
    ParticipantMessages { slate: Slate<B>, reply: B::Messages },
    AddressFromDerivationPath {
        keychain: B::Keychain,
        parent_key_id: Identifier,
        index: u32,
        reply: Result<SecretKey, Error>,
    },
    RetrieveTxs {
        tx_id: Option<u32>,
        tx_slate_id: Option<Uuid>,
        parent_key_id: Option<Identifier>,
        outstanding_only: bool,
        reply: Result<Vec<TxLogEntry<B>>, Error>,
    },
    RetrieveOutputs {
        keychain_mask: Option<SecretKey>,
        show_spent: bool,
        tx_id: Option<u32>,
        parent_key_id: Option<Identifier>,
        reply: Result<Vec<OutputCommitMapping<B>>, Error>,
    },
    CancelTxAndOutputs {
        keychain_mask: Option<SecretKey>,
        tx: TxLogEntry<B>,
        outputs: Vec<B::Output>,
        parent_key_id: Identifier,
        reply: Result<(), Error>,
    },
    StoreTx { uuid: Seq<char>, tx: Transaction<B>, reply: Result<(), Error> },
    Batch { keychain_mask: Option<SecretKey>, reply: Result<B::Batch, Error> },
    SaveTxLogEntry {
        before: B::Batch,
        after: B::Batch,
        tx: TxLogEntry<B>,
        parent_key_id: Identifier,
        reply: Result<(), Error>,
    },
    Commit { batch: B::Batch, reply: Result<(), Error> },
}

/// A backend, and the record of what it was asked and what it replied, in order, and of how it
/// was before each of that and is now. The record is not there at run time.
pub struct Wallet<B: WalletBackend> {
    backend: B,
    history: Ghost<Seq<Call<B>>>,
    states: Ghost<Seq<B>>,
}

/// A borrowed value, as the value.
pub open spec fn unborrowed<T>(value: Option<&T>) -> Option<T> {
    match value {
        Some(v) => Some(*v),
        None => None,
    }
}

impl<B: WalletBackend> Wallet<B> {
    /// What the backend was asked so far.
    pub closed spec fn history(&self) -> Seq<Call<B>> {
        self.history@
    }

    /// How the backend was before each thing that it was asked, and is now.
    pub closed spec fn states(&self) -> Seq<B> {
        self.states@
    }

    /// Whether the record is right: the backend was asked all of it, and so replied.
    pub open spec fn is_genuine(&self) -> bool {
        &&& self.states().len() == self.history().len() + 1
        &&& self.states().last() == self.backend()
        &&& forall|i: int|
            0 <= i < self.history().len() ==> B::answers(
                self.states()[i],
                #[trigger] self.history()[i],
                self.states()[i + 1],
            )
    }

    /// The backend, as it stands.
    pub closed spec fn backend(&self) -> B {
        self.backend
    }

    /// A wallet on a backend that it has asked nothing yet.
    pub fn new(backend: B) -> (wallet: Self)
        ensures
            wallet.is_genuine(),
            wallet.history() == Seq::<Call<B>>::empty(),
            wallet.backend() == backend,
    {
        let ghost states = seq![backend];
        Wallet { backend, history: Ghost(Seq::empty()), states: Ghost(states) }
    }

    /// The backend, once the wallet is done with it.
    pub fn into_backend(self) -> (backend: B)
        ensures
            backend == self.backend(),
    {
        self.backend
    }

    /// The height of the tip of the chain, as the node tells it.
    pub fn get_chain_tip(&mut self) -> (reply: Result<u64, Error>)
        requires
            old(self).is_genuine(),
        ensures
            final(self).is_genuine(),
            final(self).states() == old(self).states().push(final(self).backend()),
            final(self).history() == old(self).history().push(Call::GetChainTip { reply }),
    {
        let reply = self.backend.get_chain_tip();
        self.states = Ghost(self.states@.push(self.backend));
        self.history = Ghost(
            self.history@.push(Call::GetChainTip { reply }),
        );
        reply
    }

    /// Brings the outputs of an account up to date with the chain.
    pub fn refresh_outputs(
        &mut self,
        keychain_mask: Option<&SecretKey>,
        parent_key_id: &Identifier,
        update_all: bool,
    ) -> (reply: Result<(), Error>)
        requires
            old(self).is_genuine(),
        ensures
            final(self).is_genuine(),
            final(self).states() == old(self).states().push(final(self).backend()),
            final(self).history() == old(self).history().push(Call::RefreshOutputs {
                keychain_mask: unborrowed(keychain_mask),
                parent_key_id: *parent_key_id,
                update_all,
                reply,
            }),
    {
        let reply = self.backend.refresh_outputs(keychain_mask, parent_key_id, update_all);
        self.states = Ghost(self.states@.push(self.backend));
        self.history = Ghost(
            self.history@.push(Call::RefreshOutputs {
                keychain_mask: unborrowed(keychain_mask),
                parent_key_id: *parent_key_id,
                update_all,
                reply,
            }),
        );
        reply
    }

    /// Picks the coins that pay an amount and the fee.
    pub fn select_coins_and_fee(
        &mut self,
        amount: u64,
        current_height: u64,
        minimum_confirmations: u64,
        max_outputs: usize,
        num_change_outputs: usize,
        selection_strategy_is_use_all: bool,
        parent_key_id: &Identifier,
    ) -> (reply: Result<Selection<B>, Error>)
        requires
            old(self).is_genuine(),
        ensures
            final(self).is_genuine(),
            final(self).states() == old(self).states().push(final(self).backend()),
            final(self).history() == old(self).history().push(Call::SelectCoinsAndFee {
                amount,
                current_height,
                minimum_confirmations,
                max_outputs,
                num_change_outputs,
                selection_strategy_is_use_all,
                parent_key_id: *parent_key_id,
                reply,
            }),
    {
        let reply = self.backend.select_coins_and_fee(
            amount,
            current_height,
            minimum_confirmations,
            max_outputs,
            num_change_outputs,
            selection_strategy_is_use_all,
            parent_key_id,
        );
        self.states = Ghost(self.states@.push(self.backend));
        self.history = Ghost(
            self.history@.push(Call::SelectCoinsAndFee {
                amount,
                current_height,
                minimum_confirmations,
                max_outputs,
                num_change_outputs,
                selection_strategy_is_use_all,
                parent_key_id: *parent_key_id,
                reply,
            }),
        );
        reply
    }

    /// The keys of the wallet, with the mask taken off.
    pub fn keychain(
        &mut self,
        keychain_mask: Option<&SecretKey>,
    ) -> (reply: Result<B::Keychain, Error>)
        requires
            old(self).is_genuine(),
        ensures
            final(self).is_genuine(),
            final(self).states() == old(self).states().push(final(self).backend()),
            final(self).history() == old(self).history().push(Call::Keychain {
                keychain_mask: unborrowed(keychain_mask),
                reply,
            }),
    {
        let reply = self.backend.keychain(keychain_mask);
        self.states = Ghost(self.states@.push(self.backend));
        self.history = Ghost(
            self.history@.push(Call::Keychain {
                keychain_mask: unborrowed(keychain_mask),
                reply,
            }),
        );
        reply
    }

    /// The account that the wallet is set to.
    pub fn parent_key_id(&mut self) -> (reply: Identifier)
        requires
            old(self).is_genuine(),
        ensures
            final(self).is_genuine(),
            final(self).states() == old(self).states().push(final(self).backend()),
            final(self).history() == old(self).history().push(Call::ParentKeyId { reply }),
    {
        let reply = self.backend.parent_key_id();
        self.states = Ghost(self.states@.push(self.backend));
        self.history = Ghost(
            self.history@.push(Call::ParentKeyId { reply }),
        );
        reply
    }

    /// Adds inputs and change to a slate, and makes the secrets of the sender.
    pub fn build_send_tx(
        &mut self,
        keychain: &B::Keychain,
        keychain_mask: Option<&SecretKey>,
        slate: &mut Slate<B>,
        minimum_confirmations: u64,
        max_outputs: usize,
        num_change_outputs: usize,
        selection_strategy_is_use_all: bool,
        parent_key_id: Identifier,
        use_test_rng: bool,
    ) -> (reply: Result<Context<B>, Error>)
        requires
            old(self).is_genuine(),
        ensures
            final(self).is_genuine(),
            final(self).states() == old(self).states().push(final(self).backend()),
            final(self).history() == old(self).history().push(Call::BuildSendTx {
                keychain: *keychain,
                keychain_mask: unborrowed(keychain_mask),
                before: *old(slate),
                after: *final(slate),
                minimum_confirmations,
                max_outputs,
                num_change_outputs,
                selection_strategy_is_use_all,
                parent_key_id,
                use_test_rng,
                reply,
            }),
    {
        let ghost before = *slate;
        let reply = self.backend.build_send_tx(
            keychain,
            keychain_mask,
            slate,
            minimum_confirmations,
            max_outputs,
            num_change_outputs,
            selection_strategy_is_use_all,
            parent_key_id,
            use_test_rng,
        );
        self.states = Ghost(self.states@.push(self.backend));
        self.history = Ghost(
            self.history@.push(Call::BuildSendTx {
                keychain: *keychain,
                keychain_mask: unborrowed(keychain_mask),
                before,
                after: *slate,
                minimum_confirmations,
                max_outputs,
                num_change_outputs,
                selection_strategy_is_use_all,
                parent_key_id,
                use_test_rng,
                reply,
            }),
        );
        reply
    }

    /// Adds an output that takes the amount of a slate, and makes the secrets of the receiver.
    pub fn build_recipient_output(
        &mut self,
        keychain_mask: Option<&SecretKey>,
        slate: &mut Slate<B>,
        parent_key_id: Identifier,
        use_test_rng: bool,
    ) -> (reply: Result<(Identifier, Context<B>), Error>)
        requires
            old(self).is_genuine(),
        ensures
            final(self).is_genuine(),
            final(self).states() == old(self).states().push(final(self).backend()),
            final(self).history() == old(self).history().push(Call::BuildRecipientOutput {
                keychain_mask: unborrowed(keychain_mask),
                before: *old(slate),
                after: *final(slate),
                parent_key_id,
                use_test_rng,
                reply,
            }),
    {
        let ghost before = *slate;
        let reply = self.backend.build_recipient_output(
            keychain_mask,
            slate,
            parent_key_id,
            use_test_rng,
        );
        self.states = Ghost(self.states@.push(self.backend));
        self.history = Ghost(
            self.history@.push(Call::BuildRecipientOutput {
                keychain_mask: unborrowed(keychain_mask),
                before,
                after: *slate,
                parent_key_id,
                use_test_rng,
                reply,
            }),
        );
        reply
    }

    /// A slate for so many parties, under a fresh id.
    pub fn blank_slate(&mut self, num_participants: usize) -> (reply: Slate<B>)
        requires
            old(self).is_genuine(),
        ensures
            final(self).is_genuine(),
            final(self).states() == old(self).states().push(final(self).backend()),
            final(self).history() == old(self).history().push(Call::BlankSlate {
                num_participants,
                reply,
            }),
    {
        let reply = self.backend.blank_slate(num_participants);
        self.states = Ghost(self.states@.push(self.backend));
        self.history = Ghost(
            self.history@.push(Call::BlankSlate { num_participants, reply }),
        );
        reply
    }

    /// Whether the consensus rules have blocks of this version at this height.
    pub fn valid_header_version(&mut self, height: u64, version: u16) -> (reply: bool)
        requires
            old(self).is_genuine(),
        ensures
            final(self).is_genuine(),
            final(self).states() == old(self).states().push(final(self).backend()),
            final(self).history() == old(self).history().push(Call::ValidHeaderVersion {
                height,
                version,
                reply,
            }),
    {
        let reply = self.backend.valid_header_version(height, version);
        self.states = Ghost(self.states@.push(self.backend));
        self.history = Ghost(
            self.history@.push(Call::ValidHeaderVersion { height, version, reply }),
        );
        reply
    }

    /// Takes the kernel offset off a secret key, and puts the public keys of a party and its
    /// message on a slate.
    pub fn fill_round_1(
        &mut self,
        slate: &mut Slate<B>,
        keychain: &B::Keychain,
        sec_key: &mut SecretKey,
        sec_nonce: &SecretKey,
        participant_id: usize,
        message: Option<String>,
        use_test_rng: bool,
    ) -> (reply: Result<(), Error>)
        requires
            old(self).is_genuine(),
        ensures
            final(self).is_genuine(),
            final(self).states() == old(self).states().push(final(self).backend()),
            final(self).history() == old(self).history().push(Call::FillRound1 {
                before: *old(slate),
                after: *final(slate),
                keychain: *keychain,
                sec_key_before: *old(sec_key),
                sec_key_after: *final(sec_key),
                sec_nonce: *sec_nonce,
                participant_id,
                message,
                use_test_rng,
                reply,
            }),
    {
        let ghost before = *slate;
        let ghost sec_key_before = *sec_key;
        let reply = self.backend.fill_round_1(
            slate,
            keychain,
            sec_key,
            sec_nonce,
            participant_id,
            message,
            use_test_rng,
        );
        self.states = Ghost(self.states@.push(self.backend));
        self.history = Ghost(
            self.history@.push(Call::FillRound1 {
                before,
                after: *slate,
                keychain: *keychain,
                sec_key_before,
                sec_key_after: *sec_key,
                sec_nonce: *sec_nonce,
                participant_id,
                message,
                use_test_rng,
                reply,
            }),
        );
        reply
    }

    /// Puts the partial signature of a party on a slate.
    pub fn fill_round_2(
        &mut self,
        slate: &mut Slate<B>,
        keychain: &B::Keychain,
        sec_key: &SecretKey,
        sec_nonce: &SecretKey,
        participant_id: usize,
    ) -> (reply: Result<(), Error>)
        requires
            old(self).is_genuine(),
        ensures
            final(self).is_genuine(),
            final(self).states() == old(self).states().push(final(self).backend()),
            final(self).history() == old(self).history().push(Call::FillRound2 {
                before: *old(slate),
                after: *final(slate),
                keychain: *keychain,
                sec_key: *sec_key,
                sec_nonce: *sec_nonce,
                participant_id,
                reply,
            }),
    {
        let ghost before = *slate;
        let reply = self.backend.fill_round_2(
            slate,
            keychain,
            sec_key,
            sec_nonce,
            participant_id,
        );
        self.states = Ghost(self.states@.push(self.backend));
        self.history = Ghost(
            self.history@.push(Call::FillRound2 {
                before,
                after: *slate,
                keychain: *keychain,
                sec_key: *sec_key,
                sec_nonce: *sec_nonce,
                participant_id,
                reply,
            }),
        );
        reply
    }

    /// Builds the final transaction of a slate out of its partial signatures.
    pub fn finalize(
        &mut self,
        slate: &mut Slate<B>,
        keychain: &B::Keychain,
    ) -> (reply: Result<(), Error>)
        requires
            old(self).is_genuine(),
        ensures
            final(self).is_genuine(),
            final(self).states() == old(self).states().push(final(self).backend()),
            final(self).history() == old(self).history().push(Call::Finalize {
                before: *old(slate),
                after: *final(slate),
                keychain: *keychain,
                reply,
            }),
    {
        let ghost before = *slate;
        let reply = self.backend.finalize(slate, keychain);
        self.states = Ghost(self.states@.push(self.backend));
        self.history = Ghost(
            self.history@.push(Call::Finalize {
                before,
                after: *slate,
                keychain: *keychain,
                reply,
            }),
        );
        reply
    }

    /// The kernel excess of the transaction of a slate.
    pub fn calc_excess(
        &mut self,
        slate: &Slate<B>,
        keychain: &B::Keychain,
    ) -> (reply: Result<Commitment, Error>)
        requires
            old(self).is_genuine(),
        ensures
            final(self).is_genuine(),
            final(self).states() == old(self).states().push(final(self).backend()),
            final(self).history() == old(self).history().push(Call::CalcExcess {
                slate: *slate,
                keychain: *keychain,
                reply,
            }),
    {
        let reply = self.backend.calc_excess(slate, keychain);
        self.states = Ghost(self.states@.push(self.backend));
        self.history = Ghost(
            self.history@.push(Call::CalcExcess { slate: *slate, keychain: *keychain, reply }),
        );
        reply
    }

    /// The messages that the parties left on a slate.
    pub fn participant_messages(&mut self, slate: &Slate<B>) -> (reply: B::Messages)
        requires
            old(self).is_genuine(),
        ensures
            final(self).is_genuine(),
            final(self).states() == old(self).states().push(final(self).backend()),
            final(self).history() == old(self).history().push(Call::ParticipantMessages {
                slate: *slate,
                reply,
            }),
    {
        let reply = self.backend.participant_messages(slate);
        self.states = Ghost(self.states@.push(self.backend));
        self.history = Ghost(
            self.history@.push(Call::ParticipantMessages { slate: *slate, reply }),
        );
        reply
    }

    /// The secret key of the address with a given index in an account.
    pub fn address_from_derivation_path(
        &mut self,
        keychain: &B::Keychain,
        parent_key_id: &Identifier,
        index: u32,
    ) -> (reply: Result<SecretKey, Error>)
        requires
            old(self).is_genuine(),
        ensures
            final(self).is_genuine(),
            final(self).states() == old(self).states().push(final(self).backend()),
            final(self).history() == old(self).history().push(Call::AddressFromDerivationPath {
                keychain: *keychain,
                parent_key_id: *parent_key_id,
                index,
                reply,
            }),
    {
        let reply = self.backend.address_from_derivation_path(keychain, parent_key_id, index);
        self.states = Ghost(self.states@.push(self.backend));
        self.history = Ghost(
            self.history@.push(Call::AddressFromDerivationPath {
                keychain: *keychain,
                parent_key_id: *parent_key_id,
                index,
                reply,
            }),
        );
        reply
    }

    /// The transaction log entries that match the given ids and account.
    pub fn retrieve_txs(
        &mut self,
        tx_id: Option<u32>,
        tx_slate_id: Option<Uuid>,
        parent_key_id: Option<&Identifier>,
        outstanding_only: bool,
    ) -> (reply: Result<Vec<TxLogEntry<B>>, Error>)
        requires
            old(self).is_genuine(),
        ensures
            final(self).is_genuine(),
            final(self).states() == old(self).states().push(final(self).backend()),
            final(self).history() == old(self).history().push(Call::RetrieveTxs {
                tx_id,
                tx_slate_id,
                parent_key_id: unborrowed(parent_key_id),
                outstanding_only,
                reply,
            }),
    {
        let reply = self.backend.retrieve_txs(
            tx_id,
            tx_slate_id,
            parent_key_id,
            outstanding_only,
        );
        self.states = Ghost(self.states@.push(self.backend));
        self.history = Ghost(
            self.history@.push(Call::RetrieveTxs {
                tx_id,
                tx_slate_id,
                parent_key_id: unborrowed(parent_key_id),
                outstanding_only,
                reply,
            }),
        );
        reply
    }

    /// The outputs that belong to a transaction of an account.
    pub fn retrieve_outputs(
        &mut self,
        keychain_mask: Option<&SecretKey>,
        show_spent: bool,
        tx_id: Option<u32>,
        parent_key_id: Option<&Identifier>,
    ) -> (reply: Result<Vec<OutputCommitMapping<B>>, Error>)
        requires
            old(self).is_genuine(),
        ensures
            final(self).is_genuine(),
            final(self).states() == old(self).states().push(final(self).backend()),
            final(self).history() == old(self).history().push(Call::RetrieveOutputs {
                keychain_mask: unborrowed(keychain_mask),
                show_spent,
                tx_id,
                parent_key_id: unborrowed(parent_key_id),
                reply,
            }),
    {
        let reply = self.backend.retrieve_outputs(
            keychain_mask,
            show_spent,
            tx_id,
            parent_key_id,
        );
        self.states = Ghost(self.states@.push(self.backend));
        self.history = Ghost(
            self.history@.push(Call::RetrieveOutputs {
                keychain_mask: unborrowed(keychain_mask),
                show_spent,
                tx_id,
                parent_key_id: unborrowed(parent_key_id),
                reply,
            }),
        );
        reply
    }

    /// Marks a transaction as cancelled, and sets its outputs back.
    pub fn cancel_tx_and_outputs(
        &mut self,
        keychain_mask: Option<&SecretKey>,
        tx: TxLogEntry<B>,
        outputs: Vec<B::Output>,
        parent_key_id: &Identifier,
    ) -> (reply: Result<(), Error>)
        requires
            old(self).is_genuine(),
        ensures
            final(self).is_genuine(),
            final(self).states() == old(self).states().push(final(self).backend()),
            final(self).history() == old(self).history().push(Call::CancelTxAndOutputs {
                keychain_mask: unborrowed(keychain_mask),
                tx,
                outputs,
                parent_key_id: *parent_key_id,
                reply,
            }),
    {
        let reply = self.backend.cancel_tx_and_outputs(keychain_mask, tx, outputs, parent_key_id);
        self.states = Ghost(self.states@.push(self.backend));
        self.history = Ghost(
            self.history@.push(Call::CancelTxAndOutputs {
                keychain_mask: unborrowed(keychain_mask),
                tx,
                outputs,
                parent_key_id: *parent_key_id,
                reply,
            }),
        );
        reply
    }

    /// Keeps a transaction under the text of its slate id.
    pub fn store_tx(&mut self, uuid: &str, tx: &Transaction<B>) -> (reply: Result<(), Error>)
        requires
            old(self).is_genuine(),
        ensures
            final(self).is_genuine(),
            final(self).states() == old(self).states().push(final(self).backend()),
            final(self).history() == old(self).history().push(Call::StoreTx {
                uuid: uuid@,
                tx: *tx,
                reply,
            }),
    {
        let reply = self.backend.store_tx(uuid, tx);
        self.states = Ghost(self.states@.push(self.backend));
        self.history = Ghost(
            self.history@.push(Call::StoreTx { uuid: uuid@, tx: *tx, reply }),
        );
        reply
    }

    /// Opens a batch of writes, of which nothing is kept unless it is committed.
    pub fn batch(&mut self, keychain_mask: Option<&SecretKey>) -> (reply: Result<B::Batch, Error>)
        requires
            old(self).is_genuine(),
        ensures
            final(self).is_genuine(),
            final(self).states() == old(self).states().push(final(self).backend()),
            final(self).history() == old(self).history().push(Call::Batch {
                keychain_mask: unborrowed(keychain_mask),
                reply,
            }),
    {
        let reply = self.backend.batch(keychain_mask);
        self.states = Ghost(self.states@.push(self.backend));
        self.history = Ghost(
            self.history@.push(Call::Batch { keychain_mask: unborrowed(keychain_mask), reply }),
        );
        reply
    }

    /// Writes a transaction log entry of an account in a batch.
    pub fn save_tx_log_entry(
        &mut self,
        batch: &mut B::Batch,
        tx: TxLogEntry<B>,
        parent_key_id: &Identifier,
    ) -> (reply: Result<(), Error>)
        requires
            old(self).is_genuine(),
        ensures
            final(self).is_genuine(),
            final(self).states() == old(self).states().push(final(self).backend()),
            final(self).history() == old(self).history().push(Call::SaveTxLogEntry {
                before: *old(batch),
                after: *final(batch),
                tx,
                parent_key_id: *parent_key_id,
                reply,
            }),
    {
        let ghost before = *batch;
        let reply = self.backend.save_tx_log_entry(batch, tx, parent_key_id);
        self.states = Ghost(self.states@.push(self.backend));
        self.history = Ghost(
            self.history@.push(Call::SaveTxLogEntry {
                before,
                after: *batch,
                tx,
                parent_key_id: *parent_key_id,
                reply,
            }),
        );
        reply
    }

    /// Keeps all that was written in a batch.
    pub fn commit(&mut self, batch: B::Batch) -> (reply: Result<(), Error>)
        requires
            old(self).is_genuine(),
        ensures
            final(self).is_genuine(),
            final(self).states() == old(self).states().push(final(self).backend()),
            final(self).history() == old(self).history().push(Call::Commit { batch, reply }),
    {
        let reply = self.backend.commit(batch);
        self.states = Ghost(self.states@.push(self.backend));
        self.history = Ghost(
            self.history@.push(Call::Commit { batch, reply }),
        );
        reply
    }
}

} // verus!
