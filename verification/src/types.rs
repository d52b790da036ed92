//! The data that the transaction functions read and write.
use vstd::prelude::*;

use crate::wallet::WalletBackend;

verus! {

/// Why a wallet operation did not succeed.
#[derive(Debug, PartialEq, Eq)]
pub enum Error {
    /// No transaction log entry, or more than one, answers to the given id.
    TransactionDoesntExist(String),
    /// The transaction is confirmed already, or is not of a kind that can be cancelled.
    TransactionNotCancellable(String),
    /// A payment proof is missing, or does not hold.
    PaymentProof(String),
    /// A secret key cannot be used for ed25519.
    ED25519Key(String),
    /// A transaction log entry that belongs to a slate does not name the slate.
    MissingSlateId,
    /// The height at which a slate expires is past the largest height.
    TtlOutOfRange,
    /// Bytes could not be written in full, or ended before all that was asked for was read.
    IO,
    /// The backend, or the node behind it, could not do its part.
    Backend(String),
}

/// The id of a slate, as its sixteen bytes.
#[derive(Clone, Copy, Debug, PartialEq, Eq)]
pub struct Uuid {
    pub bytes: [u8; 16],
}

/// The id of a key: the path by which it is derived.
#[derive(Clone, Copy, Debug, PartialEq, Eq)]
pub struct Identifier {
    pub bytes: [u8; 17],
}

/// A secret scalar, or a mask that is laid over one.
#[derive(Clone, Copy, Debug, PartialEq, Eq)]
pub struct SecretKey {
    pub bytes: [u8; 32],
}

/// A Pedersen commitment.
#[derive(Clone, Copy, Debug, PartialEq, Eq)]
pub struct Commitment {
    pub bytes: [u8; 33],
}

/// An ed25519 public key, which is the address of a party to a payment.
#[derive(Clone, Copy, Debug, PartialEq, Eq)]
pub struct PublicKey {
    pub bytes: [u8; 32],
}

/// An ed25519 signature.
#[derive(Clone, Copy, Debug, PartialEq, Eq)]
pub struct Signature {
    pub bytes: [u8; 64],
}

impl View for Uuid {
    type V = Seq<u8>;

    open spec fn view(&self) -> Seq<u8> {
        self.bytes@
    }
}

impl View for SecretKey {
    type V = Seq<u8>;

    open spec fn view(&self) -> Seq<u8> {
        self.bytes@
    }
}

impl View for Commitment {
    type V = Seq<u8>;

    open spec fn view(&self) -> Seq<u8> {
        self.bytes@
    }
}

impl View for PublicKey {
    type V = Seq<u8>;

    open spec fn view(&self) -> Seq<u8> {
        self.bytes@
    }
}

impl View for Signature {
    type V = Seq<u8>;

    open spec fn view(&self) -> Seq<u8> {
        self.bytes@
    }
}

impl PublicKey {
    /// Whether two addresses are the same.
    pub fn same_as(&self, other: &PublicKey) -> (same: bool)
        ensures
            same == (*self == *other),
            same == (self@ == other@),
    {
        let mut i: usize = 0;
        while i < 32
            invariant
                i <= 32,
                forall|j: int| 0 <= j < i ==> self.bytes@[j] == other.bytes@[j],
            decreases 32 - i,
        {
            if self.bytes[i] != other.bytes[i] {
                return false;
            }
            i = i + 1;
        }
        assert(self.bytes =~= other.bytes);
        true
    }
}

/// What a slate says of the proof that its payment was made.
#[derive(Clone, Copy, Debug, PartialEq, Eq)]
pub struct PaymentInfo {
    pub sender_address: PublicKey,
    pub receiver_address: PublicKey,
    pub receiver_signature: Option<Signature>,
}

/// What the transaction log keeps of a payment proof.
#[derive(Clone, Copy, Debug, PartialEq, Eq)]
pub struct StoredProofInfo {
    pub receiver_address: PublicKey,
    pub receiver_signature: Option<Signature>,
    pub sender_address_path: u32,
    pub sender_address: PublicKey,
    pub sender_signature: Option<Signature>,
}

/// The versions that the parties to a slate agree on.
#[derive(Clone, Copy, Debug, PartialEq, Eq)]
pub struct VersionInfo {
    pub block_header_version: u16,
}

/// The kernel of a transaction.
#[derive(Clone, Copy, Debug, PartialEq, Eq)]
pub struct TxKernel {
    pub excess: Commitment,
}

/// A transaction: its kernels, and what only the backend looks into.
pub struct Transaction<B: WalletBackend> {
    pub kernels: Vec<TxKernel>,
    pub parts: B::TransactionParts,
}

/// The record that the parties to a transaction pass back and forth to build it.
pub struct Slate<B: WalletBackend> {
    pub id: Uuid,
    pub amount: u64,
    pub height: u64,
    pub lock_height: u64,
    pub ttl_cutoff_height: Option<u64>,
    pub version_info: VersionInfo,
    pub payment_proof: Option<PaymentInfo>,
    pub tx: Transaction<B>,
    pub parts: B::SlateParts,
}

/// The secrets of one party to a slate.
pub struct Context<B: WalletBackend> {
    pub sec_key: SecretKey,
    pub sec_nonce: SecretKey,
    pub payment_proof_derivation_index: Option<u32>,
    pub parts: B::ContextParts,
}

/// The kind of a transaction log entry. Which of the kinds a log entry is of that is neither
/// sent nor received, its parts tell.
#[derive(Clone, Copy, Debug, PartialEq, Eq, Structural)]
pub enum TxLogEntryType {
    TxSent,
    TxReceived,
    Other,
}

/// An entry of the transaction log.
pub struct TxLogEntry<B: WalletBackend> {
    pub id: u32,
    pub tx_type: TxLogEntryType,
    pub confirmed: bool,
    pub tx_slate_id: Option<Uuid>,
    pub parent_key_id: Identifier,
    pub kernel_excess: Option<Commitment>,
    pub messages: Option<B::Messages>,
    pub payment_proof: Option<StoredProofInfo>,
    pub parts: B::TxLogEntryParts,
}

/// An output of the wallet, with the commitment under which the chain knows it.
pub struct OutputCommitMapping<B: WalletBackend> {
    pub output: B::Output,
    pub commit: Commitment,
}

/// What a selection of coins comes to.
pub struct Selection<B: WalletBackend> {
    pub coins: Vec<B::Output>,
    pub total: u64,
    pub amount: u64,
    pub fee: u64,
}

} // verus!
