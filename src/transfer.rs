//! Signers, transfers, and the decisions of one submission attempt.
use crate::address::{pubkey_decoded, WalletAddress};
use crate::error::PipelineError;
use solana_sdk::pubkey::Pubkey;
use solana_sdk::signature::Keypair;
use solana_sdk::transaction::Transaction;
use vstd::prelude::*;

verus! {

#[verifier::external_type_specification]
#[verifier::external_body]
pub struct ExKeypair(Keypair);

#[verifier::external_type_specification]
#[verifier::external_body]
pub struct ExTransaction(Transaction);

/// The bytes that `bs58::decode(..).into_vec()` reads from `text`, if any.
pub uninterp spec fn base58_decoded(text: Seq<char>) -> Option<Seq<u8>>;

/// Whether `Keypair::try_from` accepts `bytes` as a secret key followed by
/// its public key.
pub uninterp spec fn keypair_accepts(bytes: Seq<u8>) -> bool;

/// Relies on `bs58::decode(..).into_vec()` (as re-exported by solana-sdk)
/// to read base58 text into bytes, or to refuse it.
#[verifier::external_body]
fn decode_base58(text: &str) -> (r: Option<Vec<u8>>)
    ensures
        match r {
            Some(b) => base58_decoded(text@) == Some(b@),
            None => base58_decoded(text@) is None,
        },
{
    solana_sdk::bs58::decode(text).into_vec().ok()
}

/// The keypair that `Keypair::try_from` makes of `bytes`, when it accepts them.
pub uninterp spec fn keypair_of(bytes: Seq<u8>) -> Keypair;

/// The transaction that `system_transaction::transfer` signs with the
/// keypair of `key` (64 bytes, secret then public), moving `amount` smallest
/// units to `to`, anchored at the block hash `recent`.
pub uninterp spec fn transfer_signed(key: Seq<u8>, to: Seq<u8>, amount: u64, recent: Seq<u8>) -> Transaction;

/// Relies on `Keypair::try_from(&[u8])`, which accepts only 64 bytes whose
/// public half matches their secret half, and depends on the bytes alone.
#[verifier::external_body]
fn keypair_from_bytes(bytes: &[u8]) -> (r: Option<Keypair>)
    ensures
        r is Some <==> keypair_accepts(bytes@),
        r is Some ==> bytes@.len() == 64 && r == Some(keypair_of(bytes@)),
{
    Keypair::try_from(bytes).ok()
}

/// Relies on `system_transaction::transfer`: one system transfer of
/// `amount` smallest units from the signer's account to `to`, paid and
/// signed by the signer, anchored at the block hash `recent`. Signing is
/// deterministic, so the transaction depends on these values alone.
#[verifier::external_body]
fn signed_transfer(sender: &Signer, to: &[u8; 32], amount: u64, recent: &[u8; 32]) -> (r:
    Transaction)
    requires
        sender.keypair == keypair_of(sender.key@),
    ensures
        r == transfer_signed(sender.key@, to@, amount, recent@),
{
    solana_sdk::system_transaction::transfer(
        &sender.keypair,
        &Pubkey::new_from_array(*to),
        amount,
        solana_sdk::hash::Hash::new_from_array(*recent),
    )
}

/// The key text `text` holds a usable keypair.
pub open spec fn signer_text_valid(text: Seq<char>) -> bool {
    &&& base58_decoded(text) is Some
    &&& keypair_accepts(base58_decoded(text)->Some_0)
}

/// The key bytes that `text` holds.
pub open spec fn signer_text_key(text: Seq<char>) -> Seq<u8> {
    base58_decoded(text)->Some_0
}

/// The account of the keypair that `text` holds: the public half of its bytes.
pub open spec fn signer_text_address(text: Seq<char>) -> Seq<u8> {
    signer_text_key(text).subrange(32, 64)
}

/// A keypair that authorises transfers from its account: the keypair, the
/// 64 bytes it was made of, and the account those bytes name.
pub struct Signer {
    keypair: Keypair,
    key: Vec<u8>,
    address: WalletAddress,
}

impl Signer {
    #[verifier::type_invariant]
    closed spec fn made_from_key(&self) -> bool {
        &&& self.key@.len() == 64
        &&& self.keypair == keypair_of(self.key@)
        &&& self.address@ == self.key@.subrange(32, 64)
    }

    /// The 64 key bytes of this signer, secret half then public half.
    pub closed spec fn key_spec(&self) -> Seq<u8> {
        self.key@
    }

    /// The account that this signer spends from: the public half of its key.
    pub open spec fn address_spec(&self) -> Seq<u8> {
        self.key_spec().subrange(32, 64)
    }

    /// Reads a keypair from its base58 text (secret key, then public key);
    /// malformed key material is a `Signing` error.
    pub fn from_base58(text: &str) -> (r: Result<Signer, PipelineError>)
        ensures
            match r {
                Ok(s) => {
                    &&& signer_text_valid(text@)
                    &&& s.key_spec() == signer_text_key(text@)
                    &&& s.address_spec() == signer_text_address(text@)
                },
                Err(e) => !signer_text_valid(text@) && e == PipelineError::Signing,
            },
    {
        let bytes = match decode_base58(text) {
            Some(b) => b,
            None => return Err(PipelineError::Signing),
        };
        let keypair = match keypair_from_bytes(bytes.as_slice()) {
            Some(k) => k,
            None => return Err(PipelineError::Signing),
        };
        let mut public = [0u8; 32];
        let mut i: usize = 0;
        while i < 32
            invariant
                bytes@.len() == 64,
                i <= 32,
                public@.len() == 32,
                forall|j: int| 0 <= j < i ==> public@[j] == bytes@[32 + j],
            decreases 32 - i,
        {
            public[i] = bytes[32 + i];
            i = i + 1;
        }
        assert(public@ =~= bytes@.subrange(32, 64));
        Ok(Signer { keypair, key: bytes, address: WalletAddress::from_bytes(public) })
    }

    /// The account that this signer spends from.
    pub fn address(&self) -> (r: WalletAddress)
        ensures
            r@ == self.address_spec(),
    {
        proof {
            use_type_invariant(self);
        }
        self.address
    }
}

/// A recent block hash, which anchors a transaction in time.
#[derive(Clone, Copy, Debug, PartialEq, Eq)]
pub struct BlockReference {
    hash: [u8; 32],
}

impl View for BlockReference {
    type V = Seq<u8>;

    closed spec fn view(&self) -> Seq<u8> {
        self.hash@
    }
}

impl BlockReference {
    /// The reference to the block whose hash is `hash`.
    pub fn from_bytes(hash: [u8; 32]) -> (r: BlockReference)
        ensures
            r@ == hash@,
    {
        BlockReference { hash }
    }
}

/// What a submission attempt does next.
pub enum SubmitStep {
    /// Send this signed transaction and wait for its confirmation.
    Send(Transaction),
    /// The attempt is over, with a confirmation identifier or an error.
    Finished(Result<String, PipelineError>),
}

/// One transfer of `amount` smallest units from `sender` to `recipient`.
pub struct Transfer {
    sender: Signer,
    recipient: WalletAddress,
    amount: u64,
}

impl Transfer {
    pub closed spec fn sender_spec(&self) -> Seq<u8> {
        self.sender.address_spec()
    }

    /// The key bytes of the sender.
    pub closed spec fn sender_key_spec(&self) -> Seq<u8> {
        self.sender.key_spec()
    }

    /// The transaction that carries this transfer, anchored at `recent`.
    pub open spec fn transaction_at(&self, recent: Seq<u8>) -> Transaction {
        transfer_signed(self.sender_key_spec(), self.recipient_spec(), self.amount_spec(), recent)
    }

    pub closed spec fn recipient_spec(&self) -> Seq<u8> {
        self.recipient@
    }

    pub closed spec fn amount_spec(&self) -> u64 {
        self.amount
    }

    /// The transfer of `amount` from `sender` to `recipient`.
    pub fn new(sender: Signer, recipient: WalletAddress, amount: u64) -> (r: Transfer)
        ensures
            r.sender_spec() == sender.address_spec(),
            r.sender_key_spec() == sender.key_spec(),
            r.recipient_spec() == recipient@,
            r.amount_spec() == amount,
    {
        Transfer { sender, recipient, amount }
    }

    /// Builds a transfer from the key text of its sender, the address text of
    /// its recipient and an amount. Malformed key material is a `Signing`
    /// error; with a usable key, a malformed address is a `Parse` error.
    pub fn from_text(secret_key: &str, to: &str, amount: u64) -> (r: Result<Transfer, PipelineError>)
        ensures
            r is Ok <==> signer_text_valid(secret_key@) && pubkey_decoded(to@) is Some,
            match r {
                Ok(t) => {
                    &&& t.sender_key_spec() == signer_text_key(secret_key@)
                    &&& t.sender_spec() == signer_text_address(secret_key@)
                    &&& Some(t.recipient_spec()) == pubkey_decoded(to@)
                    &&& t.amount_spec() == amount
                },
                Err(e) => if !signer_text_valid(secret_key@) {
                    e == PipelineError::Signing
                } else {
                    e == PipelineError::Parse
                },
            },
    {
        let sender = match Signer::from_base58(secret_key) {
            Ok(s) => s,
            Err(e) => return Err(e),
        };
        let recipient = match WalletAddress::parse(to) {
            Ok(a) => a,
            Err(e) => return Err(e),
        };
        Ok(Transfer { sender, recipient, amount })
    }

    /// The account the funds leave.
    pub fn sender(&self) -> (r: WalletAddress)
        ensures
            r@ == self.sender_spec(),
    {
        self.sender.address()
    }

    /// The account the funds go to.
    pub fn recipient(&self) -> (r: WalletAddress)
        ensures
            r@ == self.recipient_spec(),
    {
        self.recipient
    }

    /// The amount, in smallest units.
    pub fn amount(&self) -> (r: u64)
        ensures
            r == self.amount_spec(),
    {
        self.amount
    }

    /// The signed transaction of this transfer, anchored at `recent`.
    pub fn sign(&self, recent: &BlockReference) -> (r: Transaction)
        ensures
            r == self.transaction_at(recent@),
    {
        proof {
            use_type_invariant(&self.sender);
        }
        signed_transfer(&self.sender, &self.recipient.to_bytes(), self.amount, &recent.hash)
    }

    /// The step after fetching a recent block reference: without one the
    /// attempt ends with a `Freshness` error, with one the signed transaction
    /// is sent.
    pub fn after_block_reference(&self, fetched: Option<BlockReference>) -> (r: SubmitStep)
        ensures
            match fetched {
                None => r == SubmitStep::Finished(Err(PipelineError::Freshness)),
                Some(b) => r == SubmitStep::Send(self.transaction_at(b@)),
            },
    {
        match fetched {
            None => SubmitStep::Finished(Err(PipelineError::Freshness)),
            Some(recent) => SubmitStep::Send(self.sign(&recent)),
        }
    }
}

/// What a transfer sends depends on its sender's key, its recipient, its
/// amount and the block reference alone: two transfers that agree on these
/// send the same transaction, whatever was sent before.
pub proof fn lemma_submission_deterministic(t1: &Transfer, t2: &Transfer, recent: Seq<u8>)
    requires
        t1.sender_key_spec() == t2.sender_key_spec(),
        t1.recipient_spec() == t2.recipient_spec(),
        t1.amount_spec() == t2.amount_spec(),
    ensures
        t1.transaction_at(recent) == t2.transaction_at(recent),
{
}

/// The outcome of a submission once the node has answered: its confirmation
/// identifier, or a `Transport` error when the node failed or refused it.
pub fn after_confirmation(confirmed: Option<String>) -> (r: Result<String, PipelineError>)
    ensures
        match confirmed {
            Some(id) => r == Ok::<String, PipelineError>(id),
            None => r == Err::<String, PipelineError>(PipelineError::Transport),
        },
{
    match confirmed {
        Some(id) => Ok(id),
        None => Err(PipelineError::Transport),
    }
}

} // verus!
