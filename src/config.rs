//! Configuration of the three jobs, as plain values, and the work each one
//! prepares from it before any network call.
use crate::address::{pubkey_decoded, WalletAddress};
use crate::error::PipelineError;
use crate::transfer::{signer_text_address, signer_text_valid, Transfer};
use vstd::prelude::*;

verus! {

/// Configuration of the balance lookup.
#[derive(Clone, Debug, PartialEq, Eq)]
pub struct BalanceConfig {
    pub rpc_url: String,
    pub wallets: Vec<String>,
}

/// One transfer of the batch, as configured.
#[derive(Clone, Debug, PartialEq, Eq)]
pub struct TransferConfig {
    pub secret_key: String,
    pub to: String,
    pub amount: u64,
}

/// Configuration of the batch of transfers.
#[derive(Clone, Debug, PartialEq, Eq)]
pub struct BatchConfig {
    pub rpc_url: String,
    pub transfers: Vec<TransferConfig>,
}

/// The sending side of the block-driven pipeline.
#[derive(Clone, Debug, PartialEq, Eq)]
pub struct WalletConfig {
    pub rpc_url: String,
    pub secret_key: String,
    pub to: String,
    pub amount: u64,
}

/// The event-feed endpoint and its access token.
#[derive(Clone, Debug, PartialEq, Eq)]
pub struct FeedConfig {
    pub url: String,
    pub token: String,
}

/// Configuration of the block-driven pipeline.
#[derive(Clone, Debug, PartialEq, Eq)]
pub struct PipelineConfig {
    pub wallet: WalletConfig,
    pub geyser: FeedConfig,
}

/// What `Transfer::from_text` makes of one configured transfer.
pub open spec fn transfer_prepared(
    r: Result<Transfer, PipelineError>,
    secret_key: Seq<char>,
    to: Seq<char>,
    amount: u64,
) -> bool {
    &&& r is Ok <==> signer_text_valid(secret_key) && pubkey_decoded(to) is Some
    &&& match r {
        Ok(t) => {
            &&& t.sender_spec() == signer_text_address(secret_key)
            &&& Some(t.recipient_spec()) == pubkey_decoded(to)
            &&& t.amount_spec() == amount
        },
        Err(e) => if !signer_text_valid(secret_key) {
            e == PipelineError::Signing
        } else {
            e == PipelineError::Parse
        },
    }
}

impl BalanceConfig {
    /// The address to look up for each configured wallet, in order: one
    /// entry per wallet, a malformed one a `Parse` error of its own.
    pub fn addresses(&self) -> (r: Vec<Result<WalletAddress, PipelineError>>)
        ensures
            r@.len() == self.wallets@.len(),
            forall|i: int|
                0 <= i < r@.len() ==> match #[trigger] r@[i] {
                    Ok(a) => pubkey_decoded(self.wallets@[i]@) == Some(a@),
                    Err(e) => pubkey_decoded(self.wallets@[i]@) is None && e
                        == PipelineError::Parse,
                },
    {
        let mut r: Vec<Result<WalletAddress, PipelineError>> = Vec::new();
        let mut i: usize = 0;
        while i < self.wallets.len()
            invariant
                i <= self.wallets@.len(),
                r@.len() == i,
                forall|j: int|
                    0 <= j < i ==> match #[trigger] r@[j] {
                        Ok(a) => pubkey_decoded(self.wallets@[j]@) == Some(a@),
                        Err(e) => pubkey_decoded(self.wallets@[j]@) is None && e
                            == PipelineError::Parse,
                    },
            decreases self.wallets@.len() - i,
        {
            r.push(WalletAddress::parse(self.wallets[i].as_str()));
            i = i + 1;
        }
        r
    }
}

impl BatchConfig {
    /// The transfer for each configured entry, in order: one entry per
    /// configured transfer, a malformed one an error of its own.
    pub fn prepared_transfers(&self) -> (r: Vec<Result<Transfer, PipelineError>>)
        ensures
            r@.len() == self.transfers@.len(),
            forall|i: int|
                0 <= i < r@.len() ==> transfer_prepared(
                    #[trigger] r@[i],
                    self.transfers@[i].secret_key@,
                    self.transfers@[i].to@,
                    self.transfers@[i].amount,
                ),
    {
        let mut r: Vec<Result<Transfer, PipelineError>> = Vec::new();
        let mut i: usize = 0;
        while i < self.transfers.len()
            invariant
                i <= self.transfers@.len(),
                r@.len() == i,
                forall|j: int|
                    0 <= j < i ==> transfer_prepared(
                        #[trigger] r@[j],
                        self.transfers@[j].secret_key@,
                        self.transfers@[j].to@,
                        self.transfers@[j].amount,
                    ),
            decreases self.transfers@.len() - i,
        {
            let t = &self.transfers[i];
            r.push(Transfer::from_text(t.secret_key.as_str(), t.to.as_str(), t.amount));
            i = i + 1;
        }
        r
    }
}

impl PipelineConfig {
    /// The one transfer that the pipeline submits on every block.
    pub fn bound_transfer(&self) -> (r: Result<Transfer, PipelineError>)
        ensures
            transfer_prepared(
                r,
                self.wallet.secret_key@,
                self.wallet.to@,
                self.wallet.amount,
            ),
    {
        Transfer::from_text(self.wallet.secret_key.as_str(), self.wallet.to.as_str(), self.wallet.amount)
    }
}

} // verus!
