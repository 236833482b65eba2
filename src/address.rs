//! Wallet addresses: 32-byte account keys written in base58.
use crate::error::PipelineError;
use solana_sdk::pubkey::Pubkey;
use vstd::prelude::*;

verus! {

/// The key that `Pubkey::from_str` reads from `text`, if it reads one.
pub uninterp spec fn pubkey_decoded(text: Seq<char>) -> Option<Seq<u8>>;

/// The text that `Pubkey`'s `Display` writes for the key `bytes`.
pub uninterp spec fn pubkey_encoded(bytes: Seq<u8>) -> Seq<char>;

/// Relies on `Pubkey::from_str` (base58 decoding of a 32-byte key) to read
/// the key that `text` spells, and to refuse text that spells none.
#[verifier::external_body]
fn decode_pubkey(text: &str) -> (r: Option<[u8; 32]>)
    ensures
        match r {
            Some(b) => pubkey_decoded(text@) == Some(b@),
            None => pubkey_decoded(text@) is None,
        },
        text@.len() > 44 ==> r is None,
{
    <Pubkey as std::str::FromStr>::from_str(text).ok().map(|p| p.to_bytes())
}

/// Relies on `Pubkey`'s `Display` (base58 encoding), whose text
/// `Pubkey::from_str` reads back to the same key.
#[verifier::external_body]
fn encode_pubkey(bytes: &[u8; 32]) -> (r: String)
    ensures
        r@ == pubkey_encoded(bytes@),
        pubkey_decoded(r@) == Some(bytes@),
{
    Pubkey::new_from_array(*bytes).to_string()
}

/// The identifier of an account on the ledger.
#[derive(Clone, Copy, Debug, PartialEq, Eq, Hash)]
pub struct WalletAddress {
    bytes: [u8; 32],
}

impl View for WalletAddress {
    type V = Seq<u8>;

    closed spec fn view(&self) -> Seq<u8> {
        self.bytes@
    }
}

impl WalletAddress {
    /// The address whose key is `bytes`.
    pub fn from_bytes(bytes: [u8; 32]) -> (r: WalletAddress)
        ensures
            r@ == bytes@,
    {
        WalletAddress { bytes }
    }

    /// The key of this address.
    pub fn to_bytes(&self) -> (r: [u8; 32])
        ensures
            r@ == self@,
    {
        self.bytes
    }

    /// Reads an address from its text; text that spells no address is a
    /// `Parse` error, never an address.
    pub fn parse(text: &str) -> (r: Result<WalletAddress, PipelineError>)
        ensures
            match r {
                Ok(a) => pubkey_decoded(text@) == Some(a@),
                Err(e) => pubkey_decoded(text@) is None && e == PipelineError::Parse,
            },
    {
        match decode_pubkey(text) {
            Some(bytes) => Ok(WalletAddress { bytes }),
            None => Err(PipelineError::Parse),
        }
    }

    /// The text of this address, which `parse` reads back to this address.
    pub fn to_text(&self) -> (r: String)
        ensures
            r@ == pubkey_encoded(self@),
            pubkey_decoded(r@) == Some(self@),
    {
        encode_pubkey(&self.bytes)
    }
}

} // verus!
