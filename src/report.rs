//! The human-readable line that each completed unit of work produces.
use crate::address::pubkey_encoded;
use crate::amount::{coin_amount_text, coin_text, decimal, decimal_text};
use crate::error::{error_text, PipelineError};
use crate::transfer::Transfer;
use vstd::prelude::*;

verus! {

/// One line of output, for standard output or for the error stream.
pub struct Report {
    pub to_error_stream: bool,
    pub text: String,
}

/// The line for a balance lookup of `wallet`.
pub open spec fn balance_text(wallet: Seq<char>, outcome: Result<u64, PipelineError>) -> Seq<char> {
    match outcome {
        Ok(units) => "Wallet "@ + wallet + ": "@ + coin_text(units) + " SOL"@,
        Err(e) => "Failed to fetch balance for "@ + wallet + ": "@ + error_text(e),
    }
}

/// The line for a transfer of `amount` from `from` to `to`.
pub open spec fn transfer_text(
    amount: u64,
    from: Seq<char>,
    to: Seq<char>,
    outcome: Result<Seq<char>, PipelineError>,
) -> Seq<char> {
    match outcome {
        Ok(id) => "Successfully transfer "@ + coin_text(amount) + " SOL from "@ + from + " to "@
            + to + ". TX hash: "@ + id,
        Err(_) => "Failed to transfer "@ + coin_text(amount) + " SOL from "@ + from + " to "@ + to,
    }
}

/// The line recorded for a block-metadata event.
pub open spec fn block_text(hash: Seq<char>, slot: u64) -> Seq<char> {
    "New block! Hash: "@ + hash + ", Slot: "@ + decimal(slot as nat)
}

pub open spec fn outcome_view(outcome: Result<String, PipelineError>) -> Result<Seq<char>, PipelineError> {
    match outcome {
        Ok(id) => Ok(id@),
        Err(e) => Err(e),
    }
}

/// The report of one balance lookup: the balance in the display unit, or
/// the error on the error stream.
pub fn balance_report(wallet: &str, outcome: &Result<u64, PipelineError>) -> (r: Report)
    ensures
        r.to_error_stream == outcome is Err,
        r.text@ == balance_text(wallet@, *outcome),
{
    let mut text = String::new();
    match outcome {
        Ok(units) => {
            text.append("Wallet ");
            text.append(wallet);
            text.append(": ");
            let coins = coin_amount_text(*units);
            text.append(coins.as_str());
            text.append(" SOL");
            Report { to_error_stream: false, text }
        },
        Err(e) => {
            text.append("Failed to fetch balance for ");
            text.append(wallet);
            text.append(": ");
            text.append(e.description());
            Report { to_error_stream: true, text }
        },
    }
}

/// The reports of a batch of balance lookups: exactly one per wallet, each
/// decided by that wallet's own outcome alone.
pub fn balance_reports(wallets: &Vec<String>, outcomes: &Vec<Result<u64, PipelineError>>) -> (r: Vec<
    Report,
>)
    requires
        wallets@.len() == outcomes@.len(),
    ensures
        r@.len() == wallets@.len(),
        forall|i: int|
            0 <= i < r@.len() ==> {
                &&& #[trigger] r@[i].text@ == balance_text(wallets@[i]@, outcomes@[i])
                &&& r@[i].to_error_stream == outcomes@[i] is Err
            },
{
    let mut r: Vec<Report> = Vec::new();
    let mut i: usize = 0;
    while i < wallets.len()
        invariant
            wallets@.len() == outcomes@.len(),
            i <= wallets@.len(),
            r@.len() == i,
            forall|j: int|
                0 <= j < i ==> {
                    &&& #[trigger] r@[j].text@ == balance_text(wallets@[j]@, outcomes@[j])
                    &&& r@[j].to_error_stream == outcomes@[j] is Err
                },
        decreases wallets@.len() - i,
    {
        let report = balance_report(wallets[i].as_str(), &outcomes[i]);
        r.push(report);
        i = i + 1;
    }
    r
}

/// The report of one transfer attempt: its confirmation identifier, or the
/// failure on the error stream.
pub fn transfer_report(transfer: &Transfer, outcome: &Result<String, PipelineError>) -> (r: Report)
    ensures
        r.to_error_stream == outcome is Err,
        r.text@ == transfer_text(
            transfer.amount_spec(),
            pubkey_encoded(transfer.sender_spec()),
            pubkey_encoded(transfer.recipient_spec()),
            outcome_view(*outcome),
        ),
{
    let coins = coin_amount_text(transfer.amount());
    let from = transfer.sender().to_text();
    let to = transfer.recipient().to_text();
    let mut text = String::new();
    match outcome {
        Ok(id) => {
            text.append("Successfully transfer ");
            text.append(coins.as_str());
            text.append(" SOL from ");
            text.append(from.as_str());
            text.append(" to ");
            text.append(to.as_str());
            text.append(". TX hash: ");
            text.append(id.as_str());
            Report { to_error_stream: false, text }
        },
        Err(_) => {
            text.append("Failed to transfer ");
            text.append(coins.as_str());
            text.append(" SOL from ");
            text.append(from.as_str());
            text.append(" to ");
            text.append(to.as_str());
            Report { to_error_stream: true, text }
        },
    }
}

/// The line recorded for the block-metadata event with hash `hash` at `slot`.
pub fn block_line(hash: &str, slot: u64) -> (r: String)
    ensures
        r@ == block_text(hash@, slot),
{
    let mut text = String::new();
    text.append("New block! Hash: ");
    text.append(hash);
    text.append(", Slot: ");
    let s = decimal_text(slot);
    text.append(s.as_str());
    text
}

} // verus!
