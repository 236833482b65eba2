use ledger_pipeline::error::PipelineError;
use ledger_pipeline::report::{balance_report, balance_reports, block_line, transfer_report};
use ledger_pipeline::transfer::Transfer;
use solana_sdk::signature::Keypair;
use solana_sdk::signer::Signer as KeySigner;

const VOTE: &str = "Vote111111111111111111111111111111111111111";

#[test]
fn scenario_two_wallets() {
    let wallets = vec!["addrA".to_string(), "addrB".to_string()];
    let outcomes = vec![Ok(1_000_000_000u64), Ok(500_000_000u64)];
    let reports = balance_reports(&wallets, &outcomes);
    assert_eq!(reports.len(), 2);
    assert_eq!(reports[0].text, "Wallet addrA: 1.0 SOL");
    assert_eq!(reports[1].text, "Wallet addrB: 0.5 SOL");
    assert!(reports.iter().all(|r| !r.to_error_stream));
}

#[test]
fn failure_does_not_touch_other_items() {
    let wallets = vec!["a".to_string(), "b".to_string(), "c".to_string()];
    let outcomes = vec![Ok(1u64), Err(PipelineError::Transport), Ok(2_000_000_000u64)];
    let reports = balance_reports(&wallets, &outcomes);
    assert_eq!(reports.len(), 3);
    assert_eq!(reports[0].text, "Wallet a: 0.000000001 SOL");
    assert!(reports[1].to_error_stream);
    assert_eq!(reports[1].text, "Failed to fetch balance for b: transport failure");
    assert_eq!(reports[2].text, "Wallet c: 2.0 SOL");
}

#[test]
fn empty_batch_has_no_reports() {
    let reports = balance_reports(&vec![], &vec![]);
    assert!(reports.is_empty());
}

#[test]
fn single_balance_report() {
    let r = balance_report("w", &Err(PipelineError::Parse));
    assert!(r.to_error_stream);
    assert_eq!(r.text, "Failed to fetch balance for w: malformed address or key text");
}

#[test]
fn transfer_report_lines() {
    let kp = Keypair::new();
    let t = Transfer::from_text(&kp.to_base58_string(), VOTE, 2_500_000_000).unwrap();
    let from = kp.pubkey().to_string();
    let ok = transfer_report(&t, &Ok("SIG".to_string()));
    assert!(!ok.to_error_stream);
    assert_eq!(
        ok.text,
        format!("Successfully transfer 2.5 SOL from {} to {}. TX hash: SIG", from, VOTE)
    );
    let err = transfer_report(&t, &Err(PipelineError::Transport));
    assert!(err.to_error_stream);
    assert_eq!(err.text, format!("Failed to transfer 2.5 SOL from {} to {}", from, VOTE));
}

#[test]
fn block_line_text() {
    assert_eq!(block_line("HASH", 12345), "New block! Hash: HASH, Slot: 12345");
}

#[test]
fn error_descriptions() {
    assert_eq!(PipelineError::Config.description(), "malformed configuration");
    assert_eq!(PipelineError::Freshness.description(), "no recent block reference");
    assert_eq!(PipelineError::Signing.description(), "malformed key material");
}
