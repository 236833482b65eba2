use ledger_pipeline::address::WalletAddress;
use ledger_pipeline::error::PipelineError;
use solana_sdk::pubkey::Pubkey;
use std::str::FromStr;

const SYSTEM: &str = "11111111111111111111111111111111";
const VOTE: &str = "Vote111111111111111111111111111111111111111";

#[test]
fn parses_all_zero_key() {
    let a = WalletAddress::parse(SYSTEM).unwrap();
    assert_eq!(a.to_bytes(), [0u8; 32]);
}

#[test]
fn parse_matches_pubkey() {
    let a = WalletAddress::parse(VOTE).unwrap();
    assert_eq!(a.to_bytes(), Pubkey::from_str(VOTE).unwrap().to_bytes());
}

#[test]
fn text_round_trip() {
    let a = WalletAddress::parse(VOTE).unwrap();
    let text = a.to_text();
    assert_eq!(text, VOTE);
    assert_eq!(WalletAddress::parse(&text).unwrap(), a);
}

#[test]
fn bytes_round_trip_through_text() {
    let mut bytes = [0u8; 32];
    for (i, b) in bytes.iter_mut().enumerate() {
        *b = (i as u8).wrapping_mul(37).wrapping_add(5);
    }
    let a = WalletAddress::from_bytes(bytes);
    let back = WalletAddress::parse(&a.to_text()).unwrap();
    assert_eq!(back, a);
    assert_eq!(back.to_bytes(), bytes);
}

#[test]
fn malformed_address_is_parse_error() {
    assert_eq!(WalletAddress::parse("not-an-address"), Err(PipelineError::Parse));
    assert_eq!(WalletAddress::parse(""), Err(PipelineError::Parse));
    assert_eq!(WalletAddress::parse("0OIl"), Err(PipelineError::Parse));
}

#[test]
fn overlong_address_is_parse_error() {
    let long = "1".repeat(45);
    assert_eq!(WalletAddress::parse(&long), Err(PipelineError::Parse));
}

#[test]
fn short_address_is_parse_error() {
    assert_eq!(WalletAddress::parse("abc"), Err(PipelineError::Parse));
}
