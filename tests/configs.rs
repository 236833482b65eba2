use ledger_pipeline::config::{
    BalanceConfig, BatchConfig, FeedConfig, PipelineConfig, TransferConfig, WalletConfig,
};
use ledger_pipeline::error::PipelineError;
use solana_sdk::signature::Keypair;
use solana_sdk::signer::Signer as KeySigner;

const VOTE: &str = "Vote111111111111111111111111111111111111111";
const SYSTEM: &str = "11111111111111111111111111111111";

#[test]
fn addresses_one_per_wallet() {
    let c = BalanceConfig {
        rpc_url: "http://localhost:8899".to_string(),
        wallets: vec![VOTE.to_string(), "bad".to_string(), SYSTEM.to_string()],
    };
    let a = c.addresses();
    assert_eq!(a.len(), 3);
    assert_eq!(a[0].unwrap().to_text(), VOTE);
    assert_eq!(a[1], Err(PipelineError::Parse));
    assert_eq!(a[2].unwrap().to_bytes(), [0u8; 32]);
}

#[test]
fn no_wallets_no_addresses() {
    let c = BalanceConfig { rpc_url: String::new(), wallets: vec![] };
    assert!(c.addresses().is_empty());
}

#[test]
fn prepared_transfers_one_per_entry() {
    let kp = Keypair::new();
    let c = BatchConfig {
        rpc_url: String::new(),
        transfers: vec![
            TransferConfig { secret_key: kp.to_base58_string(), to: VOTE.to_string(), amount: 3 },
            TransferConfig { secret_key: "x".to_string(), to: VOTE.to_string(), amount: 4 },
            TransferConfig { secret_key: kp.to_base58_string(), to: "y".to_string(), amount: 5 },
        ],
    };
    let p = c.prepared_transfers();
    assert_eq!(p.len(), 3);
    let t = p[0].as_ref().unwrap();
    assert_eq!(t.amount(), 3);
    assert_eq!(t.sender().to_bytes(), kp.pubkey().to_bytes());
    assert!(matches!(p[1], Err(PipelineError::Signing)));
    assert!(matches!(p[2], Err(PipelineError::Parse)));
}

#[test]
fn pipeline_bound_transfer() {
    let kp = Keypair::new();
    let c = PipelineConfig {
        wallet: WalletConfig {
            rpc_url: String::new(),
            secret_key: kp.to_base58_string(),
            to: SYSTEM.to_string(),
            amount: 1_000_000_000,
        },
        geyser: FeedConfig { url: "http://x".to_string(), token: "t".to_string() },
    };
    let t = c.bound_transfer().unwrap();
    assert_eq!(t.recipient().to_bytes(), [0u8; 32]);
    assert_eq!(t.amount(), 1_000_000_000);
}

#[test]
fn equal_configs_compare_equal() {
    let a = BalanceConfig { rpc_url: "u".to_string(), wallets: vec!["w".to_string()] };
    let b = BalanceConfig { rpc_url: "u".to_string(), wallets: vec!["w".to_string()] };
    let c = BalanceConfig { rpc_url: "u".to_string(), wallets: vec!["v".to_string()] };
    assert_eq!(a, b);
    assert_ne!(a, c);
}
