use minting_sim::blockchain_sim::BlockchainSimulator;
use minting_sim::blockchain_sim::TransactionStatus;

#[test]
fn test_transaction_hash_format() {
    let hash = BlockchainSimulator::generate_transaction_hash();
    assert!(hash.starts_with("0x"));
    assert_eq!(hash.len(), 66); // 0x + 64 hex chars
}

#[test]
fn test_hash_digits_are_hex() {
    let hash = BlockchainSimulator::generate_transaction_hash();
    for c in hash.chars().skip(2) {
        assert!(c.is_ascii_hexdigit());
        assert!(!c.is_ascii_uppercase());
    }
}

#[test]
fn test_block_number_range() {
    let block = BlockchainSimulator::generate_block_number();
    assert!(block >= 19_000_000);
    assert!(block < 19_001_000);
}

#[test]
fn test_gas_usage_range() {
    let gas = BlockchainSimulator::generate_gas_used();
    assert!(gas >= 150_000);
    assert!(gas < 300_000);
}

#[test]
fn test_gas_price_range() {
    let price = BlockchainSimulator::generate_gas_price();
    assert!(price >= 20_000_000_000);
    assert!(price < 50_000_000_000);
}

#[test]
fn test_confirmation_delay_range() {
    let delay = BlockchainSimulator::get_confirmation_delay();
    assert!(delay >= 30);
    assert!(delay < 60);
}

#[test]
fn test_create_transaction_details_fresh() {
    let details = BlockchainSimulator::create_transaction_details();
    assert_eq!(details.status, TransactionStatus::Pending);
    assert_eq!(details.confirmations, 0);
    assert!(details.transaction_hash.starts_with("0x"));
    assert_eq!(details.transaction_hash.len(), 66);
}

#[test]
fn test_confirm_transaction_sets_canonical_fields() {
    let details = BlockchainSimulator::create_transaction_details();
    let hash = details.transaction_hash.clone();
    let block = details.block_number;
    let confirmed = BlockchainSimulator::confirm_transaction(details);
    assert_eq!(confirmed.status, TransactionStatus::Confirmed);
    assert_eq!(confirmed.confirmations, 12);
    assert_eq!(confirmed.transaction_hash, hash);
    assert_eq!(confirmed.block_number, block);
}
