use minting_sim::blockchain_sim::BlockchainSimulator;
use minting_sim::blockchain_sim::MintStatus;
use minting_sim::minting_queue::MintingQueue;

#[test]
fn test_minting_queue() {
    let mut queue = MintingQueue::new();
    let mint_id = cuid::cuid2();

    // Add a mint
    let status = queue.add_mint(mint_id.clone());
    assert_eq!(status.status, MintStatus::Pending);
    assert_eq!(status.mint_id, mint_id);

    // Get status
    let retrieved = queue.get_mint_status(&mint_id);
    assert!(retrieved.is_some());
    assert_eq!(retrieved.unwrap().status, MintStatus::Pending);
}

#[test]
fn test_fresh_mint_is_pending_with_fingerprint() {
    let mut queue = MintingQueue::new();
    let record = queue.add_mint("m1".to_owned());
    assert_eq!(record.status, MintStatus::Pending);
    assert!(record.transaction_details.is_some());
    assert_eq!(record.confirmed_at, None);
    assert!(record.confirmation_delay >= 30);
    assert!(record.confirmation_delay < 60);
}

#[test]
fn test_get_unknown_mint_is_none() {
    let queue = MintingQueue::new();
    assert!(queue.get_mint_status("missing").is_none());
}

#[test]
fn test_duplicate_registration_overwrites() {
    let mut queue = MintingQueue::new();
    let first = queue.add_mint("m1".to_owned());
    let second = queue.add_mint("m1".to_owned());
    let first_hash = first.transaction_details.unwrap().transaction_hash;
    let second_hash = second.transaction_details.unwrap().transaction_hash;
    // The registry holds one record per identifier: the later one.
    assert_eq!(queue.get_pending_mints().len(), 1);
    let stored = queue.get_mint_status("m1").unwrap();
    let stored_hash = stored.transaction_details.unwrap().transaction_hash;
    assert_eq!(stored_hash, second_hash);
    // Two independently sampled 256-bit hashes never collide in practice.
    assert_ne!(first_hash, second_hash);
}

#[test]
fn test_remove_mint() {
    let mut queue = MintingQueue::new();
    queue.add_mint("m1".to_owned());
    queue.add_mint("m2".to_owned());
    queue.remove_mint("m1");
    assert!(queue.get_mint_status("m1").is_none());
    assert!(queue.get_mint_status("m2").is_some());
    assert_eq!(queue.get_pending_mints().len(), 1);
}

#[test]
fn test_update_mint_status_absent_is_noop() {
    let mut queue = MintingQueue::new();
    queue.add_mint("m1".to_owned());
    queue.update_mint_status("ghostly", MintStatus::Confirming);
    assert!(queue.get_mint_status("ghostly").is_none());
    assert_eq!(queue.get_pending_mints().len(), 1);
}

#[test]
fn test_update_mint_status_to_confirmed_stamps_record() {
    let mut queue = MintingQueue::new();
    queue.add_mint("m1".to_owned());
    queue.update_mint_status("m1", MintStatus::Confirmed);
    let record = queue.get_mint_status("m1").unwrap();
    assert_eq!(record.status, MintStatus::Confirmed);
    assert!(record.confirmed_at.is_some());
    let details = record.transaction_details.unwrap();
    assert_eq!(details.confirmations, 12);
}

#[test]
fn test_distinct_registrations_all_retrievable() {
    let mut queue = MintingQueue::new();
    let ids: Vec<String> = (0..16).map(|i: u32| format!("mint-{}", i)).collect();
    for id in &ids {
        queue.add_mint(id.clone());
    }
    assert_eq!(queue.get_pending_mints().len(), ids.len());
    for id in &ids {
        let record = queue.get_mint_status(id).unwrap();
        assert_eq!(&record.mint_id, id);
        assert_eq!(record.status, MintStatus::Pending);
        assert!(record.transaction_details.is_some());
        assert_eq!(record.confirmed_at, None);
    }
}

#[test]
fn test_confirmation_time_set_exactly_once() {
    let mut queue = MintingQueue::new();
    let details = BlockchainSimulator::create_transaction_details();
    queue.add_mint_at("m1".to_owned(), details, 30, 0);
    queue.update_mint_status_at("m1", MintStatus::Confirmed, 40);
    let first = queue.get_mint_status("m1").unwrap();
    assert_eq!(first.confirmed_at, Some(40));
    // A repeated Confirmed update keeps the original stamp and changes
    // nothing else about the record.
    queue.update_mint_status_at("m1", MintStatus::Confirmed, 90);
    let second = queue.get_mint_status("m1").unwrap();
    assert_eq!(second.confirmed_at, Some(40));
    assert_eq!(second.status, MintStatus::Confirmed);
    assert_eq!(second.created_at, first.created_at);
    let details = second.transaction_details.unwrap();
    assert_eq!(details.confirmations, 12);
}

#[test]
fn test_failed_mint_evicted_after_retention() {
    let mut queue = MintingQueue::new();
    let details = BlockchainSimulator::create_transaction_details();
    queue.add_mint_at("m1".to_owned(), details, 30, 100);
    queue.update_mint_status_at("m1", MintStatus::Failed, 101);
    // One time unit before the retention window closes: still served.
    queue.tick(159);
    assert!(queue.get_mint_status("m1").is_some());
    // Sixty units past creation: evicted.
    queue.tick(160);
    assert!(queue.get_mint_status("m1").is_none());
}
