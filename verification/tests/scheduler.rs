use minting_sim::blockchain_sim::BlockchainSimulator;
use minting_sim::blockchain_sim::MintStatus;
use minting_sim::minting_queue::MintingQueue;
use minting_sim::responses::MintStatusResponse;

#[test]
fn test_pending_becomes_confirming_on_threshold() {
    let mut queue = MintingQueue::new();
    let details = BlockchainSimulator::create_transaction_details();
    queue.add_mint_at("m1".to_owned(), details, 30, 0);
    // Not before three time units have passed...
    queue.tick(2);
    assert_eq!(queue.get_mint_status("m1").unwrap().status, MintStatus::Pending);
    // ...and exactly at the (inclusive) boundary.
    queue.tick(3);
    assert_eq!(queue.get_mint_status("m1").unwrap().status, MintStatus::Confirming);
}

#[test]
fn test_confirming_confirms_at_sampled_delay() {
    let mut queue = MintingQueue::new();
    let details = BlockchainSimulator::create_transaction_details();
    queue.add_mint_at("m1".to_owned(), details, 30, 0);
    queue.tick(5);
    assert_eq!(queue.get_mint_status("m1").unwrap().status, MintStatus::Confirming);
    // One unit short of the sampled delay: still confirming.
    queue.tick(29);
    assert_eq!(queue.get_mint_status("m1").unwrap().status, MintStatus::Confirming);
    // At the sampled delay: confirmed, stamped, canonical count.
    queue.tick(30);
    let record = queue.get_mint_status("m1").unwrap();
    assert_eq!(record.status, MintStatus::Confirmed);
    assert_eq!(record.confirmed_at, Some(30));
    assert_eq!(record.transaction_details.unwrap().confirmations, 12);
}

#[test]
fn test_confirmed_evicted_after_retention() {
    let mut queue = MintingQueue::new();
    let details = BlockchainSimulator::create_transaction_details();
    queue.add_mint_at("m1".to_owned(), details, 30, 0);
    queue.tick(3);
    queue.tick(30); // confirmed at t = 30
    // One unit short of the retention window: still served.
    queue.tick(329);
    assert_eq!(queue.get_mint_status("m1").unwrap().status, MintStatus::Confirmed);
    // Three hundred units past confirmation: evicted.
    queue.tick(330);
    assert!(queue.get_mint_status("m1").is_none());
}

#[test]
fn test_status_monotonic_over_ticks() {
    let mut queue = MintingQueue::new();
    let details = BlockchainSimulator::create_transaction_details();
    queue.add_mint_at("m1".to_owned(), details, 42, 0);
    let rank = |s: MintStatus| match s {
        MintStatus::Pending => 0,
        MintStatus::Confirming => 1,
        MintStatus::Confirmed => 2,
        MintStatus::Failed => 2,
    };
    let mut last_rank = 0;
    let mut now: u64 = 0;
    while now <= 400 {
        queue.tick(now);
        match queue.get_mint_status("m1") {
            Some(record) => {
                let r = rank(record.status);
                assert!(r >= last_rank);
                last_rank = r;
            }
            None => {
                // Evicted: only a terminal record leaves the registry.
                assert_eq!(last_rank, 2);
            }
        }
        now += 5;
    }
    assert!(queue.get_mint_status("m1").is_none());
}

#[test]
fn test_mint_lifecycle_scenario() {
    let mut queue = MintingQueue::new();
    let details = BlockchainSimulator::create_transaction_details();
    // Register mint "m1" at t = 0 with a forced confirmation delay of 30.
    queue.add_mint_at("m1".to_owned(), details, 30, 0);
    queue.tick(2);
    assert_eq!(queue.get_mint_status("m1").unwrap().status, MintStatus::Pending);
    queue.tick(4);
    assert_eq!(queue.get_mint_status("m1").unwrap().status, MintStatus::Confirming);
    queue.tick(34);
    let record = queue.get_mint_status("m1").unwrap();
    assert_eq!(record.status, MintStatus::Confirmed);
    assert_eq!(record.transaction_details.unwrap().confirmations, 12);
    queue.tick(334);
    assert!(queue.get_mint_status("m1").is_none());
}

#[test]
fn test_response_flattens_record() {
    let mut queue = MintingQueue::new();
    let record = queue.add_mint("m1".to_owned());
    let details = record.transaction_details.as_ref().unwrap();
    let response = MintStatusResponse::from_record(&record);
    assert_eq!(response.mint_id, record.mint_id);
    assert_eq!(response.status, record.status);
    assert_eq!(response.transaction_hash.as_deref(), Some(details.transaction_hash.as_str()));
    assert_eq!(response.block_number, Some(details.block_number));
    assert_eq!(response.gas_used, Some(details.gas_used));
    assert_eq!(response.gas_price, Some(details.gas_price));
    assert_eq!(response.confirmations, Some(details.confirmations));
    assert_eq!(response.created_at, record.created_at);
    assert_eq!(response.confirmed_at, record.confirmed_at);
}
