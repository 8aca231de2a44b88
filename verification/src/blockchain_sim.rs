//! Synthetic transaction metadata for simulated mints.
//!
//! The generator draws random but realistic-looking values (hash, block
//! number, gas figures, confirmation delay) from the process-wide random
//! source. Everything except the two trusted leaves (the random sampler
//! and the wall clock) is verified.

use vstd::prelude::*;
use vstd::string::StringExecFns;
use rand::Rng;
use std::time::SystemTime;
use std::time::UNIX_EPOCH;

verus! {

/// Baseline chain height; a fresh block number is this plus a small offset.
pub const BASE_BLOCK_NUMBER: u64 = 19_000_000;

/// A generated block number exceeds the baseline by less than this.
pub const BLOCK_NUMBER_SPREAD: u64 = 1000;

/// Gas used by a mint is sampled from `MIN_GAS_USED..MAX_GAS_USED`.
pub const MIN_GAS_USED: u64 = 150_000;
pub const MAX_GAS_USED: u64 = 300_000;

/// Gas price in wei is sampled from `MIN_GAS_PRICE..MAX_GAS_PRICE`.
pub const MIN_GAS_PRICE: u64 = 20_000_000_000;
pub const MAX_GAS_PRICE: u64 = 50_000_000_000;

/// A confirmation delay is sampled from
/// `MIN_CONFIRMATION_DELAY..MAX_CONFIRMATION_DELAY` time units.
pub const MIN_CONFIRMATION_DELAY: u64 = 30;
pub const MAX_CONFIRMATION_DELAY: u64 = 60;

/// Canonical confirmation count reported once a transaction confirms.
pub const CONFIRMATION_COUNT: u32 = 12;

/// Status of the synthetic on-chain transaction attached to a mint.
#[derive(Clone, Copy, Debug, PartialEq, Eq, Structural)]
pub enum TransactionStatus {
    Pending,
    Confirmed,
    Failed,
}

/// Lifecycle state of a mint record.
#[derive(Clone, Copy, Debug, PartialEq, Eq, Structural)]
pub enum MintStatus {
    Pending,
    Confirming,
    Confirmed,
    Failed,
}

/// Synthetic transaction metadata attached to a mint at registration.
#[derive(Debug)]
pub struct TransactionDetails {
    pub transaction_hash: String,
    pub block_number: u64,
    pub gas_used: u64,
    pub gas_price: u64,
    pub status: TransactionStatus,
    pub timestamp: u64,
    pub confirmations: u32,
}

/// Mathematical image of a `TransactionDetails` value.
pub struct TransactionDetailsView {
    pub transaction_hash: Seq<char>,
    pub block_number: u64,
    pub gas_used: u64,
    pub gas_price: u64,
    pub status: TransactionStatus,
    pub timestamp: u64,
    pub confirmations: u32,
}

impl View for TransactionDetails {
    type V = TransactionDetailsView;

    open spec fn view(&self) -> TransactionDetailsView {
        TransactionDetailsView {
            transaction_hash: self.transaction_hash@,
            block_number: self.block_number,
            gas_used: self.gas_used,
            gas_price: self.gas_price,
            status: self.status,
            timestamp: self.timestamp,
            confirmations: self.confirmations,
        }
    }
}

impl Clone for TransactionDetails {
    fn clone(&self) -> (res: Self)
        ensures
            res@ == self@,
    {
        TransactionDetails {
            transaction_hash: self.transaction_hash.clone(),
            block_number: self.block_number,
            gas_used: self.gas_used,
            gas_price: self.gas_price,
            status: self.status,
            timestamp: self.timestamp,
            confirmations: self.confirmations,
        }
    }
}

/// One in-flight simulated mint: identity, lifecycle state, attached
/// transaction metadata, and the timestamps the scheduler's rules read.
///
/// `confirmation_delay` is sampled once at registration and stored here,
/// so that the `Confirming -> Confirmed` transition is deterministic in
/// the record and the current time.
#[derive(Debug)]
pub struct MintingStatus {
    pub mint_id: String,
    pub status: MintStatus,
    pub transaction_details: Option<TransactionDetails>,
    pub created_at: u64,
    pub confirmed_at: Option<u64>,
    pub confirmation_delay: u64,
}

/// Mathematical image of a `MintingStatus` value.
pub struct MintingStatusView {
    pub mint_id: Seq<char>,
    pub status: MintStatus,
    pub transaction_details: Option<TransactionDetailsView>,
    pub created_at: u64,
    pub confirmed_at: Option<u64>,
    pub confirmation_delay: u64,
}

impl View for MintingStatus {
    type V = MintingStatusView;

    open spec fn view(&self) -> MintingStatusView {
        MintingStatusView {
            mint_id: self.mint_id@,
            status: self.status,
            transaction_details: match self.transaction_details {
                Some(d) => Some(d@),
                None => None,
            },
            created_at: self.created_at,
            confirmed_at: self.confirmed_at,
            confirmation_delay: self.confirmation_delay,
        }
    }
}

impl Clone for MintingStatus {
    fn clone(&self) -> (res: Self)
        ensures
            res@ == self@,
    {
        MintingStatus {
            mint_id: self.mint_id.clone(),
            status: self.status,
            transaction_details: match &self.transaction_details {
                Some(d) => Some(d.clone()),
                None => None,
            },
            created_at: self.created_at,
            confirmed_at: self.confirmed_at,
            confirmation_delay: self.confirmation_delay,
        }
    }
}

/// One lowercase hexadecimal digit.
pub open spec fn is_hex_digit(c: char) -> bool {
    c == '0' || c == '1' || c == '2' || c == '3' || c == '4' || c == '5' || c == '6' || c == '7'
        || c == '8' || c == '9' || c == 'a' || c == 'b' || c == 'c' || c == 'd' || c == 'e'
        || c == 'f'
}

/// Shape of a generated transaction hash: `0x` followed by 64 hex digits.
pub open spec fn is_transaction_hash(s: Seq<char>) -> bool {
    &&& s.len() == 66
    &&& s[0] == '0'
    &&& s[1] == 'x'
    &&& forall|i: int| 2 <= i < 66 ==> is_hex_digit(#[trigger] s[i])
}

/// Relies on `rand::thread_rng` and `rand::Rng::gen_range`: returns a value
/// uniformly sampled from the half-open range `lo..hi`. `gen_range` panics
/// on an empty range, so the range is required to be non-empty.
#[verifier::external_body]
fn random_u64_in(lo: u64, hi: u64) -> (r: u64)
    requires
        lo < hi,
    ensures
        lo <= r < hi,
{
    rand::thread_rng().gen_range(lo..hi)
}

fn hex_digit_str(d: u64) -> (r: &'static str)
    requires
        d < 16,
    ensures
        r@.len() == 1,
        is_hex_digit(r@[0]),
{
    if d == 0 {
        proof { reveal_strlit("0"); }
        "0"
    } else if d == 1 {
        proof { reveal_strlit("1"); }
        "1"
    } else if d == 2 {
        proof { reveal_strlit("2"); }
        "2"
    } else if d == 3 {
        proof { reveal_strlit("3"); }
        "3"
    } else if d == 4 {
        proof { reveal_strlit("4"); }
        "4"
    } else if d == 5 {
        proof { reveal_strlit("5"); }
        "5"
    } else if d == 6 {
        proof { reveal_strlit("6"); }
        "6"
    } else if d == 7 {
        proof { reveal_strlit("7"); }
        "7"
    } else if d == 8 {
        proof { reveal_strlit("8"); }
        "8"
    } else if d == 9 {
        proof { reveal_strlit("9"); }
        "9"
    } else if d == 10 {
        proof { reveal_strlit("a"); }
        "a"
    } else if d == 11 {
        proof { reveal_strlit("b"); }
        "b"
    } else if d == 12 {
        proof { reveal_strlit("c"); }
        "c"
    } else if d == 13 {
        proof { reveal_strlit("d"); }
        "d"
    } else if d == 14 {
        proof { reveal_strlit("e"); }
        "e"
    } else {
        proof { reveal_strlit("f"); }
        "f"
    }
}

/// Stateless source of synthetic transaction metadata.
pub struct BlockchainSimulator;

impl BlockchainSimulator {
    /// Generate a random transaction hash: `0x` plus 64 hex digits.
    pub fn generate_transaction_hash() -> (r: String)
        ensures
            is_transaction_hash(r@),
    {
        let mut s = String::from_str("0x");
        proof { reveal_strlit("0x"); }
        let mut i: usize = 0;
        while i < 64
            invariant
                i <= 64,
                s@.len() == 2 + i,
                s@[0] == '0',
                s@[1] == 'x',
                forall|j: int| 2 <= j < s@.len() ==> is_hex_digit(#[trigger] s@[j]),
            decreases 64 - i,
        {
            let d = random_u64_in(0, 16);
            s.append(hex_digit_str(d));
            i = i + 1;
        }
        s
    }

    /// Generate a block number: the baseline height plus a positive offset.
    pub fn generate_block_number() -> (r: u64)
        ensures
            BASE_BLOCK_NUMBER < r < BASE_BLOCK_NUMBER + BLOCK_NUMBER_SPREAD,
    {
        let offset = random_u64_in(1, BLOCK_NUMBER_SPREAD);
        BASE_BLOCK_NUMBER + offset
    }

    /// Generate gas usage typical for a mint operation.
    pub fn generate_gas_used() -> (r: u64)
        ensures
            MIN_GAS_USED <= r < MAX_GAS_USED,
    {
        random_u64_in(MIN_GAS_USED, MAX_GAS_USED)
    }

    /// Generate a gas price in wei.
    pub fn generate_gas_price() -> (r: u64)
        ensures
            MIN_GAS_PRICE <= r < MAX_GAS_PRICE,
    {
        random_u64_in(MIN_GAS_PRICE, MAX_GAS_PRICE)
    }

    /// Relies on `std::time::SystemTime::now` and
    /// `SystemTime::duration_since`: returns the current time as whole
    /// seconds since the Unix epoch (0 if the clock reads before the epoch).
    /// Nothing can be promised of a clock reading.
    #[verifier::external_body]
    pub fn current_timestamp() -> u64 {
        match SystemTime::now().duration_since(UNIX_EPOCH) {
            Ok(d) => d.as_secs(),
            Err(_) => 0,
        }
    }

    /// Sample the confirmation delay granted to a fresh mint.
    pub fn get_confirmation_delay() -> (r: u64)
        ensures
            MIN_CONFIRMATION_DELAY <= r < MAX_CONFIRMATION_DELAY,
    {
        random_u64_in(MIN_CONFIRMATION_DELAY, MAX_CONFIRMATION_DELAY)
    }

    /// Create fresh transaction metadata for a newly registered mint.
    pub fn create_transaction_details() -> (d: TransactionDetails)
        ensures
            is_transaction_hash(d@.transaction_hash),
            BASE_BLOCK_NUMBER < d.block_number < BASE_BLOCK_NUMBER + BLOCK_NUMBER_SPREAD,
            MIN_GAS_USED <= d.gas_used < MAX_GAS_USED,
            MIN_GAS_PRICE <= d.gas_price < MAX_GAS_PRICE,
            d.status == TransactionStatus::Pending,
            d.confirmations == 0,
    {
        TransactionDetails {
            transaction_hash: Self::generate_transaction_hash(),
            block_number: Self::generate_block_number(),
            gas_used: Self::generate_gas_used(),
            gas_price: Self::generate_gas_price(),
            status: TransactionStatus::Pending,
            timestamp: Self::current_timestamp(),
            confirmations: 0,
        }
    }

    /// Mark a transaction as confirmed with the canonical confirmation count.
    pub fn confirm_transaction(tx: TransactionDetails) -> (r: TransactionDetails)
        ensures
            r.status == TransactionStatus::Confirmed,
            r.confirmations == CONFIRMATION_COUNT,
            r@.transaction_hash == tx@.transaction_hash,
            r.block_number == tx.block_number,
            r.gas_used == tx.gas_used,
            r.gas_price == tx.gas_price,
            r.timestamp == tx.timestamp,
    {
        let mut tx = tx;
        tx.status = TransactionStatus::Confirmed;
        tx.confirmations = CONFIRMATION_COUNT;
        tx
    }
}

} // verus!
