//! The caller-facing snapshot of one mint: the record's fields with the
//! attached transaction metadata flattened beside them, absent where no
//! metadata is attached.

use vstd::prelude::*;
use crate::blockchain_sim::MintStatus;
use crate::blockchain_sim::MintingStatus;
use crate::blockchain_sim::MintingStatusView;

verus! {

/// What a caller polling a mint receives.
#[derive(Debug)]
pub struct MintStatusResponse {
    pub mint_id: String,
    pub status: MintStatus,
    pub transaction_hash: Option<String>,
    pub block_number: Option<u64>,
    pub gas_used: Option<u64>,
    pub gas_price: Option<u64>,
    pub confirmations: Option<u32>,
    pub created_at: u64,
    pub confirmed_at: Option<u64>,
}

/// Mathematical image of a `MintStatusResponse` value.
pub struct MintStatusResponseView {
    pub mint_id: Seq<char>,
    pub status: MintStatus,
    pub transaction_hash: Option<Seq<char>>,
    pub block_number: Option<u64>,
    pub gas_used: Option<u64>,
    pub gas_price: Option<u64>,
    pub confirmations: Option<u32>,
    pub created_at: u64,
    pub confirmed_at: Option<u64>,
}

impl View for MintStatusResponse {
    type V = MintStatusResponseView;

    open spec fn view(&self) -> MintStatusResponseView {
        MintStatusResponseView {
            mint_id: self.mint_id@,
            status: self.status,
            transaction_hash: match self.transaction_hash {
                Some(h) => Some(h@),
                None => None,
            },
            block_number: self.block_number,
            gas_used: self.gas_used,
            gas_price: self.gas_price,
            confirmations: self.confirmations,
            created_at: self.created_at,
            confirmed_at: self.confirmed_at,
        }
    }
}

/// The response a record flattens to: every transaction field is taken
/// from the attached metadata, or absent when none is attached.
pub open spec fn response_of(r: MintingStatusView) -> MintStatusResponseView {
    MintStatusResponseView {
        mint_id: r.mint_id,
        status: r.status,
        transaction_hash: match r.transaction_details {
            Some(d) => Some(d.transaction_hash),
            None => None,
        },
        block_number: match r.transaction_details {
            Some(d) => Some(d.block_number),
            None => None,
        },
        gas_used: match r.transaction_details {
            Some(d) => Some(d.gas_used),
            None => None,
        },
        gas_price: match r.transaction_details {
            Some(d) => Some(d.gas_price),
            None => None,
        },
        confirmations: match r.transaction_details {
            Some(d) => Some(d.confirmations),
            None => None,
        },
        created_at: r.created_at,
        confirmed_at: r.confirmed_at,
    }
}

impl MintStatusResponse {
    /// Flatten a record into the caller-facing snapshot.
    pub fn from_record(rec: &MintingStatus) -> (r: MintStatusResponse)
        ensures
            r@ == response_of(rec@),
    {
        let (transaction_hash, block_number, gas_used, gas_price, confirmations) =
            match &rec.transaction_details {
                Some(d) => (
                    Some(d.transaction_hash.clone()),
                    Some(d.block_number),
                    Some(d.gas_used),
                    Some(d.gas_price),
                    Some(d.confirmations),
                ),
                None => (None, None, None, None, None),
            };
        MintStatusResponse {
            mint_id: rec.mint_id.clone(),
            status: rec.status,
            transaction_hash,
            block_number,
            gas_used,
            gas_price,
            confirmations,
            created_at: rec.created_at,
            confirmed_at: rec.confirmed_at,
        }
    }
}

} // verus!
