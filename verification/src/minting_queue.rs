//! The mint registry: an in-memory store of all live mint records,
//! keyed by mint identifier.
//!
//! The registry owns its records exclusively; callers receive copies,
//! never live handles. Its contracts speak of the map from identifier to
//! record (the registry's view). The scheduler's scan-and-mutate pass is
//! `tick`; the caller decides when a tick runs and with which clock
//! reading, which keeps the registry free of any background machinery
//! and deterministic under test.
//!
//! Two policy decisions the contracts make explicit: registering an
//! identifier that is already present replaces its record (the later
//! registration wins), and the `Failed` state is entered only through
//! `update_mint_status` — no time-based rule produces it, though the
//! scheduler does evict a `Failed` record after its retention window.

use vstd::prelude::*;
use vstd::pervasive::VecAdditionalExecFns;
use crate::blockchain_sim::BlockchainSimulator;
use crate::blockchain_sim::MintStatus;
use crate::blockchain_sim::MintingStatus;
use crate::blockchain_sim::MintingStatusView;
use crate::blockchain_sim::TransactionDetails;
use crate::blockchain_sim::TransactionStatus;
use crate::blockchain_sim::is_transaction_hash;
use crate::blockchain_sim::BASE_BLOCK_NUMBER;
use crate::blockchain_sim::BLOCK_NUMBER_SPREAD;
use crate::blockchain_sim::MIN_GAS_USED;
use crate::blockchain_sim::MAX_GAS_USED;
use crate::blockchain_sim::MIN_GAS_PRICE;
use crate::blockchain_sim::MAX_GAS_PRICE;
use crate::blockchain_sim::MIN_CONFIRMATION_DELAY;
use crate::blockchain_sim::MAX_CONFIRMATION_DELAY;
use crate::lifecycle::fresh_record;
use crate::lifecycle::lemma_step_wf;
use crate::lifecycle::record_wf;
use crate::lifecycle::status_applied;
use crate::lifecycle::status_can_advance;
use crate::lifecycle::step_keeps;
use crate::lifecycle::stepped;
use crate::lifecycle::tick_spec;
use crate::lifecycle::CONFIRMED_RETENTION;
use crate::lifecycle::FAILED_RETENTION;
use crate::lifecycle::PENDING_TO_CONFIRMING_DELAY;
use crate::record_map::as_map;
use crate::record_map::lemma_as_map_contains;
use crate::record_map::lemma_as_map_index;
use crate::record_map::lemma_as_map_len;
use crate::record_map::lemma_as_map_push;
use crate::record_map::lemma_as_map_remove;
use crate::record_map::lemma_as_map_update;
use crate::record_map::unique_ids;

verus! {

/// The views of a sequence of records.
pub open spec fn views_of(s: Seq<MintingStatus>) -> Seq<MintingStatusView> {
    s.map_values(|r: MintingStatus| r@)
}

/// In-memory registry of all live mint records.
#[derive(Debug)]
pub struct MintingQueue {
    records: Vec<MintingStatus>,
}

impl View for MintingQueue {
    type V = Map<Seq<char>, MintingStatusView>;

    closed spec fn view(&self) -> Map<Seq<char>, MintingStatusView> {
        as_map(views_of(self.records@))
    }
}

impl MintingQueue {
    /// Well-formedness: identifiers are unique and every stored record is
    /// internally consistent.
    pub closed spec fn wf(&self) -> bool {
        &&& unique_ids(views_of(self.records@))
        &&& forall|i: int|
            0 <= i < self.records@.len() ==> record_wf(#[trigger] views_of(self.records@)[i])
    }

    /// Create an empty registry.
    pub fn new() -> (q: Self)
        ensures
            q.wf(),
            q@ == Map::<Seq<char>, MintingStatusView>::empty(),
    {
        MintingQueue { records: Vec::new() }
    }

    /// Index of the record carrying `mint_id`, if any.
    fn find_index(&self, mint_id: &String) -> (r: Option<usize>)
        ensures
            match r {
                Some(i) => i < self.records@.len()
                    && views_of(self.records@)[i as int].mint_id == mint_id@,
                None => forall|j: int|
                    0 <= j < self.records@.len()
                        ==> views_of(self.records@)[j].mint_id != mint_id@,
            },
    {
        let n = self.records.len();
        let mut i: usize = 0;
        while i < n
            invariant
                i <= n,
                n == self.records@.len(),
                forall|j: int|
                    0 <= j < i ==> views_of(self.records@)[j].mint_id != mint_id@,
            decreases n - i,
        {
            if self.records[i].mint_id == *mint_id {
                return Some(i);
            }
            i = i + 1;
        }
        None
    }

    /// Store `rec` under its identifier, replacing any record that
    /// already carries it.
    fn put_record(&mut self, rec: MintingStatus)
        requires
            old(self).wf(),
            record_wf(rec@),
        ensures
            final(self).wf(),
            final(self)@ == old(self)@.insert(rec@.mint_id, rec@),
    {
        let ghost vs = views_of(self.records@);
        match self.find_index(&rec.mint_id) {
            Some(i) => {
                proof {
                    lemma_as_map_update(vs, i as int, rec@);
                }
                self.records.set(i, rec);
                proof {
                    assert(views_of(self.records@) =~= vs.update(i as int, rec@));
                }
            }
            None => {
                proof {
                    lemma_as_map_push(vs, rec@);
                }
                self.records.push(rec);
                proof {
                    assert(views_of(self.records@) =~= vs.push(rec@));
                }
            }
        }
    }

    /// Register a mint at an explicit time, with explicit transaction
    /// metadata and confirmation delay. The record is stored under
    /// `mint_id` (replacing any record already there) and a copy is
    /// returned.
    pub fn add_mint_at(
        &mut self,
        mint_id: String,
        details: TransactionDetails,
        confirmation_delay: u64,
        now: u64,
    ) -> (r: MintingStatus)
        requires
            old(self).wf(),
            details@.status == TransactionStatus::Pending,
            details@.confirmations == 0,
        ensures
            final(self).wf(),
            r@ == fresh_record(mint_id@, details@, confirmation_delay, now),
            record_wf(r@),
            final(self)@ == old(self)@.insert(mint_id@, r@),
    {
        let rec = MintingStatus {
            mint_id,
            status: MintStatus::Pending,
            transaction_details: Some(details),
            created_at: now,
            confirmed_at: None,
            confirmation_delay,
        };
        let out = rec.clone();
        self.put_record(rec);
        out
    }

    /// Register a new mint: create a `Pending` record carrying fresh
    /// transaction metadata, a sampled confirmation delay and the current
    /// time, store it under `mint_id` (replacing any record already
    /// there), and return a copy.
    pub fn add_mint(&mut self, mint_id: String) -> (r: MintingStatus)
        requires
            old(self).wf(),
        ensures
            final(self).wf(),
            final(self)@ == old(self)@.insert(mint_id@, r@),
            r@.mint_id == mint_id@,
            r@.status == MintStatus::Pending,
            r@.confirmed_at is None,
            r@.transaction_details is Some,
            record_wf(r@),
            is_transaction_hash(r@.transaction_details->Some_0.transaction_hash),
            BASE_BLOCK_NUMBER < r@.transaction_details->Some_0.block_number
                < BASE_BLOCK_NUMBER + BLOCK_NUMBER_SPREAD,
            MIN_GAS_USED <= r@.transaction_details->Some_0.gas_used < MAX_GAS_USED,
            MIN_GAS_PRICE <= r@.transaction_details->Some_0.gas_price < MAX_GAS_PRICE,
            r@.transaction_details->Some_0.status == TransactionStatus::Pending,
            r@.transaction_details->Some_0.confirmations == 0,
            MIN_CONFIRMATION_DELAY <= r@.confirmation_delay < MAX_CONFIRMATION_DELAY,
    {
        let details = BlockchainSimulator::create_transaction_details();
        let delay = BlockchainSimulator::get_confirmation_delay();
        let now = BlockchainSimulator::current_timestamp();
        self.add_mint_at(mint_id, details, delay, now)
    }

    /// Look up a mint by identifier and return a snapshot copy of its
    /// record, or nothing when no record carries the identifier.
    pub fn get_mint_status(&self, mint_id: &str) -> (r: Option<MintingStatus>)
        requires
            self.wf(),
        ensures
            match r {
                Some(rec) => self@.contains_key(mint_id@) && rec@ == self@[mint_id@]
                    && record_wf(rec@),
                None => !self@.contains_key(mint_id@),
            },
    {
        let key = mint_id.to_owned();
        match self.find_index(&key) {
            Some(i) => {
                proof {
                    lemma_as_map_index(views_of(self.records@), i as int);
                }
                Some(self.records[i].clone())
            }
            None => {
                proof {
                    lemma_as_map_contains(views_of(self.records@), mint_id@);
                }
                None
            }
        }
    }

    /// Set the status of the record carrying `mint_id` as of an explicit
    /// time; a no-op when no record carries the identifier. Entering
    /// `Confirmed` marks the attached transaction confirmed and stamps
    /// the confirmation time, unless one is already set: the
    /// confirmation time is set exactly once. A status never moves
    /// backward.
    pub fn update_mint_status_at(&mut self, mint_id: &str, status: MintStatus, now: u64)
        requires
            old(self).wf(),
            old(self)@.contains_key(mint_id@)
                ==> status_can_advance(old(self)@[mint_id@].status, status),
        ensures
            final(self).wf(),
            old(self)@.contains_key(mint_id@) ==> final(self)@ == old(self)@.insert(
                mint_id@,
                status_applied(old(self)@[mint_id@], status, now),
            ),
            !old(self)@.contains_key(mint_id@) ==> final(self)@ == old(self)@,
    {
        let ghost vs = views_of(self.records@);
        let key = mint_id.to_owned();
        match self.find_index(&key) {
            Some(i) => {
                proof {
                    lemma_as_map_index(vs, i as int);
                }
                let mut rec = self.records[i].clone();
                rec.status = status;
                if status == MintStatus::Confirmed {
                    if rec.confirmed_at.is_none() {
                        rec.confirmed_at = Some(now);
                    }
                    let details = rec.transaction_details;
                    rec.transaction_details = match details {
                        Some(d) => Some(BlockchainSimulator::confirm_transaction(d)),
                        None => None,
                    };
                }
                proof {
                    lemma_as_map_update(vs, i as int, rec@);
                }
                self.records.set(i, rec);
                proof {
                    assert(views_of(self.records@) =~= vs.update(i as int, rec@));
                }
            }
            None => {
                proof {
                    lemma_as_map_contains(vs, mint_id@);
                }
            }
        }
    }

    /// Set the status of the record carrying `mint_id` as of the current
    /// wall-clock time; a no-op when no record carries the identifier.
    pub fn update_mint_status(&mut self, mint_id: &str, status: MintStatus)
        requires
            old(self).wf(),
            old(self)@.contains_key(mint_id@)
                ==> status_can_advance(old(self)@[mint_id@].status, status),
        ensures
            final(self).wf(),
            old(self)@.contains_key(mint_id@) ==> exists|t: u64|
                final(self)@ == old(self)@.insert(
                    mint_id@,
                    status_applied(old(self)@[mint_id@], status, t),
                ),
            !old(self)@.contains_key(mint_id@) ==> final(self)@ == old(self)@,
    {
        let now = BlockchainSimulator::current_timestamp();
        self.update_mint_status_at(mint_id, status, now);
        proof {
            if old(self)@.contains_key(mint_id@) {
                assert(self@ == old(self)@.insert(
                    mint_id@,
                    status_applied(old(self)@[mint_id@], status, now),
                ));
            }
        }
    }

    /// Remove the record carrying `mint_id`; a no-op when no record
    /// carries the identifier.
    pub fn remove_mint(&mut self, mint_id: &str)
        requires
            old(self).wf(),
        ensures
            final(self).wf(),
            final(self)@ == old(self)@.remove(mint_id@),
    {
        let ghost vs = views_of(self.records@);
        let key = mint_id.to_owned();
        match self.find_index(&key) {
            Some(i) => {
                proof {
                    lemma_as_map_remove(vs, i as int);
                }
                let _ = self.records.remove(i);
                proof {
                    assert(views_of(self.records@) =~= vs.remove(i as int));
                }
            }
            None => {
                proof {
                    lemma_as_map_contains(vs, mint_id@);
                    assert(as_map(vs).remove(mint_id@) =~= as_map(vs));
                }
            }
        }
    }

    /// Apply one scheduler step to one record: the transitioned record,
    /// or nothing when the record is due for eviction.
    fn step_record_exec(r: &MintingStatus, now: u64) -> (res: Option<MintingStatus>)
        ensures
            res is Some <==> step_keeps(r@, now),
            res matches Some(r2) ==> r2@ == stepped(r@, now),
    {
        match r.status {
            MintStatus::Pending => {
                if now >= r.created_at && now - r.created_at >= PENDING_TO_CONFIRMING_DELAY {
                    let mut r2 = r.clone();
                    r2.status = MintStatus::Confirming;
                    Some(r2)
                } else {
                    Some(r.clone())
                }
            }
            MintStatus::Confirming => {
                if now >= r.created_at && now - r.created_at >= r.confirmation_delay {
                    let mut r2 = r.clone();
                    r2.status = MintStatus::Confirmed;
                    if r2.confirmed_at.is_none() {
                        r2.confirmed_at = Some(now);
                    }
                    let details = r2.transaction_details;
                    r2.transaction_details = match details {
                        Some(d) => Some(BlockchainSimulator::confirm_transaction(d)),
                        None => None,
                    };
                    Some(r2)
                } else {
                    Some(r.clone())
                }
            }
            MintStatus::Confirmed => match r.confirmed_at {
                Some(c) => {
                    if now >= c && now - c >= CONFIRMED_RETENTION {
                        None
                    } else {
                        Some(r.clone())
                    }
                }
                None => Some(r.clone()),
            },
            MintStatus::Failed => {
                if now >= r.created_at && now - r.created_at >= FAILED_RETENTION {
                    None
                } else {
                    Some(r.clone())
                }
            }
        }
    }

    /// One scheduler tick at time `now`: every record is stepped by the
    /// lifecycle rules and the evicted ones leave the registry.
    pub fn tick(&mut self, now: u64)
        requires
            old(self).wf(),
        ensures
            final(self).wf(),
            final(self)@ == tick_spec(old(self)@, now),
    {
        let ghost vs = views_of(self.records@);
        let n = self.records.len();
        let mut kept: Vec<MintingStatus> = Vec::new();
        let mut i: usize = 0;
        while i < n
            invariant
                i <= n,
                n == self.records@.len(),
                views_of(self.records@) == vs,
                unique_ids(vs),
                forall|j: int| 0 <= j < vs.len() ==> record_wf(#[trigger] vs[j]),
                unique_ids(views_of(kept@)),
                forall|j: int|
                    0 <= j < kept@.len() ==> record_wf(#[trigger] views_of(kept@)[j]),
                forall|j: int| #![trigger views_of(kept@)[j]]
                    0 <= j < kept@.len() ==> exists|l: int|
                        0 <= l < i && views_of(kept@)[j].mint_id == vs[l].mint_id,
                as_map(views_of(kept@)) == tick_spec(as_map(vs.take(i as int)), now),
            decreases n - i,
        {
            let ghost pre = as_map(vs.take(i as int));
            let ghost kv = views_of(kept@);
            match Self::step_record_exec(&self.records[i], now) {
                Some(r2) => {
                    proof {
                        lemma_step_wf(vs[i as int], now);
                        assert forall|j: int| 0 <= j < kv.len()
                            implies kv[j].mint_id != r2@.mint_id by {
                            let l = choose|l: int|
                                0 <= l < i && kv[j].mint_id == vs[l].mint_id;
                            assert(vs[l].mint_id != vs[i as int].mint_id);
                        }
                        lemma_as_map_push(kv, r2@);
                    }
                    kept.push(r2);
                    proof {
                        assert(views_of(kept@) =~= kv.push(r2@));
                    }
                }
                None => {}
            }
            proof {
                assert(vs.take(i + 1) =~= vs.take(i as int).push(vs[i as int]));
                lemma_as_map_push(vs.take(i as int), vs[i as int]);
                lemma_as_map_contains(vs.take(i as int), vs[i as int].mint_id);
                assert(forall|l: int|
                    0 <= l < i ==> (#[trigger] vs.take(i as int)[l]).mint_id
                        != vs[i as int].mint_id);
                assert(!pre.contains_key(vs[i as int].mint_id));
                if step_keeps(vs[i as int], now) {
                    assert(tick_spec(pre.insert(vs[i as int].mint_id, vs[i as int]), now)
                        =~= tick_spec(pre, now).insert(
                        vs[i as int].mint_id,
                        stepped(vs[i as int], now),
                    ));
                } else {
                    assert(tick_spec(pre.insert(vs[i as int].mint_id, vs[i as int]), now)
                        =~= tick_spec(pre, now));
                }
            }
            i = i + 1;
        }
        proof {
            assert(vs.take(n as int) =~= vs);
        }
        self.records = kept;
    }

    /// Snapshot of every current record, in no promised order: exactly
    /// one copy per stored identifier, each equal to the stored record.
    pub fn get_pending_mints(&self) -> (r: Vec<MintingStatus>)
        requires
            self.wf(),
        ensures
            r@.len() == self@.dom().len(),
            forall|i: int| #![trigger r@[i]]
                0 <= i < r@.len() ==> self@.contains_key(r@[i]@.mint_id)
                    && self@[r@[i]@.mint_id] == r@[i]@,
            forall|i: int, j: int| 0 <= i < j < r@.len() ==> r@[i]@.mint_id != r@[j]@.mint_id,
    {
        let ghost vs = views_of(self.records@);
        let mut out: Vec<MintingStatus> = Vec::new();
        let n = self.records.len();
        let mut i: usize = 0;
        while i < n
            invariant
                i <= n,
                n == self.records@.len(),
                out@.len() == i,
                forall|j: int|
                    0 <= j < i ==> #[trigger] out@[j]@ == views_of(self.records@)[j],
            decreases n - i,
        {
            out.push(self.records[i].clone());
            i = i + 1;
        }
        proof {
            lemma_as_map_len(vs);
            assert forall|j: int| #![trigger out@[j]]
                0 <= j < out@.len() implies self@.contains_key(out@[j]@.mint_id)
                    && self@[out@[j]@.mint_id] == out@[j]@ by {
                lemma_as_map_index(vs, j);
            }
            assert forall|j: int, l: int| 0 <= j < l < out@.len()
                implies out@[j]@.mint_id != out@[l]@.mint_id by {
                assert(vs[j].mint_id != vs[l].mint_id);
            }
        }
        out
    }
}

/// A registry in state `m` after the registrations in `regs` have run,
/// one after the other: each pair is an identifier and the record stored
/// under it, as `add_mint` stores them.
pub open spec fn registered_all(
    m: Map<Seq<char>, MintingStatusView>,
    regs: Seq<(Seq<char>, MintingStatusView)>,
) -> Map<Seq<char>, MintingStatusView>
    decreases regs.len(),
{
    if regs.len() == 0 {
        m
    } else {
        registered_all(m, regs.drop_last()).insert(regs.last().0, regs.last().1)
    }
}

/// Registrations under distinct identifiers are independent: after any
/// number of them have run, every one is retrievable under its
/// identifier with the record it stored — no write is lost — and every
/// identifier none of them carries is exactly as it was before.
/// (Interleavings of concurrent callers reduce to such chains of
/// inserts, since every operation holds the registry exclusively for
/// its whole critical section.)
pub proof fn lemma_distinct_registrations(
    m: Map<Seq<char>, MintingStatusView>,
    regs: Seq<(Seq<char>, MintingStatusView)>,
)
    requires
        forall|i: int, j: int| 0 <= i < j < regs.len() ==> regs[i].0 != regs[j].0,
    ensures
        forall|i: int| #![trigger regs[i]]
            0 <= i < regs.len() ==> registered_all(m, regs).contains_key(regs[i].0)
                && registered_all(m, regs)[regs[i].0] == regs[i].1,
        forall|k: Seq<char>| #![trigger registered_all(m, regs).contains_key(k)]
            (forall|i: int| 0 <= i < regs.len() ==> (#[trigger] regs[i]).0 != k) ==> {
                &&& (registered_all(m, regs).contains_key(k) <==> m.contains_key(k))
                &&& (m.contains_key(k) ==> registered_all(m, regs)[k] == m[k])
            },
    decreases regs.len(),
{
    if regs.len() > 0 {
        lemma_distinct_registrations(m, regs.drop_last());
        assert forall|i: int| #![trigger regs[i]]
            0 <= i < regs.len() implies registered_all(m, regs).contains_key(regs[i].0)
                && registered_all(m, regs)[regs[i].0] == regs[i].1 by {
            if i < regs.len() - 1 {
                assert(regs.drop_last()[i] == regs[i]);
                assert(regs[i].0 != regs.last().0);
            }
        }
        assert forall|k: Seq<char>| #![trigger registered_all(m, regs).contains_key(k)]
            (forall|i: int| 0 <= i < regs.len() ==> (#[trigger] regs[i]).0 != k) implies {
                &&& (registered_all(m, regs).contains_key(k) <==> m.contains_key(k))
                &&& (m.contains_key(k) ==> registered_all(m, regs)[k] == m[k])
            } by {
            assert(forall|i: int|
                0 <= i < regs.drop_last().len() ==> (#[trigger] regs.drop_last()[i]).0 != k);
            assert(regs.last().0 != k);
        }
    }
}

impl Default for MintingQueue {
    /// An empty registry.
    fn default() -> (q: Self)
        ensures
            q.wf(),
            q@ == Map::<Seq<char>, MintingStatusView>::empty(),
    {
        MintingQueue::new()
    }
}

} // verus!
