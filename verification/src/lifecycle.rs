//! Time-based lifecycle rules for mint records.
//!
//! A record moves `Pending -> Confirming -> Confirmed`, or reaches
//! `Failed`, and a terminal record is eventually evicted. Every rule is
//! a pure function of the record and the current time; the scheduler
//! applies `step_record` to every record once per tick.

use vstd::prelude::*;
use crate::blockchain_sim::CONFIRMATION_COUNT;
use crate::blockchain_sim::MintStatus;
use crate::blockchain_sim::MintingStatusView;
use crate::blockchain_sim::TransactionDetailsView;
use crate::blockchain_sim::TransactionStatus;

verus! {

/// A `Pending` record becomes `Confirming` once this much time has passed
/// since its creation.
pub const PENDING_TO_CONFIRMING_DELAY: u64 = 3;

/// A `Confirmed` record is evicted once this much time has passed since
/// its confirmation.
pub const CONFIRMED_RETENTION: u64 = 300;

/// A `Failed` record is evicted once this much time has passed since its
/// creation.
pub const FAILED_RETENTION: u64 = 60;

/// True when at least `delta` time units have passed between `start` and
/// `now`. All threshold comparisons are inclusive: a record exactly at a
/// boundary transitions on that tick.
pub open spec fn reached(now: u64, start: u64, delta: u64) -> bool {
    start <= now && now - start >= delta
}

/// Position of a status along the lifecycle; both terminal states share
/// the highest rank.
pub open spec fn status_rank(s: MintStatus) -> int {
    match s {
        MintStatus::Pending => 0,
        MintStatus::Confirming => 1,
        MintStatus::Confirmed => 2,
        MintStatus::Failed => 2,
    }
}

/// A status may stay where it is or move strictly forward; in particular
/// no move between the two terminal states is allowed.
pub open spec fn status_can_advance(from: MintStatus, to: MintStatus) -> bool {
    from == to || status_rank(from) < status_rank(to)
}

/// Transaction metadata as it looks once the owning record confirms.
pub open spec fn confirmed_details(d: TransactionDetailsView) -> TransactionDetailsView {
    TransactionDetailsView {
        status: TransactionStatus::Confirmed,
        confirmations: CONFIRMATION_COUNT,
        ..d
    }
}

/// A record as it looks after `status` was set on it at time `now`:
/// entering `Confirmed` marks the attached transaction confirmed and
/// stamps the confirmation time — but only where none is set yet, since
/// the confirmation time is set exactly once; every other status leaves
/// the rest of the record untouched.
pub open spec fn status_applied(r: MintingStatusView, status: MintStatus, now: u64) -> MintingStatusView {
    if status == MintStatus::Confirmed {
        MintingStatusView {
            status,
            confirmed_at: if r.confirmed_at is Some {
                r.confirmed_at
            } else {
                Some(now)
            },
            transaction_details: match r.transaction_details {
                Some(d) => Some(confirmed_details(d)),
                None => None,
            },
            ..r
        }
    } else {
        MintingStatusView { status, ..r }
    }
}

/// A record as registration creates it at time `now`: `Pending`, not yet
/// confirmed, with its transaction metadata and sampled confirmation
/// delay attached.
pub open spec fn fresh_record(
    mint_id: Seq<char>,
    details: TransactionDetailsView,
    confirmation_delay: u64,
    now: u64,
) -> MintingStatusView {
    MintingStatusView {
        mint_id,
        status: MintStatus::Pending,
        transaction_details: Some(details),
        created_at: now,
        confirmed_at: None,
        confirmation_delay,
    }
}

/// One scheduler step applied to one record at time `now`: `Some` of the
/// (possibly transitioned) record, or `None` when the record is evicted.
pub open spec fn step_record(r: MintingStatusView, now: u64) -> Option<MintingStatusView> {
    match r.status {
        MintStatus::Pending => if reached(now, r.created_at, PENDING_TO_CONFIRMING_DELAY) {
            Some(MintingStatusView { status: MintStatus::Confirming, ..r })
        } else {
            Some(r)
        },
        MintStatus::Confirming => if reached(now, r.created_at, r.confirmation_delay) {
            Some(status_applied(r, MintStatus::Confirmed, now))
        } else {
            Some(r)
        },
        MintStatus::Confirmed => match r.confirmed_at {
            Some(c) => if reached(now, c, CONFIRMED_RETENTION) {
                None
            } else {
                Some(r)
            },
            None => Some(r),
        },
        MintStatus::Failed => if reached(now, r.created_at, FAILED_RETENTION) {
            None
        } else {
            Some(r)
        },
    }
}

/// True when the scheduler keeps the record at time `now`.
pub open spec fn step_keeps(r: MintingStatusView, now: u64) -> bool {
    step_record(r, now) is Some
}

/// The record the scheduler keeps at time `now` (meaningful only when
/// `step_keeps` holds).
pub open spec fn stepped(r: MintingStatusView, now: u64) -> MintingStatusView {
    step_record(r, now)->Some_0
}

/// One scheduler tick applied to a whole registry at time `now`: every
/// record is stepped independently and the evicted ones leave the map.
pub open spec fn tick_spec(
    m: Map<Seq<char>, MintingStatusView>,
    now: u64,
) -> Map<Seq<char>, MintingStatusView> {
    Map::new(
        |k: Seq<char>| m.dom().contains(k) && step_keeps(m[k], now),
        |k: Seq<char>| stepped(m[k], now),
    )
}

/// Internal consistency of one record, as every observer may rely on it:
/// the transaction metadata attached at registration is present and its
/// fields agree with the record's own status, and the confirmation time
/// is present exactly on a confirmed record.
pub open spec fn record_wf(r: MintingStatusView) -> bool {
    &&& r.transaction_details is Some
    &&& (r.status == MintStatus::Confirmed <==> r.confirmed_at is Some)
    &&& (r.status == MintStatus::Confirmed
        ==> r.transaction_details->Some_0.status == TransactionStatus::Confirmed
            && r.transaction_details->Some_0.confirmations == CONFIRMATION_COUNT)
    &&& (r.status != MintStatus::Confirmed
        ==> r.transaction_details->Some_0.status == TransactionStatus::Pending
            && r.transaction_details->Some_0.confirmations == 0)
}

/// Statuses never regress: whenever the scheduler keeps a record, its
/// status either stays or moves strictly forward along
/// `Pending -> Confirming -> Confirmed`; nothing else of a record that
/// does not transition changes.
pub proof fn lemma_step_monotonic(r: MintingStatusView, now: u64)
    ensures
        step_keeps(r, now) ==> status_can_advance(r.status, stepped(r, now).status),
        step_keeps(r, now) && stepped(r, now).status == r.status ==> stepped(r, now) == r,
{
}

/// Statuses never regress across a whole tick: every record that survives
/// a tick has a status at least as far along as before the tick.
pub proof fn lemma_tick_monotonic(m: Map<Seq<char>, MintingStatusView>, now: u64)
    ensures
        forall|k: Seq<char>|
            m.dom().contains(k) && #[trigger] tick_spec(m, now).dom().contains(k)
                ==> status_can_advance(m[k].status, tick_spec(m, now)[k].status),
{
    assert forall|k: Seq<char>|
        m.dom().contains(k) && #[trigger] tick_spec(m, now).dom().contains(k)
            implies status_can_advance(m[k].status, tick_spec(m, now)[k].status) by {
        lemma_step_monotonic(m[k], now);
    }
}

/// A `Pending` record is never evicted; it becomes `Confirming` exactly
/// when the pending delay has passed since its creation, and is untouched
/// before that.
pub proof fn lemma_pending_step(r: MintingStatusView, now: u64)
    requires
        r.status == MintStatus::Pending,
    ensures
        step_keeps(r, now),
        stepped(r, now).status == MintStatus::Confirming
            <==> reached(now, r.created_at, PENDING_TO_CONFIRMING_DELAY),
        !reached(now, r.created_at, PENDING_TO_CONFIRMING_DELAY) ==> stepped(r, now) == r,
        stepped(r, now) == (MintingStatusView { status: stepped(r, now).status, ..r }),
{
}

/// A `Confirming` record is never evicted; it becomes `Confirmed` exactly
/// when its sampled confirmation delay has passed since its creation, and
/// the confirmation then stamps the time and the canonical confirmation
/// count onto the record.
pub proof fn lemma_confirming_step(r: MintingStatusView, now: u64)
    requires
        r.status == MintStatus::Confirming,
        record_wf(r),
    ensures
        step_keeps(r, now),
        stepped(r, now).status == MintStatus::Confirmed
            <==> reached(now, r.created_at, r.confirmation_delay),
        !reached(now, r.created_at, r.confirmation_delay) ==> stepped(r, now) == r,
        reached(now, r.created_at, r.confirmation_delay) ==> {
            &&& stepped(r, now).confirmed_at == Some(now)
            &&& stepped(r, now).transaction_details->Some_0.status == TransactionStatus::Confirmed
            &&& stepped(r, now).transaction_details->Some_0.confirmations == CONFIRMATION_COUNT
            &&& record_wf(stepped(r, now))
        },
{
}

/// A `Confirmed` record survives a tick exactly as long as the retention
/// window since its confirmation has not yet passed, and it survives
/// unchanged.
pub proof fn lemma_confirmed_step(r: MintingStatusView, now: u64)
    requires
        r.status == MintStatus::Confirmed,
        record_wf(r),
    ensures
        step_keeps(r, now) <==> !reached(now, r.confirmed_at->Some_0, CONFIRMED_RETENTION),
        step_keeps(r, now) ==> stepped(r, now) == r,
{
}

/// Eviction of a confirmed record, seen on the whole registry: after a
/// tick at time `now`, a confirmed record is still present exactly when
/// the retention window since its confirmation has not yet passed.
pub proof fn lemma_confirmed_eviction(
    m: Map<Seq<char>, MintingStatusView>,
    k: Seq<char>,
    now: u64,
)
    requires
        m.dom().contains(k),
        m[k].status == MintStatus::Confirmed,
        record_wf(m[k]),
    ensures
        tick_spec(m, now).dom().contains(k)
            <==> !reached(now, m[k].confirmed_at->Some_0, CONFIRMED_RETENTION),
        tick_spec(m, now).dom().contains(k) ==> tick_spec(m, now)[k] == m[k],
{
    lemma_confirmed_step(m[k], now);
}

/// The confirmation time is set exactly once: no status update replaces
/// a confirmation time that is already set, and an update to the status
/// a record already has changes nothing at all — in particular a second
/// `Confirmed` keeps the original stamp.
pub proof fn lemma_confirmation_time_set_once(r: MintingStatusView, status: MintStatus, now: u64)
    ensures
        r.confirmed_at is Some ==> status_applied(r, status, now).confirmed_at == r.confirmed_at,
        record_wf(r) && status == r.status ==> status_applied(r, status, now) == r,
{
}

/// A scheduler step keeps a record internally consistent, and never
/// touches its identity, creation time or sampled delay.
pub proof fn lemma_step_wf(r: MintingStatusView, now: u64)
    requires
        record_wf(r),
    ensures
        step_keeps(r, now) ==> record_wf(stepped(r, now)),
        step_keeps(r, now) ==> stepped(r, now).mint_id == r.mint_id,
        step_keeps(r, now) ==> stepped(r, now).created_at == r.created_at,
        step_keeps(r, now) ==> stepped(r, now).confirmation_delay == r.confirmation_delay,
{
}

} // verus!
