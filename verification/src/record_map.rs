//! The registry stores its records in a vector; contracts speak of the
//! map from mint identifier to record. This module defines that map and
//! proves how it evolves under the vector operations the registry uses.

use vstd::prelude::*;
use crate::blockchain_sim::MintingStatusView;

verus! {

/// No two records in the sequence share a mint identifier.
pub open spec fn unique_ids(s: Seq<MintingStatusView>) -> bool {
    forall|i: int, j: int| 0 <= i < j < s.len() ==> s[i].mint_id != s[j].mint_id
}

/// The map from mint identifier to record that a sequence of records
/// represents; on a duplicated identifier the later record wins.
pub open spec fn as_map(s: Seq<MintingStatusView>) -> Map<Seq<char>, MintingStatusView>
    decreases s.len(),
{
    if s.len() == 0 {
        Map::empty()
    } else {
        as_map(s.drop_last()).insert(s.last().mint_id, s.last())
    }
}

/// An identifier is in the map exactly when some record carries it.
pub proof fn lemma_as_map_contains(s: Seq<MintingStatusView>, k: Seq<char>)
    ensures
        as_map(s).contains_key(k) <==> exists|i: int| 0 <= i < s.len() && s[i].mint_id == k,
    decreases s.len(),
{
    if s.len() > 0 {
        lemma_as_map_contains(s.drop_last(), k);
        if s.last().mint_id == k {
            assert(s[s.len() - 1].mint_id == k);
        } else if as_map(s).contains_key(k) {
            let i = choose|i: int| 0 <= i < s.drop_last().len() && s.drop_last()[i].mint_id == k;
            assert(s[i].mint_id == k);
        } else if exists|i: int| 0 <= i < s.len() && s[i].mint_id == k {
            let i = choose|i: int| 0 <= i < s.len() && s[i].mint_id == k;
            assert(s.drop_last()[i].mint_id == k);
        }
    }
}

/// With unique identifiers, the map sends each record's identifier to
/// that record.
pub proof fn lemma_as_map_index(s: Seq<MintingStatusView>, i: int)
    requires
        unique_ids(s),
        0 <= i < s.len(),
    ensures
        as_map(s).contains_key(s[i].mint_id),
        as_map(s)[s[i].mint_id] == s[i],
    decreases s.len(),
{
    lemma_as_map_contains(s, s[i].mint_id);
    if i < s.len() - 1 {
        assert(s[i].mint_id != s.last().mint_id);
        assert(s.drop_last()[i] == s[i]);
        lemma_as_map_index(s.drop_last(), i);
    }
}

/// With unique identifiers, the map is finite and exactly as large as
/// the sequence.
pub proof fn lemma_as_map_len(s: Seq<MintingStatusView>)
    requires
        unique_ids(s),
    ensures
        as_map(s).dom().finite(),
        as_map(s).dom().len() == s.len(),
    decreases s.len(),
{
    if s.len() > 0 {
        lemma_as_map_len(s.drop_last());
        lemma_as_map_contains(s.drop_last(), s.last().mint_id);
        assert(forall|i: int| 0 <= i < s.drop_last().len()
            ==> s.drop_last()[i].mint_id != s.last().mint_id);
        assert(!as_map(s.drop_last()).contains_key(s.last().mint_id));
    }
}

/// Appending a record with a fresh identifier inserts it into the map.
pub proof fn lemma_as_map_push(s: Seq<MintingStatusView>, r: MintingStatusView)
    ensures
        as_map(s.push(r)) == as_map(s).insert(r.mint_id, r),
{
    assert(s.push(r).drop_last() =~= s);
    assert(s.push(r).last() == r);
}

/// Replacing the record at an index by one with the same identifier
/// re-inserts that identifier into the map.
pub proof fn lemma_as_map_update(s: Seq<MintingStatusView>, i: int, r: MintingStatusView)
    requires
        unique_ids(s),
        0 <= i < s.len(),
        r.mint_id == s[i].mint_id,
    ensures
        as_map(s.update(i, r)) == as_map(s).insert(r.mint_id, r),
    decreases s.len(),
{
    if i == s.len() - 1 {
        assert(s.update(i, r).drop_last() =~= s.drop_last());
        assert(s.update(i, r).last() == r);
        assert(as_map(s.drop_last()).insert(s.last().mint_id, s.last()).insert(r.mint_id, r)
            =~= as_map(s.drop_last()).insert(r.mint_id, r));
    } else {
        assert(s.update(i, r).drop_last() =~= s.drop_last().update(i, r));
        assert(s.update(i, r).last() == s.last());
        lemma_as_map_update(s.drop_last(), i, r);
        assert(s[i].mint_id != s.last().mint_id);
        assert(as_map(s.drop_last()).insert(r.mint_id, r).insert(s.last().mint_id, s.last())
            =~= as_map(s.drop_last()).insert(s.last().mint_id, s.last()).insert(r.mint_id, r));
    }
}

/// Removing the record at an index removes its identifier from the map.
pub proof fn lemma_as_map_remove(s: Seq<MintingStatusView>, i: int)
    requires
        unique_ids(s),
        0 <= i < s.len(),
    ensures
        as_map(s.remove(i)) == as_map(s).remove(s[i].mint_id),
    decreases s.len(),
{
    if i == s.len() - 1 {
        assert(s.remove(i) =~= s.drop_last());
        lemma_as_map_contains(s.drop_last(), s[i].mint_id);
        assert(forall|j: int| 0 <= j < s.drop_last().len()
            ==> s.drop_last()[j].mint_id != s.last().mint_id);
        assert(!as_map(s.drop_last()).contains_key(s.last().mint_id));
        assert(as_map(s.drop_last()).insert(s.last().mint_id, s.last()).remove(s.last().mint_id)
            =~= as_map(s.drop_last()));
    } else {
        assert(s.remove(i).drop_last() =~= s.drop_last().remove(i));
        assert(s.remove(i).last() == s.last());
        lemma_as_map_remove(s.drop_last(), i);
        assert(s[i].mint_id != s.last().mint_id);
        assert(as_map(s.drop_last()).remove(s[i].mint_id).insert(s.last().mint_id, s.last())
            =~= as_map(s.drop_last()).insert(s.last().mint_id, s.last()).remove(s[i].mint_id));
    }
}

} // verus!
