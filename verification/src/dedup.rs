//! Per-source sequence-number deduplication.
//!
//! The scanner remembers, for up to sixteen sources, the measurement
//! sequence number last seen from that source's MAC address.  A
//! report that repeats the remembered pair is a duplicate and is
//! dropped; a report from a seventeenth source finds the table full
//! and passes through unremembered — duplicating fresh data is
//! preferred to dropping it.  The table itself is a fixed-capacity
//! insertion-ordered hash map from the `heapless` crate, keyed by
//! the MAC packed into an integer; what it holds is named by
//! `table_entries`, and each operation is trusted to act on that map
//! as the crate's source shows.

use vstd::prelude::*;

verus! {

/// The capacity of the table.
pub const DEDUP_CAPACITY: usize = 16;

/// A fixed-capacity insertion-ordered map from packed MAC address to
/// last-seen sequence number, with room for sixteen sources.
#[verifier::external_body]
pub struct SeqTable {
    map: heapless::index_map::FnvIndexMap<u64, u32, 16>,
}

/// The key-to-sequence map a table holds.
pub uninterp spec fn table_entries(t: SeqTable) -> Map<u64, u32>;

/// Relies on heapless `IndexMap::new`: a new map is empty.
#[verifier::external_body]
pub fn table_new() -> (t: SeqTable)
    ensures
        table_entries(t) == (Map::<u64, u32>::empty()),
{
    SeqTable { map: heapless::index_map::FnvIndexMap::new() }
}

/// Relies on heapless `IndexMap::get`: the value stored under the
/// key, if any.
#[verifier::external_body]
pub fn table_get(t: &SeqTable, key: u64) -> (r: Option<u32>)
    ensures
        r == if table_entries(*t).contains_key(key) {
            Some(table_entries(*t)[key])
        } else {
            None::<u32>
        },
{
    t.map.get(&key).copied()
}

/// Relies on heapless `IndexMap::insert`: an existing key is updated
/// in place; a new key is inserted while there is room; a new key in
/// a full map is refused and the map left as it was.
#[verifier::external_body]
pub fn table_insert(t: &mut SeqTable, key: u64, value: u32) -> (r: Result<Option<u32>, ()>)
    ensures
        table_entries(*old(t)).dom().finite(),
        table_entries(*old(t)).dom().len() <= DEDUP_CAPACITY,
        table_entries(*old(t)).contains_key(key) || table_entries(*old(t)).dom().len() < DEDUP_CAPACITY ==> r
            is Ok && table_entries(*final(t)) == table_entries(*old(t)).insert(key, value),
        !(table_entries(*old(t)).contains_key(key) || table_entries(*old(t)).dom().len() < DEDUP_CAPACITY) ==> r
            is Err && table_entries(*final(t)) == table_entries(*old(t)),
{
    t.map.insert(key, value).map_err(|_| ())
}

} // verus!
