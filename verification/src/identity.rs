//! The identity tracker: which participant stands behind which audio source.
//!
//! The table itself is a `dashmap::DashMap`. Verus does not look inside it:
//! what the table holds is given a name, `table_contents`, and the three
//! calls that the tracker makes are wrapped in functions whose contracts are
//! taken on trust from the map's documented behaviour.

use vstd::prelude::*;
use dashmap::DashMap;
use crate::tick::SourceId;

verus! {

/// The stable identity of a human participant.
#[derive(Clone, Copy, Debug, PartialEq, Eq, Structural, Hash)]
pub struct ParticipantIdentity(pub u64);

/// `dashmap::DashMap`, carried as an opaque value.
#[verifier::external_type_specification]
#[verifier::external_body]
#[verifier::reject_recursive_types(K)]
#[verifier::reject_recursive_types(V)]
#[verifier::reject_recursive_types(S)]
pub struct ExDashMap<K, V, S>(DashMap<K, V, S>);

/// The key-value pairs that a table holds.
pub uninterp spec fn table_contents(table: DashMap<u32, u64>) -> Map<u32, u64>;

/// `DashMap::new`: trusted to give a table that holds nothing.
#[verifier::external_body]
fn table_new() -> (table: DashMap<u32, u64>)
    ensures
        table_contents(table) == (Map::<u32, u64>::empty()),
{
    DashMap::new()
}

/// `DashMap::insert`, called by the table's only holder: trusted to bind
/// `key` to `value`, to leave every other key as it was, and to hand back the
/// value that `key` had before, if it had one.
#[verifier::external_body]
fn table_insert(table: &mut DashMap<u32, u64>, key: u32, value: u64) -> (previous: Option<u64>)
    ensures
        table_contents(*final(table)) == table_contents(*old(table)).insert(key, value),
        previous == if table_contents(*old(table)).dom().contains(key) {
            Some(table_contents(*old(table))[key])
        } else {
            None
        },
{
    table.insert(key, value)
}

/// `DashMap::get`, the value copied out of the guard that it returns: trusted
/// to give the value bound to `key`, or nothing when `key` is not bound.
#[verifier::external_body]
fn table_get(table: &DashMap<u32, u64>, key: u32) -> (found: Option<u64>)
    ensures
        found == if table_contents(*table).dom().contains(key) {
            Some(table_contents(*table)[key])
        } else {
            None
        },
{
    match table.get(&key) {
        Some(entry) => Some(*entry.value()),
        None => None,
    }
}

/// Maps each audio source seen so far to the participant last announced for
/// it. Entries are never removed.
///
/// Changes go through `&mut self`: whoever shares a tracker between callers
/// puts it behind a lock, which also orders their updates.
pub struct IdentityTracker {
    table: DashMap<u32, u64>,
}

impl View for IdentityTracker {
    type V = Map<SourceId, ParticipantIdentity>;

    closed spec fn view(&self) -> Map<SourceId, ParticipantIdentity> {
        Map::new(
            |source: SourceId| table_contents(self.table).dom().contains(source),
            |source: SourceId| ParticipantIdentity(table_contents(self.table)[source]),
        )
    }
}

impl IdentityTracker {
    /// A tracker that has observed nothing.
    pub fn new() -> (tracker: IdentityTracker)
        ensures
            tracker@ == Map::<SourceId, ParticipantIdentity>::empty(),
    {
        let tracker = IdentityTracker { table: table_new() };
        assert(tracker@ =~= Map::<SourceId, ParticipantIdentity>::empty());
        tracker
    }

    /// Records that `source` belongs to `identity`, whatever was recorded for
    /// it before. Every other source keeps what it had.
    pub fn observe(&mut self, source: SourceId, identity: ParticipantIdentity)
        ensures
            final(self)@ == old(self)@.insert(source, identity),
    {
        let _ = table_insert(&mut self.table, source, identity.0);
        assert(self@ =~= old(self)@.insert(source, identity));
    }

    /// The participant last observed for `source`, or `None` if it was never
    /// observed.
    pub fn lookup(&self, source: SourceId) -> (found: Option<ParticipantIdentity>)
        ensures
            found == if self@.dom().contains(source) {
                Some(self@[source])
            } else {
                None
            },
    {
        match table_get(&self.table, source) {
            Some(raw) => Some(ParticipantIdentity(raw)),
            None => None,
        }
    }
}

/// The last observation wins: after two observations of one source the
/// tracker knows the second identity, exactly as if the first had never been
/// made, and a source that was not observed stays unknown.
pub proof fn lemma_last_observation_wins(
    known: Map<SourceId, ParticipantIdentity>,
    source: SourceId,
    first: ParticipantIdentity,
    second: ParticipantIdentity,
    other: SourceId,
)
    ensures
        known.insert(source, first).insert(source, second).dom().contains(source),
        known.insert(source, first).insert(source, second)[source] == second,
        known.insert(source, first).insert(source, second) == known.insert(source, second),
        other != source ==> (known.insert(source, first).insert(source, second).dom().contains(other)
            <==> known.dom().contains(other)),
{
    assert(known.insert(source, first).insert(source, second) =~= known.insert(source, second));
}

} // verus!
