//! One 20 ms window of the conversation: who is in it, and what each
//! audible source contributed.

use vstd::prelude::*;

verus! {

/// Identifies one audio-producing connection while it is active.
pub type SourceId = u32;

/// What is known of one raw voice packet.
#[derive(Clone, Copy, Debug, PartialEq, Eq, Structural)]
pub struct PacketInfo {
    pub source: SourceId,
    pub sequence: u16,
    pub timestamp: u32,
    pub payload_len: usize,
}

/// What one source gave in one tick. Decoded audio without a packet stands
/// for a frame that was synthesized to cover a loss.
#[derive(Clone, Debug)]
pub struct TickContribution {
    /// Decoded PCM, absent when decoding is off for the source.
    pub decoded: Option<Vec<i16>>,
    /// The packet that arrived for this window, absent when it was lost.
    pub packet: Option<PacketInfo>,
}

/// Whether a source was heard in a tick.
#[derive(Clone, Debug)]
pub enum SourceState {
    Silent,
    Speaking(TickContribution),
}

/// One participant of a tick.
#[derive(Clone, Debug)]
pub struct SourceEntry {
    pub id: SourceId,
    pub state: SourceState,
}

/// The decoded audio that an entry carries, if any.
pub open spec fn audio_of(entry: SourceEntry) -> Option<Seq<i16>> {
    match entry.state {
        SourceState::Speaking(contribution) => match contribution.decoded {
            Some(pcm) => Some(pcm@),
            None => None,
        },
        SourceState::Silent => None,
    }
}

/// Some entry belongs to `id`.
pub open spec fn has_source(entries: Seq<SourceEntry>, id: SourceId) -> bool {
    exists|k: int| 0 <= k < entries.len() && (#[trigger] entries[k]).id == id
}

/// No source appears twice.
pub open spec fn distinct_sources(entries: Seq<SourceEntry>) -> bool {
    forall|a: int, b: int|
        0 <= a < b < entries.len() ==> (#[trigger] entries[a]).id != (#[trigger] entries[b]).id
}

/// The sources that are listed as silent.
pub open spec fn silent_sources(entries: Seq<SourceEntry>) -> Set<SourceId> {
    Set::new(
        |id: SourceId|
            exists|k: int|
                0 <= k < entries.len() && (#[trigger] entries[k]).id == id
                    && entries[k].state is Silent,
    )
}

/// Whether the entry at `k` is the speaking entry of `id`.
pub open spec fn speaks_at(entries: Seq<SourceEntry>, id: SourceId, k: int) -> bool {
    0 <= k < entries.len() && entries[k].id == id && entries[k].state is Speaking
}

/// What each speaking source contributed, by source.
pub open spec fn contributions(entries: Seq<SourceEntry>) -> Map<SourceId, TickContribution> {
    Map::new(
        |id: SourceId| exists|k: int| speaks_at(entries, id, k),
        |id: SourceId| entries[choose|k: int| speaks_at(entries, id, k)].state->Speaking_0,
    )
}

/// Where no source appears twice, the entries are a set of silent sources
/// and a map of contributions that share no source: the entry at any
/// position is found in exactly one of the two, under its own source, and
/// with the contribution that it lists.
pub proof fn lemma_entries_are_a_set_and_a_map(entries: Seq<SourceEntry>, k: int)
    requires
        distinct_sources(entries),
        0 <= k < entries.len(),
    ensures
        silent_sources(entries).disjoint(contributions(entries).dom()),
        entries[k].state is Silent ==> silent_sources(entries).contains(entries[k].id),
        entries[k].state matches SourceState::Speaking(contribution) ==> {
            &&& contributions(entries).dom().contains(entries[k].id)
            &&& contributions(entries)[entries[k].id] == contribution
        },
{
    assert forall|id: SourceId|
        !(silent_sources(entries).contains(id) && contributions(entries).dom().contains(
            id,
        )) by {
        if silent_sources(entries).contains(id) && contributions(entries).dom().contains(id) {
            let a = choose|a: int|
                0 <= a < entries.len() && (#[trigger] entries[a]).id == id
                    && entries[a].state is Silent;
            let b = choose|b: int| speaks_at(entries, id, b);
            lemma_one_entry_per_source(entries, a, b);
        }
    }
    if entries[k].state is Speaking {
        let id = entries[k].id;
        assert(speaks_at(entries, id, k));
        let chosen = choose|j: int| speaks_at(entries, id, j);
        lemma_one_entry_per_source(entries, chosen, k);
    }
}

/// Where no source appears twice, two positions with one source are one
/// position.
proof fn lemma_one_entry_per_source(entries: Seq<SourceEntry>, a: int, b: int)
    requires
        distinct_sources(entries),
        0 <= a < entries.len(),
        0 <= b < entries.len(),
        entries[a].id == entries[b].id,
    ensures
        a == b,
{
    if a < b {
        assert(entries[a].id != entries[b].id);
    } else if b < a {
        assert(entries[b].id != entries[a].id);
    }
}

/// How many entries are speaking.
pub open spec fn speaking_count(entries: Seq<SourceEntry>) -> nat
    decreases entries.len(),
{
    if entries.len() == 0 {
        0
    } else {
        speaking_count(entries.drop_last()) + if entries.last().state is Speaking {
            1nat
        } else {
            0nat
        }
    }
}

/// Counting never finds more speakers than entries.
pub proof fn lemma_speaking_count_bounded(entries: Seq<SourceEntry>)
    ensures
        speaking_count(entries) <= entries.len(),
    decreases entries.len(),
{
    if entries.len() > 0 {
        lemma_speaking_count_bounded(entries.drop_last());
    }
}

/// A count of zero means that every entry is silent, and the reverse.
pub proof fn lemma_speaking_count_zero(entries: Seq<SourceEntry>)
    ensures
        speaking_count(entries) == 0 <==> forall|k: int|
            0 <= k < entries.len() ==> (#[trigger] entries[k]).state is Silent,
    decreases entries.len(),
{
    if entries.len() > 0 {
        let front = entries.drop_last();
        lemma_speaking_count_zero(front);
        if speaking_count(entries) == 0 {
            assert forall|k: int| 0 <= k < entries.len() implies (#[trigger] entries[k]).state is Silent by {
                if k < front.len() {
                    assert(front[k] == entries[k]);
                } else {
                    assert(entries[k] == entries.last());
                }
            }
        }
        if forall|k: int| 0 <= k < entries.len() ==> (#[trigger] entries[k]).state is Silent {
            assert(entries[entries.len() - 1].state is Silent);
            assert forall|k: int| 0 <= k < front.len() implies (#[trigger] front[k]).state is Silent by {
                assert(front[k] == entries[k]);
            }
        }
    }
}

/// One tick: every source known in the window, each either silent or
/// speaking, and none listed twice.
#[derive(Debug)]
pub struct Tick {
    entries: Vec<SourceEntry>,
}

impl View for Tick {
    type V = Seq<SourceEntry>;

    closed spec fn view(&self) -> Seq<SourceEntry> {
        self.entries@
    }
}

impl Tick {
    #[verifier::type_invariant]
    spec fn well_formed(&self) -> bool {
        distinct_sources(self.entries@)
    }

    /// A tick in which nobody is known yet.
    pub fn new() -> (tick: Tick)
        ensures
            tick@ == Seq::<SourceEntry>::empty(),
    {
        Tick { entries: Vec::new() }
    }

    /// The entries in the order in which they were added.
    pub fn entries(&self) -> (out: &Vec<SourceEntry>)
        ensures
            out@ == self@,
            distinct_sources(out@),
    {
        proof {
            use_type_invariant(self);
        }
        &self.entries
    }

    /// Whether `id` is already in the tick.
    pub fn contains(&self, id: SourceId) -> (found: bool)
        ensures
            found == has_source(self@, id),
    {
        let mut k: usize = 0;
        while k < self.entries.len()
            invariant
                k <= self.entries@.len(),
                forall|j: int| 0 <= j < k ==> (#[trigger] self.entries@[j]).id != id,
            decreases self.entries@.len() - k,
        {
            if self.entries[k].id == id {
                return true;
            }
            k = k + 1;
        }
        false
    }

    fn add(&mut self, entry: SourceEntry) -> (added: bool)
        ensures
            added == !has_source(old(self)@, entry.id),
            final(self)@ == if added {
                old(self)@.push(entry)
            } else {
                old(self)@
            },
    {
        proof {
            use_type_invariant(&*self);
        }
        if self.contains(entry.id) {
            return false;
        }
        let ghost before = self.entries@;
        let mut entries: Vec<SourceEntry> = Vec::new();
        core::mem::swap(&mut self.entries, &mut entries);
        entries.push(entry);
        assert(distinct_sources(entries@)) by {
            assert forall|a: int, b: int| 0 <= a < b < entries@.len() implies (
            #[trigger] entries@[a]).id != (#[trigger] entries@[b]).id by {
                assert(entries@[a] == before[a]);
                if b < before.len() {
                    assert(entries@[b] == before[b]);
                }
            }
        }
        self.entries = entries;
        true
    }

    /// Lists `id` as silent. A source that the tick already holds is left as
    /// it is, and the answer is `false`.
    pub fn add_silent(&mut self, id: SourceId) -> (added: bool)
        ensures
            added == !has_source(old(self)@, id),
            final(self)@ == if added {
                old(self)@.push(SourceEntry { id, state: SourceState::Silent })
            } else {
                old(self)@
            },
    {
        self.add(SourceEntry { id, state: SourceState::Silent })
    }

    /// Lists `id` as speaking with what it contributed. A source that the
    /// tick already holds is left as it is, and the answer is `false`.
    pub fn add_speaking(&mut self, id: SourceId, contribution: TickContribution) -> (added: bool)
        ensures
            added == !has_source(old(self)@, id),
            final(self)@ == if added {
                old(self)@.push(SourceEntry { id, state: SourceState::Speaking(contribution) })
            } else {
                old(self)@
            },
    {
        self.add(SourceEntry { id, state: SourceState::Speaking(contribution) })
    }

    /// Everyone known in the window, silent or not.
    pub fn participants(&self) -> (n: usize)
        ensures
            n == self@.len(),
    {
        self.entries.len()
    }

    /// How many sources had any signal in the window.
    pub fn speaking(&self) -> (n: usize)
        ensures
            n == speaking_count(self@),
    {
        let mut n: usize = 0;
        let mut k: usize = 0;
        while k < self.entries.len()
            invariant
                k <= self.entries@.len(),
                n == speaking_count(self.entries@.take(k as int)),
                n <= k,
            decreases self.entries@.len() - k,
        {
            assert(self.entries@.take(k + 1).drop_last() =~= self.entries@.take(k as int));
            match self.entries[k].state {
                SourceState::Speaking(_) => {
                    n = n + 1;
                },
                SourceState::Silent => {},
            }
            k = k + 1;
        }
        assert(self.entries@.take(k as int) =~= self.entries@);
        n
    }

    /// Whether at least one source had any signal in the window.
    pub fn is_active(&self) -> (active: bool)
        ensures
            active == (speaking_count(self@) > 0),
    {
        self.speaking() > 0
    }
}

} // verus!
