//! The tick mixer: every source's decoded audio of one tick, summed sample by
//! sample into one frame.
//!
//! The sum is taken exactly, over all contributing sources, and only the
//! final value is brought back into the 16-bit range: a sample past either
//! bound sticks to that bound. There is no gain and no normalization, so
//! sources that stay within range together are added as they are, and the
//! order in which the sources are listed does not matter.

use vstd::prelude::*;
use vstd::seq_lib::{to_multiset_contains, to_multiset_len, to_multiset_remove};
use crate::frame::{saturate, silence, MixedFrame, FRAME_SAMPLES};
use crate::tick::{audio_of, SourceEntry, SourceState, Tick};

verus! {

/// The sample of `pcm` at position `i`; zero where `pcm` has ended.
pub open spec fn sample_at(pcm: Seq<i16>, i: int) -> int {
    if 0 <= i < pcm.len() {
        pcm[i] as int
    } else {
        0
    }
}

/// What an entry adds at position `i`: its decoded sample there, or nothing
/// when it carries no decoded audio.
pub open spec fn contribution_at(entry: SourceEntry, i: int) -> int {
    match audio_of(entry) {
        Some(pcm) => sample_at(pcm, i),
        None => 0,
    }
}

/// The exact sum of all entries at position `i`.
pub open spec fn column_sum(entries: Seq<SourceEntry>, i: int) -> int
    decreases entries.len(),
{
    if entries.len() == 0 {
        0
    } else {
        column_sum(entries.drop_last(), i) + contribution_at(entries.last(), i)
    }
}

/// The frame that a tick's entries mix to.
pub open spec fn mixed(entries: Seq<SourceEntry>) -> Seq<i16> {
    Seq::new(FRAME_SAMPLES as nat, |i: int| saturate(column_sum(entries, i)))
}

/// The sum over `n` entries stays within `n` times the 16-bit range.
proof fn lemma_column_sum_bounds(entries: Seq<SourceEntry>, i: int)
    ensures
        -32768 * entries.len() <= column_sum(entries, i) <= 32767 * entries.len(),
    decreases entries.len(),
{
    if entries.len() > 0 {
        lemma_column_sum_bounds(entries.drop_last(), i);
    }
}

/// Entries that add nothing at `i` can be left out of the sum, all but the
/// entry at `keep`.
proof fn lemma_column_sum_single(entries: Seq<SourceEntry>, keep: int, i: int)
    requires
        0 <= keep < entries.len(),
        forall|k: int|
            0 <= k < entries.len() && k != keep ==> contribution_at(#[trigger] entries[k], i) == 0,
    ensures
        column_sum(entries, i) == contribution_at(entries[keep], i),
    decreases entries.len(),
{
    let front = entries.drop_last();
    if keep == entries.len() - 1 {
        assert forall|k: int| 0 <= k < front.len() implies contribution_at(
            #[trigger] front[k],
            i,
        ) == 0 by {
            assert(front[k] == entries[k]);
        }
        lemma_column_sum_none(front, i);
    } else {
        assert forall|k: int| 0 <= k < front.len() && k != keep implies contribution_at(
            #[trigger] front[k],
            i,
        ) == 0 by {
            assert(front[k] == entries[k]);
        }
        assert(front[keep] == entries[keep]);
        lemma_column_sum_single(front, keep, i);
        assert(contribution_at(entries[entries.len() - 1], i) == 0);
    }
}

/// Entries that all add nothing at `i` sum to zero there.
proof fn lemma_column_sum_none(entries: Seq<SourceEntry>, i: int)
    requires
        forall|k: int| 0 <= k < entries.len() ==> contribution_at(#[trigger] entries[k], i) == 0,
    ensures
        column_sum(entries, i) == 0,
    decreases entries.len(),
{
    if entries.len() > 0 {
        let front = entries.drop_last();
        assert forall|k: int| 0 <= k < front.len() implies contribution_at(
            #[trigger] front[k],
            i,
        ) == 0 by {
            assert(front[k] == entries[k]);
        }
        lemma_column_sum_none(front, i);
        assert(contribution_at(entries[entries.len() - 1], i) == 0);
    }
}

/// Where only the entries at `first` and `second` add anything at `i`, the
/// sum there is what those two add.
proof fn lemma_column_sum_pair(entries: Seq<SourceEntry>, first: int, second: int, i: int)
    requires
        0 <= first < second < entries.len(),
        forall|k: int|
            0 <= k < entries.len() && k != first && k != second ==> contribution_at(
                #[trigger] entries[k],
                i,
            ) == 0,
    ensures
        column_sum(entries, i) == contribution_at(entries[first], i) + contribution_at(
            entries[second],
            i,
        ),
    decreases entries.len(),
{
    let front = entries.drop_last();
    assert(front[first] == entries[first]);
    if second == entries.len() - 1 {
        assert forall|k: int| 0 <= k < front.len() && k != first implies contribution_at(
            #[trigger] front[k],
            i,
        ) == 0 by {
            assert(front[k] == entries[k]);
        }
        lemma_column_sum_single(front, first, i);
    } else {
        assert forall|k: int|
            0 <= k < front.len() && k != first && k != second implies contribution_at(
            #[trigger] front[k],
            i,
        ) == 0 by {
            assert(front[k] == entries[k]);
        }
        assert(front[second] == entries[second]);
        lemma_column_sum_pair(front, first, second, i);
        assert(contribution_at(entries[entries.len() - 1], i) == 0);
    }
}

/// A tick in which no source carries decoded audio mixes to silence of the
/// full frame length, however many sources it lists.
pub proof fn lemma_mix_of_nothing_is_silence(entries: Seq<SourceEntry>)
    requires
        forall|k: int| 0 <= k < entries.len() ==> audio_of(#[trigger] entries[k]) is None,
    ensures
        mixed(entries) == silence(),
        mixed(entries).len() == FRAME_SAMPLES,
{
    assert forall|i: int| 0 <= i < FRAME_SAMPLES implies mixed(entries)[i] == 0i16 by {
        lemma_column_sum_none(entries, i);
    }
    assert(mixed(entries) =~= silence());
}

/// A tick in which exactly one source carries decoded audio, and that audio
/// fills the frame exactly, mixes to that audio unchanged.
pub proof fn lemma_mix_of_one_source_is_that_source(
    entries: Seq<SourceEntry>,
    only: int,
    pcm: Seq<i16>,
)
    requires
        0 <= only < entries.len(),
        audio_of(entries[only]) == Some(pcm),
        pcm.len() == FRAME_SAMPLES,
        forall|k: int|
            0 <= k < entries.len() && k != only ==> audio_of(#[trigger] entries[k]) is None,
    ensures
        mixed(entries) == pcm,
{
    assert forall|i: int| 0 <= i < FRAME_SAMPLES implies mixed(entries)[i] == pcm[i] by {
        lemma_column_sum_single(entries, only, i);
    }
    assert(mixed(entries) =~= pcm);
}

/// A tick in which exactly two sources carry decoded audio mixes, at every
/// position, to the sum of their two samples there, brought into the 16-bit
/// range; where that sum is within the range, to the sum itself.
pub proof fn lemma_mix_of_two_sources_is_their_sum(
    entries: Seq<SourceEntry>,
    first: int,
    second: int,
    a: Seq<i16>,
    b: Seq<i16>,
)
    requires
        0 <= first < second < entries.len(),
        audio_of(entries[first]) == Some(a),
        audio_of(entries[second]) == Some(b),
        forall|k: int|
            0 <= k < entries.len() && k != first && k != second ==> audio_of(
                #[trigger] entries[k],
            ) is None,
    ensures
        forall|i: int|
            0 <= i < FRAME_SAMPLES ==> #[trigger] mixed(entries)[i] == saturate(
                sample_at(a, i) + sample_at(b, i),
            ),
        forall|i: int|
            0 <= i < FRAME_SAMPLES && i16::MIN <= sample_at(a, i) + sample_at(b, i) <= i16::MAX
                ==> #[trigger] mixed(entries)[i] == sample_at(a, i) + sample_at(b, i),
{
    assert forall|i: int| 0 <= i < FRAME_SAMPLES implies #[trigger] mixed(entries)[i] == saturate(
        sample_at(a, i) + sample_at(b, i),
    ) by {
        lemma_column_sum_pair(entries, first, second, i);
    }
}

/// Taking one entry out of a tick takes exactly its share out of the sum.
proof fn lemma_column_sum_remove(entries: Seq<SourceEntry>, at: int, i: int)
    requires
        0 <= at < entries.len(),
    ensures
        column_sum(entries, i) == column_sum(entries.remove(at), i) + contribution_at(
            entries[at],
            i,
        ),
    decreases entries.len(),
{
    if at == entries.len() - 1 {
        assert(entries.remove(at) =~= entries.drop_last());
    } else {
        let front = entries.drop_last();
        lemma_column_sum_remove(front, at, i);
        assert(entries.remove(at).drop_last() =~= front.remove(at));
        assert(entries.remove(at).last() == entries.last());
        assert(front[at] == entries[at]);
    }
}

/// Two ticks that list the same entries sum to the same at every position,
/// in whatever order each lists them.
proof fn lemma_column_sum_ignores_order(a: Seq<SourceEntry>, b: Seq<SourceEntry>, i: int)
    requires
        a.to_multiset() == b.to_multiset(),
    ensures
        column_sum(a, i) == column_sum(b, i),
    decreases a.len(),
{
    to_multiset_len(a);
    to_multiset_len(b);
    if a.len() > 0 {
        let last = a.len() - 1;
        let entry = a[last];
        to_multiset_contains(a, entry);
        to_multiset_contains(b, entry);
        assert(a.contains(entry));
        let at = choose|at: int| 0 <= at < b.len() && b[at] == entry;
        to_multiset_remove(a, last);
        to_multiset_remove(b, at);
        assert(a.remove(last) =~= a.drop_last());
        lemma_column_sum_ignores_order(a.drop_last(), b.remove(at), i);
        lemma_column_sum_remove(b, at, i);
    }
}

/// The mix does not depend on the order of the sources: two ticks that list
/// the same entries mix to the same frame.
pub proof fn lemma_mix_ignores_order(a: Seq<SourceEntry>, b: Seq<SourceEntry>)
    requires
        a.to_multiset() == b.to_multiset(),
    ensures
        mixed(a) == mixed(b),
{
    assert forall|i: int| 0 <= i < FRAME_SAMPLES implies mixed(a)[i] == mixed(b)[i] by {
        lemma_column_sum_ignores_order(a, b, i);
    }
    assert(mixed(a) =~= mixed(b));
}

/// Adds `pcm` into the running sums, position by position, as far as both
/// reach.
fn accumulate(sums: &mut Vec<i128>, pcm: &Vec<i16>, Ghost(done): Ghost<int>)
    requires
        old(sums)@.len() == FRAME_SAMPLES,
        0 <= done < usize::MAX,
        forall|i: int|
            0 <= i < FRAME_SAMPLES ==> -32768 * done <= #[trigger] old(sums)@[i] <= 32767 * done,
    ensures
        final(sums)@.len() == FRAME_SAMPLES,
        forall|i: int|
            0 <= i < FRAME_SAMPLES ==> #[trigger] final(sums)@[i] == old(sums)@[i] + sample_at(
                pcm@,
                i,
            ),
{
    let reach: usize = if pcm.len() < FRAME_SAMPLES {
        pcm.len()
    } else {
        FRAME_SAMPLES
    };
    let mut i: usize = 0;
    while i < reach
        invariant
            i <= reach <= FRAME_SAMPLES,
            reach <= pcm@.len(),
            reach == FRAME_SAMPLES || reach == pcm@.len(),
            sums@.len() == FRAME_SAMPLES,
            0 <= done < usize::MAX,
            forall|j: int|
                0 <= j < i ==> #[trigger] sums@[j] == old(sums)@[j] + sample_at(pcm@, j),
            forall|j: int| i <= j < FRAME_SAMPLES ==> #[trigger] sums@[j] == old(sums)@[j],
            forall|j: int|
                0 <= j < FRAME_SAMPLES ==> -32768 * done <= #[trigger] old(sums)@[j] <= 32767
                    * done,
        decreases reach - i,
    {
        let sample: i16 = pcm[i];
        let so_far: i128 = sums[i];
        assert(so_far == old(sums)@[i as int]);
        sums.set(i, so_far + sample as i128);
        i = i + 1;
    }
}

/// Combines every source's decoded audio of one tick into one frame.
///
/// The frame always has the full length. At each position it holds the sum
/// of what the sources decoded there, a source whose audio ends earlier
/// adding nothing past its end, and a sum outside the 16-bit range replaced
/// by the nearest bound. Sources without decoded audio add nothing, so a
/// tick without any such audio gives silence.
pub fn mix(tick: &Tick) -> (frame: MixedFrame)
    ensures
        frame@ == mixed(tick@),
        frame@.len() == FRAME_SAMPLES,
{
    let entries = tick.entries();
    let mut sums: Vec<i128> = Vec::with_capacity(FRAME_SAMPLES);
    let mut i: usize = 0;
    while i < FRAME_SAMPLES
        invariant
            i <= FRAME_SAMPLES,
            sums@.len() == i,
            forall|j: int| 0 <= j < i ==> #[trigger] sums@[j] == 0,
        decreases FRAME_SAMPLES - i,
    {
        sums.push(0i128);
        i = i + 1;
    }
    let mut k: usize = 0;
    while k < entries.len()
        invariant
            k <= entries@.len(),
            sums@.len() == FRAME_SAMPLES,
            forall|j: int|
                0 <= j < FRAME_SAMPLES ==> #[trigger] sums@[j] == column_sum(
                    entries@.take(k as int),
                    j,
                ),
        decreases entries@.len() - k,
    {
        let ghost before = entries@.take(k as int);
        let ghost after = entries@.take(k + 1);
        assert(after.drop_last() =~= before);
        assert(after.last() == entries@[k as int]);
        assert forall|j: int| 0 <= j < FRAME_SAMPLES implies -32768 * k <= #[trigger] sums@[j]
            <= 32767 * k by {
            lemma_column_sum_bounds(before, j);
        }
        match &entries[k].state {
            SourceState::Speaking(contribution) => {
                match &contribution.decoded {
                    Some(pcm) => {
                        accumulate(&mut sums, pcm, Ghost(k as int));
                    },
                    None => {},
                }
            },
            SourceState::Silent => {},
        }
        k = k + 1;
    }
    assert(entries@.take(k as int) =~= entries@);
    let mut samples: Vec<i16> = Vec::with_capacity(FRAME_SAMPLES);
    let mut i: usize = 0;
    while i < FRAME_SAMPLES
        invariant
            i <= FRAME_SAMPLES,
            sums@.len() == FRAME_SAMPLES,
            samples@.len() == i,
            forall|j: int| 0 <= j < i ==> #[trigger] samples@[j] == saturate(sums@[j] as int),
        decreases FRAME_SAMPLES - i,
    {
        let sum: i128 = sums[i];
        let sample: i16 = if sum > 32767 {
            32767i16
        } else if sum < -32768 {
            -32768i16
        } else {
            sum as i16
        };
        samples.push(sample);
        i = i + 1;
    }
    assert(samples@ =~= mixed(entries@));
    MixedFrame::from_samples(samples)
}

} // verus!
