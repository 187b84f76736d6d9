//! Layout and ordering of trace ids.
//!
//! A trace id is a 128-bit number made of three fields, most significant
//! first:
//!
//! ```text
//! | 42-bit tick | 76-bit entropy | 10-bit shard |
//! ```
//!
//! The tick is a millisecond clock reading, the entropy disambiguates ids of
//! one tick, and the shard tells generators apart. Because the tick occupies
//! the high-order bits, ids of a later tick compare greater than ids of an
//! earlier one.
//!
//! A generator draws candidate ids from an outside source that reads the wall
//! clock, and writes its own shard into each. The clock may stand still or
//! jump backward, so a candidate is accepted only when it exceeds every id
//! handed out before. Otherwise the generator reuses the tick of the last id
//! and bumps its entropy: the next id is the last one plus [`STEP`], which
//! leaves the shard untouched and carries into the tick when the entropy is
//! full.
//!
//! The ids of one shard are finite in number. Once a generator has handed out
//! one of the last of them, with tick and entropy both at their maximum, no
//! greater id of its shard is left, and it repeats that id unless the source
//! offers a greater one. Until then every id is greater than all before it.
use vstd::prelude::*;

verus! {

/// Distance between two ids that differ by one in the entropy field. It is
/// also the number of shards.
pub const STEP: u128 = 0x400;

/// Weight of the tick field: ids of consecutive ticks with equal lower fields
/// differ by this much.
pub const TICK_UNIT: u128 = 0x40_0000_0000_0000_0000_0000;

/// Number of distinct entropy values.
pub const ENTROPY_SPAN: u128 = 0x1000_0000_0000_0000_0000;

/// The tick field of `id`.
pub open spec fn tick_of(id: u128) -> int {
    id as int / TICK_UNIT as int
}

/// The entropy field of `id`.
pub open spec fn entropy_of(id: u128) -> int {
    (id as int / STEP as int) % ENTROPY_SPAN as int
}

/// The shard field of `id`.
pub open spec fn shard_of(id: u128) -> int {
    id as int % STEP as int
}

/// `candidate` with its shard field replaced by `shard`, reduced to the width
/// of the field. Tick and entropy stay as they are.
pub open spec fn fitted(candidate: u128, shard: u16) -> u128 {
    (candidate - candidate % STEP + shard as u128 % STEP) as u128
}

/// No id above `last` carries the shard of `last`: tick and entropy are both
/// at their maximum.
pub open spec fn spent(last: u128) -> bool {
    last as int + STEP as int > u128::MAX as int
}

/// The least id above `last` with the shard of `last`, or `last` itself when
/// there is none.
pub open spec fn successor(last: u128) -> u128 {
    if spent(last) {
        last
    } else {
        (last + STEP) as u128
    }
}

/// The id handed out when `last` is the greatest id handed out so far (zero
/// before the first) and the source offers `candidate`.
pub open spec fn next_trace_id(last: u128, candidate: u128) -> u128 {
    if candidate > last {
        candidate
    } else {
        successor(last)
    }
}

/// `id` can follow `last`: it is either greater, or what is handed out when
/// the source offers nothing greater.
pub open spec fn follows(last: u128, id: u128) -> bool {
    id > last || id == successor(last)
}

/// The source offers nothing above `last` and no id is left above it either.
/// These are the only inputs on which [`next_trace_id`] repeats `last`.
pub open spec fn stalls(last: u128, candidate: u128) -> bool {
    candidate <= last && spent(last)
}

/// Computes [`next_trace_id`].
pub fn advance(last: u128, candidate: u128) -> (id: u128)
    ensures
        id == next_trace_id(last, candidate),
        id >= last,
        id > last <==> !stalls(last, candidate),
        id != 0,
{
    if candidate > last {
        candidate
    } else if last <= u128::MAX - STEP {
        last + STEP
    } else {
        last
    }
}

/// Computes [`fitted`]: the result has the tick and the entropy of
/// `candidate` and the given shard.
pub fn fit(candidate: u128, shard: u16) -> (id: u128)
    ensures
        id == fitted(candidate, shard),
        tick_of(id) == tick_of(candidate),
        entropy_of(id) == entropy_of(candidate),
        shard_of(id) == shard as int % STEP as int,
{
    candidate - candidate % STEP + shard as u128 % STEP
}

/// The tick field of `id`.
pub fn tick(id: u128) -> (t: u64)
    ensures
        t == tick_of(id),
{
    (id / TICK_UNIT) as u64
}

/// The entropy field of `id`.
pub fn entropy(id: u128) -> (e: u128)
    ensures
        e == entropy_of(id),
{
    (id / STEP) % ENTROPY_SPAN
}

/// The shard field of `id`.
pub fn shard(id: u128) -> (s: u16)
    ensures
        s == shard_of(id),
{
    (id % STEP) as u16
}

/// The ids handed out, in order, by a generator whose greatest id so far is
/// `start` when its source offers `candidates` one after another.
pub open spec fn emitted(start: u128, candidates: Seq<u128>) -> Seq<u128>
    decreases candidates.len(),
{
    if candidates.len() == 0 {
        Seq::empty()
    } else {
        let earlier = emitted(start, candidates.drop_last());
        earlier.push(next_trace_id(mark_before(start, earlier, earlier.len() as int), candidates.last()))
    }
}

/// The greatest id handed out before the `k`-th of `ids`: the one just before
/// it, or `start` for the first.
pub open spec fn mark_before(start: u128, ids: Seq<u128>, k: int) -> u128 {
    if k <= 0 {
        start
    } else {
        ids[k - 1]
    }
}

/// At no point of the run does the generator run out of ids: whenever the
/// source fails to offer a greater id, one is left above the last.
pub open spec fn never_stalls(start: u128, candidates: Seq<u128>) -> bool {
    forall|k: int|
        0 <= k < candidates.len() ==> !stalls(
            mark_before(start, emitted(start, candidates), k),
            #[trigger] candidates[k],
        )
}

/// A run hands out one id per candidate, and each is [`next_trace_id`] of the
/// id before it and the candidate offered at that point.
pub proof fn lemma_emitted_step(start: u128, candidates: Seq<u128>, k: int)
    requires
        0 <= k < candidates.len(),
    ensures
        emitted(start, candidates).len() == candidates.len(),
        emitted(start, candidates)[k] == next_trace_id(
            mark_before(start, emitted(start, candidates), k),
            candidates[k],
        ),
    decreases candidates.len(),
{
    lemma_emitted_len(start, candidates.drop_last());
    if k < candidates.len() - 1 {
        lemma_emitted_step(start, candidates.drop_last(), k);
    }
}

/// A run hands out one id per candidate.
pub proof fn lemma_emitted_len(start: u128, candidates: Seq<u128>)
    ensures
        emitted(start, candidates).len() == candidates.len(),
    decreases candidates.len(),
{
    if candidates.len() > 0 {
        lemma_emitted_len(start, candidates.drop_last());
    }
}

/// Ids never fall below what went before: each id of a run is at least
/// `start` and at least every earlier id of the run. This holds of every run,
/// a stalled one included.
pub proof fn lemma_ids_never_decrease(start: u128, candidates: Seq<u128>, i: int, j: int)
    requires
        0 <= i <= j < candidates.len(),
    ensures
        start <= emitted(start, candidates)[i] <= emitted(start, candidates)[j],
    decreases j,
{
    lemma_emitted_step(start, candidates, j);
    if i < j {
        lemma_ids_never_decrease(start, candidates, i, j - 1);
    } else if 0 < j {
        lemma_ids_never_decrease(start, candidates, j - 1, j - 1);
    }
}

/// Of two ids of one run the later is the greater, whatever the clock did in
/// between, as long as the generator did not stall at every step from the one
/// to the other: `k` is a step at which it did not.
pub proof fn lemma_later_id_is_greater(
    start: u128,
    candidates: Seq<u128>,
    i: int,
    j: int,
    k: int,
)
    requires
        0 <= i < k <= j < candidates.len(),
        !stalls(mark_before(start, emitted(start, candidates), k), candidates[k]),
    ensures
        emitted(start, candidates)[i] < emitted(start, candidates)[j],
{
    lemma_ids_never_decrease(start, candidates, i, k - 1);
    lemma_emitted_step(start, candidates, k);
    lemma_ids_never_decrease(start, candidates, k, j);
}

/// Where the generator stalls at every step from one id to a later one, the
/// later id repeats the earlier.
pub proof fn lemma_stalled_ids_repeat(start: u128, candidates: Seq<u128>, i: int, j: int)
    requires
        0 <= i <= j < candidates.len(),
        forall|k: int|
            i < k <= j ==> stalls(
                mark_before(start, emitted(start, candidates), k),
                #[trigger] candidates[k],
            ),
    ensures
        emitted(start, candidates)[i] == emitted(start, candidates)[j],
    decreases j - i,
{
    if i < j {
        lemma_stalled_ids_repeat(start, candidates, i, j - 1);
        lemma_emitted_step(start, candidates, j);
        assert(stalls(mark_before(start, emitted(start, candidates), j), candidates[j]));
    }
}

/// The ids of one run are pairwise distinct, as long as the generator never
/// ran out of ids.
pub proof fn lemma_ids_are_distinct(start: u128, candidates: Seq<u128>, i: int, j: int)
    requires
        0 <= i < candidates.len(),
        0 <= j < candidates.len(),
        i != j,
        never_stalls(start, candidates),
    ensures
        emitted(start, candidates)[i] != emitted(start, candidates)[j],
{
    if i < j {
        assert(!stalls(mark_before(start, emitted(start, candidates), j), candidates[j]));
        lemma_later_id_is_greater(start, candidates, i, j, j);
    } else {
        assert(!stalls(mark_before(start, emitted(start, candidates), i), candidates[i]));
        lemma_later_id_is_greater(start, candidates, j, i, i);
    }
}

/// The order in which a run hands out its ids is their numeric order: every
/// id exceeds `start` and all ids before it, so sorting the run by value
/// leaves it as it is.
pub proof fn lemma_generation_order_is_numeric_order(start: u128, candidates: Seq<u128>)
    requires
        never_stalls(start, candidates),
    ensures
        forall|i: int, j: int|
            0 <= i < j < candidates.len() ==> #[trigger] emitted(start, candidates)[i]
                < #[trigger] emitted(start, candidates)[j],
        forall|i: int|
            0 <= i < candidates.len() ==> start < #[trigger] emitted(start, candidates)[i],
{
    assert forall|i: int, j: int| 0 <= i < j < candidates.len() implies #[trigger] emitted(
        start,
        candidates,
    )[i] < #[trigger] emitted(start, candidates)[j] by {
        assert(!stalls(mark_before(start, emitted(start, candidates), j), candidates[j]));
        lemma_later_id_is_greater(start, candidates, i, j, j);
    }
    assert forall|i: int| 0 <= i < candidates.len() implies start < #[trigger] emitted(
        start,
        candidates,
    )[i] by {
        lemma_emitted_step(start, candidates, 0);
        assert(!stalls(mark_before(start, emitted(start, candidates), 0), candidates[0]));
        lemma_ids_never_decrease(start, candidates, 0, i);
    }
}

/// The ids that can follow `last` are exactly those handed out for some
/// candidate.
pub proof fn lemma_follows_is_exact(last: u128, id: u128)
    ensures
        follows(last, id) <==> exists|candidate: u128| id == next_trace_id(last, candidate),
{
    if follows(last, id) {
        if id > last {
            assert(id == next_trace_id(last, id));
        } else {
            assert(id == next_trace_id(last, 0));
        }
    }
}

/// An id of a later tick is the greater id, whatever the lower fields hold.
pub proof fn lemma_later_tick_is_greater(a: u128, b: u128)
    requires
        tick_of(a) < tick_of(b),
    ensures
        a < b,
{
}

/// A candidate drawn at a tick past that of the last id is handed out as it
/// is, so the id carries the tick at which it was drawn.
pub proof fn lemma_fresh_tick_is_kept(last: u128, candidate: u128)
    requires
        tick_of(last) < tick_of(candidate),
    ensures
        next_trace_id(last, candidate) == candidate,
{
    lemma_later_tick_is_greater(last, candidate);
}

/// Bumping an id keeps its shard and adds one to the entropy; when the entropy
/// is full it starts over at zero in the next tick.
pub proof fn lemma_successor_fields(last: u128)
    requires
        !spent(last),
    ensures
        shard_of(successor(last)) == shard_of(last),
        entropy_of(last) + 1 < ENTROPY_SPAN ==> tick_of(successor(last)) == tick_of(last)
            && entropy_of(successor(last)) == entropy_of(last) + 1,
        entropy_of(last) + 1 == ENTROPY_SPAN ==> tick_of(successor(last)) == tick_of(last) + 1
            && entropy_of(successor(last)) == 0,
{
}

/// Handing out an id keeps the shard: where the last id is zero or of shard
/// `shard`, and the candidate is of shard `shard`, so is the id handed out.
pub proof fn lemma_next_id_keeps_shard(last: u128, candidate: u128, shard: int)
    requires
        last == 0 || shard_of(last) == shard,
        shard_of(candidate) == shard,
    ensures
        shard_of(next_trace_id(last, candidate)) == shard,
{
}

/// Ids of different shards are different ids, so generators of different
/// shards never hand out the same id.
pub proof fn lemma_shards_keep_ids_apart(a: u128, b: u128)
    requires
        shard_of(a) != shard_of(b),
    ensures
        a != b,
{
}

} // verus!
