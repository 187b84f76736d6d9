//! Generators of trace and span ids.
//!
//! [`MonotonicIdGenerator`] hands out trace ids of its shard that never go
//! backward and ascend strictly until the ids of the shard run out,
//! [`RandomSpanIdGenerator`] hands out non-zero span ids, and
//! [`MyIdGenerator`] owns one of each. The raw numbers come from the sources
//! in [`crate::outside`]; what is done with them is decided by
//! [`crate::trace_id`] and [`crate::span_id`].
//!
//! Handing out a trace id changes the generator, so it takes `&mut self`. A
//! generator shared between threads is kept behind a lock by its owner; the
//! order in which the lock is taken is then the order of the ids.
use crate::outside::draw_span_candidate;
use crate::outside::draw_trace_candidate;
use crate::outside::random_source;
use crate::outside::sulid_source;
use crate::span_id::judge;
use crate::span_id::Verdict;
use crate::span_id::DRAWS;
use crate::span_id::FALLBACK_SPAN_ID;
use crate::trace_id::advance;
use crate::trace_id::fit;
use crate::trace_id::fitted;
use crate::trace_id::follows;
use crate::trace_id::next_trace_id;
use crate::trace_id::shard_of;
use crate::trace_id::spent;
use crate::trace_id::STEP;
use opentelemetry_sdk::trace::RandomIdGenerator;
use sulid::SulidGenerator;
use vstd::prelude::*;

verus! {

/// Largest data center id and machine id a generator can be made with, plus
/// one.
pub const ID_LIMIT: u8 = 32;

/// The shard of the generator for the given data center and machine: the data
/// center id in the upper five bits of the field, the machine id in the lower
/// five.
pub open spec fn shard_for(data_center_id: u8, machine_id: u8) -> int {
    data_center_id as int * ID_LIMIT as int + machine_id as int
}

/// A generator of trace ids of one shard. Its ids never go backward, whatever
/// the wall clock does, and each is greater than all before it until the ids
/// of the shard run out.
pub struct MonotonicIdGenerator {
    source: SulidGenerator,
    shard: u16,
    last: u128,
}

impl MonotonicIdGenerator {
    /// The shard is within its field, and the last id handed out, if there is
    /// one, is of that shard.
    #[verifier::type_invariant]
    spec fn well_formed(self) -> bool {
        &&& self.shard < STEP
        &&& self.last == 0 || shard_of(self.last) == self.shard
    }

    /// The greatest id handed out so far, zero before the first.
    pub closed spec fn mark(self) -> u128 {
        self.last
    }

    /// The shard that every id of this generator carries.
    pub closed spec fn shard(self) -> u16 {
        self.shard
    }

    /// A generator for the given data center and machine that has handed out
    /// nothing yet. Both ids must be below [`ID_LIMIT`]; otherwise there is no
    /// such generator.
    pub fn new(data_center_id: u8, machine_id: u8) -> (made: Option<Self>)
        ensures
            made.is_some() <==> data_center_id < ID_LIMIT && machine_id < ID_LIMIT,
            made matches Some(generator) ==> generator.mark() == 0 && generator.shard()
                == shard_for(data_center_id, machine_id),
    {
        if data_center_id < ID_LIMIT && machine_id < ID_LIMIT {
            let shard: u16 = data_center_id as u16 * 32 + machine_id as u16;
            Some(
                MonotonicIdGenerator {
                    source: sulid_source(data_center_id, machine_id),
                    shard,
                    last: 0,
                },
            )
        } else {
            None
        }
    }

    /// The greatest id handed out so far, zero before the first.
    pub fn high_mark(&self) -> (mark: u128)
        ensures
            mark == self.mark(),
    {
        self.last
    }

    /// The shard that every id of this generator carries.
    pub fn shard_id(&self) -> (shard: u16)
        ensures
            shard == self.shard(),
            shard < STEP,
    {
        proof {
            use_type_invariant(self);
        }
        self.shard
    }

    /// Writes the shard of the generator into `candidate`, hands out the id
    /// that results when the source offers that, and remembers it.
    pub fn accept(&mut self, candidate: u128) -> (id: u128)
        ensures
            id == next_trace_id(old(self).mark(), fitted(candidate, old(self).shard())),
            shard_of(id) == old(self).shard(),
            final(self).mark() == id,
            final(self).shard() == old(self).shard(),
    {
        proof {
            use_type_invariant(&*self);
        }
        let id: u128 = advance(self.last, fit(candidate, self.shard));
        self.last = id;
        id
    }

    /// Draws a candidate from the source and hands out the resulting id. The
    /// id is of the shard of the generator, is not zero and follows the last
    /// one; it is greater than the last one unless no greater id is left.
    pub fn generate(&mut self) -> (id: u128)
        ensures
            follows(old(self).mark(), id),
            id >= old(self).mark(),
            !spent(old(self).mark()) ==> id > old(self).mark(),
            id != 0,
            shard_of(id) == old(self).shard(),
            final(self).mark() == id,
            final(self).shard() == old(self).shard(),
    {
        let candidate: u128 = draw_trace_candidate(&self.source);
        self.accept(candidate)
    }
}

/// A generator of random span ids that never hands out zero.
pub struct RandomSpanIdGenerator {
    source: RandomIdGenerator,
}

impl RandomSpanIdGenerator {
    /// A generator drawing from the random state of the calling thread.
    pub fn new() -> (made: Self) {
        RandomSpanIdGenerator { source: random_source() }
    }

    /// Draws until a draw is not zero and hands that draw out. Every zero
    /// draw is drawn again; the fallback is handed out only when [`DRAWS`]
    /// draws in a row came out zero, which no run reaches.
    pub fn new_span_id(&self) -> (id: u64)
        ensures
            id != 0,
    {
        let mut left: u64 = DRAWS;
        while left > 0
            invariant
                left <= DRAWS,
            decreases left,
        {
            let draw: u64 = draw_span_candidate(&self.source);
            match judge(draw) {
                Verdict::Accept(id) => {
                    return id;
                },
                Verdict::Redraw => {
                    left = left - 1;
                },
            }
        }
        FALLBACK_SPAN_ID
    }
}

/// A generator of trace ids and span ids. It owns a [`MonotonicIdGenerator`]
/// and a [`RandomSpanIdGenerator`] and has no state beyond theirs; asking for
/// a trace id leaves the generator of span ids as it was, and asking for a
/// span id changes nothing at all.
pub struct MyIdGenerator {
    trace_id: MonotonicIdGenerator,
    span_id: RandomSpanIdGenerator,
}

impl MyIdGenerator {
    /// The greatest trace id handed out so far, zero before the first.
    pub closed spec fn mark(self) -> u128 {
        self.trace_id.mark()
    }

    /// The shard that every trace id of this generator carries.
    pub closed spec fn shard(self) -> u16 {
        self.trace_id.shard()
    }

    /// The generator of span ids.
    pub closed spec fn span_part(self) -> RandomSpanIdGenerator {
        self.span_id
    }

    /// The generator of trace ids.
    pub closed spec fn trace_part(self) -> MonotonicIdGenerator {
        self.trace_id
    }

    /// A generator for the given data center and machine that has handed out
    /// nothing yet. Both ids must be below [`ID_LIMIT`]; otherwise there is no
    /// such generator.
    pub fn new(data_center_id: u8, machine_id: u8) -> (made: Option<Self>)
        ensures
            made.is_some() <==> data_center_id < ID_LIMIT && machine_id < ID_LIMIT,
            made matches Some(generator) ==> generator.mark() == 0 && generator.shard()
                == shard_for(data_center_id, machine_id),
    {
        match MonotonicIdGenerator::new(data_center_id, machine_id) {
            Some(trace_id) => Some(MyIdGenerator { trace_id, span_id: RandomSpanIdGenerator::new() }),
            None => None,
        }
    }

    /// The greatest trace id handed out so far, zero before the first.
    pub fn high_mark(&self) -> (mark: u128)
        ensures
            mark == self.mark(),
    {
        self.trace_id.high_mark()
    }

    /// The shard that every trace id of this generator carries.
    pub fn shard_id(&self) -> (shard: u16)
        ensures
            shard == self.shard(),
            shard < STEP,
    {
        self.trace_id.shard_id()
    }

    /// Hands out a trace id. It is of the shard of the generator, is not zero
    /// and follows the last one; it is greater than the last one unless no
    /// greater id is left. The generator of span ids is left as it was.
    pub fn new_trace_id(&mut self) -> (id: u128)
        ensures
            follows(old(self).mark(), id),
            id >= old(self).mark(),
            !spent(old(self).mark()) ==> id > old(self).mark(),
            id != 0,
            shard_of(id) == old(self).shard(),
            final(self).mark() == id,
            final(self).shard() == old(self).shard(),
            final(self).span_part() == old(self).span_part(),
    {
        self.trace_id.generate()
    }

    /// Hands out a span id: the first draw that is not zero.
    pub fn new_span_id(&self) -> (id: u64)
        ensures
            id != 0,
    {
        self.span_id.new_span_id()
    }

    /// A generator made of the given parts.
    pub fn from_parts(trace_id: MonotonicIdGenerator, span_id: RandomSpanIdGenerator) -> (made: Self)
        ensures
            made.trace_part() == trace_id,
            made.span_part() == span_id,
            made.mark() == trace_id.mark(),
            made.shard() == trace_id.shard(),
    {
        MyIdGenerator { trace_id, span_id }
    }

    /// Takes the generator apart, so that each part can be kept where its
    /// owner needs it.
    pub fn into_parts(self) -> (parts: (MonotonicIdGenerator, RandomSpanIdGenerator))
        ensures
            parts.0 == self.trace_part(),
            parts.0.mark() == self.mark(),
            parts.0.shard() == self.shard(),
            parts.1 == self.span_part(),
    {
        (self.trace_id, self.span_id)
    }
}

} // verus!
