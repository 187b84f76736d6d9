//! What this crate takes from other crates.
//!
//! Everything in this module is assumed, not proved: the types are opaque to
//! the verifier and the functions are believed to meet the contracts written
//! on them. The contracts are kept as small as the callers allow. In
//! particular nothing is assumed of the numbers drawn by the id sources, which
//! depend on the wall clock and on random state.
use opentelemetry_sdk::trace::IdGenerator;
use opentelemetry_sdk::trace::RandomIdGenerator;
use opentelemetry_sdk::trace::Tracer;
use std::sync::Arc;
use sulid::SulidGenerator;
use sulid::TimestampType;
use vstd::prelude::*;

verus! {

/// [`sulid::SulidGenerator`], the source of candidate trace ids. Opaque.
#[verifier::external_type_specification]
#[verifier::external_body]
pub struct ExSulidGenerator(SulidGenerator);

/// [`opentelemetry_sdk::trace::RandomIdGenerator`], the source of random
/// numbers for span ids. Opaque.
#[verifier::external_type_specification]
#[verifier::external_body]
pub struct ExRandomIdGenerator(RandomIdGenerator);

/// [`opentelemetry_sdk::trace::Tracer`], the tracer that spans are started
/// with. Opaque.
#[verifier::external_type_specification]
#[verifier::external_body]
pub struct ExTracer(Tracer);

/// Calls `SulidGenerator::new1` with millisecond ticks, for which the ids it
/// draws are laid out as [`crate::trace_id`] describes. That function panics
/// unless both ids are below 32, which the precondition rules out. Nothing is
/// assumed of the generator that comes back, nor of the layout of its ids:
/// the caller writes the shard into each id itself.
#[verifier::external_body]
pub(crate) fn sulid_source(data_center_id: u8, machine_id: u8) -> (source: SulidGenerator)
    requires
        data_center_id < 32,
        machine_id < 32,
{
    SulidGenerator::new1(data_center_id, machine_id, TimestampType::MS)
}

/// Calls `SulidGenerator::generate` and takes the id as a number. The id is
/// built from the wall clock and a random number, so nothing is assumed of it.
#[verifier::external_body]
pub(crate) fn draw_trace_candidate(source: &SulidGenerator) -> (candidate: u128) {
    source.generate().as_u128()
}

/// Calls `RandomIdGenerator::default`. Nothing is assumed of the generator
/// that comes back.
#[verifier::external_body]
pub(crate) fn random_source() -> (source: RandomIdGenerator) {
    RandomIdGenerator::default()
}

/// Calls `RandomIdGenerator::new_span_id` and takes the id as a number. The id
/// is random, zero included, so nothing is assumed of it.
#[verifier::external_body]
pub(crate) fn draw_span_candidate(source: &RandomIdGenerator) -> (draw: u64) {
    u64::from_be_bytes(source.new_span_id().to_bytes())
}

/// Calls `Arc::clone`, which returns another pointer to the same allocation:
/// the new pointer leads to the value the old one leads to.
#[verifier::external_body]
pub(crate) fn share(pointer: &Arc<&'static Tracer>) -> (shared: Arc<&'static Tracer>)
    ensures
        shared == *pointer,
{
    Arc::clone(pointer)
}

} // verus!
