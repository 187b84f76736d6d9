//! Identifiers and handles for bootstrapping distributed tracing in a process.
//!
//! A process that traces its work needs, before the first span is started,
//! a source of trace and span ids, a plan for where finished spans go, one
//! tracer that every part of the process can find, and a way to hand that
//! tracer around. This crate supplies the parts of that bootstrap whose
//! behaviour can be stated exactly:
//!
//! * [`trace_id`]: the layout of a 128-bit trace id and the rule by which a
//!   generator keeps the ids it hands out from going backward, whatever the
//!   wall clock does, and ascending strictly until the ids of its shard run
//!   out.
//! * [`span_id`]: the rule by which the first random draw that is not zero
//!   becomes the span id.
//! * [`generator`]: the generators that apply the two rules to numbers drawn
//!   from outside sources.
//! * [`pipeline`]: the choice of exporter and of the processor that drives it.
//! * [`slot`]: a write-once slot for the tracer of the process.
//! * [`handle`]: a cloneable handle to that tracer.
//! * [`outside`]: what is taken on trust from other crates.
//!
//! Every function is verified with Verus, except those in [`outside`], which
//! are marked `external_body` and documented with what is assumed of the code
//! they call.
pub mod generator;
pub mod handle;
pub mod outside;
pub mod pipeline;
pub mod slot;
pub mod span_id;
pub mod trace_id;

pub use generator::MonotonicIdGenerator;
pub use generator::MyIdGenerator;
pub use generator::RandomSpanIdGenerator;
pub use handle::arc_tracer;
pub use handle::tracer;
pub use handle::ArcTracer;
pub use pipeline::plan;
pub use pipeline::Backend;
pub use pipeline::Pipeline;
pub use pipeline::Wrapping;
pub use slot::TracerSlot;
