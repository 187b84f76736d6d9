//! A handle to the tracer that can be cloned and passed around by value.
//!
//! The tracer of a process lives as long as the process. Code that wants to
//! keep "the tracer" in a long-lived structure, or carry it across a point
//! where it may be suspended, takes an [`ArcTracer`]: a reference-counted
//! pointer to a reference to that tracer. Cloning the handle copies no
//! tracer; every clone leads to the tracer the handle was made from.
use crate::outside::share;
use crate::slot::TracerSlot;
use opentelemetry_sdk::trace::Tracer;
use std::ops::Deref;
use std::sync::Arc;
use vstd::prelude::*;
use vstd::std_specs::convert::FromSpecImpl;

verus! {

/// A shared handle to a tracer that lives as long as the process.
pub struct ArcTracer(Arc<&'static Tracer>);

impl View for ArcTracer {
    type V = &'static Tracer;

    /// The tracer the handle leads to.
    closed spec fn view(&self) -> &'static Tracer {
        *self.0
    }
}

impl From<&'static Tracer> for ArcTracer {
    /// A handle to `value`.
    fn from(value: &'static Tracer) -> (handle: Self)
        ensures
            handle@ == value,
    {
        Self(Arc::new(value))
    }
}

impl FromSpecImpl<&'static Tracer> for ArcTracer {
    open spec fn obeys_from_spec() -> bool {
        true
    }

    closed spec fn from_spec(value: &'static Tracer) -> Self {
        ArcTracer(Arc::new(value))
    }
}

impl From<Arc<&'static Tracer>> for ArcTracer {
    /// A handle that shares the tracer, and the count, of `value`.
    fn from(value: Arc<&'static Tracer>) -> (handle: Self)
        ensures
            handle@ == *value,
    {
        Self(value)
    }
}

impl FromSpecImpl<Arc<&'static Tracer>> for ArcTracer {
    open spec fn obeys_from_spec() -> bool {
        true
    }

    closed spec fn from_spec(value: Arc<&'static Tracer>) -> Self {
        ArcTracer(value)
    }
}

impl Deref for ArcTracer {
    type Target = Tracer;

    /// The tracer the handle leads to.
    fn deref(&self) -> (tracer: &Tracer)
        ensures
            tracer == self@,
    {
        &**self.0
    }
}

impl Clone for ArcTracer {
    /// Another handle to the same tracer.
    fn clone(&self) -> (copy: Self)
        ensures
            copy@ == self@,
            copy == *self,
    {
        Self(share(&self.0))
    }
}

/// The tracer published in `slot`. The slot must have been filled: asking for
/// the tracer before start-up has published it is a mistake of the caller.
pub fn tracer(slot: &'static TracerSlot<Tracer>) -> (tracer: &'static Tracer)
    requires
        slot@.is_some(),
    ensures
        Some(*tracer) == slot@,
{
    slot.get()
}

/// A handle to the tracer published in `slot`. The slot must have been
/// filled.
pub fn arc_tracer(slot: &'static TracerSlot<Tracer>) -> (handle: ArcTracer)
    requires
        slot@.is_some(),
    ensures
        Some(*handle@) == slot@,
{
    ArcTracer::from(tracer(slot))
}

} // verus!
