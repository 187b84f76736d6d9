//! Planning the export pipeline.
//!
//! Start-up is told two things about where finished spans go: whether to
//! print them locally or send them to a remote collector, and, optionally, a
//! batching policy. From these it settles, once, which exporter to construct
//! and how to drive it: through a batching processor that follows the policy,
//! or through a simple processor that exports each span as it ends. The two
//! ways of driving the exporter exclude each other.
//!
//! The policy itself is not looked into here; it is carried to whoever builds
//! the processor.
//!
//! A batching processor works in the background, and the transport to a
//! remote collector does too, so a pipeline with either needs an asynchronous
//! runtime to be built in. Only the local sink with a simple processor needs
//! none.
use vstd::prelude::*;

verus! {

/// Where finished spans go.
#[derive(Clone, Copy, Debug, PartialEq, Eq, Structural)]
pub enum Backend {
    /// They are printed by this process. Setting this up cannot fail.
    LocalSink,
    /// They are sent to a collector. Setting up the transport can fail.
    RemoteCollector,
}

/// How the exporter is driven.
#[derive(Debug, PartialEq, Eq)]
pub enum Wrapping<P> {
    /// Spans are queued and exported in batches, as the policy says.
    Batch(P),
    /// Each span is exported as it ends.
    Simple,
}

/// The exporter to construct and the way to drive it.
#[derive(Debug, PartialEq, Eq)]
pub struct Pipeline<P> {
    /// Which exporter to construct.
    pub backend: Backend,
    /// Which processor to put the exporter in.
    pub wrapping: Wrapping<P>,
}

/// The backend for the given choice of exporter.
pub open spec fn backend_for(use_stdout_exporter: bool) -> Backend {
    if use_stdout_exporter {
        Backend::LocalSink
    } else {
        Backend::RemoteCollector
    }
}

/// The wrapping for the given batching policy: batching when there is one,
/// simple when there is none.
pub open spec fn wrapping_for<P>(batch: Option<P>) -> Wrapping<P> {
    match batch {
        Some(policy) => Wrapping::Batch(policy),
        None => Wrapping::Simple,
    }
}

/// Settles the pipeline for the given choice of exporter and batching policy.
pub fn plan<P>(use_stdout_exporter: bool, batch: Option<P>) -> (pipeline: Pipeline<P>)
    ensures
        pipeline.backend == backend_for(use_stdout_exporter),
        pipeline.wrapping == wrapping_for(batch),
{
    let backend = if use_stdout_exporter {
        Backend::LocalSink
    } else {
        Backend::RemoteCollector
    };
    let wrapping = match batch {
        Some(policy) => Wrapping::Batch(policy),
        None => Wrapping::Simple,
    };
    Pipeline { backend, wrapping }
}

impl<P> Pipeline<P> {
    /// The pipeline has a part that works in the background: a batching
    /// processor or the transport to a remote collector.
    pub open spec fn works_in_background(self) -> bool {
        self.wrapping is Batch || self.backend == Backend::RemoteCollector
    }

    /// Whether the pipeline must be built inside an asynchronous runtime.
    pub fn needs_runtime(&self) -> (needed: bool)
        ensures
            needed == self.works_in_background(),
    {
        match self.wrapping {
            Wrapping::Batch(_) => true,
            Wrapping::Simple => match self.backend {
                Backend::RemoteCollector => true,
                Backend::LocalSink => false,
            },
        }
    }
}

} // verus!
