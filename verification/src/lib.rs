//! Caching and orchestration core for a slide-narration pipeline.
//!
//! A batch of presentation slides (image plus spoken note text) is turned
//! into narrated audio by an external text-to-speech collaborator.  This
//! library holds the verified logic of that pipeline: the canonical cache
//! record that ties an audio artifact to the exact note text and synthesis
//! configuration it was generated from, the per-slide orchestration that
//! decides whether synthesis can be skipped, the batch driver that aborts
//! on the first hard error, and the deterministic path scheme.  All I/O
//! (network, filesystem, external transcoder processes) is performed by an
//! unverified shell that drives these state machines.
#![allow(unused_imports)]

use vstd::prelude::*;

pub mod batch;
pub mod cache;
pub mod codec;
pub mod orchestrate;
pub mod paths;
pub mod video;

verus! {

/// One unit of the presentation: an ordinal index (which determines every
/// artifact path) and the note text to be spoken over the slide's image.
#[derive(Debug)]
pub struct Slide {
    pub idx: u64,
    pub note: String,
}

impl Clone for Slide {
    fn clone(&self) -> (r: Self)
        ensures
            r.idx == self.idx,
            r.note@ == self.note@,
    {
        Slide { idx: self.idx, note: self.note.clone() }
    }
}

/// How a slide was completed: its audio was found valid in the cache, or it
/// was freshly synthesized.
#[derive(Clone, Copy, Debug, PartialEq, Eq, Structural)]
pub enum Outcome {
    Skipped,
    Generated,
}

/// The kinds of hard failure the pipeline distinguishes.  Every failure
/// aborts the current slide and, by propagation, the whole batch.
#[derive(Clone, Copy, Debug, PartialEq, Eq, Structural)]
pub enum ErrorKind {
    /// No credential is configured for the provider.
    Configuration,
    /// The synthesis collaborator failed or returned malformed data.
    Synthesis,
    /// The artifact or cache-record write failed.
    Persistence,
    /// An external transcoder process exited with a non-zero status.
    ExternalProcess,
}

/// A hard failure, with a diagnostic message passed through verbatim from
/// whatever collaborator reported it.
#[derive(Debug)]
pub struct GenerationError {
    pub kind: ErrorKind,
    pub message: String,
}

impl Clone for GenerationError {
    fn clone(&self) -> (r: Self)
        ensures
            r.kind == self.kind,
            r.message@ == self.message@,
    {
        GenerationError { kind: self.kind, message: self.message.clone() }
    }
}

} // verus!
