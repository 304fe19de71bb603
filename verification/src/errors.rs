//! The error taxonomy of a run. Every kind is fatal: the run aborts as soon
//! as one is detected and no partial table is rendered. The only non-fatal
//! condition — zero producers supplied — is not an error and never appears
//! here.

use vstd::prelude::*;

verus! {

#[derive(Debug, Clone, PartialEq, Eq)]
pub enum AnnoError {
    /// The producer descriptor string could not be parsed as a structured
    /// URI; detected before any subprocess is launched.
    InvalidProducerSpec { input: String },
    /// The target document could not be read.
    TargetFileReadError { path: String },
    /// The external producer command could not be spawned.
    ProducerLaunchError { command: String },
    /// The producer process exited nonzero or its output capture failed.
    ProducerExecutionError { command: String },
    /// A producer's captured output has a different line count than the
    /// target document.
    AnnotationCountMismatch { producer: String, expected: usize, actual: usize },
}

} // verus!
