use vstd::prelude::*;

verus! {

/// Every way one end-to-end run can fail.
///
/// `InvalidInput` and `EmptyFeatureSet` are detected before any background
/// stage is spawned; `ShapeMismatch` after both loads are joined and before
/// compute is spawned; `WorkerFailed` and `WriteFailed` only at a join
/// boundary. The `String` payloads carry the inner cause for display, so a
/// failed stage never discards its reason.
#[derive(Debug, Clone)]
pub enum PipelineError {
    /// A bad path, an unrecognized file extension, or an unparsable option.
    InvalidInput(String),
    /// The volume and the mask disagree on their spatial shape.
    ShapeMismatch,
    /// Inclusion and omission filtering left nothing to compute.
    EmptyFeatureSet,
    /// A background stage terminated abnormally; the payload wraps the cause.
    WorkerFailed(String),
    /// The output codec failed to write a result volume.
    WriteFailed(String),
}

} // verus!
