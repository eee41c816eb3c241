//! The pipeline's error taxonomy.
//!
//! Every failure of the pipeline is reported to the immediate caller as a
//! terminal result carrying one of these variants; nothing is retried here.

use vstd::prelude::*;

verus! {

/// One error type for the whole pipeline.
///
/// - `UnsupportedUrl`: the URL failed the allow-list check; it is rejected
///   before any process or network action.
/// - `ToolNotFound` / `ToolVerificationFailed`: the environment lacks a
///   working external tool.
/// - `ToolExecutionFailed`: an external process exited nonzero; carries its
///   captured diagnostic output.
/// - `ArtifactReadFailed`: the downloaded audio could not be read back.
/// - `MissingCredentials`: no API key was supplied; no network call is made.
/// - `NetworkFailure`: the transcription service could not be reached.
/// - `LikelyTransient`: the service answered with a server-side (5xx-class)
///   status; advisory, results may still materialize out of band.
/// - `ServiceError`: any other non-success status, with the body verbatim.
/// - `MalformedResponse`: a response could not be read in the expected shape.
#[derive(Debug, PartialEq, Eq)]
pub enum PipelineError {
    UnsupportedUrl,
    ToolNotFound { tool: String },
    ToolVerificationFailed { tool: String },
    ToolExecutionFailed { diagnostics: String },
    ArtifactReadFailed,
    MissingCredentials,
    NetworkFailure { detail: String },
    ServiceError { status: u16, body: String },
    LikelyTransient { status: u16 },
    MalformedResponse,
}

} // verus!
