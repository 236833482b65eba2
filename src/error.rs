//! Errors of the library.
use vstd::prelude::*;

verus! {

/// What went wrong with one unit of work, or with the pipeline as a whole.
#[derive(Clone, Copy, Debug, PartialEq, Eq, Structural)]
pub enum PipelineError {
    /// Configuration could not be read or is malformed.
    Config,
    /// Malformed address or key text.
    Parse,
    /// The node is unreachable or rejected the request.
    Transport,
    /// No recent block reference could be obtained.
    Freshness,
    /// The key material is malformed.
    Signing,
}

/// The description of an error.
pub open spec fn error_text(e: PipelineError) -> Seq<char> {
    match e {
        PipelineError::Config => "malformed configuration"@,
        PipelineError::Parse => "malformed address or key text"@,
        PipelineError::Transport => "transport failure"@,
        PipelineError::Freshness => "no recent block reference"@,
        PipelineError::Signing => "malformed key material"@,
    }
}

impl PipelineError {
    /// A short description of the error, for diagnostics.
    pub fn description(&self) -> (r: &'static str)
        ensures
            r@ == error_text(*self),
    {
        match self {
            PipelineError::Config => "malformed configuration",
            PipelineError::Parse => "malformed address or key text",
            PipelineError::Transport => "transport failure",
            PipelineError::Freshness => "no recent block reference",
            PipelineError::Signing => "malformed key material",
        }
    }
}

} // verus!
