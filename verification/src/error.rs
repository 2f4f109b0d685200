//! How a generation can fail.

use crate::models::SectionType;
use vstd::prelude::*;

verus! {

/// The one failure that a generation reports.
#[derive(Debug, Copy, Clone, PartialEq, Eq, Structural)]
pub enum GenerateError {
    /// The sink could not be opened or initialised; holds the OS error code.
    SinkInitFailed(i32),
    /// The sink rejected the file header; holds the OS error code.
    HeaderCommitFailed(i32),
    /// The sink rejected a section; holds the OS error code.
    SectionCommitFailed(i32),
    /// The sink could not lay out, flush or release the file; holds the OS error code.
    FinalizeFailed(i32),
    /// The document holds a section of a kind that has no bytes to emit.
    UnsupportedSectionKind(SectionType),
}

impl GenerateError {
    /// The OS error code that came with a failure at the sink.
    pub open spec fn spec_os_code(self) -> Option<i32> {
        match self {
            GenerateError::SinkInitFailed(code) => Some(code),
            GenerateError::HeaderCommitFailed(code) => Some(code),
            GenerateError::SectionCommitFailed(code) => Some(code),
            GenerateError::FinalizeFailed(code) => Some(code),
            GenerateError::UnsupportedSectionKind(_) => None,
        }
    }

    /// The OS error code that came with a failure at the sink; `None` for a
    /// failure that the document caused.
    #[verifier::when_used_as_spec(spec_os_code)]
    pub fn os_code(self) -> (code: Option<i32>)
        ensures
            code == self.spec_os_code(),
    {
        match self {
            GenerateError::SinkInitFailed(code) => Some(code),
            GenerateError::HeaderCommitFailed(code) => Some(code),
            GenerateError::SectionCommitFailed(code) => Some(code),
            GenerateError::FinalizeFailed(code) => Some(code),
            GenerateError::UnsupportedSectionKind(_) => None,
        }
    }
}

} // verus!
