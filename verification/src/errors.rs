//! The single, flat error taxonomy of the pipeline.  Every failure — no
//! adapter, a rejected device request, a compile failure, a lost or failed
//! map completion — is terminal and carries one human-readable message.

use vstd::prelude::*;

verus! {

/// A terminal pipeline failure with its human-readable message.
#[derive(Debug)]
pub enum Error {
    GpuError(String),
}

impl Error {
    /// The message a failed run reports.
    pub open spec fn spec_message(self) -> Seq<char> {
        match self {
            Error::GpuError(m) => m@,
        }
    }

    /// The message a failed run reports.
    pub fn message(&self) -> (m: &str)
        ensures
            m@ == self.spec_message(),
    {
        match self {
            Error::GpuError(m) => m.as_str(),
        }
    }
}

/// Wraps a message in the flat error taxonomy.
pub fn gpu_error(e: &str) -> (r: Error)
    ensures
        r matches Error::GpuError(m) && m@ == e@,
{
    Error::GpuError(e.to_owned())
}

} // verus!
