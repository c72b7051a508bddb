use vstd::prelude::*;

use crate::run::RunStatus;

verus! {

/// Why a finished run gave no usable reply.
#[derive(Debug, Clone, Copy, PartialEq, Eq, Structural)]
pub enum ContentProblem {
    /// The thread held no message.
    NoMessage,
    /// The newest message had no part.
    NoContent,
    /// The newest message starts with an image, which is not supported.
    ImageUnsupported,
}

/// The failures of a session.
#[derive(Debug, Clone, PartialEq, Eq)]
pub enum SessionError {
    /// A call to the service failed.
    Transport(String),
    /// The run completed, but its reply is missing or unsupported.
    Content(ContentProblem),
    /// The run ended in a state other than completed.
    RunFailed(RunStatus),
    /// The run was still going when the allowed number of reads ran out.
    Timeout,
    /// The credential or the local configuration is missing or malformed.
    Configuration(String),
    /// The local record could not be written.
    Persistence(String),
}

} // verus!
