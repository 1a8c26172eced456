//! The error surface of the command set.
//!
//! Every operation fails with exactly one of these variants; none is ever
//! retried.  `InvalidArgument` covers anything detectable before a network
//! call, `PromptFailed` an interactive input stream that could not deliver a
//! value, `MismatchedConfirmation` a deletion confirmation that did not match
//! the expected text, and `ServiceError` a failure reported by the remote
//! service, carried through with its original message.

use vstd::prelude::*;

verus! {

/// An error terminating one command invocation.
#[derive(Debug, PartialEq, Eq)]
pub enum CmdError {
    /// Malformed or missing input, detected before any network call.
    InvalidArgument(String),
    /// Interactive input collection could not complete.
    PromptFailed(String),
    /// The operator's deletion confirmation did not match the expected text.
    MismatchedConfirmation,
    /// A failure reported by the remote service, message carried through.
    ServiceError(String),
}

impl CmdError {
    /// The single human-readable line printed for this error.
    pub fn message(&self) -> (r: String)
        ensures
            r@ == self.message_spec(),
    {
        match self {
            CmdError::InvalidArgument(m) => m.clone(),
            CmdError::PromptFailed(m) => {
                let mut s = String::new();
                s.append("prompt failed: ");
                s.append(m.as_str());
                s
            },
            CmdError::MismatchedConfirmation => String::from_str("mismatched confirmation"),
            CmdError::ServiceError(m) => m.clone(),
        }
    }

    /// What `message` returns, as a sequence of characters.
    pub open spec fn message_spec(&self) -> Seq<char> {
        match self {
            CmdError::InvalidArgument(m) => m@,
            CmdError::PromptFailed(m) => "prompt failed: "@ + m@,
            CmdError::MismatchedConfirmation => "mismatched confirmation"@,
            CmdError::ServiceError(m) => m@,
        }
    }
}

/// Whether `e` is an `InvalidArgument` carrying exactly the message `m`.
pub open spec fn is_invalid_argument(e: CmdError, m: Seq<char>) -> bool {
    match e {
        CmdError::InvalidArgument(s) => s@ == m,
        _ => false,
    }
}

/// Whether `e` is a `PromptFailed` carrying exactly the message `m`.
pub open spec fn is_prompt_failed(e: CmdError, m: Seq<char>) -> bool {
    match e {
        CmdError::PromptFailed(s) => s@ == m,
        _ => false,
    }
}

} // verus!
