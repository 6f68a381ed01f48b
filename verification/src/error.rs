use vstd::prelude::*;
use vstd::string::*;

verus! {

/// Every way a verification attempt can fail. Each failure is terminal for
/// the invocation: nothing is retried and nothing is downgraded to success.
#[derive(Debug, Clone, PartialEq, Eq)]
pub enum VerifyError {
    /// The user declined the confirmation prompt. A normal termination path,
    /// reached before any file is read or any network call is made.
    UserAborted,
    /// The requested class name is not a key of the build-artifact map.
    ContractNotFound { name: String },
    /// The manifest path has no parent directory, or traversal or reading of
    /// the workspace failed; `detail` carries the driver's description.
    WorkspacePathError { detail: String },
    /// The HTTP request could not be sent at all.
    TransportSendError,
    /// The response arrived but its body could not be read.
    ResponseReadError,
    /// The service answered with a non-200 status; `message` is the
    /// service's own body text, preserved verbatim.
    ServiceRejected { message: String },
}

/// The human-readable description of each error.
pub open spec fn spec_error_text(e: VerifyError) -> Seq<char> {
    match e {
        VerifyError::UserAborted => "Verification aborted"@,
        VerifyError::ContractNotFound { name } => "Contract named '"@ + name@
            + "' was not found"@,
        VerifyError::WorkspacePathError { detail } => detail@,
        VerifyError::TransportSendError => "Failed to send request to verifier API"@,
        VerifyError::ResponseReadError => "Failed to read verifier API response"@,
        VerifyError::ServiceRejected { message } => message@,
    }
}

impl VerifyError {
    /// The error's description, as the caller reports it.
    pub fn describe(&self) -> (r: String)
        ensures
            r@ == spec_error_text(*self),
    {
        match self {
            VerifyError::UserAborted => "Verification aborted".to_owned(),
            VerifyError::ContractNotFound { name } => {
                let mut out: String = "Contract named '".to_owned();
                out.append(name.as_str());
                out.append("' was not found");
                out
            },
            VerifyError::WorkspacePathError { detail } => detail.clone(),
            VerifyError::TransportSendError => "Failed to send request to verifier API".to_owned(),
            VerifyError::ResponseReadError => "Failed to read verifier API response".to_owned(),
            VerifyError::ServiceRejected { message } => message.clone(),
        }
    }
}

} // verus!
