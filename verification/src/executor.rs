use vstd::prelude::*;

use crate::error::VerifyError;

verus! {

/// The remote service's verification report on success: the full response
/// body text, whose internal structure is opaque to this pipeline.
#[derive(Debug, Clone, PartialEq, Eq)]
pub struct VerifyResponse {
    pub message: String,
}

/// What a single HTTP exchange came to, as the driver observed it. The
/// driver performs exactly one POST per invocation and reports here; the
/// classification below is the verified part of the Submission Executor.
#[derive(Debug, Clone, PartialEq, Eq)]
pub enum ExchangeOutcome {
    /// The request could not be sent (connection refused, timeout, DNS
    /// failure, malformed response).
    SendFailed,
    /// A response arrived but its body could not be read.
    ReadFailed,
    /// A response arrived with this status code and body text.
    Response { status: u16, body: String },
}

/// How each exchange outcome is classified: status 200 is success carrying
/// the body verbatim; any other status is a service rejection carrying the
/// body verbatim; transport failures keep their own kinds.
pub open spec fn spec_classify(o: ExchangeOutcome) -> Result<VerifyResponse, VerifyError> {
    match o {
        ExchangeOutcome::SendFailed => Err(VerifyError::TransportSendError),
        ExchangeOutcome::ReadFailed => Err(VerifyError::ResponseReadError),
        ExchangeOutcome::Response { status, body } => if status == 200 {
            Ok(VerifyResponse { message: body })
        } else {
            Err(VerifyError::ServiceRejected { message: body })
        },
    }
}

/// Classify one HTTP exchange. Success exactly when the status is 200, the
/// response body carried through unchanged either way.
pub fn classify_response(outcome: ExchangeOutcome) -> (r: Result<VerifyResponse, VerifyError>)
    ensures
        r == spec_classify(outcome),
{
    match outcome {
        ExchangeOutcome::SendFailed => Err(VerifyError::TransportSendError),
        ExchangeOutcome::ReadFailed => Err(VerifyError::ResponseReadError),
        ExchangeOutcome::Response { status, body } => {
            if status == 200 {
                Ok(VerifyResponse { message: body })
            } else {
                Err(VerifyError::ServiceRejected { message: body })
            }
        },
    }
}

} // verus!
