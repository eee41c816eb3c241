//! Transcription-service integration: the credential precondition and the
//! classification of the service's responses. The network transfer itself is
//! the caller's; it hands back the status and body it received.

use vstd::prelude::*;
use crate::errors::PipelineError;

verus! {

/// A status in the success range.
pub open spec fn spec_status_success(status: u16) -> bool {
    200 <= status < 300
}

/// A server-side (5xx-class) status, treated as likely transient.
pub open spec fn spec_status_transient(status: u16) -> bool {
    500 <= status < 600
}

/// Rejects an empty credential before any network call is made.
pub fn check_credentials(api_key: &str) -> (r: Result<(), PipelineError>)
    ensures
        r is Ok <==> api_key@.len() > 0,
        r is Err ==> r == Err::<(), PipelineError>(PipelineError::MissingCredentials),
{
    if api_key.is_empty() {
        Err(PipelineError::MissingCredentials)
    } else {
        Ok(())
    }
}

/// Classifies a response status: success passes; a server-side (5xx-class)
/// status is likely transient, carrying the status; every other status is a
/// service error, carrying the status and the body verbatim.
pub fn classify_response_status(status: u16, body: String) -> (r: Result<(), PipelineError>)
    ensures
        r is Ok <==> spec_status_success(status),
        spec_status_transient(status) ==> r == Err::<(), PipelineError>(
            PipelineError::LikelyTransient { status },
        ),
        !spec_status_success(status) && !spec_status_transient(status) ==> r == Err::<
            (),
            PipelineError,
        >(PipelineError::ServiceError { status, body }),
{
    if 200 <= status && status < 300 {
        Ok(())
    } else if 500 <= status && status < 600 {
        Err(PipelineError::LikelyTransient { status })
    } else {
        Err(PipelineError::ServiceError { status, body })
    }
}

} // verus!
