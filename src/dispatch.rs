//! Classification of the transport's answer to one request.
use crate::error::BpxError;
use vstd::prelude::*;

verus! {

pub open spec fn is_success(status: u16) -> bool {
    200 <= status <= 299
}

/// The body of a successful response, ready to decode; any other status is an API error
/// that carries the status and the raw body, never a decode failure or an empty result.
pub fn success_body(status: u16, body: String) -> (r: Result<String, BpxError>)
    ensures
        is_success(status) ==> r == Ok::<String, BpxError>(body),
        !is_success(status) ==> r == Err::<String, BpxError>(
            BpxError::Api { status, body },
        ),
{
    if 200 <= status && status <= 299 {
        Ok(body)
    } else {
        Err(BpxError::Api { status, body })
    }
}

} // verus!
