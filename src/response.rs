//! What a response from the provider amounts to.
use crate::error::DownloadError;
use vstd::prelude::*;

verus! {

/// A status in the 2xx range.
pub open spec fn is_success_status(status: u16) -> bool {
    200 <= status < 300
}

/// Whether `status` is in the 2xx range.
pub fn is_success(status: u16) -> (r: bool)
    ensures
        r == is_success_status(status),
{
    200 <= status && status < 300
}

/// The payload of a response with `status` and `body`: the whole body where the
/// status is a success, and otherwise an error that carries both.
pub fn response_payload(status: u16, body: Vec<u8>) -> (r: Result<Vec<u8>, DownloadError>)
    ensures
        is_success_status(status) ==> r == Ok::<Vec<u8>, DownloadError>(body),
        !is_success_status(status) ==> r == Err::<Vec<u8>, DownloadError>(
            DownloadError::HttpStatus { status, body },
        ),
{
    if is_success(status) {
        Ok(body)
    } else {
        Err(DownloadError::HttpStatus { status, body })
    }
}

} // verus!
