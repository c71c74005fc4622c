//! What the transfer needs to know of the source's answer.

use crate::error::TransferError;
use vstd::prelude::*;

verus! {

/// A status code signals success when it lies in the range 200 to 299.
pub open spec fn is_success(status: u16) -> bool {
    200 <= status <= 299
}

/// Decides from the status of the source's response whether there is a
/// stream to read. Any status outside the success range is an error that
/// carries the status.
pub fn check_status(status: u16) -> (r: Result<(), TransferError>)
    ensures
        is_success(status) ==> r is Ok,
        !is_success(status) ==> r == Err::<(), TransferError>(
            TransferError::SourceUnavailable { status },
        ),
{
    if 200 <= status && status <= 299 {
        Ok(())
    } else {
        Err(TransferError::SourceUnavailable { status })
    }
}

} // verus!
