//! The bootstrap operation.

use vstd::prelude::*;
use crate::error::ErrorCode;

verus! {

/// Who takes part in `initialize`: nobody but the caller, and no record.
#[derive(Clone, Copy, Debug)]
pub struct Initialize {}

/// Bootstraps the program. It needs nothing, touches no record and may be
/// repeated at will: it always succeeds.
pub fn initialize(_ctx: &Initialize) -> (done: Result<(), ErrorCode>)
    ensures
        done == Ok::<(), ErrorCode>(()),
{
    Ok(())
}

} // verus!
