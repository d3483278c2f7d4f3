//! How a connection task reports the outcome of shutting down its helpers.
use vstd::prelude::*;

use crate::interface::ClosedReason;

verus! {

/// The close result of one helper task, given whether the close signal
/// could be sent and whether the task acknowledged it.
pub fn close_outcome(sent: bool, acknowledged: bool) -> (r: Result<ClosedReason, String>)
    ensures
        !sent ==> (r matches Ok(ClosedReason::Partial(m)) && m@ == "signal channel closed"@),
        sent && !acknowledged ==> (r matches Ok(ClosedReason::Partial(m)) && m@ == "close callback closed"@),
        sent && acknowledged ==> r == Ok::<ClosedReason, String>(ClosedReason::Clean),
{
    if !sent {
        Ok(ClosedReason::Partial(String::from_str("signal channel closed")))
    } else if !acknowledged {
        Ok(ClosedReason::Partial(String::from_str("close callback closed")))
    } else {
        Ok(ClosedReason::Clean)
    }
}

/// Combines the close results of two helpers as `Result::and` does: the
/// first error, else the second result.
pub fn combine_close(first: Result<ClosedReason, String>, second: Result<ClosedReason, String>) -> (r: Result<ClosedReason, String>)
    ensures
        match first {
            Ok(_) => r == second,
            Err(e) => r == Err::<ClosedReason, String>(e),
        },
{
    match first {
        Ok(_) => second,
        Err(e) => Err(e),
    }
}

} // verus!
