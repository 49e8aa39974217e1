//! Storage transactions: whether the changes that a call made are kept.
use crate::support::DispatchError;
use vstd::prelude::*;

verus! {

/// Keep the storage `after` that a call produced if the call succeeded, else go
/// back to the storage `before` it; the call's result is handed on unchanged.
/// Transactions nest: the storage kept is the enclosing transaction's.
pub fn with_transaction_result<S, R>(before: S, after: S, res: Result<R, DispatchError>) -> (r: (
    S,
    Result<R, DispatchError>,
))
    ensures
        r.1 == res,
        r.0 == (if res is Ok {
            after
        } else {
            before
        }),
{
    if res.is_ok() {
        (after, res)
    } else {
        (before, res)
    }
}

/// Run a call without keeping anything it changed: the storage goes back to
/// `before` whatever the call's result, which is handed on unchanged.
pub fn simulate_execution<S, R>(before: S, after: S, res: Result<R, DispatchError>) -> (r: (
    S,
    Result<R, DispatchError>,
))
    ensures
        r.1 == res,
        r.0 == before,
{
    (before, res)
}

} // verus!
