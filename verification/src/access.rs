//! Ownership checks: a creator may only see and change what it owns.

use vstd::prelude::*;
use crate::error::{AppError, ErrorView};

verus! {

/// Outcome of an ownership check on a record looked up by id: `owner` is the
/// owning creator when the record exists; `missing` is the not-found message.
pub open spec fn access_spec(owner: Option<u128>, requester: u128, missing: Seq<char>) -> Result<(), ErrorView> {
    match owner {
        None => Err(ErrorView::NotFound(missing)),
        Some(o) => if o == requester {
            Ok(())
        } else {
            Err(ErrorView::Forbidden)
        },
    }
}

/// Checks that the record exists and belongs to `requester`.
pub fn check_ownership(owner: Option<u128>, requester: u128, missing: &str) -> (r: Result<(), AppError>)
    ensures
        match access_spec(owner, requester, missing@) {
            Ok(()) => r is Ok,
            Err(e) => r is Err && r->Err_0@ == e,
        },
        r is Ok <==> owner == Some(requester),
{
    match owner {
        None => Err(AppError::not_found(missing)),
        Some(o) => if o == requester {
            Ok(())
        } else {
            Err(AppError::Forbidden)
        },
    }
}

} // verus!
