//! The `?` operator converts errors on the way out, through `From`, so a
//! function can surface one error type while calling into another.
use vstd::prelude::*;

verus! {

pub struct ErrorTypeOne;

pub struct ErrorTypeTwo;

pub struct ErrorTypeThree;

impl From<ErrorTypeOne> for ErrorTypeTwo {
    fn from(e: ErrorTypeOne) -> (r: Self) {
        ErrorTypeTwo
    }
}

impl vstd::std_specs::convert::FromSpecImpl<ErrorTypeOne> for ErrorTypeTwo {
    open spec fn obeys_from_spec() -> bool {
        true
    }

    open spec fn from_spec(e: ErrorTypeOne) -> Self {
        ErrorTypeTwo
    }
}

pub fn returns_error_type_one() -> (r: Result<(), ErrorTypeOne>)
    ensures
        r is Err,
{
    Err(ErrorTypeOne)
}

/// The conversion to `ErrorTypeTwo` is automatic when `?` is used.
pub fn returns_error_type_two() -> (r: Result<(), ErrorTypeTwo>)
    ensures
        r is Err,
{
    Ok(returns_error_type_one()?)
}

} // verus!
