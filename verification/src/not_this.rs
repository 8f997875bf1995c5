//! Importing the function itself works, but the bare call site no longer
//! says where the function lives.
use crate::utils::frobincators::frobnicate;
use vstd::prelude::*;

verus! {

fn some_function() {
    frobnicate()
}

} // verus!
