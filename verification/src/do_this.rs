//! Import the parent module of a function, so the call site names both.
use crate::utils::frobincators;
use vstd::prelude::*;

verus! {

fn some_function() {
    frobincators::frobnicate()
}

} // verus!
