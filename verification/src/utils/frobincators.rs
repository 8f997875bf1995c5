use vstd::prelude::*;

verus! {

pub fn frobnicate() {
}

} // verus!
