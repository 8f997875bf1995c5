use vstd::prelude::*;

verus! {

/// This is allowed: the "child" can use the "parent's" private symbols.
fn private() {
    crate::a::private()
}

} // verus!
