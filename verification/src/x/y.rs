use vstd::prelude::*;

verus! {

pub struct X {}

} // verus!
