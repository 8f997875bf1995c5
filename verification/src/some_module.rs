use vstd::prelude::*;

verus! {

pub struct ClashingName;

} // verus!
