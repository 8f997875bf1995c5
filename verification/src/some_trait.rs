use vstd::prelude::*;

verus! {

/// The capability every implementor offers: a line of text to show.
pub trait ClashingTrait {
    fn foo(&self) -> String;
}

} // verus!
