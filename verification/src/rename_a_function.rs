//! Renaming imports: when a name would clash with a local one, import it
//! under another name.
use crate::some_module::ClashingName as Renamed;
use vstd::prelude::*;

verus! {

pub struct ClashingName;

fn some_function() {
    let _taken = Renamed;
}

} // verus!
