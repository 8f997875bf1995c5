//! "Child" code can use private code from its "parent", but not the other
//! way around.
use vstd::prelude::*;

mod b;

verus! {

fn private() {
}

} // verus!
