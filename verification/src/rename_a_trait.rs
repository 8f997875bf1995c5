//! Sometimes a trait only needs to be in scope so its methods resolve; if
//! its name clashes, import it as `_`.
use crate::Foo;
use crate::some_trait::ClashingTrait as _;
use vstd::prelude::*;

verus! {

trait ClashingTrait {
}

fn use_foo() {
    let x = Foo;
    let _line = x.foo();
}

} // verus!
