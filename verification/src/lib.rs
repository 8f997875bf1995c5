//! Small, self-contained demonstrations of data-modelling patterns, with the
//! one load-bearing piece — an error value that chains an optional cause —
//! specified and verified in `custom_error`.
#![allow(dead_code)]
#![allow(unused_variables)]

mod a;
pub mod custom_error;
pub mod do_this;
pub mod enums_with_and_without_data;
pub mod not_this;
pub mod question_mark_into_call;
pub mod rename_a_function;
mod rename_a_trait;
pub mod some_module;
pub mod some_trait;
pub mod tuple_structs;
mod type_discovery_trick;
pub mod user;
pub mod utils;
pub mod x;

use crate::some_trait::ClashingTrait;
use vstd::prelude::*;

verus! {

/// A type with nothing but a trait impl to its name.
pub struct Foo;

impl ClashingTrait for Foo {
    fn foo(&self) -> (r: String)
        ensures
            r@ == "foo"@,
    {
        String::from_str("foo")
    }
}

trait FooExt {
    fn cooler_stuff(&self);
}

impl<T> ClashingTrait for Option<T> {
    fn foo(&self) -> (r: String)
        ensures
            self is None ==> r@ == "none"@,
            self is Some ==> r@.len() == 0,
    {
        if self.is_none() {
            String::from_str("none")
        } else {
            String::new()
        }
    }
}

fn dfkjgh() {
    let _built = x::X {};
}

} // verus!
