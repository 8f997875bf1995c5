//! Getting help from the compiler: annotate a `let` with a wrong type and
//! the error names the type actually returned.
use vstd::prelude::*;

verus! {

/// A function whose return type a reader may not guess at first sight.
fn what_type_does_this_return() -> (r: (&'static str, &'static str))
    ensures
        r.0@ == "foo"@,
        r.1@ == "bar"@,
{
    ("foo", "bar")
}

/// Bind the result without an annotation, then let the compiler tell you
/// what the exact type is.
fn function() {
    let pair = what_type_does_this_return();
}

} // verus!
