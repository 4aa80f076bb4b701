//! Names that a generated test wrapper uses.

use vstd::prelude::*;
use vstd::string::StringExecFns;

verus! {

/// The name under which a test's own function is kept once a wrapper has
/// taken the test's name.
pub open spec fn impl_fn_name_spec(test_name: Seq<char>) -> Seq<char> {
    test_name + "_impl"@
}

/// The name of the function that holds the body of the test `test_name`
/// after a wrapper of that name was generated: the name with `_impl` after
/// it.
pub fn impl_fn_name(test_name: &str) -> (name: String)
    ensures
        name@ == impl_fn_name_spec(test_name@),
{
    let mut name = test_name.to_owned();
    name.append("_impl");
    name
}

} // verus!
