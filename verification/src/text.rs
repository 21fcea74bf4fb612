//! Small trusted shims over `std` string operations that vstd leaves
//! unspecified.

use vstd::prelude::*;

verus! {

/// Relies on `str`'s `PartialEq`: string slices compare equal exactly when
/// their character sequences do.
#[verifier::external_body]
pub(crate) fn str_eq(a: &str, b: &str) -> (r: bool)
    ensures
        r == (a@ == b@),
{
    a == b
}

} // verus!
