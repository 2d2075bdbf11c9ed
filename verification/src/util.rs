//! Conversions between native integer conventions and Rust types.

use vstd::prelude::*;

verus! {

/// The native encoding of a boolean: one for true, zero for false.
pub open spec fn spec_bool_to_cint(b: bool) -> i32 {
    if b {
        1
    } else {
        0
    }
}

/// The native encoding of a boolean: one for true, zero for false.
pub fn bool_to_cint(b: bool) -> (r: i32)
    ensures
        r == spec_bool_to_cint(b),
{
    if b {
        1
    } else {
        0
    }
}

/// The native library treats any nonzero value as true.
pub fn cint_to_bool(b: i32) -> (r: bool)
    ensures
        r == (b != 0),
{
    b != 0
}

/// Same convention for byte-sized native values.
pub fn cuchar_to_bool(b: u8) -> (r: bool)
    ensures
        r == (b != 0),
{
    b != 0
}

/// An absent preference is encoded as the native "don't care" value.
pub fn or_dont_care(v: Option<i32>) -> (r: i32)
    ensures
        r == crate::util::spec_or_dont_care(v),
{
    match v {
        Some(x) => x,
        None => -1,
    }
}

/// The value [`or_dont_care`] hands to the native library.
pub open spec fn spec_or_dont_care(v: Option<i32>) -> i32 {
    match v {
        Some(x) => x,
        None => -1i32,
    }
}

} // verus!
