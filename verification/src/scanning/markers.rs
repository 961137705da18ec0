//! Markers embedded in generated payloads so that a reflected payload can be
//! recognised in a response or a DOM.
use vstd::prelude::*;

verus! {

/// The class marker as a character sequence.
pub open spec fn class_marker_spec() -> Seq<char> {
    "dalfox"@
}

/// The value of the `class` attribute carried by HTML payloads.
pub fn class_marker() -> (r: &'static str)
    ensures
        r@ == class_marker_spec(),
{
    "dalfox"
}

} // verus!
