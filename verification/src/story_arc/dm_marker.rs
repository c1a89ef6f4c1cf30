//! The DM marker form: the colour of a marker's importance.
use vstd::prelude::*;
use crate::text::str_eq;

verus! {

/// The colour of a marker importance chosen in the form ("critical",
/// "major", "normal", "minor"; anything else is grey).
pub open spec fn marker_importance_color_spec(importance: Seq<char>) -> Seq<char> {
    if importance == "critical"@ {
        "#ef4444"@
    } else if importance == "major"@ {
        "#f59e0b"@
    } else if importance == "normal"@ {
        "#3b82f6"@
    } else {
        "#6b7280"@
    }
}

/// The colour of a marker importance chosen in the form.
pub fn get_importance_color(importance: &str) -> (r: &'static str)
    ensures
        r@ == marker_importance_color_spec(importance@),
{
    if str_eq(importance, "critical") {
        "#ef4444"
    } else if str_eq(importance, "major") {
        "#f59e0b"
    } else if str_eq(importance, "normal") {
        "#3b82f6"
    } else {
        "#6b7280"
    }
}

} // verus!
