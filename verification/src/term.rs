//! What the terminal can show.

use vstd::prelude::*;
use vstd::string::StringExecFns;
use crate::text::{lowercase, lowercase_of};

verus! {

/// Whether a lowercase text is one of the two by which terminals announce
/// 24-bit colors.
pub open spec fn names_true_color(lowered: Seq<char>) -> bool {
    lowered == "truecolor"@ || lowered == "24bit"@
}

pub fn announces_true_color(lowered: &str) -> (announced: bool)
    ensures
        announced == names_true_color(lowered@),
{
    let lowered = lowered.to_owned();
    lowered == String::from_str("truecolor") || lowered == String::from_str("24bit")
}

/// Whether the terminal shows 24-bit colors, judged by the value of the
/// environment variable `COLORTERM` (`None` where it is not set or is not
/// text): it does where the value, whatever its case, is `truecolor` or
/// `24bit`.
pub fn true_color(colorterm: Option<&str>) -> (capable: bool)
    ensures
        capable == match colorterm {
            Some(value) => names_true_color(lowercase_of(value@)),
            None => false,
        },
{
    match colorterm {
        Some(value) => {
            let lowercased = lowercase(value);
            announces_true_color(lowercased.as_str())
        },
        None => false,
    }
}

} // verus!
