//! From the parts of a function back to the source text of one item.

use crate::descriptor::{FunctionDescriptor, FunctionParts};
use vstd::prelude::*;
use vstd::string::*;

verus! {

/// What stands between two neighbouring parts of the emitted text.
pub const SEPARATOR: &'static str = " ";

/// Everything of the item that comes before its body: the visibility, where
/// there is one, and the signature.
pub open spec fn header(function: FunctionParts) -> Seq<char> {
    if function.visibility.len() == 0 {
        function.signature
    } else {
        function.visibility + SEPARATOR@ + function.signature
    }
}

/// The source text of the item: its header, then its body.
pub open spec fn source_text(function: FunctionParts) -> Seq<char> {
    header(function) + SEPARATOR@ + function.body
}

/// Writes the item out as source text. A private function has no visibility,
/// and then the text begins with the signature.
pub fn emit(function: &FunctionDescriptor) -> (text: String)
    ensures
        text@ == source_text(function@),
{
    let mut text = String::new();
    if !function.visibility.as_str().is_empty() {
        text.append(function.visibility.as_str());
        text.append(SEPARATOR);
    }
    text.append(function.signature.as_str());
    text.append(SEPARATOR);
    text.append(function.body.as_str());
    text
}

} // verus!
