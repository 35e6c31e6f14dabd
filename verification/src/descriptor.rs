//! The parts of a function item that the rewrite reads.

use vstd::prelude::*;

verus! {

/// One function item, taken apart into the pieces of source text that the
/// rewrite handles. The visibility and the signature are carried through as
/// they are; the name is the identifier that the signature declares; the body
/// is the block, braces included.
#[derive(Debug, Clone, PartialEq, Eq)]
pub struct FunctionDescriptor {
    /// The visibility qualifier, empty for a private function.
    pub visibility: String,
    /// Everything from the qualifiers before `fn` to the end of the where
    /// clause.
    pub signature: String,
    /// The bare identifier of the function.
    pub name: String,
    /// The block that the function executes.
    pub body: String,
}

/// What a `FunctionDescriptor` stands for in contracts: the same four pieces
/// as sequences of characters.
pub struct FunctionParts {
    pub visibility: Seq<char>,
    pub signature: Seq<char>,
    pub name: Seq<char>,
    pub body: Seq<char>,
}

impl View for FunctionDescriptor {
    type V = FunctionParts;

    open spec fn view(&self) -> FunctionParts {
        FunctionParts {
            visibility: self.visibility@,
            signature: self.signature@,
            name: self.name@,
            body: self.body@,
        }
    }
}

} // verus!
