//! Reading a function item out of source text.
//!
//! The grammar is Rust's own and is not restated here: the text is handed to
//! `syn`, and what comes back is copied into a `FunctionDescriptor`, each part
//! spelled as `proc_macro2` prints a token stream. Nothing in this module is
//! proved about the parser. The contracts only give its answer a name, so that
//! the functions that build on it can say exactly what they make of it.

use crate::descriptor::{FunctionDescriptor, FunctionParts};
use quote::ToTokens;
use vstd::prelude::*;

verus! {

/// The input is not one complete function item.
#[derive(Debug, Clone, PartialEq, Eq)]
pub struct MalformedInput {
    /// What the parser found wrong, in its own words.
    pub diagnostic: String,
}

/// What `syn` makes of `source` when asked for a single function item: the
/// parts of the item, or the message of the error it reports.
pub uninterp spec fn parsed_function(source: Seq<char>) -> Result<FunctionParts, Seq<char>>;

/// Whether `source` is one complete function item.
pub open spec fn is_function_item(source: Seq<char>) -> bool {
    parsed_function(source) is Ok
}

/// Parses `source` with `syn::parse_str::<syn::ItemFn>` and prints the visibility,
/// the signature, the identifier and the block of the item with `to_token_stream`
/// and `to_string`; on failure it takes the message of the `syn::Error`.
/// Attributes on the item are parsed and left behind.
///
/// Trusted: the outcome depends on `source` alone. Inside a macro expansion
/// `proc_macro2` would lex and print through the compiler, whose spelling is
/// not this crate's to promise, so for the length of the call it is told, with
/// `proc_macro2::fallback::force`, to use its own lexer and printer, and with
/// `unforce` to choose again afterwards. Outside a macro expansion the two
/// calls change nothing.
#[verifier::external_body]
fn parse_item(source: &str) -> (outcome: Result<FunctionDescriptor, String>)
    ensures
        match outcome {
            Ok(function) => parsed_function(source@) == Ok::<FunctionParts, Seq<char>>(function@),
            Err(message) => parsed_function(source@) == Err::<FunctionParts, Seq<char>>(message@),
        },
{
    proc_macro2::fallback::force();
    let outcome = match syn::parse_str::<syn::ItemFn>(source) {
        Ok(item) => Ok(FunctionDescriptor {
            visibility: item.vis.to_token_stream().to_string(),
            signature: item.sig.to_token_stream().to_string(),
            name: item.sig.ident.to_string(),
            body: item.block.to_token_stream().to_string(),
        }),
        Err(error) => Err(error.to_string()),
    };
    proc_macro2::fallback::unforce();
    outcome
}

/// Takes `source` apart. It succeeds exactly on a single complete function
/// item; anything else is refused with the parser's diagnostic.
pub fn parse(source: &str) -> (outcome: Result<FunctionDescriptor, MalformedInput>)
    ensures
        outcome is Ok <==> is_function_item(source@),
        match outcome {
            Ok(function) => parsed_function(source@) == Ok::<FunctionParts, Seq<char>>(function@),
            Err(error) => parsed_function(source@) == Err::<FunctionParts, Seq<char>>(
                error.diagnostic@,
            ),
        },
{
    match parse_item(source) {
        Ok(function) => Ok(function),
        Err(message) => Err(MalformedInput { diagnostic: message }),
    }
}

} // verus!
