//! The timing instrumentation that is put around a function body.
//!
//! The new body is one block. It takes the time, runs the old body as a
//! closure that is called on the spot, takes the time again, logs the
//! difference at info level and hands back what the closure returned:
//!
//! ```text
//! {
//!     let start = std::time::Instant::now();
//!     let result = (|| <body>)();
//!     let duration = start.elapsed();
//!     log::info!("Execution time of `{}`: {:.2?}", stringify!(<name>), duration);
//!     result
//! }
//! ```
//!
//! The text is emitted with one space between tokens, which is how the parts
//! of a `FunctionDescriptor` are spelled too.

use crate::descriptor::{FunctionDescriptor, FunctionParts};
use vstd::prelude::*;
use vstd::string::*;

verus! {

/// Opens the new block, takes the start time and opens the closure that the
/// old body becomes.
pub const TIMER_START: &'static str =
    "{ let start = std :: time :: Instant :: now () ; let result = (|| ";

/// Closes and calls the closure, takes the elapsed time and begins the log
/// statement, up to the place of the function's name.
pub const TIMER_STOP: &'static str =
    ") () ; let duration = start . elapsed () ; log :: info ! (\"Execution time of `{}`: {:.2?}\" , stringify ! (";

/// Ends the log statement, yields the closure's result and closes the block.
pub const TIMER_REPORT: &'static str = ") , duration) ; result }";

/// The block that times `body` and logs under `name`: the three fixed pieces
/// with the body and the name between them, each exactly once.
pub open spec fn wrapped_body(body: Seq<char>, name: Seq<char>) -> Seq<char> {
    TIMER_START@ + body + TIMER_STOP@ + name + TIMER_REPORT@
}

/// The function with its body wrapped and everything else as it was.
pub open spec fn instrumented(function: FunctionParts) -> FunctionParts {
    FunctionParts {
        visibility: function.visibility,
        signature: function.signature,
        name: function.name,
        body: wrapped_body(function.body, function.name),
    }
}

/// Builds the block that times `body` and logs under `name`.
pub fn wrap_body(body: &str, name: &str) -> (wrapped: String)
    ensures
        wrapped@ == wrapped_body(body@, name@),
{
    let mut wrapped = String::from_str(TIMER_START);
    wrapped.append(body);
    wrapped.append(TIMER_STOP);
    wrapped.append(name);
    wrapped.append(TIMER_REPORT);
    wrapped
}

/// Replaces the body of `function` by the block that times it. Visibility,
/// signature and name are moved over untouched.
pub fn instrument(function: FunctionDescriptor) -> (timed: FunctionDescriptor)
    ensures
        timed@ == instrumented(function@),
        timed.visibility@ == function.visibility@,
        timed.signature@ == function.signature@,
        timed.name@ == function.name@,
{
    let body = wrap_body(function.body.as_str(), function.name.as_str());
    FunctionDescriptor {
        visibility: function.visibility,
        signature: function.signature,
        name: function.name,
        body,
    }
}

} // verus!
