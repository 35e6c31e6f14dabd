//! The rewrite as a whole: parse, wrap the body, write the item out again.

use crate::descriptor::{FunctionDescriptor, FunctionParts};
use crate::emit::{emit, header, source_text, SEPARATOR};
use crate::syntax::{is_function_item, parse, parsed_function, MalformedInput};
use crate::timing::{instrument, instrumented, wrapped_body, TIMER_REPORT, TIMER_START, TIMER_STOP};
use vstd::prelude::*;

verus! {

/// What the rewrite makes of `source`: the text of the timed function where
/// `source` is a function item, the parser's diagnostic where it is not.
pub open spec fn transformed(source: Seq<char>) -> Result<Seq<char>, Seq<char>> {
    match parsed_function(source) {
        Ok(function) => Ok(source_text(instrumented(function))),
        Err(diagnostic) => Err(diagnostic),
    }
}

/// The text of `function` with its body timed: what is left to do once the
/// item has been parsed.
pub fn rewrite(function: FunctionDescriptor) -> (text: String)
    ensures
        text@ == source_text(instrumented(function@)),
{
    let timed = instrument(function);
    emit(&timed)
}

/// Rewrites the function item in `input` so that its body is timed and the
/// elapsed time is logged under the function's name. The visibility and the
/// signature are written out as they were parsed. Text that is not one
/// complete function item is refused, and then nothing is written.
pub fn transform(input: &str) -> (output: Result<String, MalformedInput>)
    ensures
        output is Ok <==> is_function_item(input@),
        match output {
            Ok(text) => transformed(input@) == Ok::<Seq<char>, Seq<char>>(text@),
            Err(error) => transformed(input@) == Err::<Seq<char>, Seq<char>>(error.diagnostic@),
        },
{
    match parse(input) {
        Ok(function) => Ok(rewrite(function)),
        Err(error) => Err(error),
    }
}

/// The rewrite as an attribute sees it: `attr` holds the attribute's own
/// arguments, `item` the function it stands on. The arguments are accepted
/// and have no say in the outcome.
pub fn log_execution_time(attr: &str, item: &str) -> (output: Result<String, MalformedInput>)
    ensures
        output is Ok <==> is_function_item(item@),
        match output {
            Ok(text) => transformed(item@) == Ok::<Seq<char>, Seq<char>>(text@),
            Err(error) => transformed(item@) == Err::<Seq<char>, Seq<char>>(error.diagnostic@),
        },
{
    transform(item)
}

/// Wrapping the body leaves the visibility, the signature and the name of a
/// function as they were, and so the emitted text of the timed function opens
/// with the very header of the untimed one and differs from it in the body
/// alone.
pub proof fn signature_preserved(function: FunctionParts)
    ensures
        instrumented(function).visibility == function.visibility,
        instrumented(function).signature == function.signature,
        instrumented(function).name == function.name,
        header(instrumented(function)) == header(function),
        source_text(instrumented(function)) == header(function) + SEPARATOR@ + wrapped_body(
            function.body,
            function.name,
        ),
        header(function).is_prefix_of(source_text(instrumented(function))),
{
    let text = source_text(instrumented(function));
    assert(text.subrange(0, header(function).len() as int) =~= header(function));
}

/// The old body stands in the new one once and unchanged, right behind the
/// opening piece, and the new body holds nothing else but the fixed pieces and
/// the name.
pub proof fn body_wrapped_verbatim(body: Seq<char>, name: Seq<char>)
    ensures
        wrapped_body(body, name).len() == TIMER_START@.len() + body.len() + TIMER_STOP@.len()
            + name.len() + TIMER_REPORT@.len(),
        wrapped_body(body, name).subrange(
            TIMER_START@.len() as int,
            (TIMER_START@.len() + body.len()) as int,
        ) == body,
{
    let start = TIMER_START@.len() as int;
    assert(wrapped_body(body, name).subrange(start, start + body.len()) =~= body);
}

/// The outcome is a function of the source text: equal inputs give equal
/// outputs, character for character, be it the rewritten text or the
/// diagnostic.
pub proof fn transform_deterministic(first: Seq<char>, second: Seq<char>)
    requires
        first == second,
    ensures
        transformed(first) == transformed(second),
{
}

/// Text that is not one complete function item yields a diagnostic and no
/// rewritten text; a function item always yields text.
pub proof fn malformed_input_rejected(source: Seq<char>)
    ensures
        !is_function_item(source) <==> transformed(source) is Err,
        is_function_item(source) <==> transformed(source) is Ok,
{
}

} // verus!
