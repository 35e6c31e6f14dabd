//! Rewrites the source text of a function so that each call of it is timed
//! and the elapsed time is logged.

pub mod descriptor;
pub mod emit;
pub mod syntax;
pub mod timing;
pub mod transform;

pub use descriptor::{FunctionDescriptor, FunctionParts};
pub use emit::emit;
pub use syntax::{parse, MalformedInput};
pub use timing::{instrument, wrap_body};
pub use transform::{log_execution_time, rewrite, transform};
