use vstd::prelude::*;

pub mod mcp;
pub mod rss;
pub mod schedule;
pub mod security;
pub mod text;
pub mod tools;

verus! {

/// Outcome handed back to the agent loop for every tool invocation.
///
/// Domain-level failures (unknown server, disallowed tool, timeouts, remote
/// errors) travel through this struct with `success == false` and a
/// human-readable message in `error`; they are never raised as hard errors.
#[derive(Debug)]
pub struct ToolResult {
    pub success: bool,
    pub output: String,
    pub error: Option<String>,
}

impl ToolResult {
    /// A failed result carrying a descriptive message and no output.
    pub fn failure(message: String) -> (r: ToolResult)
        ensures
            !r.success,
            r.output@ == Seq::<char>::empty(),
            r.error == Some(message),
    {
        ToolResult { success: false, output: String::new(), error: Some(message) }
    }

    /// A successful result carrying the produced output and no error.
    pub fn ok(output: String) -> (r: ToolResult)
        ensures
            r.success,
            r.output == output,
            r.error is None,
    {
        ToolResult { success: true, output, error: None }
    }
}

} // verus!
