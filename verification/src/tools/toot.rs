//! Posting a status to Mastodon through the `toot` command line client:
//! the gates, argument validation and result mapping are verified; running
//! the command belongs to the embedding application.

use vstd::prelude::*;

verus! {

use std::sync::Arc;
use crate::ToolResult;
use crate::security::{
    rate_limit_blocked_msg, readonly_blocked_msg, security_preflight, SecurityPolicy,
};
use crate::text::{push_str, str_eq, trim, trim_spec};

pub struct TootTool {
    pub security: Arc<SecurityPolicy>,
}

pub open spec fn toot_description() -> Seq<char> {
    "Post a status to Mastodon using the toot CLI. Requires toot to be installed and authenticated. Set TOOT_BIN in .env to override the binary path."@
}

pub open spec fn toot_denial(result: ToolResult, msg: Seq<char>) -> bool {
    &&& !result.success
    &&& result.output@.len() == 0
    &&& result.error matches Some(e) && e@ == msg
}

pub open spec fn invalid_visibility_msg(v: Seq<char>) -> Seq<char> {
    "Invalid 'visibility': \""@ + v + "\". Expected one of: public, unlisted, private, direct"@
}

pub open spec fn toot_not_found_msg(bin: Seq<char>) -> Seq<char> {
    "toot binary not found at \""@ + bin
        + "\". Install toot or set TOOT_BIN in .env to the full path."@
}

pub open spec fn toot_timeout_msg() -> Seq<char> {
    "toot command timed out after 30s"@
}

pub open spec fn valid_visibility(v: Seq<char>) -> bool {
    v == "public"@ || v == "unlisted"@ || v == "private"@ || v == "direct"@
}

/// What the tool decides before the command runs.
pub enum TootDispatch {
    Invalid { message: String },
    Denied { result: ToolResult },
    Post { message: String },
}

impl TootTool {
    pub fn new(security: Arc<SecurityPolicy>) -> (r: TootTool)
        ensures
            r.security == security,
    {
        TootTool { security }
    }

    pub fn name(&self) -> (r: &str)
        ensures
            r@ == "toot"@,
    {
        "toot"
    }

    pub fn description(&self) -> (r: &str)
        ensures
            r@ == toot_description(),
    {
        "Post a status to Mastodon using the toot CLI. Requires toot to be installed and authenticated. Set TOOT_BIN in .env to override the binary path."
    }

    /// Every decision before the command runs, in the tool's order: the
    /// security gates, then a non-blank message, then a known visibility.
    pub fn preflight(
        &self,
        can_act: bool,
        record_ok: bool,
        message_arg: Option<&str>,
        visibility: Option<&str>,
    ) -> (r: TootDispatch)
        ensures
            match r {
                TootDispatch::Denied { result } => {
                    if !can_act {
                        toot_denial(result, readonly_blocked_msg())
                    } else if !record_ok {
                        toot_denial(result, rate_limit_blocked_msg())
                    } else {
                        &&& message_arg matches Some(m) && trim_spec(m@).len() > 0
                        &&& visibility matches Some(v) && !valid_visibility(v@) && toot_denial(
                            result,
                            invalid_visibility_msg(v@),
                        )
                    }
                },
                TootDispatch::Invalid { message } => {
                    &&& can_act
                    &&& record_ok
                    &&& match message_arg {
                        None => true,
                        Some(s) => trim_spec(s@).len() == 0,
                    }
                    &&& message@ == ("Missing 'message' parameter"@)
                },
                TootDispatch::Post { message: m } => {
                    &&& can_act
                    &&& record_ok
                    &&& message_arg matches Some(s) && m@ == trim_spec(s@) && m@.len() > 0
                    &&& match visibility {
                        None => true,
                        Some(v) => valid_visibility(v@),
                    }
                },
            },
    {
        match security_preflight(can_act, record_ok) {
            Some(result) => {
                return TootDispatch::Denied { result };
            },
            None => {},
        }
        let m = match message_arg {
            None => {
                return TootDispatch::Invalid {
                    message: "Missing 'message' parameter".to_owned(),
                };
            },
            Some(s) => {
                let t = trim(s);
                if t.is_empty() {
                    return TootDispatch::Invalid {
                        message: "Missing 'message' parameter".to_owned(),
                    };
                }
                t
            },
        };
        match visibility {
            None => {},
            Some(v) => {
                if !(str_eq(v, "public") || str_eq(v, "unlisted") || str_eq(v, "private") || str_eq(
                    v,
                    "direct",
                )) {
                    let mut msg = String::new();
                    push_str(&mut msg, "Invalid 'visibility': \"");
                    push_str(&mut msg, v);
                    push_str(
                        &mut msg,
                        "\". Expected one of: public, unlisted, private, direct",
                    );
                    return TootDispatch::Denied { result: ToolResult::failure(msg) };
                }
            },
        }
        TootDispatch::Post { message: m.to_owned() }
    }

    /// Maps the finished command to the tool's result: a zero exit status
    /// succeeds with the output (or a fixed note when it printed nothing), a
    /// non-zero status fails with the diagnostic stream, falling back to the
    /// output stream when that was empty.
    pub fn map_output(exit_ok: bool, stdout: &str, stderr: &str) -> (r: ToolResult)
        ensures
            ({
                let out = trim_spec(stdout@);
                let err = trim_spec(stderr@);
                if exit_ok {
                    &&& r.success
                    &&& r.error is None
                    &&& r.output@ == (if out.len() == 0 {
                        "Posted successfully."@
                    } else {
                        out
                    })
                } else {
                    &&& !r.success
                    &&& r.output@ == out
                    &&& r.error matches Some(e) && e@ == ("toot exited with error: "@ + (if err.len()
                        == 0 {
                        out
                    } else {
                        err
                    }))
                }
            }),
    {
        let out = trim(stdout);
        let err = trim(stderr);
        if exit_ok {
            if out.is_empty() {
                ToolResult::ok("Posted successfully.".to_owned())
            } else {
                ToolResult::ok(out.to_owned())
            }
        } else {
            let mut msg = String::new();
            push_str(&mut msg, "toot exited with error: ");
            if err.is_empty() {
                push_str(&mut msg, out);
            } else {
                push_str(&mut msg, err);
            }
            ToolResult { success: false, output: out.to_owned(), error: Some(msg) }
        }
    }
}

} // verus!
