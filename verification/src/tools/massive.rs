//! The market-status query against the Massive service: query validation,
//! `.env` value parsing and message formatting, verified; the HTTP request
//! and the key lookup on disk belong to the embedding application.

use vstd::prelude::*;

verus! {

use vstd::string::StrSliceExecFns;
use crate::ToolResult;
use crate::text::{find_idx, find_sub, lemma_find_idx_none, lemma_find_idx_some, push_str, trim, trim_spec};

#[verifier::external_type_specification]
#[verifier::external_body]
pub struct ExPathBuf(std::path::PathBuf);

pub struct MassiveMarketStatusTool {
    pub workspace_dir: std::path::PathBuf,
}

/// A value read from a `.env` line with its quotes removed: a pair of double
/// or single quotes around the trimmed text is stripped.
pub open spec fn unquote_spec(t: Seq<char>) -> Seq<char> {
    if t.len() >= 2 && ((t[0] == '"' && t.last() == '"') || (t[0] == '\'' && t.last() == '\'')) {
        t.subrange(1, t.len() - 1)
    } else {
        t
    }
}

/// The parse of a `.env` value: trimmed, unquoted, and cut before an inline
/// ` #` comment.
pub open spec fn parse_env_value_spec(raw: Seq<char>) -> Seq<char> {
    let u = unquote_spec(trim_spec(raw));
    let k = find_idx(u, " #"@);
    if k >= 0 {
        trim_spec(u.take(k))
    } else {
        trim_spec(u)
    }
}

pub open spec fn massive_description() -> Seq<char> {
    "Query Massive.com for US stock market status. Use query=\"now\" to get current open/closed/extended-hours status per exchange. Use query=\"upcoming\" to get upcoming market holidays and early-close dates. Requires MASSIVE_API_KEY in the workspace .env file."@
}

pub open spec fn massive_status_url_spec(query: Seq<char>) -> Seq<char> {
    "https://api.massive.com/v1/marketstatus/"@ + query
}

pub open spec fn massive_http_error_msg(status: Seq<char>) -> Seq<char> {
    "Massive API returned status "@ + status
}

impl MassiveMarketStatusTool {
    pub fn new(workspace_dir: std::path::PathBuf) -> (r: MassiveMarketStatusTool)
        ensures
            r.workspace_dir == workspace_dir,
    {
        MassiveMarketStatusTool { workspace_dir }
    }

    pub fn name(&self) -> (r: &str)
        ensures
            r@ == "massive_market_status"@,
    {
        "massive_market_status"
    }

    pub fn description(&self) -> (r: &str)
        ensures
            r@ == massive_description(),
    {
        "Query Massive.com for US stock market status. Use query=\"now\" to get current open/closed/extended-hours status per exchange. Use query=\"upcoming\" to get upcoming market holidays and early-close dates. Requires MASSIVE_API_KEY in the workspace .env file."
    }

    /// Parses one `.env` value: trims it, strips a matching pair of quotes,
    /// and cuts off an inline ` #` comment.
    pub fn parse_env_value(raw: &str) -> (r: String)
        ensures
            r@ == parse_env_value_spec(raw@),
    {
        let t = trim(raw);
        let n = t.unicode_len();
        let unquoted: &str = if n >= 2 {
            let first = t.get_char(0);
            let last = t.get_char(n - 1);
            if (first == '"' && last == '"') || (first == '\'' && last == '\'') {
                t.substring_char(1, n - 1)
            } else {
                t
            }
        } else {
            t
        };
        proof {
            assert(unquoted@ =~= unquote_spec(trim_spec(raw@)));
        }
        match find_sub(unquoted, " #") {
            Some(k) => {
                proof {
                    lemma_find_idx_some(unquoted@, " #"@, k as int);
                }
                let cut = unquoted.substring_char(0, k);
                trim(cut).to_owned()
            },
            None => {
                proof {
                    lemma_find_idx_none(unquoted@, " #"@);
                }
                trim(unquoted).to_owned()
            },
        }
    }

    /// The `query` parameter must be exactly `now` or `upcoming`; anything
    /// else is refused before any network work.
    pub fn validate_query(query: Option<&str>) -> (r: Result<String, ToolResult>)
        ensures
            match r {
                Ok(q) => {
                    &&& query matches Some(s) && s@ == q@
                    &&& q@ == "now"@ || q@ == "upcoming"@
                },
                Err(result) => {
                    &&& !result.success
                    &&& result.output@.len() == 0
                    &&& match query {
                        None => result.error matches Some(e) && e@ == (
                        "Missing required parameter \"query\"."@),
                        Some(other) => {
                            &&& other@ != "now"@ && other@ != "upcoming"@
                            &&& result.error matches Some(e) && e@ == ("Invalid query \""@
                                + other@ + "\". Expected \"now\" or \"upcoming\"."@)
                        },
                    }
                },
            },
    {
        match query {
            None => Err(
                ToolResult::failure("Missing required parameter \"query\".".to_owned()),
            ),
            Some(q) => {
                if crate::text::str_eq(q, "now") || crate::text::str_eq(q, "upcoming") {
                    Ok(q.to_owned())
                } else {
                    let mut msg = String::new();
                    push_str(&mut msg, "Invalid query \"");
                    push_str(&mut msg, q);
                    push_str(&mut msg, "\". Expected \"now\" or \"upcoming\".");
                    Err(ToolResult::failure(msg))
                }
            },
        }
    }

    /// Builds the request URL for a validated query.
    pub fn status_url(query: &str) -> (r: String)
        ensures
            r@ == massive_status_url_spec(query@),
    {
        let mut url = String::new();
        push_str(&mut url, "https://api.massive.com/v1/marketstatus/");
        push_str(&mut url, query);
        url
    }

    /// Maps the service's response to the tool's result.
    pub fn map_response(ok: bool, status: &str, body: String) -> (r: ToolResult)
        ensures
            r.success == ok,
            r.output == body,
            if ok {
                r.error is None
            } else {
                r.error matches Some(e) && e@ == massive_http_error_msg(status@)
            },
    {
        if ok {
            ToolResult::ok(body)
        } else {
            let mut msg = String::new();
            push_str(&mut msg, "Massive API returned status ");
            push_str(&mut msg, status);
            ToolResult { success: false, output: body, error: Some(msg) }
        }
    }
}

} // verus!
