//! The trade-summary query: paired round-trip trades for a date, fetched
//! from the trade studio service.

use vstd::prelude::*;

verus! {

use crate::ToolResult;
use crate::text::push_str;

pub struct TradeSummaryTool {
    pub workspace_dir: std::path::PathBuf,
}

pub open spec fn trade_summary_description() -> Seq<char> {
    "Returns filled orders paired into round-trip trades with P&L calculations for a given date from the trade studio service."@
}

/// The request URL for a date's trade summary.
pub open spec fn trade_summary_url_spec(base: Seq<char>, date: Seq<char>) -> Seq<char> {
    base + "/api/v1/trades/summary?date="@ + date
}

pub open spec fn trade_http_error_msg(status: Seq<char>) -> Seq<char> {
    "Trade studio API returned status "@ + status
}

impl TradeSummaryTool {
    pub fn new(workspace_dir: std::path::PathBuf) -> (r: TradeSummaryTool)
        ensures
            r.workspace_dir == workspace_dir,
    {
        TradeSummaryTool { workspace_dir }
    }

    pub fn name(&self) -> (r: &str)
        ensures
            r@ == "trade_summary"@,
    {
        "trade_summary"
    }

    pub fn description(&self) -> (r: &str)
        ensures
            r@ == trade_summary_description(),
    {
        "Returns filled orders paired into round-trip trades with P&L calculations for a given date from the trade studio service."
    }

    /// The date parameter is required; without it the request is refused
    /// before any network work.
    pub fn validate_date(date: Option<&str>) -> (r: Result<String, ToolResult>)
        ensures
            match r {
                Ok(d) => date matches Some(s) && d@ == s@,
                Err(result) => {
                    &&& date is None
                    &&& !result.success
                    &&& result.output@.len() == 0
                    &&& result.error matches Some(e) && e@ == (
                    "Missing required parameter \"date\"."@)
                },
            },
    {
        match date {
            Some(d) => Ok(d.to_owned()),
            None => Err(
                ToolResult::failure("Missing required parameter \"date\".".to_owned()),
            ),
        }
    }

    /// Builds the request URL for a date.
    pub fn summary_url(base: &str, date: &str) -> (r: String)
        ensures
            r@ == trade_summary_url_spec(base@, date@),
    {
        let mut url = String::new();
        push_str(&mut url, base);
        push_str(&mut url, "/api/v1/trades/summary?date=");
        push_str(&mut url, date);
        url
    }

    /// Maps the service's response to the tool's result: a success status
    /// passes the body through, anything else fails with the status named.
    pub fn map_response(ok: bool, status: &str, body: String) -> (r: ToolResult)
        ensures
            r.success == ok,
            r.output == body,
            if ok {
                r.error is None
            } else {
                r.error matches Some(e) && e@ == trade_http_error_msg(status@)
            },
    {
        if ok {
            ToolResult::ok(body)
        } else {
            let mut msg = String::new();
            push_str(&mut msg, "Trade studio API returned status ");
            push_str(&mut msg, status);
            ToolResult { success: false, output: body, error: Some(msg) }
        }
    }
}

} // verus!
