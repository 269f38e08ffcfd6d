//! Push notifications through an ntfy server: target resolution, priority
//! validation, URL building and result mapping, verified; the HTTP POST
//! belongs to the embedding application.

use vstd::prelude::*;

verus! {

use std::sync::Arc;
use crate::ToolResult;
use crate::security::SecurityPolicy;
use crate::text::{push_str, quoted_list, quoted_list_spec, str_eq, trim_trailing, trim_trailing_spec, views_of};

pub struct NtfyTargetConfig {
    pub name: String,
    pub host: String,
    pub topic: String,
}

pub struct NtfyConfig {
    pub enabled: bool,
    pub default_target: Option<String>,
    pub timeout_secs: u64,
    pub targets: Vec<NtfyTargetConfig>,
}

pub struct NtfyTool {
    pub security: Arc<SecurityPolicy>,
    pub config: NtfyConfig,
}

pub open spec fn ntfy_description() -> Seq<char> {
    "Send a push notification via ntfy to a configured topic. Supports multiple named targets with different hosts and topics."@
}

pub open spec fn ntfy_target_names(targets: Seq<NtfyTargetConfig>) -> Seq<Seq<char>> {
    targets.map_values(|t: NtfyTargetConfig| t.name@)
}

pub open spec fn has_ntfy_target(targets: Seq<NtfyTargetConfig>, name: Seq<char>) -> bool {
    exists|i: int| 0 <= i < targets.len() && targets[i].name@ == name
}

pub open spec fn is_first_ntfy_target(
    targets: Seq<NtfyTargetConfig>,
    name: Seq<char>,
    i: int,
) -> bool {
    &&& 0 <= i < targets.len()
    &&& targets[i].name@ == name
    &&& forall|j: int| 0 <= j < i ==> targets[j].name@ != name
}

pub open spec fn no_target_msg() -> Seq<char> {
    "No target specified and no default_target configured"@
}

pub open spec fn unknown_ntfy_target_msg(name: Seq<char>, targets: Seq<NtfyTargetConfig>) -> Seq<
    char,
> {
    "Unknown ntfy target '"@ + name + "'. Available targets: "@ + quoted_list_spec(
        ntfy_target_names(targets),
    )
}

/// The effective target name: the caller's, else the configured default.
pub open spec fn effective_target(request: Option<&str>, fallback: Option<String>) -> Option<
    Seq<char>,
> {
    match request {
        Some(n) => Some(n@),
        None => match fallback {
            Some(d) => Some(d@),
            None => None,
        },
    }
}

/// The publish URL: the host with trailing slashes removed, a slash, and the
/// topic.
pub open spec fn ntfy_url_spec(host: Seq<char>, topic: Seq<char>) -> Seq<char> {
    trim_trailing_spec(host, '/') + "/"@ + topic
}

pub open spec fn ntfy_sent_msg(body: Seq<char>) -> Seq<char> {
    "ntfy notification sent successfully. Response: "@ + body
}

pub open spec fn ntfy_http_error_msg(status: Seq<char>) -> Seq<char> {
    "ntfy API returned status "@ + status
}

impl NtfyTool {
    pub fn new(security: Arc<SecurityPolicy>, config: NtfyConfig) -> (r: NtfyTool)
        ensures
            r.security == security,
            r.config == config,
    {
        NtfyTool { security, config }
    }

    pub fn name(&self) -> (r: &str)
        ensures
            r@ == "ntfy"@,
    {
        "ntfy"
    }

    pub fn description(&self) -> (r: &str)
        ensures
            r@ == ntfy_description(),
    {
        "Send a push notification via ntfy to a configured topic. Supports multiple named targets with different hosts and topics."
    }

    /// Resolves the requested target (or the configured default) to its
    /// configuration; a missing or unknown target is answered with the
    /// matching message.
    pub fn resolve_target(&self, name: Option<&str>) -> (r: Result<usize, String>)
        ensures
            match r {
                Ok(i) => effective_target(name, self.config.default_target) matches Some(n)
                    && is_first_ntfy_target(self.config.targets@, n, i as int),
                Err(e) => match effective_target(name, self.config.default_target) {
                    None => e@ == no_target_msg(),
                    Some(n) => !has_ntfy_target(self.config.targets@, n) && e@
                        == unknown_ntfy_target_msg(n, self.config.targets@),
                },
            },
    {
        let target_name: &str = match name {
            Some(n) => n,
            None => match &self.config.default_target {
                Some(d) => d.as_str(),
                None => {
                    return Err(
                        "No target specified and no default_target configured".to_owned(),
                    );
                },
            },
        };
        let n = self.config.targets.len();
        let mut i: usize = 0;
        while i < n
            invariant
                0 <= i <= n,
                n == self.config.targets@.len(),
                effective_target(name, self.config.default_target) == Some(target_name@),
                forall|j: int| 0 <= j < i ==> self.config.targets@[j].name@ != target_name@,
            decreases n - i,
        {
            if str_eq(self.config.targets[i].name.as_str(), target_name) {
                return Ok(i);
            }
            i = i + 1;
        }
        let mut names: Vec<String> = Vec::new();
        let mut k: usize = 0;
        while k < n
            invariant
                0 <= k <= n,
                n == self.config.targets@.len(),
                names@.len() == k,
                forall|j: int| 0 <= j < k ==> names@[j]@ == self.config.targets@[j].name@,
            decreases n - k,
        {
            names.push(self.config.targets[k].name.clone());
            k = k + 1;
        }
        let mut msg = String::new();
        push_str(&mut msg, "Unknown ntfy target '");
        push_str(&mut msg, target_name);
        push_str(&mut msg, "'. Available targets: ");
        let quoted = quoted_list(&names);
        push_str(&mut msg, quoted.as_str());
        proof {
            let a = views_of(names@);
            let b = ntfy_target_names(self.config.targets@);
            assert(forall|j: int| 0 <= j < n ==> a[j] == b[j]);
            assert(a =~= b);
            assert(msg@ =~= unknown_ntfy_target_msg(target_name@, self.config.targets@));
        }
        Err(msg)
    }

    /// The priority must lie in `1 ..= 5` when given.
    pub fn validate_priority(priority: Option<i64>) -> (r: Result<Option<i64>, ToolResult>)
        ensures
            match r {
                Ok(p) => p == priority && match priority {
                    None => true,
                    Some(v) => 1 <= v <= 5,
                },
                Err(result) => {
                    &&& priority matches Some(v) && !(1 <= v <= 5)
                    &&& !result.success
                    &&& result.output@.len() == 0
                    &&& result.error matches Some(e) && e@ == ("Invalid 'priority': "@
                        + crate::text::dec_i64_spec(priority->0 as int)
                        + ". Expected integer in range 1..=5"@)
                },
            },
    {
        match priority {
            None => Ok(None),
            Some(v) => {
                if 1 <= v && v <= 5 {
                    Ok(Some(v))
                } else {
                    let mut msg = String::new();
                    push_str(&mut msg, "Invalid 'priority': ");
                    let digits = crate::text::i64_to_string(v);
                    push_str(&mut msg, digits.as_str());
                    push_str(&mut msg, ". Expected integer in range 1..=5");
                    Err(ToolResult::failure(msg))
                }
            },
        }
    }

    /// Builds the publish URL for a target.
    pub fn publish_url(target: &NtfyTargetConfig) -> (r: String)
        ensures
            r@ == ntfy_url_spec(target.host@, target.topic@),
    {
        let mut url = String::new();
        let host = trim_trailing(target.host.as_str(), '/');
        push_str(&mut url, host);
        push_str(&mut url, "/");
        push_str(&mut url, target.topic.as_str());
        url
    }

    /// Maps the server's response to the tool's result.
    pub fn map_response(ok: bool, status: &str, body: String) -> (r: ToolResult)
        ensures
            r.success == ok,
            if ok {
                r.error is None && r.output@ == ntfy_sent_msg(body@)
            } else {
                r.output == body && (r.error matches Some(e) && e@ == ntfy_http_error_msg(status@))
            },
    {
        if ok {
            let mut out = String::new();
            push_str(&mut out, "ntfy notification sent successfully. Response: ");
            push_str(&mut out, body.as_str());
            ToolResult::ok(out)
        } else {
            let mut msg = String::new();
            push_str(&mut msg, "ntfy API returned status ");
            push_str(&mut msg, status);
            ToolResult { success: false, output: body, error: Some(msg) }
        }
    }
}

} // verus!
