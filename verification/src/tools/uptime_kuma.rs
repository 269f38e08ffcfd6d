//! Querying Uptime Kuma status pages and pushing heartbeats: target
//! resolution, action and parameter validation, and the request URLs are
//! verified; the HTTP requests and the status-page rendering (which reads
//! floating-point uptime ratios) belong to the embedding application.

use vstd::prelude::*;

verus! {

use std::sync::Arc;
use crate::ToolResult;
use crate::security::SecurityPolicy;
use crate::text::{
    push_str, quoted_list, quoted_list_spec, str_eq, trim, trim_spec, trim_trailing,
    trim_trailing_spec, views_of,
};

pub struct UptimeKumaTarget {
    pub name: String,
    pub base_url: String,
    pub slug: String,
    pub notes: Option<String>,
}

pub struct UptimeKumaConfig {
    pub enabled: bool,
    pub timeout_secs: u64,
    pub connect_timeout_secs: u64,
    pub targets: Vec<UptimeKumaTarget>,
}

pub struct UptimeKumaTool {
    pub security: Arc<SecurityPolicy>,
    pub config: UptimeKumaConfig,
    pub description: String,
}

pub open spec fn kuma_description_base() -> Seq<char> {
    "Query Uptime Kuma status pages or push heartbeats to monitors."@
}

pub open spec fn kuma_target_desc(target: UptimeKumaTarget) -> Seq<char> {
    "\n- \""@ + target.name@ + "\" ("@ + target.base_url@ + ", slug: "@ + target.slug@ + ")"@ + (
    match target.notes {
        Some(n) => " — "@ + n@,
        None => Seq::<char>::empty(),
    })
}

pub open spec fn kuma_targets_desc(targets: Seq<UptimeKumaTarget>) -> Seq<char>
    decreases targets.len(),
{
    if targets.len() == 0 {
        Seq::<char>::empty()
    } else {
        kuma_targets_desc(targets.drop_last()) + kuma_target_desc(targets.last())
    }
}

pub open spec fn kuma_description_spec(config: UptimeKumaConfig) -> Seq<char> {
    if config.targets@.len() == 0 {
        kuma_description_base()
    } else {
        kuma_description_base() + " Available targets:"@ + kuma_targets_desc(config.targets@)
    }
}

pub open spec fn kuma_target_names(targets: Seq<UptimeKumaTarget>) -> Seq<Seq<char>> {
    targets.map_values(|t: UptimeKumaTarget| t.name@)
}

pub open spec fn has_kuma_target(targets: Seq<UptimeKumaTarget>, name: Seq<char>) -> bool {
    exists|i: int| 0 <= i < targets.len() && targets[i].name@ == name
}

pub open spec fn is_first_kuma_target(
    targets: Seq<UptimeKumaTarget>,
    name: Seq<char>,
    i: int,
) -> bool {
    &&& 0 <= i < targets.len()
    &&& targets[i].name@ == name
    &&& forall|j: int| 0 <= j < i ==> targets[j].name@ != name
}

pub open spec fn unknown_kuma_target_msg(name: Seq<char>, targets: Seq<UptimeKumaTarget>) -> Seq<
    char,
> {
    "Unknown uptime_kuma target '"@ + name + "'. Available targets: "@ + quoted_list_spec(
        kuma_target_names(targets),
    )
}

/// What URL encoding makes of a text, as `urlencoding::encode` computes it: a
/// function of the characters alone.
pub uninterp spec fn url_encoded(s: Seq<char>) -> Seq<char>;

/// Relies on `urlencoding::encode`: percent-encodes every byte outside the
/// unreserved set, a function of the input alone.
#[verifier::external_body]
fn url_encode(s: &str) -> (r: String)
    ensures
        r@ == url_encoded(s@),
{
    urlencoding::encode(s).into_owned()
}

/// The status-page configuration URL of a target.
pub open spec fn kuma_config_url_spec(target: UptimeKumaTarget) -> Seq<char> {
    trim_trailing_spec(target.base_url@, '/') + "/api/status-page/"@ + target.slug@
}

/// The status-page heartbeat URL of a target.
pub open spec fn kuma_heartbeat_url_spec(target: UptimeKumaTarget) -> Seq<char> {
    trim_trailing_spec(target.base_url@, '/') + "/api/status-page/heartbeat/"@ + target.slug@
}

/// The push-heartbeat URL: token and status in the path and query, with the
/// optional message and ping URL-encoded.
pub open spec fn kuma_push_url_spec(
    target: UptimeKumaTarget,
    token: Seq<char>,
    status: Seq<char>,
    message: Option<Seq<char>>,
    ping: Option<Seq<char>>,
) -> Seq<char> {
    trim_trailing_spec(target.base_url@, '/') + "/api/push/"@ + token + "?status="@ + status + (
    match message {
        Some(m) => "&msg="@ + url_encoded(m),
        None => Seq::<char>::empty(),
    }) + (match ping {
        Some(p) => "&ping="@ + url_encoded(p),
        None => Seq::<char>::empty(),
    })
}

pub open spec fn kuma_pushed_msg(body: Seq<char>) -> Seq<char> {
    "Heartbeat pushed successfully. Response: "@ + body
}

pub open spec fn kuma_http_error_msg(status: Seq<char>) -> Seq<char> {
    "Uptime Kuma push API returned status "@ + status
}

pub open spec fn kuma_status_http_error_msg(status: Seq<char>) -> Seq<char> {
    "Uptime Kuma API returned status "@ + status
}

impl UptimeKumaTool {
    pub fn new(security: Arc<SecurityPolicy>, config: UptimeKumaConfig) -> (r: UptimeKumaTool)
        ensures
            r.security == security,
            r.config == config,
            r.description@ == kuma_description_spec(config),
    {
        let description = Self::build_description(&config);
        UptimeKumaTool { security, config, description }
    }

    pub fn build_description(config: &UptimeKumaConfig) -> (r: String)
        ensures
            r@ == kuma_description_spec(*config),
    {
        let mut desc = String::new();
        push_str(&mut desc, "Query Uptime Kuma status pages or push heartbeats to monitors.");
        if config.targets.len() == 0 {
            return desc;
        }
        push_str(&mut desc, " Available targets:");
        let ghost before = desc@;
        let n = config.targets.len();
        let mut i: usize = 0;
        while i < n
            invariant
                0 <= i <= n,
                n == config.targets@.len(),
                desc@ == before + kuma_targets_desc(config.targets@.take(i as int)),
            decreases n - i,
        {
            let target = &config.targets[i];
            push_str(&mut desc, "\n- \"");
            push_str(&mut desc, target.name.as_str());
            push_str(&mut desc, "\" (");
            push_str(&mut desc, target.base_url.as_str());
            push_str(&mut desc, ", slug: ");
            push_str(&mut desc, target.slug.as_str());
            push_str(&mut desc, ")");
            match &target.notes {
                Some(notes) => {
                    push_str(&mut desc, " — ");
                    push_str(&mut desc, notes.as_str());
                },
                None => {},
            }
            proof {
                let t = config.targets@.take(i + 1);
                assert(t.last() == config.targets@[i as int]);
                assert(t.drop_last() =~= config.targets@.take(i as int));
                assert(kuma_targets_desc(t) == kuma_targets_desc(t.drop_last()) + kuma_target_desc(
                    t.last(),
                ));
                assert(desc@ =~= before + kuma_targets_desc(t));
            }
            i = i + 1;
        }
        proof {
            assert(config.targets@.take(n as int) =~= config.targets@);
        }
        desc
    }

    pub fn name(&self) -> (r: &str)
        ensures
            r@ == "uptime_kuma"@,
    {
        "uptime_kuma"
    }

    pub fn description(&self) -> (r: &str)
        ensures
            r@ == self.description@,
    {
        self.description.as_str()
    }

    /// Looks the target name up in the configuration; an unknown name is
    /// answered with the enumerating message.
    pub fn resolve_target(&self, name: &str) -> (r: Result<usize, String>)
        ensures
            match r {
                Ok(i) => is_first_kuma_target(self.config.targets@, name@, i as int),
                Err(e) => !has_kuma_target(self.config.targets@, name@) && e@
                    == unknown_kuma_target_msg(name@, self.config.targets@),
            },
    {
        let n = self.config.targets.len();
        let mut i: usize = 0;
        while i < n
            invariant
                0 <= i <= n,
                n == self.config.targets@.len(),
                forall|j: int| 0 <= j < i ==> self.config.targets@[j].name@ != name@,
            decreases n - i,
        {
            if str_eq(self.config.targets[i].name.as_str(), name) {
                return Ok(i);
            }
            i = i + 1;
        }
        let mut names: Vec<String> = Vec::new();
        let mut k: usize = 0;
        while k < n
            invariant
                0 <= k <= n,
                n == self.config.targets@.len(),
                names@.len() == k,
                forall|j: int| 0 <= j < k ==> names@[j]@ == self.config.targets@[j].name@,
            decreases n - k,
        {
            names.push(self.config.targets[k].name.clone());
            k = k + 1;
        }
        let mut msg = String::new();
        push_str(&mut msg, "Unknown uptime_kuma target '");
        push_str(&mut msg, name);
        push_str(&mut msg, "'. Available targets: ");
        let quoted = quoted_list(&names);
        push_str(&mut msg, quoted.as_str());
        proof {
            let a = views_of(names@);
            let b = kuma_target_names(self.config.targets@);
            assert(forall|j: int| 0 <= j < n ==> a[j] == b[j]);
            assert(a =~= b);
            assert(msg@ =~= unknown_kuma_target_msg(name@, self.config.targets@));
        }
        Err(msg)
    }

    /// The push token must be present and non-blank.
    pub fn validate_push_token(token: Option<&str>) -> (r: Result<String, ToolResult>)
        ensures
            match r {
                Ok(t) => token matches Some(s) && t@ == trim_spec(s@) && t@.len() > 0,
                Err(result) => {
                    &&& match token {
                        None => true,
                        Some(s) => trim_spec(s@).len() == 0,
                    }
                    &&& !result.success
                    &&& result.output@.len() == 0
                    &&& result.error matches Some(e) && e@ == (
                    "Missing 'push_token' parameter (required for push action)"@)
                },
            },
    {
        match token {
            Some(s) => {
                let t = trim(s);
                if t.is_empty() {
                    Err(
                        ToolResult::failure(
                            "Missing 'push_token' parameter (required for push action)".to_owned(),
                        ),
                    )
                } else {
                    Ok(t.to_owned())
                }
            },
            None => Err(
                ToolResult::failure(
                    "Missing 'push_token' parameter (required for push action)".to_owned(),
                ),
            ),
        }
    }

    /// The push status defaults to `up` and must be `up` or `down`.
    pub fn validate_push_status(status: Option<&str>) -> (r: Result<String, ToolResult>)
        ensures
            match r {
                Ok(s) => {
                    &&& match status {
                        None => s@ == "up"@,
                        Some(v) => s@ == v@,
                    }
                    &&& s@ == "up"@ || s@ == "down"@
                },
                Err(result) => {
                    &&& status matches Some(v) && v@ != "up"@ && v@ != "down"@
                    &&& !result.success
                    &&& result.output@.len() == 0
                    &&& result.error matches Some(e) && e@ == ("Invalid 'push_status': '"@
                        + status->0@ + "'. Must be 'up' or 'down'"@)
                },
            },
    {
        match status {
            None => Ok("up".to_owned()),
            Some(v) => {
                if str_eq(v, "up") || str_eq(v, "down") {
                    Ok(v.to_owned())
                } else {
                    let mut msg = String::new();
                    push_str(&mut msg, "Invalid 'push_status': '");
                    push_str(&mut msg, v);
                    push_str(&mut msg, "'. Must be 'up' or 'down'");
                    Err(ToolResult::failure(msg))
                }
            },
        }
    }

    /// The message for an action other than `status` or `push`.
    pub fn unknown_action_result(action: &str) -> (r: ToolResult)
        ensures
            !r.success,
            r.output@.len() == 0,
            r.error matches Some(e) && e@ == ("Unknown action '"@ + action@
                + "'. Must be 'status' or 'push'"@),
    {
        let mut msg = String::new();
        push_str(&mut msg, "Unknown action '");
        push_str(&mut msg, action);
        push_str(&mut msg, "'. Must be 'status' or 'push'");
        ToolResult::failure(msg)
    }

    pub fn config_url(target: &UptimeKumaTarget) -> (r: String)
        ensures
            r@ == kuma_config_url_spec(*target),
    {
        let mut url = String::new();
        let base = trim_trailing(target.base_url.as_str(), '/');
        push_str(&mut url, base);
        push_str(&mut url, "/api/status-page/");
        push_str(&mut url, target.slug.as_str());
        url
    }

    pub fn heartbeat_url(target: &UptimeKumaTarget) -> (r: String)
        ensures
            r@ == kuma_heartbeat_url_spec(*target),
    {
        let mut url = String::new();
        let base = trim_trailing(target.base_url.as_str(), '/');
        push_str(&mut url, base);
        push_str(&mut url, "/api/status-page/heartbeat/");
        push_str(&mut url, target.slug.as_str());
        url
    }

    /// Builds the push-heartbeat URL, URL-encoding the optional message and
    /// ping.
    pub fn push_url(
        target: &UptimeKumaTarget,
        token: &str,
        status: &str,
        message: Option<&str>,
        ping: Option<&str>,
    ) -> (r: String)
        ensures
            r@ == kuma_push_url_spec(
                *target,
                token@,
                status@,
                match message {
                    Some(m) => Some(m@),
                    None => None,
                },
                match ping {
                    Some(p) => Some(p@),
                    None => None,
                },
            ),
    {
        let mut url = String::new();
        let base = trim_trailing(target.base_url.as_str(), '/');
        push_str(&mut url, base);
        push_str(&mut url, "/api/push/");
        push_str(&mut url, token);
        push_str(&mut url, "?status=");
        push_str(&mut url, status);
        match message {
            Some(m) => {
                push_str(&mut url, "&msg=");
                let encoded = url_encode(m);
                push_str(&mut url, encoded.as_str());
            },
            None => {},
        }
        match ping {
            Some(p) => {
                push_str(&mut url, "&ping=");
                let encoded = url_encode(p);
                push_str(&mut url, encoded.as_str());
            },
            None => {},
        }
        url
    }

    /// Maps the push endpoint's response to the tool's result.
    pub fn map_push_response(ok: bool, status: &str, body: String) -> (r: ToolResult)
        ensures
            r.success == ok,
            if ok {
                r.error is None && r.output@ == kuma_pushed_msg(body@)
            } else {
                r.output == body && (r.error matches Some(e) && e@ == kuma_http_error_msg(status@))
            },
    {
        if ok {
            let mut out = String::new();
            push_str(&mut out, "Heartbeat pushed successfully. Response: ");
            push_str(&mut out, body.as_str());
            ToolResult::ok(out)
        } else {
            let mut msg = String::new();
            push_str(&mut msg, "Uptime Kuma push API returned status ");
            push_str(&mut msg, status);
            ToolResult { success: false, output: body, error: Some(msg) }
        }
    }
}

} // verus!
