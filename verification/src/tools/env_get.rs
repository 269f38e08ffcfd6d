//! Reading an environment variable, restricted to an allow-list.

use vstd::prelude::*;

verus! {

use std::sync::Arc;
use crate::ToolResult;
use crate::security::{env_var_allowed, SecurityPolicy};
use crate::text::push_str;

/// Read an environment variable by name (only allowlisted variables).
pub struct EnvGetTool {
    pub security: Arc<SecurityPolicy>,
}

/// What the tool decides before the environment is touched.
pub enum EnvGetDispatch {
    /// Malformed invocation: the `name` parameter is missing.
    Invalid { message: String },
    /// A domain-level refusal.
    Denied { result: ToolResult },
    /// Read this variable.
    Read,
}

pub open spec fn env_rate_limited_msg() -> Seq<char> {
    "Rate limit exceeded: too many actions in the last hour"@
}

pub open spec fn env_budget_msg() -> Seq<char> {
    "Rate limit exceeded: action budget exhausted"@
}

pub open spec fn env_not_allowed_msg(name: Seq<char>) -> Seq<char> {
    "Environment variable not allowed by security policy: "@ + name
}

pub open spec fn env_not_set_msg(name: Seq<char>) -> Seq<char> {
    "Environment variable not set: "@ + name
}

pub open spec fn env_not_unicode_msg(name: Seq<char>) -> Seq<char> {
    "Environment variable contains invalid Unicode: "@ + name
}

pub open spec fn env_denial(result: ToolResult, msg: Seq<char>) -> bool {
    &&& !result.success
    &&& result.output@.len() == 0
    &&& result.error matches Some(e) && e@ == msg
}

/// What the environment reported for a variable.
pub enum EnvValue {
    Present { value: String },
    NotSet,
    NotUnicode,
}

impl EnvGetTool {
    pub fn new(security: Arc<SecurityPolicy>) -> (r: EnvGetTool)
        ensures
            r.security == security,
    {
        EnvGetTool { security }
    }

    pub fn name(&self) -> (r: &str)
        ensures
            r@ == "env_get"@,
    {
        "env_get"
    }

    pub fn description(&self) -> (r: &str)
        ensures
            r@ == "Read an environment variable by name (only allowlisted variables)"@,
    {
        "Read an environment variable by name (only allowlisted variables)"
    }

    /// Every decision before the environment is read, in the tool's order: a
    /// missing name is a hard error, then the rate limit (current state and
    /// budget), then the allow-list.
    pub fn preflight(&self, rate_limited: bool, record_ok: bool, name: Option<&str>) -> (r:
        EnvGetDispatch)
        ensures
            match r {
                EnvGetDispatch::Invalid { message } => name is None && message@ == (
                "Missing 'name' parameter"@),
                EnvGetDispatch::Denied { result } => {
                    &&& name matches Some(n)
                    &&& if rate_limited {
                        env_denial(result, env_rate_limited_msg())
                    } else if !record_ok {
                        env_denial(result, env_budget_msg())
                    } else {
                        &&& !env_var_allowed(*self.security, n@)
                        &&& env_denial(result, env_not_allowed_msg(n@))
                    }
                },
                EnvGetDispatch::Read => {
                    &&& name matches Some(n)
                    &&& !rate_limited
                    &&& record_ok
                    &&& env_var_allowed(*self.security, n@)
                },
            },
    {
        let n = match name {
            None => {
                return EnvGetDispatch::Invalid { message: "Missing 'name' parameter".to_owned() };
            },
            Some(n) => n,
        };
        if rate_limited {
            let msg = "Rate limit exceeded: too many actions in the last hour".to_owned();
            return EnvGetDispatch::Denied { result: ToolResult::failure(msg) };
        }
        if !record_ok {
            let msg = "Rate limit exceeded: action budget exhausted".to_owned();
            return EnvGetDispatch::Denied { result: ToolResult::failure(msg) };
        }
        if !self.security.is_env_var_allowed(n) {
            let mut msg = String::new();
            push_str(&mut msg, "Environment variable not allowed by security policy: ");
            push_str(&mut msg, n);
            return EnvGetDispatch::Denied { result: ToolResult::failure(msg) };
        }
        EnvGetDispatch::Read
    }

    /// Maps what the environment reported to the tool's result: only a
    /// present, well-formed value succeeds.
    pub fn env_result(name: &str, value: EnvValue) -> (r: ToolResult)
        ensures
            match value {
                EnvValue::Present { value: v } => r.success && r.output == v && r.error is None,
                EnvValue::NotSet => env_denial(r, env_not_set_msg(name@)),
                EnvValue::NotUnicode => env_denial(r, env_not_unicode_msg(name@)),
            },
    {
        match value {
            EnvValue::Present { value: v } => ToolResult::ok(v),
            EnvValue::NotSet => {
                let mut msg = String::new();
                push_str(&mut msg, "Environment variable not set: ");
                push_str(&mut msg, name);
                ToolResult::failure(msg)
            },
            EnvValue::NotUnicode => {
                let mut msg = String::new();
                push_str(&mut msg, "Environment variable contains invalid Unicode: ");
                push_str(&mut msg, name);
                ToolResult::failure(msg)
            },
        }
    }
}

} // verus!
