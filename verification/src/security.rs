//! The security policy consulted before any state-changing tool action: an
//! autonomy gate ("may the agent act at all") and an hourly action budget.

use vstd::prelude::*;

verus! {

#[derive(Clone, Copy, PartialEq, Eq, Structural, Debug)]
pub enum AutonomyLevel {
    ReadOnly,
    Supervised,
    Full,
}

pub struct SecurityPolicy {
    pub autonomy: AutonomyLevel,
    pub max_actions_per_hour: u32,
    pub allowed_env_vars: Vec<String>,
}

/// An action is admitted by the budget exactly when fewer actions than the
/// hourly cap have already been recorded in the last hour.
pub open spec fn action_within_budget(policy: SecurityPolicy, recent_actions: u32) -> bool {
    recent_actions < policy.max_actions_per_hour
}

/// Reading the named environment variable is permitted exactly when the name
/// is on the allow-list.
pub open spec fn env_var_allowed(policy: SecurityPolicy, name: Seq<char>) -> bool {
    exists|i: int| 0 <= i < policy.allowed_env_vars@.len() && policy.allowed_env_vars@[i]@ == name
}

impl SecurityPolicy {
    /// State-changing actions are permitted at every autonomy level except
    /// read-only.
    pub fn can_act(&self) -> (b: bool)
        ensures
            b == !(self.autonomy is ReadOnly),
    {
        match self.autonomy {
            AutonomyLevel::ReadOnly => false,
            AutonomyLevel::Supervised => true,
            AutonomyLevel::Full => true,
        }
    }

    /// Whether one more action fits the hourly budget, given how many were
    /// recorded in the last hour. The caller owns the counter; this policy
    /// only rules on it.
    pub fn allows_action(&self, recent_actions: u32) -> (b: bool)
        ensures
            b == action_within_budget(*self, recent_actions),
    {
        recent_actions < self.max_actions_per_hour
    }

    /// Whether reading the named environment variable is permitted: the name
    /// must be on the allow-list.
    pub fn is_env_var_allowed(&self, name: &str) -> (b: bool)
        ensures
            b == env_var_allowed(*self, name@),
    {
        let n = self.allowed_env_vars.len();
        let mut i: usize = 0;
        while i < n
            invariant
                0 <= i <= n,
                n == self.allowed_env_vars@.len(),
                forall|j: int| 0 <= j < i ==> self.allowed_env_vars@[j]@ != name@,
            decreases n - i,
        {
            if crate::text::str_eq(self.allowed_env_vars[i].as_str(), name) {
                return true;
            }
            i = i + 1;
        }
        false
    }
}

impl Default for SecurityPolicy {
    /// The default policy: supervised autonomy, a small hourly budget, and no
    /// readable environment variables.
    fn default() -> (r: SecurityPolicy)
        ensures
            r.autonomy is Supervised,
            r.max_actions_per_hour == 10,
            r.allowed_env_vars@.len() == 0,
    {
        SecurityPolicy {
            autonomy: AutonomyLevel::Supervised,
            max_actions_per_hour: 10,
            allowed_env_vars: Vec::new(),
        }
    }
}

/// The message every state-changing tool reports when autonomy is read-only.
pub open spec fn readonly_blocked_msg() -> Seq<char> {
    "Action blocked: autonomy is read-only"@
}

/// The message every state-changing tool reports when the rate limit refuses
/// to record the action.
pub open spec fn rate_limit_blocked_msg() -> Seq<char> {
    "Action blocked: rate limit exceeded"@
}

/// Every state-changing action asks the policy twice: read-only autonomy
/// blocks it, then a rate-limit recording that was not admitted; only with
/// both answers favourable may the tool proceed.
pub fn security_preflight(can_act: bool, record_ok: bool) -> (r: Option<crate::ToolResult>)
    ensures
        match r {
            Some(result) => {
                &&& !result.success
                &&& result.output@.len() == 0
                &&& if !can_act {
                    result.error matches Some(e) && e@ == readonly_blocked_msg()
                } else {
                    !record_ok && (result.error matches Some(e) && e@ == rate_limit_blocked_msg())
                }
            },
            None => can_act && record_ok,
        },
{
    if !can_act {
        Some(crate::ToolResult::failure("Action blocked: autonomy is read-only".to_owned()))
    } else if !record_ok {
        Some(crate::ToolResult::failure("Action blocked: rate limit exceeded".to_owned()))
    } else {
        None
    }
}

/// A policy with a zero hourly budget admits no action, whatever the counter
/// says.
pub proof fn lemma_zero_budget_blocks_all(policy: SecurityPolicy, recent_actions: u32)
    requires
        policy.max_actions_per_hour == 0,
    ensures
        !action_within_budget(policy, recent_actions),
{
}

} // verus!
