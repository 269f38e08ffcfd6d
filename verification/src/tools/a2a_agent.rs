//! Delegating a message to a remote A2A (Agent-to-Agent) protocol agent:
//! target resolution, argument validation and message formatting are
//! verified; the JSON-RPC exchange over HTTP belongs to the embedding
//! application.

use vstd::prelude::*;

verus! {

use std::sync::Arc;
use crate::ToolResult;
use crate::security::SecurityPolicy;
use crate::text::{
    dec_i64_spec, i64_to_string, join_lines, join_lines_spec, push_str, quoted_list,
    quoted_list_spec, str_eq, trim, trim_spec, u64_to_string, views_of,
};

pub struct A2aAgentTarget {
    pub name: String,
    pub base_url: String,
    pub auth_token: Option<String>,
    pub notes: Option<String>,
}

pub struct A2aConfig {
    pub enabled: bool,
    pub timeout_secs: u64,
    pub connect_timeout_secs: u64,
    pub targets: Vec<A2aAgentTarget>,
}

pub struct A2aAgentTool {
    pub security: Arc<SecurityPolicy>,
    pub config: A2aConfig,
    pub description: String,
}

pub open spec fn a2a_description_base() -> Seq<char> {
    "Send a message to a remote A2A (Agent-to-Agent) protocol agent and receive its response."@
}

pub open spec fn a2a_target_desc(target: A2aAgentTarget) -> Seq<char> {
    "\n- \""@ + target.name@ + "\" ("@ + target.base_url@ + ")"@ + (match target.notes {
        Some(n) => " — "@ + n@,
        None => Seq::<char>::empty(),
    })
}

pub open spec fn a2a_targets_desc(targets: Seq<A2aAgentTarget>) -> Seq<char>
    decreases targets.len(),
{
    if targets.len() == 0 {
        Seq::<char>::empty()
    } else {
        a2a_targets_desc(targets.drop_last()) + a2a_target_desc(targets.last())
    }
}

pub open spec fn a2a_description_spec(config: A2aConfig) -> Seq<char> {
    if config.targets@.len() == 0 {
        a2a_description_base()
    } else {
        a2a_description_base() + " Available agents:"@ + a2a_targets_desc(config.targets@)
    }
}

pub open spec fn a2a_target_names(targets: Seq<A2aAgentTarget>) -> Seq<Seq<char>> {
    targets.map_values(|t: A2aAgentTarget| t.name@)
}

pub open spec fn has_a2a_target(targets: Seq<A2aAgentTarget>, name: Seq<char>) -> bool {
    exists|i: int| 0 <= i < targets.len() && targets[i].name@ == name
}

pub open spec fn is_first_a2a_target(
    targets: Seq<A2aAgentTarget>,
    name: Seq<char>,
    i: int,
) -> bool {
    &&& 0 <= i < targets.len()
    &&& targets[i].name@ == name
    &&& forall|j: int| 0 <= j < i ==> targets[j].name@ != name
}

pub open spec fn unknown_a2a_agent_msg(name: Seq<char>, targets: Seq<A2aAgentTarget>) -> Seq<
    char,
> {
    "Unknown a2a agent '"@ + name + "'. Available agents: "@ + quoted_list_spec(
        a2a_target_names(targets),
    )
}

pub open spec fn a2a_connect_failed_msg(agent: Seq<char>, url: Seq<char>, err: Seq<char>) -> Seq<
    char,
> {
    "Failed to connect to A2A agent '"@ + agent + "' at "@ + url + ": "@ + err
}

pub open spec fn a2a_error_msg(agent: Seq<char>, err: Seq<char>) -> Seq<char> {
    "A2A agent '"@ + agent + "' returned error: "@ + err
}

pub open spec fn a2a_timeout_msg(agent: Seq<char>, timeout_secs: int) -> Seq<char> {
    "A2A agent '"@ + agent + "' timed out after "@ + crate::text::dec_spec(timeout_secs) + "s"@
}

pub open spec fn a2a_rpc_error_msg(agent: Seq<char>, code: int, message: Seq<char>) -> Seq<char> {
    "A2A agent '"@ + agent + "' JSON-RPC error "@ + dec_i64_spec(code) + ": "@ + message
}

impl A2aAgentTool {
    pub fn new(security: Arc<SecurityPolicy>, config: A2aConfig) -> (r: A2aAgentTool)
        ensures
            r.security == security,
            r.config == config,
            r.description@ == a2a_description_spec(config),
    {
        let description = Self::build_description(&config);
        A2aAgentTool { security, config, description }
    }

    pub fn build_description(config: &A2aConfig) -> (r: String)
        ensures
            r@ == a2a_description_spec(*config),
    {
        let mut desc = String::new();
        push_str(
            &mut desc,
            "Send a message to a remote A2A (Agent-to-Agent) protocol agent and receive its response.",
        );
        if config.targets.len() == 0 {
            return desc;
        }
        push_str(&mut desc, " Available agents:");
        let ghost before = desc@;
        let n = config.targets.len();
        let mut i: usize = 0;
        while i < n
            invariant
                0 <= i <= n,
                n == config.targets@.len(),
                desc@ == before + a2a_targets_desc(config.targets@.take(i as int)),
            decreases n - i,
        {
            let target = &config.targets[i];
            push_str(&mut desc, "\n- \"");
            push_str(&mut desc, target.name.as_str());
            push_str(&mut desc, "\" (");
            push_str(&mut desc, target.base_url.as_str());
            push_str(&mut desc, ")");
            match &target.notes {
                Some(notes) => {
                    push_str(&mut desc, " — ");
                    push_str(&mut desc, notes.as_str());
                },
                None => {},
            }
            proof {
                let t = config.targets@.take(i + 1);
                assert(t.last() == config.targets@[i as int]);
                assert(t.drop_last() =~= config.targets@.take(i as int));
                assert(a2a_targets_desc(t) == a2a_targets_desc(t.drop_last()) + a2a_target_desc(
                    t.last(),
                ));
                assert(desc@ =~= before + a2a_targets_desc(t));
            }
            i = i + 1;
        }
        proof {
            assert(config.targets@.take(n as int) =~= config.targets@);
        }
        desc
    }

    pub fn name(&self) -> (r: &str)
        ensures
            r@ == "a2a_agent"@,
    {
        "a2a_agent"
    }

    pub fn description(&self) -> (r: &str)
        ensures
            r@ == self.description@,
    {
        self.description.as_str()
    }

    /// Looks the agent name up in the configuration; an unknown name is
    /// answered with the enumerating message.
    pub fn resolve_target(&self, name: &str) -> (r: Result<usize, String>)
        ensures
            match r {
                Ok(i) => is_first_a2a_target(self.config.targets@, name@, i as int),
                Err(e) => !has_a2a_target(self.config.targets@, name@) && e@
                    == unknown_a2a_agent_msg(name@, self.config.targets@),
            },
    {
        let n = self.config.targets.len();
        let mut i: usize = 0;
        while i < n
            invariant
                0 <= i <= n,
                n == self.config.targets@.len(),
                forall|j: int| 0 <= j < i ==> self.config.targets@[j].name@ != name@,
            decreases n - i,
        {
            if str_eq(self.config.targets[i].name.as_str(), name) {
                return Ok(i);
            }
            i = i + 1;
        }
        let mut names: Vec<String> = Vec::new();
        let mut k: usize = 0;
        while k < n
            invariant
                0 <= k <= n,
                n == self.config.targets@.len(),
                names@.len() == k,
                forall|j: int| 0 <= j < k ==> names@[j]@ == self.config.targets@[j].name@,
            decreases n - k,
        {
            names.push(self.config.targets[k].name.clone());
            k = k + 1;
        }
        let mut msg = String::new();
        push_str(&mut msg, "Unknown a2a agent '");
        push_str(&mut msg, name);
        push_str(&mut msg, "'. Available agents: ");
        let quoted = quoted_list(&names);
        push_str(&mut msg, quoted.as_str());
        proof {
            let a = views_of(names@);
            let b = a2a_target_names(self.config.targets@);
            assert(forall|j: int| 0 <= j < n ==> a[j] == b[j]);
            assert(a =~= b);
            assert(msg@ =~= unknown_a2a_agent_msg(name@, self.config.targets@));
        }
        Err(msg)
    }

    /// The message must be present and non-blank; a blank message is a
    /// domain-level refusal, not a hard error.
    pub fn validate_message(message: Option<&str>) -> (r: Result<String, ToolResult>)
        ensures
            match r {
                Ok(m) => message matches Some(s) && m@ == trim_spec(s@) && m@.len() > 0,
                Err(result) => {
                    &&& match message {
                        None => true,
                        Some(s) => trim_spec(s@).len() == 0,
                    }
                    &&& !result.success
                    &&& result.output@.len() == 0
                    &&& result.error matches Some(e) && e@ == (
                    "Missing or empty 'message' parameter"@)
                },
            },
    {
        match message {
            Some(s) => {
                let t = trim(s);
                if t.is_empty() {
                    Err(ToolResult::failure("Missing or empty 'message' parameter".to_owned()))
                } else {
                    Ok(t.to_owned())
                }
            },
            None => Err(ToolResult::failure("Missing or empty 'message' parameter".to_owned())),
        }
    }

    /// The text of a reply: its textual parts joined with newlines.
    pub fn extract_text_from_parts(texts: &Vec<String>) -> (r: String)
        ensures
            r@ == join_lines_spec(views_of(texts@)),
    {
        join_lines(texts)
    }

    pub fn connect_failed_message(agent: &str, url: &str, err: &str) -> (r: String)
        ensures
            r@ == a2a_connect_failed_msg(agent@, url@, err@),
    {
        let mut msg = String::new();
        push_str(&mut msg, "Failed to connect to A2A agent '");
        push_str(&mut msg, agent);
        push_str(&mut msg, "' at ");
        push_str(&mut msg, url);
        push_str(&mut msg, ": ");
        push_str(&mut msg, err);
        msg
    }

    pub fn error_message(agent: &str, err: &str) -> (r: String)
        ensures
            r@ == a2a_error_msg(agent@, err@),
    {
        let mut msg = String::new();
        push_str(&mut msg, "A2A agent '");
        push_str(&mut msg, agent);
        push_str(&mut msg, "' returned error: ");
        push_str(&mut msg, err);
        msg
    }

    pub fn timeout_message(agent: &str, timeout_secs: u64) -> (r: String)
        ensures
            r@ == a2a_timeout_msg(agent@, timeout_secs as int),
    {
        let mut msg = String::new();
        push_str(&mut msg, "A2A agent '");
        push_str(&mut msg, agent);
        push_str(&mut msg, "' timed out after ");
        let secs = u64_to_string(timeout_secs);
        push_str(&mut msg, secs.as_str());
        push_str(&mut msg, "s");
        msg
    }

    pub fn rpc_error_message(agent: &str, code: i64, message: &str) -> (r: String)
        ensures
            r@ == a2a_rpc_error_msg(agent@, code as int, message@),
    {
        let mut msg = String::new();
        push_str(&mut msg, "A2A agent '");
        push_str(&mut msg, agent);
        push_str(&mut msg, "' JSON-RPC error ");
        let digits = i64_to_string(code);
        push_str(&mut msg, digits.as_str());
        push_str(&mut msg, ": ");
        push_str(&mut msg, message);
        msg
    }
}

} // verus!
