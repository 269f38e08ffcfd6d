//! The MCP (Model Context Protocol) connection manager and call dispatcher:
//! the decision core that turns a "call tool X on server Y" request into a
//! validated, allow-listed, timeout-bound remote invocation, and a notification
//! filter protecting the transport from a known protocol defect.
//!
//! Everything that decides or formats here is verified. The surrounding
//! process plumbing (spawning the server, pumping its output through the
//! filter, the JSON-RPC handshake and call) is asynchronous I/O and lives with
//! the embedding application, which calls into these functions for every
//! decision and every message it reports.

use vstd::prelude::*;

verus! {

use std::sync::Arc;
use crate::ToolResult;
use crate::security::SecurityPolicy;
use crate::text::{
    contains_seq, dec_spec, has_prefix, join_space, join_space_spec, push_str, quoted_list,
    quoted_list_spec, starts_with, str_eq, trim, trim_spec, u64_to_string,
};

/// Configuration of one MCP server: how to launch it, which of its tools may
/// be called, and its timeouts.
pub struct McpServerConfig {
    pub name: String,
    pub command: String,
    pub args: Vec<String>,
    /// Empty means every tool on the server is permitted.
    pub allowed_tools: Vec<String>,
    pub tool_timeout_secs: u64,
    pub startup_timeout_secs: u64,
    pub notes: Option<String>,
}

pub struct McpConfig {
    pub enabled: bool,
    pub servers: Vec<McpServerConfig>,
}

// ---------------------------------------------------------------------------
// Notification filter
// ---------------------------------------------------------------------------

/// What one line of the child's output parses to, as far as the filter cares:
/// `None` when the line is not valid JSON; otherwise the `method` field when
/// it is a string, and whether an `id` field is present.
pub uninterp spec fn json_line_shape(line: Seq<char>) -> Option<(Option<Seq<char>>, bool)>;

pub open spec fn shape_view(r: Option<(Option<String>, bool)>) -> Option<(Option<Seq<char>>, bool)> {
    match r {
        None => None,
        Some((m, has_id)) => Some(
            (
                match m {
                    None => None,
                    Some(s) => Some(s@),
                },
                has_id,
            ),
        ),
    }
}

/// Relies on `serde_json::from_str::<Value>`, `Value::get` and
/// `Value::as_str`: what a line parses to depends on its characters alone.
#[verifier::external_body]
fn parse_line_shape(line: &str) -> (r: Option<(Option<String>, bool)>)
    ensures
        shape_view(r) == json_line_shape(line@),
{
    match serde_json::from_str::<serde_json::Value>(line) {
        Err(_) => None,
        Ok(val) => {
            let method = val.get("method").and_then(|m| m.as_str()).map(|s| s.to_string());
            let has_id = val.get("id").is_some();
            Some((method, has_id))
        },
    }
}

/// The filtering rule, on the parsed shape of a line: a message is a
/// non-standard notification exactly when it carries a string `method`, no
/// `id`, the method is outside the standard `notifications/` and `$/`
/// namespaces, and it is none of the fixed lifecycle names.
pub open spec fn non_standard_shape(method: Option<Seq<char>>, has_id: bool) -> bool {
    match method {
        None => false,
        Some(m) => !has_id && !has_prefix(m, "notifications/"@) && !has_prefix(m, "$/"@) && m
            != "initialized"@ && m != "cancelled"@ && m != "progress"@,
    }
}

/// Whether a whole line is dropped by the filter.
pub open spec fn line_is_dropped(line: Seq<char>) -> bool {
    match json_line_shape(line) {
        None => false,
        Some((method, has_id)) => non_standard_shape(method, has_id),
    }
}

/// The filtering rule on an already-parsed line shape.
pub fn shape_is_non_standard(method: Option<&str>, has_id: bool) -> (r: bool)
    ensures
        r == non_standard_shape(
            match method {
                None => None,
                Some(m) => Some(m@),
            },
            has_id,
        ),
{
    match method {
        None => false,
        Some(m) => {
            if has_id {
                false
            } else if starts_with(m, "notifications/") || starts_with(m, "$/") {
                false
            } else if str_eq(m, "initialized") || str_eq(m, "cancelled") || str_eq(m, "progress") {
                false
            } else {
                true
            }
        },
    }
}

/// Returns `true` exactly for the lines the filter must drop before the RPC
/// transport sees them: non-standard JSON-RPC notifications. Anything that is
/// not valid JSON, carries an `id`, has no string `method`, or uses a
/// standard notification method passes through untouched.
pub fn is_non_standard_notification(line: &str) -> (r: bool)
    ensures
        r == line_is_dropped(line@),
{
    let shape = parse_line_shape(line);
    match shape {
        None => false,
        Some((method, has_id)) => {
            let m: Option<&str> = match &method {
                None => None,
                Some(s) => Some(s.as_str()),
            };
            shape_is_non_standard(m, has_id)
        },
    }
}

// ---------------------------------------------------------------------------
// Tool description
// ---------------------------------------------------------------------------

/// The fixed preamble of the tool description.
pub open spec fn mcp_description_base() -> Seq<char> {
    "Call a tool on an MCP (Model Context Protocol) server. You MUST specify the server name, the tool name, and the tool's arguments."@
}

/// The allow-list lines of one server's description entry.
pub open spec fn server_tools_desc(tools: Seq<String>) -> Seq<char>
    decreases tools.len(),
{
    if tools.len() == 0 {
        Seq::<char>::empty()
    } else {
        server_tools_desc(tools.drop_last()) + "\n- \""@ + tools.last()@ + "\""@
    }
}

/// One server's entry in the tool description.
pub open spec fn server_entry_desc(server: McpServerConfig) -> Seq<char> {
    "\n\n## Server: \""@ + server.name@ + "\""@ + (match server.notes {
        Some(n) => "\n"@ + n@,
        None => Seq::<char>::empty(),
    }) + (if server.allowed_tools@.len() == 0 {
        "\nAll tools on this server are available."@
    } else {
        "\nAvailable tools:"@ + server_tools_desc(server.allowed_tools@)
    })
}

pub open spec fn servers_desc(servers: Seq<McpServerConfig>) -> Seq<char>
    decreases servers.len(),
{
    if servers.len() == 0 {
        Seq::<char>::empty()
    } else {
        servers_desc(servers.drop_last()) + server_entry_desc(servers.last())
    }
}

/// The whole description: the preamble alone when no server is configured,
/// else the preamble followed by every server's entry.
pub open spec fn mcp_description_spec(config: McpConfig) -> Seq<char> {
    if config.servers@.len() == 0 {
        mcp_description_base()
    } else {
        mcp_description_base() + "\n\nAvailable servers and tools:"@ + servers_desc(config.servers@)
    }
}

fn push_server_entry(desc: &mut String, server: &McpServerConfig)
    ensures
        final(desc)@ == old(desc)@ + server_entry_desc(*server),
{
    push_str(desc, "\n\n## Server: \"");
    push_str(desc, server.name.as_str());
    push_str(desc, "\"");
    match &server.notes {
        Some(n) => {
            push_str(desc, "\n");
            push_str(desc, n.as_str());
        },
        None => {},
    }
    if server.allowed_tools.len() == 0 {
        push_str(desc, "\nAll tools on this server are available.");
    } else {
        push_str(desc, "\nAvailable tools:");
        let ghost before = desc@;
        let n = server.allowed_tools.len();
        let mut j: usize = 0;
        while j < n
            invariant
                0 <= j <= n,
                n == server.allowed_tools@.len(),
                desc@ == before + server_tools_desc(server.allowed_tools@.take(j as int)),
            decreases n - j,
        {
            push_str(desc, "\n- \"");
            push_str(desc, server.allowed_tools[j].as_str());
            push_str(desc, "\"");
            proof {
                let t = server.allowed_tools@.take(j + 1);
                assert(t.last() == server.allowed_tools@[j as int]);
                assert(t.drop_last() =~= server.allowed_tools@.take(j as int));
                assert(server_tools_desc(t) == server_tools_desc(t.drop_last()) + "\n- \""@
                    + t.last()@ + "\""@);
                assert(desc@ =~= before + server_tools_desc(t));
            }
            j = j + 1;
        }
        proof {
            assert(server.allowed_tools@.take(n as int) =~= server.allowed_tools@);
        }
    }
    proof {
        assert(final(desc)@ =~= old(desc)@ + server_entry_desc(*server));
    }
}

/// The MCP dispatcher: configuration, the security gates, and the description
/// offered to the agent loop. The live connection cache is process state owned
/// by the embedding runtime; every decision it takes comes from here.
pub struct McpTool {
    pub security: Arc<SecurityPolicy>,
    pub config: McpConfig,
    pub description: String,
}

impl McpTool {
    pub fn new(security: Arc<SecurityPolicy>, config: McpConfig) -> (r: McpTool)
        ensures
            r.security == security,
            r.config == config,
            r.description@ == mcp_description_spec(config),
    {
        let description = Self::build_description(&config);
        McpTool { security, config, description }
    }

    pub fn build_description(config: &McpConfig) -> (r: String)
        ensures
            r@ == mcp_description_spec(*config),
    {
        let mut desc = String::new();
        push_str(
            &mut desc,
            "Call a tool on an MCP (Model Context Protocol) server. You MUST specify the server name, the tool name, and the tool's arguments.",
        );
        if config.servers.len() == 0 {
            return desc;
        }
        push_str(&mut desc, "\n\nAvailable servers and tools:");
        let ghost before = desc@;
        let n = config.servers.len();
        let mut i: usize = 0;
        while i < n
            invariant
                0 <= i <= n,
                n == config.servers@.len(),
                desc@ == before + servers_desc(config.servers@.take(i as int)),
            decreases n - i,
        {
            push_server_entry(&mut desc, &config.servers[i]);
            proof {
                let t = config.servers@.take(i + 1);
                assert(t.last() == config.servers@[i as int]);
                assert(t.drop_last() =~= config.servers@.take(i as int));
                assert(servers_desc(t) == servers_desc(t.drop_last()) + server_entry_desc(t.last()));
                assert(desc@ =~= before + servers_desc(t));
            }
            i = i + 1;
        }
        proof {
            assert(config.servers@.take(n as int) =~= config.servers@);
        }
        desc
    }

    pub fn name(&self) -> (r: &str)
        ensures
            r@ == "mcp"@,
    {
        "mcp"
    }

    pub fn description(&self) -> (r: &str)
        ensures
            r@ == self.description@,
    {
        self.description.as_str()
    }
}

// ---------------------------------------------------------------------------
// Server resolution and the allow-list
// ---------------------------------------------------------------------------

/// The configured server names, in configuration order.
pub open spec fn server_names(servers: Seq<McpServerConfig>) -> Seq<Seq<char>> {
    servers.map_values(|s: McpServerConfig| s.name@)
}

/// There is a configured server of this name.
pub open spec fn has_server(servers: Seq<McpServerConfig>, name: Seq<char>) -> bool {
    exists|i: int| 0 <= i < servers.len() && servers[i].name@ == name
}

/// `i` is the first configured server of this name.
pub open spec fn is_first_server(servers: Seq<McpServerConfig>, name: Seq<char>, i: int) -> bool {
    &&& 0 <= i < servers.len()
    &&& servers[i].name@ == name
    &&& forall|j: int| 0 <= j < i ==> servers[j].name@ != name
}

/// The message reported for a server name that is not configured. It names
/// the offending server and enumerates every configured name, so a caller can
/// self-correct.
pub open spec fn unknown_server_msg(name: Seq<char>, servers: Seq<McpServerConfig>) -> Seq<char> {
    "Unknown MCP server '"@ + name + "'. Available servers: "@ + quoted_list_spec(
        server_names(servers),
    )
}

fn quoted_names_of_servers(servers: &Vec<McpServerConfig>) -> (r: String)
    ensures
        r@ == quoted_list_spec(server_names(servers@)),
{
    let n = servers.len();
    let mut names: Vec<String> = Vec::new();
    let mut i: usize = 0;
    while i < n
        invariant
            0 <= i <= n,
            n == servers@.len(),
            names@.len() == i,
            forall|k: int| 0 <= k < i ==> names@[k]@ == servers@[k].name@,
        decreases n - i,
    {
        names.push(servers[i].name.clone());
        i = i + 1;
    }
    let r = quoted_list(&names);
    proof {
        let a = names@.map_values(|x: String| x@);
        let b = server_names(servers@);
        assert(forall|k: int| 0 <= k < n ==> a[k] == b[k]);
        assert(a =~= b);
    }
    r
}

impl McpTool {
    /// Looks the server name up in the configuration; an unknown name is
    /// answered with the enumerating message, never with a panic.
    pub fn resolve_server(&self, name: &str) -> (r: Result<usize, String>)
        ensures
            match r {
                Ok(i) => is_first_server(self.config.servers@, name@, i as int),
                Err(e) => !has_server(self.config.servers@, name@) && e@ == unknown_server_msg(
                    name@,
                    self.config.servers@,
                ),
            },
    {
        let n = self.config.servers.len();
        let mut i: usize = 0;
        while i < n
            invariant
                0 <= i <= n,
                n == self.config.servers@.len(),
                forall|j: int| 0 <= j < i ==> self.config.servers@[j].name@ != name@,
            decreases n - i,
        {
            if str_eq(self.config.servers[i].name.as_str(), name) {
                return Ok(i);
            }
            i = i + 1;
        }
        let mut msg = String::new();
        push_str(&mut msg, "Unknown MCP server '");
        push_str(&mut msg, name);
        push_str(&mut msg, "'. Available servers: ");
        let quoted = quoted_names_of_servers(&self.config.servers);
        push_str(&mut msg, quoted.as_str());
        proof {
            assert(msg@ =~= unknown_server_msg(name@, self.config.servers@));
        }
        Err(msg)
    }
}

/// The allow-list rule: an empty list admits every tool name, a non-empty
/// list admits exactly its members.
pub open spec fn tool_allowed(server: McpServerConfig, tool: Seq<char>) -> bool {
    server.allowed_tools@.len() == 0 || exists|i: int|
        0 <= i < server.allowed_tools@.len() && server.allowed_tools@[i]@ == tool
}

impl McpTool {
    pub fn is_tool_allowed(server: &McpServerConfig, tool_name: &str) -> (r: bool)
        ensures
            r == tool_allowed(*server, tool_name@),
    {
        let n = server.allowed_tools.len();
        if n == 0 {
            return true;
        }
        let mut i: usize = 0;
        while i < n
            invariant
                0 <= i <= n,
                n == server.allowed_tools@.len(),
                forall|j: int| 0 <= j < i ==> server.allowed_tools@[j]@ != tool_name@,
            decreases n - i,
        {
            if str_eq(server.allowed_tools[i].as_str(), tool_name) {
                return true;
            }
            i = i + 1;
        }
        false
    }
}

/// The allow-list admits every tool when empty, and exactly its members when
/// not: the rule `tool_allowed` restated as a law.
pub proof fn lemma_allow_list(server: McpServerConfig, tool: Seq<char>)
    ensures
        server.allowed_tools@.len() == 0 ==> tool_allowed(server, tool),
        server.allowed_tools@.len() > 0 ==> (tool_allowed(server, tool) <==> exists|i: int|
            0 <= i < server.allowed_tools@.len() && server.allowed_tools@[i]@ == tool),
{
}

// ---------------------------------------------------------------------------
// The dispatcher
// ---------------------------------------------------------------------------

pub open spec fn readonly_denial_msg() -> Seq<char> {
    "Action blocked: autonomy is read-only"@
}

pub open spec fn rate_limit_denial_msg() -> Seq<char> {
    "Action blocked: rate limit exceeded"@
}

pub open spec fn missing_server_msg() -> Seq<char> {
    "Missing 'server' parameter"@
}

pub open spec fn missing_tool_msg() -> Seq<char> {
    "Missing 'tool' parameter"@
}

/// The message reported for a tool outside a non-empty allow-list; it names
/// the tool and the full allowed set.
pub open spec fn disallowed_tool_msg(
    tool: Seq<char>,
    server_name: Seq<char>,
    allowed: Seq<String>,
) -> Seq<char> {
    "Tool '"@ + tool + "' is not in the allowed_tools list for MCP server '"@ + server_name
        + "'. Allowed: "@ + quoted_list_spec(crate::text::views_of(allowed))
}

/// A failed `ToolResult` carrying exactly this message and no output.
pub open spec fn denial(result: ToolResult, msg: Seq<char>) -> bool {
    &&& !result.success
    &&& result.output@.len() == 0
    &&& result.error matches Some(e) && e@ == msg
}

/// A request argument after trimming: `None` when absent or blank.
pub open spec fn opt_trimmed(a: Option<&str>) -> Option<Seq<char>> {
    match a {
        None => None,
        Some(s) => if trim_spec(s@).len() == 0 {
            None
        } else {
            Some(trim_spec(s@))
        },
    }
}

/// What the dispatcher decides before any connection is made.
pub enum McpDispatch {
    /// A domain-level refusal, handed to the caller as ordinary tool output.
    Denied { result: ToolResult },
    /// A malformed invocation: a hard error for the caller, not a domain
    /// outcome.
    Invalid { message: String },
    /// All gates passed: connect to the server at this index and call.
    Proceed { server_index: usize },
}

/// The dispatcher's whole pre-connection contract, in gate order: autonomy,
/// rate limit, argument presence, server resolution, allow-list.
pub open spec fn preflight_post(
    tool: McpTool,
    can_act: bool,
    record_ok: bool,
    server: Option<Seq<char>>,
    tool_name: Option<Seq<char>>,
    r: McpDispatch,
) -> bool {
    let servers = tool.config.servers@;
    match r {
        McpDispatch::Denied { result } => {
            if !can_act {
                denial(result, readonly_denial_msg())
            } else if !record_ok {
                denial(result, rate_limit_denial_msg())
            } else {
                match (server, tool_name) {
                    (Some(name), Some(t)) => {
                        if !has_server(servers, name) {
                            denial(result, unknown_server_msg(name, servers))
                        } else {
                            exists|i: int|
                                #[trigger] is_first_server(servers, name, i) && !tool_allowed(
                                    servers[i],
                                    t,
                                ) && denial(
                                    result,
                                    disallowed_tool_msg(t, name, servers[i].allowed_tools@),
                                )
                        }
                    },
                    _ => false,
                }
            }
        },
        McpDispatch::Invalid { message } => {
            &&& can_act
            &&& record_ok
            &&& if server is None {
                message@ == missing_server_msg()
            } else {
                tool_name is None && message@ == missing_tool_msg()
            }
        },
        McpDispatch::Proceed { server_index } => {
            &&& can_act
            &&& record_ok
            &&& server matches Some(name) && is_first_server(servers, name, server_index as int)
            &&& tool_name matches Some(t) && tool_allowed(servers[server_index as int], t)
        },
    }
}

impl McpTool {
    /// Every decision the dispatcher takes before touching the network:
    /// security gates first, then argument validation, server resolution and
    /// the allow-list. `can_act` and `record_ok` are the two answers of the
    /// security capability; the caller consults the policy and records the
    /// action only when `can_act` held.
    pub fn preflight(
        &self,
        can_act: bool,
        record_ok: bool,
        server_arg: Option<&str>,
        tool_arg: Option<&str>,
    ) -> (r: McpDispatch)
        ensures
            preflight_post(*self, can_act, record_ok, opt_trimmed(server_arg), opt_trimmed(tool_arg), r),
    {
        if !can_act {
            let msg = "Action blocked: autonomy is read-only".to_owned();
            return McpDispatch::Denied { result: ToolResult::failure(msg) };
        }
        if !record_ok {
            let msg = "Action blocked: rate limit exceeded".to_owned();
            return McpDispatch::Denied { result: ToolResult::failure(msg) };
        }
        let server_name: &str = match server_arg {
            None => {
                return McpDispatch::Invalid { message: "Missing 'server' parameter".to_owned() };
            },
            Some(s) => {
                let t = trim(s);
                if t.is_empty() {
                    return McpDispatch::Invalid {
                        message: "Missing 'server' parameter".to_owned(),
                    };
                }
                t
            },
        };
        let tool_name: &str = match tool_arg {
            None => {
                return McpDispatch::Invalid { message: "Missing 'tool' parameter".to_owned() };
            },
            Some(s) => {
                let t = trim(s);
                if t.is_empty() {
                    return McpDispatch::Invalid { message: "Missing 'tool' parameter".to_owned() };
                }
                t
            },
        };
        let index = match self.resolve_server(server_name) {
            Err(e) => {
                return McpDispatch::Denied { result: ToolResult::failure(e) };
            },
            Ok(i) => i,
        };
        if !Self::is_tool_allowed(&self.config.servers[index], tool_name) {
            let mut msg = String::new();
            push_str(&mut msg, "Tool '");
            push_str(&mut msg, tool_name);
            push_str(&mut msg, "' is not in the allowed_tools list for MCP server '");
            push_str(&mut msg, server_name);
            push_str(&mut msg, "'. Allowed: ");
            let quoted = quoted_list(&self.config.servers[index].allowed_tools);
            push_str(&mut msg, quoted.as_str());
            proof {
                assert(msg@ =~= disallowed_tool_msg(
                    tool_name@,
                    server_name@,
                    self.config.servers@[index as int].allowed_tools@,
                ));
            }
            return McpDispatch::Denied { result: ToolResult::failure(msg) };
        }
        McpDispatch::Proceed { server_index: index }
    }
}

// ---------------------------------------------------------------------------
// Call outcome mapping
// ---------------------------------------------------------------------------

/// How a finished remote call came back: a protocol-level completion (whose
/// payload may still flag a tool error), a transport or RPC failure, or the
/// local timeout.
pub enum McpCallOutcome {
    Completed { text: String, is_error: bool },
    Failed { message: String },
    TimedOut,
}

/// The message for a completed call whose payload flags an error.
pub open spec fn remote_error_msg(tool: Seq<char>, text: Seq<char>) -> Seq<char> {
    if text.len() == 0 {
        "MCP tool '"@ + tool + "' returned an error"@
    } else {
        "MCP tool '"@ + tool + "' error: "@ + text
    }
}

/// The message for an RPC-level failure.
pub open spec fn call_failed_msg(tool: Seq<char>, server: Seq<char>, message: Seq<char>) -> Seq<
    char,
> {
    "MCP tool call '"@ + tool + "' on server '"@ + server + "' failed: "@ + message
}

/// The message for a call that outran its configured timeout; it names the
/// tool, the server, and the exact second count.
pub open spec fn call_timeout_msg(tool: Seq<char>, server: Seq<char>, timeout_secs: int) -> Seq<
    char,
> {
    "MCP tool call '"@ + tool + "' on server '"@ + server + "' timed out after "@ + dec_spec(
        timeout_secs,
    ) + "s"@
}

/// Maps the outcome of the bounded remote call to the normalized result the
/// agent loop reads.
pub fn map_call_outcome(
    outcome: McpCallOutcome,
    tool_name: &str,
    server_name: &str,
    timeout_secs: u64,
) -> (r: ToolResult)
    ensures
        match outcome {
            McpCallOutcome::Completed { text, is_error } => {
                &&& r.success == !is_error
                &&& r.output == text
                &&& if is_error {
                    r.error matches Some(e) && e@ == remote_error_msg(tool_name@, text@)
                } else {
                    r.error is None
                }
            },
            McpCallOutcome::Failed { message } => denial(
                r,
                call_failed_msg(tool_name@, server_name@, message@),
            ),
            McpCallOutcome::TimedOut => denial(
                r,
                call_timeout_msg(tool_name@, server_name@, timeout_secs as int),
            ),
        },
{
    match outcome {
        McpCallOutcome::Completed { text, is_error } => {
            if is_error {
                let mut msg = String::new();
                if text.as_str().is_empty() {
                    push_str(&mut msg, "MCP tool '");
                    push_str(&mut msg, tool_name);
                    push_str(&mut msg, "' returned an error");
                } else {
                    push_str(&mut msg, "MCP tool '");
                    push_str(&mut msg, tool_name);
                    push_str(&mut msg, "' error: ");
                    push_str(&mut msg, text.as_str());
                }
                ToolResult { success: false, output: text, error: Some(msg) }
            } else {
                ToolResult { success: true, output: text, error: None }
            }
        },
        McpCallOutcome::Failed { message } => {
            let mut msg = String::new();
            push_str(&mut msg, "MCP tool call '");
            push_str(&mut msg, tool_name);
            push_str(&mut msg, "' on server '");
            push_str(&mut msg, server_name);
            push_str(&mut msg, "' failed: ");
            push_str(&mut msg, message.as_str());
            ToolResult::failure(msg)
        },
        McpCallOutcome::TimedOut => {
            let mut msg = String::new();
            push_str(&mut msg, "MCP tool call '");
            push_str(&mut msg, tool_name);
            push_str(&mut msg, "' on server '");
            push_str(&mut msg, server_name);
            push_str(&mut msg, "' timed out after ");
            let secs = u64_to_string(timeout_secs);
            push_str(&mut msg, secs.as_str());
            push_str(&mut msg, "s");
            ToolResult::failure(msg)
        },
    }
}

// ---------------------------------------------------------------------------
// Connection error messages
// ---------------------------------------------------------------------------

/// The message for a child process that could not be spawned; it embeds the
/// offending command and arguments.
pub open spec fn spawn_failure_msg(server: McpServerConfig, err: Seq<char>) -> Seq<char> {
    "Failed to spawn MCP server '"@ + server.name@ + "' (command: "@ + server.command@ + " "@
        + join_space_spec(crate::text::views_of(server.args@)) + "): "@ + err
}

/// The message for a handshake that outran the configured startup timeout; it
/// carries the exact second count.
pub open spec fn startup_timeout_msg(server: McpServerConfig) -> Seq<char> {
    "MCP server '"@ + server.name@ + "' startup timed out after "@ + dec_spec(
        server.startup_timeout_secs as int,
    ) + "s"@
}

/// The message for a handshake that failed at the protocol level.
pub open spec fn init_failure_msg(name: Seq<char>, err: Seq<char>) -> Seq<char> {
    "MCP server '"@ + name + "' initialization failed: "@ + err
}

impl McpTool {
    pub fn spawn_failure_message(server: &McpServerConfig, err: &str) -> (r: String)
        ensures
            r@ == spawn_failure_msg(*server, err@),
    {
        let mut msg = String::new();
        push_str(&mut msg, "Failed to spawn MCP server '");
        push_str(&mut msg, server.name.as_str());
        push_str(&mut msg, "' (command: ");
        push_str(&mut msg, server.command.as_str());
        push_str(&mut msg, " ");
        let joined = join_space(&server.args);
        push_str(&mut msg, joined.as_str());
        push_str(&mut msg, "): ");
        push_str(&mut msg, err);
        msg
    }

    pub fn startup_timeout_message(server: &McpServerConfig) -> (r: String)
        ensures
            r@ == startup_timeout_msg(*server),
    {
        let mut msg = String::new();
        push_str(&mut msg, "MCP server '");
        push_str(&mut msg, server.name.as_str());
        push_str(&mut msg, "' startup timed out after ");
        let secs = u64_to_string(server.startup_timeout_secs);
        push_str(&mut msg, secs.as_str());
        push_str(&mut msg, "s");
        msg
    }

    pub fn init_failure_message(server_name: &str, err: &str) -> (r: String)
        ensures
            r@ == init_failure_msg(server_name@, err@),
    {
        let mut msg = String::new();
        push_str(&mut msg, "MCP server '");
        push_str(&mut msg, server_name);
        push_str(&mut msg, "' initialization failed: ");
        push_str(&mut msg, err);
        msg
    }
}

// ---------------------------------------------------------------------------
// Laws
// ---------------------------------------------------------------------------

/// Law: with autonomy read-only, every dispatch is denied with the read-only
/// message, whatever the request said.
pub proof fn lemma_readonly_always_denied(
    tool: McpTool,
    record_ok: bool,
    server: Option<Seq<char>>,
    tool_name: Option<Seq<char>>,
    r: McpDispatch,
)
    requires
        preflight_post(tool, false, record_ok, server, tool_name, r),
    ensures
        r matches McpDispatch::Denied { result } && denial(result, readonly_denial_msg()),
{
}

/// Law: with the rate limit refusing to record the action, every dispatch is
/// denied with the rate-limit message, whatever the request said.
pub proof fn lemma_rate_limited_always_denied(
    tool: McpTool,
    server: Option<Seq<char>>,
    tool_name: Option<Seq<char>>,
    r: McpDispatch,
)
    requires
        preflight_post(tool, true, false, server, tool_name, r),
    ensures
        r matches McpDispatch::Denied { result } && denial(result, rate_limit_denial_msg()),
{
}

/// Law: a server name outside the configuration is always denied, with the
/// enumerating unknown-server message.
pub proof fn lemma_unknown_server_denied(
    tool: McpTool,
    server: Seq<char>,
    tool_name: Seq<char>,
    r: McpDispatch,
)
    requires
        preflight_post(tool, true, true, Some(server), Some(tool_name), r),
        !has_server(tool.config.servers@, server),
    ensures
        r matches McpDispatch::Denied { result } && denial(
            result,
            unknown_server_msg(server, tool.config.servers@),
        ),
{
    match r {
        McpDispatch::Proceed { server_index } => {
            assert(false);
        },
        _ => {},
    }
}

/// Law: the unknown-server message carries the marker text, the offending
/// name, and every configured server name verbatim.
pub proof fn lemma_unknown_server_msg_enumerates(name: Seq<char>, servers: Seq<McpServerConfig>)
    ensures
        contains_seq(unknown_server_msg(name, servers), "Unknown MCP server"@),
        contains_seq(unknown_server_msg(name, servers), name),
        forall|i: int|
            0 <= i < servers.len() ==> contains_seq(
                unknown_server_msg(name, servers),
                #[trigger] servers[i].name@,
            ),
{
    let msg = unknown_server_msg(name, servers);
    let pre = "Unknown MCP server '"@;
    let mid = "'. Available servers: "@;
    let ql = quoted_list_spec(server_names(servers));
    assert(msg =~= pre + name + (mid + ql));
    crate::text::lemma_contains_concat_middle(pre, name, mid + ql);
    reveal_strlit("Unknown MCP server '");
    reveal_strlit("Unknown MCP server");
    assert(msg.subrange(0, 18) =~= "Unknown MCP server"@);
    assert(crate::text::occurs_at(msg, "Unknown MCP server"@, 0));
    assert forall|i: int| 0 <= i < servers.len() implies contains_seq(
        msg,
        #[trigger] servers[i].name@,
    ) by {
        assert(server_names(servers)[i] == servers[i].name@);
        crate::text::lemma_quoted_list_contains(server_names(servers), i);
        crate::text::lemma_contains_extend_left(pre + name + mid, ql, servers[i].name@);
        assert(msg =~= (pre + name + mid) + ql);
    }
}

/// Law: the startup-timeout report names the server and carries the
/// configured second count verbatim.
pub proof fn lemma_startup_timeout_names_the_seconds(server: McpServerConfig)
    ensures
        contains_seq(startup_timeout_msg(server), dec_spec(server.startup_timeout_secs as int)),
        contains_seq(startup_timeout_msg(server), server.name@),
{
    let p1 = "MCP server '"@;
    let p2 = "' startup timed out after "@;
    let d = dec_spec(server.startup_timeout_secs as int);
    let msg = startup_timeout_msg(server);
    crate::text::lemma_contains_concat_middle(p1 + server.name@ + p2, d, "s"@);
    assert(msg =~= (p1 + server.name@ + p2) + d + "s"@);
    crate::text::lemma_contains_concat_middle(p1, server.name@, p2 + d + "s"@);
    assert(msg =~= p1 + server.name@ + (p2 + d + "s"@));
}

/// Law: the spawn-failure report announces itself with its fixed marker.
pub proof fn lemma_spawn_failure_is_marked(server: McpServerConfig, err: Seq<char>)
    ensures
        has_prefix(spawn_failure_msg(server, err), "Failed to spawn"@),
{
    reveal_strlit("Failed to spawn MCP server '");
    reveal_strlit("Failed to spawn");
    let msg = spawn_failure_msg(server, err);
    assert(msg.subrange(0, 15) =~= "Failed to spawn"@);
}

/// Law: the timeout report and the RPC-failure report for the same tool and
/// server are distinct messages, and each names both the tool and the server.
pub proof fn lemma_timeout_distinct_from_failure(
    tool: Seq<char>,
    server: Seq<char>,
    timeout_secs: int,
    message: Seq<char>,
)
    ensures
        call_timeout_msg(tool, server, timeout_secs) != call_failed_msg(tool, server, message),
        contains_seq(call_timeout_msg(tool, server, timeout_secs), tool),
        contains_seq(call_timeout_msg(tool, server, timeout_secs), server),
        contains_seq(call_failed_msg(tool, server, message), tool),
        contains_seq(call_failed_msg(tool, server, message), server),
{
    let p1 = "MCP tool call '"@;
    let p2 = "' on server '"@;
    let pre = p1 + tool + p2 + server;
    let tpart = "' timed out after "@;
    let fpart = "' failed: "@;
    let tmsg = call_timeout_msg(tool, server, timeout_secs);
    let fmsg = call_failed_msg(tool, server, message);
    assert(tmsg =~= pre + (tpart + dec_spec(timeout_secs) + "s"@));
    assert(fmsg =~= pre + (fpart + message));
    reveal_strlit("' timed out after ");
    reveal_strlit("' failed: ");
    assert(tpart[2] == 't');
    assert(fpart[2] == 'f');
    let k = pre.len() as int + 2;
    assert(tmsg[k] == 't');
    assert(fmsg[k] == 'f');
    crate::text::lemma_contains_concat_middle(p1, tool, p2 + server + (tpart + dec_spec(
        timeout_secs,
    ) + "s"@));
    assert(tmsg =~= p1 + tool + (p2 + server + (tpart + dec_spec(timeout_secs) + "s"@)));
    crate::text::lemma_contains_concat_middle(
        p1 + tool + p2,
        server,
        tpart + dec_spec(timeout_secs) + "s"@,
    );
    assert(tmsg =~= (p1 + tool + p2) + server + (tpart + dec_spec(timeout_secs) + "s"@));
    crate::text::lemma_contains_concat_middle(p1, tool, p2 + server + (fpart + message));
    assert(fmsg =~= p1 + tool + (p2 + server + (fpart + message)));
    crate::text::lemma_contains_concat_middle(p1 + tool + p2, server, fpart + message);
    assert(fmsg =~= (p1 + tool + p2) + server + (fpart + message));
}

} // verus!
