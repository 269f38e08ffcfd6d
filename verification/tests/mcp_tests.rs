use std::sync::Arc;
use zeroclaw_tools::mcp::{
    is_non_standard_notification, map_call_outcome, McpCallOutcome, McpConfig, McpDispatch,
    McpServerConfig, McpTool,
};
use zeroclaw_tools::security::{AutonomyLevel, SecurityPolicy};

fn test_security(level: AutonomyLevel, max_actions_per_hour: u32) -> Arc<SecurityPolicy> {
    Arc::new(SecurityPolicy {
        autonomy: level,
        max_actions_per_hour,
        allowed_env_vars: Vec::new(),
    })
}

fn test_config() -> McpConfig {
    McpConfig {
        enabled: true,
        servers: vec![
            McpServerConfig {
                name: "codex".to_string(),
                command: "codex".to_string(),
                args: vec!["mcp-server".to_string()],
                allowed_tools: vec!["codex".to_string(), "codex-reply".to_string()],
                tool_timeout_secs: 600,
                startup_timeout_secs: 20,
                notes: Some("OpenAI Codex coding agent".to_string()),
            },
            McpServerConfig {
                name: "filesystem".to_string(),
                command: "mcp-server-fs".to_string(),
                args: vec![],
                allowed_tools: vec![],
                tool_timeout_secs: 120,
                startup_timeout_secs: 30,
                notes: None,
            },
        ],
    }
}

#[test]
fn mcp_tool_name() {
    let tool = McpTool::new(test_security(AutonomyLevel::Full, 100), test_config());
    assert_eq!(tool.name(), "mcp");
}

#[test]
fn mcp_tool_description_lists_servers() {
    let tool = McpTool::new(test_security(AutonomyLevel::Full, 100), test_config());
    let desc = tool.description();
    assert!(desc.contains("Server: \"codex\""));
    assert!(desc.contains("\"codex-reply\""));
    assert!(desc.contains("OpenAI Codex coding agent"));
    assert!(desc.contains("Server: \"filesystem\""));
    assert!(desc.contains("All tools on this server are available"));
}

#[test]
fn mcp_tool_description_omits_notes_when_none() {
    let tool = McpTool::new(test_security(AutonomyLevel::Full, 100), test_config());
    let desc = tool.description();
    assert!(desc.contains("Server: \"filesystem\""));
    assert!(!desc.contains("mcp-server-fs"));
}

#[test]
fn resolve_unknown_server() {
    let tool = McpTool::new(test_security(AutonomyLevel::Full, 100), test_config());
    let err = tool.resolve_server("nonexistent").unwrap_err();
    assert!(err.contains("Unknown MCP server"));
    assert!(err.contains("codex"));
    assert!(err.contains("filesystem"));
    assert_eq!(
        err,
        "Unknown MCP server 'nonexistent'. Available servers: [\"codex\", \"filesystem\"]"
    );
}

#[test]
fn allowed_tools_empty_allows_all() {
    let server = McpServerConfig {
        name: "test".to_string(),
        command: "test".to_string(),
        args: vec![],
        allowed_tools: vec![],
        tool_timeout_secs: 120,
        startup_timeout_secs: 30,
        notes: None,
    };
    assert!(McpTool::is_tool_allowed(&server, "anything"));
    assert!(McpTool::is_tool_allowed(&server, "any_tool_name"));
}

#[test]
fn allowed_tools_restricts_when_non_empty() {
    let server = McpServerConfig {
        name: "test".to_string(),
        command: "test".to_string(),
        args: vec![],
        allowed_tools: vec!["codex".to_string(), "codex-reply".to_string()],
        tool_timeout_secs: 120,
        startup_timeout_secs: 30,
        notes: None,
    };
    assert!(McpTool::is_tool_allowed(&server, "codex"));
    assert!(McpTool::is_tool_allowed(&server, "codex-reply"));
    assert!(!McpTool::is_tool_allowed(&server, "shell"));
    assert!(!McpTool::is_tool_allowed(&server, "file_read"));
}

#[test]
fn filter_non_standard_notifications() {
    // codex/event — non-standard, should be filtered
    assert!(is_non_standard_notification(
        r#"{"jsonrpc":"2.0","method":"codex/event","params":{"type":"progress"}}"#
    ));
    // custom/anything — non-standard notification, should be filtered
    assert!(is_non_standard_notification(
        r#"{"jsonrpc":"2.0","method":"custom/foo","params":{}}"#
    ));

    // Standard MCP notifications — should NOT be filtered
    assert!(!is_non_standard_notification(
        r#"{"jsonrpc":"2.0","method":"notifications/progress","params":{}}"#
    ));
    assert!(!is_non_standard_notification(
        r#"{"jsonrpc":"2.0","method":"notifications/cancelled","params":{}}"#
    ));
    assert!(!is_non_standard_notification(
        r#"{"jsonrpc":"2.0","method":"$/logTrace","params":{}}"#
    ));

    // JSON-RPC response (has id) — should NOT be filtered
    assert!(!is_non_standard_notification(
        r#"{"jsonrpc":"2.0","id":3,"result":{"content":[]}}"#
    ));

    // JSON-RPC request (has id + method) — should NOT be filtered
    assert!(!is_non_standard_notification(
        r#"{"jsonrpc":"2.0","id":1,"method":"codex/event","params":{}}"#
    ));

    // Malformed / non-JSON — should NOT be filtered (pass through to rmcp)
    assert!(!is_non_standard_notification("not json at all"));
    assert!(!is_non_standard_notification(""));
}

#[test]
fn filter_classifies_the_codex_event_notification() {
    assert!(is_non_standard_notification(
        r#"{"jsonrpc":"2.0","method":"codex/event","params":{}}"#
    ));
    assert!(!is_non_standard_notification(
        r#"{"jsonrpc":"2.0","method":"notifications/progress"}"#
    ));
    assert!(!is_non_standard_notification(
        r#"{"jsonrpc":"2.0","id":1,"method":"codex/event"}"#
    ));
    assert!(!is_non_standard_notification("not json at all"));
}

#[test]
fn preflight_blocks_readonly_before_anything_else() {
    let tool = McpTool::new(test_security(AutonomyLevel::ReadOnly, 100), test_config());
    match tool.preflight(false, false, Some("nonexistent"), None) {
        McpDispatch::Denied { result } => {
            assert!(!result.success);
            assert_eq!(
                result.error.as_deref(),
                Some("Action blocked: autonomy is read-only")
            );
        }
        _ => panic!("expected a denial"),
    }
}

#[test]
fn preflight_blocks_rate_limit() {
    let tool = McpTool::new(test_security(AutonomyLevel::Full, 0), test_config());
    match tool.preflight(true, false, Some("codex"), Some("codex")) {
        McpDispatch::Denied { result } => {
            assert!(!result.success);
            assert_eq!(
                result.error.as_deref(),
                Some("Action blocked: rate limit exceeded")
            );
        }
        _ => panic!("expected a denial"),
    }
}

#[test]
fn preflight_rejects_missing_server_and_tool() {
    let tool = McpTool::new(test_security(AutonomyLevel::Full, 100), test_config());
    match tool.preflight(true, true, None, Some("codex")) {
        McpDispatch::Invalid { message } => assert_eq!(message, "Missing 'server' parameter"),
        _ => panic!("expected a hard error"),
    }
    match tool.preflight(true, true, Some("codex"), Some("   ")) {
        McpDispatch::Invalid { message } => assert_eq!(message, "Missing 'tool' parameter"),
        _ => panic!("expected a hard error"),
    }
}

#[test]
fn preflight_rejects_unknown_server() {
    let tool = McpTool::new(test_security(AutonomyLevel::Full, 100), test_config());
    match tool.preflight(true, true, Some("nonexistent"), Some("codex")) {
        McpDispatch::Denied { result } => {
            assert!(!result.success);
            let err = result.error.unwrap();
            assert!(err.contains("Unknown MCP server"));
            assert!(err.contains("codex"));
            assert!(err.contains("filesystem"));
        }
        _ => panic!("expected a denial"),
    }
}

#[test]
fn preflight_rejects_disallowed_tool() {
    let tool = McpTool::new(test_security(AutonomyLevel::Full, 100), test_config());
    match tool.preflight(true, true, Some("codex"), Some("shell")) {
        McpDispatch::Denied { result } => {
            assert!(!result.success);
            let err = result.error.unwrap();
            assert!(err.contains("not in the allowed_tools list"));
            assert!(err.contains("codex"));
            assert_eq!(
                err,
                "Tool 'shell' is not in the allowed_tools list for MCP server 'codex'. Allowed: [\"codex\", \"codex-reply\"]"
            );
        }
        _ => panic!("expected a denial"),
    }
}

#[test]
fn preflight_proceeds_for_allowed_tool() {
    let tool = McpTool::new(test_security(AutonomyLevel::Full, 100), test_config());
    match tool.preflight(true, true, Some(" codex "), Some("codex-reply")) {
        McpDispatch::Proceed { server_index } => assert_eq!(server_index, 0),
        _ => panic!("expected to proceed"),
    }
}

#[test]
fn call_outcomes_map_to_results() {
    let ok = map_call_outcome(
        McpCallOutcome::Completed { text: "hello".to_string(), is_error: false },
        "codex",
        "codex",
        600,
    );
    assert!(ok.success);
    assert_eq!(ok.output, "hello");
    assert!(ok.error.is_none());

    let remote_err = map_call_outcome(
        McpCallOutcome::Completed { text: "boom".to_string(), is_error: true },
        "codex",
        "codex",
        600,
    );
    assert!(!remote_err.success);
    assert_eq!(remote_err.error.as_deref(), Some("MCP tool 'codex' error: boom"));

    let empty_err = map_call_outcome(
        McpCallOutcome::Completed { text: String::new(), is_error: true },
        "codex",
        "codex",
        600,
    );
    assert_eq!(
        empty_err.error.as_deref(),
        Some("MCP tool 'codex' returned an error")
    );
}

#[test]
fn timeout_and_failure_reports_are_distinct() {
    let timed_out =
        map_call_outcome(McpCallOutcome::TimedOut, "slow_tool", "my_server", 600);
    assert!(!timed_out.success);
    let timeout_msg = timed_out.error.unwrap();
    assert_eq!(
        timeout_msg,
        "MCP tool call 'slow_tool' on server 'my_server' timed out after 600s"
    );

    let failed = map_call_outcome(
        McpCallOutcome::Failed { message: "connection reset".to_string() },
        "slow_tool",
        "my_server",
        600,
    );
    let failed_msg = failed.error.unwrap();
    assert_eq!(
        failed_msg,
        "MCP tool call 'slow_tool' on server 'my_server' failed: connection reset"
    );

    assert_ne!(timeout_msg, failed_msg);
    assert!(timeout_msg.contains("slow_tool") && timeout_msg.contains("my_server"));
    assert!(failed_msg.contains("slow_tool") && failed_msg.contains("my_server"));
}

#[test]
fn connect_error_messages_are_exact() {
    let server = McpServerConfig {
        name: "bad".to_string(),
        command: "/nonexistent/path/to/mcp-server".to_string(),
        args: vec!["--stdio".to_string()],
        allowed_tools: vec![],
        tool_timeout_secs: 120,
        startup_timeout_secs: 5,
        notes: None,
    };
    assert_eq!(
        McpTool::spawn_failure_message(&server, "No such file or directory"),
        "Failed to spawn MCP server 'bad' (command: /nonexistent/path/to/mcp-server --stdio): No such file or directory"
    );
    assert_eq!(
        McpTool::startup_timeout_message(&server),
        "MCP server 'bad' startup timed out after 5s"
    );
    assert_eq!(
        McpTool::init_failure_message("bad", "handshake refused"),
        "MCP server 'bad' initialization failed: handshake refused"
    );
}

#[test]
fn allow_list_matches_membership_over_generated_sets() {
    // A small deterministic generator stands in for the original's random
    // name sets: for every generated allow-list, exactly the listed names
    // (or everything, when the list is empty) are accepted.
    let mut seed: u64 = 0x9E37_79B9_7F4A_7C15;
    let mut next = move || {
        seed = seed.wrapping_mul(6364136223846793005).wrapping_add(1442695040888963407);
        (seed >> 33) as usize
    };
    let pool = ["alpha", "beta", "gamma", "delta", "epsilon", "zeta"];
    for _ in 0..100 {
        let len = next() % 5;
        let mut allowed: Vec<String> = Vec::new();
        for _ in 0..len {
            allowed.push(pool[next() % pool.len()].to_string());
        }
        let server = McpServerConfig {
            name: "srv".to_string(),
            command: "srv".to_string(),
            args: vec![],
            allowed_tools: allowed.clone(),
            tool_timeout_secs: 1,
            startup_timeout_secs: 1,
            notes: None,
        };
        for candidate in pool.iter().chain(["other"].iter()) {
            let expected = allowed.is_empty() || allowed.iter().any(|t| t == candidate);
            assert_eq!(McpTool::is_tool_allowed(&server, candidate), expected);
        }
    }
}
