use std::path::PathBuf;
use std::sync::Arc;
use zeroclaw_tools::security::{security_preflight, AutonomyLevel, SecurityPolicy};
use zeroclaw_tools::tools::a2a_agent::{A2aAgentTarget, A2aAgentTool, A2aConfig};
use zeroclaw_tools::tools::env_get::{EnvGetDispatch, EnvGetTool, EnvValue};
use zeroclaw_tools::tools::lifx::{LifxConfig, LifxTool};
use zeroclaw_tools::tools::massive::MassiveMarketStatusTool;
use zeroclaw_tools::tools::ntfy::{NtfyConfig, NtfyTargetConfig, NtfyTool};
use zeroclaw_tools::tools::ralphy::{RalphyConfig, RalphyTask, RalphyTool};
use zeroclaw_tools::tools::toot::{TootDispatch, TootTool};
use zeroclaw_tools::tools::trade_summary::TradeSummaryTool;
use zeroclaw_tools::tools::uptime_kuma::{UptimeKumaConfig, UptimeKumaTarget, UptimeKumaTool};

fn test_security(level: AutonomyLevel, max_actions_per_hour: u32) -> Arc<SecurityPolicy> {
    Arc::new(SecurityPolicy {
        autonomy: level,
        max_actions_per_hour,
        allowed_env_vars: Vec::new(),
    })
}

fn supervised(allowed_env_vars: Vec<String>) -> Arc<SecurityPolicy> {
    Arc::new(SecurityPolicy {
        autonomy: AutonomyLevel::Supervised,
        max_actions_per_hour: 10,
        allowed_env_vars,
    })
}

#[test]
fn env_get_name() {
    let tool = EnvGetTool::new(supervised(vec![]));
    assert_eq!(tool.name(), "env_get");
}

#[test]
fn env_get_blocks_unlisted_var() {
    let tool = EnvGetTool::new(supervised(vec![]));
    match tool.preflight(false, true, Some("PATH")) {
        EnvGetDispatch::Denied { result } => {
            assert!(!result.success);
            assert!(result.error.as_ref().unwrap().contains("not allowed"));
        }
        _ => panic!("expected a denial"),
    }
}

#[test]
fn env_get_allows_listed_var_and_maps_values() {
    let tool = EnvGetTool::new(supervised(vec!["HOME_DIR".to_string()]));
    match tool.preflight(false, true, Some("HOME_DIR")) {
        EnvGetDispatch::Read => {}
        _ => panic!("expected to read"),
    }
    let ok = EnvGetTool::env_result("HOME_DIR", EnvValue::Present { value: "/home".to_string() });
    assert!(ok.success);
    assert_eq!(ok.output, "/home");
    let missing = EnvGetTool::env_result("HOME_DIR", EnvValue::NotSet);
    assert!(!missing.success);
    assert!(missing.error.as_ref().unwrap().contains("not set"));
    let garbled = EnvGetTool::env_result("HOME_DIR", EnvValue::NotUnicode);
    assert!(!garbled.success);
    assert!(garbled.error.as_ref().unwrap().contains("invalid Unicode"));
}

#[test]
fn env_get_blocks_when_rate_limited() {
    let tool = EnvGetTool::new(supervised(vec!["SOME_VAR".to_string()]));
    match tool.preflight(true, true, Some("SOME_VAR")) {
        EnvGetDispatch::Denied { result } => {
            assert!(!result.success);
            assert!(result
                .error
                .as_deref()
                .unwrap_or("")
                .contains("Rate limit exceeded"));
        }
        _ => panic!("expected a denial"),
    }
}

#[test]
fn massive_tool_name() {
    let tool = MassiveMarketStatusTool::new(PathBuf::from("/tmp"));
    assert_eq!(tool.name(), "massive_market_status");
}

#[test]
fn tool_has_description() {
    let tool = MassiveMarketStatusTool::new(PathBuf::from("/tmp"));
    assert!(!tool.description().is_empty());
}

#[test]
fn massive_parse_env_value_handles_quotes_and_comments() {
    assert_eq!(MassiveMarketStatusTool::parse_env_value("plain"), "plain");
    assert_eq!(MassiveMarketStatusTool::parse_env_value("\"quoted\""), "quoted");
    assert_eq!(MassiveMarketStatusTool::parse_env_value("'single'"), "single");
    assert_eq!(
        MassiveMarketStatusTool::parse_env_value("  value # not a comment"),
        "value"
    );
    assert_eq!(MassiveMarketStatusTool::parse_env_value(" spaced  "), "spaced");
}

#[test]
fn massive_rejects_invalid_query() {
    let err = MassiveMarketStatusTool::validate_query(Some("invalid")).unwrap_err();
    assert!(!err.success);
    assert!(err.error.unwrap().contains("Invalid query"));
    let err = MassiveMarketStatusTool::validate_query(None).unwrap_err();
    assert!(err.error.unwrap().contains("Missing required parameter"));
    assert_eq!(MassiveMarketStatusTool::validate_query(Some("now")).unwrap(), "now");
    assert_eq!(
        MassiveMarketStatusTool::status_url("now"),
        "https://api.massive.com/v1/marketstatus/now"
    );
}

#[test]
fn trade_summary_tool_name() {
    let tool = TradeSummaryTool::new(PathBuf::from("/tmp"));
    assert_eq!(tool.name(), "trade_summary");
}

#[test]
fn trade_summary_requires_date() {
    let err = TradeSummaryTool::validate_date(None).unwrap_err();
    assert!(!err.success);
    assert!(err
        .error
        .unwrap()
        .contains("Missing required parameter \"date\""));
    assert_eq!(
        TradeSummaryTool::summary_url("http://studio.lan:8080", "2026-01-05"),
        "http://studio.lan:8080/api/v1/trades/summary?date=2026-01-05"
    );
}

#[test]
fn format_mac_produces_expected_format() {
    let mac = LifxTool::format_mac(0x00_00_aa_bb_cc_dd_ee_ff);
    // Little-endian bytes: ff, ee, dd, cc, bb, aa, 00, 00
    assert_eq!(mac, "ff:ee:dd:cc:bb:aa");
}

#[test]
fn lifx_tool_name() {
    let tool = LifxTool::new(
        test_security(AutonomyLevel::Full, 100),
        LifxConfig { enabled: true, timeout_secs: 3, broadcast_addr: "255.255.255.255".to_string() },
    );
    assert_eq!(tool.name(), "lifx");
}

#[test]
fn lifx_tool_description_mentions_actions() {
    let tool = LifxTool::new(
        test_security(AutonomyLevel::Full, 100),
        LifxConfig { enabled: true, timeout_secs: 3, broadcast_addr: "255.255.255.255".to_string() },
    );
    let desc = tool.description();
    assert!(desc.contains("discover"));
    assert!(desc.contains("state"));
    assert!(desc.contains("power"));
    assert!(desc.contains("color"));
}

#[test]
fn lifx_validations() {
    assert_eq!(LifxTool::power_level("on").unwrap(), 65535);
    assert_eq!(LifxTool::power_level("off").unwrap(), 0);
    let err = LifxTool::power_level("dim").unwrap_err();
    assert_eq!(
        err.error.as_deref(),
        Some("Invalid power value 'dim'. Expected 'on' or 'off'")
    );
    assert!(LifxTool::validate_kelvin(3500).is_none());
    let err = LifxTool::validate_kelvin(500).unwrap();
    assert_eq!(
        err.error.as_deref(),
        Some("Invalid kelvin 500: must be between 1500 and 9000")
    );
    let unknown = LifxTool::unknown_action_result("dance");
    assert!(unknown.error.unwrap().contains("Unknown action"));
}

#[test]
fn toot_tool_name() {
    let tool = TootTool::new(test_security(AutonomyLevel::Full, 100));
    assert_eq!(tool.name(), "toot");
}

#[test]
fn toot_tool_description() {
    let tool = TootTool::new(test_security(AutonomyLevel::Full, 100));
    assert!(!tool.description().is_empty());
}

#[test]
fn execute_blocks_readonly_mode() {
    let tool = TootTool::new(test_security(AutonomyLevel::ReadOnly, 100));
    match tool.preflight(false, false, Some("hello"), None) {
        TootDispatch::Denied { result } => {
            assert!(!result.success);
            assert!(result.error.unwrap().contains("read-only"));
        }
        _ => panic!("expected a denial"),
    }
}

#[test]
fn execute_blocks_rate_limit() {
    let tool = TootTool::new(test_security(AutonomyLevel::Full, 0));
    match tool.preflight(true, false, Some("hello"), None) {
        TootDispatch::Denied { result } => {
            assert!(!result.success);
            assert!(result.error.unwrap().contains("rate limit"));
        }
        _ => panic!("expected a denial"),
    }
}

#[test]
fn execute_rejects_invalid_visibility() {
    let tool = TootTool::new(test_security(AutonomyLevel::Full, 100));
    match tool.preflight(true, true, Some("hello"), Some("world")) {
        TootDispatch::Denied { result } => {
            assert!(!result.success);
            assert!(result.error.unwrap().contains("Invalid 'visibility'"));
        }
        _ => panic!("expected a denial"),
    }
}

#[test]
fn toot_output_mapping() {
    let posted = TootTool::map_output(true, "  \n", "");
    assert!(posted.success);
    assert_eq!(posted.output, "Posted successfully.");
    let failed = TootTool::map_output(false, "partial", "auth error");
    assert!(!failed.success);
    assert_eq!(failed.output, "partial");
    assert_eq!(
        failed.error.as_deref(),
        Some("toot exited with error: auth error")
    );
}

fn ntfy_config() -> NtfyConfig {
    NtfyConfig {
        enabled: true,
        default_target: Some("alerts".to_string()),
        timeout_secs: 15,
        targets: vec![
            NtfyTargetConfig {
                name: "alerts".to_string(),
                host: "https://ntfy.sh".to_string(),
                topic: "test-alerts".to_string(),
            },
            NtfyTargetConfig {
                name: "logs".to_string(),
                host: "http://nas1-oryx.lan:2586/".to_string(),
                topic: "build-logs".to_string(),
            },
        ],
    }
}

#[test]
fn ntfy_tool_name() {
    let tool = NtfyTool::new(test_security(AutonomyLevel::Full, 100), ntfy_config());
    assert_eq!(tool.name(), "ntfy");
}

#[test]
fn ntfy_resolves_default_and_rejects_unknown() {
    let tool = NtfyTool::new(test_security(AutonomyLevel::Full, 100), ntfy_config());
    assert_eq!(tool.resolve_target(None).unwrap(), 0);
    assert_eq!(tool.resolve_target(Some("logs")).unwrap(), 1);
    let err = tool.resolve_target(Some("nonexistent")).unwrap_err();
    assert!(err.contains("Unknown ntfy target"));
    assert!(err.contains("alerts"));
    assert!(err.contains("logs"));

    let mut no_default = ntfy_config();
    no_default.default_target = None;
    let tool = NtfyTool::new(test_security(AutonomyLevel::Full, 100), no_default);
    let err = tool.resolve_target(None).unwrap_err();
    assert_eq!(err, "No target specified and no default_target configured");
}

#[test]
fn ntfy_priority_and_url() {
    let bad = NtfyTool::validate_priority(Some(6)).unwrap_err();
    assert!(bad.error.unwrap().contains("1..=5"));
    assert_eq!(NtfyTool::validate_priority(Some(3)).unwrap(), Some(3));
    assert_eq!(NtfyTool::validate_priority(None).unwrap(), None);
    let target = NtfyTargetConfig {
        name: "logs".to_string(),
        host: "http://nas1-oryx.lan:2586/".to_string(),
        topic: "build-logs".to_string(),
    };
    assert_eq!(
        NtfyTool::publish_url(&target),
        "http://nas1-oryx.lan:2586/build-logs"
    );
}

fn kuma_config() -> UptimeKumaConfig {
    UptimeKumaConfig {
        enabled: true,
        timeout_secs: 30,
        connect_timeout_secs: 10,
        targets: vec![
            UptimeKumaTarget {
                name: "cerberus_gamma".to_string(),
                base_url: "http://dev1-oryx.lan:3002".to_string(),
                slug: "cerberus-gamma".to_string(),
                notes: Some("Primary infrastructure".to_string()),
            },
            UptimeKumaTarget {
                name: "xscraper".to_string(),
                base_url: "http://dev2-mini.lan:3001".to_string(),
                slug: "xscraper".to_string(),
                notes: None,
            },
        ],
    }
}

#[test]
fn uptime_kuma_tool_name() {
    let tool = UptimeKumaTool::new(test_security(AutonomyLevel::Full, 100), kuma_config());
    assert_eq!(tool.name(), "uptime_kuma");
}

#[test]
fn uptime_kuma_tool_description_lists_targets() {
    let tool = UptimeKumaTool::new(test_security(AutonomyLevel::Full, 100), kuma_config());
    let desc = tool.description();
    assert!(desc.contains("\"cerberus_gamma\""));
    assert!(desc.contains("http://dev1-oryx.lan:3002"));
    assert!(desc.contains("cerberus-gamma"));
    assert!(desc.contains("Primary infrastructure"));
    assert!(desc.contains("\"xscraper\""));
    assert!(desc.contains("http://dev2-mini.lan:3001"));
    assert!(desc.contains("slug: xscraper"));
}

#[test]
fn uptime_kuma_tool_description_omits_notes_when_none() {
    let tool = UptimeKumaTool::new(test_security(AutonomyLevel::Full, 100), kuma_config());
    let desc = tool.description();
    let xscraper_line = desc.lines().find(|l| l.contains("\"xscraper\"")).unwrap();
    assert!(!xscraper_line.contains(" — "));
}

#[test]
fn uptime_kuma_resolution_and_validation() {
    let tool = UptimeKumaTool::new(test_security(AutonomyLevel::Full, 100), kuma_config());
    assert_eq!(tool.resolve_target("xscraper").unwrap(), 1);
    let err = tool.resolve_target("nonexistent").unwrap_err();
    assert!(err.contains("Unknown uptime_kuma target"));

    let err = UptimeKumaTool::validate_push_token(None).unwrap_err();
    assert!(err.error.unwrap().contains("push_token"));
    assert_eq!(UptimeKumaTool::validate_push_token(Some(" abc ")).unwrap(), "abc");

    assert_eq!(UptimeKumaTool::validate_push_status(None).unwrap(), "up");
    let err = UptimeKumaTool::validate_push_status(Some("maybe")).unwrap_err();
    assert!(err.error.unwrap().contains("Must be 'up' or 'down'"));

    let unknown = UptimeKumaTool::unknown_action_result("delete");
    assert!(unknown.error.unwrap().contains("Unknown action"));
}

#[test]
fn uptime_kuma_urls_encode_parameters() {
    let target = UptimeKumaTarget {
        name: "cerberus_gamma".to_string(),
        base_url: "http://dev1-oryx.lan:3002/".to_string(),
        slug: "cerberus-gamma".to_string(),
        notes: None,
    };
    assert_eq!(
        UptimeKumaTool::config_url(&target),
        "http://dev1-oryx.lan:3002/api/status-page/cerberus-gamma"
    );
    assert_eq!(
        UptimeKumaTool::heartbeat_url(&target),
        "http://dev1-oryx.lan:3002/api/status-page/heartbeat/cerberus-gamma"
    );
    assert_eq!(
        UptimeKumaTool::push_url(&target, "tok1", "up", Some("all good now"), Some("12")),
        "http://dev1-oryx.lan:3002/api/push/tok1?status=up&msg=all%20good%20now&ping=12"
    );
}

fn a2a_config() -> A2aConfig {
    A2aConfig {
        enabled: true,
        timeout_secs: 120,
        connect_timeout_secs: 10,
        targets: vec![
            A2aAgentTarget {
                name: "researcher".to_string(),
                base_url: "https://researcher.example.com".to_string(),
                auth_token: None,
                notes: Some("Deep research agent".to_string()),
            },
            A2aAgentTarget {
                name: "coder".to_string(),
                base_url: "https://coder.example.com".to_string(),
                auth_token: Some("test-token".to_string()),
                notes: None,
            },
        ],
    }
}

#[test]
fn a2a_agent_tool_name() {
    let tool = A2aAgentTool::new(test_security(AutonomyLevel::Full, 100), a2a_config());
    assert_eq!(tool.name(), "a2a_agent");
}

#[test]
fn a2a_agent_tool_description_lists_targets() {
    let tool = A2aAgentTool::new(test_security(AutonomyLevel::Full, 100), a2a_config());
    let desc = tool.description();
    assert!(desc.contains("\"researcher\""));
    assert!(desc.contains("https://researcher.example.com"));
    assert!(desc.contains("Deep research agent"));
    assert!(desc.contains("\"coder\""));
    assert!(desc.contains("https://coder.example.com"));
}

#[test]
fn a2a_agent_tool_description_omits_notes_when_none() {
    let tool = A2aAgentTool::new(test_security(AutonomyLevel::Full, 100), a2a_config());
    let desc = tool.description();
    let coder_line = desc.lines().find(|l| l.contains("\"coder\"")).unwrap();
    assert!(!coder_line.contains(" — "));
}

#[test]
fn a2a_agent_resolution_and_messages() {
    let tool = A2aAgentTool::new(test_security(AutonomyLevel::Full, 100), a2a_config());
    assert_eq!(tool.resolve_target("coder").unwrap(), 1);
    let err = tool.resolve_target("nonexistent").unwrap_err();
    assert!(err.contains("Unknown a2a agent"));

    let err = A2aAgentTool::validate_message(Some("   ")).unwrap_err();
    assert!(err.error.unwrap().contains("message"));
    assert_eq!(A2aAgentTool::validate_message(Some(" hi ")).unwrap(), "hi");

    assert_eq!(
        A2aAgentTool::timeout_message("researcher", 120),
        "A2A agent 'researcher' timed out after 120s"
    );
    assert_eq!(
        A2aAgentTool::rpc_error_message("researcher", -32600, "Unauthorized"),
        "A2A agent 'researcher' JSON-RPC error -32600: Unauthorized"
    );
    let texts = vec!["one".to_string(), "two".to_string()];
    assert_eq!(A2aAgentTool::extract_text_from_parts(&texts), "one\ntwo");
}

#[test]
fn tool_name_is_ralphy() {
    let tool = RalphyTool::new(
        test_security(AutonomyLevel::Full, 100),
        RalphyConfig {
            enabled: true,
            working_dir: Some("/tmp".to_string()),
            timeout_secs: 60,
            command: "ralphy".to_string(),
        },
    );
    assert_eq!(tool.name(), "ralphy");
}

#[test]
fn description_mentions_prd_codex_parallel() {
    let tool = RalphyTool::new(
        test_security(AutonomyLevel::Full, 100),
        RalphyConfig {
            enabled: true,
            working_dir: Some("/tmp".to_string()),
            timeout_secs: 60,
            command: "ralphy".to_string(),
        },
    );
    let desc = tool.description();
    assert!(desc.contains("PRD"));
    assert!(desc.contains("codex"));
    assert!(desc.contains("parallel_group"));
}

#[test]
fn ralphy_validations() {
    let tool = RalphyTool::new(
        test_security(AutonomyLevel::Full, 100),
        RalphyConfig {
            enabled: true,
            working_dir: None,
            timeout_secs: 60,
            command: "ralphy".to_string(),
        },
    );
    let err = tool.validate_working_dir().unwrap_err();
    assert!(err.error.unwrap().contains("working_dir"));

    let empty: Vec<RalphyTask> = Vec::new();
    let err = RalphyTool::validate_tasks(&empty).unwrap();
    assert!(err.error.unwrap().contains("empty"));

    let tasks = vec![
        RalphyTask {
            title: Some("first".to_string()),
            description: None,
            parallel_group: None,
        },
        RalphyTask { title: None, description: Some("no title".to_string()), parallel_group: None },
    ];
    let err = RalphyTool::validate_tasks(&tasks).unwrap();
    assert_eq!(
        err.error.as_deref(),
        Some("Task at index 1 is missing a non-empty 'title' field.")
    );

    let good = vec![RalphyTask {
        title: Some("only".to_string()),
        description: None,
        parallel_group: Some(1),
    }];
    assert!(RalphyTool::validate_tasks(&good).is_none());

    let failed = RalphyTool::map_exit(false, Some(3), "log".to_string());
    assert_eq!(failed.error.as_deref(), Some("Ralphy exited with status: 3"));
    let unknown = RalphyTool::map_exit(false, None, String::new());
    assert_eq!(
        unknown.error.as_deref(),
        Some("Ralphy exited with status: unknown")
    );
}

#[test]
fn security_preflight_orders_denials() {
    let denied = security_preflight(false, true).unwrap();
    assert_eq!(
        denied.error.as_deref(),
        Some("Action blocked: autonomy is read-only")
    );
    let limited = security_preflight(true, false).unwrap();
    assert_eq!(
        limited.error.as_deref(),
        Some("Action blocked: rate limit exceeded")
    );
    assert!(security_preflight(true, true).is_none());
}

#[test]
fn zero_budget_never_allows_actions() {
    let policy = SecurityPolicy {
        autonomy: AutonomyLevel::Full,
        max_actions_per_hour: 0,
        allowed_env_vars: Vec::new(),
    };
    for recent in [0u32, 1, 50, u32::MAX] {
        assert!(!policy.allows_action(recent));
    }
}
