use codex_tools::threads::{
    plan_thread_read, thread_read_needs_lookup, RolloutLookup, ThreadReadPlan, ThreadSummarySource, TurnsSource,
};
use codex_tools::app_list::{app_list_step, AppListAction, AppListEvent, AppListProgress, INTERNAL_ERROR_CODE};
use codex_tools::app_server::{
    paginate_apps, plugin_apps_needing_auth, should_send_app_list_updated_notification, validate_dynamic_tools,
    AppSummary, RpcError, INVALID_REQUEST_ERROR_CODE,
};
use codex_tools::threads::check_archived_rollout;
use codex_tools::discoverable::AppInfo;
use codex_tools::json::JsonValue;
use codex_tools::mcp::DynamicToolSpec;

fn obj(members: Vec<(&str, JsonValue)>) -> JsonValue {
    JsonValue::Object(members.into_iter().map(|(k, v)| (k.to_string(), v)).collect())
}

fn tool(name: &str, input_schema: JsonValue) -> DynamicToolSpec {
    DynamicToolSpec { name: name.to_string(), description: "test".to_string(), input_schema }
}

fn app(id: &str, is_accessible: bool) -> AppInfo {
    AppInfo {
        id: id.to_string(),
        name: format!("App {id}"),
        description: Some(format!("{id} connector")),
        install_url: Some(format!("https://chatgpt.com/apps/{id}/{id}")),
        is_accessible,
        is_enabled: true,
    }
}

#[test]
fn validate_dynamic_tools_rejects_unsupported_input_schema() {
    let tools = vec![DynamicToolSpec {
        name: "my_tool".to_string(),
        description: "test".to_string(),
        input_schema: obj(vec![("type", JsonValue::Str("null".to_string()))]),
    }];
    let err = validate_dynamic_tools(&tools).expect_err("invalid schema");
    assert!(err.contains("my_tool"), "unexpected error: {err}");
}

#[test]
fn validate_dynamic_tools_accepts_sanitizable_input_schema() {
    let tools = vec![DynamicToolSpec {
        name: "my_tool".to_string(),
        description: "test".to_string(),
        // Missing `type` is common; the schema is sanitized to a supported one.
        input_schema: obj(vec![("properties", obj(vec![]))]),
    }];
    validate_dynamic_tools(&tools).expect("valid schema");
}

#[test]
fn plugin_apps_needing_auth_returns_empty_when_codex_apps_is_not_ready() {
    let all_connectors = vec![AppInfo {
        id: "alpha".to_string(),
        name: "Alpha".to_string(),
        description: Some("Alpha connector".to_string()),
        install_url: Some("https://chatgpt.com/apps/alpha/alpha".to_string()),
        is_accessible: false,
        is_enabled: true,
    }];

    assert_eq!(
        plugin_apps_needing_auth(&all_connectors, &Vec::new(), &vec!["alpha".to_string()], false),
        Vec::<AppSummary>::new()
    );
}

#[test]
fn plugin_apps_needing_auth_lists_inaccessible_plugin_apps_in_order() {
    let all = vec![app("alpha", false), app("beta", false), app("gamma", true), app("delta", false)];
    let accessible = vec![app("beta", true)];
    let plugin_apps = vec!["delta".to_string(), "beta".to_string(), "alpha".to_string(), "gamma".to_string()];
    let got = plugin_apps_needing_auth(&all, &accessible, &plugin_apps, true);
    assert_eq!(
        got,
        vec![
            AppSummary {
                id: "alpha".to_string(),
                name: "App alpha".to_string(),
                description: Some("alpha connector".to_string()),
                install_url: Some("https://chatgpt.com/apps/alpha/alpha".to_string()),
            },
            AppSummary {
                id: "gamma".to_string(),
                name: "App gamma".to_string(),
                description: Some("gamma connector".to_string()),
                install_url: Some("https://chatgpt.com/apps/gamma/gamma".to_string()),
            },
            AppSummary {
                id: "delta".to_string(),
                name: "App delta".to_string(),
                description: Some("delta connector".to_string()),
                install_url: Some("https://chatgpt.com/apps/delta/delta".to_string()),
            },
        ]
    );
}

#[test]
fn validate_dynamic_tools_reports_each_name_error() {
    let ok_schema = || obj(vec![("type", JsonValue::Str("object".to_string()))]);
    assert_eq!(
        validate_dynamic_tools(&vec![tool("", ok_schema())]),
        Err("dynamic tool name must not be empty".to_string())
    );
    assert_eq!(
        validate_dynamic_tools(&vec![tool("  ", ok_schema())]),
        Err("dynamic tool name must not be empty".to_string())
    );
    assert_eq!(
        validate_dynamic_tools(&vec![tool(" padded", ok_schema())]),
        Err("dynamic tool name has leading/trailing whitespace:  padded".to_string())
    );
    assert_eq!(
        validate_dynamic_tools(&vec![tool("mcp", ok_schema())]),
        Err("dynamic tool name is reserved: mcp".to_string())
    );
    assert_eq!(
        validate_dynamic_tools(&vec![tool("mcp__server__x", ok_schema())]),
        Err("dynamic tool name is reserved: mcp__server__x".to_string())
    );
    assert_eq!(
        validate_dynamic_tools(&vec![tool("lookup", ok_schema()), tool("lookup", ok_schema())]),
        Err("duplicate dynamic tool name: lookup".to_string())
    );
    assert_eq!(validate_dynamic_tools(&vec![tool("a", ok_schema()), tool("b", ok_schema())]), Ok(()));
    assert_eq!(validate_dynamic_tools(&Vec::new()), Ok(()));
}

#[test]
fn validate_dynamic_tools_reports_the_first_error_only() {
    let bad = obj(vec![("type", JsonValue::Str("null".to_string()))]);
    let ok = obj(vec![]);
    let err = validate_dynamic_tools(&vec![tool("first", ok), tool("second", bad), tool("", obj(vec![]))]).unwrap_err();
    assert!(err.starts_with("dynamic tool input schema is not supported for second: "), "{err}");
}

#[test]
fn app_list_notification_when_an_app_is_accessible_or_both_lists_loaded() {
    assert!(should_send_app_list_updated_notification(&vec![app("a", false), app("b", true)], false, false));
    assert!(!should_send_app_list_updated_notification(&vec![app("a", false)], true, false));
    assert!(!should_send_app_list_updated_notification(&vec![app("a", false)], false, true));
    assert!(should_send_app_list_updated_notification(&vec![app("a", false)], true, true));
    assert!(should_send_app_list_updated_notification(&Vec::new(), true, true));
    assert!(!should_send_app_list_updated_notification(&Vec::new(), false, false));
}

#[test]
fn paginate_apps_pages_and_cursors() {
    let apps: Vec<AppInfo> = (0..5).map(|i| app(&format!("app{i}"), false)).collect();
    let (page, next) = paginate_apps(&apps, 0, Some(2)).unwrap();
    assert_eq!(page.iter().map(|a| a.id.as_str()).collect::<Vec<_>>(), vec!["app0", "app1"]);
    assert_eq!(next, Some("2".to_string()));

    let (page, next) = paginate_apps(&apps, 4, Some(2)).unwrap();
    assert_eq!(page.iter().map(|a| a.id.as_str()).collect::<Vec<_>>(), vec!["app4"]);
    assert_eq!(next, None);

    let (page, next) = paginate_apps(&apps, 1, None).unwrap();
    assert_eq!(page.len(), 4);
    assert_eq!(next, None);

    let (page, next) = paginate_apps(&apps, 3, Some(0)).unwrap();
    assert_eq!(page.iter().map(|a| a.id.as_str()).collect::<Vec<_>>(), vec!["app3"]);
    assert_eq!(next, Some("4".to_string()));

    let (page, next) = paginate_apps(&apps, 5, Some(3)).unwrap();
    assert!(page.is_empty());
    assert_eq!(next, None);
}

#[test]
fn paginate_apps_rejects_cursor_past_end() {
    let apps: Vec<AppInfo> = (0..3).map(|i| app(&format!("app{i}"), false)).collect();
    let err = paginate_apps(&apps, 7, Some(2)).unwrap_err();
    assert_eq!(err.code, INVALID_REQUEST_ERROR_CODE);
    assert_eq!(err.message, "cursor 7 exceeds total apps 3");
}

use codex_tools::threads::{
    collect_resume_override_mismatches, conversation_preview, extract_conversation_summary, find,
    preview_from_rollout_items, resume_override_mismatches, ActiveThreadConfig, ConversationGitInfo,
    ConversationSummary, ResumeOverrides, SandboxMode, SandboxPolicyKind, SessionMeta, USER_MESSAGE_BEGIN,
};

fn no_overrides() -> ResumeOverrides {
    ResumeOverrides {
        model: None,
        model_provider: None,
        service_tier: None,
        cwd: None,
        approval_policy: None,
        sandbox: None,
        personality: None,
        has_config_overrides: false,
        has_base_instructions: false,
        has_developer_instructions: false,
        persist_extended_history: false,
    }
}

fn active_config() -> ActiveThreadConfig {
    ActiveThreadConfig {
        model: "gpt-5".to_string(),
        model_provider_id: "openai".to_string(),
        service_tier: Some("Flex".to_string()),
        cwd: "/tmp".to_string(),
        approval_policy: "OnRequest".to_string(),
        sandbox_policy: SandboxPolicyKind::DangerFullAccess,
        sandbox_policy_text: "DangerFullAccess".to_string(),
        personality: None,
    }
}

#[test]
fn collect_resume_override_mismatches_includes_service_tier() {
    let mut request = no_overrides();
    request.service_tier = Some(Some("Fast".to_string()));
    let config_snapshot = active_config();

    assert_eq!(
        collect_resume_override_mismatches(&request, &config_snapshot),
        vec!["service_tier requested=Some(Fast) active=Some(Flex)".to_string()]
    );
}

#[test]
fn resume_mismatches_report_each_field_in_order() {
    let request = ResumeOverrides {
        model: Some("o3".to_string()),
        model_provider: Some("azure".to_string()),
        service_tier: Some(None),
        cwd: Some("/work".to_string()),
        approval_policy: Some("Never".to_string()),
        sandbox: Some(SandboxMode::ReadOnly),
        personality: Some("Friendly".to_string()),
        has_config_overrides: true,
        has_base_instructions: true,
        has_developer_instructions: true,
        persist_extended_history: true,
    };
    assert_eq!(
        collect_resume_override_mismatches(&request, &active_config()),
        vec![
            "model requested=o3 active=gpt-5".to_string(),
            "model_provider requested=azure active=openai".to_string(),
            "service_tier requested=None active=Some(Flex)".to_string(),
            "cwd requested=/work active=/tmp".to_string(),
            "approval_policy requested=Never active=OnRequest".to_string(),
            "sandbox requested=ReadOnly active=DangerFullAccess".to_string(),
            "personality requested=Friendly active=None".to_string(),
            "config overrides were provided and ignored while running".to_string(),
            "baseInstructions override was provided and ignored while running".to_string(),
            "developerInstructions override was provided and ignored while running".to_string(),
            "persistExtendedHistory override was provided and ignored while running".to_string(),
        ]
    );
}

#[test]
fn resume_mismatches_skip_matching_fields() {
    let mut request = no_overrides();
    request.model = Some("gpt-5".to_string());
    request.model_provider = Some("openai".to_string());
    request.service_tier = Some(Some("Flex".to_string()));
    request.cwd = Some("/tmp/".to_string());
    request.approval_policy = Some("OnRequest".to_string());
    request.sandbox = Some(SandboxMode::DangerFullAccess);
    let mut active = active_config();
    assert!(collect_resume_override_mismatches(&request, &active).is_empty());
    active.sandbox_policy = SandboxPolicyKind::ExternalSandbox;
    assert!(collect_resume_override_mismatches(&request, &active).is_empty());
    active.personality = Some("Pragmatic".to_string());
    request.personality = Some("Pragmatic".to_string());
    assert!(collect_resume_override_mismatches(&request, &active).is_empty());
    assert_eq!(
        resume_override_mismatches(&request, &active, false),
        vec!["cwd requested=/tmp/ active=/tmp".to_string()]
    );
}

#[test]
fn find_locates_the_first_occurrence() {
    assert_eq!(find("abcabc", "bc"), Some(1));
    assert_eq!(find("abc", ""), Some(0));
    assert_eq!(find("abc", "abcd"), None);
    assert_eq!(find("", ""), Some(0));
    assert_eq!(find("aaa", "aa"), Some(0));
    assert_eq!(find("xyz", "z"), Some(2));
}

#[test]
fn conversation_preview_keeps_the_users_words() {
    assert_eq!(conversation_preview(&format!("<prior context> {USER_MESSAGE_BEGIN}  Count to 5 \n")), "Count to 5");
    assert_eq!(conversation_preview("  plain message "), "  plain message ");
    assert_eq!(preview_from_rollout_items(None), "");
    assert_eq!(
        preview_from_rollout_items(Some(format!("{USER_MESSAGE_BEGIN}hello"))),
        "hello"
    );
}

#[test]
fn extract_conversation_summary_strips_prior_context() {
    let timestamp = Some("2025-09-05T16:53:11.850Z".to_string());
    let meta = SessionMeta {
        id: "3f941c35-29b3-493b-b0a4-e25800d9aeb0".to_string(),
        timestamp: "2025-09-05T16:53:11.850Z".to_string(),
        cwd: "/".to_string(),
        cli_version: "0.0.0".to_string(),
        model_provider: Some("test-provider".to_string()),
        source: "VSCode".to_string(),
    };
    let message = format!("<prior context> {USER_MESSAGE_BEGIN}Count to 5");
    let summary = extract_conversation_summary(
        "rollout.jsonl",
        Some(message.as_str()),
        &meta,
        None,
        "test-provider",
        timestamp.clone(),
    )
    .expect("summary");
    let expected = ConversationSummary {
        conversation_id: "3f941c35-29b3-493b-b0a4-e25800d9aeb0".to_string(),
        timestamp: timestamp.clone(),
        updated_at: timestamp,
        path: "rollout.jsonl".to_string(),
        preview: "Count to 5".to_string(),
        model_provider: "test-provider".to_string(),
        cwd: "/".to_string(),
        cli_version: "0.0.0".to_string(),
        source: "VSCode".to_string(),
        git_info: None,
    };
    assert_eq!(summary, expected);
}

#[test]
fn extract_conversation_summary_fills_defaults() {
    let meta = SessionMeta {
        id: "id-1".to_string(),
        timestamp: String::new(),
        cwd: "/w".to_string(),
        cli_version: "1.0".to_string(),
        model_provider: None,
        source: "Cli".to_string(),
    };
    let git = ConversationGitInfo { sha: Some("abc".to_string()), branch: None, origin_url: None };
    let summary = extract_conversation_summary("p", Some("hi"), &meta, Some(&git), "fallback", None).unwrap();
    assert_eq!(summary.timestamp, None);
    assert_eq!(summary.updated_at, None);
    assert_eq!(summary.model_provider, "fallback");
    assert_eq!(summary.preview, "hi");
    assert_eq!(summary.git_info, Some(ConversationGitInfo { sha: Some("abc".to_string()), branch: None, origin_url: None }));
    let meta2 = SessionMeta { timestamp: "t0".to_string(), ..meta };
    let summary = extract_conversation_summary("p", Some("hi"), &meta2, None, "fallback", None).unwrap();
    assert_eq!(summary.updated_at, Some("t0".to_string()));
    assert!(extract_conversation_summary("p", None, &meta2, None, "fallback", None).is_none());
}

use codex_tools::app_server::{clean_review_target, ReviewTarget};

#[test]
fn review_targets_are_trimmed_or_rejected() {
    assert_eq!(clean_review_target(ReviewTarget::UncommittedChanges), Ok(ReviewTarget::UncommittedChanges));
    assert_eq!(
        clean_review_target(ReviewTarget::BaseBranch { branch: "  main \n".to_string() }),
        Ok(ReviewTarget::BaseBranch { branch: "main".to_string() })
    );
    let err = clean_review_target(ReviewTarget::BaseBranch { branch: "   ".to_string() }).unwrap_err();
    assert_eq!(err.code, INVALID_REQUEST_ERROR_CODE);
    assert_eq!(err.message, "branch must not be empty");
    assert_eq!(
        clean_review_target(ReviewTarget::Commit { sha: " abc123 ".to_string(), title: Some("  ".to_string()) }),
        Ok(ReviewTarget::Commit { sha: "abc123".to_string(), title: None })
    );
    assert_eq!(
        clean_review_target(ReviewTarget::Commit { sha: "abc".to_string(), title: Some(" Fix it ".to_string()) }),
        Ok(ReviewTarget::Commit { sha: "abc".to_string(), title: Some("Fix it".to_string()) })
    );
    assert_eq!(
        clean_review_target(ReviewTarget::Commit { sha: "".to_string(), title: None }).unwrap_err().message,
        "sha must not be empty"
    );
    assert_eq!(
        clean_review_target(ReviewTarget::Custom { instructions: "\tlook at tests\t".to_string() }),
        Ok(ReviewTarget::Custom { instructions: "look at tests".to_string() })
    );
    assert_eq!(
        clean_review_target(ReviewTarget::Custom { instructions: "".to_string() }).unwrap_err().message,
        "instructions must not be empty"
    );
}

use codex_tools::threads::{normalize_git_info_update, require_git_info_update, GitInfoUpdate};

#[test]
fn git_info_updates_need_a_field() {
    let err = require_git_info_update(None).unwrap_err();
    assert_eq!(err.code, INVALID_REQUEST_ERROR_CODE);
    assert_eq!(err.message, "gitInfo must include at least one field");
    let err = require_git_info_update(Some(GitInfoUpdate { sha: None, branch: None, origin_url: None })).unwrap_err();
    assert_eq!(err.message, "gitInfo must include at least one field");
    let update = GitInfoUpdate { sha: Some(None), branch: None, origin_url: None };
    assert_eq!(
        require_git_info_update(Some(update)),
        Ok(GitInfoUpdate { sha: Some(None), branch: None, origin_url: None })
    );
}

#[test]
fn git_info_updates_are_trimmed_or_rejected() {
    let update = GitInfoUpdate {
        sha: Some(Some(" abc ".to_string())),
        branch: Some(None),
        origin_url: Some(Some("https://example.com/repo.git\n".to_string())),
    };
    assert_eq!(
        normalize_git_info_update(update),
        Ok(GitInfoUpdate {
            sha: Some(Some("abc".to_string())),
            branch: Some(None),
            origin_url: Some(Some("https://example.com/repo.git".to_string())),
        })
    );
    let err = normalize_git_info_update(GitInfoUpdate {
        sha: Some(Some(" ".to_string())),
        branch: Some(Some("".to_string())),
        origin_url: None,
    })
    .unwrap_err();
    assert_eq!(err.code, INVALID_REQUEST_ERROR_CODE);
    assert_eq!(err.message, "gitInfo.sha must not be empty");
    let err = normalize_git_info_update(GitInfoUpdate {
        sha: None,
        branch: Some(Some("\t".to_string())),
        origin_url: Some(Some("".to_string())),
    })
    .unwrap_err();
    assert_eq!(err.message, "gitInfo.branch must not be empty");
    let err = normalize_git_info_update(GitInfoUpdate { sha: None, branch: None, origin_url: Some(Some("".to_string())) })
        .unwrap_err();
    assert_eq!(err.message, "gitInfo.originUrl must not be empty");
}

use codex_tools::command_exec::{
    apply_env_overrides, plan_command_exec, CommandExecRequest, ExecExpiration, ExecPlan, INVALID_PARAMS_ERROR_CODE,
};

fn exec_request() -> CommandExecRequest {
    CommandExecRequest {
        command: vec!["ls".to_string()],
        tty: false,
        has_size: false,
        output_bytes_cap: None,
        disable_output_cap: false,
        disable_timeout: false,
        timeout_ms: None,
    }
}

#[test]
fn command_exec_plans_defaults_and_overrides() {
    assert_eq!(
        plan_command_exec(&exec_request(), 1024),
        Ok(ExecPlan { output_bytes_cap: Some(1024), expiration: ExecExpiration::DefaultTimeout })
    );
    let mut r = exec_request();
    r.output_bytes_cap = Some(10);
    r.timeout_ms = Some(500);
    assert_eq!(
        plan_command_exec(&r, 1024),
        Ok(ExecPlan { output_bytes_cap: Some(10), expiration: ExecExpiration::Timeout(500) })
    );
    let mut r = exec_request();
    r.disable_output_cap = true;
    r.disable_timeout = true;
    r.tty = true;
    r.has_size = true;
    assert_eq!(
        plan_command_exec(&r, 1024),
        Ok(ExecPlan { output_bytes_cap: None, expiration: ExecExpiration::Cancellation })
    );
}

#[test]
fn command_exec_rejects_conflicting_params() {
    let mut r = exec_request();
    r.command = Vec::new();
    let e = plan_command_exec(&r, 1).unwrap_err();
    assert_eq!((e.code, e.message.as_str()), (INVALID_REQUEST_ERROR_CODE, "command must not be empty"));
    let mut r = exec_request();
    r.has_size = true;
    let e = plan_command_exec(&r, 1).unwrap_err();
    assert_eq!((e.code, e.message.as_str()), (INVALID_PARAMS_ERROR_CODE, "command/exec size requires tty: true"));
    let mut r = exec_request();
    r.disable_output_cap = true;
    r.output_bytes_cap = Some(3);
    assert_eq!(
        plan_command_exec(&r, 1).unwrap_err().message,
        "command/exec cannot set both outputBytesCap and disableOutputCap"
    );
    let mut r = exec_request();
    r.disable_timeout = true;
    r.timeout_ms = Some(3);
    assert_eq!(plan_command_exec(&r, 1).unwrap_err().message, "command/exec cannot set both timeoutMs and disableTimeout");
    let mut r = exec_request();
    r.timeout_ms = Some(-5);
    assert_eq!(plan_command_exec(&r, 1).unwrap_err().message, "command/exec timeoutMs must be non-negative, got -5");
    r.timeout_ms = Some(i64::MIN);
    assert_eq!(
        plan_command_exec(&r, 1).unwrap_err().message,
        "command/exec timeoutMs must be non-negative, got -9223372036854775808"
    );
}

#[test]
fn env_overrides_set_and_remove_names() {
    let mut env = vec![("PATH".to_string(), "/bin".to_string()), ("HOME".to_string(), "/root".to_string())];
    apply_env_overrides(
        &mut env,
        vec![
            ("HOME".to_string(), None),
            ("PATH".to_string(), Some("/usr/bin".to_string())),
            ("LANG".to_string(), Some("C".to_string())),
            ("MISSING".to_string(), None),
            ("LANG".to_string(), Some("C.UTF-8".to_string())),
        ],
    );
    env.sort();
    assert_eq!(
        env,
        vec![("LANG".to_string(), "C.UTF-8".to_string()), ("PATH".to_string(), "/usr/bin".to_string())]
    );
}

use codex_tools::app_server::{list_page_bounds, parse_usize, ListPage};
use codex_tools::threads::{loaded_thread_page, thread_loaded_page};

#[test]
fn parse_usize_reads_like_rust() {
    assert_eq!(parse_usize("0"), Some(0));
    assert_eq!(parse_usize("+7"), Some(7));
    assert_eq!(parse_usize("42"), Some(42));
    assert_eq!(parse_usize(""), None);
    assert_eq!(parse_usize("+"), None);
    assert_eq!(parse_usize("-1"), None);
    assert_eq!(parse_usize(" 1"), None);
    assert_eq!(parse_usize("18446744073709551616"), None);
    assert_eq!(parse_usize("18446744073709551615"), Some(usize::MAX));
}

#[test]
fn list_pages_follow_their_cursors() {
    assert_eq!(list_page_bounds(0, Some("junk"), None, "models"), Ok(ListPage { start: 0, end: 0, next_cursor: None }));
    assert_eq!(list_page_bounds(5, None, Some(2), "models"), Ok(ListPage { start: 0, end: 2, next_cursor: Some("2".to_string()) }));
    assert_eq!(list_page_bounds(5, Some("2"), Some(2), "models"), Ok(ListPage { start: 2, end: 4, next_cursor: Some("4".to_string()) }));
    assert_eq!(list_page_bounds(5, Some("4"), Some(2), "models"), Ok(ListPage { start: 4, end: 5, next_cursor: None }));
    assert_eq!(list_page_bounds(5, None, None, "models"), Ok(ListPage { start: 0, end: 5, next_cursor: None }));
    assert_eq!(list_page_bounds(5, Some("5"), Some(0), "models"), Ok(ListPage { start: 5, end: 5, next_cursor: None }));
    assert_eq!(list_page_bounds(3, None, Some(0), "models"), Ok(ListPage { start: 0, end: 1, next_cursor: Some("1".to_string()) }));
    let e = list_page_bounds(5, Some("abc"), None, "models").unwrap_err();
    assert_eq!((e.code, e.message.as_str()), (INVALID_REQUEST_ERROR_CODE, "invalid cursor: abc"));
    let e = list_page_bounds(5, Some("9"), None, "feature flags").unwrap_err();
    assert_eq!(e.message, "cursor 9 exceeds total feature flags 5");
}

const ID_A: &str = "0194a0e2-0000-7000-8000-00000000000a";
const ID_B: &str = "0194a0e2-0000-7000-8000-00000000000b";
const ID_C: &str = "0194a0e2-0000-7000-8000-00000000000c";

fn ids() -> Vec<String> {
    vec![ID_C.to_string(), ID_A.to_string(), ID_B.to_string()]
}

#[test]
fn loaded_threads_page_in_id_order() {
    assert_eq!(
        thread_loaded_page(ids(), None, Some(2)),
        Ok((vec![ID_A.to_string(), ID_B.to_string()], Some(ID_B.to_string())))
    );
    assert_eq!(thread_loaded_page(ids(), Some(ID_B), Some(2)), Ok((vec![ID_C.to_string()], None)));
    assert_eq!(
        thread_loaded_page(ids(), Some(&ID_A.to_uppercase()), None),
        Ok((vec![ID_B.to_string(), ID_C.to_string()], None))
    );
    assert_eq!(
        thread_loaded_page(ids(), Some("0194a0e2-0000-7000-8000-000000000000"), Some(1)),
        Ok((vec![ID_A.to_string()], Some(ID_A.to_string())))
    );
    let e = thread_loaded_page(ids(), Some("not-a-thread"), None).unwrap_err();
    assert_eq!((e.code, e.message.as_str()), (INVALID_REQUEST_ERROR_CODE, "invalid cursor: not-a-thread"));
    assert_eq!(thread_loaded_page(Vec::new(), Some("not-a-thread"), None), Ok((Vec::new(), None)));
    assert_eq!(
        loaded_thread_page(ids(), Some(("x", Some(ID_C.to_string()))), None),
        Ok((Vec::new(), None))
    );
}

fn progress(accessible_loaded: bool, all_loaded: bool, force_refetch: bool, has_cached_directory: bool) -> AppListProgress {
    AppListProgress { accessible_loaded, all_loaded, force_refetch, has_cached_directory }
}

#[test]
fn app_list_finishes_once_both_lists_arrive() {
    let start = progress(false, false, false, false);
    let (p, action) = app_list_step(start, AppListEvent::DirectoryLoaded);
    assert_eq!(p, progress(false, true, false, false));
    assert_eq!(action, AppListAction::Update { cached_directory: false, with_accessible: true, finish: false });
    let (p, action) = app_list_step(p, AppListEvent::AccessibleLoaded);
    assert_eq!(p, progress(true, true, false, false));
    assert_eq!(action, AppListAction::Update { cached_directory: false, with_accessible: true, finish: true });
}

#[test]
fn app_list_refetch_shows_the_cached_directory_until_both_arrive() {
    let start = progress(false, false, true, true);
    let (p, action) = app_list_step(start, AppListEvent::DirectoryLoaded);
    assert_eq!(action, AppListAction::Update { cached_directory: true, with_accessible: false, finish: false });
    let (_, action) = app_list_step(p, AppListEvent::AccessibleLoaded);
    assert_eq!(action, AppListAction::Update { cached_directory: false, with_accessible: true, finish: true });
    let (_, action) = app_list_step(progress(false, false, true, false), AppListEvent::AccessibleLoaded);
    assert_eq!(action, AppListAction::Update { cached_directory: false, with_accessible: true, finish: false });
}

#[test]
fn app_list_failures_answer_with_internal_errors() {
    let start = progress(false, false, false, false);
    let (p, action) = app_list_step(start, AppListEvent::AccessibleFailed("failed to load accessible apps: boom".to_string()));
    assert_eq!(p, start);
    assert_eq!(
        action,
        AppListAction::Fail(RpcError { code: INTERNAL_ERROR_CODE, message: "failed to load accessible apps: boom".to_string() })
    );
    let (_, action) = app_list_step(start, AppListEvent::DirectoryFailed("failed to list apps: x".to_string()));
    assert_eq!(action, AppListAction::Fail(RpcError { code: -32603, message: "failed to list apps: x".to_string() }));
    let (_, action) = app_list_step(start, AppListEvent::ChannelClosed);
    assert_eq!(action, AppListAction::Fail(RpcError { code: -32603, message: "failed to load app lists".to_string() }));
    let (_, action) = app_list_step(start, AppListEvent::TimedOut);
    assert_eq!(
        action,
        AppListAction::Fail(RpcError {
            code: -32603,
            message: "timed out waiting for app lists after 90 seconds".to_string()
        })
    );
}

#[test]
fn archived_rollout_checks_follow_the_documented_order() {
    let id = "67e55044-10b1-426f-9247-bb680e5fe0c8";
    let name = format!("rollout-2025-01-02T03-04-05-{id}.jsonl");
    assert_eq!(check_archived_rollout("/a/r.jsonl", true, Some(&name), id), Ok(()));
    assert_eq!(
        check_archived_rollout("/tmp/r.jsonl", false, Some(&name), id),
        Err(RpcError { code: INVALID_REQUEST_ERROR_CODE, message: "rollout path `/tmp/r.jsonl` must be in archived directory".to_string() })
    );
    assert_eq!(
        check_archived_rollout("/a", true, None, id),
        Err(RpcError { code: INVALID_REQUEST_ERROR_CODE, message: "rollout path `/a` missing file name".to_string() })
    );
    assert_eq!(
        check_archived_rollout("/a/other.jsonl", true, Some("other.jsonl"), id),
        Err(RpcError {
            code: INVALID_REQUEST_ERROR_CODE,
            message: format!("rollout path `/a/other.jsonl` does not match thread id {id}")
        })
    );
    assert_eq!(
        check_archived_rollout("/a/x", true, Some(&format!("rollout-{id}.json")), id),
        Err(RpcError {
            code: INVALID_REQUEST_ERROR_CODE,
            message: format!("rollout path `/a/x` does not match thread id {id}")
        })
    );
}

#[test]
fn thread_cursors_are_read_in_every_uuid_form() {
    let simple = ID_A.replace('-', "");
    let braced = format!("{{{}}}", ID_A.to_uppercase());
    let urn = format!("URN:uuid:{ID_A}");
    for cursor in [simple.as_str(), braced.as_str(), urn.as_str()] {
        assert_eq!(
            thread_loaded_page(ids(), Some(cursor), None),
            Ok((vec![ID_B.to_string(), ID_C.to_string()], None)),
            "cursor {cursor}"
        );
    }
    for bad in ["0194a0e2-0000-7000-8000-00000000000g", "{0194a0e2-0000-7000-8000-00000000000a", "urn:uuid:0194a0e2"] {
        let e = thread_loaded_page(ids(), Some(bad), None).unwrap_err();
        assert_eq!(e.message, format!("invalid cursor: {bad}"));
    }
}

#[test]
fn read_summary_from_rollout_returns_empty_preview_when_no_user_message() {
    let timestamp = "2025-09-05T16:53:11.850Z".to_string();
    let meta = SessionMeta {
        id: "bfd12a78-5900-467b-9bc5-d3d35df08191".to_string(),
        timestamp: timestamp.clone(),
        cwd: String::new(),
        cli_version: String::new(),
        model_provider: None,
        source: "VSCode".to_string(),
    };
    let summary = codex_tools::threads::summary_from_rollout(
        "rollout.jsonl",
        None,
        &meta,
        None,
        "fallback",
        Some("2025-09-05T16:53:11Z".to_string()),
    );
    let expected = ConversationSummary {
        conversation_id: "bfd12a78-5900-467b-9bc5-d3d35df08191".to_string(),
        timestamp: Some(timestamp.clone()),
        updated_at: Some("2025-09-05T16:53:11Z".to_string()),
        path: "rollout.jsonl".to_string(),
        preview: String::new(),
        model_provider: "fallback".to_string(),
        cwd: String::new(),
        cli_version: String::new(),
        source: "VSCode".to_string(),
        git_info: None,
    };
    assert_eq!(summary, expected);
    let with_message = codex_tools::threads::summary_from_rollout("p", Some("hi"), &meta, None, "fallback", None);
    assert_eq!(with_message.preview, "hi");
    assert_eq!(with_message.updated_at, Some(timestamp));
}

#[test]
fn thread_read_plans_follow_the_lookup_order() {
    let id = "bfd12a78-5900-467b-9bc5-d3d35df08191";
    assert!(!thread_read_needs_lookup(true, false));
    assert!(thread_read_needs_lookup(true, true));
    assert!(thread_read_needs_lookup(false, false));
    assert_eq!(
        plan_thread_read(id, true, false, None, None),
        Ok(ThreadReadPlan { summary: ThreadSummarySource::StateDb, turns: TurnsSource::NoTurns })
    );
    assert_eq!(
        plan_thread_read(id, true, true, Some(RolloutLookup::Found), None),
        Ok(ThreadReadPlan { summary: ThreadSummarySource::StateDb, turns: TurnsSource::LocatedPath })
    );
    assert_eq!(
        plan_thread_read(id, true, true, Some(RolloutLookup::NotFound), None),
        Err(RpcError { code: -32603, message: format!("failed to locate rollout for thread {id}") })
    );
    assert_eq!(
        plan_thread_read(id, false, false, Some(RolloutLookup::Found), None),
        Ok(ThreadReadPlan { summary: ThreadSummarySource::Rollout, turns: TurnsSource::NoTurns })
    );
    assert_eq!(
        plan_thread_read(id, false, false, Some(RolloutLookup::Failed("boom".to_string())), None),
        Err(RpcError { code: INVALID_REQUEST_ERROR_CODE, message: format!("failed to locate thread id {id}: boom") })
    );
    assert_eq!(
        plan_thread_read(id, false, false, Some(RolloutLookup::NotFound), None),
        Err(RpcError { code: INVALID_REQUEST_ERROR_CODE, message: format!("thread not loaded: {id}") })
    );
    assert_eq!(
        plan_thread_read(id, false, true, Some(RolloutLookup::NotFound), Some(false)),
        Err(RpcError {
            code: INVALID_REQUEST_ERROR_CODE,
            message: "ephemeral threads do not support includeTurns".to_string()
        })
    );
    assert_eq!(
        plan_thread_read(id, false, true, Some(RolloutLookup::NotFound), Some(true)),
        Ok(ThreadReadPlan { summary: ThreadSummarySource::LoadedThread, turns: TurnsSource::LoadedPath })
    );
}

#[test]
fn resume_cwd_is_compared_by_path_components() {
    let mut active = active_config();
    active.cwd = "/work/repo".to_string();
    for same in ["/work/repo", "/work/repo/", "/work//repo", "/work/./repo", "/work/repo/."] {
        let mut request = no_overrides();
        request.cwd = Some(same.to_string());
        assert_eq!(collect_resume_override_mismatches(&request, &active), Vec::<String>::new(), "{same}");
    }
    for other in ["/work/other", "work/repo", "/work/repo/..", "/work/Repo"] {
        let mut request = no_overrides();
        request.cwd = Some(other.to_string());
        assert_eq!(
            collect_resume_override_mismatches(&request, &active),
            vec![format!("cwd requested={other} active=/work/repo")],
            "{other}"
        );
    }
}
