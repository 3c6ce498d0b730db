use codex_tools::config::{
    unified_exec_allowed_in_environment, ApplyPatchToolType, ConfigShellToolType, Feature, Features,
    InputModality, ModelInfo, SandboxPolicy, SessionSource, SubAgentSource, ToolsConfig, ToolsConfigParams,
    WebSearchConfig, WebSearchMode, WebSearchToolType, WindowsSandboxLevel,
};
use codex_tools::json::JsonValue;
use codex_tools::mcp::{DynamicToolSpec, McpTool};
use codex_tools::registry::ConfiguredToolSpec;
use codex_tools::schema::{AdditionalProperties, JsonSchema, Properties};
use codex_tools::tool::{
    FreeformTool, FreeformToolFormat, ResponsesApiTool, ToolInfo, ToolSpec, ToolTexts, WebSearchContextSize,
    WebSearchFilters, WebSearchUserLocation,
};
use codex_tools::toolset::{build_specs, build_specs_with_discoverable_tools};

fn plain_function(name: &str, description: &str) -> ToolSpec {
    ToolSpec::Function(ResponsesApiTool {
        name: name.to_string(),
        description: description.to_string(),
        strict: false,
        defer_loading: None,
        parameters: JsonSchema::Object {
            properties: Properties::new(),
            required: None,
            additional_properties: Some(AdditionalProperties::Boolean(false)),
        },
        output_schema: None,
    })
}

fn texts() -> ToolTexts {
    ToolTexts {
        request_user_input_description: "Ask the user a question.".to_string(),
        request_user_input_default_mode_description: "Ask the user a question in any mode.".to_string(),
        request_permissions_description: "Request additional permissions.".to_string(),
        tool_search_template: "Searches app tools ({{app_names}}).".to_string(),
        tool_suggest_template: "Suggest one of these tools:\n{{discoverable_tools}}\nDO NOT explore or recommend tools that are not on this list.".to_string(),
        code_mode_description_template: "Runs JavaScript.\n".to_string(),
        code_mode_wait_description: "Wait on a cell.".to_string(),
        agent_type_description: "The kind of agent to spawn.".to_string(),
        plan_tool: plain_function("update_plan", "Updates the plan."),
        apply_patch_freeform_tool: ToolSpec::Freeform(FreeformTool {
            name: "apply_patch".to_string(),
            description: "Apply a patch.".to_string(),
            format: FreeformToolFormat {
                format_type: "grammar".to_string(),
                syntax: "lark".to_string(),
                definition: "start: patch".to_string(),
            },
        }),
        apply_patch_json_tool: plain_function("apply_patch", "Apply a patch."),
        default_wait_timeout_ms: 30_000,
        min_wait_timeout_ms: 10_000,
        max_wait_timeout_ms: 3_600_000,
        tool_search_default_limit: 8,
    }
}

fn model_info(slug: &str) -> ModelInfo {
    let codex_style = slug != "gpt-5" && slug != "o3";
    ModelInfo {
        slug: slug.to_string(),
        shell_type: if codex_style { ConfigShellToolType::ShellCommand } else { ConfigShellToolType::Default },
        apply_patch_tool_type: if codex_style { Some(ApplyPatchToolType::Freeform) } else { None },
        web_search_tool_type: WebSearchToolType::Text,
        input_modalities: vec![InputModality::Text, InputModality::Image],
        experimental_supported_tools: Vec::new(),
        supports_image_detail_original: false,
    }
}

fn tools_config_with(
    model_info: &ModelInfo,
    features: &Features,
    web_search_mode: Option<WebSearchMode>,
    session_source: &SessionSource,
    sandbox_policy: &SandboxPolicy,
    windows_sandbox_level: WindowsSandboxLevel,
    windows_host: bool,
) -> ToolsConfig {
    let available_models = Vec::new();
    ToolsConfig::new(&ToolsConfigParams {
        model_info,
        available_models: &available_models,
        features,
        web_search_mode,
        session_source,
        sandbox_policy,
        windows_sandbox_level,
        windows_host,
        conpty_supported: true,
        artifact_runtime_available: true,
    })
}

fn tools_config(model_info: &ModelInfo, features: &Features, web_search_mode: Option<WebSearchMode>) -> ToolsConfig {
    tools_config_with(
        model_info,
        features,
        web_search_mode,
        &SessionSource::Cli,
        &SandboxPolicy::DangerFullAccess,
        WindowsSandboxLevel::Disabled,
        false,
    )
}

fn build(config: &ToolsConfig, mcp_tools: Option<Vec<(String, McpTool)>>, app_tools: Option<Vec<(String, ToolInfo)>>) -> Vec<ConfiguredToolSpec> {
    let (tools, _) = build_specs(config, &mcp_tools, &app_tools, &Vec::new(), &texts()).build();
    tools
}

fn tool_name(tool: &ToolSpec) -> String {
    tool.name().to_string()
}

fn assert_contains_tool_names(tools: &[ConfiguredToolSpec], expected_subset: &[&str]) {
    let mut names: Vec<String> = Vec::new();
    let mut duplicates = Vec::new();
    for t in tools {
        let name = tool_name(&t.spec);
        if names.contains(&name) {
            duplicates.push(name.clone());
        }
        names.push(name);
    }
    assert!(duplicates.is_empty(), "duplicate tool entries detected: {duplicates:?}");
    for expected in expected_subset {
        assert!(names.iter().any(|n| n == expected), "expected tool {expected} to be present; had: {names:?}");
    }
}

fn assert_lacks_tool_name(tools: &[ConfiguredToolSpec], expected_absent: &str) {
    let names: Vec<String> = tools.iter().map(|t| tool_name(&t.spec)).collect();
    assert!(!names.iter().any(|n| n == expected_absent), "expected tool {expected_absent} to be absent; had: {names:?}");
}

fn find_tool<'a>(tools: &'a [ConfiguredToolSpec], expected_name: &str) -> &'a ConfiguredToolSpec {
    tools
        .iter()
        .find(|tool| tool_name(&tool.spec) == expected_name)
        .unwrap_or_else(|| panic!("expected tool {expected_name}"))
}

fn assert_model_tools(model_slug: &str, features: &Features, web_search_mode: Option<WebSearchMode>, expected_tools: &[&str]) {
    let model_info = model_info(model_slug);
    let config = tools_config(&model_info, features, web_search_mode);
    let tools = build(&config, None, None);
    let tool_names: Vec<String> = tools.iter().map(|t| t.spec.name().to_string()).collect();
    let expected: Vec<String> = expected_tools.iter().map(|s| s.to_string()).collect();
    assert_eq!(tool_names, expected);
}

fn assert_default_model_tools(
    model_slug: &str,
    features: &Features,
    web_search_mode: Option<WebSearchMode>,
    shell_tool: &'static str,
    expected_tail: &[&str],
) {
    let mut expected = if features.enabled(Feature::UnifiedExec) {
        vec!["exec_command", "write_stdin"]
    } else {
        vec![shell_tool]
    };
    expected.extend(expected_tail);
    assert_model_tools(model_slug, features, web_search_mode, &expected);
}

/// A JSON value built from JSON text.
fn json(text: &str) -> JsonValue {
    from_serde(&serde_json::from_str(text).expect("valid JSON"))
}

fn from_serde(v: &serde_json::Value) -> JsonValue {
    match v {
        serde_json::Value::Null => JsonValue::Null,
        serde_json::Value::Bool(b) => JsonValue::Bool(*b),
        serde_json::Value::Number(n) => JsonValue::Number(n.to_string()),
        serde_json::Value::String(s) => JsonValue::Str(s.clone()),
        serde_json::Value::Array(a) => JsonValue::Array(a.iter().map(from_serde).collect()),
        serde_json::Value::Object(m) => JsonValue::Object(m.iter().map(|(k, v)| (k.clone(), from_serde(v))).collect()),
    }
}

fn to_serde(v: &JsonValue) -> serde_json::Value {
    match v {
        JsonValue::Null => serde_json::Value::Null,
        JsonValue::Bool(b) => serde_json::Value::Bool(*b),
        JsonValue::Number(n) => serde_json::from_str(n).expect("number text"),
        JsonValue::Str(s) => serde_json::Value::String(s.clone()),
        JsonValue::Array(a) => serde_json::Value::Array(a.iter().map(to_serde).collect()),
        JsonValue::Object(m) => {
            let mut map = serde_json::Map::new();
            for (k, v) in m {
                map.insert(k.clone(), to_serde(v));
            }
            serde_json::Value::Object(map)
        },
    }
}

fn members(v: JsonValue) -> Vec<(String, JsonValue)> {
    match v {
        JsonValue::Object(m) => m,
        other => panic!("expected an object, got {other:?}"),
    }
}

fn mcp_tool(name: &str, description: &str, input_schema: &str) -> McpTool {
    McpTool {
        name: name.to_string(),
        description: Some(description.to_string()),
        input_schema: members(json(input_schema)),
        output_schema: None,
    }
}

#[test]
fn test_build_specs_gpt5_codex_default() {
    let features = Features::with_defaults();
    assert_default_model_tools(
        "gpt-5-codex",
        &features,
        Some(WebSearchMode::Cached),
        "shell_command",
        &["update_plan", "request_user_input", "apply_patch", "web_search", "view_image"],
    );
}

#[test]
fn test_build_specs_gpt51_codex_default() {
    let features = Features::with_defaults();
    assert_default_model_tools(
        "gpt-5.1-codex",
        &features,
        Some(WebSearchMode::Cached),
        "shell_command",
        &["update_plan", "request_user_input", "apply_patch", "web_search", "view_image"],
    );
}

#[test]
fn test_build_specs_gpt5_codex_unified_exec_web_search() {
    let mut features = Features::with_defaults();
    features.enable(Feature::UnifiedExec);
    assert_model_tools(
        "gpt-5-codex",
        &features,
        Some(WebSearchMode::Live),
        &["exec_command", "write_stdin", "update_plan", "request_user_input", "apply_patch", "web_search", "view_image"],
    );
}

#[test]
fn test_build_specs_gpt51_codex_unified_exec_web_search() {
    let mut features = Features::with_defaults();
    features.enable(Feature::UnifiedExec);
    assert_model_tools(
        "gpt-5.1-codex",
        &features,
        Some(WebSearchMode::Live),
        &["exec_command", "write_stdin", "update_plan", "request_user_input", "apply_patch", "web_search", "view_image"],
    );
}

#[test]
fn test_gpt_5_1_codex_max_defaults() {
    let features = Features::with_defaults();
    assert_default_model_tools(
        "gpt-5.1-codex-max",
        &features,
        Some(WebSearchMode::Cached),
        "shell_command",
        &["update_plan", "request_user_input", "apply_patch", "web_search", "view_image"],
    );
}

#[test]
fn test_codex_5_1_mini_defaults() {
    let features = Features::with_defaults();
    assert_default_model_tools(
        "gpt-5.1-codex-mini",
        &features,
        Some(WebSearchMode::Cached),
        "shell_command",
        &["update_plan", "request_user_input", "apply_patch", "web_search", "view_image"],
    );
}

#[test]
fn test_gpt_5_defaults() {
    let features = Features::with_defaults();
    assert_default_model_tools(
        "gpt-5",
        &features,
        Some(WebSearchMode::Cached),
        "shell",
        &["update_plan", "request_user_input", "web_search", "view_image"],
    );
}

#[test]
fn test_gpt_5_1_defaults() {
    let features = Features::with_defaults();
    assert_default_model_tools(
        "gpt-5.1",
        &features,
        Some(WebSearchMode::Cached),
        "shell_command",
        &["update_plan", "request_user_input", "apply_patch", "web_search", "view_image"],
    );
}

#[test]
fn test_gpt_5_1_codex_max_unified_exec_web_search() {
    let mut features = Features::with_defaults();
    features.enable(Feature::UnifiedExec);
    assert_model_tools(
        "gpt-5.1-codex-max",
        &features,
        Some(WebSearchMode::Live),
        &["exec_command", "write_stdin", "update_plan", "request_user_input", "apply_patch", "web_search", "view_image"],
    );
}

#[test]
fn shell_tool_with_request_permission_includes_additional_permissions() {
    let tool = codex_tools::builtin::create_shell_tool(true, false);
    let ToolSpec::Function(ResponsesApiTool { parameters, .. }) = tool else {
        panic!("expected function tool");
    };
    let JsonSchema::Object { properties, .. } = parameters else {
        panic!("expected object parameters");
    };

    assert!(properties.contains_key("additional_permissions"));

    let Some(JsonSchema::String { description: Some(description) }) = properties.get("sandbox_permissions") else {
        panic!("expected sandbox_permissions description");
    };
    assert!(description.contains("with_additional_permissions"));
    assert!(description.contains("macOS permissions"));

    let Some(JsonSchema::Object { properties: additional_properties, .. }) = properties.get("additional_permissions") else {
        panic!("expected additional_permissions schema");
    };
    assert!(additional_properties.contains_key("network"));
    assert!(additional_properties.contains_key("file_system"));
    assert!(additional_properties.contains_key("macos"));
}

#[test]
fn unified_exec_is_blocked_for_windows_sandboxed_policies_only() {
    assert!(!unified_exec_allowed_in_environment(
        true,
        &SandboxPolicy::new_read_only_policy(),
        WindowsSandboxLevel::RestrictedToken,
    ));
    assert!(!unified_exec_allowed_in_environment(
        true,
        &SandboxPolicy::new_workspace_write_policy(),
        WindowsSandboxLevel::RestrictedToken,
    ));
    assert!(unified_exec_allowed_in_environment(true, &SandboxPolicy::DangerFullAccess, WindowsSandboxLevel::RestrictedToken));
    assert!(unified_exec_allowed_in_environment(true, &SandboxPolicy::DangerFullAccess, WindowsSandboxLevel::Disabled));
}

#[test]
fn model_provided_unified_exec_is_blocked_for_windows_sandboxed_policies() {
    let mut model_info = model_info("gpt-5-codex");
    model_info.shell_type = ConfigShellToolType::UnifiedExec;
    let features = Features::with_defaults();
    for windows_host in [false, true] {
        let config = tools_config_with(
            &model_info,
            &features,
            Some(WebSearchMode::Cached),
            &SessionSource::Cli,
            &SandboxPolicy::new_workspace_write_policy(),
            WindowsSandboxLevel::RestrictedToken,
            windows_host,
        );
        let expected_shell_type = if windows_host {
            ConfigShellToolType::ShellCommand
        } else {
            ConfigShellToolType::UnifiedExec
        };
        assert_eq!(config.shell_type, expected_shell_type);
    }
}

#[test]
fn test_build_specs_collab_tools_enabled() {
    let model_info = model_info("gpt-5-codex");
    let mut features = Features::with_defaults();
    features.enable(Feature::Collab);
    let config = tools_config(&model_info, &features, Some(WebSearchMode::Cached));
    let tools = build(&config, None, None);
    assert_contains_tool_names(&tools, &["spawn_agent", "send_input", "wait", "close_agent"]);
    assert_lacks_tool_name(&tools, "spawn_agents_on_csv");
}

#[test]
fn test_build_specs_enable_fanout_enables_agent_jobs_and_collab_tools() {
    let model_info = model_info("gpt-5-codex");
    let mut features = Features::with_defaults();
    features.enable(Feature::SpawnCsv);
    features.normalize_dependencies();
    let config = tools_config(&model_info, &features, Some(WebSearchMode::Cached));
    let tools = build(&config, None, None);
    assert_contains_tool_names(&tools, &["spawn_agent", "send_input", "wait", "close_agent", "spawn_agents_on_csv"]);
}

#[test]
fn view_image_tool_omits_detail_without_original_detail_feature() {
    let mut model_info = model_info("gpt-5-codex");
    model_info.supports_image_detail_original = true;
    let features = Features::with_defaults();
    let config = tools_config(&model_info, &features, Some(WebSearchMode::Cached));
    let tools = build(&config, None, None);
    let view_image = find_tool(&tools, "view_image");
    let ToolSpec::Function(ResponsesApiTool { parameters, .. }) = &view_image.spec else {
        panic!("view_image should be a function tool");
    };
    let JsonSchema::Object { properties, .. } = parameters else {
        panic!("view_image should use an object schema");
    };
    assert!(!properties.contains_key("detail"));
}

#[test]
fn view_image_tool_includes_detail_with_original_detail_feature() {
    let mut model_info = model_info("gpt-5-codex");
    model_info.supports_image_detail_original = true;
    let mut features = Features::with_defaults();
    features.enable(Feature::ImageDetailOriginal);
    let config = tools_config(&model_info, &features, Some(WebSearchMode::Cached));
    let tools = build(&config, None, None);
    let view_image = find_tool(&tools, "view_image");
    let ToolSpec::Function(ResponsesApiTool { parameters, .. }) = &view_image.spec else {
        panic!("view_image should be a function tool");
    };
    let JsonSchema::Object { properties, .. } = parameters else {
        panic!("view_image should use an object schema");
    };
    assert!(properties.contains_key("detail"));
    let Some(JsonSchema::String { description: Some(description) }) = properties.get("detail") else {
        panic!("view_image detail should include a description");
    };
    assert!(description.contains("only supported value is `original`"));
    assert!(description.contains("omit this field for default resized behavior"));
}

#[test]
fn test_build_specs_artifact_tool_enabled() {
    let model_info = model_info("gpt-5-codex");
    let mut features = Features::with_defaults();
    features.enable(Feature::Artifact);
    let config = tools_config(&model_info, &features, Some(WebSearchMode::Cached));
    let tools = build(&config, None, None);
    assert_contains_tool_names(&tools, &["artifacts"]);
}

#[test]
fn test_build_specs_agent_job_worker_tools_enabled() {
    let model_info = model_info("gpt-5-codex");
    let mut features = Features::with_defaults();
    features.enable(Feature::SpawnCsv);
    features.normalize_dependencies();
    features.enable(Feature::Sqlite);
    let config = tools_config_with(
        &model_info,
        &features,
        Some(WebSearchMode::Cached),
        &SessionSource::SubAgent(SubAgentSource::Other("agent_job:test".to_string())),
        &SandboxPolicy::DangerFullAccess,
        WindowsSandboxLevel::Disabled,
        false,
    );
    let tools = build(&config, None, None);
    assert_contains_tool_names(
        &tools,
        &["spawn_agent", "send_input", "resume_agent", "wait", "close_agent", "spawn_agents_on_csv", "report_agent_job_result"],
    );
    assert_lacks_tool_name(&tools, "request_user_input");
}

fn props(entries: Vec<(&str, JsonSchema)>) -> Properties {
    let mut p = Properties::new();
    for (k, v) in entries {
        p.insert(k.to_string(), v);
    }
    p
}

fn mcp_output_schema(structured: &str) -> Option<JsonValue> {
    Some(codex_tools::mcp::mcp_call_tool_result_output_schema(json(structured)))
}

#[test]
fn request_user_input_description_reflects_default_mode_feature_flag() {
    let model_info = model_info("gpt-5-codex");
    let mut features = Features::with_defaults();
    let config = tools_config(&model_info, &features, Some(WebSearchMode::Cached));
    let tools = build(&config, None, None);
    let request_user_input_tool = find_tool(&tools, "request_user_input");
    assert_eq!(
        request_user_input_tool.spec,
        codex_tools::agent_tools::create_request_user_input_tool(&texts().request_user_input_description)
    );

    features.enable(Feature::DefaultModeRequestUserInput);
    let config = tools_config(&model_info, &features, Some(WebSearchMode::Cached));
    let tools = build(&config, None, None);
    let request_user_input_tool = find_tool(&tools, "request_user_input");
    assert_eq!(
        request_user_input_tool.spec,
        codex_tools::agent_tools::create_request_user_input_tool(&texts().request_user_input_default_mode_description)
    );
}

#[test]
fn request_permissions_requires_feature_flag() {
    let model_info = model_info("gpt-5-codex");
    let features = Features::with_defaults();
    let config = tools_config(&model_info, &features, Some(WebSearchMode::Cached));
    let tools = build(&config, None, None);
    assert_lacks_tool_name(&tools, "request_permissions");

    let mut features = Features::with_defaults();
    features.enable(Feature::RequestPermissionsTool);
    let config = tools_config(&model_info, &features, Some(WebSearchMode::Cached));
    let tools = build(&config, None, None);
    let request_permissions_tool = find_tool(&tools, "request_permissions");
    assert_eq!(
        request_permissions_tool.spec,
        codex_tools::agent_tools::create_request_permissions_tool(&texts().request_permissions_description)
    );
}

#[test]
fn request_permissions_tool_is_independent_from_additional_permissions() {
    let model_info = model_info("gpt-5-codex");
    let mut features = Features::with_defaults();
    features.enable(Feature::RequestPermissions);
    let config = tools_config(&model_info, &features, Some(WebSearchMode::Cached));
    let tools = build(&config, None, None);
    assert_lacks_tool_name(&tools, "request_permissions");
}

#[test]
fn get_memory_requires_feature_flag() {
    let model_info = model_info("gpt-5-codex");
    let mut features = Features::with_defaults();
    features.disable(Feature::MemoryTool);
    let config = tools_config(&model_info, &features, Some(WebSearchMode::Cached));
    let tools = build(&config, None, None);
    assert!(
        !tools.iter().any(|t| t.spec.name() == "get_memory"),
        "get_memory should be disabled when memory_tool feature is off"
    );
}

#[test]
fn js_repl_requires_feature_flag() {
    let model_info = model_info("gpt-5-codex");
    let features = Features::with_defaults();
    let config = tools_config(&model_info, &features, Some(WebSearchMode::Cached));
    let tools = build(&config, None, None);
    assert!(!tools.iter().any(|tool| tool.spec.name() == "js_repl"), "js_repl should be disabled when the feature is off");
    assert!(
        !tools.iter().any(|tool| tool.spec.name() == "js_repl_reset"),
        "js_repl_reset should be disabled when the feature is off"
    );
}

#[test]
fn js_repl_enabled_adds_tools() {
    let model_info = model_info("gpt-5-codex");
    let mut features = Features::with_defaults();
    features.enable(Feature::JsRepl);
    let config = tools_config(&model_info, &features, Some(WebSearchMode::Cached));
    let tools = build(&config, None, None);
    assert_contains_tool_names(&tools, &["js_repl", "js_repl_reset"]);
}

#[test]
fn image_generation_tools_require_feature_and_supported_model() {
    let mut supported_model_info = model_info("gpt-5.2");
    supported_model_info.slug = "custom/gpt-5.2-variant".to_string();
    let mut unsupported_model_info = model_info("gpt-5.2");
    unsupported_model_info.slug = "custom/gpt-5.2-variant".to_string();
    unsupported_model_info.input_modalities = vec![InputModality::Text];
    let default_features = Features::with_defaults();
    let mut image_generation_features = Features::with_defaults();
    image_generation_features.enable(Feature::ImageGeneration);

    let default_tools_config = tools_config(&supported_model_info, &default_features, Some(WebSearchMode::Cached));
    let default_tools = build(&default_tools_config, None, None);
    assert!(
        !default_tools.iter().any(|tool| tool.spec.name() == "image_generation"),
        "image_generation should be disabled by default"
    );

    let supported_tools_config = tools_config(&supported_model_info, &image_generation_features, Some(WebSearchMode::Cached));
    let supported_tools = build(&supported_tools_config, None, None);
    assert_contains_tool_names(&supported_tools, &["image_generation"]);
    let image_generation_tool = find_tool(&supported_tools, "image_generation");
    assert_eq!(
        to_serde(&codex_tools::tool_json::tool_spec_to_json(&image_generation_tool.spec)),
        to_serde(&json(r#"{"type": "image_generation", "output_format": "png"}"#))
    );

    let tools_config = tools_config(&unsupported_model_info, &image_generation_features, Some(WebSearchMode::Cached));
    let tools = build(&tools_config, None, None);
    assert!(
        !tools.iter().any(|tool| tool.spec.name() == "image_generation"),
        "image_generation should be disabled for unsupported models"
    );
}

#[test]
fn js_repl_freeform_grammar_blocks_common_non_js_prefixes() {
    let ToolSpec::Freeform(FreeformTool { format, .. }) = codex_tools::misc_tools::create_js_repl_tool() else {
        panic!("js_repl should use a freeform tool spec");
    };

    assert_eq!(format.syntax, "lark");
    assert!(format.definition.contains("PRAGMA_LINE"));
    assert!(format.definition.contains("`[^`]"));
    assert!(format.definition.contains("``[^`]"));
    assert!(format.definition.contains("PLAIN_JS_SOURCE"));
    assert!(format.definition.contains("codex-js-repl:"));
    assert!(!format.definition.contains("(?!"));
}

#[test]
fn web_search_mode_cached_sets_external_web_access_false() {
    let model_info = model_info("gpt-5-codex");
    let features = Features::with_defaults();
    let config = tools_config(&model_info, &features, Some(WebSearchMode::Cached));
    let tools = build(&config, None, None);
    let tool = find_tool(&tools, "web_search");
    assert_eq!(
        tool.spec,
        ToolSpec::WebSearch {
            external_web_access: Some(false),
            filters: None,
            user_location: None,
            search_context_size: None,
            search_content_types: None,
        }
    );
}

#[test]
fn web_search_mode_live_sets_external_web_access_true() {
    let model_info = model_info("gpt-5-codex");
    let features = Features::with_defaults();
    let config = tools_config(&model_info, &features, Some(WebSearchMode::Live));
    let tools = build(&config, None, None);
    let tool = find_tool(&tools, "web_search");
    assert_eq!(
        tool.spec,
        ToolSpec::WebSearch {
            external_web_access: Some(true),
            filters: None,
            user_location: None,
            search_context_size: None,
            search_content_types: None,
        }
    );
}

#[test]
fn web_search_config_is_forwarded_to_tool_spec() {
    let model_info = model_info("gpt-5-codex");
    let features = Features::with_defaults();
    let web_search_config = WebSearchConfig {
        filters: Some(WebSearchFilters { allowed_domains: Some(vec!["example.com".to_string()]) }),
        user_location: Some(WebSearchUserLocation {
            country: Some("US".to_string()),
            region: Some("California".to_string()),
            city: Some("San Francisco".to_string()),
            timezone: Some("America/Los_Angeles".to_string()),
        }),
        search_context_size: Some(WebSearchContextSize::High),
    };
    let config = tools_config(&model_info, &features, Some(WebSearchMode::Live)).with_web_search_config(Some(web_search_config));
    let tools = build(&config, None, None);
    let tool = find_tool(&tools, "web_search");
    assert_eq!(
        tool.spec,
        ToolSpec::WebSearch {
            external_web_access: Some(true),
            filters: Some(WebSearchFilters { allowed_domains: Some(vec!["example.com".to_string()]) }),
            user_location: Some(WebSearchUserLocation {
                country: Some("US".to_string()),
                region: Some("California".to_string()),
                city: Some("San Francisco".to_string()),
                timezone: Some("America/Los_Angeles".to_string()),
            }),
            search_context_size: Some(WebSearchContextSize::High),
            search_content_types: None,
        }
    );
}

#[test]
fn web_search_tool_type_text_and_image_sets_search_content_types() {
    let mut model_info = model_info("gpt-5-codex");
    model_info.web_search_tool_type = WebSearchToolType::TextAndImage;
    let features = Features::with_defaults();
    let config = tools_config(&model_info, &features, Some(WebSearchMode::Live));
    let tools = build(&config, None, None);
    let tool = find_tool(&tools, "web_search");
    assert_eq!(
        tool.spec,
        ToolSpec::WebSearch {
            external_web_access: Some(true),
            filters: None,
            user_location: None,
            search_context_size: None,
            search_content_types: Some(vec!["text".to_string(), "image".to_string()]),
        }
    );
}

#[test]
fn mcp_resource_tools_are_hidden_without_mcp_servers() {
    let model_info = model_info("gpt-5-codex");
    let features = Features::with_defaults();
    let config = tools_config(&model_info, &features, Some(WebSearchMode::Cached));
    let tools = build(&config, None, None);
    assert!(
        !tools.iter().any(|tool| matches!(
            tool.spec.name(),
            "list_mcp_resources" | "list_mcp_resource_templates" | "read_mcp_resource"
        )),
        "MCP resource tools should be omitted when no MCP servers are configured"
    );
}

#[test]
fn mcp_resource_tools_are_included_when_mcp_servers_are_present() {
    let model_info = model_info("gpt-5-codex");
    let features = Features::with_defaults();
    let config = tools_config(&model_info, &features, Some(WebSearchMode::Cached));
    let tools = build(&config, Some(Vec::new()), None);
    assert_contains_tool_names(&tools, &["list_mcp_resources", "list_mcp_resource_templates", "read_mcp_resource"]);
}

#[test]
fn test_build_specs_default_shell_present() {
    let model_info = model_info("o3");
    let mut features = Features::with_defaults();
    features.enable(Feature::UnifiedExec);
    let config = tools_config(&model_info, &features, Some(WebSearchMode::Live));
    let tools = build(&config, Some(Vec::new()), None);
    let mut subset = vec!["exec_command", "write_stdin", "update_plan"];
    let shell_tool = match config.shell_type {
        ConfigShellToolType::Default => Some("shell"),
        ConfigShellToolType::Local => Some("local_shell"),
        ConfigShellToolType::UnifiedExec => None,
        ConfigShellToolType::Disabled => None,
        ConfigShellToolType::ShellCommand => Some("shell_command"),
    };
    if let Some(shell_tool) = shell_tool {
        subset.push(shell_tool);
    }
    assert_contains_tool_names(&tools, &subset);
}

#[test]
fn shell_zsh_fork_prefers_shell_command_over_unified_exec() {
    let model_info = model_info("o3");
    let mut features = Features::with_defaults();
    features.enable(Feature::UnifiedExec);
    features.enable(Feature::ShellZshFork);
    let config = tools_config(&model_info, &features, Some(WebSearchMode::Live));
    assert_eq!(config.shell_type, ConfigShellToolType::ShellCommand);
    assert_eq!(config.shell_command_backend, codex_tools::config::ShellCommandBackendConfig::ZshFork);
    assert_eq!(config.unified_exec_backend, codex_tools::config::UnifiedExecBackendConfig::ZshFork);
}

#[test]
fn test_test_model_info_includes_sync_tool() {
    let mut model_info = model_info("gpt-5-codex");
    model_info.experimental_supported_tools =
        vec!["test_sync_tool".to_string(), "read_file".to_string(), "grep_files".to_string(), "list_dir".to_string()];
    let features = Features::with_defaults();
    let config = tools_config(&model_info, &features, Some(WebSearchMode::Cached));
    let tools = build(&config, None, None);
    assert!(tools.iter().any(|tool| tool_name(&tool.spec) == "test_sync_tool"));
    assert!(tools.iter().any(|tool| tool_name(&tool.spec) == "read_file"));
    assert!(tools.iter().any(|tool| tool_name(&tool.spec) == "grep_files"));
    assert!(tools.iter().any(|tool| tool_name(&tool.spec) == "list_dir"));
}

#[test]
fn test_build_specs_mcp_tools_converted() {
    let model_info = model_info("o3");
    let mut features = Features::with_defaults();
    features.enable(Feature::UnifiedExec);
    let config = tools_config(&model_info, &features, Some(WebSearchMode::Live));
    let tools = build(
        &config,
        Some(vec![(
            "test_server/do_something_cool".to_string(),
            mcp_tool(
                "do_something_cool",
                "Do something cool",
                r#"{
                    "type": "object",
                    "properties": {
                        "string_argument": { "type": "string" },
                        "number_argument": { "type": "number" },
                        "object_argument": {
                            "type": "object",
                            "properties": {
                                "string_property": { "type": "string" },
                                "number_property": { "type": "number" }
                            },
                            "required": ["string_property", "number_property"],
                            "additionalProperties": false
                        }
                    }
                }"#,
            ),
        )]),
        None,
    );

    let tool = find_tool(&tools, "test_server/do_something_cool");
    assert_eq!(
        &tool.spec,
        &ToolSpec::Function(ResponsesApiTool {
            name: "test_server/do_something_cool".to_string(),
            parameters: JsonSchema::Object {
                properties: props(vec![
                    ("string_argument", JsonSchema::String { description: None }),
                    ("number_argument", JsonSchema::Number { description: None }),
                    (
                        "object_argument",
                        JsonSchema::Object {
                            properties: props(vec![
                                ("string_property", JsonSchema::String { description: None }),
                                ("number_property", JsonSchema::Number { description: None }),
                            ]),
                            required: Some(vec!["string_property".to_string(), "number_property".to_string()]),
                            additional_properties: Some(false.into()),
                        },
                    ),
                ]),
                required: None,
                additional_properties: None,
            },
            description: "Do something cool".to_string(),
            strict: false,
            output_schema: mcp_output_schema("{}"),
            defer_loading: None,
        })
    );
}

#[test]
fn test_build_specs_mcp_tools_sorted_by_name() {
    let model_info = model_info("o3");
    let mut features = Features::with_defaults();
    features.enable(Feature::UnifiedExec);
    let config = tools_config(&model_info, &features, Some(WebSearchMode::Cached));
    let tools_map = vec![
        ("test_server/do".to_string(), mcp_tool("a", "a", r#"{"type": "object"}"#)),
        ("test_server/something".to_string(), mcp_tool("b", "b", r#"{"type": "object"}"#)),
        ("test_server/cool".to_string(), mcp_tool("c", "c", r#"{"type": "object"}"#)),
    ];
    let tools = build(&config, Some(tools_map), None);
    let mcp_names: Vec<_> = tools.iter().map(|t| tool_name(&t.spec)).filter(|n| n.starts_with("test_server/")).collect();
    let expected = vec!["test_server/cool".to_string(), "test_server/do".to_string(), "test_server/something".to_string()];
    assert_eq!(mcp_names, expected);
}

fn app_tool_info(server_name: &str, tool_name: &str, tool_namespace: &str, connector: Option<(&str, &str)>) -> ToolInfo {
    ToolInfo {
        server_name: server_name.to_string(),
        tool_name: tool_name.to_string(),
        tool_namespace: tool_namespace.to_string(),
        connector_id: connector.map(|(id, _)| id.to_string()),
        connector_name: connector.map(|(_, name)| name.to_string()),
        connector_description: None,
    }
}

fn discoverable_connector(id: &str, name: &str, description: &str) -> codex_tools::discoverable::DiscoverableTool {
    let slug = name.replace(' ', "-").to_lowercase();
    codex_tools::discoverable::DiscoverableTool::Connector(codex_tools::discoverable::AppInfo {
        id: id.to_string(),
        name: name.to_string(),
        description: Some(description.to_string()),
        install_url: Some(format!("https://chatgpt.com/apps/{slug}/{id}")),
        is_accessible: false,
        is_enabled: true,
    })
}

#[test]
fn search_tool_description_includes_only_codex_apps_connector_names() {
    let model_info = model_info("gpt-5-codex");
    let mut features = Features::with_defaults();
    features.enable(Feature::Apps);
    let config = tools_config(&model_info, &features, Some(WebSearchMode::Cached));
    let tools = build(
        &config,
        Some(vec![
            (
                "mcp__codex_apps__calendar_create_event".to_string(),
                mcp_tool("calendar_create_event", "Create calendar event", r#"{"type": "object"}"#),
            ),
            ("mcp__rmcp__echo".to_string(), mcp_tool("echo", "Echo", r#"{"type": "object"}"#)),
        ]),
        Some(vec![
            (
                "mcp__codex_apps__calendar-create-event".to_string(),
                app_tool_info("codex_apps", "-create-event", "mcp__codex_apps__calendar", Some(("calendar", "Calendar"))),
            ),
            ("mcp__rmcp__echo".to_string(), app_tool_info("rmcp", "echo", "rmcp", None)),
        ]),
    );
    let search_tool = find_tool(&tools, "tool_search");
    let ToolSpec::ToolSearch { description, .. } = &search_tool.spec else {
        panic!("expected tool_search tool");
    };
    assert!(description.contains("Calendar"));
    assert!(!description.contains("mcp__rmcp__echo"));
}

#[test]
fn search_tool_requires_apps_feature_flag_only() {
    let model_info = model_info("gpt-5-codex");
    let app_tools = || {
        Some(vec![(
            "mcp__codex_apps__calendar_create_event".to_string(),
            app_tool_info("codex_apps", "calendar_create_event", "mcp__codex_apps__calendar", Some(("calendar", "Calendar"))),
        )])
    };
    let features = Features::with_defaults();
    let config = tools_config(&model_info, &features, Some(WebSearchMode::Cached));
    let tools = build(&config, None, app_tools());
    assert_lacks_tool_name(&tools, "tool_search");
    let mut features = Features::with_defaults();
    features.enable(Feature::Apps);
    let config = tools_config(&model_info, &features, Some(WebSearchMode::Cached));
    let tools = build(&config, None, app_tools());
    assert_contains_tool_names(&tools, &["tool_search"]);
}

#[test]
fn tool_suggest_is_not_registered_without_feature_flag() {
    let model_info = model_info("gpt-5-codex");
    let mut features = Features::with_defaults();
    features.enable(Feature::Apps);
    let config = tools_config(&model_info, &features, Some(WebSearchMode::Cached));
    let (tools, _) = build_specs_with_discoverable_tools(
        &config,
        &None,
        &None,
        &Some(vec![discoverable_connector(
            "connector_2128aebfecb84f64a069897515042a44",
            "Google Calendar",
            "Plan events and schedules.",
        )]),
        &Vec::new(),
        &texts(),
    )
    .build();
    assert!(!tools.iter().any(|tool| tool_name(&tool.spec) == "tool_suggest"));
}

#[test]
fn search_tool_description_handles_no_enabled_apps() {
    let model_info = model_info("gpt-5-codex");
    let mut features = Features::with_defaults();
    features.enable(Feature::Apps);
    let config = tools_config(&model_info, &features, Some(WebSearchMode::Cached));
    let tools = build(&config, None, Some(Vec::new()));
    let search_tool = find_tool(&tools, "tool_search");
    let ToolSpec::ToolSearch { description, .. } = &search_tool.spec else {
        panic!("expected tool_search tool");
    };
    assert!(description.contains("(None currently enabled)"));
    assert!(!description.contains("{{app_names}}"));
}

#[test]
fn search_tool_registers_namespaced_app_tool_aliases() {
    let model_info = model_info("gpt-5-codex");
    let mut features = Features::with_defaults();
    features.enable(Feature::Apps);
    let config = tools_config(&model_info, &features, Some(WebSearchMode::Cached));
    let app_tools = Some(vec![
        (
            "mcp__codex_apps__calendar-create-event".to_string(),
            app_tool_info("codex_apps", "-create-event", "mcp__codex_apps__calendar", Some(("calendar", "Calendar"))),
        ),
        (
            "mcp__codex_apps__calendar-list-events".to_string(),
            app_tool_info("codex_apps", "-list-events", "mcp__codex_apps__calendar", Some(("calendar", "Calendar"))),
        ),
    ]);
    let (_, registry) = build_specs(&config, &None, &app_tools, &Vec::new(), &texts()).build();
    let alias = codex_tools::registry::tool_handler_key("-create-event", Some("mcp__codex_apps__calendar"));
    assert!(registry.has_handler("tool_search", None));
    assert!(registry.has_handler(alias.as_str(), None));
}

#[test]
fn tool_suggest_description_lists_discoverable_tools() {
    let model_info = model_info("gpt-5-codex");
    let mut features = Features::with_defaults();
    features.enable(Feature::Apps);
    features.enable(Feature::ToolSuggest);
    let config = tools_config(&model_info, &features, Some(WebSearchMode::Cached));
    let discoverable_tools = vec![
        discoverable_connector("connector_2128aebfecb84f64a069897515042a44", "Google Calendar", "Plan events and schedules."),
        discoverable_connector("connector_68df038e0ba48191908c8434991bbac2", "Gmail", "Find and summarize email threads."),
        codex_tools::discoverable::DiscoverableTool::Plugin(codex_tools::discoverable::DiscoverablePluginInfo {
            id: "sample@test".to_string(),
            name: "Sample Plugin".to_string(),
            description: None,
            has_skills: true,
            mcp_server_names: vec!["sample-docs".to_string()],
            app_connector_ids: vec!["connector_sample".to_string()],
        }),
    ];
    let (tools, _) =
        build_specs_with_discoverable_tools(&config, &None, &None, &Some(discoverable_tools), &Vec::new(), &texts()).build();
    let tool_suggest = find_tool(&tools, "tool_suggest");
    let ToolSpec::Function(ResponsesApiTool { description, parameters, .. }) = &tool_suggest.spec else {
        panic!("expected function tool");
    };
    assert!(description.contains("Google Calendar"));
    assert!(description.contains("Gmail"));
    assert!(description.contains("Sample Plugin"));
    assert!(description.contains("Plan events and schedules."));
    assert!(description.contains("Find and summarize email threads."));
    assert!(description.contains("id: `sample@test`, type: plugin, action: enable"));
    assert!(description.contains("skills; MCP servers: sample-docs; app connectors: connector_sample"));
    assert!(description.contains("DO NOT explore or recommend tools that are not on this list."));
    let JsonSchema::Object { required, .. } = parameters else {
        panic!("expected object parameters");
    };
    assert_eq!(
        required.as_ref(),
        Some(&vec![
            "tool_type".to_string(),
            "action_type".to_string(),
            "tool_id".to_string(),
            "suggest_reason".to_string(),
        ])
    );
}

fn single_mcp_tool_spec(name: &str, tool: McpTool) -> ToolSpec {
    let model_info = model_info("gpt-5-codex");
    let mut features = Features::with_defaults();
    features.enable(Feature::UnifiedExec);
    let config = tools_config(&model_info, &features, Some(WebSearchMode::Cached));
    let tools = build(&config, Some(vec![(name.to_string(), tool)]), None);
    let found = find_tool(&tools, name);
    codex_tools::tool::clone_tool_spec(&found.spec)
}

#[test]
fn test_mcp_tool_property_missing_type_defaults_to_string() {
    let spec = single_mcp_tool_spec(
        "dash/search",
        mcp_tool("search", "Search docs", r#"{"type": "object", "properties": {"query": {"description": "search query"}}}"#),
    );
    assert_eq!(
        spec,
        ToolSpec::Function(ResponsesApiTool {
            name: "dash/search".to_string(),
            parameters: JsonSchema::Object {
                properties: props(vec![("query", JsonSchema::String { description: Some("search query".to_string()) })]),
                required: None,
                additional_properties: None,
            },
            description: "Search docs".to_string(),
            strict: false,
            output_schema: mcp_output_schema("{}"),
            defer_loading: None,
        })
    );
}

#[test]
fn test_mcp_tool_integer_normalized_to_number() {
    let spec = single_mcp_tool_spec(
        "dash/paginate",
        mcp_tool("paginate", "Pagination", r#"{"type": "object", "properties": {"page": {"type": "integer"}}}"#),
    );
    assert_eq!(
        spec,
        ToolSpec::Function(ResponsesApiTool {
            name: "dash/paginate".to_string(),
            parameters: JsonSchema::Object {
                properties: props(vec![("page", JsonSchema::Number { description: None })]),
                required: None,
                additional_properties: None,
            },
            description: "Pagination".to_string(),
            strict: false,
            output_schema: mcp_output_schema("{}"),
            defer_loading: None,
        })
    );
}

#[test]
fn test_mcp_tool_array_without_items_gets_default_string_items() {
    let spec = single_mcp_tool_spec(
        "dash/tags",
        mcp_tool("tags", "Tags", r#"{"type": "object", "properties": {"tags": {"type": "array"}}}"#),
    );
    assert_eq!(
        spec,
        ToolSpec::Function(ResponsesApiTool {
            name: "dash/tags".to_string(),
            parameters: JsonSchema::Object {
                properties: props(vec![(
                    "tags",
                    JsonSchema::Array { items: Box::new(JsonSchema::String { description: None }), description: None },
                )]),
                required: None,
                additional_properties: None,
            },
            description: "Tags".to_string(),
            strict: false,
            output_schema: mcp_output_schema("{}"),
            defer_loading: None,
        })
    );
}

#[test]
fn test_mcp_tool_anyof_defaults_to_string() {
    let spec = single_mcp_tool_spec(
        "dash/value",
        mcp_tool(
            "value",
            "AnyOf Value",
            r#"{"type": "object", "properties": {"value": {"anyOf": [{"type": "string"}, {"type": "number"}]}}}"#,
        ),
    );
    assert_eq!(
        spec,
        ToolSpec::Function(ResponsesApiTool {
            name: "dash/value".to_string(),
            parameters: JsonSchema::Object {
                properties: props(vec![("value", JsonSchema::String { description: None })]),
                required: None,
                additional_properties: None,
            },
            description: "AnyOf Value".to_string(),
            strict: false,
            output_schema: mcp_output_schema("{}"),
            defer_loading: None,
        })
    );
}

#[test]
fn test_shell_tool() {
    let tool = codex_tools::builtin::create_shell_tool(false, false);
    let ToolSpec::Function(ResponsesApiTool { description, name, .. }) = &tool else {
        panic!("expected function tool");
    };
    assert_eq!(name, "shell");
    let expected = r#"Runs a shell command and returns its output.
- The arguments to `shell` will be passed to execvp(). Most terminal commands should be prefixed with ["bash", "-lc"].
- Always set the `workdir` param when using the shell function. Do not use `cd` unless absolutely necessary."#
        .to_string();
    assert_eq!(description, &expected);
}

#[test]
fn request_permissions_tool_includes_full_permission_schema() {
    let tool = codex_tools::agent_tools::create_request_permissions_tool("Request additional permissions.");
    let ToolSpec::Function(ResponsesApiTool { parameters, .. }) = tool else {
        panic!("expected function tool");
    };
    let JsonSchema::Object { properties, .. } = parameters else {
        panic!("expected object parameters");
    };
    let Some(JsonSchema::Object { properties: permission_properties, additional_properties, .. }) = properties.get("permissions") else {
        panic!("expected permissions object");
    };
    assert_eq!(additional_properties, &Some(false.into()));
    assert!(permission_properties.contains_key("network"));
    assert!(permission_properties.contains_key("file_system"));
    assert!(permission_properties.contains_key("macos"));

    let Some(JsonSchema::Object { properties: network_properties, additional_properties, .. }) = permission_properties.get("network") else {
        panic!("expected network object");
    };
    assert_eq!(additional_properties, &Some(false.into()));
    assert!(network_properties.contains_key("enabled"));

    let Some(JsonSchema::Object { properties: file_system_properties, additional_properties, .. }) =
        permission_properties.get("file_system")
    else {
        panic!("expected file_system object");
    };
    assert_eq!(additional_properties, &Some(false.into()));
    assert!(file_system_properties.contains_key("read"));
    assert!(file_system_properties.contains_key("write"));

    let Some(JsonSchema::Object { properties: macos_properties, additional_properties, .. }) = permission_properties.get("macos") else {
        panic!("expected macos object");
    };
    assert_eq!(additional_properties, &Some(false.into()));
    assert!(macos_properties.contains_key("preferences"));
    assert!(macos_properties.contains_key("automations"));
    assert!(macos_properties.contains_key("accessibility"));
    assert!(macos_properties.contains_key("calendar"));
}

#[test]
fn test_shell_command_tool() {
    let tool = codex_tools::builtin::create_shell_command_tool(true, false, false);
    let ToolSpec::Function(ResponsesApiTool { description, name, .. }) = &tool else {
        panic!("expected function tool");
    };
    assert_eq!(name, "shell_command");
    let expected = r#"Runs a shell command and returns its output.
- Always set the `workdir` param when using the shell_command function. Do not use `cd` unless absolutely necessary."#
        .to_string();
    assert_eq!(description, &expected);
}

#[test]
fn test_get_openai_tools_mcp_tools_with_additional_properties_schema() {
    let spec = single_mcp_tool_spec(
        "test_server/do_something_cool",
        mcp_tool(
            "do_something_cool",
            "Do something cool",
            r#"{
                "type": "object",
                "properties": {
                    "string_argument": {"type": "string"},
                    "number_argument": {"type": "number"},
                    "object_argument": {
                        "type": "object",
                        "properties": {
                            "string_property": {"type": "string"},
                            "number_property": {"type": "number"}
                        },
                        "required": ["string_property", "number_property"],
                        "additionalProperties": {
                            "type": "object",
                            "properties": {
                                "addtl_prop": {"type": "string"}
                            },
                            "required": ["addtl_prop"],
                            "additionalProperties": false
                        }
                    }
                }
            }"#,
        ),
    );
    assert_eq!(
        spec,
        ToolSpec::Function(ResponsesApiTool {
            name: "test_server/do_something_cool".to_string(),
            parameters: JsonSchema::Object {
                properties: props(vec![
                    ("string_argument", JsonSchema::String { description: None }),
                    ("number_argument", JsonSchema::Number { description: None }),
                    (
                        "object_argument",
                        JsonSchema::Object {
                            properties: props(vec![
                                ("string_property", JsonSchema::String { description: None }),
                                ("number_property", JsonSchema::Number { description: None }),
                            ]),
                            required: Some(vec!["string_property".to_string(), "number_property".to_string()]),
                            additional_properties: Some(
                                JsonSchema::Object {
                                    properties: props(vec![("addtl_prop", JsonSchema::String { description: None })]),
                                    required: Some(vec!["addtl_prop".to_string()]),
                                    additional_properties: Some(false.into()),
                                }
                                .into(),
                            ),
                        },
                    ),
                ]),
                required: None,
                additional_properties: None,
            },
            description: "Do something cool".to_string(),
            strict: false,
            output_schema: mcp_output_schema("{}"),
            defer_loading: None,
        })
    );
}

fn code_mode_config() -> ToolsConfig {
    let model_info = model_info("gpt-5-codex");
    let mut features = Features::with_defaults();
    features.enable(Feature::CodeMode);
    features.enable(Feature::UnifiedExec);
    tools_config(&model_info, &features, Some(WebSearchMode::Cached))
}

#[test]
fn code_mode_augments_builtin_tool_descriptions_with_typed_sample() {
    let config = code_mode_config();
    let tools = build(&config, None, None);
    let ToolSpec::Function(ResponsesApiTool { description, .. }) = &find_tool(&tools, "view_image").spec else {
        panic!("expected function tool");
    };
    assert_eq!(
        description,
        "View a local image from the filesystem (only use if given a full filepath by the user, and the image isn't already attached to the thread context within <image ...> tags).\n\nCode mode declaration:\n```ts\nimport { view_image } from \"tools.js\";\ndeclare function view_image(args: {\n  path: string;\n}): Promise<unknown>;\n```"
    );
}

#[test]
fn code_mode_augments_mcp_tool_descriptions_with_namespaced_sample() {
    let config = code_mode_config();
    let tools = build(
        &config,
        Some(vec![(
            "mcp__sample__echo".to_string(),
            mcp_tool(
                "echo",
                "Echo text",
                r#"{
                    "type": "object",
                    "properties": {
                        "message": {"type": "string"}
                    },
                    "required": ["message"],
                    "additionalProperties": false
                }"#,
            ),
        )]),
        None,
    );
    let ToolSpec::Function(ResponsesApiTool { description, .. }) = &find_tool(&tools, "mcp__sample__echo").spec else {
        panic!("expected function tool");
    };
    assert_eq!(
        description,
        "Echo text\n\nCode mode declaration:\n```ts\nimport { echo } from \"tools/mcp/sample.js\";\ndeclare function echo(args: {\n  message: string;\n}): Promise<{\n  _meta?: unknown;\n  content: Array<unknown>;\n  isError?: boolean;\n  structuredContent?: unknown;\n}>;\n```"
    );
}

#[test]
fn chat_tools_include_top_level_name() {
    let properties = props(vec![("foo", JsonSchema::String { description: None })]);
    let tools = vec![ToolSpec::Function(ResponsesApiTool {
        name: "demo".to_string(),
        description: "A demo tool".to_string(),
        strict: false,
        defer_loading: None,
        parameters: JsonSchema::Object { properties, required: None, additional_properties: None },
        output_schema: None,
    })];
    let responses_json = codex_tools::tool_json::create_tools_json_for_responses_api(&tools).unwrap();
    let actual: Vec<serde_json::Value> = responses_json.iter().map(to_serde).collect();
    assert_eq!(
        actual,
        vec![to_serde(&json(
            r#"{
                "type": "function",
                "name": "demo",
                "description": "A demo tool",
                "strict": false,
                "parameters": {
                    "type": "object",
                    "properties": {
                        "foo": { "type": "string" }
                    }
                }
            }"#
        ))]
    );
}

#[test]
fn mcp_tool_to_openai_tool_inserts_empty_properties() {
    let tool = McpTool {
        name: "no_props".to_string(),
        description: Some("No properties".to_string()),
        input_schema: members(json(r#"{"type": "object"}"#)),
        output_schema: None,
    };
    let openai_tool = codex_tools::mcp::mcp_tool_to_openai_tool("server/no_props".to_string(), tool).expect("convert tool");
    let parameters = to_serde(&codex_tools::schema_json::schema_to_json(&openai_tool.parameters));
    assert_eq!(parameters.get("properties"), Some(&to_serde(&json("{}"))));
}

#[test]
fn mcp_tool_to_openai_tool_preserves_top_level_output_schema() {
    let tool = McpTool {
        name: "with_output".to_string(),
        description: Some("Has output schema".to_string()),
        input_schema: members(json(r#"{"type": "object"}"#)),
        output_schema: Some(members(json(
            r#"{"properties": {"result": {"properties": {"nested": {}}}}, "required": ["result"]}"#,
        ))),
    };
    let openai_tool =
        codex_tools::mcp::mcp_tool_to_openai_tool("mcp__server__with_output".to_string(), tool).expect("convert tool");
    assert_eq!(
        openai_tool.output_schema.as_ref().map(to_serde),
        Some(to_serde(&json(
            r#"{
                "type": "object",
                "properties": {
                    "content": {"type": "array", "items": {}},
                    "structuredContent": {
                        "properties": {"result": {"properties": {"nested": {}}}},
                        "required": ["result"]
                    },
                    "isError": {"type": "boolean"},
                    "_meta": {}
                },
                "required": ["content"],
                "additionalProperties": false
            }"#
        )))
    );
}

#[test]
fn mcp_tool_to_openai_tool_preserves_output_schema_without_inferred_type() {
    let tool = McpTool {
        name: "with_enum_output".to_string(),
        description: Some("Has enum output schema".to_string()),
        input_schema: members(json(r#"{"type": "object"}"#)),
        output_schema: Some(members(json(r#"{"enum": ["ok", "error"]}"#))),
    };
    let openai_tool =
        codex_tools::mcp::mcp_tool_to_openai_tool("mcp__server__with_enum_output".to_string(), tool).expect("convert tool");
    assert_eq!(
        openai_tool.output_schema.as_ref().map(to_serde),
        Some(to_serde(&json(
            r#"{
                "type": "object",
                "properties": {
                    "content": {"type": "array", "items": {}},
                    "structuredContent": {"enum": ["ok", "error"]},
                    "isError": {"type": "boolean"},
                    "_meta": {}
                },
                "required": ["content"],
                "additionalProperties": false
            }"#
        )))
    );
}

fn lookup_order_tool() -> McpTool {
    mcp_tool(
        "lookup_order",
        "Look up an order",
        r#"{
            "type": "object",
            "properties": {"order_id": {"type": "string"}},
            "required": ["order_id"],
            "additionalProperties": false
        }"#,
    )
}

#[test]
fn search_tool_deferred_tools_always_set_defer_loading_true() {
    let openai_tool =
        codex_tools::mcp::mcp_tool_to_deferred_openai_tool("mcp__codex_apps__lookup_order".to_string(), lookup_order_tool())
            .expect("convert deferred tool");
    assert_eq!(openai_tool.defer_loading, Some(true));
}

#[test]
fn deferred_responses_api_tool_serializes_with_defer_loading() {
    let spec = ToolSpec::Function(
        codex_tools::mcp::mcp_tool_to_deferred_openai_tool("mcp__codex_apps__lookup_order".to_string(), lookup_order_tool())
            .expect("convert deferred tool"),
    );
    let serialized = to_serde(&codex_tools::tool_json::tool_spec_to_json(&spec));
    assert_eq!(
        serialized,
        to_serde(&json(
            r#"{
                "type": "function",
                "name": "mcp__codex_apps__lookup_order",
                "description": "Look up an order",
                "strict": false,
                "defer_loading": true,
                "parameters": {
                    "type": "object",
                    "properties": {"order_id": {"type": "string"}},
                    "required": ["order_id"],
                    "additionalProperties": false
                }
            }"#
        ))
    );
}

#[test]
fn mcp_tools_with_readable_schemas_get_the_mcp_handler() {
    let model_info = model_info("o3");
    let features = Features::with_defaults();
    let config = tools_config(&model_info, &features, None);
    let (tools, registry) = build_specs(
        &config,
        &Some(vec![
            ("srv/zeta".to_string(), mcp_tool("zeta", "Z", r#"{"type": "object", "properties": {}}"#)),
            ("srv/alpha".to_string(), mcp_tool("alpha", "A", r#"{"properties": {"x": {"type": "integer"}}}"#)),
            ("srv/broken".to_string(), mcp_tool("broken", "B", r#"{"type": "null"}"#)),
        ]),
        &None,
        &Vec::new(),
        &texts(),
    )
    .build();
    assert_eq!(registry.handler("srv/zeta", None), Some(codex_tools::registry::HandlerKind::Mcp));
    assert_eq!(registry.handler("srv/alpha", None), Some(codex_tools::registry::HandlerKind::Mcp));
    assert_eq!(registry.handler("srv/broken", None), None);
    let mcp_names: Vec<String> =
        tools.iter().map(|t| tool_name(&t.spec)).filter(|n| n.starts_with("srv/")).collect();
    assert_eq!(mcp_names, vec!["srv/alpha".to_string(), "srv/zeta".to_string()]);
}

fn strip_descriptions_schema(schema: &mut JsonSchema) {
    match schema {
        JsonSchema::Boolean { description } | JsonSchema::String { description } | JsonSchema::Number { description } => {
            *description = None;
        }
        JsonSchema::Array { items, description } => {
            strip_descriptions_schema(items);
            *description = None;
        }
        JsonSchema::Object { properties, required: _, additional_properties } => {
            for (_, v) in properties.entries.iter_mut() {
                strip_descriptions_schema(v);
            }
            if let Some(AdditionalProperties::Schema(s)) = additional_properties {
                strip_descriptions_schema(s);
            }
        }
    }
}

fn strip_descriptions_tool(spec: &mut ToolSpec) {
    match spec {
        ToolSpec::ToolSearch { parameters, .. } => strip_descriptions_schema(parameters),
        ToolSpec::Function(ResponsesApiTool { parameters, .. }) => {
            strip_descriptions_schema(parameters);
        }
        ToolSpec::Freeform(_) | ToolSpec::LocalShell | ToolSpec::ImageGeneration { .. } | ToolSpec::WebSearch { .. } => {}
    }
}

#[test]
fn test_full_toolset_specs_for_gpt5_codex_unified_exec_web_search() {
    let model_info = model_info("gpt-5-codex");
    let mut features = Features::with_defaults();
    features.enable(Feature::UnifiedExec);
    let config = tools_config(&model_info, &features, Some(WebSearchMode::Live));
    let tools = build(&config, None, None);

    let mut actual: std::collections::BTreeMap<String, ToolSpec> = std::collections::BTreeMap::new();
    let mut duplicate_names = Vec::new();
    for t in tools {
        let name = tool_name(&t.spec);
        if actual.insert(name.clone(), t.spec).is_some() {
            duplicate_names.push(name);
        }
    }
    assert!(duplicate_names.is_empty(), "duplicate tool entries detected: {duplicate_names:?}");

    let texts = texts();
    let mut expected: std::collections::BTreeMap<String, ToolSpec> = std::collections::BTreeMap::new();
    for spec in [
        codex_tools::builtin::create_exec_command_tool(true, false),
        codex_tools::builtin::create_write_stdin_tool(),
        codex_tools::tool::clone_tool_spec(&texts.plan_tool),
        codex_tools::agent_tools::create_request_user_input_tool(&texts.request_user_input_description),
        codex_tools::tool::clone_tool_spec(&texts.apply_patch_freeform_tool),
        ToolSpec::WebSearch {
            external_web_access: Some(true),
            filters: None,
            user_location: None,
            search_context_size: None,
            search_content_types: None,
        },
        codex_tools::builtin::create_view_image_tool(config.can_request_original_image_detail),
    ] {
        expected.insert(tool_name(&spec), spec);
    }
    if config.request_permission_enabled {
        let spec = codex_tools::agent_tools::create_request_permissions_tool(&texts.request_permissions_description);
        expected.insert(tool_name(&spec), spec);
    }

    let actual_names: std::collections::HashSet<_> = actual.keys().cloned().collect();
    let expected_names: std::collections::HashSet<_> = expected.keys().cloned().collect();
    assert_eq!(actual_names, expected_names, "tool name set mismatch");

    for (name, e) in expected.iter_mut() {
        let a = actual.get_mut(name).expect("present");
        strip_descriptions_tool(a);
        strip_descriptions_tool(e);
        assert_eq!(a, e, "spec mismatch for {name}");
    }
}

#[test]
fn shell_aliases_are_always_registered() {
    for slug in ["gpt-5", "gpt-5-codex"] {
        let model_info = model_info(slug);
        let mut features = Features::with_defaults();
        features.enable(Feature::UnifiedExec);
        let config = tools_config(&model_info, &features, None);
        let (_, registry) = build_specs(&config, &None, &None, &Vec::new(), &texts()).build();
        for alias in ["shell", "container.exec", "local_shell"] {
            assert_eq!(registry.handler(alias, None), Some(codex_tools::registry::HandlerKind::Shell), "{alias}");
        }
        assert!(matches!(
            registry.handler("shell_command", None),
            Some(codex_tools::registry::HandlerKind::ShellCommand(_))
        ));
    }
}

#[test]
fn discoverable_listing_does_not_depend_on_input_order() {
    let plugin = || {
        codex_tools::discoverable::DiscoverableTool::Plugin(codex_tools::discoverable::DiscoverablePluginInfo {
            id: "sample@test".to_string(),
            name: "Sample Plugin".to_string(),
            description: None,
            has_skills: true,
            mcp_server_names: vec!["sample-docs".to_string()],
            app_connector_ids: vec![],
        })
    };
    let a = vec![
        discoverable_connector("connector_b", "Gmail", "Mail."),
        plugin(),
        discoverable_connector("connector_a", "Calendar", "Events."),
    ];
    let b = vec![
        plugin(),
        discoverable_connector("connector_a", "Calendar", "Events."),
        discoverable_connector("connector_b", "Gmail", "Mail."),
    ];
    let listing = codex_tools::discoverable::format_discoverable_tools(&a);
    assert_eq!(listing, codex_tools::discoverable::format_discoverable_tools(&b));
    let calendar = listing.find("Calendar").unwrap();
    let gmail = listing.find("Gmail").unwrap();
    let sample = listing.find("Sample Plugin").unwrap();
    assert!(calendar < gmail && gmail < sample);
}

#[test]
fn code_mode_tools_come_first_and_list_sorted_nested_names() {
    let config = code_mode_config();
    let tools = build(&config, None, None);
    assert!(tools.len() >= 2);
    assert_eq!(tool_name(&tools[0].spec), "exec");
    assert_eq!(tool_name(&tools[1].spec), "exec_wait");
    let ToolSpec::Freeform(exec) = &tools[0].spec else {
        let ToolSpec::Function(ResponsesApiTool { description, .. }) = &tools[0].spec else {
            panic!("expected the code mode tool");
        };
        assert!(description.contains("view_image"));
        return;
    };
    assert!(exec.description.contains("view_image"));
}

#[test]
fn flagged_tools_appear_once_exactly_when_enabled() {
    let model_info = model_info("gpt-5-codex");
    let features = Features::with_defaults();
    let config = tools_config(&model_info, &features, Some(WebSearchMode::Cached));
    let tools = build(&config, None, None);
    for name in ["js_repl", "js_repl_reset", "list_mcp_resources", "tool_search", "tool_suggest"] {
        assert!(tools.iter().all(|t| tool_name(&t.spec) != name), "{name} should be absent");
    }
    assert_eq!(tools.iter().filter(|t| tool_name(&t.spec) == "web_search").count(), 1);
    let tools = build(&config, Some(Vec::new()), None);
    for name in ["list_mcp_resources", "list_mcp_resource_templates", "read_mcp_resource"] {
        assert_eq!(tools.iter().filter(|t| tool_name(&t.spec) == name).count(), 1);
    }
}

#[test]
fn discoverable_listing_with_repeated_tools_does_not_depend_on_order() {
    let a = vec![
        discoverable_connector("connector_b", "Gmail", "Mail."),
        discoverable_connector("connector_a", "Calendar", "Events."),
        discoverable_connector("connector_b", "Gmail", "Mail."),
    ];
    let b = vec![
        discoverable_connector("connector_b", "Gmail", "Mail."),
        discoverable_connector("connector_b", "Gmail", "Mail."),
        discoverable_connector("connector_a", "Calendar", "Events."),
    ];
    let listing = codex_tools::discoverable::format_discoverable_tools(&a);
    assert_eq!(listing, codex_tools::discoverable::format_discoverable_tools(&b));
    assert_eq!(listing.matches("Gmail").count(), 2);
}
