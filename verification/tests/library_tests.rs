use codex_tools::builtin::{create_approval_parameters, create_exec_command_tool};
use codex_tools::config::{Feature, Features};
use codex_tools::json::JsonValue;
use codex_tools::mcp::{mcp_call_tool_result_output_schema, parse_tool_input_schema};
use codex_tools::project_doc::{
    candidate_filenames, get_user_instructions, project_root_index, project_search_dirs,
    render_js_repl_instructions, ProjectDocBudget,
};
use codex_tools::registry::{tool_handler_key, HandlerKind, ToolRegistryBuilder};
use codex_tools::sanitize::{sanitize_json_schema, sanitized, schema_type_of};
use codex_tools::schema::{AdditionalProperties, JsonSchema, Properties};
use codex_tools::schema_json::{schema_from_json, schema_to_json, SchemaError};
use codex_tools::sorting::{sort_by_name, sorted_unique};
use codex_tools::strings::{decimal_string, join_strings, replace, trim};
use codex_tools::tool::{ResponsesApiTool, ToolSpec};

fn s(text: &str) -> JsonValue {
    JsonValue::Str(text.to_string())
}

fn obj(members: Vec<(&str, JsonValue)>) -> JsonValue {
    JsonValue::Object(members.into_iter().map(|(k, v)| (k.to_string(), v)).collect())
}

fn strings(v: &[&str]) -> Vec<String> {
    v.iter().map(|x| x.to_string()).collect()
}

fn function_spec(name: &str) -> ToolSpec {
    ToolSpec::Function(ResponsesApiTool {
        name: name.to_string(),
        description: String::new(),
        strict: false,
        defer_loading: None,
        parameters: JsonSchema::Object { properties: Properties::new(), required: None, additional_properties: None },
        output_schema: None,
    })
}

#[test]
fn sanitize_gives_every_schema_a_type() {
    assert_eq!(sanitized(&JsonValue::Bool(true)), obj(vec![("type", s("string"))]));
    assert_eq!(sanitized(&obj(vec![])), obj(vec![("type", s("string"))]));
    assert_eq!(
        sanitized(&obj(vec![("properties", obj(vec![]))])),
        obj(vec![("properties", obj(vec![])), ("type", s("object"))])
    );
    assert_eq!(
        sanitized(&obj(vec![("type", s("array"))])),
        obj(vec![("type", s("array")), ("items", obj(vec![("type", s("string"))]))])
    );
    assert_eq!(
        sanitized(&obj(vec![("minimum", JsonValue::Number("1".to_string()))])),
        obj(vec![("minimum", JsonValue::Number("1".to_string())), ("type", s("number"))])
    );
    assert_eq!(
        sanitized(&obj(vec![("enum", JsonValue::Array(vec![s("a")]))])),
        obj(vec![("enum", JsonValue::Array(vec![s("a")])), ("type", s("string"))])
    );
    assert_eq!(
        sanitized(&obj(vec![("type", JsonValue::Array(vec![s("null"), s("integer")]))])),
        obj(vec![("type", s("integer"))])
    );
    assert_eq!(
        sanitized(&obj(vec![("items", JsonValue::Bool(false))])),
        obj(vec![("items", obj(vec![("type", s("string"))])), ("type", s("array"))])
    );
    assert_eq!(sanitized(&s("x")), s("x"));
}

#[test]
fn sanitize_reaches_nested_schemas() {
    let input = obj(vec![
        ("type", s("object")),
        ("properties", obj(vec![("a", obj(vec![])), ("b", obj(vec![("type", s("array"))]))])),
        ("additionalProperties", obj(vec![("required", JsonValue::Array(vec![]))])),
    ]);
    let expected = obj(vec![
        ("type", s("object")),
        (
            "properties",
            obj(vec![
                ("a", obj(vec![("type", s("string"))])),
                ("b", obj(vec![("type", s("array")), ("items", obj(vec![("type", s("string"))]))])),
            ]),
        ),
        (
            "additionalProperties",
            obj(vec![("required", JsonValue::Array(vec![])), ("type", s("object")), ("properties", obj(vec![]))]),
        ),
    ]);
    assert_eq!(sanitized(&input), expected);
    let mut v = input;
    sanitize_json_schema(&mut v);
    assert_eq!(v, expected);
}

#[test]
fn schema_type_of_prefers_declared_types() {
    let members = |v: JsonValue| match v {
        JsonValue::Object(m) => m,
        _ => unreachable!(),
    };
    assert_eq!(schema_type_of(&members(obj(vec![("type", s("boolean"))]))), "boolean");
    assert_eq!(schema_type_of(&members(obj(vec![("required", JsonValue::Array(vec![]))]))), "object");
    assert_eq!(schema_type_of(&members(obj(vec![("prefixItems", JsonValue::Array(vec![]))]))), "array");
    assert_eq!(schema_type_of(&members(obj(vec![("format", s("date"))]))), "string");
    assert_eq!(schema_type_of(&members(obj(vec![("multipleOf", JsonValue::Number("2".to_string()))]))), "number");
}

#[test]
fn schema_from_json_reports_each_error() {
    assert_eq!(schema_from_json(&s("x")), Err(SchemaError::ExpectedObject));
    assert_eq!(schema_from_json(&obj(vec![])), Err(SchemaError::MissingField("type".to_string())));
    assert_eq!(
        schema_from_json(&obj(vec![("type", JsonValue::Number("1".to_string()))])),
        Err(SchemaError::InvalidType("type".to_string()))
    );
    assert_eq!(
        schema_from_json(&obj(vec![("type", s("null"))])),
        Err(SchemaError::UnknownVariant("null".to_string()))
    );
    assert_eq!(schema_from_json(&obj(vec![("type", s("array"))])), Err(SchemaError::MissingField("items".to_string())));
    assert_eq!(
        schema_from_json(&obj(vec![("type", s("object"))])),
        Err(SchemaError::MissingField("properties".to_string()))
    );
    assert_eq!(
        schema_from_json(&obj(vec![("type", s("string")), ("description", JsonValue::Bool(true))])),
        Err(SchemaError::InvalidType("description".to_string()))
    );
    assert_eq!(
        schema_from_json(&obj(vec![
            ("type", s("object")),
            ("properties", obj(vec![])),
            ("required", JsonValue::Array(vec![JsonValue::Number("1".to_string())])),
        ])),
        Err(SchemaError::InvalidType("required".to_string()))
    );
    assert_eq!(SchemaError::ExpectedObject.message(), "expected a JSON object");
    assert_eq!(SchemaError::MissingField("type".to_string()).message(), "missing field `type`");
    assert_eq!(SchemaError::InvalidType("items".to_string()).message(), "invalid type for `items`");
    assert_eq!(SchemaError::UnknownVariant("null".to_string()).message(), "unknown variant `null`");
}

#[test]
fn schema_from_json_reads_each_kind() {
    assert_eq!(
        schema_from_json(&obj(vec![("type", s("integer")), ("description", s("count"))])),
        Ok(JsonSchema::Number { description: Some("count".to_string()) })
    );
    assert_eq!(
        schema_from_json(&obj(vec![("type", s("array")), ("items", obj(vec![("type", s("boolean"))]))])),
        Ok(JsonSchema::Array { items: Box::new(JsonSchema::Boolean { description: None }), description: None })
    );
    let mut properties = Properties::new();
    properties.insert("b".to_string(), JsonSchema::String { description: None });
    properties.insert("a".to_string(), JsonSchema::Number { description: None });
    assert_eq!(
        schema_from_json(&obj(vec![
            ("type", s("object")),
            ("properties", obj(vec![("b", obj(vec![("type", s("string"))])), ("a", obj(vec![("type", s("number"))]))])),
            ("required", JsonValue::Array(vec![s("a")])),
            ("additionalProperties", JsonValue::Bool(false)),
        ])),
        Ok(JsonSchema::Object {
            properties,
            required: Some(vec!["a".to_string()]),
            additional_properties: Some(AdditionalProperties::Boolean(false)),
        })
    );
}

#[test]
fn schema_round_trips_through_json() {
    let mut inner = Properties::new();
    inner.insert("flag".to_string(), JsonSchema::Boolean { description: Some("on?".to_string()) });
    let mut properties = Properties::new();
    properties.insert("zeta".to_string(), JsonSchema::String { description: None });
    properties.insert(
        "alpha".to_string(),
        JsonSchema::Array {
            items: Box::new(JsonSchema::Object {
                properties: inner,
                required: None,
                additional_properties: Some(AdditionalProperties::Schema(Box::new(JsonSchema::Number {
                    description: None,
                }))),
            }),
            description: Some("list".to_string()),
        },
    );
    let schema = JsonSchema::Object {
        properties,
        required: Some(vec!["zeta".to_string()]),
        additional_properties: Some(AdditionalProperties::Boolean(true)),
    };
    let json = schema_to_json(&schema);
    assert_eq!(schema_from_json(&json), Ok(schema));
}

#[test]
fn parse_tool_input_schema_sanitizes_first() {
    assert_eq!(
        parse_tool_input_schema(&obj(vec![("properties", obj(vec![]))])),
        Ok(JsonSchema::Object { properties: Properties::new(), required: None, additional_properties: None })
    );
    assert_eq!(
        parse_tool_input_schema(&obj(vec![("type", s("null"))])),
        Err(SchemaError::UnknownVariant("null".to_string()))
    );
    assert_eq!(parse_tool_input_schema(&JsonValue::Bool(true)), Ok(JsonSchema::String { description: None }));
}

#[test]
fn call_tool_result_schema_wraps_structured_content() {
    let structured = obj(vec![("type", s("object")), ("properties", obj(vec![]))]);
    let expected = obj(vec![
        ("type", s("object")),
        (
            "properties",
            obj(vec![
                ("content", obj(vec![("type", s("array")), ("items", obj(vec![]))])),
                ("structuredContent", obj(vec![("type", s("object")), ("properties", obj(vec![]))])),
                ("isError", obj(vec![("type", s("boolean"))])),
                ("_meta", obj(vec![])),
            ]),
        ),
        ("required", JsonValue::Array(vec![s("content")])),
        ("additionalProperties", JsonValue::Bool(false)),
    ]);
    assert_eq!(mcp_call_tool_result_output_schema(structured), expected);
}

#[test]
fn candidate_filenames_keep_order_and_drop_repeats() {
    assert_eq!(candidate_filenames(&Vec::new()), strings(&["AGENTS.override.md", "AGENTS.md"]));
    assert_eq!(
        candidate_filenames(&strings(&["", "AGENTS.md", "NOTES.md", "NOTES.md", "TEAM.md"])),
        strings(&["AGENTS.override.md", "AGENTS.md", "NOTES.md", "TEAM.md"])
    );
}

#[test]
fn js_repl_instructions_follow_features() {
    let mut features = Features::empty();
    assert_eq!(render_js_repl_instructions(&features), None);
    features.enable(Feature::JsRepl);
    let text = render_js_repl_instructions(&features).unwrap();
    assert!(text.starts_with("## JavaScript REPL (Node)\n- Use `js_repl`"));
    assert!(text.ends_with("Use `console.log`, `codex.tool(...)`, and `codex.emitImage(...)`."));
    assert!(!text.contains("Do not call tools directly"));
    features.enable(Feature::JsReplToolsOnly);
    let text = render_js_repl_instructions(&features).unwrap();
    assert!(text.contains(
        "- Do not call tools directly; use `js_repl` + `codex.tool(...)` for all tool calls, including shell commands.\n- MCP tools (if any) can also be called by name via `codex.tool(...)`.\n- Avoid direct access"
    ));
}

#[test]
fn user_instructions_join_sections() {
    let none = Features::empty();
    assert_eq!(get_user_instructions(&none, None, None, None, None, "nested"), None);
    assert_eq!(
        get_user_instructions(&none, Some("be brief".to_string()), Some("docs".to_string()), None, None, "nested"),
        Some("be brief\n\n--- project-doc ---\n\ndocs".to_string())
    );
    assert_eq!(
        get_user_instructions(&none, None, Some("docs".to_string()), Some("plugins".to_string()), Some("skills".to_string()), "nested"),
        Some("docs\n\nplugins\n\nskills".to_string())
    );
    let mut child = Features::empty();
    child.enable(Feature::ChildAgentsMd);
    assert_eq!(
        get_user_instructions(&child, None, None, None, None, "nested"),
        Some("nested".to_string())
    );
    assert_eq!(
        get_user_instructions(&child, Some("u".to_string()), None, None, Some("skills".to_string()), "nested"),
        Some("u\n\nskills\n\nnested".to_string())
    );
    let mut repl = Features::empty();
    repl.enable(Feature::JsRepl);
    let text = get_user_instructions(&repl, Some("u".to_string()), None, None, None, "nested").unwrap();
    assert!(text.starts_with("u\n\n## JavaScript REPL (Node)\n"));
}

#[test]
fn project_doc_budget_keeps_non_blank_docs() {
    let mut budget = ProjectDocBudget::new(20);
    assert_eq!(budget.remaining_bytes(), 20);
    budget.accept("root doc".to_string(), 8);
    assert_eq!(budget.remaining_bytes(), 12);
    budget.accept("  \n".to_string(), 3);
    assert_eq!(budget.remaining_bytes(), 12);
    budget.accept("sub".to_string(), 3);
    assert_eq!(budget.remaining_bytes(), 9);
    assert_eq!(budget.finish(), Some("root doc\n\nsub".to_string()));
    assert_eq!(ProjectDocBudget::new(5).finish(), None);
}

#[test]
fn project_search_dirs_run_from_root_to_cwd() {
    let ancestors = strings(&["/repo/a/b", "/repo/a", "/repo", "/"]);
    assert_eq!(project_search_dirs(&ancestors, Some(2)), strings(&["/repo", "/repo/a", "/repo/a/b"]));
    assert_eq!(project_search_dirs(&ancestors, Some(0)), strings(&["/repo/a/b"]));
    assert_eq!(project_search_dirs(&ancestors, None), strings(&["/repo/a/b"]));
    assert_eq!(project_root_index(&vec![false, false, true, true]), Some(2));
    assert_eq!(project_root_index(&vec![false, false]), None);
    assert_eq!(project_root_index(&Vec::new()), None);
}

#[test]
fn registry_resolves_and_replaces_handlers() {
    assert_eq!(tool_handler_key("echo", Some("mcp__srv__")), "mcp__srv__echo");
    assert_eq!(tool_handler_key("shell", None), "shell");

    let mut builder = ToolRegistryBuilder::new();
    builder.push_spec(function_spec("a"));
    builder.push_spec_with_parallel_support(function_spec("b"), true);
    builder.register_handler("a".to_string(), HandlerKind::Plan);
    builder.register_handler("b".to_string(), HandlerKind::ViewImage);
    builder.register_handler("a".to_string(), HandlerKind::ApplyPatch);
    builder.register_handler("mcp__srv__echo".to_string(), HandlerKind::Mcp);
    let (specs, registry) = builder.build();
    assert_eq!(specs.len(), 2);
    assert_eq!(specs[0].spec.name(), "a");
    assert!(!specs[0].supports_parallel_tool_calls);
    assert!(specs[1].supports_parallel_tool_calls);
    assert_eq!(registry.handler("a", None), Some(HandlerKind::ApplyPatch));
    assert_eq!(registry.handler("b", None), Some(HandlerKind::ViewImage));
    assert_eq!(registry.handler("echo", Some("mcp__srv__")), Some(HandlerKind::Mcp));
    assert_eq!(registry.handler("c", None), None);
    assert!(registry.has_handler("b", None));
    assert!(!registry.has_handler("echo", None));
}

#[test]
fn sorting_helpers() {
    assert_eq!(sorted_unique(strings(&["b", "a", "c", "a", "b"])), strings(&["a", "b", "c"]));
    assert_eq!(sorted_unique(Vec::new()), Vec::<String>::new());
    let sorted = sort_by_name(vec![("b".to_string(), 1), ("a".to_string(), 2), ("b".to_string(), 3), ("A".to_string(), 4)]);
    assert_eq!(
        sorted,
        vec![("A".to_string(), 4), ("a".to_string(), 2), ("b".to_string(), 1), ("b".to_string(), 3)]
    );
}

#[test]
fn string_helpers() {
    assert_eq!(decimal_string(0), "0");
    assert_eq!(decimal_string(1234567890), "1234567890");
    assert_eq!(decimal_string(u64::MAX), "18446744073709551615");
    assert_eq!(join_strings(&strings(&["a", "b", "c"]), ", "), "a, b, c");
    assert_eq!(join_strings(&Vec::new(), ", "), "");
    assert_eq!(trim("  x y \n"), "x y");
    assert_eq!(trim("   "), "");
}

#[test]
fn replace_handles_empty_patterns_like_str_replace() {
    assert_eq!(replace("abc", "", "-"), "abc".replace("", "-"));
    assert_eq!(replace("", "", "-"), "-");
    assert_eq!(replace("a.b.c", ".", "::"), "a::b::c");
    assert_eq!(replace("aaa", "aa", "b"), "aaa".replace("aa", "b"));
}

fn property_names(p: &Properties) -> Vec<String> {
    let mut names = Vec::new();
    for key in [
        "cmd",
        "workdir",
        "shell",
        "tty",
        "yield_time_ms",
        "max_output_tokens",
        "login",
        "sandbox_permissions",
        "justification",
        "prefix_rule",
        "additional_permissions",
    ] {
        if p.contains_key(key) {
            names.push(key.to_string());
        }
    }
    names
}

#[test]
fn approval_parameters_have_the_documented_keys() {
    let plain = create_approval_parameters(false);
    assert_eq!(plain.len(), 3);
    assert_eq!(property_names(&plain), vec!["sandbox_permissions", "justification", "prefix_rule"]);
    let extended = create_approval_parameters(true);
    assert_eq!(extended.len(), 4);
    assert_eq!(
        property_names(&extended),
        vec!["sandbox_permissions", "justification", "prefix_rule", "additional_permissions"]
    );
    let Some(JsonSchema::String { description: Some(d) }) = extended.get("sandbox_permissions") else {
        panic!("expected a string schema");
    };
    assert!(d.contains("with_additional_permissions"));
    let Some(JsonSchema::String { description: Some(d) }) = plain.get("sandbox_permissions") else {
        panic!("expected a string schema");
    };
    assert!(!d.contains("with_additional_permissions"));
}

#[test]
fn exec_command_tool_has_the_documented_keys() {
    for (login, request) in [(false, false), (true, false), (false, true), (true, true)] {
        let ToolSpec::Function(ResponsesApiTool { parameters, .. }) = create_exec_command_tool(login, request) else {
            panic!("expected a function tool");
        };
        let JsonSchema::Object { properties, .. } = parameters else {
            panic!("expected object parameters");
        };
        let mut expected = vec!["cmd", "workdir", "shell", "tty", "yield_time_ms", "max_output_tokens"];
        if login {
            expected.push("login");
        }
        expected.extend(["sandbox_permissions", "justification", "prefix_rule"]);
        if request {
            expected.push("additional_permissions");
        }
        assert_eq!(properties.len(), expected.len());
        assert_eq!(property_names(&properties), expected);
    }
}

#[test]
fn sanitizing_twice_changes_nothing_and_shapes_every_schema() {
    let original = obj(vec![
        ("properties", obj(vec![
            ("a", JsonValue::Bool(true)),
            ("b", obj(vec![("items", obj(vec![("enum", JsonValue::Array(vec![s("x")]))]))])),
            ("c", obj(vec![("type", JsonValue::Array(vec![s("null"), s("array")]))])),
        ])),
        ("additionalProperties", obj(vec![("minimum", JsonValue::Bool(false))])),
        ("anyOf", JsonValue::Array(vec![JsonValue::Bool(false), obj(vec![])])),
    ]);
    let once = sanitized(&original);
    let twice = sanitized(&once);
    assert_eq!(once, twice);
    let expected = obj(vec![
        ("properties", obj(vec![
            ("a", obj(vec![("type", s("string"))])),
            ("b", obj(vec![
                ("items", obj(vec![("enum", JsonValue::Array(vec![s("x")])), ("type", s("string"))])),
                ("type", s("array")),
            ])),
            ("c", obj(vec![("type", s("array")), ("items", obj(vec![("type", s("string"))]))])),
        ])),
        ("additionalProperties", obj(vec![("minimum", JsonValue::Bool(false)), ("type", s("number"))])),
        ("anyOf", JsonValue::Array(vec![obj(vec![("type", s("string"))]), obj(vec![("type", s("string"))])])),
        ("type", s("object")),
    ]);
    assert_eq!(once, expected);
}

#[test]
fn the_first_present_candidate_is_chosen() {
    assert_eq!(codex_tools::project_doc::first_present_candidate(&vec![false, true, true]), Some(1));
    assert_eq!(codex_tools::project_doc::first_present_candidate(&vec![true]), Some(0));
    assert_eq!(codex_tools::project_doc::first_present_candidate(&vec![false, false]), None);
    assert_eq!(codex_tools::project_doc::first_present_candidate(&Vec::new()), None);
    assert!(!codex_tools::project_doc::project_docs_enabled(0));
    assert!(codex_tools::project_doc::project_docs_enabled(1));
}
