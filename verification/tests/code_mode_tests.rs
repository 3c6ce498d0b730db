use codex_tools::code_mode::{
    append_code_mode_sample, augment_tool_spec_for_code_mode, code_mode_tool_reference,
    normalize_code_mode_identifier, split_qualified_tool_name,
};
use codex_tools::code_mode_runtime::{
    allocate_request_id, build_freeform_tool_payload, build_function_tool_payload, build_nested_tool_payload,
    default_wait_yield_time_ms, enabled_tool_from_spec, enabled_tools_from_specs, parse_exec_wait_args, parse_u64,
    serialize_function_tool_arguments, tool_kind_for_name, tool_kind_for_spec, CodeModeCellIds,
    CodeModeExecuteHandler, CodeModeToolKind, CodeModeWaitHandler, ExecWaitArgs, ToolKind, ToolPayload,
    WaitAction,
};
use codex_tools::json::JsonValue;
use codex_tools::schema::{AdditionalProperties, JsonSchema, Properties};
use codex_tools::tool::{clone_tool_spec, FreeformTool, FreeformToolFormat, ResponsesApiTool, ToolSpec};
use codex_tools::typescript::{json_literal_text, render_json_schema_to_typescript};

fn s(text: &str) -> JsonValue {
    JsonValue::Str(text.to_string())
}

fn num(text: &str) -> JsonValue {
    JsonValue::Number(text.to_string())
}

fn obj(members: Vec<(&str, JsonValue)>) -> JsonValue {
    JsonValue::Object(members.into_iter().map(|(k, v)| (k.to_string(), v)).collect())
}

fn function_tool(name: &str, description: &str) -> ToolSpec {
    let mut properties = Properties::new();
    properties.insert("path".to_string(), JsonSchema::String { description: None });
    ToolSpec::Function(ResponsesApiTool {
        name: name.to_string(),
        description: description.to_string(),
        strict: false,
        defer_loading: None,
        parameters: JsonSchema::Object {
            properties,
            required: Some(vec!["path".to_string()]),
            additional_properties: Some(AdditionalProperties::Boolean(false)),
        },
        output_schema: None,
    })
}

fn freeform_tool(name: &str, description: &str) -> ToolSpec {
    ToolSpec::Freeform(FreeformTool {
        name: name.to_string(),
        description: description.to_string(),
        format: FreeformToolFormat {
            format_type: "grammar".to_string(),
            syntax: "lark".to_string(),
            definition: "start: x".to_string(),
        },
    })
}

fn description_of(spec: &ToolSpec) -> String {
    match spec {
        ToolSpec::Function(t) => t.description.clone(),
        ToolSpec::Freeform(t) => t.description.clone(),
        _ => panic!("no description"),
    }
}

#[test]
fn split_qualified_tool_name_splits_at_the_first_separator() {
    assert_eq!(
        split_qualified_tool_name("mcp__server__tool"),
        Some(("server".to_string(), "tool".to_string()))
    );
    assert_eq!(
        split_qualified_tool_name("mcp__srv__a__b"),
        Some(("srv".to_string(), "a__b".to_string()))
    );
    assert_eq!(split_qualified_tool_name("mcp____tool"), Some((String::new(), "tool".to_string())));
    assert_eq!(split_qualified_tool_name("mcp__server__"), None);
    assert_eq!(split_qualified_tool_name("mcp__server"), None);
    assert_eq!(split_qualified_tool_name("shell"), None);
    assert_eq!(split_qualified_tool_name("mcp_server__tool"), None);
    assert_eq!(split_qualified_tool_name(""), None);
}

#[test]
fn code_mode_tool_reference_places_mcp_tools_in_server_modules() {
    let r = code_mode_tool_reference("mcp__sample__echo");
    assert_eq!(r.module_file, "tools/mcp/sample.js");
    assert_eq!(r.namespace, vec!["mcp".to_string(), "sample".to_string()]);
    assert_eq!(r.tool_key, "echo");

    let r = code_mode_tool_reference("view_image");
    assert_eq!(r.module_file, "tools.js");
    assert!(r.namespace.is_empty());
    assert_eq!(r.tool_key, "view_image");
}

#[test]
fn normalize_code_mode_identifier_replaces_invalid_characters() {
    assert_eq!(normalize_code_mode_identifier("echo"), "echo");
    assert_eq!(normalize_code_mode_identifier("read-file"), "read_file");
    assert_eq!(normalize_code_mode_identifier("9lives"), "_lives");
    assert_eq!(normalize_code_mode_identifier("a9$_"), "a9$_");
    assert_eq!(normalize_code_mode_identifier("héllo"), "h_llo");
    assert_eq!(normalize_code_mode_identifier(""), "_");
    assert_eq!(normalize_code_mode_identifier("."), "_");
}

#[test]
fn append_code_mode_sample_declares_the_tool() {
    let out = append_code_mode_sample(
        "Echo.",
        "mcp__sample__echo-it",
        "args",
        "{ text: string }".to_string(),
        "unknown".to_string(),
    );
    assert_eq!(
        out,
        "Echo.\n\nCode mode declaration:\n```ts\nimport { echo_it } from \"tools/mcp/sample.js\";\ndeclare function echo_it(args: { text: string }): Promise<unknown>;\n```"
    );
}

#[test]
fn augment_leaves_exec_and_disabled_mode_alone() {
    let exec = freeform_tool("exec", "Runs JavaScript.");
    assert_eq!(augment_tool_spec_for_code_mode(clone_tool_spec(&exec), true), exec);
    let plain = function_tool("read_file", "Reads a file.");
    assert_eq!(augment_tool_spec_for_code_mode(clone_tool_spec(&plain), false), plain);
    assert_eq!(augment_tool_spec_for_code_mode(ToolSpec::LocalShell, true), ToolSpec::LocalShell);
}

#[test]
fn augment_declares_function_and_freeform_tools() {
    let f = augment_tool_spec_for_code_mode(function_tool("read_file", "Reads a file."), true);
    assert_eq!(
        description_of(&f),
        "Reads a file.\n\nCode mode declaration:\n```ts\nimport { read_file } from \"tools.js\";\ndeclare function read_file(args: {\n  path: string;\n}): Promise<unknown>;\n```"
    );
    let g = augment_tool_spec_for_code_mode(freeform_tool("apply_patch", "Apply a patch."), true);
    assert_eq!(
        description_of(&g),
        "Apply a patch.\n\nCode mode declaration:\n```ts\nimport { apply_patch } from \"tools.js\";\ndeclare function apply_patch(input: string): Promise<unknown>;\n```"
    );
}

#[test]
fn render_typescript_for_keywords_and_combinators() {
    assert_eq!(render_json_schema_to_typescript(&JsonValue::Bool(true)), "unknown");
    assert_eq!(render_json_schema_to_typescript(&JsonValue::Bool(false)), "never");
    assert_eq!(render_json_schema_to_typescript(&num("3")), "unknown");
    assert_eq!(render_json_schema_to_typescript(&obj(vec![("type", s("string"))])), "string");
    assert_eq!(render_json_schema_to_typescript(&obj(vec![("type", s("integer"))])), "number");
    assert_eq!(render_json_schema_to_typescript(&obj(vec![("type", s("boolean"))])), "boolean");
    assert_eq!(render_json_schema_to_typescript(&obj(vec![("type", s("null"))])), "null");
    assert_eq!(render_json_schema_to_typescript(&obj(vec![("type", s("weird"))])), "unknown");
    assert_eq!(
        render_json_schema_to_typescript(&obj(vec![("type", JsonValue::Array(vec![s("string"), num("1"), s("null")]))])),
        "string | null"
    );
    assert_eq!(render_json_schema_to_typescript(&obj(vec![("const", s("a\"b"))])), "\"a\\\"b\"");
    assert_eq!(
        render_json_schema_to_typescript(&obj(vec![("enum", JsonValue::Array(vec![s("x"), num("2"), JsonValue::Null]))])),
        "\"x\" | 2 | null"
    );
    assert_eq!(
        render_json_schema_to_typescript(&obj(vec![(
            "anyOf",
            JsonValue::Array(vec![obj(vec![("type", s("string"))]), obj(vec![("type", s("number"))])])
        )])),
        "string | number"
    );
    assert_eq!(
        render_json_schema_to_typescript(&obj(vec![(
            "allOf",
            JsonValue::Array(vec![obj(vec![("type", s("string"))]), JsonValue::Bool(true)])
        )])),
        "string & unknown"
    );
    assert_eq!(render_json_schema_to_typescript(&obj(vec![])), "unknown");
}

#[test]
fn render_typescript_for_arrays() {
    assert_eq!(
        render_json_schema_to_typescript(&obj(vec![("type", s("array")), ("items", obj(vec![("type", s("string"))]))])),
        "Array<string>"
    );
    assert_eq!(
        render_json_schema_to_typescript(&obj(vec![(
            "prefixItems",
            JsonValue::Array(vec![obj(vec![("type", s("string"))]), obj(vec![("type", s("number"))])])
        )])),
        "[string, number]"
    );
    assert_eq!(render_json_schema_to_typescript(&obj(vec![("type", s("array"))])), "unknown[]");
}

#[test]
fn render_typescript_for_objects() {
    let schema = obj(vec![
        ("type", s("object")),
        (
            "properties",
            obj(vec![
                ("zeta", obj(vec![("type", s("number"))])),
                ("alpha", obj(vec![("type", s("string"))])),
                ("needs-quote", obj(vec![("type", s("boolean"))])),
            ]),
        ),
        ("required", JsonValue::Array(vec![s("zeta")])),
        ("additionalProperties", JsonValue::Bool(false)),
    ]);
    assert_eq!(
        render_json_schema_to_typescript(&schema),
        "{\n  alpha?: string;\n  \"needs-quote\"?: boolean;\n  zeta: number;\n}"
    );
    assert_eq!(render_json_schema_to_typescript(&obj(vec![("type", s("object"))])), "{\n  [key: string]: unknown;\n}");
    assert_eq!(
        render_json_schema_to_typescript(&obj(vec![("type", s("object")), ("additionalProperties", JsonValue::Bool(false))])),
        "{}"
    );
    assert_eq!(
        render_json_schema_to_typescript(&obj(vec![
            ("properties", obj(vec![("inner", obj(vec![("type", s("object")), ("properties", obj(vec![("x", obj(vec![("type", s("string"))]))]))]))])),
            ("additionalProperties", obj(vec![("type", s("number"))])),
        ])),
        "{\n  inner?: {\n    x?: string;\n  };\n  [key: string]: number;\n}"
    );
}

#[test]
fn json_literal_text_writes_compact_json() {
    let v = obj(vec![
        ("b", JsonValue::Array(vec![num("1"), JsonValue::Bool(false), JsonValue::Null])),
        ("a", s("line\nbreak")),
    ]);
    assert_eq!(json_literal_text(&v), "{\"a\":\"line\\nbreak\",\"b\":[1,false,null]}");
    let nested = obj(vec![("z", obj(vec![("y", num("2")), ("x", num("1"))])), ("Z", JsonValue::Bool(true))]);
    assert_eq!(json_literal_text(&nested), "{\"Z\":true,\"z\":{\"x\":1,\"y\":2}}");
    assert_eq!(json_literal_text(&obj(vec![])), "{}");
    assert_eq!(json_literal_text(&JsonValue::Array(vec![])), "[]");
}

#[test]
fn enabled_tools_skip_code_mode_tools_and_sort_by_name() {
    let specs = vec![
        function_tool("read_file", "Reads."),
        freeform_tool("exec", "Runs."),
        function_tool("exec_wait", "Waits."),
        function_tool("mcp__sample__echo", "Echoes."),
        ToolSpec::LocalShell,
        freeform_tool("apply_patch", "Patches."),
        function_tool("read_file", "Reads again."),
    ];
    let tools = enabled_tools_from_specs(&specs);
    let names: Vec<&str> = tools.iter().map(|t| t.tool_name.as_str()).collect();
    assert_eq!(names, vec!["apply_patch", "mcp__sample__echo", "read_file"]);
    assert_eq!(tools[1].global_name, "mcp__sample__echo");
    assert_eq!(tools[1].module_file, "tools/mcp/sample.js");
    assert_eq!(tools[1].namespace, vec!["mcp".to_string(), "sample".to_string()]);
    assert_eq!(tools[1].name, "echo");
    assert_eq!(tools[0].kind, CodeModeToolKind::Freeform);
    assert_eq!(tools[2].kind, CodeModeToolKind::Function);
    assert_eq!(
        tools[2].description,
        "Reads.\n\nCode mode declaration:\n```ts\nimport { read_file } from \"tools.js\";\ndeclare function read_file(args: {\n  path: string;\n}): Promise<unknown>;\n```"
    );

    assert!(enabled_tool_from_spec(freeform_tool("exec", "Runs.")).is_none());
    assert!(enabled_tool_from_spec(ToolSpec::LocalShell).is_none());
    let e = enabled_tool_from_spec(function_tool("view-image", "Views.")).unwrap();
    assert_eq!(e.global_name, "view_image");
    assert_eq!(e.module_file, "tools.js");
}

#[test]
fn tool_kinds_and_payloads() {
    let specs = vec![function_tool("read_file", "Reads."), freeform_tool("apply_patch", "Patches.")];
    assert_eq!(tool_kind_for_spec(&specs[1]), CodeModeToolKind::Freeform);
    assert_eq!(tool_kind_for_spec(&ToolSpec::LocalShell), CodeModeToolKind::Function);
    assert_eq!(tool_kind_for_name(&specs, "read_file"), Ok(CodeModeToolKind::Function));
    assert_eq!(tool_kind_for_name(&specs, "apply_patch"), Ok(CodeModeToolKind::Freeform));
    let missing = tool_kind_for_name(&specs, "nope").unwrap_err();
    assert!(missing.contains("nope"), "{missing}");

    assert_eq!(serialize_function_tool_arguments("t", None), Ok("{}".to_string()));
    assert_eq!(
        serialize_function_tool_arguments("t", Some(obj(vec![("path", s("a.txt"))]))),
        Ok("{\"path\":\"a.txt\"}".to_string())
    );
    assert_eq!(
        serialize_function_tool_arguments("t", Some(s("x"))),
        Err("tool `t` expects a JSON object for arguments".to_string())
    );
    assert_eq!(
        build_function_tool_payload("t", Some(obj(vec![]))),
        Ok(ToolPayload::Function { arguments: "{}".to_string() })
    );
    assert_eq!(
        build_freeform_tool_payload("p", Some(s("*** Begin Patch"))),
        Ok(ToolPayload::Custom { input: "*** Begin Patch".to_string() })
    );
    assert_eq!(build_freeform_tool_payload("p", None), Err("tool `p` expects a string input".to_string()));
    assert_eq!(
        build_freeform_tool_payload("p", Some(num("1"))),
        Err("tool `p` expects a string input".to_string())
    );
    assert_eq!(
        build_nested_tool_payload(&specs, "apply_patch", Some(s("x"))),
        Ok(ToolPayload::Custom { input: "x".to_string() })
    );
    assert_eq!(
        build_nested_tool_payload(&specs, "read_file", None),
        Ok(ToolPayload::Function { arguments: "{}".to_string() })
    );
    assert!(build_nested_tool_payload(&specs, "nope", None).is_err());
}

#[test]
fn execute_handler_takes_raw_source_for_exec_only() {
    let h = CodeModeExecuteHandler;
    assert_eq!(h.kind(), ToolKind::Function);
    assert!(h.matches_kind(&ToolPayload::Custom { input: "1".to_string() }));
    assert!(!h.matches_kind(&ToolPayload::Function { arguments: "{}".to_string() }));
    assert_eq!(
        h.script_for_call("exec", ToolPayload::Custom { input: "text('hi')".to_string() }),
        Ok("text('hi')".to_string())
    );
    assert_eq!(
        h.script_for_call("other", ToolPayload::Custom { input: "x".to_string() }),
        Err("exec expects raw JavaScript source text".to_string())
    );
    assert_eq!(
        h.script_for_call("exec", ToolPayload::Function { arguments: "{}".to_string() }),
        Err("exec expects raw JavaScript source text".to_string())
    );
}

#[test]
fn wait_handler_reads_arguments_and_chooses_action() {
    let h = CodeModeWaitHandler;
    assert_eq!(h.kind(), ToolKind::Function);
    let p = ToolPayload::Function { arguments: "{\"cell_id\":\"1\"}".to_string() };
    assert_eq!(h.arguments_for_call("exec_wait", &p), Ok("{\"cell_id\":\"1\"}"));
    assert_eq!(h.arguments_for_call("exec", &p), Err("exec_wait expects JSON arguments".to_string()));
    assert_eq!(
        h.arguments_for_call("exec_wait", &ToolPayload::Custom { input: "x".to_string() }),
        Err("exec_wait expects JSON arguments".to_string())
    );
    let args = ExecWaitArgs { cell_id: "3".to_string(), yield_time_ms: 500, max_tokens: None, terminate: false };
    assert_eq!(h.action_for(&args), WaitAction::Poll { cell_id: "3".to_string(), yield_time_ms: 500 });
    let args = ExecWaitArgs { cell_id: "3".to_string(), yield_time_ms: 500, max_tokens: Some(9), terminate: true };
    assert_eq!(h.action_for(&args), WaitAction::Terminate { cell_id: "3".to_string() });
}

#[test]
fn parse_exec_wait_args_defaults_and_errors() {
    assert_eq!(default_wait_yield_time_ms(), 10_000);
    assert_eq!(
        parse_exec_wait_args(&obj(vec![("cell_id", s("7"))])),
        Ok(ExecWaitArgs { cell_id: "7".to_string(), yield_time_ms: 10_000, max_tokens: None, terminate: false })
    );
    assert_eq!(
        parse_exec_wait_args(&obj(vec![
            ("cell_id", s("7")),
            ("yield_time_ms", num("250")),
            ("max_tokens", num("100")),
            ("terminate", JsonValue::Bool(true)),
            ("extra", s("ignored")),
        ])),
        Ok(ExecWaitArgs { cell_id: "7".to_string(), yield_time_ms: 250, max_tokens: Some(100), terminate: true })
    );
    assert_eq!(
        parse_exec_wait_args(&obj(vec![("cell_id", s("7")), ("max_tokens", JsonValue::Null)])).unwrap().max_tokens,
        None
    );
    assert_eq!(
        parse_exec_wait_args(&obj(vec![])),
        Err("failed to parse function arguments: missing field `cell_id`".to_string())
    );
    assert_eq!(
        parse_exec_wait_args(&obj(vec![("cell_id", num("7"))])),
        Err("failed to parse function arguments: invalid type for `cell_id`".to_string())
    );
    assert_eq!(
        parse_exec_wait_args(&obj(vec![("cell_id", s("7")), ("yield_time_ms", num("-1"))])),
        Err("failed to parse function arguments: invalid type for `yield_time_ms`".to_string())
    );
    assert_eq!(
        parse_exec_wait_args(&obj(vec![("cell_id", s("7")), ("max_tokens", s("x"))])),
        Err("failed to parse function arguments: invalid type for `max_tokens`".to_string())
    );
    assert_eq!(
        parse_exec_wait_args(&obj(vec![("cell_id", s("7")), ("terminate", s("yes"))])),
        Err("failed to parse function arguments: invalid type for `terminate`".to_string())
    );
    assert_eq!(
        parse_exec_wait_args(&JsonValue::Array(vec![])),
        Err("failed to parse function arguments: expected an object".to_string())
    );
}

#[test]
fn parse_u64_reads_digit_runs_that_fit() {
    assert_eq!(parse_u64("0"), Some(0));
    assert_eq!(parse_u64("18446744073709551615"), Some(u64::MAX));
    assert_eq!(parse_u64("18446744073709551616"), None);
    assert_eq!(parse_u64(""), None);
    assert_eq!(parse_u64("1.5"), None);
    assert_eq!(parse_u64("-3"), None);
}

#[test]
fn cell_ids_count_up_from_one() {
    let mut ids = CodeModeCellIds::new();
    assert_eq!(ids.allocate_cell_id(), "1");
    assert_eq!(ids.allocate_cell_id(), "2");
    assert_eq!(ids.allocate_cell_id(), "3");
}

#[test]
fn request_ids_are_hyphenated_uuids() {
    let a = allocate_request_id();
    let b = allocate_request_id();
    assert_eq!(a.len(), 36);
    assert_eq!(a.matches('-').count(), 4);
    assert_ne!(a, b);
}

use codex_tools::code_mode_session::{
    nested_call_payload, node_message_outcome, script_status_text, ExecutionStatus, NodeMessage, NodeOutcome,
};

#[test]
fn nested_calls_choose_payload_by_target() {
    let specs = vec![function_tool("read_file", "Reads."), freeform_tool("apply_patch", "Patches.")];
    assert_eq!(nested_call_payload(&specs, "exec", None, None), Err("exec cannot invoke itself".to_string()));
    assert_eq!(
        nested_call_payload(
            &specs,
            "mcp__sample__echo",
            Some(("sample".to_string(), "echo".to_string())),
            Some(obj(vec![("text", s("hi"))]))
        ),
        Ok(ToolPayload::Mcp {
            server: "sample".to_string(),
            tool: "echo".to_string(),
            raw_arguments: "{\"text\":\"hi\"}".to_string()
        })
    );
    assert_eq!(
        nested_call_payload(&specs, "mcp__sample__echo", Some(("sample".to_string(), "echo".to_string())), Some(s("x"))),
        Err("tool `mcp__sample__echo` expects a JSON object for arguments".to_string())
    );
    assert_eq!(
        nested_call_payload(&specs, "apply_patch", None, Some(s("patch"))),
        Ok(ToolPayload::Custom { input: "patch".to_string() })
    );
    assert_eq!(
        nested_call_payload(&specs, "read_file", None, None),
        Ok(ToolPayload::Function { arguments: "{}".to_string() })
    );
    assert_eq!(
        nested_call_payload(&specs, "missing", None, None),
        Err("tool `missing` is not enabled in exec".to_string())
    );
}

#[test]
fn node_messages_decide_the_outcome() {
    assert_eq!(node_message_outcome("1".to_string(), NodeMessage::ToolCall, None), None);
    assert_eq!(
        node_message_outcome("4".to_string(), NodeMessage::Yielded, Some(Some(50))),
        Some(NodeOutcome {
            status: ExecutionStatus::Running("4".to_string()),
            finished: false,
            success: true,
            error_item: None,
            max_output_tokens: Some(50),
        })
    );
    assert_eq!(
        node_message_outcome("4".to_string(), NodeMessage::Terminated, None),
        Some(NodeOutcome {
            status: ExecutionStatus::Terminated,
            finished: true,
            success: true,
            error_item: None,
            max_output_tokens: None,
        })
    );
    assert_eq!(
        node_message_outcome(
            "4".to_string(),
            NodeMessage::Result { error_text: Some("boom".to_string()), max_output_tokens_per_exec_call: Some(9) },
            None
        ),
        Some(NodeOutcome {
            status: ExecutionStatus::Failed,
            finished: true,
            success: false,
            error_item: Some("Script error:\nboom".to_string()),
            max_output_tokens: Some(9),
        })
    );
    assert_eq!(
        node_message_outcome(
            "4".to_string(),
            NodeMessage::Result { error_text: None, max_output_tokens_per_exec_call: Some(9) },
            Some(None)
        ),
        Some(NodeOutcome {
            status: ExecutionStatus::Completed,
            finished: true,
            success: true,
            error_item: None,
            max_output_tokens: None,
        })
    );
}

#[test]
fn script_status_headers() {
    assert_eq!(
        script_status_text(&ExecutionStatus::Completed, 12),
        "Script completed\nWall time 1.2 seconds\nOutput:\n"
    );
    assert_eq!(
        script_status_text(&ExecutionStatus::Running("7".to_string()), 0),
        "Script running with cell ID 7\nWall time 0.0 seconds\nOutput:\n"
    );
    assert_eq!(script_status_text(&ExecutionStatus::Failed, 105), "Script failed\nWall time 10.5 seconds\nOutput:\n");
    assert_eq!(
        script_status_text(&ExecutionStatus::Terminated, 3),
        "Script terminated\nWall time 0.3 seconds\nOutput:\n"
    );
}

#[test]
fn request_ids_have_the_uuid_v4_form() {
    let id = allocate_request_id();
    for (i, c) in id.chars().enumerate() {
        if [8, 13, 18, 23].contains(&i) {
            assert_eq!(c, '-');
        } else {
            assert!(c.is_ascii_digit() || ('a'..='f').contains(&c), "{id}");
        }
    }
    assert_eq!(id.chars().nth(14), Some('4'));
    assert!(matches!(id.chars().nth(19), Some('8' | '9' | 'a' | 'b')), "{id}");
}

#[test]
fn json_strings_are_escaped_as_serde_json_writes_them() {
    assert_eq!(json_literal_text(&s("a\"b\\c")), "\"a\\\"b\\\\c\"");
    assert_eq!(json_literal_text(&s("\u{8}\t\n\u{c}\r")), "\"\\b\\t\\n\\f\\r\"");
    assert_eq!(json_literal_text(&s("\u{1}\u{1f}")), "\"\\u0001\\u001f\"");
    assert_eq!(json_literal_text(&s("é/😀")), "\"é/😀\"");
}
