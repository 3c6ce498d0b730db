use vstd::prelude::*;

use crate::builders::{
    any_object_schema, arr_schema, bool_schema, closed_schema, function_tool, function_view, j_str,
    j_typed, json_object, json_str, json_typed, names1, names2, names3, names4, no_props, num_schema,
    plain_str_schema, push_member, put, s_any_object, s_arr, s_bool, s_closed, s_num, s_plain_str, s_str,
    s_str_list, set_prop, str_list_schema, str_schema,
};
use crate::json::{members_view, Json, JsonValue};
use crate::schema::{
    lemma_props_get_insert, lemma_props_keys_get, props_get, props_insert, props_keys, strs, JsonSchema,
    Properties, Schema,
};
use crate::text::owned;
use crate::texts;
use crate::tool::Tool;

verus! {

/// What inserting every entry of `qs`, in order, makes of `ps`.
pub open spec fn props_extend(
    ps: Seq<(Seq<char>, Schema)>,
    qs: Seq<(Seq<char>, Schema)>,
) -> Seq<(Seq<char>, Schema)>
    decreases qs.len(),
{
    if qs.len() == 0 {
        ps
    } else {
        props_extend(props_insert(ps, qs[0].0, qs[0].1), qs.drop_first())
    }
}

/// Inserts every entry of `other` into `p`.
pub fn extend(p: &mut Properties, other: Properties)
    ensures
        final(p)@ == props_extend(old(p)@, other@),
{
    let mut rest = other;
    while rest.entries.len() > 0
        invariant
            props_extend(p@, rest@) == props_extend(old(p)@, other@),
        decreases rest.entries.len(),
    {
        let ghost before = rest@;
        let (k, v) = rest.entries.remove(0);
        assert(rest@ =~= before.drop_first());
        p.insert(k, v);
    }
    assert(rest@ =~= Seq::<(Seq<char>, Schema)>::empty());
}

pub open spec fn network_permissions_view() -> Schema {
    s_closed(put(no_props(), "enabled", s_bool(texts::D_ENABLED_NETWORK)), None)
}

pub fn create_network_permissions_schema() -> (r: JsonSchema)
    ensures
        r@ == network_permissions_view(),
{
    let mut p = Properties::new();
    set_prop(&mut p, "enabled", bool_schema(texts::D_ENABLED_NETWORK));
    closed_schema(p, None)
}

pub open spec fn file_system_permissions_view() -> Schema {
    let p = put(no_props(), "read", s_str_list(texts::D_READ_PATHS));
    let p = put(p, "write", s_str_list(texts::D_WRITE_PATHS));
    s_closed(p, None)
}

pub fn create_file_system_permissions_schema() -> (r: JsonSchema)
    ensures
        r@ == file_system_permissions_view(),
{
    let mut p = Properties::new();
    set_prop(&mut p, "read", str_list_schema(texts::D_READ_PATHS));
    set_prop(&mut p, "write", str_list_schema(texts::D_WRITE_PATHS));
    closed_schema(p, None)
}

pub open spec fn macos_permissions_view() -> Schema {
    let p = put(no_props(), "preferences", s_str(texts::D_MACOS_PREFERENCES));
    let p = put(p, "automations", s_str_list(texts::D_MACOS_AUTOMATIONS));
    let p = put(p, "accessibility", s_bool(texts::D_MACOS_ACCESSIBILITY));
    let p = put(p, "calendar", s_bool(texts::D_MACOS_CALENDAR));
    s_closed(p, None)
}

pub fn create_macos_permissions_schema() -> (r: JsonSchema)
    ensures
        r@ == macos_permissions_view(),
{
    let mut p = Properties::new();
    set_prop(&mut p, "preferences", str_schema(texts::D_MACOS_PREFERENCES));
    set_prop(&mut p, "automations", str_list_schema(texts::D_MACOS_AUTOMATIONS));
    set_prop(&mut p, "accessibility", bool_schema(texts::D_MACOS_ACCESSIBILITY));
    set_prop(&mut p, "calendar", bool_schema(texts::D_MACOS_CALENDAR));
    closed_schema(p, None)
}

pub open spec fn permissions_view() -> Schema {
    let p = put(no_props(), "network", network_permissions_view());
    let p = put(p, "file_system", file_system_permissions_view());
    let p = put(p, "macos", macos_permissions_view());
    s_closed(p, None)
}

/// The permissions a command may ask for: network, file system and macOS access.
pub fn create_permissions_schema() -> (r: JsonSchema)
    ensures
        r@ == permissions_view(),
{
    let mut p = Properties::new();
    set_prop(&mut p, "network", create_network_permissions_schema());
    set_prop(&mut p, "file_system", create_file_system_permissions_schema());
    set_prop(&mut p, "macos", create_macos_permissions_schema());
    closed_schema(p, None)
}

pub open spec fn approval_parameters_view(request_permission_enabled: bool) -> Seq<(Seq<char>, Schema)> {
    let p = put(
        no_props(),
        "sandbox_permissions",
        s_str(
            if request_permission_enabled {
                texts::D_SANDBOX_PERMISSIONS_EXTENDED
            } else {
                texts::D_SANDBOX_PERMISSIONS
            },
        ),
    );
    let p = put(p, "justification", s_str(texts::D_JUSTIFICATION));
    let p = put(p, "prefix_rule", s_str_list(texts::D_PREFIX_RULE));
    if request_permission_enabled {
        put(p, "additional_permissions", permissions_view())
    } else {
        p
    }
}

/// The parameters by which a command asks to leave the sandbox.
pub fn create_approval_parameters(request_permission_enabled: bool) -> (r: Properties)
    ensures
        r@ == approval_parameters_view(request_permission_enabled),
{
    let mut p = Properties::new();
    let d = if request_permission_enabled {
        texts::D_SANDBOX_PERMISSIONS_EXTENDED
    } else {
        texts::D_SANDBOX_PERMISSIONS
    };
    set_prop(&mut p, "sandbox_permissions", str_schema(d));
    set_prop(&mut p, "justification", str_schema(texts::D_JUSTIFICATION));
    set_prop(&mut p, "prefix_rule", str_list_schema(texts::D_PREFIX_RULE));
    if request_permission_enabled {
        set_prop(&mut p, "additional_permissions", create_permissions_schema());
    }
    p
}

pub open spec fn unified_exec_output_view() -> Json {
    let props = seq![
        ("chunk_id"@, j_typed(texts::T_STRING, texts::D_CHUNK_ID)),
        ("wall_time_seconds"@, j_typed(texts::T_NUMBER, texts::D_WALL_TIME)),
        ("exit_code"@, j_typed(texts::T_NUMBER, texts::D_EXIT_CODE)),
        ("session_id"@, j_typed(texts::T_NUMBER, texts::D_OUT_SESSION_ID)),
        ("original_token_count"@, j_typed(texts::T_NUMBER, texts::D_ORIGINAL_TOKEN_COUNT)),
        ("output"@, j_typed(texts::T_STRING, texts::D_OUTPUT)),
    ];
    Json::Object(
        seq![
            (texts::K_TYPE@, j_str(texts::T_OBJECT)),
            (texts::K_PROPERTIES@, Json::Object(props)),
            (texts::K_REQUIRED@, Json::Array(seq![j_str("wall_time_seconds"), j_str("output")])),
            (texts::K_ADDITIONAL_PROPERTIES@, Json::Bool(false)),
        ],
    )
}

/// The shape of what unified exec returns.
pub fn unified_exec_output_schema() -> (r: JsonValue)
    ensures
        r@ == unified_exec_output_view(),
{
    let mut props: Vec<(String, JsonValue)> = Vec::new();
    push_member(&mut props, "chunk_id", json_typed(texts::T_STRING, texts::D_CHUNK_ID));
    push_member(&mut props, "wall_time_seconds", json_typed(texts::T_NUMBER, texts::D_WALL_TIME));
    push_member(&mut props, "exit_code", json_typed(texts::T_NUMBER, texts::D_EXIT_CODE));
    push_member(&mut props, "session_id", json_typed(texts::T_NUMBER, texts::D_OUT_SESSION_ID));
    push_member(&mut props, "original_token_count", json_typed(texts::T_NUMBER, texts::D_ORIGINAL_TOKEN_COUNT));
    push_member(&mut props, "output", json_typed(texts::T_STRING, texts::D_OUTPUT));
    let ghost pv = members_view(props@);
    let mut required: Vec<JsonValue> = Vec::new();
    required.push(json_str("wall_time_seconds"));
    required.push(json_str("output"));
    proof {
        crate::json::lemma_array_view(required);
        assert(required@.map_values(|x: JsonValue| x@) =~= seq![j_str("wall_time_seconds"), j_str("output")]);
    }
    let mut ms: Vec<(String, JsonValue)> = Vec::new();
    push_member(&mut ms, texts::K_TYPE, json_str(texts::T_OBJECT));
    push_member(&mut ms, texts::K_PROPERTIES, json_object(props));
    push_member(&mut ms, texts::K_REQUIRED, JsonValue::Array(required));
    push_member(&mut ms, texts::K_ADDITIONAL_PROPERTIES, JsonValue::Bool(false));
    assert(pv =~= seq![
        ("chunk_id"@, j_typed(texts::T_STRING, texts::D_CHUNK_ID)),
        ("wall_time_seconds"@, j_typed(texts::T_NUMBER, texts::D_WALL_TIME)),
        ("exit_code"@, j_typed(texts::T_NUMBER, texts::D_EXIT_CODE)),
        ("session_id"@, j_typed(texts::T_NUMBER, texts::D_OUT_SESSION_ID)),
        ("original_token_count"@, j_typed(texts::T_NUMBER, texts::D_ORIGINAL_TOKEN_COUNT)),
        ("output"@, j_typed(texts::T_STRING, texts::D_OUTPUT)),
    ]);
    let r = json_object(ms);
    assert(members_view(ms@) =~= seq![
        (texts::K_TYPE@, j_str(texts::T_OBJECT)),
        (texts::K_PROPERTIES@, Json::Object(pv)),
        (texts::K_REQUIRED@, Json::Array(seq![j_str("wall_time_seconds"), j_str("output")])),
        (texts::K_ADDITIONAL_PROPERTIES@, Json::Bool(false)),
    ]);
    r
}

/// The parameters of the unified exec tool.
pub open spec fn exec_command_properties_view(
    allow_login_shell: bool,
    request_permission_enabled: bool,
) -> Seq<(Seq<char>, Schema)> {
    let p = put(no_props(), "cmd", s_str(texts::D_CMD));
    let p = put(p, "workdir", s_str(texts::D_EXEC_WORKDIR));
    let p = put(p, "shell", s_str(texts::D_SHELL_BINARY));
    let p = put(p, "tty", s_bool(texts::D_TTY));
    let p = put(p, "yield_time_ms", s_num(texts::D_YIELD_TIME));
    let p = put(p, "max_output_tokens", s_num(texts::D_MAX_OUTPUT_TOKENS));
    let p = if allow_login_shell {
        put(p, "login", s_bool(texts::D_EXEC_LOGIN))
    } else {
        p
    };
    props_extend(p, approval_parameters_view(request_permission_enabled))
}

pub open spec fn exec_command_tool_view(allow_login_shell: bool, request_permission_enabled: bool) -> Tool {
    function_view(
        texts::EXEC_COMMAND_NAME@,
        texts::EXEC_COMMAND_DESCRIPTION@,
        s_closed(
            exec_command_properties_view(allow_login_shell, request_permission_enabled),
            Some(seq!["cmd"@]),
        ),
        Some(unified_exec_output_view()),
    )
}

/// The unified exec tool that starts a command.
pub fn create_exec_command_tool(allow_login_shell: bool, request_permission_enabled: bool) -> (r: crate::tool::ToolSpec)
    ensures
        r@ == exec_command_tool_view(allow_login_shell, request_permission_enabled),
{
    let mut p = Properties::new();
    set_prop(&mut p, "cmd", str_schema(texts::D_CMD));
    set_prop(&mut p, "workdir", str_schema(texts::D_EXEC_WORKDIR));
    set_prop(&mut p, "shell", str_schema(texts::D_SHELL_BINARY));
    set_prop(&mut p, "tty", bool_schema(texts::D_TTY));
    set_prop(&mut p, "yield_time_ms", num_schema(texts::D_YIELD_TIME));
    set_prop(&mut p, "max_output_tokens", num_schema(texts::D_MAX_OUTPUT_TOKENS));
    if allow_login_shell {
        set_prop(&mut p, "login", bool_schema(texts::D_EXEC_LOGIN));
    }
    extend(&mut p, create_approval_parameters(request_permission_enabled));
    function_tool(
        texts::EXEC_COMMAND_NAME,
        owned(texts::EXEC_COMMAND_DESCRIPTION),
        closed_schema(p, Some(names1("cmd"))),
        Some(unified_exec_output_schema()),
    )
}

pub open spec fn write_stdin_tool_view() -> Tool {
    let p = put(no_props(), "session_id", s_num(texts::D_SESSION_ID));
    let p = put(p, "chars", s_str(texts::D_CHARS));
    let p = put(p, "yield_time_ms", s_num(texts::D_YIELD_TIME));
    let p = put(p, "max_output_tokens", s_num(texts::D_MAX_OUTPUT_TOKENS));
    function_view(
        texts::WRITE_STDIN_NAME@,
        texts::WRITE_STDIN_DESCRIPTION@,
        s_closed(p, Some(seq!["session_id"@])),
        Some(unified_exec_output_view()),
    )
}

/// The unified exec tool that writes to a running session.
pub fn create_write_stdin_tool() -> (r: crate::tool::ToolSpec)
    ensures
        r@ == write_stdin_tool_view(),
{
    let mut p = Properties::new();
    set_prop(&mut p, "session_id", num_schema(texts::D_SESSION_ID));
    set_prop(&mut p, "chars", str_schema(texts::D_CHARS));
    set_prop(&mut p, "yield_time_ms", num_schema(texts::D_YIELD_TIME));
    set_prop(&mut p, "max_output_tokens", num_schema(texts::D_MAX_OUTPUT_TOKENS));
    function_tool(
        texts::WRITE_STDIN_NAME,
        owned(texts::WRITE_STDIN_DESCRIPTION),
        closed_schema(p, Some(names1("session_id"))),
        Some(unified_exec_output_schema()),
    )
}

pub open spec fn shell_tool_view(request_permission_enabled: bool, windows_host: bool) -> Tool {
    let p = put(no_props(), "command", s_str_list(texts::D_SHELL_COMMAND_ARRAY));
    let p = put(p, "workdir", s_str(texts::D_WORKDIR));
    let p = put(p, "timeout_ms", s_num(texts::D_TIMEOUT_MS));
    let p = props_extend(p, approval_parameters_view(request_permission_enabled));
    function_view(
        texts::SHELL_NAME@,
        if windows_host {
            texts::SHELL_DESCRIPTION_WINDOWS@
        } else {
            texts::SHELL_DESCRIPTION@
        },
        s_closed(p, Some(seq!["command"@])),
        None,
    )
}

/// The classic shell tool, which takes an argument vector.
pub fn create_shell_tool(request_permission_enabled: bool, windows_host: bool) -> (r: crate::tool::ToolSpec)
    ensures
        r@ == shell_tool_view(request_permission_enabled, windows_host),
{
    let mut p = Properties::new();
    set_prop(&mut p, "command", str_list_schema(texts::D_SHELL_COMMAND_ARRAY));
    set_prop(&mut p, "workdir", str_schema(texts::D_WORKDIR));
    set_prop(&mut p, "timeout_ms", num_schema(texts::D_TIMEOUT_MS));
    extend(&mut p, create_approval_parameters(request_permission_enabled));
    let description = if windows_host {
        owned(texts::SHELL_DESCRIPTION_WINDOWS)
    } else {
        owned(texts::SHELL_DESCRIPTION)
    };
    function_tool(texts::SHELL_NAME, description, closed_schema(p, Some(names1("command"))), None)
}

pub open spec fn shell_command_tool_view(
    allow_login_shell: bool,
    request_permission_enabled: bool,
    windows_host: bool,
) -> Tool {
    let p = put(no_props(), "command", s_str(texts::D_SHELL_SCRIPT));
    let p = put(p, "workdir", s_str(texts::D_WORKDIR));
    let p = put(p, "timeout_ms", s_num(texts::D_TIMEOUT_MS));
    let p = if allow_login_shell {
        put(p, "login", s_bool(texts::D_SHELL_COMMAND_LOGIN))
    } else {
        p
    };
    let p = props_extend(p, approval_parameters_view(request_permission_enabled));
    function_view(
        texts::SHELL_COMMAND_NAME@,
        if windows_host {
            texts::SHELL_COMMAND_DESCRIPTION_WINDOWS@
        } else {
            texts::SHELL_COMMAND_DESCRIPTION@
        },
        s_closed(p, Some(seq!["command"@])),
        None,
    )
}

/// The shell tool that takes a script for the user's default shell.
pub fn create_shell_command_tool(
    allow_login_shell: bool,
    request_permission_enabled: bool,
    windows_host: bool,
) -> (r: crate::tool::ToolSpec)
    ensures
        r@ == shell_command_tool_view(allow_login_shell, request_permission_enabled, windows_host),
{
    let mut p = Properties::new();
    set_prop(&mut p, "command", str_schema(texts::D_SHELL_SCRIPT));
    set_prop(&mut p, "workdir", str_schema(texts::D_WORKDIR));
    set_prop(&mut p, "timeout_ms", num_schema(texts::D_TIMEOUT_MS));
    if allow_login_shell {
        set_prop(&mut p, "login", bool_schema(texts::D_SHELL_COMMAND_LOGIN));
    }
    extend(&mut p, create_approval_parameters(request_permission_enabled));
    let description = if windows_host {
        owned(texts::SHELL_COMMAND_DESCRIPTION_WINDOWS)
    } else {
        owned(texts::SHELL_COMMAND_DESCRIPTION)
    };
    function_tool(texts::SHELL_COMMAND_NAME, description, closed_schema(p, Some(names1("command"))), None)
}

pub open spec fn view_image_tool_view(can_request_original_image_detail: bool) -> Tool {
    let p = put(no_props(), "path", s_str(texts::D_IMAGE_PATH));
    let p = if can_request_original_image_detail {
        put(p, "detail", s_str(texts::D_IMAGE_DETAIL))
    } else {
        p
    };
    function_view(texts::VIEW_IMAGE_NAME@, texts::VIEW_IMAGE_DESCRIPTION@, s_closed(p, Some(seq!["path"@])), None)
}

/// The tool that shows the model a local image.
pub fn create_view_image_tool(can_request_original_image_detail: bool) -> (r: crate::tool::ToolSpec)
    ensures
        r@ == view_image_tool_view(can_request_original_image_detail),
{
    let mut p = Properties::new();
    set_prop(&mut p, "path", str_schema(texts::D_IMAGE_PATH));
    if can_request_original_image_detail {
        set_prop(&mut p, "detail", str_schema(texts::D_IMAGE_DETAIL));
    }
    function_tool(texts::VIEW_IMAGE_NAME, owned(texts::VIEW_IMAGE_DESCRIPTION), closed_schema(p, Some(names1("path"))), None)
}

/// Extending a property list gives a value to exactly the keys that the list
/// or the added entries have.
pub proof fn lemma_props_extend_keys(
    ps: Seq<(Seq<char>, Schema)>,
    qs: Seq<(Seq<char>, Schema)>,
    key: Seq<char>,
)
    ensures
        props_get(props_extend(ps, qs), key) is Some <==> (props_get(ps, key) is Some || props_keys(qs).contains(key)),
    decreases qs.len(),
{
    if qs.len() > 0 {
        let ins = props_insert(ps, qs[0].0, qs[0].1);
        lemma_props_extend_keys(ins, qs.drop_first(), key);
        lemma_props_get_insert(ps, qs[0].0, qs[0].1, key);
        let ks = props_keys(qs);
        assert(props_keys(qs.drop_first()) =~= ks.drop_first());
        assert(ks[0] == qs[0].0);
        if ks.contains(key) && key != qs[0].0 {
            let i = choose|i: int| 0 <= i < ks.len() && ks[i] == key;
            assert(ks.drop_first()[i - 1] == key);
        }
        if props_keys(qs.drop_first()).contains(key) {
            let i = choose|i: int| 0 <= i < ks.len() - 1 && ks.drop_first()[i] == key;
            assert(ks[i + 1] == key);
        }
    }
}

/// The approval parameters are `sandbox_permissions`, `justification` and
/// `prefix_rule`, with `additional_permissions` besides exactly when permission
/// requests are enabled. `prefix_rule` is a list of strings,
/// `additional_permissions` is the permissions schema, and the sandbox
/// description is the one that offers additional permissions exactly when
/// permission requests are enabled.
pub proof fn lemma_approval_parameters_keys(request_permission_enabled: bool, key: Seq<char>)
    ensures
        props_keys(approval_parameters_view(request_permission_enabled)).contains(key) <==> (key
            == "sandbox_permissions"@ || key == "justification"@ || key == "prefix_rule"@ || (
        request_permission_enabled && key == "additional_permissions"@)),
        props_get(approval_parameters_view(request_permission_enabled), "sandbox_permissions"@)
            == Some(
            s_str(
                if request_permission_enabled {
                    texts::D_SANDBOX_PERMISSIONS_EXTENDED
                } else {
                    texts::D_SANDBOX_PERMISSIONS
                },
            ),
        ),
        props_get(approval_parameters_view(request_permission_enabled), "justification"@) == Some(
            s_str(texts::D_JUSTIFICATION),
        ),
        props_get(approval_parameters_view(request_permission_enabled), "prefix_rule"@) == Some(
            s_str_list(texts::D_PREFIX_RULE),
        ),
        props_get(approval_parameters_view(request_permission_enabled), "additional_permissions"@)
            == (if request_permission_enabled {
            Some(permissions_view())
        } else {
            None
        }),
{
    reveal_strlit("sandbox_permissions");
    reveal_strlit("justification");
    reveal_strlit("prefix_rule");
    reveal_strlit("additional_permissions");
    let sb = "sandbox_permissions"@;
    let ju = "justification"@;
    let pr = "prefix_rule"@;
    let ap = "additional_permissions"@;
    let v1 = s_str(
        if request_permission_enabled {
            texts::D_SANDBOX_PERMISSIONS_EXTENDED
        } else {
            texts::D_SANDBOX_PERMISSIONS
        },
    );
    let p1 = props_insert(no_props(), sb, v1);
    let p2 = props_insert(p1, ju, s_str(texts::D_JUSTIFICATION));
    let p3 = props_insert(p2, pr, s_str_list(texts::D_PREFIX_RULE));
    let p4 = props_insert(p3, ap, permissions_view());
    assert(props_get(no_props(), key) is None);
    assert(props_get(no_props(), ap) is None);
    lemma_props_get_insert(no_props(), sb, v1, key);
    lemma_props_get_insert(no_props(), sb, v1, ap);
    lemma_props_get_insert(p1, ju, s_str(texts::D_JUSTIFICATION), key);
    lemma_props_get_insert(p1, ju, s_str(texts::D_JUSTIFICATION), sb);
    lemma_props_get_insert(p1, ju, s_str(texts::D_JUSTIFICATION), ap);
    lemma_props_get_insert(p2, pr, s_str_list(texts::D_PREFIX_RULE), key);
    lemma_props_get_insert(p2, pr, s_str_list(texts::D_PREFIX_RULE), sb);
    lemma_props_get_insert(p2, pr, s_str_list(texts::D_PREFIX_RULE), ju);
    lemma_props_get_insert(p2, pr, s_str_list(texts::D_PREFIX_RULE), ap);
    lemma_props_get_insert(p3, ap, permissions_view(), key);
    lemma_props_get_insert(p3, ap, permissions_view(), sb);
    lemma_props_get_insert(p3, ap, permissions_view(), ju);
    lemma_props_get_insert(p3, ap, permissions_view(), pr);
    lemma_props_keys_get(approval_parameters_view(request_permission_enabled), key);
}

/// The unified exec tool takes `cmd`, `workdir`, `shell`, `tty`,
/// `yield_time_ms` and `max_output_tokens`, `login` exactly when a login shell
/// is allowed, and the approval parameters; nothing else.
pub proof fn lemma_exec_command_keys(
    allow_login_shell: bool,
    request_permission_enabled: bool,
    key: Seq<char>,
)
    ensures
        props_keys(exec_command_properties_view(allow_login_shell, request_permission_enabled)).contains(
            key,
        ) <==> (key == "cmd"@ || key == "workdir"@ || key == "shell"@ || key == "tty"@ || key
            == "yield_time_ms"@ || key == "max_output_tokens"@ || (allow_login_shell && key
            == "login"@) || key == "sandbox_permissions"@ || key == "justification"@ || key
            == "prefix_rule"@ || (request_permission_enabled && key == "additional_permissions"@)),
{
    let p1 = props_insert(no_props(), "cmd"@, s_str(texts::D_CMD));
    let p2 = props_insert(p1, "workdir"@, s_str(texts::D_EXEC_WORKDIR));
    let p3 = props_insert(p2, "shell"@, s_str(texts::D_SHELL_BINARY));
    let p4 = props_insert(p3, "tty"@, s_bool(texts::D_TTY));
    let p5 = props_insert(p4, "yield_time_ms"@, s_num(texts::D_YIELD_TIME));
    let p6 = props_insert(p5, "max_output_tokens"@, s_num(texts::D_MAX_OUTPUT_TOKENS));
    let p7 = props_insert(p6, "login"@, s_bool(texts::D_EXEC_LOGIN));
    assert(props_get(no_props(), key) is None);
    lemma_props_get_insert(no_props(), "cmd"@, s_str(texts::D_CMD), key);
    lemma_props_get_insert(p1, "workdir"@, s_str(texts::D_EXEC_WORKDIR), key);
    lemma_props_get_insert(p2, "shell"@, s_str(texts::D_SHELL_BINARY), key);
    lemma_props_get_insert(p3, "tty"@, s_bool(texts::D_TTY), key);
    lemma_props_get_insert(p4, "yield_time_ms"@, s_num(texts::D_YIELD_TIME), key);
    lemma_props_get_insert(p5, "max_output_tokens"@, s_num(texts::D_MAX_OUTPUT_TOKENS), key);
    lemma_props_get_insert(p6, "login"@, s_bool(texts::D_EXEC_LOGIN), key);
    let base = if allow_login_shell {
        p7
    } else {
        p6
    };
    let ap = approval_parameters_view(request_permission_enabled);
    lemma_props_extend_keys(base, ap, key);
    lemma_approval_parameters_keys(request_permission_enabled, key);
    lemma_props_keys_get(exec_command_properties_view(allow_login_shell, request_permission_enabled), key);
}

}
