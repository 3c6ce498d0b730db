use vstd::prelude::*;

use crate::agent_tools::{
    close_agent_tool_view, report_agent_job_result_tool_view, request_permissions_tool_view,
    request_user_input_tool_view, resume_agent_tool_view, send_input_tool_view, spawn_agent_tool_view,
    spawn_agents_on_csv_tool_view, wait_tool_view,
};
use crate::builtin::{
    exec_command_tool_view, shell_command_tool_view, shell_tool_view, view_image_tool_view,
    write_stdin_tool_view,
};
use crate::agent_tools::{
    create_close_agent_tool, create_report_agent_job_result_tool, create_request_permissions_tool,
    create_request_user_input_tool, create_resume_agent_tool, create_send_input_tool, create_spawn_agent_tool,
    create_spawn_agents_on_csv_tool, create_wait_tool,
};
use crate::builtin::{
    create_exec_command_tool, create_shell_command_tool, create_shell_tool, create_view_image_tool,
    create_write_stdin_tool,
};
use crate::code_mode::{augment_tool_spec_for_code_mode, augmented};
use crate::config::{config_base, ToolsConfig};
use crate::misc_tools::{
    create_artifacts_tool, create_code_mode_tool, create_exec_wait_tool, create_grep_files_tool,
    create_js_repl_reset_tool, create_js_repl_tool, create_list_dir_tool,
    create_list_mcp_resource_templates_tool, create_list_mcp_resources_tool, create_read_file_tool,
    create_read_mcp_resource_tool, create_test_sync_tool, create_tool_search_tool, create_tool_suggest_tool,
};
use crate::registry::{specs_view, ToolRegistryBuilder};
use crate::mcp::{clone_mcp_tool, dynamic_tool_to_openai_tool, mcp_tool_to_openai_tool, McpTool};
use crate::strings::views;
use crate::text::{owned, str_eq};
use crate::config::{clone_filters, clone_location};
use crate::schema::strs;
use crate::registry::tool_handler_key;
use crate::tool::{clone_tool_spec, ToolSpec};
use crate::config::{
    ApplyPatchToolType, ConfigShellToolType, ToolsConfigBase, WebSearchMode, WebSearchToolType,
};
use crate::discoverable::{tools_view, DiscoverableTool, DiscoverableView};
use crate::json::Json;
use crate::mcp::{
    call_tool_result_schema, input_schema_result, mcp_description, mcp_input_result,
    mcp_structured_schema, DynamicToolSpec, McpToolView,
};
use crate::misc_tools::{
    artifacts_tool_view, code_mode_tool_view, exec_wait_tool_view, grep_files_tool_view,
    js_repl_reset_tool_view, js_repl_tool_view, list_dir_tool_view,
    list_mcp_resource_templates_tool_view, list_mcp_resources_tool_view, read_file_tool_view,
    read_mcp_resource_tool_view, test_sync_tool_view, tool_search_tool_view, tool_suggest_tool_view,
};
use crate::registry::{handler_key, handler_of, handlers_insert, lemma_register_handler, BuilderView, HandlerKind};
use crate::sorting::{keyed, lemma_sort_by_key_map, map_entries, sort_by_key, sort_by_name, sort_dedup, sorted_unique};
use crate::texts;
use crate::tool::{tool_name, FunctionView, Tool, ToolInfo, ToolTexts, LOCAL_SHELL_NAME, TOOL_SEARCH_NAME};

verus! {

pub const CONTAINER_EXEC_NAME: &'static str = "container.exec";

/// `t` offered (as code mode shows it), with its parallel flag.
pub open spec fn push_tool(b: BuilderView, t: Tool, parallel: bool, code_mode: bool) -> BuilderView {
    BuilderView { specs: b.specs.push((augmented(t, code_mode), parallel)), handlers: b.handlers }
}

/// `kind` registered under `name`.
pub open spec fn reg(b: BuilderView, name: Seq<char>, kind: HandlerKind) -> BuilderView {
    BuilderView { specs: b.specs, handlers: handlers_insert(b.handlers, name, kind) }
}

/// The code mode tool, listing `names`, and the tool that waits on its cells.
pub open spec fn step_code_mode(b: BuilderView, names: Seq<Seq<char>>, t: ToolTexts) -> BuilderView {
    let b = push_tool(b, code_mode_tool_view(t.code_mode_description_template@, names), false, true);
    let b = reg(b, texts::PUBLIC_TOOL_NAME@, HandlerKind::CodeModeExecute);
    let b = push_tool(b, exec_wait_tool_view(t.code_mode_wait_description@), false, true);
    reg(b, texts::WAIT_TOOL_NAME@, HandlerKind::CodeModeWait)
}

/// The shell tool of the configured kind; every shell name gets a handler unless the
/// shell is disabled.
pub open spec fn step_shell(b: BuilderView, c: ToolsConfigBase, cm: bool) -> BuilderView {
    let b = match c.shell_type {
        ConfigShellToolType::Default => push_tool(
            b,
            shell_tool_view(c.request_permission_enabled, c.windows_host),
            true,
            cm,
        ),
        ConfigShellToolType::Local => push_tool(b, Tool::LocalShell, true, cm),
        ConfigShellToolType::UnifiedExec => {
            let b = push_tool(b, exec_command_tool_view(c.allow_login_shell, c.request_permission_enabled), true, cm);
            let b = push_tool(b, write_stdin_tool_view(), false, cm);
            let b = reg(b, texts::EXEC_COMMAND_NAME@, HandlerKind::UnifiedExec);
            reg(b, texts::WRITE_STDIN_NAME@, HandlerKind::UnifiedExec)
        },
        ConfigShellToolType::Disabled => b,
        ConfigShellToolType::ShellCommand => push_tool(
            b,
            shell_command_tool_view(c.allow_login_shell, c.request_permission_enabled, c.windows_host),
            true,
            cm,
        ),
    };
    if c.shell_type != ConfigShellToolType::Disabled {
        let b = reg(b, texts::SHELL_NAME@, HandlerKind::Shell);
        let b = reg(b, CONTAINER_EXEC_NAME@, HandlerKind::Shell);
        let b = reg(b, LOCAL_SHELL_NAME@, HandlerKind::Shell);
        reg(b, texts::SHELL_COMMAND_NAME@, HandlerKind::ShellCommand(c.shell_command_backend))
    } else {
        b
    }
}

/// Unless the shell is disabled, the shell's legacy names (`shell`,
/// `container.exec`, `local_shell`) are handled by the shell handler and
/// `shell_command` by its configured backend, whatever shell tool is offered.
pub proof fn lemma_shell_aliases_registered(b: BuilderView, c: ToolsConfigBase, cm: bool)
    requires
        c.shell_type != ConfigShellToolType::Disabled,
    ensures
        handler_of(step_shell(b, c, cm).handlers, texts::SHELL_NAME@) == Some(HandlerKind::Shell),
        handler_of(step_shell(b, c, cm).handlers, CONTAINER_EXEC_NAME@) == Some(HandlerKind::Shell),
        handler_of(step_shell(b, c, cm).handlers, LOCAL_SHELL_NAME@) == Some(HandlerKind::Shell),
        handler_of(step_shell(b, c, cm).handlers, texts::SHELL_COMMAND_NAME@) == Some(
            HandlerKind::ShellCommand(c.shell_command_backend),
        ),
{
    reveal_strlit("shell");
    reveal_strlit("container.exec");
    reveal_strlit("local_shell");
    reveal_strlit("shell_command");
    assert(CONTAINER_EXEC_NAME@.len() == 14 && texts::SHELL_NAME@.len() == 5);
    assert(LOCAL_SHELL_NAME@.len() == 11 && texts::SHELL_COMMAND_NAME@.len() == 13);
    let b0 = match c.shell_type {
        ConfigShellToolType::Default => push_tool(
            b,
            shell_tool_view(c.request_permission_enabled, c.windows_host),
            true,
            cm,
        ),
        ConfigShellToolType::Local => push_tool(b, Tool::LocalShell, true, cm),
        ConfigShellToolType::UnifiedExec => {
            let b = push_tool(b, exec_command_tool_view(c.allow_login_shell, c.request_permission_enabled), true, cm);
            let b = push_tool(b, write_stdin_tool_view(), false, cm);
            let b = reg(b, texts::EXEC_COMMAND_NAME@, HandlerKind::UnifiedExec);
            reg(b, texts::WRITE_STDIN_NAME@, HandlerKind::UnifiedExec)
        },
        ConfigShellToolType::Disabled => b,
        ConfigShellToolType::ShellCommand => push_tool(
            b,
            shell_command_tool_view(c.allow_login_shell, c.request_permission_enabled, c.windows_host),
            true,
            cm,
        ),
    };
    let b1 = reg(b0, texts::SHELL_NAME@, HandlerKind::Shell);
    let b2 = reg(b1, CONTAINER_EXEC_NAME@, HandlerKind::Shell);
    let b3 = reg(b2, LOCAL_SHELL_NAME@, HandlerKind::Shell);
    let b4 = reg(b3, texts::SHELL_COMMAND_NAME@, HandlerKind::ShellCommand(c.shell_command_backend));
    assert(step_shell(b, c, cm) == b4);
    let kind = HandlerKind::ShellCommand(c.shell_command_backend);
    lemma_register_handler(b0.handlers, texts::SHELL_NAME@, HandlerKind::Shell, texts::SHELL_NAME@);
    lemma_register_handler(b1.handlers, CONTAINER_EXEC_NAME@, HandlerKind::Shell, texts::SHELL_NAME@);
    lemma_register_handler(b1.handlers, CONTAINER_EXEC_NAME@, HandlerKind::Shell, CONTAINER_EXEC_NAME@);
    lemma_register_handler(b2.handlers, LOCAL_SHELL_NAME@, HandlerKind::Shell, texts::SHELL_NAME@);
    lemma_register_handler(b2.handlers, LOCAL_SHELL_NAME@, HandlerKind::Shell, CONTAINER_EXEC_NAME@);
    lemma_register_handler(b2.handlers, LOCAL_SHELL_NAME@, HandlerKind::Shell, LOCAL_SHELL_NAME@);
    lemma_register_handler(b3.handlers, texts::SHELL_COMMAND_NAME@, kind, texts::SHELL_NAME@);
    lemma_register_handler(b3.handlers, texts::SHELL_COMMAND_NAME@, kind, CONTAINER_EXEC_NAME@);
    lemma_register_handler(b3.handlers, texts::SHELL_COMMAND_NAME@, kind, LOCAL_SHELL_NAME@);
    lemma_register_handler(b3.handlers, texts::SHELL_COMMAND_NAME@, kind, texts::SHELL_COMMAND_NAME@);
}

/// The MCP resource tools, when MCP tools are given at all.
pub open spec fn step_mcp_resources(b: BuilderView, has_mcp: bool, cm: bool) -> BuilderView {
    if has_mcp {
        let b = push_tool(b, list_mcp_resources_tool_view(), true, cm);
        let b = push_tool(b, list_mcp_resource_templates_tool_view(), true, cm);
        let b = push_tool(b, read_mcp_resource_tool_view(), true, cm);
        let b = reg(b, texts::LIST_MCP_RESOURCES_NAME@, HandlerKind::McpResource);
        let b = reg(b, texts::LIST_MCP_RESOURCE_TEMPLATES_NAME@, HandlerKind::McpResource);
        reg(b, texts::READ_MCP_RESOURCE_NAME@, HandlerKind::McpResource)
    } else {
        b
    }
}

/// The plan tool, the JavaScript REPL, user input and permission requests.
pub open spec fn step_session_tools(b: BuilderView, c: ToolsConfigBase, t: ToolTexts, cm: bool) -> BuilderView {
    let b = push_tool(b, t.plan_tool@, false, cm);
    let b = reg(b, texts::UPDATE_PLAN_NAME@, HandlerKind::Plan);
    let b = if c.js_repl_enabled {
        let b = push_tool(b, js_repl_tool_view(), false, cm);
        let b = push_tool(b, js_repl_reset_tool_view(), false, cm);
        let b = reg(b, texts::JS_REPL_NAME@, HandlerKind::JsRepl);
        reg(b, texts::JS_REPL_RESET_NAME@, HandlerKind::JsReplReset)
    } else {
        b
    };
    let b = if c.request_user_input {
        let description = if c.default_mode_request_user_input {
            t.request_user_input_default_mode_description@
        } else {
            t.request_user_input_description@
        };
        let b = push_tool(b, request_user_input_tool_view(description), false, cm);
        reg(b, texts::REQUEST_USER_INPUT_NAME@, HandlerKind::RequestUserInput(c.default_mode_request_user_input))
    } else {
        b
    };
    if c.request_permissions_tool_enabled {
        let b = push_tool(b, request_permissions_tool_view(t.request_permissions_description@), false, cm);
        reg(b, texts::REQUEST_PERMISSIONS_NAME@, HandlerKind::RequestPermissions)
    } else {
        b
    }
}

/// Each app tool registered as an MCP tool under its namespaced name.
pub open spec fn reg_app_aliases(b: BuilderView, tools: Seq<(String, ToolInfo)>) -> BuilderView
    decreases tools.len(),
{
    if tools.len() == 0 {
        b
    } else {
        let b = reg_app_aliases(b, tools.drop_last());
        let info = tools.last().1;
        reg(b, handler_key(info.tool_name@, Some(info.tool_namespace@)), HandlerKind::Mcp)
    }
}

/// Tool search over the app tools, when enabled and given; tool suggestions over the
/// discoverable tools, when enabled and there are any (offered as they are, even in
/// code mode).
pub open spec fn step_search(
    b: BuilderView,
    c: ToolsConfigBase,
    app: Option<Seq<(String, ToolInfo)>>,
    disc: Option<Seq<DiscoverableView>>,
    t: ToolTexts,
    cm: bool,
) -> BuilderView {
    let b = match app {
        Some(a) => if c.search_tool {
            let b = push_tool(b, tool_search_tool_view(t.tool_search_template@, a, t.tool_search_default_limit), true, cm);
            let b = reg(b, TOOL_SEARCH_NAME@, HandlerKind::ToolSearch);
            reg_app_aliases(b, a)
        } else {
            b
        },
        None => b,
    };
    match disc {
        Some(d) => if c.tool_suggest && d.len() > 0 {
            let b = BuilderView { specs: b.specs.push((tool_suggest_tool_view(t.tool_suggest_template@, d), true)), handlers: b.handlers };
            reg(b, texts::TOOL_SUGGEST_NAME@, HandlerKind::ToolSuggest)
        } else {
            b
        },
        None => b,
    }
}

/// The patch tool of the configured kind.
pub open spec fn step_apply_patch(b: BuilderView, c: ToolsConfigBase, t: ToolTexts, cm: bool) -> BuilderView {
    match c.apply_patch_tool_type {
        Some(ApplyPatchToolType::Freeform) => reg(
            push_tool(b, t.apply_patch_freeform_tool@, false, cm),
            texts::APPLY_PATCH_NAME@,
            HandlerKind::ApplyPatch,
        ),
        Some(ApplyPatchToolType::Function) => reg(
            push_tool(b, t.apply_patch_json_tool@, false, cm),
            texts::APPLY_PATCH_NAME@,
            HandlerKind::ApplyPatch,
        ),
        None => b,
    }
}

/// The experimental tools the model supports.
pub open spec fn step_experimental(b: BuilderView, c: ToolsConfigBase, cm: bool) -> BuilderView {
    let ex = c.experimental_supported_tools;
    let b = if ex.contains(texts::GREP_FILES_NAME@) {
        reg(push_tool(b, grep_files_tool_view(), true, cm), texts::GREP_FILES_NAME@, HandlerKind::GrepFiles)
    } else {
        b
    };
    let b = if ex.contains(texts::READ_FILE_NAME@) {
        reg(push_tool(b, read_file_tool_view(), true, cm), texts::READ_FILE_NAME@, HandlerKind::ReadFile)
    } else {
        b
    };
    let b = if ex.contains(texts::LIST_DIR_NAME@) {
        reg(push_tool(b, list_dir_tool_view(), true, cm), texts::LIST_DIR_NAME@, HandlerKind::ListDir)
    } else {
        b
    };
    if ex.contains(texts::TEST_SYNC_NAME@) {
        reg(push_tool(b, test_sync_tool_view(), true, cm), texts::TEST_SYNC_NAME@, HandlerKind::TestSync)
    } else {
        b
    }
}

/// Whether web search may reach the live web: cached search may not, live search
/// may, and a disabled one is not offered.
pub open spec fn external_web_access(mode: Option<WebSearchMode>) -> Option<bool> {
    match mode {
        Some(WebSearchMode::Cached) => Some(false),
        Some(WebSearchMode::Live) => Some(true),
        _ => None,
    }
}

/// The hosted web search tool as configured.
pub open spec fn web_search_tool(c: ToolsConfigBase, external: bool) -> Tool {
    Tool::WebSearch {
        external_web_access: Some(external),
        filters: match c.web_search_config {
            Some(w) => w.0,
            None => None,
        },
        user_location: match c.web_search_config {
            Some(w) => w.1,
            None => None,
        },
        search_context_size: match c.web_search_config {
            Some(w) => w.2,
            None => None,
        },
        search_content_types: match c.web_search_tool_type {
            WebSearchToolType::Text => None,
            WebSearchToolType::TextAndImage => Some(
                seq![texts::TEXT_CONTENT_TYPE@, texts::IMAGE_CONTENT_TYPE@],
            ),
        },
    }
}

/// Web search, image generation, image viewing and artifacts.
pub open spec fn step_hosted(b: BuilderView, c: ToolsConfigBase, cm: bool) -> BuilderView {
    let b = match external_web_access(c.web_search_mode) {
        Some(e) => push_tool(b, web_search_tool(c, e), false, cm),
        None => b,
    };
    let b = if c.image_gen_tool {
        push_tool(b, Tool::ImageGeneration { output_format: texts::PNG_FORMAT@ }, false, cm)
    } else {
        b
    };
    let b = push_tool(b, view_image_tool_view(c.can_request_original_image_detail), true, cm);
    let b = reg(b, texts::VIEW_IMAGE_NAME@, HandlerKind::ViewImage);
    if c.artifact_tools {
        reg(push_tool(b, artifacts_tool_view(), false, cm), texts::ARTIFACTS_NAME@, HandlerKind::Artifacts)
    } else {
        b
    }
}

/// The multi-agent tools and the agent job tools.
pub open spec fn step_agents(b: BuilderView, c: ToolsConfigBase, t: ToolTexts, cm: bool) -> BuilderView {
    let b = if c.collab_tools {
        let b = push_tool(b, spawn_agent_tool_view(c.available_models, t.agent_type_description@), false, cm);
        let b = push_tool(b, send_input_tool_view(), false, cm);
        let b = push_tool(b, resume_agent_tool_view(), false, cm);
        let b = push_tool(
            b,
            wait_tool_view(t.default_wait_timeout_ms, t.min_wait_timeout_ms, t.max_wait_timeout_ms),
            false,
            cm,
        );
        let b = push_tool(b, close_agent_tool_view(), false, cm);
        let b = reg(b, texts::SPAWN_AGENT_NAME@, HandlerKind::MultiAgent);
        let b = reg(b, texts::SEND_INPUT_NAME@, HandlerKind::MultiAgent);
        let b = reg(b, texts::RESUME_AGENT_NAME@, HandlerKind::MultiAgent);
        let b = reg(b, texts::WAIT_NAME@, HandlerKind::MultiAgent);
        reg(b, texts::CLOSE_AGENT_NAME@, HandlerKind::MultiAgent)
    } else {
        b
    };
    if c.agent_jobs_tools {
        let b = push_tool(b, spawn_agents_on_csv_tool_view(), false, cm);
        let b = reg(b, texts::SPAWN_AGENTS_ON_CSV_NAME@, HandlerKind::AgentJobs);
        if c.agent_jobs_worker_tools {
            let b = push_tool(b, report_agent_job_result_tool_view(), false, cm);
            reg(b, texts::REPORT_AGENT_JOB_RESULT_NAME@, HandlerKind::AgentJobs)
        } else {
            b
        }
    } else {
        b
    }
}

/// The function tool an MCP tool becomes under `name`, once its input schema reads as
/// `parameters`.
pub open spec fn mcp_function(name: Seq<char>, tool: McpToolView, parameters: crate::schema::Schema) -> Tool {
    Tool::Function(
        FunctionView {
            name,
            description: mcp_description(tool),
            strict: false,
            defer_loading: None,
            parameters,
            output_schema: Some(call_tool_result_schema(mcp_structured_schema(tool))),
        },
    )
}

/// The MCP tools in the given order; one whose input schema does not read is left out.
pub open spec fn add_mcp_tools(b: BuilderView, entries: Seq<(Seq<char>, McpToolView)>, cm: bool) -> BuilderView
    decreases entries.len(),
{
    if entries.len() == 0 {
        b
    } else {
        let b = add_mcp_tools(b, entries.drop_last(), cm);
        let (name, tool) = entries.last();
        match mcp_input_result(tool) {
            Ok(s) => reg(push_tool(b, mcp_function(name, tool, s), false, cm), name, HandlerKind::Mcp),
            Err(_) => b,
        }
    }
}

/// Each MCP tool whose input schema reads is handled by the MCP handler under its name.
pub proof fn lemma_mcp_tools_registered(b: BuilderView, entries: Seq<(Seq<char>, McpToolView)>, cm: bool, k: int)
    requires
        0 <= k < entries.len(),
        mcp_input_result(entries[k].1) is Ok,
    ensures
        handler_of(add_mcp_tools(b, entries, cm).handlers, entries[k].0) == Some(HandlerKind::Mcp),
    decreases entries.len(),
{
    let init = entries.drop_last();
    let prev = add_mcp_tools(b, init, cm);
    let (name, tool) = entries.last();
    if k == entries.len() - 1 {
        lemma_register_handler(push_tool(prev, Tool::LocalShell, false, cm).handlers, name, HandlerKind::Mcp, name);
    } else {
        assert(init[k] == entries[k]);
        lemma_mcp_tools_registered(b, init, cm, k);
        lemma_register_handler(prev.handlers, name, HandlerKind::Mcp, entries[k].0);
    }
}

/// The function tool a dynamic tool becomes, once its input schema reads as `parameters`.
pub open spec fn dynamic_function(tool: DynamicToolSpec, parameters: crate::schema::Schema) -> Tool {
    Tool::Function(
        FunctionView {
            name: tool.name@,
            description: tool.description@,
            strict: false,
            defer_loading: None,
            parameters,
            output_schema: None,
        },
    )
}

/// The dynamic tools in order; one whose input schema does not read is left out.
pub open spec fn add_dynamic_tools(b: BuilderView, tools: Seq<DynamicToolSpec>, cm: bool) -> BuilderView
    decreases tools.len(),
{
    if tools.len() == 0 {
        b
    } else {
        let b = add_dynamic_tools(b, tools.drop_last(), cm);
        let tool = tools.last();
        match input_schema_result(tool.input_schema@) {
            Ok(s) => reg(push_tool(b, dynamic_function(tool, s), false, cm), tool.name@, HandlerKind::DynamicTool),
            Err(_) => b,
        }
    }
}

/// The tools and handlers of a session without what code mode itself adds: every
/// tool shown as code mode shows it when `cm` holds.
pub open spec fn tools_after(
    b: BuilderView,
    c: ToolsConfigBase,
    cm: bool,
    mcp: Option<Seq<(Seq<char>, McpToolView)>>,
    app: Option<Seq<(String, ToolInfo)>>,
    disc: Option<Seq<DiscoverableView>>,
    dynamic: Seq<DynamicToolSpec>,
    t: ToolTexts,
) -> BuilderView {
    let b = step_shell(b, c, cm);
    let b = step_mcp_resources(b, mcp is Some, cm);
    let b = step_session_tools(b, c, t, cm);
    let b = step_search(b, c, app, disc, t, cm);
    let b = step_apply_patch(b, c, t, cm);
    let b = step_experimental(b, c, cm);
    let b = step_hosted(b, c, cm);
    let b = step_agents(b, c, t, cm);
    let b = match mcp {
        Some(m) => add_mcp_tools(b, sort_by_key(m), cm),
        None => b,
    };
    add_dynamic_tools(b, dynamic, cm)
}

pub open spec fn app_view(a: Option<Vec<(String, ToolInfo)>>) -> Option<Seq<(String, ToolInfo)>> {
    match a {
        Some(v) => Some(v@),
        None => None,
    }
}

pub open spec fn discoverable_view(d: Option<Vec<DiscoverableTool>>) -> Option<Seq<DiscoverableView>> {
    match d {
        Some(v) => Some(tools_view(v@)),
        None => None,
    }
}

pub open spec fn empty_builder() -> BuilderView {
    BuilderView { specs: Seq::empty(), handlers: Seq::empty() }
}

/// The names of the tools that code mode can call: function and freeform tools other
/// than its own, sorted, each once.
pub open spec fn nested_tool_names(specs: Seq<(Tool, bool)>) -> Seq<Seq<char>> {
    sort_dedup(nested_names_in_order(specs))
}

/// The names of the tools that code mode can call, in the order offered.
pub open spec fn nested_names_in_order(specs: Seq<(Tool, bool)>) -> Seq<Seq<char>>
    decreases specs.len(),
{
    if specs.len() == 0 {
        Seq::empty()
    } else {
        let rest = nested_names_in_order(specs.drop_last());
        if is_nested(specs.last().0) {
            rest.push(tool_name(specs.last().0))
        } else {
            rest
        }
    }
}

/// Whether code mode can call a tool.
pub open spec fn is_nested(t: Tool) -> bool {
    tool_name(t) != texts::PUBLIC_TOOL_NAME@ && tool_name(t) != texts::WAIT_TOOL_NAME@ && (t is Function
        || t is Freeform)
}

/// The tools and handlers of a session: with code mode on, its own two tools come
/// first, listing what the same configuration offers without code mode (and without
/// tool suggestions); then every other tool, shown as code mode shows it.
pub open spec fn session_tools(
    c: ToolsConfigBase,
    code_mode: bool,
    mcp: Option<Seq<(Seq<char>, McpToolView)>>,
    app: Option<Seq<(String, ToolInfo)>>,
    disc: Option<Seq<DiscoverableView>>,
    dynamic: Seq<DynamicToolSpec>,
    t: ToolTexts,
) -> BuilderView {
    let b = if code_mode {
        let nested = tools_after(empty_builder(), c, false, mcp, app, None, dynamic, t);
        step_code_mode(empty_builder(), nested_tool_names(nested.specs), t)
    } else {
        empty_builder()
    };
    tools_after(b, c, code_mode, mcp, app, disc, dynamic, t)
}


/// `b1` offers every tool of `b0`, in the same places, and maybe more after them.
pub open spec fn keeps_prefix(b0: BuilderView, b1: BuilderView) -> bool {
    &&& b0.specs.len() <= b1.specs.len()
    &&& forall|i: int| 0 <= i < b0.specs.len() ==> #[trigger] b1.specs[i] == b0.specs[i]
}

pub(crate) proof fn lemma_app_aliases_keep_specs(b: BuilderView, tools: Seq<(String, ToolInfo)>)
    ensures
        reg_app_aliases(b, tools).specs == b.specs,
    decreases tools.len(),
{
    if tools.len() > 0 {
        lemma_app_aliases_keep_specs(b, tools.drop_last());
    }
}

proof fn lemma_mcp_tools_keep_prefix(b: BuilderView, entries: Seq<(Seq<char>, McpToolView)>, cm: bool)
    ensures
        keeps_prefix(b, add_mcp_tools(b, entries, cm)),
    decreases entries.len(),
{
    if entries.len() > 0 {
        lemma_mcp_tools_keep_prefix(b, entries.drop_last(), cm);
    }
}

proof fn lemma_dynamic_tools_keep_prefix(b: BuilderView, tools: Seq<DynamicToolSpec>, cm: bool)
    ensures
        keeps_prefix(b, add_dynamic_tools(b, tools, cm)),
    decreases tools.len(),
{
    if tools.len() > 0 {
        lemma_dynamic_tools_keep_prefix(b, tools.drop_last(), cm);
    }
}

proof fn lemma_keeps_prefix_transitive(b0: BuilderView, b1: BuilderView, b2: BuilderView)
    requires
        keeps_prefix(b0, b1),
        keeps_prefix(b1, b2),
    ensures
        keeps_prefix(b0, b2),
{
    assert forall|i: int| 0 <= i < b0.specs.len() implies #[trigger] b2.specs[i] == b0.specs[i] by {
        assert(b1.specs[i] == b0.specs[i]);
    }
}

proof fn lemma_shell_keeps_prefix(b: BuilderView, c: ToolsConfigBase, cm: bool)
    ensures
        keeps_prefix(b, step_shell(b, c, cm)),
{
}

proof fn lemma_mcp_resources_keep_prefix(b: BuilderView, has_mcp: bool, cm: bool)
    ensures
        keeps_prefix(b, step_mcp_resources(b, has_mcp, cm)),
{
}

proof fn lemma_session_tools_keep_prefix(b: BuilderView, c: ToolsConfigBase, t: ToolTexts, cm: bool)
    ensures
        keeps_prefix(b, step_session_tools(b, c, t, cm)),
{
}

proof fn lemma_search_keeps_prefix(
    b: BuilderView,
    c: ToolsConfigBase,
    app: Option<Seq<(String, ToolInfo)>>,
    disc: Option<Seq<DiscoverableView>>,
    t: ToolTexts,
    cm: bool,
)
    ensures
        keeps_prefix(b, step_search(b, c, app, disc, t, cm)),
{
    match app {
        Some(a) => {
            let s = push_tool(b, tool_search_tool_view(t.tool_search_template@, a, t.tool_search_default_limit), true, cm);
            lemma_app_aliases_keep_specs(reg(s, TOOL_SEARCH_NAME@, HandlerKind::ToolSearch), a);
        },
        None => {},
    }
}

proof fn lemma_later_steps_keep_prefix(b: BuilderView, c: ToolsConfigBase, t: ToolTexts, cm: bool)
    ensures
        keeps_prefix(b, step_apply_patch(b, c, t, cm)),
        keeps_prefix(b, step_experimental(b, c, cm)),
        keeps_prefix(b, step_hosted(b, c, cm)),
        keeps_prefix(b, step_agents(b, c, t, cm)),
{
}

proof fn lemma_steps_keep_prefix(
    b: BuilderView,
    c: ToolsConfigBase,
    cm: bool,
    mcp: Option<Seq<(Seq<char>, McpToolView)>>,
    app: Option<Seq<(String, ToolInfo)>>,
    disc: Option<Seq<DiscoverableView>>,
    dynamic: Seq<DynamicToolSpec>,
    t: ToolTexts,
)
    ensures
        keeps_prefix(b, tools_after(b, c, cm, mcp, app, disc, dynamic, t)),
{
    let b1 = step_shell(b, c, cm);
    lemma_shell_keeps_prefix(b, c, cm);
    let b2 = step_mcp_resources(b1, mcp is Some, cm);
    lemma_mcp_resources_keep_prefix(b1, mcp is Some, cm);
    lemma_keeps_prefix_transitive(b, b1, b2);
    let b3 = step_session_tools(b2, c, t, cm);
    lemma_session_tools_keep_prefix(b2, c, t, cm);
    lemma_keeps_prefix_transitive(b, b2, b3);
    let b4 = step_search(b3, c, app, disc, t, cm);
    lemma_search_keeps_prefix(b3, c, app, disc, t, cm);
    lemma_keeps_prefix_transitive(b, b3, b4);
    let b5 = step_apply_patch(b4, c, t, cm);
    lemma_later_steps_keep_prefix(b4, c, t, cm);
    lemma_keeps_prefix_transitive(b, b4, b5);
    let b6 = step_experimental(b5, c, cm);
    lemma_later_steps_keep_prefix(b5, c, t, cm);
    lemma_keeps_prefix_transitive(b, b5, b6);
    let b7 = step_hosted(b6, c, cm);
    lemma_later_steps_keep_prefix(b6, c, t, cm);
    lemma_keeps_prefix_transitive(b, b6, b7);
    let b8 = step_agents(b7, c, t, cm);
    lemma_later_steps_keep_prefix(b7, c, t, cm);
    lemma_keeps_prefix_transitive(b, b7, b8);
    let b9 = match mcp {
        Some(m) => add_mcp_tools(b8, sort_by_key(m), cm),
        None => b8,
    };
    match mcp {
        Some(m) => lemma_mcp_tools_keep_prefix(b8, sort_by_key(m), cm),
        None => {},
    }
    lemma_keeps_prefix_transitive(b, b8, b9);
    lemma_dynamic_tools_keep_prefix(b9, dynamic, cm);
    lemma_keeps_prefix_transitive(b, b9, add_dynamic_tools(b9, dynamic, cm));
}

/// With code mode on, the session's first tool is the code mode tool, listing
/// the sorted, distinct names of the tools that code mode can call among those
/// that the same configuration offers without code mode (and without tool
/// suggestions); the second is the tool that waits on its cells. Neither is
/// handled under another name than its own.
pub proof fn lemma_code_mode_tools_first(
    c: ToolsConfigBase,
    mcp: Option<Seq<(Seq<char>, McpToolView)>>,
    app: Option<Seq<(String, ToolInfo)>>,
    disc: Option<Seq<DiscoverableView>>,
    dynamic: Seq<DynamicToolSpec>,
    t: ToolTexts,
)
    ensures
        ({
            let specs = session_tools(c, true, mcp, app, disc, dynamic, t).specs;
            let nested = tools_after(empty_builder(), c, false, mcp, app, None, dynamic, t);
            &&& specs.len() >= 2
            &&& specs[0] == (
                code_mode_tool_view(t.code_mode_description_template@, nested_tool_names(nested.specs)),
                false,
            )
            &&& specs[1].0 == augmented(exec_wait_tool_view(t.code_mode_wait_description@), true)
            &&& tool_name(specs[1].0) == texts::WAIT_TOOL_NAME@
            &&& !specs[1].1
        }),
{
    let nested = tools_after(empty_builder(), c, false, mcp, app, None, dynamic, t);
    let tool = code_mode_tool_view(t.code_mode_description_template@, nested_tool_names(nested.specs));
    let wait = exec_wait_tool_view(t.code_mode_wait_description@);
    crate::code_mode::lemma_augment_only_describes(tool, true);
    crate::code_mode::lemma_augment_only_describes(wait, true);
    let b = step_code_mode(empty_builder(), nested_tool_names(nested.specs), t);
    assert(b.specs.len() == 2);
    assert(b.specs[0] == (augmented(tool, true), false));
    assert(b.specs[1] == (augmented(wait, true), false));
    lemma_steps_keep_prefix(b, c, true, mcp, app, disc, dynamic, t);
}

/// Offers `spec` (as code mode shows it when `code_mode_enabled`).
pub fn push_tool_spec(
    builder: &mut ToolRegistryBuilder,
    spec: ToolSpec,
    supports_parallel_tool_calls: bool,
    code_mode_enabled: bool,
)
    ensures
        final(builder)@ == push_tool(old(builder)@, spec@, supports_parallel_tool_calls, code_mode_enabled),
{
    let spec = augment_tool_spec_for_code_mode(spec, code_mode_enabled);
    if supports_parallel_tool_calls {
        builder.push_spec_with_parallel_support(spec, true);
    } else {
        builder.push_spec(spec);
    }
}

fn register(builder: &mut ToolRegistryBuilder, name: &str, kind: HandlerKind)
    ensures
        final(builder)@ == reg(old(builder)@, name@, kind),
{
    builder.register_handler(owned(name), kind);
}

fn add_code_mode_tools(builder: &mut ToolRegistryBuilder, names: &Vec<String>, t: &ToolTexts)
    ensures
        final(builder)@ == step_code_mode(old(builder)@, views(names@), *t),
{
    push_tool_spec(builder, create_code_mode_tool(names, t.code_mode_description_template.as_str()), false, true);
    register(builder, texts::PUBLIC_TOOL_NAME, HandlerKind::CodeModeExecute);
    push_tool_spec(builder, create_exec_wait_tool(t.code_mode_wait_description.as_str()), false, true);
    register(builder, texts::WAIT_TOOL_NAME, HandlerKind::CodeModeWait);
}

fn add_shell_tools(builder: &mut ToolRegistryBuilder, c: &ToolsConfig, cm: bool)
    ensures
        final(builder)@ == step_shell(old(builder)@, config_base(*c), cm),
{
    match c.shell_type {
        ConfigShellToolType::Default => {
            push_tool_spec(builder, create_shell_tool(c.request_permission_enabled, c.windows_host), true, cm);
        },
        ConfigShellToolType::Local => {
            push_tool_spec(builder, ToolSpec::LocalShell, true, cm);
        },
        ConfigShellToolType::UnifiedExec => {
            push_tool_spec(builder, create_exec_command_tool(c.allow_login_shell, c.request_permission_enabled), true, cm);
            push_tool_spec(builder, create_write_stdin_tool(), false, cm);
            register(builder, texts::EXEC_COMMAND_NAME, HandlerKind::UnifiedExec);
            register(builder, texts::WRITE_STDIN_NAME, HandlerKind::UnifiedExec);
        },
        ConfigShellToolType::Disabled => {},
        ConfigShellToolType::ShellCommand => {
            push_tool_spec(
                builder,
                create_shell_command_tool(c.allow_login_shell, c.request_permission_enabled, c.windows_host),
                true,
                cm,
            );
        },
    }
    if c.shell_type != ConfigShellToolType::Disabled {
        register(builder, texts::SHELL_NAME, HandlerKind::Shell);
        register(builder, CONTAINER_EXEC_NAME, HandlerKind::Shell);
        register(builder, LOCAL_SHELL_NAME, HandlerKind::Shell);
        register(builder, texts::SHELL_COMMAND_NAME, HandlerKind::ShellCommand(c.shell_command_backend));
    }
}

fn add_mcp_resource_tools(builder: &mut ToolRegistryBuilder, has_mcp: bool, cm: bool)
    ensures
        final(builder)@ == step_mcp_resources(old(builder)@, has_mcp, cm),
{
    if has_mcp {
        push_tool_spec(builder, create_list_mcp_resources_tool(), true, cm);
        push_tool_spec(builder, create_list_mcp_resource_templates_tool(), true, cm);
        push_tool_spec(builder, create_read_mcp_resource_tool(), true, cm);
        register(builder, texts::LIST_MCP_RESOURCES_NAME, HandlerKind::McpResource);
        register(builder, texts::LIST_MCP_RESOURCE_TEMPLATES_NAME, HandlerKind::McpResource);
        register(builder, texts::READ_MCP_RESOURCE_NAME, HandlerKind::McpResource);
    }
}

fn add_session_tools(builder: &mut ToolRegistryBuilder, c: &ToolsConfig, t: &ToolTexts, cm: bool)
    ensures
        final(builder)@ == step_session_tools(old(builder)@, config_base(*c), *t, cm),
{
    push_tool_spec(builder, clone_tool_spec(&t.plan_tool), false, cm);
    register(builder, texts::UPDATE_PLAN_NAME, HandlerKind::Plan);
    if c.js_repl_enabled {
        push_tool_spec(builder, create_js_repl_tool(), false, cm);
        push_tool_spec(builder, create_js_repl_reset_tool(), false, cm);
        register(builder, texts::JS_REPL_NAME, HandlerKind::JsRepl);
        register(builder, texts::JS_REPL_RESET_NAME, HandlerKind::JsReplReset);
    }
    if c.request_user_input {
        let description = if c.default_mode_request_user_input {
            t.request_user_input_default_mode_description.as_str()
        } else {
            t.request_user_input_description.as_str()
        };
        push_tool_spec(builder, create_request_user_input_tool(description), false, cm);
        register(builder, texts::REQUEST_USER_INPUT_NAME, HandlerKind::RequestUserInput(c.default_mode_request_user_input));
    }
    if c.request_permissions_tool_enabled {
        push_tool_spec(builder, create_request_permissions_tool(t.request_permissions_description.as_str()), false, cm);
        register(builder, texts::REQUEST_PERMISSIONS_NAME, HandlerKind::RequestPermissions);
    }
}


fn add_search_tools(
    builder: &mut ToolRegistryBuilder,
    c: &ToolsConfig,
    app_tools: &Option<Vec<(String, ToolInfo)>>,
    discoverable_tools: &Option<Vec<DiscoverableTool>>,
    t: &ToolTexts,
    cm: bool,
)
    ensures
        final(builder)@ == step_search(
            old(builder)@,
            config_base(*c),
            app_view(*app_tools),
            discoverable_view(*discoverable_tools),
            *t,
            cm,
        ),
{
    if c.search_tool {
        if let Some(app) = app_tools {
            push_tool_spec(
                builder,
                create_tool_search_tool(app, t.tool_search_template.as_str(), t.tool_search_default_limit),
                true,
                cm,
            );
            register(builder, TOOL_SEARCH_NAME, HandlerKind::ToolSearch);
            let ghost b0 = builder@;
            let mut i: usize = 0;
            assert(app@.take(0) =~= Seq::<(String, ToolInfo)>::empty());
            while i < app.len()
                invariant
                    i <= app.len(),
                    builder@ == reg_app_aliases(b0, app@.take(i as int)),
                decreases app.len() - i,
            {
                assert(app@.take(i + 1).drop_last() =~= app@.take(i as int));
                assert(app@.take(i + 1).last() == app@[i as int]);
                let info = &app[i].1;
                let alias = tool_handler_key(info.tool_name.as_str(), Some(info.tool_namespace.as_str()));
                builder.register_handler(alias, HandlerKind::Mcp);
                i = i + 1;
            }
            assert(app@.take(app.len() as int) =~= app@);
        }
    }
    if c.tool_suggest {
        if let Some(d) = discoverable_tools {
            if d.len() > 0 {
                builder.push_spec_with_parallel_support(
                    create_tool_suggest_tool(d, t.tool_suggest_template.as_str()),
                    true,
                );
                register(builder, texts::TOOL_SUGGEST_NAME, HandlerKind::ToolSuggest);
            }
        }
    }
}

fn add_apply_patch_tool(builder: &mut ToolRegistryBuilder, c: &ToolsConfig, t: &ToolTexts, cm: bool)
    ensures
        final(builder)@ == step_apply_patch(old(builder)@, config_base(*c), *t, cm),
{
    match c.apply_patch_tool_type {
        Some(ApplyPatchToolType::Freeform) => {
            push_tool_spec(builder, clone_tool_spec(&t.apply_patch_freeform_tool), false, cm);
            register(builder, texts::APPLY_PATCH_NAME, HandlerKind::ApplyPatch);
        },
        Some(ApplyPatchToolType::Function) => {
            push_tool_spec(builder, clone_tool_spec(&t.apply_patch_json_tool), false, cm);
            register(builder, texts::APPLY_PATCH_NAME, HandlerKind::ApplyPatch);
        },
        None => {},
    }
}

fn contains_name(v: &Vec<String>, s: &str) -> (r: bool)
    ensures
        r == strs(v@).contains(s@),
{
    let mut i: usize = 0;
    while i < v.len()
        invariant
            i <= v.len(),
            forall|j: int| 0 <= j < i ==> strs(v@)[j] != s@,
        decreases v.len() - i,
    {
        if str_eq(v[i].as_str(), s) {
            assert(strs(v@)[i as int] == s@);
            return true;
        }
        i = i + 1;
    }
    false
}

fn add_experimental_tools(builder: &mut ToolRegistryBuilder, c: &ToolsConfig, cm: bool)
    ensures
        final(builder)@ == step_experimental(old(builder)@, config_base(*c), cm),
{
    let ex = &c.experimental_supported_tools;
    if contains_name(ex, texts::GREP_FILES_NAME) {
        push_tool_spec(builder, create_grep_files_tool(), true, cm);
        register(builder, texts::GREP_FILES_NAME, HandlerKind::GrepFiles);
    }
    if contains_name(ex, texts::READ_FILE_NAME) {
        push_tool_spec(builder, create_read_file_tool(), true, cm);
        register(builder, texts::READ_FILE_NAME, HandlerKind::ReadFile);
    }
    if contains_name(ex, texts::LIST_DIR_NAME) {
        push_tool_spec(builder, create_list_dir_tool(), true, cm);
        register(builder, texts::LIST_DIR_NAME, HandlerKind::ListDir);
    }
    if contains_name(ex, texts::TEST_SYNC_NAME) {
        push_tool_spec(builder, create_test_sync_tool(), true, cm);
        register(builder, texts::TEST_SYNC_NAME, HandlerKind::TestSync);
    }
}

fn create_web_search_tool(c: &ToolsConfig, external: bool) -> (r: ToolSpec)
    ensures
        r@ == web_search_tool(config_base(*c), external),
{
    let search_content_types = match c.web_search_tool_type {
        WebSearchToolType::Text => None,
        WebSearchToolType::TextAndImage => {
            let mut v: Vec<String> = Vec::new();
            v.push(owned(texts::TEXT_CONTENT_TYPE));
            v.push(owned(texts::IMAGE_CONTENT_TYPE));
            assert(strs(v@) =~= seq![texts::TEXT_CONTENT_TYPE@, texts::IMAGE_CONTENT_TYPE@]);
            Some(v)
        },
    };
    let (filters, user_location, search_context_size) = match &c.web_search_config {
        Some(w) => (clone_filters(&w.filters), clone_location(&w.user_location), w.search_context_size),
        None => (None, None, None),
    };
    ToolSpec::WebSearch {
        external_web_access: Some(external),
        filters,
        user_location,
        search_context_size,
        search_content_types,
    }
}

fn add_hosted_tools(builder: &mut ToolRegistryBuilder, c: &ToolsConfig, cm: bool)
    ensures
        final(builder)@ == step_hosted(old(builder)@, config_base(*c), cm),
{
    let external = match c.web_search_mode {
        Some(WebSearchMode::Cached) => Some(false),
        Some(WebSearchMode::Live) => Some(true),
        _ => None,
    };
    if let Some(e) = external {
        push_tool_spec(builder, create_web_search_tool(c, e), false, cm);
    }
    if c.image_gen_tool {
        push_tool_spec(builder, ToolSpec::ImageGeneration { output_format: owned(texts::PNG_FORMAT) }, false, cm);
    }
    push_tool_spec(builder, create_view_image_tool(c.can_request_original_image_detail), true, cm);
    register(builder, texts::VIEW_IMAGE_NAME, HandlerKind::ViewImage);
    if c.artifact_tools {
        push_tool_spec(builder, create_artifacts_tool(), false, cm);
        register(builder, texts::ARTIFACTS_NAME, HandlerKind::Artifacts);
    }
}

fn add_agent_tools(builder: &mut ToolRegistryBuilder, c: &ToolsConfig, t: &ToolTexts, cm: bool)
    ensures
        final(builder)@ == step_agents(old(builder)@, config_base(*c), *t, cm),
{
    if c.collab_tools {
        push_tool_spec(builder, create_spawn_agent_tool(&c.available_models, t.agent_type_description.as_str()), false, cm);
        push_tool_spec(builder, create_send_input_tool(), false, cm);
        push_tool_spec(builder, create_resume_agent_tool(), false, cm);
        push_tool_spec(
            builder,
            create_wait_tool(t.default_wait_timeout_ms, t.min_wait_timeout_ms, t.max_wait_timeout_ms),
            false,
            cm,
        );
        push_tool_spec(builder, create_close_agent_tool(), false, cm);
        register(builder, texts::SPAWN_AGENT_NAME, HandlerKind::MultiAgent);
        register(builder, texts::SEND_INPUT_NAME, HandlerKind::MultiAgent);
        register(builder, texts::RESUME_AGENT_NAME, HandlerKind::MultiAgent);
        register(builder, texts::WAIT_NAME, HandlerKind::MultiAgent);
        register(builder, texts::CLOSE_AGENT_NAME, HandlerKind::MultiAgent);
    }
    if c.agent_jobs_tools {
        push_tool_spec(builder, create_spawn_agents_on_csv_tool(), false, cm);
        register(builder, texts::SPAWN_AGENTS_ON_CSV_NAME, HandlerKind::AgentJobs);
        if c.agent_jobs_worker_tools {
            push_tool_spec(builder, create_report_agent_job_result_tool(), false, cm);
            register(builder, texts::REPORT_AGENT_JOB_RESULT_NAME, HandlerKind::AgentJobs);
        }
    }
}


pub open spec fn mcp_entries(v: Seq<(String, McpTool)>) -> Seq<(Seq<char>, McpToolView)> {
    v.map_values(|e: (String, McpTool)| (e.0@, e.1@))
}

pub open spec fn mcp_view(m: Option<Vec<(String, McpTool)>>) -> Option<Seq<(Seq<char>, McpToolView)>> {
    match m {
        Some(v) => Some(mcp_entries(v@)),
        None => None,
    }
}

fn add_mcp_function_tools(builder: &mut ToolRegistryBuilder, mcp: &Vec<(String, McpTool)>, cm: bool)
    ensures
        final(builder)@ == add_mcp_tools(old(builder)@, sort_by_key(mcp_entries(mcp@)), cm),
{
    let mut entries: Vec<(String, McpTool)> = Vec::new();
    let mut i: usize = 0;
    while i < mcp.len()
        invariant
            i <= mcp.len(),
            entries.len() == i,
            forall|j: int| 0 <= j < i ==> #[trigger] entries@[j].0@ == mcp@[j].0@ && entries@[j].1@ == mcp@[j].1@,
        decreases mcp.len() - i,
    {
        entries.push((owned(mcp[i].0.as_str()), clone_mcp_tool(&mcp[i].1)));
        i = i + 1;
    }
    assert(mcp_entries(entries@) =~= mcp_entries(mcp@));
    let ghost f = |t: McpTool| t@;
    let ghost unsorted = keyed(entries@);
    let sorted = sort_by_name(entries);
    proof {
        lemma_sort_by_key_map(unsorted, f);
        assert(map_entries(unsorted, f) =~= mcp_entries(mcp@));
        assert(map_entries(keyed(sorted@), f) =~= mcp_entries(sorted@));
    }
    let ghost es = mcp_entries(sorted@);
    assert(es == sort_by_key(mcp_entries(mcp@)));
    let ghost b0 = builder@;
    let mut k: usize = 0;
    assert(es.take(0) =~= Seq::<(Seq<char>, McpToolView)>::empty());
    while k < sorted.len()
        invariant
            k <= sorted.len(),
            es == mcp_entries(sorted@),
            builder@ == add_mcp_tools(b0, es.take(k as int), cm),
        decreases sorted.len() - k,
    {
        assert(es.take(k + 1).drop_last() =~= es.take(k as int));
        assert(es.take(k + 1).last() == (sorted@[k as int].0@, sorted@[k as int].1@));
        let name = owned(sorted[k].0.as_str());
        let tool = clone_mcp_tool(&sorted[k].1);
        match mcp_tool_to_openai_tool(owned(name.as_str()), tool) {
            Ok(converted) => {
                push_tool_spec(builder, ToolSpec::Function(converted), false, cm);
                builder.register_handler(name, HandlerKind::Mcp);
            },
            Err(_) => {},
        }
        k = k + 1;
    }
    assert(es.take(sorted.len() as int) =~= es);
}

fn add_dynamic_function_tools(builder: &mut ToolRegistryBuilder, dynamic_tools: &Vec<DynamicToolSpec>, cm: bool)
    ensures
        final(builder)@ == add_dynamic_tools(old(builder)@, dynamic_tools@, cm),
{
    let ghost b0 = builder@;
    let ghost ds = dynamic_tools@;
    let mut k: usize = 0;
    assert(ds.take(0) =~= Seq::<DynamicToolSpec>::empty());
    while k < dynamic_tools.len()
        invariant
            k <= dynamic_tools.len(),
            ds == dynamic_tools@,
            builder@ == add_dynamic_tools(b0, ds.take(k as int), cm),
        decreases dynamic_tools.len() - k,
    {
        assert(ds.take(k + 1).drop_last() =~= ds.take(k as int));
        assert(ds.take(k + 1).last() == ds[k as int]);
        let tool = &dynamic_tools[k];
        match dynamic_tool_to_openai_tool(tool) {
            Ok(converted) => {
                push_tool_spec(builder, ToolSpec::Function(converted), false, cm);
                builder.register_handler(owned(tool.name.as_str()), HandlerKind::DynamicTool);
            },
            Err(_) => {},
        }
        k = k + 1;
    }
    assert(ds.take(dynamic_tools.len() as int) =~= ds);
}

fn add_base_tools(
    builder: &mut ToolRegistryBuilder,
    config: &ToolsConfig,
    cm: bool,
    mcp_tools: &Option<Vec<(String, McpTool)>>,
    app_tools: &Option<Vec<(String, ToolInfo)>>,
    discoverable_tools: &Option<Vec<DiscoverableTool>>,
    dynamic_tools: &Vec<DynamicToolSpec>,
    t: &ToolTexts,
)
    ensures
        final(builder)@ == tools_after(
            old(builder)@,
            config_base(*config),
            cm,
            mcp_view(*mcp_tools),
            app_view(*app_tools),
            discoverable_view(*discoverable_tools),
            dynamic_tools@,
            *t,
        ),
{
    add_shell_tools(builder, config, cm);
    add_mcp_resource_tools(builder, mcp_tools.is_some(), cm);
    add_session_tools(builder, config, t, cm);
    add_search_tools(builder, config, app_tools, discoverable_tools, t, cm);
    add_apply_patch_tool(builder, config, t, cm);
    add_experimental_tools(builder, config, cm);
    add_hosted_tools(builder, config, cm);
    add_agent_tools(builder, config, t, cm);
    if let Some(m) = mcp_tools {
        add_mcp_function_tools(builder, m, cm);
    }
    add_dynamic_function_tools(builder, dynamic_tools, cm);
}

/// Whether code mode can call `spec`: a function or freeform tool other than its own.
pub fn is_code_mode_nested_tool(spec: &ToolSpec) -> (r: bool)
    ensures
        r == is_nested(spec@),
{
    let name = spec.name();
    !str_eq(name, texts::PUBLIC_TOOL_NAME) && !str_eq(name, texts::WAIT_TOOL_NAME) && match spec {
        ToolSpec::Function(_) => true,
        ToolSpec::Freeform(_) => true,
        _ => false,
    }
}

/// The tools offered in a session and the handlers of their names: see [`session_tools`].
#[verifier::rlimit(40)]
pub fn build_specs_with_discoverable_tools(
    config: &ToolsConfig,
    mcp_tools: &Option<Vec<(String, McpTool)>>,
    app_tools: &Option<Vec<(String, ToolInfo)>>,
    discoverable_tools: &Option<Vec<DiscoverableTool>>,
    dynamic_tools: &Vec<DynamicToolSpec>,
    texts: &ToolTexts,
) -> (r: ToolRegistryBuilder)
    ensures
        r@ == session_tools(
            config_base(*config),
            config.code_mode_enabled,
            mcp_view(*mcp_tools),
            app_view(*app_tools),
            discoverable_view(*discoverable_tools),
            dynamic_tools@,
            *texts,
        ),
    decreases if config.code_mode_enabled { 1int } else { 0int },
{
    let mut builder = ToolRegistryBuilder::new();
    assert(builder@ == empty_builder());
    if config.code_mode_enabled {
        let nested_config = config.for_code_mode_nested_tools();
        let no_discoverable: Option<Vec<DiscoverableTool>> = None;
        let nested = build_specs_with_discoverable_tools(
            &nested_config,
            mcp_tools,
            app_tools,
            &no_discoverable,
            dynamic_tools,
            texts,
        );
        let (nested_specs, _) = nested.build();
        let ghost ns = specs_view(nested_specs@);
        let mut names: Vec<String> = Vec::new();
        let mut i: usize = 0;
        assert(ns.take(0) =~= Seq::<(Tool, bool)>::empty());
        while i < nested_specs.len()
            invariant
                i <= nested_specs.len(),
                ns == specs_view(nested_specs@),
                views(names@) == nested_names_in_order(ns.take(i as int)),
            decreases nested_specs.len() - i,
        {
            assert(ns.take(i + 1).drop_last() =~= ns.take(i as int));
            assert(ns.take(i + 1).last() == ns[i as int]);
            let spec = &nested_specs[i].spec;
            if is_code_mode_nested_tool(spec) {
                let ghost before = views(names@);
                names.push(owned(spec.name()));
                assert(views(names@) =~= before.push(tool_name(spec@)));
            }
            i = i + 1;
        }
        assert(ns.take(nested_specs.len() as int) =~= ns);
        assert(names@.map_values(|s: String| s@) == views(names@));
        let names = sorted_unique(names);
        assert(names@.map_values(|s: String| s@) == views(names@));
        add_code_mode_tools(&mut builder, &names, texts);
    }
    add_base_tools(
        &mut builder,
        config,
        config.code_mode_enabled,
        mcp_tools,
        app_tools,
        discoverable_tools,
        dynamic_tools,
        texts,
    );
    builder
}

/// The tools offered in a session without tool suggestions: see [`session_tools`].
pub fn build_specs(
    config: &ToolsConfig,
    mcp_tools: &Option<Vec<(String, McpTool)>>,
    app_tools: &Option<Vec<(String, ToolInfo)>>,
    dynamic_tools: &Vec<DynamicToolSpec>,
    texts: &ToolTexts,
) -> (r: ToolRegistryBuilder)
    ensures
        r@ == session_tools(
            config_base(*config),
            config.code_mode_enabled,
            mcp_view(*mcp_tools),
            app_view(*app_tools),
            None,
            dynamic_tools@,
            *texts,
        ),
{
    let none: Option<Vec<DiscoverableTool>> = None;
    build_specs_with_discoverable_tools(config, mcp_tools, app_tools, &none, dynamic_tools, texts)
}

}
