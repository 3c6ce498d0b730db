use vstd::prelude::*;

use crate::agent_tools::{
    close_agent_tool_view, report_agent_job_result_tool_view, request_permissions_tool_view,
    request_user_input_tool_view, resume_agent_tool_view, send_input_tool_view, spawn_agent_tool_view,
    spawn_agents_on_csv_tool_view, wait_tool_view,
};
use crate::builtin::{
    exec_command_tool_view, shell_command_tool_view, shell_tool_view, view_image_tool_view,
    write_stdin_tool_view,
};
use crate::code_mode::{augmented, lemma_augment_only_describes};
use crate::config::{ApplyPatchToolType, ConfigShellToolType, ToolsConfigBase};
use crate::discoverable::DiscoverableView;
use crate::mcp::{input_schema_result, mcp_input_result, DynamicToolSpec, McpToolView};
use crate::misc_tools::{
    artifacts_tool_view, code_mode_tool_view, exec_wait_tool_view, grep_files_tool_view,
    js_repl_reset_tool_view, js_repl_tool_view, list_dir_tool_view,
    list_mcp_resource_templates_tool_view, list_mcp_resources_tool_view, read_file_tool_view,
    read_mcp_resource_tool_view, test_sync_tool_view, tool_search_tool_view, tool_suggest_tool_view,
};
use crate::registry::{handler_key, handler_of, BuilderView, HandlerKind};
use crate::sorting::{lemma_sort_by_key_sorted, sort_by_key};
use crate::texts;
use crate::tool::{tool_name, Tool, ToolInfo, ToolTexts, TOOL_SEARCH_NAME};
use crate::toolset::{
    add_dynamic_tools, add_mcp_tools, empty_builder, external_web_access, nested_tool_names, reg_app_aliases,
    session_tools, step_agents, step_apply_patch, step_code_mode, step_experimental, step_hosted,
    step_mcp_resources, step_search, step_session_tools, step_shell, tools_after, web_search_tool,
};

verus! {

/// The offered tools named `n`, in the order offered.
pub open spec fn named(specs: Seq<(Tool, bool)>, n: Seq<char>) -> Seq<(Tool, bool)>
    decreases specs.len(),
{
    if specs.len() == 0 {
        Seq::empty()
    } else {
        let rest = named(specs.drop_last(), n);
        if tool_name(specs.last().0) == n {
            rest.push(specs.last())
        } else {
            rest
        }
    }
}

/// The entry that offering `t` adds, when it is named `n`.
pub open spec fn one(t: Tool, parallel: bool, cm: bool, n: Seq<char>) -> Seq<(Tool, bool)> {
    if tool_name(augmented(t, cm)) == n {
        seq![(augmented(t, cm), parallel)]
    } else {
        Seq::empty()
    }
}

/// None of the plan and patch tools that the caller hands in is named `n`.
pub open spec fn texts_avoid(t: ToolTexts, n: Seq<char>) -> bool {
    &&& tool_name(t.plan_tool@) != n
    &&& tool_name(t.apply_patch_freeform_tool@) != n
    &&& tool_name(t.apply_patch_json_tool@) != n
}

proof fn lemma_named_push(n: Seq<char>)
    ensures
        forall|s: Seq<(Tool, bool)>, e: (Tool, bool)|
            #[trigger] named(s.push(e), n) == named(s, n) + (if tool_name(e.0) == n {
                seq![e]
            } else {
                Seq::<(Tool, bool)>::empty()
            }),
{
    assert forall|s: Seq<(Tool, bool)>, e: (Tool, bool)|
        #[trigger] named(s.push(e), n) == named(s, n) + (if tool_name(e.0) == n {
            seq![e]
        } else {
            Seq::<(Tool, bool)>::empty()
        }) by {
        assert(s.push(e).drop_last() =~= s);
        assert(named(s, n).push(e) =~= named(s, n) + seq![e]);
        assert(named(s, n) + Seq::<(Tool, bool)>::empty() =~= named(s, n));
    }
}

pub open spec fn shell_named(p: Seq<(Tool, bool)>, c: ToolsConfigBase, cm: bool, n: Seq<char>) -> Seq<(Tool, bool)> {
    match c.shell_type {
        ConfigShellToolType::Default => p + one(shell_tool_view(c.request_permission_enabled, c.windows_host), true, cm, n),
        ConfigShellToolType::Local => p + one(Tool::LocalShell, true, cm, n),
        ConfigShellToolType::UnifiedExec => p + one(
            exec_command_tool_view(c.allow_login_shell, c.request_permission_enabled),
            true,
            cm,
            n,
        ) + one(write_stdin_tool_view(), false, cm, n),
        ConfigShellToolType::Disabled => p,
        ConfigShellToolType::ShellCommand => p + one(
            shell_command_tool_view(c.allow_login_shell, c.request_permission_enabled, c.windows_host),
            true,
            cm,
            n,
        ),
    }
}

pub open spec fn mcp_resources_named(p: Seq<(Tool, bool)>, has_mcp: bool, cm: bool, n: Seq<char>) -> Seq<(Tool, bool)> {
    if has_mcp {
        p + one(list_mcp_resources_tool_view(), true, cm, n) + one(list_mcp_resource_templates_tool_view(), true, cm, n)
            + one(read_mcp_resource_tool_view(), true, cm, n)
    } else {
        p
    }
}

pub open spec fn session_named(p: Seq<(Tool, bool)>, c: ToolsConfigBase, t: ToolTexts, cm: bool, n: Seq<char>) -> Seq<(Tool, bool)> {
    let p = p + one(t.plan_tool@, false, cm, n);
    let p = if c.js_repl_enabled {
        p + one(js_repl_tool_view(), false, cm, n) + one(js_repl_reset_tool_view(), false, cm, n)
    } else {
        p
    };
    let p = if c.request_user_input {
        let description = if c.default_mode_request_user_input {
            t.request_user_input_default_mode_description@
        } else {
            t.request_user_input_description@
        };
        p + one(request_user_input_tool_view(description), false, cm, n)
    } else {
        p
    };
    if c.request_permissions_tool_enabled {
        p + one(request_permissions_tool_view(t.request_permissions_description@), false, cm, n)
    } else {
        p
    }
}

pub open spec fn search_named(
    p: Seq<(Tool, bool)>,
    c: ToolsConfigBase,
    app: Option<Seq<(String, ToolInfo)>>,
    disc: Option<Seq<DiscoverableView>>,
    t: ToolTexts,
    cm: bool,
    n: Seq<char>,
) -> Seq<(Tool, bool)> {
    let p = match app {
        Some(a) => if c.search_tool {
            p + one(tool_search_tool_view(t.tool_search_template@, a, t.tool_search_default_limit), true, cm, n)
        } else {
            p
        },
        None => p,
    };
    match disc {
        Some(d) => if c.tool_suggest && d.len() > 0 {
            p + one(tool_suggest_tool_view(t.tool_suggest_template@, d), true, false, n)
        } else {
            p
        },
        None => p,
    }
}

pub open spec fn apply_patch_named(p: Seq<(Tool, bool)>, c: ToolsConfigBase, t: ToolTexts, cm: bool, n: Seq<char>) -> Seq<(Tool, bool)> {
    match c.apply_patch_tool_type {
        Some(ApplyPatchToolType::Freeform) => p + one(t.apply_patch_freeform_tool@, false, cm, n),
        Some(ApplyPatchToolType::Function) => p + one(t.apply_patch_json_tool@, false, cm, n),
        None => p,
    }
}

pub open spec fn experimental_named(p: Seq<(Tool, bool)>, c: ToolsConfigBase, cm: bool, n: Seq<char>) -> Seq<(Tool, bool)> {
    let ex = c.experimental_supported_tools;
    let p = if ex.contains(texts::GREP_FILES_NAME@) {
        p + one(grep_files_tool_view(), true, cm, n)
    } else {
        p
    };
    let p = if ex.contains(texts::READ_FILE_NAME@) {
        p + one(read_file_tool_view(), true, cm, n)
    } else {
        p
    };
    let p = if ex.contains(texts::LIST_DIR_NAME@) {
        p + one(list_dir_tool_view(), true, cm, n)
    } else {
        p
    };
    if ex.contains(texts::TEST_SYNC_NAME@) {
        p + one(test_sync_tool_view(), true, cm, n)
    } else {
        p
    }
}

pub open spec fn hosted_named(p: Seq<(Tool, bool)>, c: ToolsConfigBase, cm: bool, n: Seq<char>) -> Seq<(Tool, bool)> {
    let p = match external_web_access(c.web_search_mode) {
        Some(e) => p + one(web_search_tool(c, e), false, cm, n),
        None => p,
    };
    let p = if c.image_gen_tool {
        p + one(Tool::ImageGeneration { output_format: texts::PNG_FORMAT@ }, false, cm, n)
    } else {
        p
    };
    let p = p + one(view_image_tool_view(c.can_request_original_image_detail), true, cm, n);
    if c.artifact_tools {
        p + one(artifacts_tool_view(), false, cm, n)
    } else {
        p
    }
}

pub open spec fn agents_named(p: Seq<(Tool, bool)>, c: ToolsConfigBase, t: ToolTexts, cm: bool, n: Seq<char>) -> Seq<(Tool, bool)> {
    let p = if c.collab_tools {
        p + one(spawn_agent_tool_view(c.available_models, t.agent_type_description@), false, cm, n) + one(
            send_input_tool_view(),
            false,
            cm,
            n,
        ) + one(resume_agent_tool_view(), false, cm, n) + one(
            wait_tool_view(t.default_wait_timeout_ms, t.min_wait_timeout_ms, t.max_wait_timeout_ms),
            false,
            cm,
            n,
        ) + one(close_agent_tool_view(), false, cm, n)
    } else {
        p
    };
    if c.agent_jobs_tools {
        let p = p + one(spawn_agents_on_csv_tool_view(), false, cm, n);
        if c.agent_jobs_worker_tools {
            p + one(report_agent_job_result_tool_view(), false, cm, n)
        } else {
            p
        }
    } else {
        p
    }
}

/// What the built-in steps offer under the name `n`, after what `p` holds.
pub open spec fn builtin_named(
    p: Seq<(Tool, bool)>,
    c: ToolsConfigBase,
    cm: bool,
    has_mcp: bool,
    app: Option<Seq<(String, ToolInfo)>>,
    disc: Option<Seq<DiscoverableView>>,
    t: ToolTexts,
    n: Seq<char>,
) -> Seq<(Tool, bool)> {
    let p = shell_named(p, c, cm, n);
    let p = mcp_resources_named(p, has_mcp, cm, n);
    let p = session_named(p, c, t, cm, n);
    let p = search_named(p, c, app, disc, t, cm, n);
    let p = apply_patch_named(p, c, t, cm, n);
    let p = experimental_named(p, c, cm, n);
    let p = hosted_named(p, c, cm, n);
    agents_named(p, c, t, cm, n)
}

proof fn lemma_shell_named(b: BuilderView, c: ToolsConfigBase, cm: bool, n: Seq<char>)
    ensures
        named(step_shell(b, c, cm).specs, n) == shell_named(named(b.specs, n), c, cm, n),
{
    lemma_named_push(n);
}

proof fn lemma_mcp_resources_named(b: BuilderView, has_mcp: bool, cm: bool, n: Seq<char>)
    ensures
        named(step_mcp_resources(b, has_mcp, cm).specs, n) == mcp_resources_named(named(b.specs, n), has_mcp, cm, n),
{
    lemma_named_push(n);
}

proof fn lemma_session_tools_named(b: BuilderView, c: ToolsConfigBase, t: ToolTexts, cm: bool, n: Seq<char>)
    ensures
        named(step_session_tools(b, c, t, cm).specs, n) == session_named(named(b.specs, n), c, t, cm, n),
{
    lemma_named_push(n);
}

proof fn lemma_search_named(
    b: BuilderView,
    c: ToolsConfigBase,
    app: Option<Seq<(String, ToolInfo)>>,
    disc: Option<Seq<DiscoverableView>>,
    t: ToolTexts,
    cm: bool,
    n: Seq<char>,
)
    ensures
        named(step_search(b, c, app, disc, t, cm).specs, n) == search_named(named(b.specs, n), c, app, disc, t, cm, n),
{
    lemma_named_push(n);
    match app {
        Some(a) => {
            let s = crate::toolset::push_tool(
                b,
                tool_search_tool_view(t.tool_search_template@, a, t.tool_search_default_limit),
                true,
                cm,
            );
            crate::toolset::lemma_app_aliases_keep_specs(crate::toolset::reg(s, TOOL_SEARCH_NAME@, HandlerKind::ToolSearch), a);
        },
        None => {},
    }
    match disc {
        Some(d) => {
            assert(augmented(tool_suggest_tool_view(t.tool_suggest_template@, d), false) == tool_suggest_tool_view(
                t.tool_suggest_template@,
                d,
            ));
        },
        None => {},
    }
}

proof fn lemma_apply_patch_named(b: BuilderView, c: ToolsConfigBase, t: ToolTexts, cm: bool, n: Seq<char>)
    ensures
        named(step_apply_patch(b, c, t, cm).specs, n) == apply_patch_named(named(b.specs, n), c, t, cm, n),
{
    lemma_named_push(n);
}

proof fn lemma_experimental_named(b: BuilderView, c: ToolsConfigBase, cm: bool, n: Seq<char>)
    ensures
        named(step_experimental(b, c, cm).specs, n) == experimental_named(named(b.specs, n), c, cm, n),
{
    lemma_named_push(n);
    let ex = c.experimental_supported_tools;
    let g = ex.contains(texts::GREP_FILES_NAME@);
    let r = ex.contains(texts::READ_FILE_NAME@);
    let l = ex.contains(texts::LIST_DIR_NAME@);
    let y = ex.contains(texts::TEST_SYNC_NAME@);
    let b1 = if g {
        crate::toolset::reg(crate::toolset::push_tool(b, grep_files_tool_view(), true, cm), texts::GREP_FILES_NAME@, HandlerKind::GrepFiles)
    } else {
        b
    };
    let p1 = if g { named(b.specs, n) + one(grep_files_tool_view(), true, cm, n) } else { named(b.specs, n) };
    assert(named(b1.specs, n) == p1);
    let b2 = if r {
        crate::toolset::reg(crate::toolset::push_tool(b1, read_file_tool_view(), true, cm), texts::READ_FILE_NAME@, HandlerKind::ReadFile)
    } else {
        b1
    };
    let p2 = if r { p1 + one(read_file_tool_view(), true, cm, n) } else { p1 };
    assert(named(b2.specs, n) == p2);
    let b3 = if l {
        crate::toolset::reg(crate::toolset::push_tool(b2, list_dir_tool_view(), true, cm), texts::LIST_DIR_NAME@, HandlerKind::ListDir)
    } else {
        b2
    };
    let p3 = if l { p2 + one(list_dir_tool_view(), true, cm, n) } else { p2 };
    assert(named(b3.specs, n) == p3);
    assert(step_experimental(b, c, cm) == (if y {
        crate::toolset::reg(crate::toolset::push_tool(b3, test_sync_tool_view(), true, cm), texts::TEST_SYNC_NAME@, HandlerKind::TestSync)
    } else {
        b3
    }));
}

proof fn lemma_hosted_named(b: BuilderView, c: ToolsConfigBase, cm: bool, n: Seq<char>)
    ensures
        named(step_hosted(b, c, cm).specs, n) == hosted_named(named(b.specs, n), c, cm, n),
{
    lemma_named_push(n);
}

proof fn lemma_agents_named(b: BuilderView, c: ToolsConfigBase, t: ToolTexts, cm: bool, n: Seq<char>)
    ensures
        named(step_agents(b, c, t, cm).specs, n) == agents_named(named(b.specs, n), c, t, cm, n),
{
    lemma_named_push(n);
}

proof fn lemma_steps_named(
    b: BuilderView,
    c: ToolsConfigBase,
    cm: bool,
    has_mcp: bool,
    app: Option<Seq<(String, ToolInfo)>>,
    disc: Option<Seq<DiscoverableView>>,
    t: ToolTexts,
    n: Seq<char>,
)
    ensures
        ({
            let b1 = step_shell(b, c, cm);
            let b2 = step_mcp_resources(b1, has_mcp, cm);
            let b3 = step_session_tools(b2, c, t, cm);
            let b4 = step_search(b3, c, app, disc, t, cm);
            let b5 = step_apply_patch(b4, c, t, cm);
            let b6 = step_experimental(b5, c, cm);
            let b7 = step_hosted(b6, c, cm);
            let b8 = step_agents(b7, c, t, cm);
            named(b8.specs, n) == builtin_named(named(b.specs, n), c, cm, has_mcp, app, disc, t, n)
        }),
{
    let b1 = step_shell(b, c, cm);
    lemma_shell_named(b, c, cm, n);
    let b2 = step_mcp_resources(b1, has_mcp, cm);
    lemma_mcp_resources_named(b1, has_mcp, cm, n);
    let b3 = step_session_tools(b2, c, t, cm);
    lemma_session_tools_named(b2, c, t, cm, n);
    let b4 = step_search(b3, c, app, disc, t, cm);
    lemma_search_named(b3, c, app, disc, t, cm, n);
    let b5 = step_apply_patch(b4, c, t, cm);
    lemma_apply_patch_named(b4, c, t, cm, n);
    let b6 = step_experimental(b5, c, cm);
    lemma_experimental_named(b5, c, cm, n);
    let b7 = step_hosted(b6, c, cm);
    lemma_hosted_named(b6, c, cm, n);
    lemma_agents_named(b7, c, t, cm, n);
}

proof fn lemma_mcp_tools_not_named(b: BuilderView, entries: Seq<(Seq<char>, McpToolView)>, cm: bool, n: Seq<char>)
    requires
        forall|k: int| 0 <= k < entries.len() ==> #[trigger] entries[k].0 != n,
    ensures
        named(add_mcp_tools(b, entries, cm).specs, n) == named(b.specs, n),
    decreases entries.len(),
{
    if entries.len() > 0 {
        let init = entries.drop_last();
        assert forall|k: int| 0 <= k < init.len() implies #[trigger] init[k].0 != n by {
            assert(init[k] == entries[k]);
        }
        lemma_mcp_tools_not_named(b, init, cm, n);
        lemma_named_push(n);
        let (name, tool) = entries.last();
        assert(entries[entries.len() - 1].0 != n);
        match mcp_input_result(tool) {
            Ok(s) => {
                lemma_augment_only_describes(crate::toolset::mcp_function(name, tool, s), cm);
                assert(Seq::<(Tool, bool)>::empty() + named(b.specs, n) =~= named(b.specs, n));
                assert(named(add_mcp_tools(b, init, cm).specs, n) + Seq::<(Tool, bool)>::empty()
                    =~= named(b.specs, n));
            },
            Err(_) => {},
        }
    }
}

proof fn lemma_dynamic_tools_not_named(b: BuilderView, tools: Seq<DynamicToolSpec>, cm: bool, n: Seq<char>)
    requires
        forall|k: int| 0 <= k < tools.len() ==> #[trigger] tools[k].name@ != n,
    ensures
        named(add_dynamic_tools(b, tools, cm).specs, n) == named(b.specs, n),
    decreases tools.len(),
{
    if tools.len() > 0 {
        let init = tools.drop_last();
        assert forall|k: int| 0 <= k < init.len() implies #[trigger] init[k].name@ != n by {
            assert(init[k] == tools[k]);
        }
        lemma_dynamic_tools_not_named(b, init, cm, n);
        lemma_named_push(n);
        let tool = tools.last();
        assert(tools[tools.len() - 1].name@ != n);
        match input_schema_result(tool.input_schema@) {
            Ok(s) => {
                lemma_augment_only_describes(crate::toolset::dynamic_function(tool, s), cm);
                assert(named(add_dynamic_tools(b, init, cm).specs, n) + Seq::<(Tool, bool)>::empty()
                    =~= named(b.specs, n));
            },
            Err(_) => {},
        }
    }
}

/// No MCP tool is offered under `n`.
pub open spec fn mcp_avoids(mcp: Option<Seq<(Seq<char>, McpToolView)>>, n: Seq<char>) -> bool {
    match mcp {
        Some(m) => forall|k: int| 0 <= k < m.len() ==> #[trigger] m[k].0 != n,
        None => true,
    }
}

/// No dynamic tool is named `n`.
pub open spec fn dynamic_avoids(dynamic: Seq<DynamicToolSpec>, n: Seq<char>) -> bool {
    forall|k: int| 0 <= k < dynamic.len() ==> #[trigger] dynamic[k].name@ != n
}

/// Where neither an MCP tool nor a dynamic tool takes the name `n`, what a
/// session offers under `n` is what its built-in steps offer.
pub proof fn lemma_session_named(
    c: ToolsConfigBase,
    cm: bool,
    mcp: Option<Seq<(Seq<char>, McpToolView)>>,
    app: Option<Seq<(String, ToolInfo)>>,
    disc: Option<Seq<DiscoverableView>>,
    dynamic: Seq<DynamicToolSpec>,
    t: ToolTexts,
    n: Seq<char>,
)
    requires
        mcp_avoids(mcp, n),
        dynamic_avoids(dynamic, n),
    ensures
        named(session_tools(c, cm, mcp, app, disc, dynamic, t).specs, n) == builtin_named(
            if cm {
                let nested = tools_after(empty_builder(), c, false, mcp, app, None, dynamic, t);
                one(code_mode_tool_view(t.code_mode_description_template@, nested_tool_names(nested.specs)), false, true, n)
                    + one(exec_wait_tool_view(t.code_mode_wait_description@), false, true, n)
            } else {
                Seq::empty()
            },
            c,
            cm,
            mcp is Some,
            app,
            disc,
            t,
            n,
        ),
{
    lemma_named_push(n);
    let b = if cm {
        let nested = tools_after(empty_builder(), c, false, mcp, app, None, dynamic, t);
        step_code_mode(empty_builder(), nested_tool_names(nested.specs), t)
    } else {
        empty_builder()
    };
    if cm {
        let nested = tools_after(empty_builder(), c, false, mcp, app, None, dynamic, t);
        assert(named(b.specs, n) =~= one(
            code_mode_tool_view(t.code_mode_description_template@, nested_tool_names(nested.specs)),
            false,
            true,
            n,
        ) + one(exec_wait_tool_view(t.code_mode_wait_description@), false, true, n));
    } else {
        assert(named(b.specs, n) =~= Seq::<(Tool, bool)>::empty());
    }
    lemma_steps_named(b, c, cm, mcp is Some, app, disc, t, n);
    let b1 = step_shell(b, c, cm);
    let b2 = step_mcp_resources(b1, mcp is Some, cm);
    let b3 = step_session_tools(b2, c, t, cm);
    let b4 = step_search(b3, c, app, disc, t, cm);
    let b5 = step_apply_patch(b4, c, t, cm);
    let b6 = step_experimental(b5, c, cm);
    let b7 = step_hosted(b6, c, cm);
    let b8 = step_agents(b7, c, t, cm);
    let b9 = match mcp {
        Some(m) => add_mcp_tools(b8, sort_by_key(m), cm),
        None => b8,
    };
    match mcp {
        Some(m) => {
            let sm = sort_by_key(m);
            lemma_sort_by_key_sorted(m);
            assert forall|k: int| 0 <= k < sm.len() implies #[trigger] sm[k].0 != n by {
                broadcast use vstd::seq_lib::group_to_multiset_ensures;

                assert(sm.to_multiset().count(sm[k]) > 0);
                assert(m.to_multiset().count(sm[k]) > 0);
                assert(m.contains(sm[k]));
                let j = choose|j: int| 0 <= j < m.len() && m[j] == sm[k];
                assert(m[j].0 != n);
            }
            lemma_mcp_tools_not_named(b8, sm, cm, n);
        },
        None => {},
    }
    lemma_dynamic_tools_not_named(b9, dynamic, cm, n);
}



proof fn lemma_one_other(t: Tool, parallel: bool, cm: bool, n: Seq<char>)
    requires
        tool_name(t) != n,
    ensures
        one(t, parallel, cm, n) == Seq::<(Tool, bool)>::empty(),
{
    lemma_augment_only_describes(t, cm);
}

proof fn lemma_one_named(t: Tool, parallel: bool, cm: bool)
    ensures
        one(t, parallel, cm, tool_name(t)) == seq![(augmented(t, cm), parallel)],
{
    lemma_augment_only_describes(t, cm);
}

proof fn lemma_add_empty(p: Seq<(Tool, bool)>)
    ensures
        p + Seq::<(Tool, bool)>::empty() == p,
{
    assert(p + Seq::<(Tool, bool)>::empty() =~= p);
}

proof fn lemma_shell_other(p: Seq<(Tool, bool)>, c: ToolsConfigBase, cm: bool, n: Seq<char>)
    requires
        n != texts::SHELL_NAME@,
        n != crate::tool::LOCAL_SHELL_NAME@,
        n != texts::EXEC_COMMAND_NAME@,
        n != texts::WRITE_STDIN_NAME@,
        n != texts::SHELL_COMMAND_NAME@,
    ensures
        shell_named(p, c, cm, n) == p,
{
    lemma_one_other(shell_tool_view(c.request_permission_enabled, c.windows_host), true, cm, n);
    lemma_one_other(Tool::LocalShell, true, cm, n);
    lemma_one_other(exec_command_tool_view(c.allow_login_shell, c.request_permission_enabled), true, cm, n);
    lemma_one_other(write_stdin_tool_view(), false, cm, n);
    lemma_one_other(
        shell_command_tool_view(c.allow_login_shell, c.request_permission_enabled, c.windows_host),
        true,
        cm,
        n,
    );
    lemma_add_empty(p);
}

proof fn lemma_mcp_resources_counted(p: Seq<(Tool, bool)>, has_mcp: bool, cm: bool, n: Seq<char>)
    ensures
        (n != texts::LIST_MCP_RESOURCES_NAME@ && n != texts::LIST_MCP_RESOURCE_TEMPLATES_NAME@ && n
            != texts::READ_MCP_RESOURCE_NAME@) ==> mcp_resources_named(p, has_mcp, cm, n) == p,
        (n == texts::LIST_MCP_RESOURCES_NAME@ || n == texts::LIST_MCP_RESOURCE_TEMPLATES_NAME@ || n
            == texts::READ_MCP_RESOURCE_NAME@) ==> mcp_resources_named(p, has_mcp, cm, n).len() == p.len() + (
        if has_mcp {
            1int
        } else {
            0int
        }),
{
    lemma_name_facts();
    reveal_strlit("list_mcp_resources");
    reveal_strlit("list_mcp_resource_templates");
    reveal_strlit("read_mcp_resource");
    let a = list_mcp_resources_tool_view();
    let b = list_mcp_resource_templates_tool_view();
    let r = read_mcp_resource_tool_view();
    lemma_augment_only_describes(a, cm);
    lemma_augment_only_describes(b, cm);
    lemma_augment_only_describes(r, cm);
    lemma_add_empty(p);
    assert(tool_name(a) == texts::LIST_MCP_RESOURCES_NAME@);
    assert(tool_name(b) == texts::LIST_MCP_RESOURCE_TEMPLATES_NAME@);
    assert(tool_name(r) == texts::READ_MCP_RESOURCE_NAME@);
}

proof fn lemma_session_counted(p: Seq<(Tool, bool)>, c: ToolsConfigBase, t: ToolTexts, cm: bool, n: Seq<char>)
    requires
        texts_avoid(t, n),
    ensures
        (n != texts::JS_REPL_NAME@ && n != texts::JS_REPL_RESET_NAME@ && n
            != texts::REQUEST_USER_INPUT_NAME@ && n != texts::REQUEST_PERMISSIONS_NAME@) ==> session_named(
            p,
            c,
            t,
            cm,
            n,
        ) == p,
        (n == texts::JS_REPL_NAME@ || n == texts::JS_REPL_RESET_NAME@) ==> session_named(p, c, t, cm, n).len()
            == p.len() + (if c.js_repl_enabled {
            1int
        } else {
            0int
        }),
        n == texts::REQUEST_PERMISSIONS_NAME@ ==> session_named(p, c, t, cm, n).len() == p.len() + (
        if c.request_permissions_tool_enabled {
            1int
        } else {
            0int
        }),
{
    lemma_name_facts();
    reveal_strlit("update_plan");
    reveal_strlit("js_repl");
    reveal_strlit("js_repl_reset");
    reveal_strlit("request_user_input");
    reveal_strlit("request_permissions");
    let description = if c.default_mode_request_user_input {
        t.request_user_input_default_mode_description@
    } else {
        t.request_user_input_description@
    };
    let j = js_repl_tool_view();
    let jr = js_repl_reset_tool_view();
    let u = request_user_input_tool_view(description);
    let rp = request_permissions_tool_view(t.request_permissions_description@);
    lemma_augment_only_describes(t.plan_tool@, cm);
    lemma_augment_only_describes(j, cm);
    lemma_augment_only_describes(jr, cm);
    lemma_augment_only_describes(u, cm);
    lemma_augment_only_describes(rp, cm);
    assert(tool_name(j) == texts::JS_REPL_NAME@);
    assert(tool_name(jr) == texts::JS_REPL_RESET_NAME@);
    assert(tool_name(u) == texts::REQUEST_USER_INPUT_NAME@);
    assert(tool_name(rp) == texts::REQUEST_PERMISSIONS_NAME@);
    lemma_add_empty(p);
    lemma_add_empty(p + one(t.plan_tool@, false, cm, n));
}

proof fn lemma_search_counted(
    p: Seq<(Tool, bool)>,
    c: ToolsConfigBase,
    app: Option<Seq<(String, ToolInfo)>>,
    disc: Option<Seq<DiscoverableView>>,
    t: ToolTexts,
    cm: bool,
    n: Seq<char>,
)
    ensures
        (n != TOOL_SEARCH_NAME@ && n != texts::TOOL_SUGGEST_NAME@) ==> search_named(p, c, app, disc, t, cm, n) == p,
        n == TOOL_SEARCH_NAME@ ==> search_named(p, c, app, disc, t, cm, n).len() == p.len() + (
        if c.search_tool && app is Some {
            1int
        } else {
            0int
        }),
        n == texts::TOOL_SUGGEST_NAME@ ==> search_named(p, c, app, disc, t, cm, n).len() == p.len() + (
        if c.tool_suggest && (disc matches Some(d) && d.len() > 0) {
            1int
        } else {
            0int
        }),
{
    lemma_name_facts();
    reveal_strlit("tool_search");
    reveal_strlit("tool_suggest");
    lemma_add_empty(p);
    match app {
        Some(a) => {
            let v = tool_search_tool_view(t.tool_search_template@, a, t.tool_search_default_limit);
            lemma_augment_only_describes(v, cm);
            assert(tool_name(v) == TOOL_SEARCH_NAME@);
            lemma_add_empty(p + one(v, true, cm, n));
        },
        None => {},
    }
    match disc {
        Some(d) => {
            let v = tool_suggest_tool_view(t.tool_suggest_template@, d);
            lemma_augment_only_describes(v, false);
            assert(tool_name(v) == texts::TOOL_SUGGEST_NAME@);
        },
        None => {},
    }
}

proof fn lemma_apply_patch_other(p: Seq<(Tool, bool)>, c: ToolsConfigBase, t: ToolTexts, cm: bool, n: Seq<char>)
    requires
        texts_avoid(t, n),
    ensures
        apply_patch_named(p, c, t, cm, n) == p,
{
    lemma_one_other(t.apply_patch_freeform_tool@, false, cm, n);
    lemma_one_other(t.apply_patch_json_tool@, false, cm, n);
    lemma_add_empty(p);
}

proof fn lemma_experimental_other(p: Seq<(Tool, bool)>, c: ToolsConfigBase, cm: bool, n: Seq<char>)
    requires
        n != texts::GREP_FILES_NAME@,
        n != texts::READ_FILE_NAME@,
        n != texts::LIST_DIR_NAME@,
        n != texts::TEST_SYNC_NAME@,
    ensures
        experimental_named(p, c, cm, n) == p,
{
    lemma_one_other(grep_files_tool_view(), true, cm, n);
    lemma_one_other(read_file_tool_view(), true, cm, n);
    lemma_one_other(list_dir_tool_view(), true, cm, n);
    lemma_one_other(test_sync_tool_view(), true, cm, n);
    lemma_add_empty(p);
}

proof fn lemma_hosted_counted(p: Seq<(Tool, bool)>, c: ToolsConfigBase, cm: bool, n: Seq<char>)
    ensures
        (n != crate::tool::WEB_SEARCH_NAME@ && n != crate::tool::IMAGE_GENERATION_NAME@ && n
            != texts::VIEW_IMAGE_NAME@ && n != texts::ARTIFACTS_NAME@) ==> hosted_named(p, c, cm, n) == p,
        n == crate::tool::WEB_SEARCH_NAME@ ==> hosted_named(p, c, cm, n) == p + match external_web_access(
            c.web_search_mode,
        ) {
            Some(e) => seq![(web_search_tool(c, e), false)],
            None => Seq::<(Tool, bool)>::empty(),
        },
{
    lemma_name_facts();
    reveal_strlit("web_search");
    reveal_strlit("image_generation");
    reveal_strlit("view_image");
    reveal_strlit("artifacts");
    let img = Tool::ImageGeneration { output_format: texts::PNG_FORMAT@ };
    let vi = view_image_tool_view(c.can_request_original_image_detail);
    let ar = artifacts_tool_view();
    lemma_augment_only_describes(img, cm);
    lemma_augment_only_describes(vi, cm);
    lemma_augment_only_describes(ar, cm);
    assert(tool_name(vi) == texts::VIEW_IMAGE_NAME@);
    assert(tool_name(ar) == texts::ARTIFACTS_NAME@);
    lemma_add_empty(p);
    let p1 = match external_web_access(c.web_search_mode) {
        Some(e) => p + one(web_search_tool(c, e), false, cm, n),
        None => p,
    };
    match external_web_access(c.web_search_mode) {
        Some(e) => {
            lemma_augment_only_describes(web_search_tool(c, e), cm);
        },
        None => {},
    }
    lemma_add_empty(p1);
    lemma_add_empty(p1 + one(img, false, cm, n));
    let p2 = if c.image_gen_tool { p1 + one(img, false, cm, n) } else { p1 };
    lemma_add_empty(p2);
    lemma_add_empty(p2 + one(vi, true, cm, n));
    if n == crate::tool::WEB_SEARCH_NAME@ {
        assert(one(img, false, cm, n) == Seq::<(Tool, bool)>::empty());
        assert(one(vi, true, cm, n) == Seq::<(Tool, bool)>::empty());
        assert(one(ar, false, cm, n) == Seq::<(Tool, bool)>::empty());
        assert(p2 == p1);
        match external_web_access(c.web_search_mode) {
            Some(e) => {
                assert(tool_name(web_search_tool(c, e)) == n);
                assert(one(web_search_tool(c, e), false, cm, n) == seq![(web_search_tool(c, e), false)]);
            },
            None => {},
        }
        assert(hosted_named(p, c, cm, n) == p1);
    }
}

#[verifier::rlimit(40)]
proof fn lemma_agents_counted(p: Seq<(Tool, bool)>, c: ToolsConfigBase, t: ToolTexts, cm: bool, n: Seq<char>)
    ensures
        (n != texts::SPAWN_AGENT_NAME@ && n != texts::SEND_INPUT_NAME@ && n != texts::RESUME_AGENT_NAME@ && n
            != texts::WAIT_NAME@ && n != texts::CLOSE_AGENT_NAME@ && n != texts::SPAWN_AGENTS_ON_CSV_NAME@ && n
            != texts::REPORT_AGENT_JOB_RESULT_NAME@) ==> agents_named(p, c, t, cm, n) == p,
        (n == texts::SPAWN_AGENT_NAME@ || n == texts::SEND_INPUT_NAME@ || n == texts::RESUME_AGENT_NAME@ || n
            == texts::WAIT_NAME@ || n == texts::CLOSE_AGENT_NAME@) ==> agents_named(p, c, t, cm, n).len() == p.len()
            + (if c.collab_tools {
            1int
        } else {
            0int
        }),
        n == texts::SPAWN_AGENTS_ON_CSV_NAME@ ==> agents_named(p, c, t, cm, n).len() == p.len() + (
        if c.agent_jobs_tools {
            1int
        } else {
            0int
        }),
{
    lemma_name_facts();
    reveal_strlit("spawn_agent");
    reveal_strlit("send_input");
    reveal_strlit("resume_agent");
    reveal_strlit("wait");
    reveal_strlit("close_agent");
    reveal_strlit("spawn_agents_on_csv");
    reveal_strlit("report_agent_job_result");
    let sa = spawn_agent_tool_view(c.available_models, t.agent_type_description@);
    let si = send_input_tool_view();
    let ra = resume_agent_tool_view();
    let w = wait_tool_view(t.default_wait_timeout_ms, t.min_wait_timeout_ms, t.max_wait_timeout_ms);
    let ca = close_agent_tool_view();
    let csv = spawn_agents_on_csv_tool_view();
    let rep = report_agent_job_result_tool_view();
    lemma_augment_only_describes(sa, cm);
    lemma_augment_only_describes(si, cm);
    lemma_augment_only_describes(ra, cm);
    lemma_augment_only_describes(w, cm);
    lemma_augment_only_describes(ca, cm);
    lemma_augment_only_describes(csv, cm);
    lemma_augment_only_describes(rep, cm);
    assert(tool_name(sa) == texts::SPAWN_AGENT_NAME@);
    assert(tool_name(si) == texts::SEND_INPUT_NAME@);
    assert(tool_name(ra) == texts::RESUME_AGENT_NAME@);
    assert(tool_name(w) == texts::WAIT_NAME@);
    assert(tool_name(ca) == texts::CLOSE_AGENT_NAME@);
    assert(tool_name(csv) == texts::SPAWN_AGENTS_ON_CSV_NAME@);
    assert(tool_name(rep) == texts::REPORT_AGENT_JOB_RESULT_NAME@);
    lemma_add_empty(p);
    let p1 = p + one(sa, false, cm, n);
    let p2 = p1 + one(si, false, cm, n);
    let p3 = p2 + one(ra, false, cm, n);
    let p4 = p3 + one(w, false, cm, n);
    lemma_add_empty(p1);
    lemma_add_empty(p2);
    lemma_add_empty(p3);
    lemma_add_empty(p4);
    let q = if c.collab_tools { p4 + one(ca, false, cm, n) } else { p };
    lemma_add_empty(q);
    lemma_add_empty(q + one(csv, false, cm, n));
}

proof fn lemma_code_mode_other(t: ToolTexts, nested: Seq<Seq<char>>, n: Seq<char>)
    requires
        n != texts::PUBLIC_TOOL_NAME@,
        n != texts::WAIT_TOOL_NAME@,
    ensures
        one(code_mode_tool_view(t.code_mode_description_template@, nested), false, true, n) + one(
            exec_wait_tool_view(t.code_mode_wait_description@),
            false,
            true,
            n,
        ) == Seq::<(Tool, bool)>::empty(),
{
    lemma_one_other(code_mode_tool_view(t.code_mode_description_template@, nested), false, true, n);
    lemma_one_other(exec_wait_tool_view(t.code_mode_wait_description@), false, true, n);
    lemma_add_empty(Seq::<(Tool, bool)>::empty());
}


/// The length and first letter of each tool name, which tell the names apart.
proof fn lemma_name_facts()
    ensures
        texts::EXEC_COMMAND_NAME@.len() == 12 && texts::EXEC_COMMAND_NAME@[0] == 'e',
        texts::WRITE_STDIN_NAME@.len() == 11 && texts::WRITE_STDIN_NAME@[0] == 'w',
        texts::SHELL_NAME@.len() == 5 && texts::SHELL_NAME@[0] == 's',
        texts::SHELL_COMMAND_NAME@.len() == 13 && texts::SHELL_COMMAND_NAME@[0] == 's',
        texts::VIEW_IMAGE_NAME@.len() == 10 && texts::VIEW_IMAGE_NAME@[0] == 'v',
        texts::SPAWN_AGENT_NAME@.len() == 11 && texts::SPAWN_AGENT_NAME@[0] == 's',
        texts::SPAWN_AGENTS_ON_CSV_NAME@.len() == 19 && texts::SPAWN_AGENTS_ON_CSV_NAME@[0] == 's',
        texts::REPORT_AGENT_JOB_RESULT_NAME@.len() == 23 && texts::REPORT_AGENT_JOB_RESULT_NAME@[0] == 'r',
        texts::SEND_INPUT_NAME@.len() == 10 && texts::SEND_INPUT_NAME@[0] == 's',
        texts::RESUME_AGENT_NAME@.len() == 12 && texts::RESUME_AGENT_NAME@[0] == 'r',
        texts::WAIT_NAME@.len() == 4 && texts::WAIT_NAME@[0] == 'w',
        texts::CLOSE_AGENT_NAME@.len() == 11 && texts::CLOSE_AGENT_NAME@[0] == 'c',
        texts::REQUEST_USER_INPUT_NAME@.len() == 18 && texts::REQUEST_USER_INPUT_NAME@[0] == 'r',
        texts::REQUEST_PERMISSIONS_NAME@.len() == 19 && texts::REQUEST_PERMISSIONS_NAME@[0] == 'r',
        texts::TEST_SYNC_NAME@.len() == 14 && texts::TEST_SYNC_NAME@[0] == 't',
        texts::GREP_FILES_NAME@.len() == 10 && texts::GREP_FILES_NAME@[0] == 'g',
        texts::READ_FILE_NAME@.len() == 9 && texts::READ_FILE_NAME@[0] == 'r',
        texts::LIST_DIR_NAME@.len() == 8 && texts::LIST_DIR_NAME@[0] == 'l',
        texts::JS_REPL_NAME@.len() == 7 && texts::JS_REPL_NAME@[0] == 'j',
        texts::JS_REPL_RESET_NAME@.len() == 13 && texts::JS_REPL_RESET_NAME@[0] == 'j',
        texts::ARTIFACTS_NAME@.len() == 9 && texts::ARTIFACTS_NAME@[0] == 'a',
        texts::LIST_MCP_RESOURCES_NAME@.len() == 18 && texts::LIST_MCP_RESOURCES_NAME@[0] == 'l',
        texts::LIST_MCP_RESOURCE_TEMPLATES_NAME@.len() == 27 && texts::LIST_MCP_RESOURCE_TEMPLATES_NAME@[0] == 'l',
        texts::READ_MCP_RESOURCE_NAME@.len() == 17 && texts::READ_MCP_RESOURCE_NAME@[0] == 'r',
        texts::TOOL_SUGGEST_NAME@.len() == 12 && texts::TOOL_SUGGEST_NAME@[0] == 't',
        texts::UPDATE_PLAN_NAME@.len() == 11 && texts::UPDATE_PLAN_NAME@[0] == 'u',
        texts::APPLY_PATCH_NAME@.len() == 11 && texts::APPLY_PATCH_NAME@[0] == 'a',
        texts::PUBLIC_TOOL_NAME@.len() == 4 && texts::PUBLIC_TOOL_NAME@[0] == 'e',
        texts::WAIT_TOOL_NAME@.len() == 9 && texts::WAIT_TOOL_NAME@[0] == 'e',
        crate::tool::TOOL_SEARCH_NAME@.len() == 11 && crate::tool::TOOL_SEARCH_NAME@[0] == 't',
        crate::tool::LOCAL_SHELL_NAME@.len() == 11 && crate::tool::LOCAL_SHELL_NAME@[0] == 'l',
        crate::tool::IMAGE_GENERATION_NAME@.len() == 16 && crate::tool::IMAGE_GENERATION_NAME@[0] == 'i',
        crate::tool::WEB_SEARCH_NAME@.len() == 10 && crate::tool::WEB_SEARCH_NAME@[0] == 'w',
{
    reveal_strlit("exec_command");
    reveal_strlit("write_stdin");
    reveal_strlit("shell");
    reveal_strlit("shell_command");
    reveal_strlit("view_image");
    reveal_strlit("spawn_agent");
    reveal_strlit("spawn_agents_on_csv");
    reveal_strlit("report_agent_job_result");
    reveal_strlit("send_input");
    reveal_strlit("resume_agent");
    reveal_strlit("wait");
    reveal_strlit("close_agent");
    reveal_strlit("request_user_input");
    reveal_strlit("request_permissions");
    reveal_strlit("test_sync_tool");
    reveal_strlit("grep_files");
    reveal_strlit("read_file");
    reveal_strlit("list_dir");
    reveal_strlit("js_repl");
    reveal_strlit("js_repl_reset");
    reveal_strlit("artifacts");
    reveal_strlit("list_mcp_resources");
    reveal_strlit("list_mcp_resource_templates");
    reveal_strlit("read_mcp_resource");
    reveal_strlit("tool_suggest");
    reveal_strlit("update_plan");
    reveal_strlit("apply_patch");
    reveal_strlit("exec");
    reveal_strlit("exec_wait");
    reveal_strlit("tool_search");
    reveal_strlit("local_shell");
    reveal_strlit("image_generation");
    reveal_strlit("web_search");
}


/// The names that the laws below speak of.
pub open spec fn flagged_name(n: Seq<char>) -> bool {
    n == texts::JS_REPL_NAME@ || n == texts::JS_REPL_RESET_NAME@ || n == texts::REQUEST_PERMISSIONS_NAME@ || n
        == texts::SPAWN_AGENT_NAME@ || n == texts::SEND_INPUT_NAME@ || n == texts::RESUME_AGENT_NAME@ || n
        == texts::WAIT_NAME@ || n == texts::CLOSE_AGENT_NAME@ || n == texts::SPAWN_AGENTS_ON_CSV_NAME@ || n
        == texts::LIST_MCP_RESOURCES_NAME@ || n == texts::LIST_MCP_RESOURCE_TEMPLATES_NAME@ || n
        == texts::READ_MCP_RESOURCE_NAME@ || n == TOOL_SEARCH_NAME@ || n == texts::TOOL_SUGGEST_NAME@ || n
        == crate::tool::WEB_SEARCH_NAME@
}

/// How many tools named `n` the built-in steps offer, by the flags that govern them.
pub open spec fn flagged_count(
    c: ToolsConfigBase,
    has_mcp: bool,
    app: Option<Seq<(String, ToolInfo)>>,
    disc: Option<Seq<DiscoverableView>>,
    n: Seq<char>,
) -> int {
    let on = if n == texts::JS_REPL_NAME@ || n == texts::JS_REPL_RESET_NAME@ {
        c.js_repl_enabled
    } else if n == texts::REQUEST_PERMISSIONS_NAME@ {
        c.request_permissions_tool_enabled
    } else if n == texts::SPAWN_AGENT_NAME@ || n == texts::SEND_INPUT_NAME@ || n == texts::RESUME_AGENT_NAME@ || n
        == texts::WAIT_NAME@ || n == texts::CLOSE_AGENT_NAME@ {
        c.collab_tools
    } else if n == texts::SPAWN_AGENTS_ON_CSV_NAME@ {
        c.agent_jobs_tools
    } else if n == texts::LIST_MCP_RESOURCES_NAME@ || n == texts::LIST_MCP_RESOURCE_TEMPLATES_NAME@ || n
        == texts::READ_MCP_RESOURCE_NAME@ {
        has_mcp
    } else if n == TOOL_SEARCH_NAME@ {
        c.search_tool && app is Some
    } else if n == texts::TOOL_SUGGEST_NAME@ {
        c.tool_suggest && (disc matches Some(d) && d.len() > 0)
    } else {
        external_web_access(c.web_search_mode) is Some
    };
    if on {
        1
    } else {
        0
    }
}

#[verifier::rlimit(60)]
proof fn lemma_builtin_flagged(
    p0: Seq<(Tool, bool)>,
    c: ToolsConfigBase,
    cm: bool,
    has_mcp: bool,
    app: Option<Seq<(String, ToolInfo)>>,
    disc: Option<Seq<DiscoverableView>>,
    t: ToolTexts,
    n: Seq<char>,
)
    requires
        texts_avoid(t, n),
        flagged_name(n),
    ensures
        builtin_named(p0, c, cm, has_mcp, app, disc, t, n).len() == p0.len() + flagged_count(c, has_mcp, app, disc, n),
        n == crate::tool::WEB_SEARCH_NAME@ ==> builtin_named(p0, c, cm, has_mcp, app, disc, t, n) == p0 + match external_web_access(
            c.web_search_mode,
        ) {
            Some(e) => seq![(web_search_tool(c, e), false)],
            None => Seq::<(Tool, bool)>::empty(),
        },
{
    lemma_name_facts();
    lemma_shell_other(p0, c, cm, n);
    assert(shell_named(p0, c, cm, n) == p0);
    let p2 = mcp_resources_named(p0, has_mcp, cm, n);
    lemma_mcp_resources_counted(p0, has_mcp, cm, n);
    let p3 = session_named(p2, c, t, cm, n);
    lemma_session_counted(p2, c, t, cm, n);
    let p4 = search_named(p3, c, app, disc, t, cm, n);
    lemma_search_counted(p3, c, app, disc, t, cm, n);
    lemma_apply_patch_other(p4, c, t, cm, n);
    lemma_experimental_other(p4, c, cm, n);
    assert(experimental_named(apply_patch_named(p4, c, t, cm, n), c, cm, n) == p4);
    let p7 = hosted_named(p4, c, cm, n);
    lemma_hosted_counted(p4, c, cm, n);
    lemma_agents_counted(p7, c, t, cm, n);
    assert(builtin_named(p0, c, cm, has_mcp, app, disc, t, n) == agents_named(p7, c, t, cm, n));
}

/// The tools that configuration flags switch on are offered exactly when their
/// flag is set, once each: the JavaScript REPL and its reset, permission
/// requests, the multi-agent tools, the agent job tool, and the MCP resource
/// tools when MCP tools are given at all. Tool search is offered exactly when it
/// is enabled and app tools are given; tool suggestions exactly when they are
/// enabled and some discoverable tool is given. This holds where no MCP tool,
/// dynamic tool, plan tool or patch tool takes the name.
pub proof fn lemma_flagged_tools_offered(
    c: ToolsConfigBase,
    cm: bool,
    mcp: Option<Seq<(Seq<char>, McpToolView)>>,
    app: Option<Seq<(String, ToolInfo)>>,
    disc: Option<Seq<DiscoverableView>>,
    dynamic: Seq<DynamicToolSpec>,
    t: ToolTexts,
    n: Seq<char>,
)
    requires
        texts_avoid(t, n),
        mcp_avoids(mcp, n),
        dynamic_avoids(dynamic, n),
        flagged_name(n),
    ensures
        named(session_tools(c, cm, mcp, app, disc, dynamic, t).specs, n).len() == flagged_count(
            c,
            mcp is Some,
            app,
            disc,
            n,
        ),
{
    lemma_name_facts();
    lemma_session_named(c, cm, mcp, app, disc, dynamic, t, n);
    let nested = tools_after(empty_builder(), c, false, mcp, app, None, dynamic, t);
    if cm {
        lemma_code_mode_other(t, nested_tool_names(nested.specs), n);
    }
    let p0 = if cm {
        one(code_mode_tool_view(t.code_mode_description_template@, nested_tool_names(nested.specs)), false, true, n)
            + one(exec_wait_tool_view(t.code_mode_wait_description@), false, true, n)
    } else {
        Seq::<(Tool, bool)>::empty()
    };
    lemma_builtin_flagged(p0, c, cm, mcp is Some, app, disc, t, n);
}

/// Web search is offered as the hosted-tool step says: not at all when the
/// configured mode is neither cached nor live, else once, with live access
/// exactly in live mode, the configured filters, location and context size, and
/// image results when the configured tool type asks for them. This holds where
/// no MCP, dynamic, plan or patch tool is named `web_search`.
pub proof fn lemma_web_search_offered(
    c: ToolsConfigBase,
    cm: bool,
    mcp: Option<Seq<(Seq<char>, McpToolView)>>,
    app: Option<Seq<(String, ToolInfo)>>,
    disc: Option<Seq<DiscoverableView>>,
    dynamic: Seq<DynamicToolSpec>,
    t: ToolTexts,
)
    requires
        texts_avoid(t, crate::tool::WEB_SEARCH_NAME@),
        mcp_avoids(mcp, crate::tool::WEB_SEARCH_NAME@),
        dynamic_avoids(dynamic, crate::tool::WEB_SEARCH_NAME@),
    ensures
        named(session_tools(c, cm, mcp, app, disc, dynamic, t).specs, crate::tool::WEB_SEARCH_NAME@) == match external_web_access(
            c.web_search_mode,
        ) {
            Some(e) => seq![(web_search_tool(c, e), false)],
            None => Seq::<(Tool, bool)>::empty(),
        },
{
    let n = crate::tool::WEB_SEARCH_NAME@;
    lemma_name_facts();
    lemma_session_named(c, cm, mcp, app, disc, dynamic, t, n);
    let nested = tools_after(empty_builder(), c, false, mcp, app, None, dynamic, t);
    if cm {
        lemma_code_mode_other(t, nested_tool_names(nested.specs), n);
    }
    let p0 = if cm {
        one(code_mode_tool_view(t.code_mode_description_template@, nested_tool_names(nested.specs)), false, true, n)
            + one(exec_wait_tool_view(t.code_mode_wait_description@), false, true, n)
    } else {
        Seq::<(Tool, bool)>::empty()
    };
    assert(p0 == Seq::<(Tool, bool)>::empty());
    lemma_builtin_flagged(p0, c, cm, mcp is Some, app, disc, t, n);
    match external_web_access(c.web_search_mode) {
        Some(e) => {
            assert(p0 + seq![(web_search_tool(c, e), false)] =~= seq![(web_search_tool(c, e), false)]);
        },
        None => {
            lemma_add_empty(p0);
        },
    }
}


/// Each app tool is handled by the MCP handler under its namespaced name once
/// tool search registers the app tools.
pub proof fn lemma_app_aliases_registered(b: BuilderView, tools: Seq<(String, ToolInfo)>, k: int)
    requires
        0 <= k < tools.len(),
    ensures
        handler_of(
            reg_app_aliases(b, tools).handlers,
            handler_key(tools[k].1.tool_name@, Some(tools[k].1.tool_namespace@)),
        ) == Some(HandlerKind::Mcp),
    decreases tools.len(),
{
    let init = tools.drop_last();
    let prev = reg_app_aliases(b, init);
    let info = tools.last().1;
    let key = handler_key(info.tool_name@, Some(info.tool_namespace@));
    let target = handler_key(tools[k].1.tool_name@, Some(tools[k].1.tool_namespace@));
    crate::registry::lemma_register_handler(prev.handlers, key, HandlerKind::Mcp, target);
    if k < tools.len() - 1 {
        assert(init[k] == tools[k]);
        lemma_app_aliases_registered(b, init, k);
    }
}


proof fn lemma_reg_keeps(key: Seq<char>)
    ensures
        forall|hs: Seq<(Seq<char>, HandlerKind)>, name: Seq<char>, kind: HandlerKind|
            name != key ==> #[trigger] handler_of(crate::registry::handlers_insert(hs, name, kind), key)
                == handler_of(hs, key),
{
    assert forall|hs: Seq<(Seq<char>, HandlerKind)>, name: Seq<char>, kind: HandlerKind|
        name != key implies #[trigger] handler_of(crate::registry::handlers_insert(hs, name, kind), key)
            == handler_of(hs, key) by {
        crate::registry::lemma_register_handler(hs, name, kind, key);
    }
}

/// The names that the steps after tool search register handlers under.
pub open spec fn later_builtin_name(n: Seq<char>) -> bool {
    n == texts::TOOL_SUGGEST_NAME@ || n == texts::APPLY_PATCH_NAME@ || n == texts::GREP_FILES_NAME@ || n
        == texts::READ_FILE_NAME@ || n == texts::LIST_DIR_NAME@ || n == texts::TEST_SYNC_NAME@ || n
        == texts::VIEW_IMAGE_NAME@ || n == texts::ARTIFACTS_NAME@ || n == texts::SPAWN_AGENT_NAME@ || n
        == texts::SEND_INPUT_NAME@ || n == texts::RESUME_AGENT_NAME@ || n == texts::WAIT_NAME@ || n
        == texts::CLOSE_AGENT_NAME@ || n == texts::SPAWN_AGENTS_ON_CSV_NAME@ || n
        == texts::REPORT_AGENT_JOB_RESULT_NAME@
}

proof fn lemma_later_steps_keep_handler(b: BuilderView, c: ToolsConfigBase, t: ToolTexts, cm: bool, key: Seq<char>)
    requires
        !later_builtin_name(key),
    ensures
        handler_of(step_apply_patch(b, c, t, cm).handlers, key) == handler_of(b.handlers, key),
        handler_of(step_experimental(b, c, cm).handlers, key) == handler_of(b.handlers, key),
        handler_of(step_hosted(b, c, cm).handlers, key) == handler_of(b.handlers, key),
        handler_of(step_agents(b, c, t, cm).handlers, key) == handler_of(b.handlers, key),
{
    lemma_reg_keeps(key);
}

proof fn lemma_mcp_tools_keep_handler(b: BuilderView, entries: Seq<(Seq<char>, McpToolView)>, cm: bool, key: Seq<char>)
    requires
        forall|k: int| 0 <= k < entries.len() ==> #[trigger] entries[k].0 != key,
    ensures
        handler_of(add_mcp_tools(b, entries, cm).handlers, key) == handler_of(b.handlers, key),
    decreases entries.len(),
{
    if entries.len() > 0 {
        let init = entries.drop_last();
        assert forall|k: int| 0 <= k < init.len() implies #[trigger] init[k].0 != key by {
            assert(init[k] == entries[k]);
        }
        lemma_mcp_tools_keep_handler(b, init, cm, key);
        lemma_reg_keeps(key);
        assert(entries[entries.len() - 1].0 != key);
    }
}

proof fn lemma_dynamic_tools_keep_handler(b: BuilderView, tools: Seq<DynamicToolSpec>, cm: bool, key: Seq<char>)
    requires
        forall|k: int| 0 <= k < tools.len() ==> #[trigger] tools[k].name@ != key,
    ensures
        handler_of(add_dynamic_tools(b, tools, cm).handlers, key) == handler_of(b.handlers, key),
    decreases tools.len(),
{
    if tools.len() > 0 {
        let init = tools.drop_last();
        assert forall|k: int| 0 <= k < init.len() implies #[trigger] init[k].name@ != key by {
            assert(init[k] == tools[k]);
        }
        lemma_dynamic_tools_keep_handler(b, init, cm, key);
        lemma_reg_keeps(key);
        assert(tools[tools.len() - 1].name@ != key);
    }
}

/// With tool search enabled and app tools given, each app tool is handled by
/// the MCP handler under its namespaced name in the finished session, provided
/// no later tool (a built-in one registered after tool search, an MCP tool or
/// a dynamic tool) is registered under that same name.
pub proof fn lemma_app_tools_handled(
    c: ToolsConfigBase,
    cm: bool,
    mcp: Option<Seq<(Seq<char>, McpToolView)>>,
    apps: Seq<(String, ToolInfo)>,
    disc: Option<Seq<DiscoverableView>>,
    dynamic: Seq<DynamicToolSpec>,
    t: ToolTexts,
    k: int,
)
    requires
        c.search_tool,
        0 <= k < apps.len(),
        !later_builtin_name(handler_key(apps[k].1.tool_name@, Some(apps[k].1.tool_namespace@))),
        mcp_avoids(mcp, handler_key(apps[k].1.tool_name@, Some(apps[k].1.tool_namespace@))),
        dynamic_avoids(dynamic, handler_key(apps[k].1.tool_name@, Some(apps[k].1.tool_namespace@))),
    ensures
        handler_of(
            session_tools(c, cm, mcp, Some(apps), disc, dynamic, t).handlers,
            handler_key(apps[k].1.tool_name@, Some(apps[k].1.tool_namespace@)),
        ) == Some(HandlerKind::Mcp),
{
    let key = handler_key(apps[k].1.tool_name@, Some(apps[k].1.tool_namespace@));
    let app = Some(apps);
    let b = if cm {
        let nested = tools_after(empty_builder(), c, false, mcp, app, None, dynamic, t);
        step_code_mode(empty_builder(), nested_tool_names(nested.specs), t)
    } else {
        empty_builder()
    };
    let b1 = step_shell(b, c, cm);
    let b2 = step_mcp_resources(b1, mcp is Some, cm);
    let b3 = step_session_tools(b2, c, t, cm);
    let s = crate::toolset::push_tool(
        b3,
        tool_search_tool_view(t.tool_search_template@, apps, t.tool_search_default_limit),
        true,
        cm,
    );
    let sr = crate::toolset::reg(s, TOOL_SEARCH_NAME@, HandlerKind::ToolSearch);
    let aliased = reg_app_aliases(sr, apps);
    lemma_app_aliases_registered(sr, apps, k);
    let b4 = step_search(b3, c, app, disc, t, cm);
    lemma_reg_keeps(key);
    assert(handler_of(b4.handlers, key) == handler_of(aliased.handlers, key));
    let b5 = step_apply_patch(b4, c, t, cm);
    lemma_later_steps_keep_handler(b4, c, t, cm, key);
    let b6 = step_experimental(b5, c, cm);
    lemma_later_steps_keep_handler(b5, c, t, cm, key);
    let b7 = step_hosted(b6, c, cm);
    lemma_later_steps_keep_handler(b6, c, t, cm, key);
    let b8 = step_agents(b7, c, t, cm);
    lemma_later_steps_keep_handler(b7, c, t, cm, key);
    let b9 = match mcp {
        Some(m) => add_mcp_tools(b8, sort_by_key(m), cm),
        None => b8,
    };
    match mcp {
        Some(m) => {
            let sm = sort_by_key(m);
            lemma_sort_by_key_sorted(m);
            assert forall|j: int| 0 <= j < sm.len() implies #[trigger] sm[j].0 != key by {
                broadcast use vstd::seq_lib::group_to_multiset_ensures;

                assert(sm.to_multiset().count(sm[j]) > 0);
                assert(m.to_multiset().count(sm[j]) > 0);
                assert(m.contains(sm[j]));
                let i = choose|i: int| 0 <= i < m.len() && m[i] == sm[j];
                assert(m[i].0 != key);
            }
            lemma_mcp_tools_keep_handler(b8, sm, cm, key);
        },
        None => {},
    }
    lemma_dynamic_tools_keep_handler(b9, dynamic, cm, key);
}

} // verus!
