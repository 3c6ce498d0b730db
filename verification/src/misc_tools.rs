use vstd::prelude::*;
use vstd::string::*;

use crate::builders::{
    bool_schema, closed_schema, function_tool, function_view, names1, names2, names4, no_props,
    num_schema, put, s_bool, s_closed, s_num, s_str, set_prop, str_schema,
};
use crate::discoverable::{discoverable_listing, format_discoverable_tools, tools_view, DiscoverableTool};
use crate::schema::{opt_str, JsonSchema, Properties, Schema};
use crate::sorting::{sort_dedup, sorted_unique};
use crate::strings::{decimal, decimal_string, join, join_strings, replace, replace_all, trim, trim_end, trim_end_spec, trim_spec, views};
use crate::text::owned;
use crate::texts;
use crate::tool::{FreeformTool, FreeformToolFormat, FreeformView, Tool, ToolInfo, ToolSpec};

verus! {

pub open spec fn freeform_view(name: Seq<char>, description: Seq<char>, definition: Seq<char>) -> Tool {
    Tool::Freeform(
        FreeformView {
            name,
            description,
            format_type: texts::GRAMMAR_FORMAT@,
            syntax: texts::LARK_SYNTAX@,
            definition,
        },
    )
}

/// A freeform tool under a Lark grammar.
pub fn freeform_tool(name: &str, description: String, definition: &str) -> (r: ToolSpec)
    ensures
        r@ == freeform_view(name@, description@, definition@),
{
    ToolSpec::Freeform(
        FreeformTool {
            name: owned(name),
            description,
            format: FreeformToolFormat {
                format_type: owned(texts::GRAMMAR_FORMAT),
                syntax: owned(texts::LARK_SYNTAX),
                definition: owned(definition),
            },
        },
    )
}

pub open spec fn test_sync_tool_view() -> Tool {
    let b = put(no_props(), "id", s_str(texts::D_BARRIER_ID));
    let b = put(b, "participants", s_num(texts::D_PARTICIPANTS));
    let b = put(b, "timeout_ms", s_num(texts::D_BARRIER_TIMEOUT));
    let p = put(no_props(), "sleep_before_ms", s_num(texts::D_SLEEP_BEFORE));
    let p = put(p, "sleep_after_ms", s_num(texts::D_SLEEP_AFTER));
    let p = put(p, "barrier", s_closed(b, Some(seq!["id"@, "participants"@])));
    function_view(texts::TEST_SYNC_NAME@, texts::TEST_SYNC_DESCRIPTION@, s_closed(p, None), None)
}

/// A tool that integration tests use to line up concurrent calls.
pub fn create_test_sync_tool() -> (r: ToolSpec)
    ensures
        r@ == test_sync_tool_view(),
{
    let mut b = Properties::new();
    set_prop(&mut b, "id", str_schema(texts::D_BARRIER_ID));
    set_prop(&mut b, "participants", num_schema(texts::D_PARTICIPANTS));
    set_prop(&mut b, "timeout_ms", num_schema(texts::D_BARRIER_TIMEOUT));
    let mut p = Properties::new();
    set_prop(&mut p, "sleep_before_ms", num_schema(texts::D_SLEEP_BEFORE));
    set_prop(&mut p, "sleep_after_ms", num_schema(texts::D_SLEEP_AFTER));
    set_prop(&mut p, "barrier", closed_schema(b, Some(names2("id", "participants"))));
    function_tool(texts::TEST_SYNC_NAME, owned(texts::TEST_SYNC_DESCRIPTION), closed_schema(p, None), None)
}

pub open spec fn grep_files_tool_view() -> Tool {
    let p = put(no_props(), "pattern", s_str(texts::D_PATTERN));
    let p = put(p, "include", s_str(texts::D_INCLUDE));
    let p = put(p, "path", s_str(texts::D_GREP_PATH));
    let p = put(p, "limit", s_num(texts::D_GREP_LIMIT));
    function_view(texts::GREP_FILES_NAME@, texts::GREP_FILES_DESCRIPTION@, s_closed(p, Some(seq!["pattern"@])), None)
}

/// The tool that lists files whose contents match a pattern.
pub fn create_grep_files_tool() -> (r: ToolSpec)
    ensures
        r@ == grep_files_tool_view(),
{
    let mut p = Properties::new();
    set_prop(&mut p, "pattern", str_schema(texts::D_PATTERN));
    set_prop(&mut p, "include", str_schema(texts::D_INCLUDE));
    set_prop(&mut p, "path", str_schema(texts::D_GREP_PATH));
    set_prop(&mut p, "limit", num_schema(texts::D_GREP_LIMIT));
    function_tool(texts::GREP_FILES_NAME, owned(texts::GREP_FILES_DESCRIPTION), closed_schema(p, Some(names1("pattern"))), None)
}

/// The connector names of app tools, in order, where a tool has one.
pub open spec fn connector_names(tools: Seq<(String, ToolInfo)>) -> Seq<Seq<char>>
    decreases tools.len(),
{
    if tools.len() == 0 {
        Seq::empty()
    } else {
        let rest = connector_names(tools.drop_last());
        match tools.last().1.connector_name {
            Some(n) => rest.push(n@),
            None => rest,
        }
    }
}

/// The search tool's description: the template naming the enabled apps.
pub open spec fn tool_search_description(template: Seq<char>, tools: Seq<(String, ToolInfo)>) -> Seq<char> {
    let names = sort_dedup(connector_names(tools));
    if names.len() == 0 {
        replace_all(
            replace_all(template, texts::NO_APPS_PATTERN@, texts::NO_APPS_REPLACEMENT@),
            texts::APP_NAMES_PLACEHOLDER@,
            texts::AVAILABLE_APPS@,
        )
    } else {
        replace_all(template, texts::APP_NAMES_PLACEHOLDER@, join(names, texts::LIST_SEPARATOR@))
    }
}

pub open spec fn tool_search_tool_view(template: Seq<char>, tools: Seq<(String, ToolInfo)>, default_limit: u64) -> Tool {
    let p = put(no_props(), "query", s_str(texts::D_SEARCH_QUERY));
    let p = crate::schema::props_insert(
        p,
        "limit"@,
        Schema::Number {
            description: Some(texts::D_SEARCH_LIMIT_HEAD@ + decimal(default_limit as nat) + texts::D_SEARCH_LIMIT_TAIL@),
        },
    );
    Tool::ToolSearch {
        execution: texts::CLIENT_EXECUTION@,
        description: tool_search_description(template, tools),
        parameters: s_closed(p, Some(seq!["query"@])),
    }
}

/// The client-side tool that searches app tools.
pub fn create_tool_search_tool(app_tools: &Vec<(String, ToolInfo)>, template: &str, default_limit: u64) -> (r: ToolSpec)
    ensures
        r@ == tool_search_tool_view(template@, app_tools@, default_limit),
{
    let mut p = Properties::new();
    set_prop(&mut p, "query", str_schema(texts::D_SEARCH_QUERY));
    let mut limit = owned(texts::D_SEARCH_LIMIT_HEAD);
    limit.append(decimal_string(default_limit).as_str());
    limit.append(texts::D_SEARCH_LIMIT_TAIL);
    set_prop(&mut p, "limit", num_schema(limit.as_str()));
    let mut names: Vec<String> = Vec::new();
    let mut i: usize = 0;
    while i < app_tools.len()
        invariant
            i <= app_tools.len(),
            views(names@) == connector_names(app_tools@.take(i as int)),
        decreases app_tools.len() - i,
    {
        assert(app_tools@.take(i + 1).drop_last() =~= app_tools@.take(i as int));
        assert(app_tools@.take(i + 1).last() == app_tools@[i as int]);
        match &app_tools[i].1.connector_name {
            Some(n) => {
                let ghost before = views(names@);
                names.push(owned(n.as_str()));
                assert(views(names@) =~= before.push(n@));
            },
            None => {},
        }
        i = i + 1;
    }
    assert(app_tools@.take(app_tools.len() as int) =~= app_tools@);
    let names = sorted_unique(names);
    assert(names@.map_values(|s: String| s@) == views(names@));
    proof {
        reveal_strlit("({{app_names}})");
        reveal_strlit("{{app_names}}");
    }
    let description = if names.len() == 0 {
        let first = replace(template, texts::NO_APPS_PATTERN, texts::NO_APPS_REPLACEMENT);
        replace(first.as_str(), texts::APP_NAMES_PLACEHOLDER, texts::AVAILABLE_APPS)
    } else {
        let joined = join_strings(&names, texts::LIST_SEPARATOR);
        replace(template, texts::APP_NAMES_PLACEHOLDER, joined.as_str())
    };
    ToolSpec::ToolSearch {
        execution: owned(texts::CLIENT_EXECUTION),
        description,
        parameters: closed_schema(p, Some(names1("query"))),
    }
}

/// The ids of the discoverable tools, in the order given.
pub open spec fn tool_ids(tools: Seq<crate::discoverable::DiscoverableView>) -> Seq<Seq<char>> {
    tools.map_values(|t: crate::discoverable::DiscoverableView| t.id)
}

pub open spec fn tool_suggest_tool_view(template: Seq<char>, tools: Seq<crate::discoverable::DiscoverableView>) -> Tool {
    let p = put(no_props(), "tool_type", s_str(texts::D_TOOL_TYPE));
    let p = put(p, "action_type", s_str(texts::D_ACTION_TYPE));
    let p = crate::schema::props_insert(
        p,
        "tool_id"@,
        Schema::Str {
            description: Some(texts::D_TOOL_ID_HEAD@ + join(tool_ids(tools), texts::LIST_SEPARATOR@) + texts::D_TOOL_ID_TAIL@),
        },
    );
    let p = put(p, "suggest_reason", s_str(texts::D_SUGGEST_REASON));
    function_view(
        texts::TOOL_SUGGEST_NAME@,
        replace_all(template, texts::DISCOVERABLE_TOOLS_PLACEHOLDER@, discoverable_listing(tools)),
        s_closed(p, Some(seq!["tool_type"@, "action_type"@, "tool_id"@, "suggest_reason"@])),
        None,
    )
}

/// The tool by which the model suggests installing or enabling a tool.
pub fn create_tool_suggest_tool(discoverable_tools: &Vec<DiscoverableTool>, template: &str) -> (r: ToolSpec)
    ensures
        r@ == tool_suggest_tool_view(template@, tools_view(discoverable_tools@)),
{
    let ghost tv = tools_view(discoverable_tools@);
    let mut ids: Vec<String> = Vec::new();
    let mut i: usize = 0;
    while i < discoverable_tools.len()
        invariant
            i <= discoverable_tools.len(),
            tv == tools_view(discoverable_tools@),
            views(ids@) == tool_ids(tv).take(i as int),
        decreases discoverable_tools.len() - i,
    {
        let ghost before = views(ids@);
        ids.push(owned(discoverable_tools[i].id()));
        assert(views(ids@) =~= before.push(tv[i as int].id));
        assert(tool_ids(tv).take(i + 1) =~= tool_ids(tv).take(i as int).push(tv[i as int].id));
        i = i + 1;
    }
    assert(tool_ids(tv).take(i as int) =~= tool_ids(tv));
    let mut tool_id = owned(texts::D_TOOL_ID_HEAD);
    tool_id.append(join_strings(&ids, texts::LIST_SEPARATOR).as_str());
    tool_id.append(texts::D_TOOL_ID_TAIL);
    let mut p = Properties::new();
    set_prop(&mut p, "tool_type", str_schema(texts::D_TOOL_TYPE));
    set_prop(&mut p, "action_type", str_schema(texts::D_ACTION_TYPE));
    set_prop(&mut p, "tool_id", str_schema(tool_id.as_str()));
    set_prop(&mut p, "suggest_reason", str_schema(texts::D_SUGGEST_REASON));
    let listing = format_discoverable_tools(discoverable_tools);
    proof {
        reveal_strlit("{{discoverable_tools}}");
    }
    let description = replace(template, texts::DISCOVERABLE_TOOLS_PLACEHOLDER, listing.as_str());
    function_tool(
        texts::TOOL_SUGGEST_NAME,
        description,
        closed_schema(p, Some(names4("tool_type", "action_type", "tool_id", "suggest_reason"))),
        None,
    )
}

pub open spec fn read_file_tool_view() -> Tool {
    let ind = put(no_props(), "anchor_line", s_num(texts::D_ANCHOR_LINE));
    let ind = put(ind, "max_levels", s_num(texts::D_MAX_LEVELS));
    let ind = put(ind, "include_siblings", s_bool(texts::D_INCLUDE_SIBLINGS));
    let ind = put(ind, "include_header", s_bool(texts::D_INCLUDE_HEADER));
    let ind = put(ind, "max_lines", s_num(texts::D_MAX_LINES));
    let p = put(no_props(), "file_path", s_str(texts::D_FILE_PATH));
    let p = put(p, "offset", s_num(texts::D_OFFSET));
    let p = put(p, "limit", s_num(texts::D_LIMIT));
    let p = put(p, "mode", s_str(texts::D_MODE));
    let p = put(p, "indentation", s_closed(ind, None));
    function_view(texts::READ_FILE_NAME@, texts::READ_FILE_DESCRIPTION@, s_closed(p, Some(seq!["file_path"@])), None)
}

/// The tool that reads a local file by line ranges or indentation blocks.
pub fn create_read_file_tool() -> (r: ToolSpec)
    ensures
        r@ == read_file_tool_view(),
{
    let mut ind = Properties::new();
    set_prop(&mut ind, "anchor_line", num_schema(texts::D_ANCHOR_LINE));
    set_prop(&mut ind, "max_levels", num_schema(texts::D_MAX_LEVELS));
    set_prop(&mut ind, "include_siblings", bool_schema(texts::D_INCLUDE_SIBLINGS));
    set_prop(&mut ind, "include_header", bool_schema(texts::D_INCLUDE_HEADER));
    set_prop(&mut ind, "max_lines", num_schema(texts::D_MAX_LINES));
    let mut p = Properties::new();
    set_prop(&mut p, "file_path", str_schema(texts::D_FILE_PATH));
    set_prop(&mut p, "offset", num_schema(texts::D_OFFSET));
    set_prop(&mut p, "limit", num_schema(texts::D_LIMIT));
    set_prop(&mut p, "mode", str_schema(texts::D_MODE));
    set_prop(&mut p, "indentation", closed_schema(ind, None));
    function_tool(texts::READ_FILE_NAME, owned(texts::READ_FILE_DESCRIPTION), closed_schema(p, Some(names1("file_path"))), None)
}

pub open spec fn list_dir_tool_view() -> Tool {
    let p = put(no_props(), "dir_path", s_str(texts::D_DIR_PATH));
    let p = put(p, "offset", s_num(texts::D_DIR_OFFSET));
    let p = put(p, "limit", s_num(texts::D_DIR_LIMIT));
    let p = put(p, "depth", s_num(texts::D_DEPTH));
    function_view(texts::LIST_DIR_NAME@, texts::LIST_DIR_DESCRIPTION@, s_closed(p, Some(seq!["dir_path"@])), None)
}

/// The tool that lists a local directory.
pub fn create_list_dir_tool() -> (r: ToolSpec)
    ensures
        r@ == list_dir_tool_view(),
{
    let mut p = Properties::new();
    set_prop(&mut p, "dir_path", str_schema(texts::D_DIR_PATH));
    set_prop(&mut p, "offset", num_schema(texts::D_DIR_OFFSET));
    set_prop(&mut p, "limit", num_schema(texts::D_DIR_LIMIT));
    set_prop(&mut p, "depth", num_schema(texts::D_DEPTH));
    function_tool(texts::LIST_DIR_NAME, owned(texts::LIST_DIR_DESCRIPTION), closed_schema(p, Some(names1("dir_path"))), None)
}

pub open spec fn js_repl_tool_view() -> Tool {
    freeform_view(texts::JS_REPL_NAME@, texts::JS_REPL_DESCRIPTION@, texts::JS_REPL_GRAMMAR@)
}

/// The freeform JavaScript REPL tool.
pub fn create_js_repl_tool() -> (r: ToolSpec)
    ensures
        r@ == js_repl_tool_view(),
{
    freeform_tool(texts::JS_REPL_NAME, owned(texts::JS_REPL_DESCRIPTION), texts::JS_REPL_GRAMMAR)
}

pub open spec fn artifacts_tool_view() -> Tool {
    freeform_view(texts::ARTIFACTS_NAME@, texts::ARTIFACTS_DESCRIPTION@, texts::ARTIFACTS_GRAMMAR@)
}

/// The freeform tool that runs JavaScript against the artifact runtime.
pub fn create_artifacts_tool() -> (r: ToolSpec)
    ensures
        r@ == artifacts_tool_view(),
{
    freeform_tool(texts::ARTIFACTS_NAME, owned(texts::ARTIFACTS_DESCRIPTION), texts::ARTIFACTS_GRAMMAR)
}

pub open spec fn js_repl_reset_tool_view() -> Tool {
    function_view(texts::JS_REPL_RESET_NAME@, texts::JS_REPL_RESET_DESCRIPTION@, s_closed(no_props(), None), None)
}

/// The tool that restarts the JavaScript kernel.
pub fn create_js_repl_reset_tool() -> (r: ToolSpec)
    ensures
        r@ == js_repl_reset_tool_view(),
{
    function_tool(texts::JS_REPL_RESET_NAME, owned(texts::JS_REPL_RESET_DESCRIPTION), closed_schema(Properties::new(), None), None)
}

/// The code-mode tool's description: the template, then the nested tools it may call.
pub open spec fn code_mode_description(template: Seq<char>, enabled_tool_names: Seq<Seq<char>>) -> Seq<char> {
    trim_end_spec(template) + texts::ENABLED_NESTED_TOOLS_HEAD@ + (if enabled_tool_names.len() == 0 {
        texts::NO_NESTED_TOOLS@
    } else {
        join(enabled_tool_names, texts::LIST_SEPARATOR@)
    }) + texts::SENTENCE_END@
}

/// Describes the code-mode tool and the nested tools it may call.
pub fn tool_description(enabled_tool_names: &Vec<String>, template: &str) -> (r: String)
    ensures
        r@ == code_mode_description(template@, views(enabled_tool_names@)),
{
    let mut r = owned(trim_end(template));
    r.append(texts::ENABLED_NESTED_TOOLS_HEAD);
    if enabled_tool_names.len() == 0 {
        r.append(texts::NO_NESTED_TOOLS);
    } else {
        r.append(join_strings(enabled_tool_names, texts::LIST_SEPARATOR).as_str());
    }
    r.append(texts::SENTENCE_END);
    r
}

pub open spec fn code_mode_tool_view(template: Seq<char>, enabled_tool_names: Seq<Seq<char>>) -> Tool {
    freeform_view(texts::PUBLIC_TOOL_NAME@, code_mode_description(template, enabled_tool_names), texts::CODE_MODE_GRAMMAR@)
}

/// The code-mode tool, which runs a script that may call the nested tools.
pub fn create_code_mode_tool(enabled_tool_names: &Vec<String>, template: &str) -> (r: ToolSpec)
    ensures
        r@ == code_mode_tool_view(template@, views(enabled_tool_names@)),
{
    freeform_tool(texts::PUBLIC_TOOL_NAME, tool_description(enabled_tool_names, template), texts::CODE_MODE_GRAMMAR)
}

pub open spec fn exec_wait_tool_view(wait_description: Seq<char>) -> Tool {
    let p = put(no_props(), "cell_id", s_str(texts::D_CELL_ID));
    let p = put(p, "yield_time_ms", s_num(texts::D_WAIT_YIELD_TIME));
    let p = put(p, "max_tokens", s_num(texts::D_WAIT_MAX_TOKENS));
    let p = put(p, "terminate", s_bool(texts::D_TERMINATE));
    function_view(
        texts::WAIT_TOOL_NAME@,
        texts::EXEC_WAIT_DESCRIPTION_HEAD@ + trim_spec(wait_description),
        s_closed(p, Some(seq!["cell_id"@])),
        None,
    )
}

/// The tool that waits on a yielded code-mode cell.
pub fn create_exec_wait_tool(wait_description: &str) -> (r: ToolSpec)
    ensures
        r@ == exec_wait_tool_view(wait_description@),
{
    let mut p = Properties::new();
    set_prop(&mut p, "cell_id", str_schema(texts::D_CELL_ID));
    set_prop(&mut p, "yield_time_ms", num_schema(texts::D_WAIT_YIELD_TIME));
    set_prop(&mut p, "max_tokens", num_schema(texts::D_WAIT_MAX_TOKENS));
    set_prop(&mut p, "terminate", bool_schema(texts::D_TERMINATE));
    let mut description = owned(texts::EXEC_WAIT_DESCRIPTION_HEAD);
    description.append(trim(wait_description));
    function_tool(texts::WAIT_TOOL_NAME, description, closed_schema(p, Some(names1("cell_id"))), None)
}

pub open spec fn list_mcp_resources_tool_view() -> Tool {
    let p = put(no_props(), "server", s_str(texts::D_MCP_SERVER_LIST));
    let p = put(p, "cursor", s_str(texts::D_MCP_CURSOR));
    function_view(texts::LIST_MCP_RESOURCES_NAME@, texts::LIST_MCP_RESOURCES_DESCRIPTION@, s_closed(p, None), None)
}

/// The tool that lists MCP resources.
pub fn create_list_mcp_resources_tool() -> (r: ToolSpec)
    ensures
        r@ == list_mcp_resources_tool_view(),
{
    let mut p = Properties::new();
    set_prop(&mut p, "server", str_schema(texts::D_MCP_SERVER_LIST));
    set_prop(&mut p, "cursor", str_schema(texts::D_MCP_CURSOR));
    function_tool(texts::LIST_MCP_RESOURCES_NAME, owned(texts::LIST_MCP_RESOURCES_DESCRIPTION), closed_schema(p, None), None)
}

pub open spec fn list_mcp_resource_templates_tool_view() -> Tool {
    let p = put(no_props(), "server", s_str(texts::D_MCP_SERVER_TEMPLATES));
    let p = put(p, "cursor", s_str(texts::D_MCP_TEMPLATES_CURSOR));
    function_view(
        texts::LIST_MCP_RESOURCE_TEMPLATES_NAME@,
        texts::LIST_MCP_RESOURCE_TEMPLATES_DESCRIPTION@,
        s_closed(p, None),
        None,
    )
}

/// The tool that lists MCP resource templates.
pub fn create_list_mcp_resource_templates_tool() -> (r: ToolSpec)
    ensures
        r@ == list_mcp_resource_templates_tool_view(),
{
    let mut p = Properties::new();
    set_prop(&mut p, "server", str_schema(texts::D_MCP_SERVER_TEMPLATES));
    set_prop(&mut p, "cursor", str_schema(texts::D_MCP_TEMPLATES_CURSOR));
    function_tool(
        texts::LIST_MCP_RESOURCE_TEMPLATES_NAME,
        owned(texts::LIST_MCP_RESOURCE_TEMPLATES_DESCRIPTION),
        closed_schema(p, None),
        None,
    )
}

pub open spec fn read_mcp_resource_tool_view() -> Tool {
    let p = put(no_props(), "server", s_str(texts::D_MCP_SERVER_READ));
    let p = put(p, "uri", s_str(texts::D_MCP_URI));
    function_view(
        texts::READ_MCP_RESOURCE_NAME@,
        texts::READ_MCP_RESOURCE_DESCRIPTION@,
        s_closed(p, Some(seq!["server"@, "uri"@])),
        None,
    )
}

/// The tool that reads one MCP resource.
pub fn create_read_mcp_resource_tool() -> (r: ToolSpec)
    ensures
        r@ == read_mcp_resource_tool_view(),
{
    let mut p = Properties::new();
    set_prop(&mut p, "server", str_schema(texts::D_MCP_SERVER_READ));
    set_prop(&mut p, "uri", str_schema(texts::D_MCP_URI));
    function_tool(
        texts::READ_MCP_RESOURCE_NAME,
        owned(texts::READ_MCP_RESOURCE_DESCRIPTION),
        closed_schema(p, Some(names2("server", "uri"))),
        None,
    )
}


/// Whether an app tool belongs to the app named `y`.
pub open spec fn has_connector(info: ToolInfo, y: Seq<char>) -> bool {
    info.connector_name matches Some(n) && n@ == y
}

/// The tool-search description names exactly the apps that the app tools belong
/// to: each connector name once, in ascending order, and no other name.
pub proof fn lemma_tool_search_names(tools: Seq<(String, ToolInfo)>)
    ensures
        crate::sorting::strictly_sorted(sort_dedup(connector_names(tools))),
        forall|y: Seq<char>| #[trigger] sort_dedup(connector_names(tools)).contains(y) <==> exists|i: int|
            0 <= i < tools.len() && has_connector(tools[i].1, y),
{
    crate::sorting::lemma_sort_dedup(connector_names(tools));
    lemma_connector_names(tools);
}

proof fn lemma_connector_names(tools: Seq<(String, ToolInfo)>)
    ensures
        forall|y: Seq<char>| #[trigger] connector_names(tools).contains(y) <==> exists|i: int|
            0 <= i < tools.len() && has_connector(tools[i].1, y),
    decreases tools.len(),
{
    if tools.len() > 0 {
        let init = tools.drop_last();
        lemma_connector_names(init);
        let rest = connector_names(init);
        let c = connector_names(tools);
        assert forall|y: Seq<char>| #[trigger] c.contains(y) <==> exists|i: int|
            0 <= i < tools.len() && has_connector(tools[i].1, y) by {
            if c.contains(y) {
                let k = choose|k: int| 0 <= k < c.len() && c[k] == y;
                if k < rest.len() {
                    assert(rest.contains(y));
                    let i = choose|i: int| 0 <= i < init.len() && has_connector(init[i].1, y);
                    assert(tools[i] == init[i]);
                } else {
                    assert(has_connector(tools[tools.len() - 1].1, y));
                }
            }
            if exists|i: int| 0 <= i < tools.len() && has_connector(tools[i].1, y) {
                let i = choose|i: int| 0 <= i < tools.len() && has_connector(tools[i].1, y);
                if i < tools.len() - 1 {
                    assert(init[i] == tools[i]);
                    assert(rest.contains(y));
                    let k = choose|k: int| 0 <= k < rest.len() && rest[k] == y;
                    assert(c[k] == y);
                } else {
                    assert(c[c.len() - 1] == y);
                }
            }
        }
    }
}

/// The tool-suggest tool lists the id of every discoverable tool, in the order given,
/// and takes the discoverable listing in place of its placeholder.
pub proof fn lemma_tool_suggest_ids(template: Seq<char>, tools: Seq<crate::discoverable::DiscoverableView>)
    ensures
        tool_ids(tools).len() == tools.len(),
        forall|i: int| 0 <= i < tools.len() ==> #[trigger] tool_ids(tools)[i] == tools[i].id,
        tool_suggest_tool_view(template, tools) matches Tool::Function(f) && f.name == texts::TOOL_SUGGEST_NAME@
            && f.description == replace_all(template, texts::DISCOVERABLE_TOOLS_PLACEHOLDER@, discoverable_listing(tools)),
{
}

/// The directory-listing tool is the function `list_dir`, not strict, whose
/// parameters are a closed object of exactly `dir_path` (a string), `offset`,
/// `limit` and `depth` (numbers), of which `dir_path` is required.
pub proof fn lemma_list_dir_tool(key: Seq<char>)
    ensures
        ({
            let t = list_dir_tool_view();
            let f = t->Function_0;
            let ps = f.parameters;
            &&& t is Function
            &&& f.name == "list_dir"@
            &&& !f.strict
            &&& f.output_schema is None
            &&& ps is Object
            &&& ps->Object_required == Some(seq!["dir_path"@])
            &&& ps->Object_additional_properties == Some(crate::schema::Extra::Boolean(false))
            &&& (crate::schema::props_keys(ps->Object_properties).contains(key) <==> (key == "dir_path"@
                || key == "offset"@ || key == "limit"@ || key == "depth"@))
            &&& crate::schema::props_get(ps->Object_properties, "dir_path"@) == Some(
                Schema::Str { description: Some(texts::D_DIR_PATH@) },
            )
            &&& crate::schema::props_get(ps->Object_properties, "offset"@) == Some(
                Schema::Number { description: Some(texts::D_DIR_OFFSET@) },
            )
            &&& crate::schema::props_get(ps->Object_properties, "limit"@) == Some(
                Schema::Number { description: Some(texts::D_DIR_LIMIT@) },
            )
            &&& crate::schema::props_get(ps->Object_properties, "depth"@) == Some(
                Schema::Number { description: Some(texts::D_DEPTH@) },
            )
        }),
{
    use_list_dir_facts(key);
}

proof fn use_list_dir_facts(key: Seq<char>)
    ensures
        ({
            let p1 = crate::schema::props_insert(Seq::empty(), "dir_path"@, s_str(texts::D_DIR_PATH));
            let p2 = crate::schema::props_insert(p1, "offset"@, s_num(texts::D_DIR_OFFSET));
            let p3 = crate::schema::props_insert(p2, "limit"@, s_num(texts::D_DIR_LIMIT));
            let p4 = crate::schema::props_insert(p3, "depth"@, s_num(texts::D_DEPTH));
            &&& (crate::schema::props_keys(p4).contains(key) <==> (key == "dir_path"@ || key == "offset"@ || key
                == "limit"@ || key == "depth"@))
            &&& crate::schema::props_get(p4, "dir_path"@) == Some(s_str(texts::D_DIR_PATH))
            &&& crate::schema::props_get(p4, "offset"@) == Some(s_num(texts::D_DIR_OFFSET))
            &&& crate::schema::props_get(p4, "limit"@) == Some(s_num(texts::D_DIR_LIMIT))
            &&& crate::schema::props_get(p4, "depth"@) == Some(s_num(texts::D_DEPTH))
        }),
{
    reveal_strlit("dir_path");
    reveal_strlit("offset");
    reveal_strlit("limit");
    reveal_strlit("depth");
    let dp = "dir_path"@;
    let of = "offset"@;
    let li = "limit"@;
    let de = "depth"@;
    let p0 = Seq::<(Seq<char>, Schema)>::empty();
    let p1 = crate::schema::props_insert(p0, dp, s_str(texts::D_DIR_PATH));
    let p2 = crate::schema::props_insert(p1, of, s_num(texts::D_DIR_OFFSET));
    let p3 = crate::schema::props_insert(p2, li, s_num(texts::D_DIR_LIMIT));
    let p4 = crate::schema::props_insert(p3, de, s_num(texts::D_DEPTH));
    assert(crate::schema::props_get(p0, key) is None);
    assert(crate::schema::props_get(p0, of) is None);
    assert(crate::schema::props_get(p0, li) is None);
    assert(crate::schema::props_get(p0, de) is None);
    crate::schema::lemma_props_get_insert(p0, dp, s_str(texts::D_DIR_PATH), key);
    crate::schema::lemma_props_get_insert(p0, dp, s_str(texts::D_DIR_PATH), of);
    crate::schema::lemma_props_get_insert(p0, dp, s_str(texts::D_DIR_PATH), li);
    crate::schema::lemma_props_get_insert(p0, dp, s_str(texts::D_DIR_PATH), de);
    crate::schema::lemma_props_get_insert(p1, of, s_num(texts::D_DIR_OFFSET), key);
    crate::schema::lemma_props_get_insert(p1, of, s_num(texts::D_DIR_OFFSET), dp);
    crate::schema::lemma_props_get_insert(p1, of, s_num(texts::D_DIR_OFFSET), li);
    crate::schema::lemma_props_get_insert(p1, of, s_num(texts::D_DIR_OFFSET), de);
    crate::schema::lemma_props_get_insert(p2, li, s_num(texts::D_DIR_LIMIT), key);
    crate::schema::lemma_props_get_insert(p2, li, s_num(texts::D_DIR_LIMIT), dp);
    crate::schema::lemma_props_get_insert(p2, li, s_num(texts::D_DIR_LIMIT), of);
    crate::schema::lemma_props_get_insert(p2, li, s_num(texts::D_DIR_LIMIT), de);
    crate::schema::lemma_props_get_insert(p3, de, s_num(texts::D_DEPTH), key);
    crate::schema::lemma_props_get_insert(p3, de, s_num(texts::D_DEPTH), dp);
    crate::schema::lemma_props_get_insert(p3, de, s_num(texts::D_DEPTH), of);
    crate::schema::lemma_props_get_insert(p3, de, s_num(texts::D_DEPTH), li);
    crate::schema::lemma_props_keys_get(p4, key);
}

}
