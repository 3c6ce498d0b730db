use vstd::prelude::*;
use vstd::string::*;

use crate::builders::{
    any_object_schema, arr_schema, bool_schema, closed_schema, function_tool, function_view, names1,
    names2, names3, names4, no_props, num_schema, put, s_any_object, s_arr, s_bool, s_closed, s_num,
    s_str, s_str_list, set_prop, str_list_schema, str_schema,
};
use crate::builtin::{create_permissions_schema, permissions_view};
use crate::config::{presets_view, ModelPreset, PresetView, ReasoningEffort};
use crate::schema::{JsonSchema, Properties, Schema};
use crate::strings::{decimal, decimal_string, join, join_strings, views};
use crate::text::owned;
use crate::texts;
use crate::tool::{Tool, ToolSpec};

verus! {

pub open spec fn collab_input_items_view() -> Schema {
    let p = put(no_props(), "type", s_str(texts::D_ITEM_TYPE));
    let p = put(p, "text", s_str(texts::D_ITEM_TEXT));
    let p = put(p, "image_url", s_str(texts::D_ITEM_IMAGE_URL));
    let p = put(p, "path", s_str(texts::D_ITEM_PATH));
    let p = put(p, "name", s_str(texts::D_ITEM_NAME));
    s_arr(s_closed(p, None), texts::D_ITEMS)
}

/// The structured input items that collaboration tools accept.
pub fn create_collab_input_items_schema() -> (r: JsonSchema)
    ensures
        r@ == collab_input_items_view(),
{
    let mut p = Properties::new();
    set_prop(&mut p, "type", str_schema(texts::D_ITEM_TYPE));
    set_prop(&mut p, "text", str_schema(texts::D_ITEM_TEXT));
    set_prop(&mut p, "image_url", str_schema(texts::D_ITEM_IMAGE_URL));
    set_prop(&mut p, "path", str_schema(texts::D_ITEM_PATH));
    set_prop(&mut p, "name", str_schema(texts::D_ITEM_NAME));
    arr_schema(closed_schema(p, None), texts::D_ITEMS)
}

pub const EFFORT_NONE: &'static str = "none";
pub const EFFORT_MINIMAL: &'static str = "minimal";
pub const EFFORT_LOW: &'static str = "low";
pub const EFFORT_MEDIUM: &'static str = "medium";
pub const EFFORT_HIGH: &'static str = "high";
pub const EFFORT_XHIGH: &'static str = "xhigh";

/// How a reasoning effort is written.
pub open spec fn effort_text(e: ReasoningEffort) -> Seq<char> {
    match e {
        ReasoningEffort::NoEffort => EFFORT_NONE@,
        ReasoningEffort::Minimal => EFFORT_MINIMAL@,
        ReasoningEffort::Low => EFFORT_LOW@,
        ReasoningEffort::Medium => EFFORT_MEDIUM@,
        ReasoningEffort::High => EFFORT_HIGH@,
        ReasoningEffort::XHigh => EFFORT_XHIGH@,
    }
}

pub fn effort_str(e: ReasoningEffort) -> (r: &'static str)
    ensures
        r@ == effort_text(e),
{
    match e {
        ReasoningEffort::NoEffort => EFFORT_NONE,
        ReasoningEffort::Minimal => EFFORT_MINIMAL,
        ReasoningEffort::Low => EFFORT_LOW,
        ReasoningEffort::Medium => EFFORT_MEDIUM,
        ReasoningEffort::High => EFFORT_HIGH,
        ReasoningEffort::XHigh => EFFORT_XHIGH,
    }
}

pub open spec fn effort_item(e: (ReasoningEffort, Seq<char>)) -> Seq<char> {
    effort_text(e.0) + texts::PAREN_OPEN@ + e.1 + texts::PAREN_CLOSE@
}

/// `- Name (`slug`): description Default reasoning effort: e. Supported reasoning efforts: a (..), b (..).`
pub open spec fn model_line(m: PresetView) -> Seq<char> {
    texts::BULLET@ + m.display_name + texts::MODEL_SLUG_OPEN@ + m.model + texts::MODEL_SLUG_CLOSE@
        + m.description + texts::DEFAULT_EFFORT_LABEL@ + effort_text(m.default_reasoning_effort)
        + texts::SUPPORTED_EFFORTS_LABEL@ + join(
        m.supported_reasoning_efforts.map_values(|e: (ReasoningEffort, Seq<char>)| effort_item(e)),
        texts::LIST_SEPARATOR@,
    ) + texts::SENTENCE_END@
}

/// The picker-visible models, one line each, or a note that there are none.
pub open spec fn models_description(ms: Seq<PresetView>) -> Seq<char> {
    let visible = ms.filter(|m: PresetView| m.show_in_picker);
    if visible.len() == 0 {
        texts::NO_PICKER_MODELS@
    } else {
        join(visible.map_values(|m: PresetView| model_line(m)), texts::LINE_SEPARATOR@)
    }
}

fn format_model_line(m: &ModelPreset) -> (r: String)
    ensures
        r@ == model_line(m@),
{
    let mut items: Vec<String> = Vec::new();
    let mut i: usize = 0;
    while i < m.supported_reasoning_efforts.len()
        invariant
            i <= m.supported_reasoning_efforts.len(),
            views(items@) == m@.supported_reasoning_efforts.map_values(
                |e: (ReasoningEffort, Seq<char>)| effort_item(e),
            ).take(i as int),
        decreases m.supported_reasoning_efforts.len() - i,
    {
        let e = &m.supported_reasoning_efforts[i];
        let mut s = owned(effort_str(e.effort));
        s.append(texts::PAREN_OPEN);
        s.append(e.description.as_str());
        s.append(texts::PAREN_CLOSE);
        let ghost before = views(items@);
        items.push(s);
        assert(views(items@) =~= before.push(effort_item((e.effort, e.description@))));
        assert(m@.supported_reasoning_efforts[i as int] == (e.effort, e.description@));
        assert(m@.supported_reasoning_efforts.map_values(|e: (ReasoningEffort, Seq<char>)| effort_item(e)).take(i + 1)
            =~= m@.supported_reasoning_efforts.map_values(|e: (ReasoningEffort, Seq<char>)| effort_item(e)).take(i as int).push(effort_item((e.effort, e.description@))));
        i = i + 1;
    }
    assert(m@.supported_reasoning_efforts.map_values(|e: (ReasoningEffort, Seq<char>)| effort_item(e)).take(i as int)
        =~= m@.supported_reasoning_efforts.map_values(|e: (ReasoningEffort, Seq<char>)| effort_item(e)));
    let mut r = owned(texts::BULLET);
    r.append(m.display_name.as_str());
    r.append(texts::MODEL_SLUG_OPEN);
    r.append(m.model.as_str());
    r.append(texts::MODEL_SLUG_CLOSE);
    r.append(m.description.as_str());
    r.append(texts::DEFAULT_EFFORT_LABEL);
    r.append(effort_str(m.default_reasoning_effort));
    r.append(texts::SUPPORTED_EFFORTS_LABEL);
    r.append(join_strings(&items, texts::LIST_SEPARATOR).as_str());
    r.append(texts::SENTENCE_END);
    r
}

/// Describes the models a sub-agent may be given.
pub fn spawn_agent_models_description(models: &Vec<ModelPreset>) -> (r: String)
    ensures
        r@ == models_description(presets_view(models@)),
{
    let ghost ms = presets_view(models@);
    let mut lines: Vec<String> = Vec::new();
    let mut i: usize = 0;
    while i < models.len()
        invariant
            i <= models.len(),
            ms == presets_view(models@),
            views(lines@) == ms.take(i as int).filter(|m: PresetView| m.show_in_picker).map_values(
                |m: PresetView| model_line(m),
            ),
        decreases models.len() - i,
    {
        proof {
            reveal_with_fuel(Seq::<_>::filter, 1);
        }
        assert(ms.take(i + 1).drop_last() =~= ms.take(i as int));
        assert(ms.take(i + 1).last() == models@[i as int]@);
        if models[i].show_in_picker {
            let ghost before = views(lines@);
            let line = format_model_line(&models[i]);
            lines.push(line);
            assert(views(lines@) =~= before.push(model_line(models@[i as int]@)));
            assert(ms.take(i + 1).filter(|m: PresetView| m.show_in_picker) == ms.take(i as int).filter(
                |m: PresetView| m.show_in_picker,
            ).push(models@[i as int]@));
            assert(ms.take(i + 1).filter(|m: PresetView| m.show_in_picker).map_values(|m: PresetView| model_line(m))
                =~= before.push(model_line(models@[i as int]@)));
        }
        i = i + 1;
    }
    assert(ms.take(models.len() as int) =~= ms);
    if lines.len() == 0 {
        owned(texts::NO_PICKER_MODELS)
    } else {
        join_strings(&lines, texts::LINE_SEPARATOR)
    }
}

pub open spec fn spawn_agent_tool_view(models: Seq<PresetView>, agent_type_description: Seq<char>) -> Tool {
    let p = put(no_props(), "message", s_str(texts::D_SPAWN_MESSAGE));
    let p = put(p, "items", collab_input_items_view());
    let p = props_insert_desc(p, "agent_type", agent_type_description);
    let p = put(p, "fork_context", s_bool(texts::D_FORK_CONTEXT));
    let p = put(p, "model", s_str(texts::D_SPAWN_MODEL));
    let p = put(p, "reasoning_effort", s_str(texts::D_SPAWN_REASONING));
    function_view(
        texts::SPAWN_AGENT_NAME@,
        texts::SPAWN_AGENT_DESCRIPTION_HEAD@ + models_description(models) + texts::SPAWN_AGENT_DESCRIPTION_TAIL@,
        Schema::Object {
            properties: p,
            required: None,
            additional_properties: Some(crate::schema::Extra::Boolean(false)),
        },
        None,
    )
}

pub open spec fn props_insert_desc(ps: Seq<(Seq<char>, Schema)>, key: &str, d: Seq<char>) -> Seq<(Seq<char>, Schema)> {
    crate::schema::props_insert(ps, key@, Schema::Str { description: Some(d) })
}

/// The tool that starts a sub-agent.
pub fn create_spawn_agent_tool(models: &Vec<ModelPreset>, agent_type_description: &str) -> (r: ToolSpec)
    ensures
        r@ == spawn_agent_tool_view(presets_view(models@), agent_type_description@),
{
    let models_text = spawn_agent_models_description(models);
    let mut p = Properties::new();
    set_prop(&mut p, "message", str_schema(texts::D_SPAWN_MESSAGE));
    set_prop(&mut p, "items", create_collab_input_items_schema());
    set_prop(&mut p, "agent_type", str_schema(agent_type_description));
    set_prop(&mut p, "fork_context", bool_schema(texts::D_FORK_CONTEXT));
    set_prop(&mut p, "model", str_schema(texts::D_SPAWN_MODEL));
    set_prop(&mut p, "reasoning_effort", str_schema(texts::D_SPAWN_REASONING));
    let mut description = owned(texts::SPAWN_AGENT_DESCRIPTION_HEAD);
    description.append(models_text.as_str());
    description.append(texts::SPAWN_AGENT_DESCRIPTION_TAIL);
    let parameters = JsonSchema::Object {
        properties: p,
        required: None,
        additional_properties: Some(crate::schema::AdditionalProperties::Boolean(false)),
    };
    function_tool(texts::SPAWN_AGENT_NAME, description, parameters, None)
}

pub open spec fn spawn_agents_on_csv_tool_view() -> Tool {
    let p = put(no_props(), "csv_path", s_str(texts::D_CSV_PATH));
    let p = put(p, "instruction", s_str(texts::D_CSV_INSTRUCTION));
    let p = put(p, "id_column", s_str(texts::D_ID_COLUMN));
    let p = put(p, "output_csv_path", s_str(texts::D_OUTPUT_CSV_PATH));
    let p = put(p, "max_concurrency", s_num(texts::D_MAX_CONCURRENCY));
    let p = put(p, "max_workers", s_num(texts::D_MAX_WORKERS));
    let p = put(p, "max_runtime_seconds", s_num(texts::D_MAX_RUNTIME));
    let p = put(p, "output_schema", s_any_object());
    function_view(
        texts::SPAWN_AGENTS_ON_CSV_NAME@,
        texts::SPAWN_AGENTS_ON_CSV_DESCRIPTION@,
        s_closed(p, Some(seq!["csv_path"@, "instruction"@])),
        None,
    )
}

/// The tool that runs one worker sub-agent per CSV row.
pub fn create_spawn_agents_on_csv_tool() -> (r: ToolSpec)
    ensures
        r@ == spawn_agents_on_csv_tool_view(),
{
    let mut p = Properties::new();
    set_prop(&mut p, "csv_path", str_schema(texts::D_CSV_PATH));
    set_prop(&mut p, "instruction", str_schema(texts::D_CSV_INSTRUCTION));
    set_prop(&mut p, "id_column", str_schema(texts::D_ID_COLUMN));
    set_prop(&mut p, "output_csv_path", str_schema(texts::D_OUTPUT_CSV_PATH));
    set_prop(&mut p, "max_concurrency", num_schema(texts::D_MAX_CONCURRENCY));
    set_prop(&mut p, "max_workers", num_schema(texts::D_MAX_WORKERS));
    set_prop(&mut p, "max_runtime_seconds", num_schema(texts::D_MAX_RUNTIME));
    set_prop(&mut p, "output_schema", any_object_schema());
    function_tool(
        texts::SPAWN_AGENTS_ON_CSV_NAME,
        owned(texts::SPAWN_AGENTS_ON_CSV_DESCRIPTION),
        closed_schema(p, Some(names2("csv_path", "instruction"))),
        None,
    )
}

pub open spec fn report_agent_job_result_tool_view() -> Tool {
    let p = put(no_props(), "job_id", s_str(texts::D_JOB_ID));
    let p = put(p, "item_id", s_str(texts::D_ITEM_ID));
    let p = put(p, "result", s_any_object());
    let p = put(p, "stop", s_bool(texts::D_STOP));
    function_view(
        texts::REPORT_AGENT_JOB_RESULT_NAME@,
        texts::REPORT_AGENT_JOB_RESULT_DESCRIPTION@,
        s_closed(p, Some(seq!["job_id"@, "item_id"@, "result"@])),
        None,
    )
}

/// The tool by which an agent-job worker reports its result.
pub fn create_report_agent_job_result_tool() -> (r: ToolSpec)
    ensures
        r@ == report_agent_job_result_tool_view(),
{
    let mut p = Properties::new();
    set_prop(&mut p, "job_id", str_schema(texts::D_JOB_ID));
    set_prop(&mut p, "item_id", str_schema(texts::D_ITEM_ID));
    set_prop(&mut p, "result", any_object_schema());
    set_prop(&mut p, "stop", bool_schema(texts::D_STOP));
    function_tool(
        texts::REPORT_AGENT_JOB_RESULT_NAME,
        owned(texts::REPORT_AGENT_JOB_RESULT_DESCRIPTION),
        closed_schema(p, Some(names3("job_id", "item_id", "result"))),
        None,
    )
}

pub open spec fn send_input_tool_view() -> Tool {
    let p = put(no_props(), "id", s_str(texts::D_SEND_ID));
    let p = put(p, "message", s_str(texts::D_SEND_MESSAGE));
    let p = put(p, "items", collab_input_items_view());
    let p = put(p, "interrupt", s_bool(texts::D_INTERRUPT));
    function_view(texts::SEND_INPUT_NAME@, texts::SEND_INPUT_DESCRIPTION@, s_closed(p, Some(seq!["id"@])), None)
}

/// The tool that messages a running agent.
pub fn create_send_input_tool() -> (r: ToolSpec)
    ensures
        r@ == send_input_tool_view(),
{
    let mut p = Properties::new();
    set_prop(&mut p, "id", str_schema(texts::D_SEND_ID));
    set_prop(&mut p, "message", str_schema(texts::D_SEND_MESSAGE));
    set_prop(&mut p, "items", create_collab_input_items_schema());
    set_prop(&mut p, "interrupt", bool_schema(texts::D_INTERRUPT));
    function_tool(texts::SEND_INPUT_NAME, owned(texts::SEND_INPUT_DESCRIPTION), closed_schema(p, Some(names1("id"))), None)
}

pub open spec fn resume_agent_tool_view() -> Tool {
    let p = put(no_props(), "id", s_str(texts::D_RESUME_ID));
    function_view(texts::RESUME_AGENT_NAME@, texts::RESUME_AGENT_DESCRIPTION@, s_closed(p, Some(seq!["id"@])), None)
}

/// The tool that reopens a closed agent.
pub fn create_resume_agent_tool() -> (r: ToolSpec)
    ensures
        r@ == resume_agent_tool_view(),
{
    let mut p = Properties::new();
    set_prop(&mut p, "id", str_schema(texts::D_RESUME_ID));
    function_tool(texts::RESUME_AGENT_NAME, owned(texts::RESUME_AGENT_DESCRIPTION), closed_schema(p, Some(names1("id"))), None)
}

/// `Optional timeout in milliseconds. Defaults to D, min MIN, max MAX. Prefer ...`
pub open spec fn wait_timeout_text(default_ms: u64, min_ms: u64, max_ms: u64) -> Seq<char> {
    texts::D_WAIT_TIMEOUT_HEAD@ + decimal(default_ms as nat) + texts::D_WAIT_TIMEOUT_MIN@ + decimal(min_ms as nat)
        + texts::D_WAIT_TIMEOUT_MAX@ + decimal(max_ms as nat) + texts::D_WAIT_TIMEOUT_TAIL@
}

pub open spec fn wait_tool_view(default_ms: u64, min_ms: u64, max_ms: u64) -> Tool {
    let p = put(no_props(), "ids", s_str_list(texts::D_WAIT_IDS));
    let p = crate::schema::props_insert(
        p,
        "timeout_ms"@,
        Schema::Number { description: Some(wait_timeout_text(default_ms, min_ms, max_ms)) },
    );
    function_view(texts::WAIT_NAME@, texts::WAIT_DESCRIPTION@, s_closed(p, Some(seq!["ids"@])), None)
}

/// The tool that waits for agents to finish.
pub fn create_wait_tool(default_ms: u64, min_ms: u64, max_ms: u64) -> (r: ToolSpec)
    ensures
        r@ == wait_tool_view(default_ms, min_ms, max_ms),
{
    let mut p = Properties::new();
    set_prop(&mut p, "ids", str_list_schema(texts::D_WAIT_IDS));
    let mut d = owned(texts::D_WAIT_TIMEOUT_HEAD);
    d.append(decimal_string(default_ms).as_str());
    d.append(texts::D_WAIT_TIMEOUT_MIN);
    d.append(decimal_string(min_ms).as_str());
    d.append(texts::D_WAIT_TIMEOUT_MAX);
    d.append(decimal_string(max_ms).as_str());
    d.append(texts::D_WAIT_TIMEOUT_TAIL);
    set_prop(&mut p, "timeout_ms", num_schema(d.as_str()));
    function_tool(texts::WAIT_NAME, owned(texts::WAIT_DESCRIPTION), closed_schema(p, Some(names1("ids"))), None)
}

pub open spec fn close_agent_tool_view() -> Tool {
    let p = put(no_props(), "id", s_str(texts::D_CLOSE_ID));
    function_view(texts::CLOSE_AGENT_NAME@, texts::CLOSE_AGENT_DESCRIPTION@, s_closed(p, Some(seq!["id"@])), None)
}

/// The tool that closes an agent.
pub fn create_close_agent_tool() -> (r: ToolSpec)
    ensures
        r@ == close_agent_tool_view(),
{
    let mut p = Properties::new();
    set_prop(&mut p, "id", str_schema(texts::D_CLOSE_ID));
    function_tool(texts::CLOSE_AGENT_NAME, owned(texts::CLOSE_AGENT_DESCRIPTION), closed_schema(p, Some(names1("id"))), None)
}

pub open spec fn request_user_input_tool_view(description: Seq<char>) -> Tool {
    let option = put(no_props(), "label", s_str(texts::D_OPTION_LABEL));
    let option = put(option, "description", s_str(texts::D_OPTION_DESCRIPTION));
    let options = s_arr(s_closed(option, Some(seq!["label"@, "description"@])), texts::D_OPTIONS);
    let q = put(no_props(), "id", s_str(texts::D_QUESTION_ID));
    let q = put(q, "header", s_str(texts::D_QUESTION_HEADER));
    let q = put(q, "question", s_str(texts::D_QUESTION));
    let q = put(q, "options", options);
    let questions = s_arr(s_closed(q, Some(seq!["id"@, "header"@, "question"@, "options"@])), texts::D_QUESTIONS);
    let p = put(no_props(), "questions", questions);
    function_view(texts::REQUEST_USER_INPUT_NAME@, description, s_closed(p, Some(seq!["questions"@])), None)
}

/// The tool that asks the user multiple-choice questions.
pub fn create_request_user_input_tool(description: &str) -> (r: ToolSpec)
    ensures
        r@ == request_user_input_tool_view(description@),
{
    let mut option = Properties::new();
    set_prop(&mut option, "label", str_schema(texts::D_OPTION_LABEL));
    set_prop(&mut option, "description", str_schema(texts::D_OPTION_DESCRIPTION));
    let options = arr_schema(closed_schema(option, Some(names2("label", "description"))), texts::D_OPTIONS);
    let mut q = Properties::new();
    set_prop(&mut q, "id", str_schema(texts::D_QUESTION_ID));
    set_prop(&mut q, "header", str_schema(texts::D_QUESTION_HEADER));
    set_prop(&mut q, "question", str_schema(texts::D_QUESTION));
    set_prop(&mut q, "options", options);
    let questions = arr_schema(
        closed_schema(q, Some(names4("id", "header", "question", "options"))),
        texts::D_QUESTIONS,
    );
    let mut p = Properties::new();
    set_prop(&mut p, "questions", questions);
    function_tool(texts::REQUEST_USER_INPUT_NAME, owned(description), closed_schema(p, Some(names1("questions"))), None)
}

pub open spec fn request_permissions_tool_view(description: Seq<char>) -> Tool {
    let p = put(no_props(), "reason", s_str(texts::D_REASON));
    let p = put(p, "permissions", permissions_view());
    function_view(texts::REQUEST_PERMISSIONS_NAME@, description, s_closed(p, Some(seq!["permissions"@])), None)
}

/// The tool that asks for more sandbox permissions.
pub fn create_request_permissions_tool(description: &str) -> (r: ToolSpec)
    ensures
        r@ == request_permissions_tool_view(description@),
{
    let mut p = Properties::new();
    set_prop(&mut p, "reason", str_schema(texts::D_REASON));
    set_prop(&mut p, "permissions", create_permissions_schema());
    function_tool(texts::REQUEST_PERMISSIONS_NAME, owned(description), closed_schema(p, Some(names1("permissions"))), None)
}


/// The request-user-input tool is the same whatever the configuration: only its
/// description varies, and that is the one passed in.
pub proof fn lemma_request_user_input_tool(d1: Seq<char>, d2: Seq<char>)
    ensures
        request_user_input_tool_view(d1) matches Tool::Function(f1) && request_user_input_tool_view(d2) matches Tool::Function(
            f2,
        ) && f1.name == texts::REQUEST_USER_INPUT_NAME@ && f1.description == d1 && f2.description == d2 && f1.name
            == f2.name && f1.parameters == f2.parameters && f1.strict == f2.strict && f1.defer_loading == f2.defer_loading
            && f1.output_schema == f2.output_schema,
{
}
}
