use vstd::prelude::*;

use crate::builders::{j_push, json_object, json_str, push_member};
use crate::json::{clone_json, get_member, is_null, members_view, set_member, with_member, member, Json, JsonValue};
use crate::sanitize::{sanitize, sanitize_json_schema};
use crate::schema::{opt_str, JsonSchema};
use crate::schema_json::{parse_schema, schema_from_json, SchemaError, SchemaFault};
use crate::text::owned;
use crate::texts;
use crate::tool::{FunctionView, ResponsesApiTool};

verus! {

pub const K_CONTENT: &'static str = "content";
pub const K_STRUCTURED_CONTENT: &'static str = "structuredContent";
pub const K_IS_ERROR: &'static str = "isError";
pub const K_META: &'static str = "_meta";

/// A tool that an MCP server offers, with the parts that become a function tool.
pub struct McpTool {
    pub name: String,
    pub description: Option<String>,
    /// The JSON Schema object of the tool's arguments.
    pub input_schema: Vec<(String, JsonValue)>,
    /// The JSON Schema object of the tool's structured result, if it states one.
    pub output_schema: Option<Vec<(String, JsonValue)>>,
}

/// The content of an [`McpTool`].
pub struct McpToolView {
    pub name: Seq<char>,
    pub description: Option<Seq<char>>,
    pub input_schema: Seq<(Seq<char>, Json)>,
    pub output_schema: Option<Seq<(Seq<char>, Json)>>,
}

impl View for McpTool {
    type V = McpToolView;

    open spec fn view(&self) -> McpToolView {
        McpToolView {
            name: self.name@,
            description: opt_str(self.description),
            input_schema: members_view(self.input_schema@),
            output_schema: match self.output_schema {
                Some(o) => Some(members_view(o@)),
                None => None,
            },
        }
    }
}

/// A tool defined by the client of a session, with a JSON Schema for its input.
pub struct DynamicToolSpec {
    pub name: String,
    pub description: String,
    pub input_schema: JsonValue,
}

/// Reads a tool's input schema after sanitizing it.
pub open spec fn input_schema_result(j: Json) -> Result<crate::schema::Schema, SchemaFault> {
    parse_schema(sanitize(j))
}

/// Parses a tool input schema, or gives the reason it is not one: the schema is
/// sanitized first (see [`sanitize`]), then read (see [`parse_schema`]).
pub fn parse_tool_input_schema(input_schema: &JsonValue) -> (r: Result<JsonSchema, SchemaError>)
    ensures
        match r {
            Ok(s) => input_schema_result(input_schema@) == Ok::<crate::schema::Schema, SchemaFault>(s@),
            Err(e) => input_schema_result(input_schema@) == Err::<crate::schema::Schema, SchemaFault>(e@),
        },
{
    let mut v = clone_json(input_schema);
    sanitize_json_schema(&mut v);
    schema_from_json(&v)
}

/// `{}`.
pub open spec fn empty_object() -> Json {
    Json::Object(Seq::empty())
}

/// `{"type": ty}`.
pub open spec fn j_type(ty: &str) -> Json {
    Json::Object(seq![(texts::K_TYPE@, Json::Str(ty@))])
}

/// The output schema of an MCP tool call result, with `structuredContent`
/// following the tool's own output schema.
pub open spec fn call_tool_result_schema(structured: Json) -> Json {
    Json::Object(
        seq![
            (texts::K_TYPE@, Json::Str(texts::T_OBJECT@)),
            (
                texts::K_PROPERTIES@,
                Json::Object(
                    seq![
                        (
                            K_CONTENT@,
                            Json::Object(
                                seq![(texts::K_TYPE@, Json::Str(texts::T_ARRAY@)), (texts::K_ITEMS@, empty_object())],
                            ),
                        ),
                        (K_STRUCTURED_CONTENT@, structured),
                        (K_IS_ERROR@, j_type(texts::T_BOOLEAN)),
                        (K_META@, empty_object()),
                    ],
                ),
            ),
            (texts::K_REQUIRED@, Json::Array(seq![Json::Str(K_CONTENT@)])),
            (texts::K_ADDITIONAL_PROPERTIES@, Json::Bool(false)),
        ],
    )
}

fn empty_object_value() -> (r: JsonValue)
    ensures
        r@ == empty_object(),
{
    let ms: Vec<(String, JsonValue)> = Vec::new();
    let r = json_object(ms);
    assert(members_view(ms@) =~= Seq::<(Seq<char>, Json)>::empty());
    r
}

fn type_value(ty: &str) -> (r: JsonValue)
    ensures
        r@ == j_type(ty),
{
    let mut ms: Vec<(String, JsonValue)> = Vec::new();
    push_member(&mut ms, texts::K_TYPE, json_str(ty));
    assert(members_view(ms@) =~= seq![(texts::K_TYPE@, Json::Str(ty@))]);
    json_object(ms)
}

/// The output schema of a call to an MCP tool: see [`call_tool_result_schema`].
pub fn mcp_call_tool_result_output_schema(structured_content_schema: JsonValue) -> (r: JsonValue)
    ensures
        r@ == call_tool_result_schema(structured_content_schema@),
{
    let ghost sv = structured_content_schema@;
    let mut content: Vec<(String, JsonValue)> = Vec::new();
    push_member(&mut content, texts::K_TYPE, json_str(texts::T_ARRAY));
    push_member(&mut content, texts::K_ITEMS, empty_object_value());
    assert(members_view(content@) =~= seq![(texts::K_TYPE@, Json::Str(texts::T_ARRAY@)), (texts::K_ITEMS@, empty_object())]);
    let content_value = json_object(content);
    let mut props: Vec<(String, JsonValue)> = Vec::new();
    push_member(&mut props, K_CONTENT, content_value);
    push_member(&mut props, K_STRUCTURED_CONTENT, structured_content_schema);
    push_member(&mut props, K_IS_ERROR, type_value(texts::T_BOOLEAN));
    push_member(&mut props, K_META, empty_object_value());
    assert(members_view(props@) =~= seq![
        (
            K_CONTENT@,
            Json::Object(seq![(texts::K_TYPE@, Json::Str(texts::T_ARRAY@)), (texts::K_ITEMS@, empty_object())]),
        ),
        (K_STRUCTURED_CONTENT@, sv),
        (K_IS_ERROR@, j_type(texts::T_BOOLEAN)),
        (K_META@, empty_object()),
    ]);
    let props_value = json_object(props);
    let mut required: Vec<JsonValue> = Vec::new();
    required.push(json_str(K_CONTENT));
    proof {
        crate::json::lemma_array_view(required);
        assert(required@.map_values(|x: JsonValue| x@) =~= seq![Json::Str(K_CONTENT@)]);
    }
    let mut ms: Vec<(String, JsonValue)> = Vec::new();
    push_member(&mut ms, texts::K_TYPE, json_str(texts::T_OBJECT));
    push_member(&mut ms, texts::K_PROPERTIES, props_value);
    push_member(&mut ms, texts::K_REQUIRED, JsonValue::Array(required));
    push_member(&mut ms, texts::K_ADDITIONAL_PROPERTIES, JsonValue::Bool(false));
    let ghost expected = call_tool_result_schema(sv);
    assert(members_view(ms@) =~= match expected {
        Json::Object(m) => m,
        _ => Seq::empty(),
    });
    let r = json_object(ms);
    r
}


/// The input schema of an MCP tool as it is read: `properties` set to `{}` where
/// the schema lacks it or holds null there.
pub open spec fn mcp_input_json(t: McpToolView) -> Json {
    let ms = t.input_schema;
    match member(ms, texts::K_PROPERTIES@) {
        None => Json::Object(with_member(ms, texts::K_PROPERTIES@, empty_object())),
        Some(Json::Null) => Json::Object(with_member(ms, texts::K_PROPERTIES@, empty_object())),
        Some(_) => Json::Object(ms),
    }
}

/// What reading an MCP tool's input schema gives.
pub open spec fn mcp_input_result(t: McpToolView) -> Result<crate::schema::Schema, SchemaFault> {
    input_schema_result(mcp_input_json(t))
}

/// The schema of an MCP tool's structured content: its own, or `{}`.
pub open spec fn mcp_structured_schema(t: McpToolView) -> Json {
    match t.output_schema {
        Some(o) => Json::Object(o),
        None => empty_object(),
    }
}

/// The description of an MCP tool, empty where it has none.
pub open spec fn mcp_description(t: McpToolView) -> Seq<char> {
    match t.description {
        Some(d) => d,
        None => Seq::empty(),
    }
}

/// The description, parameters and output schema that an MCP tool becomes.
pub fn mcp_tool_to_openai_tool_parts(tool: McpTool) -> (r: Result<(String, JsonSchema, Option<JsonValue>), SchemaError>)
    ensures
        match r {
            Ok((d, s, o)) => {
                &&& mcp_input_result(tool@) == Ok::<crate::schema::Schema, SchemaFault>(s@)
                &&& d@ == mcp_description(tool@)
                &&& o matches Some(j) && j@ == call_tool_result_schema(mcp_structured_schema(tool@))
            },
            Err(e) => mcp_input_result(tool@) == Err::<crate::schema::Schema, SchemaFault>(e@),
        },
{
    let ghost t0 = tool;
    let McpTool { name: _, description, input_schema, output_schema } = tool;
    let mut ms = input_schema;
    let missing = match get_member(&ms, texts::K_PROPERTIES) {
        None => true,
        Some(p) => is_null(p),
    };
    if missing {
        set_member(&mut ms, owned(texts::K_PROPERTIES), empty_object_value());
    }
    let mut input = json_object(ms);
    assert(input@ == mcp_input_json(t0@));
    sanitize_json_schema(&mut input);
    let parameters = schema_from_json(&input)?;
    let structured = match output_schema {
        Some(o) => json_object(o),
        None => empty_object_value(),
    };
    let output = mcp_call_tool_result_output_schema(structured);
    let d = match description {
        Some(d) => d,
        None => String::new(),
    };
    Ok((d, parameters, Some(output)))
}

/// The function tool that an MCP tool becomes under `fully_qualified_name`.
pub fn mcp_tool_to_openai_tool(fully_qualified_name: String, tool: McpTool) -> (r: Result<ResponsesApiTool, SchemaError>)
    ensures
        match r {
            Ok(t) => {
                &&& mcp_input_result(tool@) == Ok::<crate::schema::Schema, SchemaFault>(t.parameters@)
                &&& t.name@ == fully_qualified_name@
                &&& t.description@ == mcp_description(tool@)
                &&& !t.strict
                &&& t.defer_loading is None
                &&& t.output_schema matches Some(j) && j@ == call_tool_result_schema(mcp_structured_schema(tool@))
            },
            Err(e) => mcp_input_result(tool@) == Err::<crate::schema::Schema, SchemaFault>(e@),
        },
{
    let (description, parameters, output_schema) = mcp_tool_to_openai_tool_parts(tool)?;
    Ok(ResponsesApiTool {
        name: fully_qualified_name,
        description,
        strict: false,
        defer_loading: None,
        parameters,
        output_schema,
    })
}

/// The function tool that an MCP tool becomes when offered through tool search:
/// loaded on demand, with no output schema.
pub fn mcp_tool_to_deferred_openai_tool(name: String, tool: McpTool) -> (r: Result<ResponsesApiTool, SchemaError>)
    ensures
        match r {
            Ok(t) => {
                &&& mcp_input_result(tool@) == Ok::<crate::schema::Schema, SchemaFault>(t.parameters@)
                &&& t.name@ == name@
                &&& t.description@ == mcp_description(tool@)
                &&& !t.strict
                &&& t.defer_loading == Some(true)
                &&& t.output_schema is None
            },
            Err(e) => mcp_input_result(tool@) == Err::<crate::schema::Schema, SchemaFault>(e@),
        },
{
    let (description, parameters, _) = mcp_tool_to_openai_tool_parts(tool)?;
    Ok(ResponsesApiTool {
        name,
        description,
        strict: false,
        defer_loading: Some(true),
        parameters,
        output_schema: None,
    })
}

/// The function tool that a dynamic tool becomes.
pub fn dynamic_tool_to_openai_tool(tool: &DynamicToolSpec) -> (r: Result<ResponsesApiTool, SchemaError>)
    ensures
        match r {
            Ok(t) => {
                &&& input_schema_result(tool.input_schema@) == Ok::<crate::schema::Schema, SchemaFault>(t.parameters@)
                &&& t.name@ == tool.name@
                &&& t.description@ == tool.description@
                &&& !t.strict
                &&& t.defer_loading is None
                &&& t.output_schema is None
            },
            Err(e) => input_schema_result(tool.input_schema@) == Err::<crate::schema::Schema, SchemaFault>(e@),
        },
{
    let parameters = parse_tool_input_schema(&tool.input_schema)?;
    Ok(ResponsesApiTool {
        name: owned(tool.name.as_str()),
        description: owned(tool.description.as_str()),
        strict: false,
        defer_loading: None,
        parameters,
        output_schema: None,
    })
}


fn clone_members(m: &Vec<(String, JsonValue)>) -> (r: Vec<(String, JsonValue)>)
    ensures
        members_view(r@) == members_view(m@),
{
    let mut out: Vec<(String, JsonValue)> = Vec::new();
    let mut i: usize = 0;
    while i < m.len()
        invariant
            i <= m.len(),
            out.len() == i,
            forall|j: int| 0 <= j < i ==> #[trigger] out@[j].0@ == m@[j].0@ && out@[j].1@ == m@[j].1@,
        decreases m.len() - i,
    {
        out.push((owned(m[i].0.as_str()), clone_json(&m[i].1)));
        i = i + 1;
    }
    assert(members_view(out@) =~= members_view(m@));
    out
}

/// A copy of an MCP tool with the same content.
pub fn clone_mcp_tool(t: &McpTool) -> (r: McpTool)
    ensures
        r@ == t@,
{
    McpTool {
        name: owned(t.name.as_str()),
        description: crate::schema::clone_opt_string(&t.description),
        input_schema: clone_members(&t.input_schema),
        output_schema: match &t.output_schema {
            Some(o) => Some(clone_members(o)),
            None => None,
        },
    }
}

}
