use vstd::prelude::*;

use crate::json::{members_view, Json, JsonValue};
use crate::schema::{props_insert, strs, AdditionalProperties, Extra, JsonSchema, Properties, Schema};
use crate::text::owned;
use crate::texts::{K_DESCRIPTION, K_TYPE};
use crate::tool::{FunctionView, ResponsesApiTool, Tool, ToolSpec};

verus! {

pub open spec fn s_str(d: &str) -> Schema {
    Schema::Str { description: Some(d@) }
}

pub open spec fn s_num(d: &str) -> Schema {
    Schema::Number { description: Some(d@) }
}

pub open spec fn s_bool(d: &str) -> Schema {
    Schema::Boolean { description: Some(d@) }
}

pub open spec fn s_plain_str() -> Schema {
    Schema::Str { description: None }
}

pub open spec fn s_arr(items: Schema, d: &str) -> Schema {
    Schema::Array { items: Box::new(items), description: Some(d@) }
}

pub open spec fn s_str_list(d: &str) -> Schema {
    s_arr(s_plain_str(), d)
}

/// An object schema that admits no other properties.
pub open spec fn s_closed(ps: Seq<(Seq<char>, Schema)>, required: Option<Seq<Seq<char>>>) -> Schema {
    Schema::Object { properties: ps, required, additional_properties: Some(Extra::Boolean(false)) }
}

/// An object schema with no properties and no constraints.
pub open spec fn s_any_object() -> Schema {
    Schema::Object { properties: Seq::empty(), required: None, additional_properties: None }
}

pub open spec fn put(ps: Seq<(Seq<char>, Schema)>, key: &str, value: Schema) -> Seq<(Seq<char>, Schema)> {
    props_insert(ps, key@, value)
}

pub open spec fn no_props() -> Seq<(Seq<char>, Schema)> {
    Seq::empty()
}

/// A function tool with the usual settings: not strict, loaded at once.
pub open spec fn function_view(
    name: Seq<char>,
    description: Seq<char>,
    parameters: Schema,
    output_schema: Option<Json>,
) -> Tool {
    Tool::Function(
        FunctionView {
            name,
            description,
            strict: false,
            defer_loading: None,
            parameters,
            output_schema,
        },
    )
}

pub fn str_schema(d: &str) -> (r: JsonSchema)
    ensures
        r@ == s_str(d),
{
    JsonSchema::String { description: Some(owned(d)) }
}

pub fn num_schema(d: &str) -> (r: JsonSchema)
    ensures
        r@ == s_num(d),
{
    JsonSchema::Number { description: Some(owned(d)) }
}

pub fn bool_schema(d: &str) -> (r: JsonSchema)
    ensures
        r@ == s_bool(d),
{
    JsonSchema::Boolean { description: Some(owned(d)) }
}

pub fn plain_str_schema() -> (r: JsonSchema)
    ensures
        r@ == s_plain_str(),
{
    JsonSchema::String { description: None }
}

pub fn arr_schema(items: JsonSchema, d: &str) -> (r: JsonSchema)
    ensures
        r@ == s_arr(items@, d),
{
    JsonSchema::Array { items: Box::new(items), description: Some(owned(d)) }
}

pub fn str_list_schema(d: &str) -> (r: JsonSchema)
    ensures
        r@ == s_str_list(d),
{
    arr_schema(plain_str_schema(), d)
}

pub fn closed_schema(properties: Properties, required: Option<Vec<String>>) -> (r: JsonSchema)
    ensures
        r@ == s_closed(properties@, match required {
            Some(v) => Some(strs(v@)),
            None => None,
        }),
{
    JsonSchema::Object {
        properties,
        required,
        additional_properties: Some(AdditionalProperties::Boolean(false)),
    }
}

pub fn any_object_schema() -> (r: JsonSchema)
    ensures
        r@ == s_any_object(),
{
    let p = Properties::new();
    JsonSchema::Object { properties: p, required: None, additional_properties: None }
}

/// Sets `key` in `p`.
pub fn set_prop(p: &mut Properties, key: &str, value: JsonSchema)
    ensures
        final(p)@ == put(old(p)@, key, value@),
{
    p.insert(owned(key), value);
}

pub fn names1(a: &str) -> (r: Vec<String>)
    ensures
        strs(r@) == seq![a@],
{
    let mut r: Vec<String> = Vec::new();
    r.push(owned(a));
    assert(strs(r@) =~= seq![a@]);
    r
}

pub fn names2(a: &str, b: &str) -> (r: Vec<String>)
    ensures
        strs(r@) == seq![a@, b@],
{
    let mut r: Vec<String> = Vec::new();
    r.push(owned(a));
    r.push(owned(b));
    assert(strs(r@) =~= seq![a@, b@]);
    r
}

pub fn names3(a: &str, b: &str, c: &str) -> (r: Vec<String>)
    ensures
        strs(r@) == seq![a@, b@, c@],
{
    let mut r: Vec<String> = Vec::new();
    r.push(owned(a));
    r.push(owned(b));
    r.push(owned(c));
    assert(strs(r@) =~= seq![a@, b@, c@]);
    r
}

pub fn names4(a: &str, b: &str, c: &str, d: &str) -> (r: Vec<String>)
    ensures
        strs(r@) == seq![a@, b@, c@, d@],
{
    let mut r: Vec<String> = Vec::new();
    r.push(owned(a));
    r.push(owned(b));
    r.push(owned(c));
    r.push(owned(d));
    assert(strs(r@) =~= seq![a@, b@, c@, d@]);
    r
}

/// A function tool that is not strict and loads at once.
pub fn function_tool(
    name: &str,
    description: String,
    parameters: JsonSchema,
    output_schema: Option<JsonValue>,
) -> (r: ToolSpec)
    ensures
        r@ == function_view(name@, description@, parameters@, match output_schema {
            Some(j) => Some(j@),
            None => None,
        }),
{
    ToolSpec::Function(
        ResponsesApiTool {
            name: owned(name),
            description,
            strict: false,
            defer_loading: None,
            parameters,
            output_schema,
        },
    )
}

pub open spec fn j_str(s: &str) -> Json {
    Json::Str(s@)
}

/// `{"type": ty, "description": d}`.
pub open spec fn j_typed(ty: &str, d: &str) -> Json {
    Json::Object(seq![(K_TYPE@, Json::Str(ty@)), (K_DESCRIPTION@, Json::Str(d@))])
}

pub open spec fn j_push(ms: Seq<(Seq<char>, Json)>, key: &str, value: Json) -> Seq<(Seq<char>, Json)> {
    ms.push((key@, value))
}

pub fn json_str(s: &str) -> (r: JsonValue)
    ensures
        r@ == j_str(s),
{
    JsonValue::Str(owned(s))
}

/// Appends the member `key` to an object under construction.
pub fn push_member(ms: &mut Vec<(String, JsonValue)>, key: &str, value: JsonValue)
    ensures
        members_view(final(ms)@) == j_push(members_view(old(ms)@), key, value@),
{
    let ghost before = members_view(ms@);
    ms.push((owned(key), value));
    assert(members_view(ms@) =~= before.push((key@, value@)));
}

pub fn json_object(ms: Vec<(String, JsonValue)>) -> (r: JsonValue)
    ensures
        r@ == Json::Object(members_view(ms@)),
{
    proof {
        crate::json::lemma_object_view(ms);
    }
    JsonValue::Object(ms)
}

pub fn json_typed(ty: &str, d: &str) -> (r: JsonValue)
    ensures
        r@ == j_typed(ty, d),
{
    let mut ms: Vec<(String, JsonValue)> = Vec::new();
    push_member(&mut ms, K_TYPE, json_str(ty));
    push_member(&mut ms, K_DESCRIPTION, json_str(d));
    assert(members_view(ms@) =~= seq![(K_TYPE@, Json::Str(ty@)), (K_DESCRIPTION@, Json::Str(d@))]);
    json_object(ms)
}

}
