use vstd::prelude::*;

use crate::builders::{json_object, json_str, push_member};
use crate::json::{lemma_array_view, member, members_view, Json, JsonValue};
use crate::sanitize::elems_view;
use crate::schema_json::{schema_json, schema_to_json};
use crate::text::owned;
use crate::tool::{FreeformView, FunctionView, LocationView, Tool, ToolSpec, WebSearchContextSize};

verus! {

pub const K_TYPE: &'static str = "type";
pub const K_NAME: &'static str = "name";
pub const K_DESCRIPTION: &'static str = "description";
pub const K_STRICT: &'static str = "strict";
pub const K_DEFER_LOADING: &'static str = "defer_loading";
pub const K_PARAMETERS: &'static str = "parameters";
pub const K_EXECUTION: &'static str = "execution";
pub const K_OUTPUT_FORMAT: &'static str = "output_format";
pub const K_EXTERNAL_WEB_ACCESS: &'static str = "external_web_access";
pub const K_FILTERS: &'static str = "filters";
pub const K_ALLOWED_DOMAINS: &'static str = "allowed_domains";
pub const K_USER_LOCATION: &'static str = "user_location";
pub const K_COUNTRY: &'static str = "country";
pub const K_REGION: &'static str = "region";
pub const K_CITY: &'static str = "city";
pub const K_TIMEZONE: &'static str = "timezone";
pub const K_SEARCH_CONTEXT_SIZE: &'static str = "search_context_size";
pub const K_SEARCH_CONTENT_TYPES: &'static str = "search_content_types";
pub const K_FORMAT: &'static str = "format";
pub const K_SYNTAX: &'static str = "syntax";
pub const K_DEFINITION: &'static str = "definition";
pub const T_FUNCTION: &'static str = "function";
pub const T_TOOL_SEARCH: &'static str = "tool_search";
pub const T_LOCAL_SHELL: &'static str = "local_shell";
pub const T_IMAGE_GENERATION: &'static str = "image_generation";
pub const T_WEB_SEARCH: &'static str = "web_search";
pub const T_CUSTOM: &'static str = "custom";
pub const T_APPROXIMATE: &'static str = "approximate";
pub const SIZE_LOW: &'static str = "low";
pub const SIZE_MEDIUM: &'static str = "medium";
pub const SIZE_HIGH: &'static str = "high";

pub open spec fn s(k: &str, v: Json) -> (Seq<char>, Json) {
    (k@, v)
}

pub open spec fn opt_member(k: &str, v: Option<Json>) -> Seq<(Seq<char>, Json)> {
    match v {
        Some(j) => seq![(k@, j)],
        None => Seq::empty(),
    }
}

pub open spec fn strings_json(v: Seq<Seq<char>>) -> Json {
    Json::Array(v.map_values(|x: Seq<char>| Json::Str(x)))
}

pub open spec fn opt_string_json(v: Option<Seq<char>>) -> Option<Json> {
    match v {
        Some(x) => Some(Json::Str(x)),
        None => None,
    }
}

pub open spec fn size_text(s: WebSearchContextSize) -> Seq<char> {
    match s {
        WebSearchContextSize::Low => SIZE_LOW@,
        WebSearchContextSize::Medium => SIZE_MEDIUM@,
        WebSearchContextSize::High => SIZE_HIGH@,
    }
}

/// The approximate user location as the Responses API takes it.
pub open spec fn location_json(l: LocationView) -> Json {
    Json::Object(
        seq![s(K_TYPE, Json::Str(T_APPROXIMATE@))] + opt_member(K_COUNTRY, opt_string_json(l.country))
            + opt_member(K_REGION, opt_string_json(l.region)) + opt_member(K_CITY, opt_string_json(l.city))
            + opt_member(K_TIMEZONE, opt_string_json(l.timezone)),
    )
}

/// A tool as the Responses API takes it: tagged by `type`, fields in declaration
/// order, absent optional fields left out, and a function tool's output schema
/// never sent.
pub open spec fn tool_json(t: Tool) -> Json {
    match t {
        Tool::Function(f) => Json::Object(
            seq![
                s(K_TYPE, Json::Str(T_FUNCTION@)),
                s(K_NAME, Json::Str(f.name)),
                s(K_DESCRIPTION, Json::Str(f.description)),
                s(K_STRICT, Json::Bool(f.strict)),
            ] + opt_member(
                K_DEFER_LOADING,
                match f.defer_loading {
                    Some(b) => Some(Json::Bool(b)),
                    None => None,
                },
            ) + seq![s(K_PARAMETERS, schema_json(f.parameters))],
        ),
        Tool::ToolSearch { execution, description, parameters } => Json::Object(
            seq![
                s(K_TYPE, Json::Str(T_TOOL_SEARCH@)),
                s(K_EXECUTION, Json::Str(execution)),
                s(K_DESCRIPTION, Json::Str(description)),
                s(K_PARAMETERS, schema_json(parameters)),
            ],
        ),
        Tool::LocalShell => Json::Object(seq![s(K_TYPE, Json::Str(T_LOCAL_SHELL@))]),
        Tool::ImageGeneration { output_format } => Json::Object(
            seq![s(K_TYPE, Json::Str(T_IMAGE_GENERATION@)), s(K_OUTPUT_FORMAT, Json::Str(output_format))],
        ),
        Tool::WebSearch { external_web_access, filters, user_location, search_context_size, search_content_types } => Json::Object(
            seq![s(K_TYPE, Json::Str(T_WEB_SEARCH@))] + opt_member(
                K_EXTERNAL_WEB_ACCESS,
                match external_web_access {
                    Some(b) => Some(Json::Bool(b)),
                    None => None,
                },
            ) + opt_member(
                K_FILTERS,
                match filters {
                    Some(domains) => Some(
                        Json::Object(
                            opt_member(
                                K_ALLOWED_DOMAINS,
                                match domains {
                                    Some(d) => Some(strings_json(d)),
                                    None => None,
                                },
                            ),
                        ),
                    ),
                    None => None,
                },
            ) + opt_member(
                K_USER_LOCATION,
                match user_location {
                    Some(l) => Some(location_json(l)),
                    None => None,
                },
            ) + opt_member(
                K_SEARCH_CONTEXT_SIZE,
                match search_context_size {
                    Some(z) => Some(Json::Str(size_text(z))),
                    None => None,
                },
            ) + opt_member(
                K_SEARCH_CONTENT_TYPES,
                match search_content_types {
                    Some(v) => Some(strings_json(v)),
                    None => None,
                },
            ),
        ),
        Tool::Freeform(f) => Json::Object(
            seq![
                s(K_TYPE, Json::Str(T_CUSTOM@)),
                s(K_NAME, Json::Str(f.name)),
                s(K_DESCRIPTION, Json::Str(f.description)),
                s(
                    K_FORMAT,
                    Json::Object(
                        seq![
                            s(K_TYPE, Json::Str(f.format_type)),
                            s(K_SYNTAX, Json::Str(f.syntax)),
                            s(K_DEFINITION, Json::Str(f.definition)),
                        ],
                    ),
                ),
            ],
        ),
    }
}

fn push_opt(ms: &mut Vec<(String, JsonValue)>, key: &str, value: Option<JsonValue>)
    ensures
        members_view(final(ms)@) == members_view(old(ms)@) + opt_member(
            key,
            match value {
                Some(v) => Some(v@),
                None => None,
            },
        ),
{
    let ghost before = members_view(ms@);
    match value {
        Some(v) => {
            push_member(ms, key, v);
        },
        None => {},
    }
    assert(members_view(ms@) =~= before + opt_member(
        key,
        match value {
            Some(v) => Some(v@),
            None => None,
        },
    ));
}

fn strings_value(v: &Vec<String>) -> (r: JsonValue)
    ensures
        r@ == strings_json(crate::schema::strs(v@)),
{
    let mut out: Vec<JsonValue> = Vec::new();
    let mut i: usize = 0;
    while i < v.len()
        invariant
            i <= v.len(),
            out.len() == i,
            forall|j: int| 0 <= j < i ==> #[trigger] out@[j]@ == Json::Str(v@[j]@),
        decreases v.len() - i,
    {
        out.push(JsonValue::Str(owned(v[i].as_str())));
        i = i + 1;
    }
    proof {
        lemma_array_view(out);
        assert(elems_view(out@) =~= crate::schema::strs(v@).map_values(|x: Seq<char>| Json::Str(x)));
    }
    JsonValue::Array(out)
}

fn opt_string_value(v: &Option<String>) -> (r: Option<JsonValue>)
    ensures
        match r {
            Some(j) => opt_string_json(crate::schema::opt_str(*v)) == Some(j@),
            None => opt_string_json(crate::schema::opt_str(*v)) is None,
        },
{
    match v {
        Some(x) => Some(JsonValue::Str(owned(x.as_str()))),
        None => None,
    }
}

fn size_str(z: WebSearchContextSize) -> (r: &'static str)
    ensures
        r@ == size_text(z),
{
    match z {
        WebSearchContextSize::Low => SIZE_LOW,
        WebSearchContextSize::Medium => SIZE_MEDIUM,
        WebSearchContextSize::High => SIZE_HIGH,
    }
}

pub open spec fn opt_view(v: Option<JsonValue>) -> Option<Json> {
    match v {
        Some(j) => Some(j@),
        None => None,
    }
}

fn location_value(l: &crate::tool::WebSearchUserLocation) -> (r: JsonValue)
    ensures
        r@ == location_json(l@),
{
    let mut ms: Vec<(String, JsonValue)> = Vec::new();
    push_member(&mut ms, K_TYPE, json_str(T_APPROXIMATE));
    push_opt(&mut ms, K_COUNTRY, opt_string_value(&l.country));
    push_opt(&mut ms, K_REGION, opt_string_value(&l.region));
    push_opt(&mut ms, K_CITY, opt_string_value(&l.city));
    push_opt(&mut ms, K_TIMEZONE, opt_string_value(&l.timezone));
    assert(members_view(ms@) =~= match location_json(l@) {
        Json::Object(m) => m,
        _ => Seq::empty(),
    });
    json_object(ms)
}

/// A tool as the Responses API takes it: see [`tool_json`].
pub fn tool_spec_to_json(t: &ToolSpec) -> (r: JsonValue)
    ensures
        r@ == tool_json(t@),
{
    let mut ms: Vec<(String, JsonValue)> = Vec::new();
    match t {
        ToolSpec::Function(f) => {
            push_member(&mut ms, K_TYPE, json_str(T_FUNCTION));
            push_member(&mut ms, K_NAME, JsonValue::Str(owned(f.name.as_str())));
            push_member(&mut ms, K_DESCRIPTION, JsonValue::Str(owned(f.description.as_str())));
            push_member(&mut ms, K_STRICT, JsonValue::Bool(f.strict));
            push_opt(
                &mut ms,
                K_DEFER_LOADING,
                match f.defer_loading {
                    Some(b) => Some(JsonValue::Bool(b)),
                    None => None,
                },
            );
            push_member(&mut ms, K_PARAMETERS, schema_to_json(&f.parameters));
        },
        ToolSpec::ToolSearch { execution, description, parameters } => {
            push_member(&mut ms, K_TYPE, json_str(T_TOOL_SEARCH));
            push_member(&mut ms, K_EXECUTION, JsonValue::Str(owned(execution.as_str())));
            push_member(&mut ms, K_DESCRIPTION, JsonValue::Str(owned(description.as_str())));
            push_member(&mut ms, K_PARAMETERS, schema_to_json(parameters));
        },
        ToolSpec::LocalShell => {
            push_member(&mut ms, K_TYPE, json_str(T_LOCAL_SHELL));
        },
        ToolSpec::ImageGeneration { output_format } => {
            push_member(&mut ms, K_TYPE, json_str(T_IMAGE_GENERATION));
            push_member(&mut ms, K_OUTPUT_FORMAT, JsonValue::Str(owned(output_format.as_str())));
        },
        ToolSpec::WebSearch { external_web_access, filters, user_location, search_context_size, search_content_types } => {
            push_member(&mut ms, K_TYPE, json_str(T_WEB_SEARCH));
            push_opt(
                &mut ms,
                K_EXTERNAL_WEB_ACCESS,
                match external_web_access {
                    Some(b) => Some(JsonValue::Bool(*b)),
                    None => None,
                },
            );
            let filters_value = match filters {
                Some(f) => {
                    let mut fm: Vec<(String, JsonValue)> = Vec::new();
                    push_opt(
                        &mut fm,
                        K_ALLOWED_DOMAINS,
                        match &f.allowed_domains {
                            Some(d) => Some(strings_value(d)),
                            None => None,
                        },
                    );
                    assert(members_view(fm@) =~= opt_member(
                        K_ALLOWED_DOMAINS,
                        match crate::schema::opt_strs(f.allowed_domains) {
                            Some(d) => Some(strings_json(d)),
                            None => None,
                        },
                    ));
                    Some(json_object(fm))
                },
                None => None,
            };
            push_opt(&mut ms, K_FILTERS, filters_value);
            push_opt(
                &mut ms,
                K_USER_LOCATION,
                match user_location {
                    Some(l) => Some(location_value(l)),
                    None => None,
                },
            );
            push_opt(
                &mut ms,
                K_SEARCH_CONTEXT_SIZE,
                match search_context_size {
                    Some(z) => Some(json_str(size_str(*z))),
                    None => None,
                },
            );
            push_opt(
                &mut ms,
                K_SEARCH_CONTENT_TYPES,
                match search_content_types {
                    Some(v) => Some(strings_value(v)),
                    None => None,
                },
            );
        },
        ToolSpec::Freeform(f) => {
            push_member(&mut ms, K_TYPE, json_str(T_CUSTOM));
            push_member(&mut ms, K_NAME, JsonValue::Str(owned(f.name.as_str())));
            push_member(&mut ms, K_DESCRIPTION, JsonValue::Str(owned(f.description.as_str())));
            let mut fm: Vec<(String, JsonValue)> = Vec::new();
            push_member(&mut fm, K_TYPE, JsonValue::Str(owned(f.format.format_type.as_str())));
            push_member(&mut fm, K_SYNTAX, JsonValue::Str(owned(f.format.syntax.as_str())));
            push_member(&mut fm, K_DEFINITION, JsonValue::Str(owned(f.format.definition.as_str())));
            assert(members_view(fm@) =~= seq![
                s(K_TYPE, Json::Str(f.format.format_type@)),
                s(K_SYNTAX, Json::Str(f.format.syntax@)),
                s(K_DEFINITION, Json::Str(f.format.definition@)),
            ]);
            push_member(&mut ms, K_FORMAT, json_object(fm));
        },
    }
    assert(members_view(ms@) =~= match tool_json(t@) {
        Json::Object(m) => m,
        _ => Seq::empty(),
    });
    json_object(ms)
}

/// The tools as the Responses API takes them, in order; writing them cannot fail.
pub fn create_tools_json_for_responses_api(tools: &Vec<ToolSpec>) -> (r: Result<Vec<JsonValue>, String>)
    ensures
        r matches Ok(v) && v@.len() == tools@.len() && forall|i: int| 0 <= i < tools@.len() ==> #[trigger] v@[i]@
            == tool_json(tools@[i]@),
{
    let mut tools_json: Vec<JsonValue> = Vec::new();
    let mut i: usize = 0;
    while i < tools.len()
        invariant
            i <= tools.len(),
            tools_json.len() == i,
            forall|j: int| 0 <= j < i ==> #[trigger] tools_json@[j]@ == tool_json(tools@[j]@),
        decreases tools.len() - i,
    {
        tools_json.push(tool_spec_to_json(&tools[i]));
        i = i + 1;
    }
    Ok(tools_json)
}

proof fn lemma_member_concat(a: Seq<(Seq<char>, Json)>, b: Seq<(Seq<char>, Json)>, key: Seq<char>)
    ensures
        member(a + b, key) == (match member(a, key) {
            Some(v) => Some(v),
            None => member(b, key),
        }),
    decreases a.len(),
{
    if a.len() > 0 {
        assert((a + b).drop_first() =~= a.drop_first() + b);
        lemma_member_concat(a.drop_first(), b, key);
    } else {
        assert(a + b =~= b);
    }
}

proof fn lemma_member_opt(k: &str, v: Option<Json>, key: Seq<char>)
    ensures
        member(opt_member(k, v), key) == (if key == k@ {
            v
        } else {
            None
        }),
{
    let e = Seq::<(Seq<char>, Json)>::empty();
    assert(member(e, key) is None);
    if v is Some {
        assert(opt_member(k, v).drop_first() =~= e);
        assert(opt_member(k, v)[0].0 == k@);
    } else {
        assert(opt_member(k, v) =~= e);
    }
}

pub open spec fn or_else(a: Option<Json>, b: Option<Json>) -> Option<Json> {
    match a {
        Some(v) => Some(v),
        None => b,
    }
}

pub open spec fn member_if(k: Seq<char>, v: Option<Json>, key: Seq<char>) -> Option<Json> {
    if key == k {
        v
    } else {
        None
    }
}

proof fn lemma_member_six(ks: Seq<&str>, vs: Seq<Option<Json>>, key: Seq<char>)
    requires
        ks.len() == 6,
        vs.len() == 6,
    ensures
        member(
            opt_member(ks[0], vs[0]) + opt_member(ks[1], vs[1]) + opt_member(ks[2], vs[2]) + opt_member(ks[3], vs[3])
                + opt_member(ks[4], vs[4]) + opt_member(ks[5], vs[5]),
            key,
        ) == or_else(
            member_if(ks[0]@, vs[0], key),
            or_else(
                member_if(ks[1]@, vs[1], key),
                or_else(
                    member_if(ks[2]@, vs[2], key),
                    or_else(member_if(ks[3]@, vs[3], key), or_else(member_if(ks[4]@, vs[4], key), member_if(ks[5]@, vs[5], key))),
                ),
            ),
        ),
{
    let a0 = opt_member(ks[0], vs[0]);
    let a1 = opt_member(ks[1], vs[1]);
    let a2 = opt_member(ks[2], vs[2]);
    let a3 = opt_member(ks[3], vs[3]);
    let a4 = opt_member(ks[4], vs[4]);
    let a5 = opt_member(ks[5], vs[5]);
    lemma_member_opt(ks[0], vs[0], key);
    lemma_member_opt(ks[1], vs[1], key);
    lemma_member_opt(ks[2], vs[2], key);
    lemma_member_opt(ks[3], vs[3], key);
    lemma_member_opt(ks[4], vs[4], key);
    lemma_member_opt(ks[5], vs[5], key);
    lemma_member_concat(a0 + a1 + a2 + a3 + a4, a5, key);
    lemma_member_concat(a0 + a1 + a2 + a3, a4, key);
    lemma_member_concat(a0 + a1 + a2, a3, key);
    lemma_member_concat(a0 + a1, a2, key);
    lemma_member_concat(a0, a1, key);
}

/// The JSON of a web search tool is an object that states `type` `web_search`;
/// `external_web_access` is there exactly when the tool has it, with the tool's
/// boolean; `search_context_size` is there exactly when the tool has it, as `low`,
/// `medium` or `high`; and `filters`, `user_location` and `search_content_types`
/// are there exactly when the tool has them.
pub proof fn lemma_web_search_json(
    external_web_access: Option<bool>,
    filters: Option<Option<Seq<Seq<char>>>>,
    user_location: Option<LocationView>,
    search_context_size: Option<WebSearchContextSize>,
    search_content_types: Option<Seq<Seq<char>>>,
)
    ensures
        ({
            let t = Tool::WebSearch {
                external_web_access,
                filters,
                user_location,
                search_context_size,
                search_content_types,
            };
            let ms = tool_json(t)->Object_0;
            &&& tool_json(t) is Object
            &&& member(ms, "type"@) == Some(Json::Str("web_search"@))
            &&& (external_web_access is None ==> member(ms, "external_web_access"@) is None)
            &&& (external_web_access == Some(true) ==> member(ms, "external_web_access"@) == Some(Json::Bool(true)))
            &&& (external_web_access == Some(false) ==> member(ms, "external_web_access"@) == Some(
                Json::Bool(false),
            ))
            &&& (search_context_size is None ==> member(ms, "search_context_size"@) is None)
            &&& (search_context_size == Some(WebSearchContextSize::Low) ==> member(ms, "search_context_size"@)
                == Some(Json::Str("low"@)))
            &&& (search_context_size == Some(WebSearchContextSize::Medium) ==> member(ms, "search_context_size"@)
                == Some(Json::Str("medium"@)))
            &&& (search_context_size == Some(WebSearchContextSize::High) ==> member(ms, "search_context_size"@)
                == Some(Json::Str("high"@)))
            &&& (member(ms, "filters"@) is Some <==> filters is Some)
            &&& (member(ms, "user_location"@) is Some <==> user_location is Some)
            &&& (member(ms, "search_content_types"@) is Some <==> search_content_types is Some)
            &&& (search_content_types is Some ==> member(ms, "search_content_types"@) == Some(
                Json::Array(search_content_types->Some_0.map_values(|x: Seq<char>| Json::Str(x))),
            ))
            &&& (filters matches Some(Some(d)) ==> member(ms, "filters"@) == Some(
                Json::Object(seq![("allowed_domains"@, Json::Array(d.map_values(|x: Seq<char>| Json::Str(x))))]),
            ))
            &&& (filters == Some(None::<Seq<Seq<char>>>) ==> member(ms, "filters"@) == Some(
                Json::Object(Seq::empty()),
            ))
        }),
{
    reveal_strlit("type");
    reveal_strlit("external_web_access");
    reveal_strlit("filters");
    reveal_strlit("user_location");
    reveal_strlit("search_context_size");
    reveal_strlit("search_content_types");
    let t = Tool::WebSearch {
        external_web_access,
        filters,
        user_location,
        search_context_size,
        search_content_types,
    };
    let ks = seq![K_TYPE, K_EXTERNAL_WEB_ACCESS, K_FILTERS, K_USER_LOCATION, K_SEARCH_CONTEXT_SIZE, K_SEARCH_CONTENT_TYPES];
    let vs = seq![
        Some(Json::Str(T_WEB_SEARCH@)),
        match external_web_access {
            Some(b) => Some(Json::Bool(b)),
            None => None,
        },
        match filters {
            Some(domains) => Some(
                Json::Object(
                    opt_member(
                        K_ALLOWED_DOMAINS,
                        match domains {
                            Some(d) => Some(strings_json(d)),
                            None => None,
                        },
                    ),
                ),
            ),
            None => None,
        },
        match user_location {
            Some(l) => Some(location_json(l)),
            None => None,
        },
        match search_context_size {
            Some(z) => Some(Json::Str(size_text(z))),
            None => None,
        },
        match search_content_types {
            Some(v) => Some(strings_json(v)),
            None => None,
        },
    ];
    let ms = tool_json(t)->Object_0;
    assert(seq![s(K_TYPE, Json::Str(T_WEB_SEARCH@))] =~= opt_member(ks[0], vs[0]));
    assert(ms == opt_member(ks[0], vs[0]) + opt_member(ks[1], vs[1]) + opt_member(ks[2], vs[2]) + opt_member(
        ks[3],
        vs[3],
    ) + opt_member(ks[4], vs[4]) + opt_member(ks[5], vs[5]));
    let k0 = "type"@;
    let k1 = "external_web_access"@;
    let k2 = "filters"@;
    let k3 = "user_location"@;
    let k4 = "search_context_size"@;
    let k5 = "search_content_types"@;
    assert(k1[0] != k4[0]);
    assert(k4.len() != k5.len());
    assert(k2.len() != k0.len() && k2.len() != k1.len());
    assert(k3.len() != k0.len() && k3.len() != k1.len() && k3.len() != k2.len());
    assert(k5.len() != k0.len() && k5.len() != k1.len() && k5.len() != k2.len() && k5.len() != k3.len());
    lemma_member_six(ks, vs, k0);
    lemma_member_six(ks, vs, k1);
    lemma_member_six(ks, vs, k2);
    lemma_member_six(ks, vs, k3);
    lemma_member_six(ks, vs, k4);
    lemma_member_six(ks, vs, k5);
}

}
