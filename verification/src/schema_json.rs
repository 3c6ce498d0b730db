use vstd::prelude::*;

use crate::json::{lemma_array_view, lemma_object_view, member, members_view, Json, JsonValue};
use crate::sanitize::elems_view;
use crate::schema::{
    opt_str, props_insert, props_sorted, strs, AdditionalProperties, Extra, JsonSchema, Properties, Schema,
};
use crate::text::{lemma_str_lt_asymmetric, lemma_str_lt_irreflexive, owned, str_eq, str_lt};
use crate::texts;

verus! {

/// Why a JSON value is not a [`JsonSchema`].
#[derive(Debug, PartialEq)]
pub enum SchemaError {
    /// A schema must be a JSON object.
    ExpectedObject,
    /// A field the schema kind needs is absent.
    MissingField(String),
    /// A field holds a value of the wrong JSON type.
    InvalidType(String),
    /// The `type` names no schema kind.
    UnknownVariant(String),
}

/// The mathematical content of a [`SchemaError`].
pub enum SchemaFault {
    ExpectedObject,
    MissingField(Seq<char>),
    InvalidType(Seq<char>),
    UnknownVariant(Seq<char>),
}

impl View for SchemaError {
    type V = SchemaFault;

    open spec fn view(&self) -> SchemaFault {
        match self {
            SchemaError::ExpectedObject => SchemaFault::ExpectedObject,
            SchemaError::MissingField(f) => SchemaFault::MissingField(f@),
            SchemaError::InvalidType(f) => SchemaFault::InvalidType(f@),
            SchemaError::UnknownVariant(t) => SchemaFault::UnknownVariant(t@),
        }
    }
}

/// The index of the first member named `key`.
pub open spec fn find_member(ms: Seq<(Seq<char>, Json)>, key: Seq<char>) -> Option<int>
    decreases ms.len(),
{
    if ms.len() == 0 {
        None
    } else if ms[0].0 == key {
        Some(0)
    } else {
        match find_member(ms.drop_first(), key) {
            Some(i) => Some(i + 1),
            None => None,
        }
    }
}

pub proof fn lemma_find_member(ms: Seq<(Seq<char>, Json)>, key: Seq<char>)
    ensures
        match find_member(ms, key) {
            Some(i) => 0 <= i < ms.len() && ms[i].0 == key && member(ms, key) == Some(ms[i].1),
            None => member(ms, key) is None,
        },
    decreases ms.len(),
{
    if ms.len() > 0 && ms[0].0 != key {
        lemma_find_member(ms.drop_first(), key);
    }
}

pub open spec fn str_of(j: Json) -> Seq<char> {
    match j {
        Json::Str(s) => s,
        _ => Seq::empty(),
    }
}

/// The optional `description` of a schema object.
pub open spec fn parse_description(ms: Seq<(Seq<char>, Json)>) -> Result<Option<Seq<char>>, SchemaFault> {
    match member(ms, texts::K_DESCRIPTION@) {
        None => Ok(None),
        Some(Json::Null) => Ok(None),
        Some(Json::Str(s)) => Ok(Some(s)),
        Some(_) => Err(SchemaFault::InvalidType(texts::K_DESCRIPTION@)),
    }
}

/// The optional `required` list of an object schema.
pub open spec fn parse_required(ms: Seq<(Seq<char>, Json)>) -> Result<Option<Seq<Seq<char>>>, SchemaFault> {
    match member(ms, texts::K_REQUIRED@) {
        None => Ok(None),
        Some(Json::Null) => Ok(None),
        Some(Json::Array(xs)) => if forall|i: int| 0 <= i < xs.len() ==> #[trigger] xs[i] is Str {
            Ok(Some(Seq::new(xs.len(), |i: int| str_of(xs[i]))))
        } else {
            Err(SchemaFault::InvalidType(texts::K_REQUIRED@))
        },
        Some(_) => Err(SchemaFault::InvalidType(texts::K_REQUIRED@)),
    }
}

/// A description, or the error that reading it gave.
pub open spec fn with_description(
    ms: Seq<(Seq<char>, Json)>,
    make: spec_fn(Option<Seq<char>>) -> Schema,
) -> Result<Schema, SchemaFault> {
    match parse_description(ms) {
        Ok(d) => Ok(make(d)),
        Err(e) => Err(e),
    }
}

/// What reading `j` as a [`JsonSchema`] gives: a schema object tagged by its
/// `type` (`integer` reads as a number), with the fields its kind needs.
pub open spec fn parse_schema(j: Json) -> Result<Schema, SchemaFault>
    decreases j,
{
    match j {
        Json::Object(ms) => match member(ms, texts::K_TYPE@) {
            None => Err(SchemaFault::MissingField(texts::K_TYPE@)),
            Some(Json::Str(t)) => {
                if t == texts::T_BOOLEAN@ {
                    with_description(ms, |d: Option<Seq<char>>| Schema::Boolean { description: d })
                } else if t == texts::T_STRING@ {
                    with_description(ms, |d: Option<Seq<char>>| Schema::Str { description: d })
                } else if t == texts::T_NUMBER@ || t == texts::T_INTEGER@ {
                    with_description(ms, |d: Option<Seq<char>>| Schema::Number { description: d })
                } else if t == texts::T_ARRAY@ {
                    match find_member(ms, texts::K_ITEMS@) {
                        Some(i) => if 0 <= i < ms.len() {
                            proof {
                                assert(decreases_to!(ms => ms[i]));
                                assert(decreases_to!(ms[i] => ms[i].1));
                            }
                            match parse_schema(ms[i].1) {
                                Ok(items) => with_description(
                                    ms,
                                    |d: Option<Seq<char>>| Schema::Array { items: Box::new(items), description: d },
                                ),
                                Err(e) => Err(e),
                            }
                        } else {
                            Err(SchemaFault::MissingField(texts::K_ITEMS@))
                        },
                        None => Err(SchemaFault::MissingField(texts::K_ITEMS@)),
                    }
                } else if t == texts::T_OBJECT@ {
                    match find_member(ms, texts::K_PROPERTIES@) {
                        Some(i) => if 0 <= i < ms.len() {
                            match ms[i].1 {
                                Json::Object(pm) => {
                                    proof {
                                        assert(decreases_to!(ms => ms[i]));
                                        assert(decreases_to!(ms[i] => ms[i].1));
                                    }
                                    match parse_props(pm) {
                                        Ok(ps) => match parse_required(ms) {
                                            Ok(req) => match find_member(
                                                ms,
                                                texts::K_ADDITIONAL_PROPERTIES@,
                                            ) {
                                                Some(k) => if 0 <= k < ms.len() {
                                                    proof {
                                                        assert(decreases_to!(ms => ms[k]));
                                                        assert(decreases_to!(ms[k] => ms[k].1));
                                                    }
                                                    match ms[k].1 {
                                                        Json::Null => Ok(
                                                            Schema::Object {
                                                                properties: ps,
                                                                required: req,
                                                                additional_properties: None,
                                                            },
                                                        ),
                                                        Json::Bool(b) => Ok(
                                                            Schema::Object {
                                                                properties: ps,
                                                                required: req,
                                                                additional_properties: Some(Extra::Boolean(b)),
                                                            },
                                                        ),
                                                        _ => match parse_schema(ms[k].1) {
                                                            Ok(x) => Ok(
                                                                Schema::Object {
                                                                    properties: ps,
                                                                    required: req,
                                                                    additional_properties: Some(
                                                                        Extra::Schema(Box::new(x)),
                                                                    ),
                                                                },
                                                            ),
                                                            Err(_) => Err(
                                                                SchemaFault::InvalidType(
                                                                    texts::K_ADDITIONAL_PROPERTIES@,
                                                                ),
                                                            ),
                                                        },
                                                    }
                                                } else {
                                                    Err(SchemaFault::ExpectedObject)
                                                },
                                                None => Ok(
                                                    Schema::Object {
                                                        properties: ps,
                                                        required: req,
                                                        additional_properties: None,
                                                    },
                                                ),
                                            },
                                            Err(e) => Err(e),
                                        },
                                        Err(e) => Err(e),
                                    }
                                },
                                _ => Err(SchemaFault::InvalidType(texts::K_PROPERTIES@)),
                            }
                        } else {
                            Err(SchemaFault::MissingField(texts::K_PROPERTIES@))
                        },
                        None => Err(SchemaFault::MissingField(texts::K_PROPERTIES@)),
                    }
                } else {
                    Err(SchemaFault::UnknownVariant(t))
                }
            },
            Some(_) => Err(SchemaFault::InvalidType(texts::K_TYPE@)),
        },
        _ => Err(SchemaFault::ExpectedObject),
    }
}

/// The properties of an object schema read in order into a key-ordered map; the first
/// property that is no schema gives the error.
pub open spec fn parse_props(pm: Seq<(Seq<char>, Json)>) -> Result<Seq<(Seq<char>, Schema)>, SchemaFault>
    decreases pm,
{
    if pm.len() == 0 {
        Ok(Seq::empty())
    } else {
        proof {
            assert(decreases_to!(pm => pm.drop_last()));
            assert(decreases_to!(pm => pm[pm.len() - 1]));
            assert(decreases_to!(pm[pm.len() - 1] => pm[pm.len() - 1].1));
        }
        match parse_props(pm.drop_last()) {
            Ok(ps) => match parse_schema(pm[pm.len() - 1].1) {
                Ok(s) => Ok(props_insert(ps, pm[pm.len() - 1].0, s)),
                Err(e) => Err(e),
            },
            Err(e) => Err(e),
        }
    }
}


proof fn lemma_find_member_first(ms: Seq<(Seq<char>, Json)>, key: Seq<char>, i: int)
    requires
        0 <= i <= ms.len(),
        forall|j: int| 0 <= j < i ==> #[trigger] ms[j].0 != key,
    ensures
        i < ms.len() && ms[i].0 == key ==> find_member(ms, key) == Some(i),
        i == ms.len() ==> find_member(ms, key) is None,
    decreases ms.len(),
{
    if ms.len() > 0 && i > 0 {
        let rest = ms.drop_first();
        assert forall|j: int| 0 <= j < i - 1 implies #[trigger] rest[j].0 != key by {
            assert(rest[j] == ms[j + 1]);
        }
        assert(ms[0].0 != key);
        lemma_find_member_first(rest, key, i - 1);
    }
}

proof fn lemma_parse_props_prefix_err(pm: Seq<(Seq<char>, Json)>, j: int)
    requires
        0 <= j <= pm.len(),
        parse_props(pm.take(j)) is Err,
    ensures
        parse_props(pm) == parse_props(pm.take(j)),
    decreases pm.len(),
{
    if j == pm.len() {
        assert(pm.take(j) =~= pm);
    } else {
        let rest = pm.drop_last();
        assert(rest.take(j) =~= pm.take(j));
        lemma_parse_props_prefix_err(rest, j);
    }
}

/// The index of the first member of `m` named `key`.
pub fn find_member_index(m: &Vec<(String, JsonValue)>, key: &str) -> (r: Option<usize>)
    ensures
        match r {
            Some(i) => find_member(members_view(m@), key@) == Some(i as int),
            None => find_member(members_view(m@), key@) is None,
        },
{
    let ghost ms = members_view(m@);
    let n = m.len();
    let mut i: usize = 0;
    while i < n
        invariant
            n == m.len(),
            ms == members_view(m@),
            i <= n,
            forall|j: int| 0 <= j < i ==> #[trigger] ms[j].0 != key@,
        decreases n - i,
    {
        assert(ms[i as int].0 == m@[i as int].0@);
        if str_eq(m[i].0.as_str(), key) {
            proof {
                lemma_find_member_first(ms, key@, i as int);
            }
            return Some(i);
        }
        i = i + 1;
    }
    proof {
        lemma_find_member_first(ms, key@, n as int);
    }
    None
}

fn read_description(m: &Vec<(String, JsonValue)>) -> (r: Result<Option<String>, SchemaError>)
    ensures
        match r {
            Ok(d) => parse_description(members_view(m@)) == Ok::<Option<Seq<char>>, SchemaFault>(opt_str(d)),
            Err(e) => parse_description(members_view(m@)) == Err::<Option<Seq<char>>, SchemaFault>(e@),
        },
{
    match crate::json::get_member(m, texts::K_DESCRIPTION) {
        None => Ok(None),
        Some(JsonValue::Null) => Ok(None),
        Some(JsonValue::Str(s)) => Ok(Some(owned(s.as_str()))),
        Some(_) => Err(SchemaError::InvalidType(owned(texts::K_DESCRIPTION))),
    }
}

fn read_required(m: &Vec<(String, JsonValue)>) -> (r: Result<Option<Vec<String>>, SchemaError>)
    ensures
        match r {
            Ok(req) => parse_required(members_view(m@)) == Ok::<Option<Seq<Seq<char>>>, SchemaFault>(
                crate::schema::opt_strs(req),
            ),
            Err(e) => parse_required(members_view(m@)) == Err::<Option<Seq<Seq<char>>>, SchemaFault>(e@),
        },
{
    match crate::json::get_member(m, texts::K_REQUIRED) {
        None => Ok(None),
        Some(JsonValue::Null) => Ok(None),
        Some(JsonValue::Array(xs)) => {
            proof {
                lemma_array_view(*xs);
            }
            let ghost js = elems_view(xs@);
            let mut out: Vec<String> = Vec::new();
            let mut i: usize = 0;
            #[verifier::loop_isolation(false)]
            while i < xs.len()
                invariant
                    i <= xs.len(),
                    js == elems_view(xs@),
                    out.len() == i,
                    forall|j: int| 0 <= j < i ==> #[trigger] js[j] is Str && out@[j]@ == str_of(js[j]),
                decreases xs.len() - i,
            {
                assert(js[i as int] == xs@[i as int]@);
                match &xs[i] {
                    JsonValue::Str(s) => {
                        out.push(owned(s.as_str()));
                    },
                    _ => {
                        assert(!(js[i as int] is Str));
                        return Err(SchemaError::InvalidType(owned(texts::K_REQUIRED)));
                    },
                }
                i = i + 1;
            }
            assert(strs(out@) =~= Seq::new(js.len(), |i: int| str_of(js[i])));
            Ok(Some(out))
        },
        Some(_) => Err(SchemaError::InvalidType(owned(texts::K_REQUIRED))),
    }
}


/// Reads `v` as a [`JsonSchema`]: see [`parse_schema`].
pub fn schema_from_json(v: &JsonValue) -> (r: Result<JsonSchema, SchemaError>)
    ensures
        match r {
            Ok(s) => parse_schema(v@) == Ok::<Schema, SchemaFault>(s@),
            Err(e) => parse_schema(v@) == Err::<Schema, SchemaFault>(e@),
        },
    decreases v,
{
    match v {
        JsonValue::Object(m) => {
            proof {
                lemma_object_view(*m);
            }
            let ghost ms = members_view(m@);
            let tag = match crate::json::get_member(m, texts::K_TYPE) {
                None => {
                    return Err(SchemaError::MissingField(owned(texts::K_TYPE)));
                },
                Some(JsonValue::Str(t)) => t,
                Some(_) => {
                    return Err(SchemaError::InvalidType(owned(texts::K_TYPE)));
                },
            };
            if str_eq(tag.as_str(), texts::T_BOOLEAN) {
                let d = read_description(m)?;
                Ok(JsonSchema::Boolean { description: d })
            } else if str_eq(tag.as_str(), texts::T_STRING) {
                let d = read_description(m)?;
                Ok(JsonSchema::String { description: d })
            } else if str_eq(tag.as_str(), texts::T_NUMBER) || str_eq(tag.as_str(), texts::T_INTEGER) {
                let d = read_description(m)?;
                Ok(JsonSchema::Number { description: d })
            } else if str_eq(tag.as_str(), texts::T_ARRAY) {
                let i = match find_member_index(m, texts::K_ITEMS) {
                    Some(i) => i,
                    None => {
                        return Err(SchemaError::MissingField(owned(texts::K_ITEMS)));
                    },
                };
                proof {
                    lemma_find_member(ms, texts::K_ITEMS@);
                }
                assert(ms[i as int].1 == m@[i as int].1@);
                assert(decreases_to!(*v => m@[i as int].1)) by {
                    assert(decreases_to!(*v => *m));
                    assert(decreases_to!(*m => m@));
                    assert(decreases_to!(m@ => m@[i as int]));
                }
                let items = schema_from_json(&m[i].1)?;
                let d = read_description(m)?;
                Ok(JsonSchema::Array { items: Box::new(items), description: d })
            } else if str_eq(tag.as_str(), texts::T_OBJECT) {
                let i = match find_member_index(m, texts::K_PROPERTIES) {
                    Some(i) => i,
                    None => {
                        return Err(SchemaError::MissingField(owned(texts::K_PROPERTIES)));
                    },
                };
                proof {
                    lemma_find_member(ms, texts::K_PROPERTIES@);
                }
                assert(ms[i as int].1 == m@[i as int].1@);
                let pm = match &m[i].1 {
                    JsonValue::Object(pm) => pm,
                    _ => {
                        return Err(SchemaError::InvalidType(owned(texts::K_PROPERTIES)));
                    },
                };
                proof {
                    lemma_object_view(*pm);
                }
                let ghost pms = members_view(pm@);
                let mut props = Properties::new();
                let mut j: usize = 0;
                assert(pms.take(0) =~= Seq::<(Seq<char>, Json)>::empty());
                #[verifier::loop_isolation(false)]
                while j < pm.len()
                    invariant
                        j <= pm.len(),
                        parse_props(pms.take(j as int)) == Ok::<Seq<(Seq<char>, Schema)>, SchemaFault>(props@),
                    decreases pm.len() - j,
                {
                    assert(decreases_to!(*v => pm@[j as int].1)) by {
                        assert(decreases_to!(*v => *m));
                        assert(decreases_to!(*m => m@));
                        assert(decreases_to!(m@ => m@[i as int]));
                        assert(decreases_to!(m@[i as int] => m@[i as int].1));
                        assert(decreases_to!(m@[i as int].1 => *pm));
                        assert(decreases_to!(*pm => pm@));
                        assert(decreases_to!(pm@ => pm@[j as int]));
                    }
                    let ghost prefix = pms.take(j + 1);
                    assert(prefix.drop_last() =~= pms.take(j as int));
                    assert(prefix[j as int] == (pm@[j as int].0@, pm@[j as int].1@));
                    match schema_from_json(&pm[j].1) {
                        Ok(s) => {
                            props.insert(owned(pm[j].0.as_str()), s);
                        },
                        Err(e) => {
                            proof {
                                lemma_parse_props_prefix_err(pms, j + 1);
                            }
                            return Err(e);
                        },
                    }
                    j = j + 1;
                }
                assert(pms.take(pm.len() as int) =~= pms);
                let req = read_required(m)?;
                let extra = match find_member_index(m, texts::K_ADDITIONAL_PROPERTIES) {
                    None => None,
                    Some(k) => {
                        proof {
                            lemma_find_member(ms, texts::K_ADDITIONAL_PROPERTIES@);
                        }
                        assert(ms[k as int].1 == m@[k as int].1@);
                        assert(decreases_to!(*v => m@[k as int].1)) by {
                            assert(decreases_to!(*v => *m));
                            assert(decreases_to!(*m => m@));
                            assert(decreases_to!(m@ => m@[k as int]));
                        }
                        match &m[k].1 {
                            JsonValue::Null => None,
                            JsonValue::Bool(b) => Some(AdditionalProperties::Boolean(*b)),
                            other => match schema_from_json(other) {
                                Ok(x) => Some(AdditionalProperties::Schema(Box::new(x))),
                                Err(_) => {
                                    return Err(
                                        SchemaError::InvalidType(owned(texts::K_ADDITIONAL_PROPERTIES)),
                                    );
                                },
                            },
                        }
                    },
                };
                Ok(JsonSchema::Object { properties: props, required: req, additional_properties: extra })
            } else {
                Err(SchemaError::UnknownVariant(owned(tag.as_str())))
            }
        },
        _ => Err(SchemaError::ExpectedObject),
    }
}


/// The optional `description` member.
pub open spec fn description_members(d: Option<Seq<char>>) -> Seq<(Seq<char>, Json)> {
    match d {
        Some(t) => seq![(texts::K_DESCRIPTION@, Json::Str(t))],
        None => Seq::empty(),
    }
}

/// The JSON form of a schema: its `type` first, then its fields in declaration
/// order, leaving out the optional ones that are absent.
pub open spec fn schema_json(s: Schema) -> Json
    decreases s,
{
    match s {
        Schema::Boolean { description } => Json::Object(
            seq![(texts::K_TYPE@, Json::Str(texts::T_BOOLEAN@))] + description_members(description),
        ),
        Schema::Str { description } => Json::Object(
            seq![(texts::K_TYPE@, Json::Str(texts::T_STRING@))] + description_members(description),
        ),
        Schema::Number { description } => Json::Object(
            seq![(texts::K_TYPE@, Json::Str(texts::T_NUMBER@))] + description_members(description),
        ),
        Schema::Array { items, description } => Json::Object(
            seq![(texts::K_TYPE@, Json::Str(texts::T_ARRAY@)), (texts::K_ITEMS@, schema_json(*items))]
                + description_members(description),
        ),
        Schema::Object { properties, required, additional_properties } => Json::Object(
            seq![
                (texts::K_TYPE@, Json::Str(texts::T_OBJECT@)),
                (texts::K_PROPERTIES@, Json::Object(props_json(properties))),
            ] + match required {
                Some(names) => seq![
                    (
                        texts::K_REQUIRED@,
                        Json::Array(Seq::new(names.len(), |i: int| Json::Str(names[i]))),
                    ),
                ],
                None => Seq::empty(),
            } + match additional_properties {
                Some(Extra::Boolean(b)) => seq![(texts::K_ADDITIONAL_PROPERTIES@, Json::Bool(b))],
                Some(Extra::Schema(x)) => seq![(texts::K_ADDITIONAL_PROPERTIES@, schema_json(*x))],
                None => Seq::empty(),
            },
        ),
    }
}

/// The JSON members of a property map.
pub open spec fn props_json(ps: Seq<(Seq<char>, Schema)>) -> Seq<(Seq<char>, Json)>
    decreases ps,
{
    Seq::new(
        ps.len(),
        |i: int|
            if 0 <= i < ps.len() {
                proof {
                    assert(decreases_to!(ps => ps[i]));
                    assert(decreases_to!(ps[i] => ps[i].1));
                }
                (ps[i].0, schema_json(ps[i].1))
            } else {
                (Seq::empty(), Json::Null)
            },
    )
}


fn push_description(out: &mut Vec<(String, JsonValue)>, d: &Option<String>)
    ensures
        members_view(final(out)@) == members_view(old(out)@) + description_members(opt_str(*d)),
{
    let ghost before = members_view(out@);
    match d {
        Some(t) => {
            out.push((owned(texts::K_DESCRIPTION), JsonValue::Str(owned(t.as_str()))));
            assert(members_view(out@) =~= before + description_members(opt_str(*d)));
        },
        None => {
            assert(members_view(out@) =~= before + description_members(opt_str(*d)));
        },
    }
}

fn strings_json(names: &Vec<String>) -> (r: JsonValue)
    ensures
        r@ == Json::Array(Seq::new(names@.len(), |i: int| Json::Str(strs(names@)[i]))),
{
    let mut out: Vec<JsonValue> = Vec::new();
    let mut i: usize = 0;
    while i < names.len()
        invariant
            i <= names.len(),
            out.len() == i,
            forall|j: int| 0 <= j < i ==> #[trigger] out@[j]@ == Json::Str(names@[j]@),
        decreases names.len() - i,
    {
        out.push(JsonValue::Str(owned(names[i].as_str())));
        i = i + 1;
    }
    proof {
        lemma_array_view(out);
        assert(elems_view(out@) =~= Seq::new(names@.len(), |i: int| Json::Str(strs(names@)[i])));
    }
    JsonValue::Array(out)
}

/// The JSON form of `s`: see [`schema_json`].
pub fn schema_to_json(s: &JsonSchema) -> (r: JsonValue)
    ensures
        r@ == schema_json(s@),
    decreases s,
{
    let mut out: Vec<(String, JsonValue)> = Vec::new();
    match s {
        JsonSchema::Boolean { description } => {
            out.push((owned(texts::K_TYPE), JsonValue::Str(owned(texts::T_BOOLEAN))));
            push_description(&mut out, description);
        },
        JsonSchema::String { description } => {
            out.push((owned(texts::K_TYPE), JsonValue::Str(owned(texts::T_STRING))));
            push_description(&mut out, description);
        },
        JsonSchema::Number { description } => {
            out.push((owned(texts::K_TYPE), JsonValue::Str(owned(texts::T_NUMBER))));
            push_description(&mut out, description);
        },
        JsonSchema::Array { items, description } => {
            out.push((owned(texts::K_TYPE), JsonValue::Str(owned(texts::T_ARRAY))));
            let ij = schema_to_json(items);
            out.push((owned(texts::K_ITEMS), ij));
            push_description(&mut out, description);
        },
        JsonSchema::Object { properties, required, additional_properties } => {
            out.push((owned(texts::K_TYPE), JsonValue::Str(owned(texts::T_OBJECT))));
            let mut pm: Vec<(String, JsonValue)> = Vec::new();
            let es = &properties.entries;
            let mut j: usize = 0;
            #[verifier::loop_isolation(false)]
            while j < es.len()
                invariant
                    j <= es.len(),
                    pm.len() == j,
                    forall|l: int|
                        0 <= l < j ==> (#[trigger] pm@[l].0@, pm@[l].1@) == props_json(properties@)[l],
                decreases es.len() - j,
            {
                assert(decreases_to!(*s => es@[j as int].1)) by {
                    assert(decreases_to!(*s => *properties));
                    assert(decreases_to!(*properties => *es));
                    assert(decreases_to!(*es => es@));
                    assert(decreases_to!(es@ => es@[j as int]));
                }
                let vj = schema_to_json(&es[j].1);
                pm.push((owned(es[j].0.as_str()), vj));
                j = j + 1;
            }
            proof {
                lemma_object_view(pm);
                assert(members_view(pm@) =~= props_json(properties@));
            }
            out.push((owned(texts::K_PROPERTIES), JsonValue::Object(pm)));
            match required {
                Some(names) => {
                    let arr = strings_json(names);
                    out.push((owned(texts::K_REQUIRED), arr));
                },
                None => {},
            }
            match additional_properties {
                Some(AdditionalProperties::Boolean(b)) => {
                    out.push((owned(texts::K_ADDITIONAL_PROPERTIES), JsonValue::Bool(*b)));
                },
                Some(AdditionalProperties::Schema(x)) => {
                    let xj = schema_to_json(x);
                    out.push((owned(texts::K_ADDITIONAL_PROPERTIES), xj));
                },
                None => {},
            }
            assert(members_view(out@) =~= match schema_json(s@) {
                Json::Object(ms) => ms,
                _ => Seq::empty(),
            });
        },
    }
    proof {
        lemma_object_view(out);
        assert(members_view(out@) =~= match schema_json(s@) {
            Json::Object(ms) => ms,
            _ => Seq::empty(),
        });
    }
    JsonValue::Object(out)
}


/// Every property map inside the schema has its keys in ascending order, as
/// [`Properties`] keeps them.
pub open spec fn schema_wf(s: Schema) -> bool
    decreases s,
{
    match s {
        Schema::Array { items, .. } => schema_wf(*items),
        Schema::Object { properties, additional_properties, .. } => {
            &&& props_sorted(properties)
            &&& props_wf(properties)
            &&& match additional_properties {
                Some(Extra::Schema(x)) => schema_wf(*x),
                _ => true,
            }
        },
        _ => true,
    }
}

pub open spec fn props_wf(ps: Seq<(Seq<char>, Schema)>) -> bool
    decreases ps,
{
    if ps.len() == 0 {
        true
    } else {
        proof {
            assert(decreases_to!(ps => ps.drop_last()));
            assert(decreases_to!(ps => ps[ps.len() - 1]));
            assert(decreases_to!(ps[ps.len() - 1] => ps[ps.len() - 1].1));
        }
        props_wf(ps.drop_last()) && schema_wf(ps[ps.len() - 1].1)
    }
}

/// Inserting a key above all present keys appends it.
proof fn lemma_props_insert_last(ps: Seq<(Seq<char>, Schema)>, key: Seq<char>, value: Schema)
    requires
        forall|i: int| 0 <= i < ps.len() ==> str_lt(#[trigger] ps[i].0, key),
    ensures
        props_insert(ps, key, value) == ps.push((key, value)),
    decreases ps.len(),
{
    if ps.len() > 0 {
        assert(str_lt(ps[0].0, key));
        lemma_str_lt_irreflexive(key);
        lemma_str_lt_asymmetric(ps[0].0, key);
        let rest = ps.drop_first();
        assert forall|i: int| 0 <= i < rest.len() implies str_lt(#[trigger] rest[i].0, key) by {
            assert(rest[i] == ps[i + 1]);
        }
        lemma_props_insert_last(rest, key, value);
        assert(seq![ps[0]] + rest.push((key, value)) =~= ps.push((key, value)));
    }
}

proof fn lemma_props_json_round_trip(ps: Seq<(Seq<char>, Schema)>)
    requires
        props_sorted(ps),
        props_wf(ps),
    ensures
        parse_props(props_json(ps)) == Ok::<Seq<(Seq<char>, Schema)>, SchemaFault>(ps),
    decreases ps,
{
    if ps.len() > 0 {
        let n = ps.len() - 1;
        let init = ps.drop_last();
        assert(decreases_to!(ps => init));
        assert(decreases_to!(ps => ps[n]));
        assert(decreases_to!(ps[n] => ps[n].1));
        assert(props_sorted(init)) by {
            assert forall|i: int, j: int| 0 <= i < j < init.len() implies str_lt(#[trigger] init[i].0, #[trigger] init[j].0) by {
                assert(init[i] == ps[i]);
                assert(init[j] == ps[j]);
            }
        }
        lemma_props_json_round_trip(init);
        lemma_schema_json_round_trip(ps[n].1);
        let pj = props_json(ps);
        assert(pj.drop_last() =~= props_json(init));
        assert(pj[n] == (ps[n].0, schema_json(ps[n].1)));
        assert forall|i: int| 0 <= i < init.len() implies str_lt(#[trigger] init[i].0, ps[n].0) by {
            assert(init[i] == ps[i]);
        }
        lemma_props_insert_last(init, ps[n].0, ps[n].1);
        assert(init.push((ps[n].0, ps[n].1)) =~= ps);
        assert(pj.len() == ps.len());
    } else {
        assert(ps =~= Seq::<(Seq<char>, Schema)>::empty());
        assert(props_json(ps) =~= Seq::<(Seq<char>, Json)>::empty());
    }
}

proof fn lemma_names_distinct()
    ensures
        texts::K_TYPE@ != texts::K_DESCRIPTION@,
        texts::K_TYPE@ != texts::K_ITEMS@,
        texts::K_TYPE@ != texts::K_PROPERTIES@,
        texts::K_TYPE@ != texts::K_REQUIRED@,
        texts::K_TYPE@ != texts::K_ADDITIONAL_PROPERTIES@,
        texts::K_ITEMS@ != texts::K_DESCRIPTION@,
        texts::K_PROPERTIES@ != texts::K_REQUIRED@,
        texts::K_PROPERTIES@ != texts::K_ADDITIONAL_PROPERTIES@,
        texts::K_REQUIRED@ != texts::K_ADDITIONAL_PROPERTIES@,
        texts::T_BOOLEAN@ != texts::T_STRING@,
        texts::T_BOOLEAN@ != texts::T_NUMBER@,
        texts::T_BOOLEAN@ != texts::T_INTEGER@,
        texts::T_BOOLEAN@ != texts::T_ARRAY@,
        texts::T_BOOLEAN@ != texts::T_OBJECT@,
        texts::T_STRING@ != texts::T_NUMBER@,
        texts::T_STRING@ != texts::T_INTEGER@,
        texts::T_STRING@ != texts::T_ARRAY@,
        texts::T_STRING@ != texts::T_OBJECT@,
        texts::T_NUMBER@ != texts::T_INTEGER@,
        texts::T_NUMBER@ != texts::T_ARRAY@,
        texts::T_NUMBER@ != texts::T_OBJECT@,
        texts::T_INTEGER@ != texts::T_ARRAY@,
        texts::T_INTEGER@ != texts::T_OBJECT@,
        texts::T_ARRAY@ != texts::T_OBJECT@,
{
    reveal_strlit("type");
    reveal_strlit("description");
    reveal_strlit("items");
    reveal_strlit("properties");
    reveal_strlit("required");
    reveal_strlit("additionalProperties");
    reveal_strlit("boolean");
    reveal_strlit("string");
    reveal_strlit("number");
    reveal_strlit("integer");
    reveal_strlit("array");
    reveal_strlit("object");
    assert(texts::K_TYPE@[0] != texts::K_DESCRIPTION@[0]);
    assert(texts::K_TYPE@[0] != texts::K_ITEMS@[0]);
    assert(texts::K_TYPE@[0] != texts::K_PROPERTIES@[0]);
    assert(texts::K_TYPE@[0] != texts::K_REQUIRED@[0]);
    assert(texts::K_TYPE@[0] != texts::K_ADDITIONAL_PROPERTIES@[0]);
    assert(texts::K_ITEMS@[0] != texts::K_DESCRIPTION@[0]);
    assert(texts::K_PROPERTIES@[0] != texts::K_REQUIRED@[0]);
    assert(texts::K_PROPERTIES@[0] != texts::K_ADDITIONAL_PROPERTIES@[0]);
    assert(texts::K_REQUIRED@[0] != texts::K_ADDITIONAL_PROPERTIES@[0]);
    assert(texts::T_BOOLEAN@[0] != texts::T_STRING@[0]);
    assert(texts::T_BOOLEAN@[0] != texts::T_NUMBER@[0]);
    assert(texts::T_BOOLEAN@[0] != texts::T_INTEGER@[0]);
    assert(texts::T_BOOLEAN@[0] != texts::T_ARRAY@[0]);
    assert(texts::T_BOOLEAN@[0] != texts::T_OBJECT@[0]);
    assert(texts::T_STRING@[0] != texts::T_NUMBER@[0]);
    assert(texts::T_STRING@[0] != texts::T_INTEGER@[0]);
    assert(texts::T_STRING@[0] != texts::T_ARRAY@[0]);
    assert(texts::T_STRING@[0] != texts::T_OBJECT@[0]);
    assert(texts::T_NUMBER@[0] != texts::T_INTEGER@[0]);
    assert(texts::T_NUMBER@[0] != texts::T_ARRAY@[0]);
    assert(texts::T_NUMBER@[0] != texts::T_OBJECT@[0]);
    assert(texts::T_INTEGER@[0] != texts::T_ARRAY@[0]);
    assert(texts::T_INTEGER@[0] != texts::T_OBJECT@[0]);
    assert(texts::T_ARRAY@[0] != texts::T_OBJECT@[0]);
}

proof fn lemma_member_at(ms: Seq<(Seq<char>, Json)>, key: Seq<char>, i: int)
    requires
        0 <= i <= ms.len(),
        forall|j: int| 0 <= j < i ==> #[trigger] ms[j].0 != key,
        i < ms.len() ==> ms[i].0 == key,
    ensures
        i < ms.len() ==> member(ms, key) == Some(ms[i].1) && find_member(ms, key) == Some(i),
        i == ms.len() ==> member(ms, key) is None && find_member(ms, key) is None,
{
    lemma_find_member_first(ms, key, i);
    lemma_find_member(ms, key);
}

proof fn lemma_description_round_trip(head: Seq<(Seq<char>, Json)>, d: Option<Seq<char>>)
    requires
        forall|j: int| 0 <= j < head.len() ==> #[trigger] head[j].0 != texts::K_DESCRIPTION@,
    ensures
        parse_description(head + description_members(d)) == Ok::<Option<Seq<char>>, SchemaFault>(d),
{
    let ms = head + description_members(d);
    assert forall|j: int| 0 <= j < head.len() implies #[trigger] ms[j].0 != texts::K_DESCRIPTION@ by {
        assert(ms[j] == head[j]);
    }
    match d {
        Some(t) => {
            assert(ms[head.len() as int] == (texts::K_DESCRIPTION@, Json::Str(t)));
            lemma_member_at(ms, texts::K_DESCRIPTION@, head.len() as int);
        },
        None => {
            assert(ms =~= head);
            lemma_member_at(ms, texts::K_DESCRIPTION@, ms.len() as int);
        },
    }
}

proof fn lemma_simple_round_trip(t: Seq<char>, d: Option<Seq<char>>)
    ensures
        ({
            let ms = seq![(texts::K_TYPE@, Json::Str(t))] + description_members(d);
            &&& member(ms, texts::K_TYPE@) == Some(Json::Str(t))
            &&& parse_description(ms) == Ok::<Option<Seq<char>>, SchemaFault>(d)
        }),
{
    lemma_names_distinct();
    let head = seq![(texts::K_TYPE@, Json::Str(t))];
    let ms = head + description_members(d);
    assert(ms[0] == head[0]);
    lemma_member_at(ms, texts::K_TYPE@, 0);
    lemma_description_round_trip(head, d);
}

proof fn lemma_object_round_trip(
    properties: Seq<(Seq<char>, Schema)>,
    required: Option<Seq<Seq<char>>>,
    additional_properties: Option<Extra>,
)
    requires
        schema_wf(Schema::Object { properties, required, additional_properties }),
        match additional_properties {
            Some(Extra::Schema(x)) => parse_schema(schema_json(*x)) == Ok::<Schema, SchemaFault>(*x),
            _ => true,
        },
        parse_props(props_json(properties)) == Ok::<Seq<(Seq<char>, Schema)>, SchemaFault>(properties),
    ensures
        parse_schema(schema_json(Schema::Object { properties, required, additional_properties }))
            == Ok::<Schema, SchemaFault>(Schema::Object { properties, required, additional_properties }),
{
    let s = Schema::Object { properties, required, additional_properties };
    lemma_names_distinct();
    let head = seq![
        (texts::K_TYPE@, Json::Str(texts::T_OBJECT@)),
        (texts::K_PROPERTIES@, Json::Object(props_json(properties))),
    ];
    let req_ms = match required {
        Some(names) => seq![
            (texts::K_REQUIRED@, Json::Array(Seq::new(names.len(), |i: int| Json::Str(names[i])))),
        ],
        None => Seq::empty(),
    };
    let extra_ms = match additional_properties {
        Some(Extra::Boolean(b)) => seq![(texts::K_ADDITIONAL_PROPERTIES@, Json::Bool(b))],
        Some(Extra::Schema(x)) => seq![(texts::K_ADDITIONAL_PROPERTIES@, schema_json(*x))],
        None => Seq::empty(),
    };
    let ms = head + req_ms + extra_ms;
    assert(schema_json(s) == Json::Object(ms));
    assert(ms[0] == head[0]);
    assert(ms[1] == head[1]);
    lemma_member_at(ms, texts::K_TYPE@, 0);
    lemma_member_at(ms, texts::K_PROPERTIES@, 1);
    match required {
        Some(names) => {
            let xs = Seq::new(names.len(), |i: int| Json::Str(names[i]));
            assert(ms[2] == (texts::K_REQUIRED@, Json::Array(xs)));
            lemma_member_at(ms, texts::K_REQUIRED@, 2);
            assert(Seq::new(xs.len(), |i: int| str_of(xs[i])) =~= names);
        },
        None => {
            assert forall|j: int| 0 <= j < ms.len() implies #[trigger] ms[j].0 != texts::K_REQUIRED@ by {
                if j >= 2 {
                    assert(ms[j] == extra_ms[j - 2]);
                }
            }
            lemma_member_at(ms, texts::K_REQUIRED@, ms.len() as int);
        },
    }
    assert(parse_required(ms) == Ok::<Option<Seq<Seq<char>>>, SchemaFault>(required));
    let at: int = 2 + req_ms.len() as int;
    match additional_properties {
        Some(_) => {
            assert(ms[at] == extra_ms[0]);
            assert forall|j: int| 0 <= j < at implies #[trigger] ms[j].0 != texts::K_ADDITIONAL_PROPERTIES@ by {
                if j >= 2 {
                    assert(ms[j] == req_ms[j - 2]);
                }
            }
            lemma_member_at(ms, texts::K_ADDITIONAL_PROPERTIES@, at);
        },
        None => {
            assert(ms.len() == at);
            assert forall|j: int| 0 <= j < at implies #[trigger] ms[j].0 != texts::K_ADDITIONAL_PROPERTIES@ by {
                if j >= 2 {
                    assert(ms[j] == req_ms[j - 2]);
                }
            }
            lemma_member_at(ms, texts::K_ADDITIONAL_PROPERTIES@, at);
        },
    }
    match additional_properties {
        Some(Extra::Schema(x)) => {
            assert(!(schema_json(*x) is Null));
            assert(!(schema_json(*x) is Bool));
        },
        _ => {},
    }
}

/// Writing a schema as JSON and reading it back gives the same schema.
pub proof fn lemma_schema_json_round_trip(s: Schema)
    requires
        schema_wf(s),
    ensures
        parse_schema(schema_json(s)) == Ok::<Schema, SchemaFault>(s),
    decreases s,
{
    lemma_names_distinct();
    match s {
        Schema::Boolean { description } => {
            lemma_simple_round_trip(texts::T_BOOLEAN@, description);
        },
        Schema::Str { description } => {
            lemma_simple_round_trip(texts::T_STRING@, description);
        },
        Schema::Number { description } => {
            lemma_simple_round_trip(texts::T_NUMBER@, description);
        },
        Schema::Array { items, description } => {
            lemma_schema_json_round_trip(*items);
            let head = seq![(texts::K_TYPE@, Json::Str(texts::T_ARRAY@)), (texts::K_ITEMS@, schema_json(*items))];
            let ms = head + description_members(description);
            assert(schema_json(s) == Json::Object(ms));
            assert(ms[0] == head[0]);
            assert(ms[1] == head[1]);
            lemma_member_at(ms, texts::K_TYPE@, 0);
            lemma_member_at(ms, texts::K_ITEMS@, 1);
            lemma_description_round_trip(head, description);
        },
        Schema::Object { properties, required, additional_properties } => {
            match additional_properties {
                Some(Extra::Schema(x)) => {
                    lemma_schema_json_round_trip(*x);
                },
                _ => {},
            }
            lemma_props_json_round_trip(properties);
            lemma_object_round_trip(properties, required, additional_properties);
        },
    }
}


pub const EXPECTED_OBJECT_TEXT: &'static str = "expected a JSON object";
pub const MISSING_FIELD_TEXT: &'static str = "missing field `";
pub const INVALID_TYPE_TEXT: &'static str = "invalid type for `";
pub const UNKNOWN_VARIANT_TEXT: &'static str = "unknown variant `";
pub const QUOTE_END: &'static str = "`";

/// The message that reports a [`SchemaFault`].
pub open spec fn fault_message(f: SchemaFault) -> Seq<char> {
    match f {
        SchemaFault::ExpectedObject => EXPECTED_OBJECT_TEXT@,
        SchemaFault::MissingField(n) => MISSING_FIELD_TEXT@ + n + QUOTE_END@,
        SchemaFault::InvalidType(n) => INVALID_TYPE_TEXT@ + n + QUOTE_END@,
        SchemaFault::UnknownVariant(t) => UNKNOWN_VARIANT_TEXT@ + t + QUOTE_END@,
    }
}

impl SchemaError {
    /// The message that reports this error: see [`fault_message`].
    pub fn message(&self) -> (r: String)
        ensures
            r@ == fault_message(self@),
    {
        let (head, name) = match self {
            SchemaError::ExpectedObject => {
                return owned(EXPECTED_OBJECT_TEXT);
            },
            SchemaError::MissingField(n) => (MISSING_FIELD_TEXT, n.as_str()),
            SchemaError::InvalidType(n) => (INVALID_TYPE_TEXT, n.as_str()),
            SchemaError::UnknownVariant(t) => (UNKNOWN_VARIANT_TEXT, t.as_str()),
        };
        let mut r = owned(head);
        r.append(name);
        r.append(QUOTE_END);
        r
    }
}

}
