use vstd::prelude::*;

use crate::json::{clone_json, get_member, has_member, lemma_array_view, lemma_object_view, member, members_view, set_member, with_member, Json, JsonValue};
use crate::text::{owned, str_eq};
use crate::texts;

verus! {

pub const K_ONE_OF: &'static str = "oneOf";
pub const K_ANY_OF: &'static str = "anyOf";
pub const K_ALL_OF: &'static str = "allOf";
pub const K_PREFIX_ITEMS: &'static str = "prefixItems";
pub const K_ENUM: &'static str = "enum";
pub const K_CONST: &'static str = "const";
pub const K_FORMAT: &'static str = "format";
pub const K_MINIMUM: &'static str = "minimum";
pub const K_MAXIMUM: &'static str = "maximum";
pub const K_EXCLUSIVE_MINIMUM: &'static str = "exclusiveMinimum";
pub const K_EXCLUSIVE_MAXIMUM: &'static str = "exclusiveMaximum";
pub const K_MULTIPLE_OF: &'static str = "multipleOf";

pub open spec fn has_key(ms: Seq<(Seq<char>, Json)>, k: &str) -> bool {
    member(ms, k@) is Some
}

/// `{"type": "string"}`, the schema that accepts any string.
pub open spec fn string_type_schema() -> Json {
    Json::Object(seq![(texts::K_TYPE@, Json::Str(texts::T_STRING@))])
}

/// Members whose values are schemas in their own right.
pub open spec fn is_nested_key(k: Seq<char>) -> bool {
    k == texts::K_ITEMS@ || k == K_ONE_OF@ || k == K_ANY_OF@ || k == K_ALL_OF@ || k == K_PREFIX_ITEMS@
}

pub open spec fn is_supported_type(t: Seq<char>) -> bool {
    t == texts::T_OBJECT@ || t == texts::T_ARRAY@ || t == texts::T_STRING@ || t == texts::T_NUMBER@
        || t == texts::T_INTEGER@ || t == texts::T_BOOLEAN@
}

/// The first supported type name in a union of types.
pub open spec fn first_supported(ts: Seq<Json>) -> Option<Seq<char>>
    decreases ts.len(),
{
    if ts.len() == 0 {
        None
    } else {
        match ts[0] {
            Json::Str(t) => if is_supported_type(t) {
                Some(t)
            } else {
                first_supported(ts.drop_first())
            },
            _ => first_supported(ts.drop_first()),
        }
    }
}

/// The type a schema object states: its `type` string, or the first supported one of a union.
pub open spec fn declared_type(ms: Seq<(Seq<char>, Json)>) -> Option<Seq<char>> {
    match member(ms, texts::K_TYPE@) {
        Some(Json::Str(t)) => Some(t),
        Some(Json::Array(ts)) => first_supported(ts),
        _ => None,
    }
}

/// The type guessed from the keywords a schema object uses; `string` when nothing tells.
pub open spec fn inferred_type(ms: Seq<(Seq<char>, Json)>) -> Seq<char> {
    if has_key(ms, texts::K_PROPERTIES) || has_key(ms, texts::K_REQUIRED) || has_key(ms, texts::K_ADDITIONAL_PROPERTIES) {
        texts::T_OBJECT@
    } else if has_key(ms, texts::K_ITEMS) || has_key(ms, K_PREFIX_ITEMS) {
        texts::T_ARRAY@
    } else if has_key(ms, K_ENUM) || has_key(ms, K_CONST) || has_key(ms, K_FORMAT) {
        texts::T_STRING@
    } else if has_key(ms, K_MINIMUM) || has_key(ms, K_MAXIMUM) || has_key(ms, K_EXCLUSIVE_MINIMUM) || has_key(
        ms,
        K_EXCLUSIVE_MAXIMUM,
    ) || has_key(ms, K_MULTIPLE_OF) {
        texts::T_NUMBER@
    } else {
        texts::T_STRING@
    }
}

/// The type a sanitized schema object is given.
pub open spec fn schema_type(ms: Seq<(Seq<char>, Json)>) -> Seq<char> {
    match declared_type(ms) {
        Some(t) => t,
        None => inferred_type(ms),
    }
}

/// A JSON Schema made to fit the tool-schema subset: every schema object gets a `type`
/// (stated, else inferred, else `string`), objects get `properties`, arrays get `items`,
/// nested schemas are treated alike, and a boolean schema becomes an accept-all string.
pub open spec fn sanitize(v: Json) -> Json
    decreases v,
{
    match v {
        Json::Bool(_) => string_type_schema(),
        Json::Array(a) => Json::Array(
            Seq::new(
                a.len(),
                |i: int|
                    if 0 <= i < a.len() {
                        proof {
                            assert(decreases_to!(a => a[i]));
                        }
                        sanitize(a[i])
                    } else {
                        Json::Null
                    },
            ),
        ),
        Json::Object(ms) => {
            let ty = schema_type(ms);
            let ms1 = sanitize_members(ms, ty == texts::T_OBJECT@);
            let ms2 = with_member(ms1, texts::K_TYPE@, Json::Str(ty));
            let ms3 = if ty == texts::T_OBJECT@ && !has_key(ms2, texts::K_PROPERTIES) {
                with_member(ms2, texts::K_PROPERTIES@, Json::Object(Seq::empty()))
            } else {
                ms2
            };
            let ms4 = if ty == texts::T_ARRAY@ && !has_key(ms3, texts::K_ITEMS) {
                with_member(ms3, texts::K_ITEMS@, string_type_schema())
            } else {
                ms3
            };
            Json::Object(ms4)
        },
        _ => v,
    }
}

/// The members of a schema object with the schemas they hold sanitized.
pub open spec fn sanitize_members(ms: Seq<(Seq<char>, Json)>, is_object: bool) -> Seq<(Seq<char>, Json)>
    decreases ms,
{
    Seq::new(
        ms.len(),
        |i: int|
            if 0 <= i < ms.len() {
                proof {
                    assert(decreases_to!(ms => ms[i]));
                    assert(decreases_to!(ms[i] => ms[i].1));
                }
                let k = ms[i].0;
                let x = ms[i].1;
                (
                    k,
                    if k == texts::K_PROPERTIES@ {
                        match x {
                            Json::Object(pm) => Json::Object(sanitize_values(pm)),
                            _ => x,
                        }
                    } else if is_nested_key(k) {
                        sanitize(x)
                    } else if is_object && k == texts::K_ADDITIONAL_PROPERTIES@ && !(x is Bool) {
                        sanitize(x)
                    } else {
                        x
                    },
                )
            } else {
                (Seq::empty(), Json::Null)
            },
    )
}

/// The members of an object with every value sanitized.
pub open spec fn sanitize_values(pm: Seq<(Seq<char>, Json)>) -> Seq<(Seq<char>, Json)>
    decreases pm,
{
    Seq::new(
        pm.len(),
        |j: int|
            if 0 <= j < pm.len() {
                proof {
                    assert(decreases_to!(pm => pm[j]));
                    assert(decreases_to!(pm[j] => pm[j].1));
                }
                (pm[j].0, sanitize(pm[j].1))
            } else {
                (Seq::empty(), Json::Null)
            },
    )
}


/// The views of the elements of an array.
pub open spec fn elems_view(a: Seq<JsonValue>) -> Seq<Json> {
    a.map_values(|x: JsonValue| x@)
}

/// `{"type": "string"}`.
pub fn string_type_value() -> (r: JsonValue)
    ensures
        r@ == string_type_schema(),
{
    let mut m: Vec<(String, JsonValue)> = Vec::new();
    m.push((owned(texts::K_TYPE), JsonValue::Str(owned(texts::T_STRING))));
    proof {
        lemma_object_view(m);
        assert(members_view(m@) =~= seq![(texts::K_TYPE@, Json::Str(texts::T_STRING@))]);
    }
    JsonValue::Object(m)
}

fn supported_type(t: &str) -> (r: bool)
    ensures
        r == is_supported_type(t@),
{
    str_eq(t, texts::T_OBJECT) || str_eq(t, texts::T_ARRAY) || str_eq(t, texts::T_STRING) || str_eq(
        t,
        texts::T_NUMBER,
    ) || str_eq(t, texts::T_INTEGER) || str_eq(t, texts::T_BOOLEAN)
}

fn nested_key(k: &str) -> (r: bool)
    ensures
        r == is_nested_key(k@),
{
    str_eq(k, texts::K_ITEMS) || str_eq(k, K_ONE_OF) || str_eq(k, K_ANY_OF) || str_eq(k, K_ALL_OF)
        || str_eq(k, K_PREFIX_ITEMS)
}

fn first_supported_type(ts: &Vec<JsonValue>) -> (r: Option<String>)
    ensures
        match r {
            Some(t) => first_supported(elems_view(ts@)) == Some(t@),
            None => first_supported(elems_view(ts@)) is None,
        },
{
    let n = ts.len();
    let mut i: usize = 0;
    assert(elems_view(ts@).skip(0) =~= elems_view(ts@));
    while i < n
        invariant
            n == ts.len(),
            i <= n,
            first_supported(elems_view(ts@)) == first_supported(elems_view(ts@).skip(i as int)),
        decreases n - i,
    {
        let ghost tail = elems_view(ts@).skip(i as int);
        assert(tail[0] == ts@[i as int]@);
        assert(tail.drop_first() =~= elems_view(ts@).skip(i + 1));
        match &ts[i] {
            JsonValue::Str(t) => {
                if supported_type(t.as_str()) {
                    return Some(owned(t.as_str()));
                }
            },
            _ => {},
        }
        i = i + 1;
    }
    None
}

/// The type that [`sanitize`] gives a schema object with these members.
pub fn schema_type_of(m: &Vec<(String, JsonValue)>) -> (r: String)
    ensures
        r@ == schema_type(members_view(m@)),
{
    let declared: Option<String> = match get_member(m, texts::K_TYPE) {
        Some(JsonValue::Str(t)) => Some(owned(t.as_str())),
        Some(JsonValue::Array(ts)) => {
            proof {
                lemma_array_view(*ts);
            }
            first_supported_type(ts)
        },
        _ => None,
    };
    match declared {
        Some(t) => t,
        None => {
            if has_member(m, texts::K_PROPERTIES) || has_member(m, texts::K_REQUIRED) || has_member(
                m,
                texts::K_ADDITIONAL_PROPERTIES,
            ) {
                owned(texts::T_OBJECT)
            } else if has_member(m, texts::K_ITEMS) || has_member(m, K_PREFIX_ITEMS) {
                owned(texts::T_ARRAY)
            } else if has_member(m, K_ENUM) || has_member(m, K_CONST) || has_member(m, K_FORMAT) {
                owned(texts::T_STRING)
            } else if has_member(m, K_MINIMUM) || has_member(m, K_MAXIMUM) || has_member(
                m,
                K_EXCLUSIVE_MINIMUM,
            ) || has_member(m, K_EXCLUSIVE_MAXIMUM) || has_member(m, K_MULTIPLE_OF) {
                owned(texts::T_NUMBER)
            } else {
                owned(texts::T_STRING)
            }
        },
    }
}


/// A sanitized copy of the schema `v`: see [`sanitize`].
pub fn sanitized(v: &JsonValue) -> (r: JsonValue)
    ensures
        r@ == sanitize(v@),
    decreases v,
{
    match v {
        JsonValue::Bool(b) => {
            assert(v@ == Json::Bool(*b));
            string_type_value()
        },
        JsonValue::Array(a) => {
            let mut out: Vec<JsonValue> = Vec::new();
            let mut i: usize = 0;
            #[verifier::loop_isolation(false)]
            while i < a.len()
                invariant
                    i <= a.len(),
                    out.len() == i,
                    forall|j: int| 0 <= j < i ==> #[trigger] out@[j]@ == sanitize(a@[j]@),
                decreases a.len() - i,
            {
                assert(decreases_to!(*v => a@[i as int])) by {
                    assert(decreases_to!(*v => *a));
                    assert(decreases_to!(*a => a@));
                }
                out.push(sanitized(&a[i]));
                i = i + 1;
            }
            proof {
                lemma_array_view(out);
                lemma_array_view(*a);
                let xs = elems_view(a@);
                assert(v@ == Json::Array(xs));
                let ys = match sanitize(v@) {
                    Json::Array(ys) => ys,
                    _ => Seq::empty(),
                };
                assert(ys.len() == xs.len());
                assert forall|j: int| 0 <= j < xs.len() implies #[trigger] ys[j] == elems_view(out@)[j] by {
                    assert(xs[j] == a@[j]@);
                    assert(elems_view(out@)[j] == out@[j]@);
                }
                assert(elems_view(out@) =~= ys);
            }
            assert(JsonValue::Array(out)@ == sanitize(v@));
            JsonValue::Array(out)
        },
        JsonValue::Object(m) => {
            proof {
                lemma_object_view(*m);
            }
            let ghost ms = members_view(m@);
            let ty = schema_type_of(m);
            let is_object = str_eq(ty.as_str(), texts::T_OBJECT);
            let is_array = str_eq(ty.as_str(), texts::T_ARRAY);
            let mut out: Vec<(String, JsonValue)> = Vec::new();
            let mut i: usize = 0;
            #[verifier::loop_isolation(false)]
            while i < m.len()
                invariant
                    i <= m.len(),
                    out.len() == i,
                    forall|j: int|
                        0 <= j < i ==> (#[trigger] out@[j].0@, out@[j].1@) == sanitize_members(
                            ms,
                            is_object,
                        )[j],
                decreases m.len() - i,
            {
                let k = &m[i].0;
                let x = &m[i].1;
                assert(decreases_to!(*v => m@[i as int].1)) by {
                    assert(decreases_to!(*v => *m));
                    assert(decreases_to!(*m => m@));
                    assert(decreases_to!(m@ => m@[i as int]));
                }
                let nv = if str_eq(k.as_str(), texts::K_PROPERTIES) {
                    match x {
                        JsonValue::Object(pm) => {
                            let mut inner: Vec<(String, JsonValue)> = Vec::new();
                            let mut j: usize = 0;
                            #[verifier::loop_isolation(false)]
                            while j < pm.len()
                                invariant
                                    j <= pm.len(),
                                    inner.len() == j,
                                    forall|l: int|
                                        0 <= l < j ==> #[trigger] inner@[l].0@ == pm@[l].0@
                                            && inner@[l].1@ == sanitize(pm@[l].1@),
                                decreases pm.len() - j,
                            {
                                assert(decreases_to!(*v => pm@[j as int].1)) by {
                                    assert(decreases_to!(*v => *m));
                                    assert(decreases_to!(*m => m@));
                                    assert(decreases_to!(m@ => m@[i as int]));
                                    assert(decreases_to!(m@[i as int] => m@[i as int].1));
                                    assert(decreases_to!(m@[i as int].1 => *pm));
                                    assert(decreases_to!(*pm => pm@));
                                    assert(decreases_to!(pm@ => pm@[j as int]));
                                }
                                let key = owned(pm[j].0.as_str());
                                let value = sanitized(&pm[j].1);
                                inner.push((key, value));
                                j = j + 1;
                            }
                            proof {
                                lemma_object_view(inner);
                                lemma_object_view(*pm);
                                assert(members_view(inner@) =~= sanitize_values(members_view(pm@)));
                            }
                            JsonValue::Object(inner)
                        },
                        _ => clone_json(x),
                    }
                } else if nested_key(k.as_str()) {
                    sanitized(x)
                } else if is_object && str_eq(k.as_str(), texts::K_ADDITIONAL_PROPERTIES) && !matches!(x, JsonValue::Bool(_)) {
                    sanitized(x)
                } else {
                    clone_json(x)
                };
                assert(ms[i as int] == (k@, x@));
                out.push((owned(k.as_str()), nv));
                assert((out@[i as int].0@, out@[i as int].1@) == sanitize_members(ms, is_object)[i as int]);
                i = i + 1;
            }
            assert(members_view(out@) =~= sanitize_members(ms, is_object));
            let ghost ms1 = members_view(out@);
            let ghost tyv = ty@;
            set_member(&mut out, owned(texts::K_TYPE), JsonValue::Str(ty));
            let ghost ms2 = members_view(out@);
            assert(ms2 == with_member(ms1, texts::K_TYPE@, Json::Str(tyv)));
            if is_object && !has_member(&out, texts::K_PROPERTIES) {
                let empty: Vec<(String, JsonValue)> = Vec::new();
                proof {
                    lemma_object_view(empty);
                    assert(members_view(empty@) =~= Seq::<(Seq<char>, Json)>::empty());
                }
                set_member(&mut out, owned(texts::K_PROPERTIES), JsonValue::Object(empty));
            }
            if is_array && !has_member(&out, texts::K_ITEMS) {
                set_member(&mut out, owned(texts::K_ITEMS), string_type_value());
            }
            proof {
                lemma_object_view(out);
            }
            assert(JsonValue::Object(out)@ == sanitize(v@));
            JsonValue::Object(out)
        },
        _ => clone_json(v),
    }
}


/// Sanitizes the schema in `value` in place: see [`sanitize`].
pub fn sanitize_json_schema(value: &mut JsonValue)
    ensures
        final(value)@ == sanitize(old(value)@),
{
    let s = sanitized(value);
    *value = s;
}

/// Setting a member makes it hold the new value and leaves the others as they were.
pub proof fn lemma_with_member(ms: Seq<(Seq<char>, Json)>, k: Seq<char>, v: Json, other: Seq<char>)
    ensures
        member(with_member(ms, k, v), k) == Some(v),
        other != k ==> member(with_member(ms, k, v), other) == member(ms, other),
    decreases ms.len(),
{
    if ms.len() > 0 && ms[0].0 != k {
        let rest = ms.drop_first();
        lemma_with_member(rest, k, v, other);
        let w = with_member(ms, k, v);
        assert(w == seq![ms[0]] + with_member(rest, k, v));
        assert(w.drop_first() =~= with_member(rest, k, v));
        assert(w[0] == ms[0]);
        if other != k {
            if ms[0].0 == other {
                assert(member(w, other) == Some(ms[0].1));
            } else {
                assert(member(w, other) == member(with_member(rest, k, v), other));
                assert(member(ms, other) == member(rest, other));
            }
        }
    } else if ms.len() > 0 {
        let w = with_member(ms, k, v);
        assert(w.drop_first() =~= ms.drop_first());
        assert(w[0] == (k, v));
        if other != k {
            assert(member(w, other) == member(w.drop_first(), other));
            assert(member(ms, other) == member(ms.drop_first(), other));
        }
    } else {
        let w = with_member(ms, k, v);
        assert(w.drop_first() =~= Seq::<(Seq<char>, Json)>::empty());
        if other != k {
            assert(member(w, other) == member(w.drop_first(), other));
        }
    }
}

/// The members of a sanitized schema object.
pub open spec fn sanitized_members(ms: Seq<(Seq<char>, Json)>) -> Seq<(Seq<char>, Json)> {
    match sanitize(Json::Object(ms)) {
        Json::Object(out) => out,
        _ => Seq::empty(),
    }
}

/// A sanitized schema object states its `type` as a string: the one it stated, else
/// the one its keywords suggest, else `string`. An object schema then has
/// `properties` and an array schema has `items`.
pub proof fn lemma_sanitize_object(ms: Seq<(Seq<char>, Json)>)
    ensures
        sanitize(Json::Object(ms)) is Object,
        member(sanitized_members(ms), texts::K_TYPE@) == Some(Json::Str(schema_type(ms))),
        schema_type(ms) == texts::T_OBJECT@ ==> member(sanitized_members(ms), texts::K_PROPERTIES@) is Some,
        schema_type(ms) == texts::T_ARRAY@ ==> member(sanitized_members(ms), texts::K_ITEMS@) is Some,
{
    reveal_strlit("type");
    reveal_strlit("properties");
    reveal_strlit("items");
    reveal_strlit("object");
    reveal_strlit("array");
    assert(texts::K_TYPE@[0] != texts::K_PROPERTIES@[0]);
    assert(texts::K_TYPE@[0] != texts::K_ITEMS@[0]);
    assert(texts::K_ITEMS@[0] != texts::K_PROPERTIES@[0]);
    assert(texts::T_OBJECT@[0] != texts::T_ARRAY@[0]);
    let ty = schema_type(ms);
    let ms1 = sanitize_members(ms, ty == texts::T_OBJECT@);
    let ms2 = with_member(ms1, texts::K_TYPE@, Json::Str(ty));
    lemma_with_member(ms1, texts::K_TYPE@, Json::Str(ty), texts::K_TYPE@);
    let ms3 = if ty == texts::T_OBJECT@ && !has_key(ms2, texts::K_PROPERTIES) {
        with_member(ms2, texts::K_PROPERTIES@, Json::Object(Seq::empty()))
    } else {
        ms2
    };
    lemma_with_member(ms2, texts::K_PROPERTIES@, Json::Object(Seq::empty()), texts::K_TYPE@);
    let ms4 = if ty == texts::T_ARRAY@ && !has_key(ms3, texts::K_ITEMS) {
        with_member(ms3, texts::K_ITEMS@, string_type_schema())
    } else {
        ms3
    };
    lemma_with_member(ms3, texts::K_ITEMS@, string_type_schema(), texts::K_TYPE@);
    lemma_with_member(ms3, texts::K_ITEMS@, string_type_schema(), texts::K_PROPERTIES@);
    assert(sanitized_members(ms) == ms4);
}


}
