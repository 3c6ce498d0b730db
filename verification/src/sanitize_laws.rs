use vstd::prelude::*;

use crate::json::{member, with_member, Json};
use crate::sanitize::{
    first_supported, inferred_type, is_nested_key, lemma_sanitize_object, sanitize, sanitize_members,
    sanitize_values, sanitized_members, schema_type, string_type_schema,
};
use crate::texts;

verus! {

/// Whether an object schema declares itself an object schema.
pub open spec fn declares_object(ms: Seq<(Seq<char>, Json)>) -> bool {
    member(ms, texts::K_TYPE@) == Some(Json::Str(texts::T_OBJECT@))
}

/// The schema that a path of steps reaches inside a schema, if any. A step
/// `(i, j)` goes, in a list of schemas, to the `i`-th; in a schema object, to
/// the `i`-th member when it holds a schema (a nested schema or list of
/// schemas, or an object schema's non-boolean `additionalProperties`), or, when
/// that member is `properties`, to its `j`-th property schema.
pub open spec fn schema_at(v: Json, path: Seq<(int, int)>) -> Option<Json>
    decreases path.len(),
{
    if path.len() == 0 {
        Some(v)
    } else {
        let (i, j) = path[0];
        let rest = path.drop_first();
        match v {
            Json::Array(a) => if 0 <= i < a.len() {
                schema_at(a[i], rest)
            } else {
                None
            },
            Json::Object(ms) => if 0 <= i < ms.len() {
                let k = ms[i].0;
                let x = ms[i].1;
                if k == texts::K_PROPERTIES@ {
                    match x {
                        Json::Object(pm) => if 0 <= j < pm.len() {
                            schema_at(pm[j].1, rest)
                        } else {
                            None
                        },
                        _ => None,
                    }
                } else if is_nested_key(k) || (declares_object(ms) && k == texts::K_ADDITIONAL_PROPERTIES@ && !(
                x is Bool)) {
                    schema_at(x, rest)
                } else {
                    None
                }
            } else {
                None
            },
            _ => None,
        }
    }
}

/// The shape of a schema in a sanitized one: not a bare boolean, and, when it
/// is an object, stating its `type` as a string, with `properties` when that
/// type is `object` and `items` when it is `array`.
pub open spec fn well_shaped(v: Json) -> bool {
    match v {
        Json::Bool(_) => false,
        Json::Object(ms) => {
            &&& member(ms, texts::K_TYPE@) matches Some(Json::Str(t))
            &&& declares_object(ms) ==> member(ms, texts::K_PROPERTIES@) is Some
            &&& member(ms, texts::K_TYPE@) == Some(Json::Str(texts::T_ARRAY@)) ==> member(ms, texts::K_ITEMS@) is Some
        },
        _ => true,
    }
}

proof fn lemma_key_facts()
    ensures
        texts::K_TYPE@.len() == 4 && texts::K_TYPE@[0] == 't',
        texts::K_PROPERTIES@.len() == 10 && texts::K_PROPERTIES@[0] == 'p',
        texts::K_ADDITIONAL_PROPERTIES@.len() == 20,
        texts::K_ITEMS@.len() == 5 && texts::K_ITEMS@[0] == 'i',
        crate::sanitize::K_ONE_OF@.len() == 5 && crate::sanitize::K_ONE_OF@[0] == 'o',
        crate::sanitize::K_ANY_OF@.len() == 5 && crate::sanitize::K_ANY_OF@[0] == 'a',
        crate::sanitize::K_ALL_OF@.len() == 5 && crate::sanitize::K_ALL_OF@[0] == 'a',
        crate::sanitize::K_PREFIX_ITEMS@.len() == 11,
        texts::T_OBJECT@.len() == 6 && texts::T_OBJECT@[0] == 'o',
        texts::T_ARRAY@.len() == 5 && texts::T_ARRAY@[0] == 'a',
        texts::T_STRING@.len() == 6 && texts::T_STRING@[0] == 's',
{
    reveal_strlit("type");
    reveal_strlit("properties");
    reveal_strlit("additionalProperties");
    reveal_strlit("items");
    reveal_strlit("oneOf");
    reveal_strlit("anyOf");
    reveal_strlit("allOf");
    reveal_strlit("prefixItems");
    reveal_strlit("object");
    reveal_strlit("array");
    reveal_strlit("string");
}

proof fn lemma_with_member_elems(ms: Seq<(Seq<char>, Json)>, k: Seq<char>, v: Json)
    ensures
        forall|e: (Seq<char>, Json)| #[trigger] with_member(ms, k, v).contains(e) ==> e == (k, v) || ms.contains(e),
    decreases ms.len(),
{
    let w = with_member(ms, k, v);
    if ms.len() > 0 && ms[0].0 != k {
        lemma_with_member_elems(ms.drop_first(), k, v);
    }
    assert forall|e: (Seq<char>, Json)| #[trigger] w.contains(e) implies e == (k, v) || ms.contains(e) by {
        let i = choose|i: int| 0 <= i < w.len() && w[i] == e;
        if ms.len() == 0 {
        } else if ms[0].0 == k {
            if i > 0 {
                assert(ms[i] == e);
            }
        } else {
            if i > 0 {
                let tail = with_member(ms.drop_first(), k, v);
                assert(tail[i - 1] == e);
                assert(tail.contains(e));
                if e != (k, v) {
                    let m = choose|m: int| 0 <= m < ms.len() - 1 && ms.drop_first()[m] == e;
                    assert(ms[m + 1] == e);
                }
            } else {
                assert(ms[0] == e);
            }
        }
    }
}


proof fn lemma_string_schema_paths(path: Seq<(int, int)>)
    ensures
        schema_at(string_type_schema(), path) matches Some(n) ==> well_shaped(n),
{
    lemma_key_facts();
    let ms = seq![(texts::K_TYPE@, Json::Str(texts::T_STRING@))];
    assert(ms.drop_first() =~= Seq::<(Seq<char>, Json)>::empty());
    assert(member(ms, texts::K_TYPE@) == Some(Json::Str(texts::T_STRING@)));
    assert(Json::Str(texts::T_STRING@) != Json::Str(texts::T_OBJECT@));
    assert(Json::Str(texts::T_STRING@) != Json::Str(texts::T_ARRAY@));
    assert(!is_nested_key(texts::K_TYPE@));
    if path.len() > 0 {
        let i = path[0].0;
        if 0 <= i < 1 {
            assert(ms[i] == (texts::K_TYPE@, Json::Str(texts::T_STRING@)));
        }
    }
}

/// Sanitizing gives every schema its shape: each schema that a path reaches in
/// the result (the result itself, property schemas, nested schemas and lists of
/// them, and an object schema's non-boolean `additionalProperties`) is no bare
/// boolean, and, when it is an object, states a string `type`, with
/// `properties` for an object schema and `items` for an array schema.
pub proof fn lemma_sanitize_shaped(v: Json, path: Seq<(int, int)>)
    ensures
        schema_at(sanitize(v), path) matches Some(n) ==> well_shaped(n),
    decreases path.len(),
{
    lemma_key_facts();
    match v {
        Json::Bool(_) => {
            assert(sanitize(v) == string_type_schema());
            lemma_string_schema_paths(path);
        },
        Json::Array(a) => {
            if path.len() > 0 {
                let i = path[0].0;
                if 0 <= i < a.len() {
                    lemma_sanitize_shaped(a[i], path.drop_first());
                }
            }
        },
        Json::Object(ms) => {
            let ty = schema_type(ms);
            let is_obj = ty == texts::T_OBJECT@;
            let ms1 = sanitize_members(ms, is_obj);
            let ms2 = with_member(ms1, texts::K_TYPE@, Json::Str(ty));
            let ms3 = if ty == texts::T_OBJECT@ && !crate::sanitize::has_key(ms2, texts::K_PROPERTIES) {
                with_member(ms2, texts::K_PROPERTIES@, Json::Object(Seq::empty()))
            } else {
                ms2
            };
            let ms4 = if ty == texts::T_ARRAY@ && !crate::sanitize::has_key(ms3, texts::K_ITEMS) {
                with_member(ms3, texts::K_ITEMS@, string_type_schema())
            } else {
                ms3
            };
            assert(sanitize(v) == Json::Object(ms4));
            lemma_sanitize_object(ms);
            assert(member(ms4, texts::K_TYPE@) == Some(Json::Str(ty)));
            assert(declares_object(ms4) == is_obj);
            if path.len() > 0 {
                let (i, j) = path[0];
                let rest = path.drop_first();
                if 0 <= i < ms4.len() {
                    lemma_with_member_elems(ms1, texts::K_TYPE@, Json::Str(ty));
                    lemma_with_member_elems(ms2, texts::K_PROPERTIES@, Json::Object(Seq::empty()));
                    lemma_with_member_elems(ms3, texts::K_ITEMS@, string_type_schema());
                    let e = ms4[i];
                    assert(ms4.contains(e));
                    if e == (texts::K_TYPE@, Json::Str(ty)) {
                        assert(!is_nested_key(texts::K_TYPE@));
                    } else if e == (texts::K_PROPERTIES@, Json::Object(Seq::<(Seq<char>, Json)>::empty())) {
                    } else if e == (texts::K_ITEMS@, string_type_schema()) {
                        assert(is_nested_key(texts::K_ITEMS@));
                        lemma_string_schema_paths(rest);
                    } else {
                        assert(ms1.contains(e));
                        let m = choose|m: int| 0 <= m < ms1.len() && ms1[m] == e;
                        let k = ms[m].0;
                        let x = ms[m].1;
                        if k == texts::K_PROPERTIES@ {
                            match x {
                                Json::Object(pm) => {
                                    assert(ms1[m] == (k, Json::Object(sanitize_values(pm))));
                                    if 0 <= j < pm.len() {
                                        lemma_sanitize_shaped(pm[j].1, rest);
                                    }
                                },
                                _ => {
                                    assert(ms1[m] == (k, x));
                                },
                            }
                        } else if is_nested_key(k) {
                            assert(ms1[m] == (k, sanitize(x)));
                            lemma_sanitize_shaped(x, rest);
                        } else if is_obj && k == texts::K_ADDITIONAL_PROPERTIES@ && !(x is Bool) {
                            assert(ms1[m] == (k, sanitize(x)));
                            lemma_sanitize_shaped(x, rest);
                        } else {
                            assert(ms1[m] == (k, x));
                        }
                    }
                }
            }
        },
        _ => {},
    }
}


proof fn lemma_with_member_present(ms: Seq<(Seq<char>, Json)>, k: Seq<char>, v: Json)
    requires
        member(ms, k) == Some(v),
    ensures
        with_member(ms, k, v) == ms,
    decreases ms.len(),
{
    if ms.len() > 0 {
        if ms[0].0 == k {
            assert(seq![(k, v)] + ms.drop_first() =~= ms);
        } else {
            lemma_with_member_present(ms.drop_first(), k, v);
            assert(seq![ms[0]] + ms.drop_first() =~= ms);
        }
    }
}

proof fn lemma_string_schema_fixed()
    ensures
        sanitize(string_type_schema()) == string_type_schema(),
{
    lemma_key_facts();
    let ms = seq![(texts::K_TYPE@, Json::Str(texts::T_STRING@))];
    assert(ms.drop_first() =~= Seq::<(Seq<char>, Json)>::empty());
    assert(member(ms, texts::K_TYPE@) == Some(Json::Str(texts::T_STRING@)));
    assert(schema_type(ms) == texts::T_STRING@);
    assert(!is_nested_key(texts::K_TYPE@));
    let ms1 = sanitize_members(ms, false);
    assert(ms1 =~= ms);
    lemma_with_member_present(ms, texts::K_TYPE@, Json::Str(texts::T_STRING@));
}

/// Sanitizing a sanitized schema changes nothing.
pub proof fn lemma_sanitize_idempotent(v: Json)
    ensures
        sanitize(sanitize(v)) == sanitize(v),
    decreases v,
{
    lemma_key_facts();
    match v {
        Json::Bool(_) => {
            lemma_string_schema_fixed();
        },
        Json::Array(a) => {
            let sa = sanitize(v)->Array_0;
            assert(sanitize(v) is Array && sa.len() == a.len());
            let w = Json::Array(sa);
            assert(sanitize(v) == w);
            let ssa = sanitize(w)->Array_0;
            assert(sanitize(w) is Array && ssa.len() == sa.len());
            assert forall|i: int| 0 <= i < sa.len() implies ssa[i] == sa[i] by {
                assert(sa[i] == sanitize(a[i]));
                assert(ssa[i] == sanitize(sa[i]));
                assert(decreases_to!(v => a[i]));
                lemma_sanitize_idempotent(a[i]);
            }
            assert(ssa =~= sa);
            assert(sanitize(w) == Json::Array(ssa));
        },
        Json::Object(ms) => {
            let ty = schema_type(ms);
            let is_obj = ty == texts::T_OBJECT@;
            let ms1 = sanitize_members(ms, is_obj);
            let ms2 = with_member(ms1, texts::K_TYPE@, Json::Str(ty));
            let ms3 = if ty == texts::T_OBJECT@ && !crate::sanitize::has_key(ms2, texts::K_PROPERTIES) {
                with_member(ms2, texts::K_PROPERTIES@, Json::Object(Seq::empty()))
            } else {
                ms2
            };
            let ms4 = if ty == texts::T_ARRAY@ && !crate::sanitize::has_key(ms3, texts::K_ITEMS) {
                with_member(ms3, texts::K_ITEMS@, string_type_schema())
            } else {
                ms3
            };
            assert(sanitize(v) == Json::Object(ms4));
            lemma_sanitize_object(ms);
            assert(member(ms4, texts::K_TYPE@) == Some(Json::Str(ty)));
            assert(schema_type(ms4) == ty);
            lemma_with_member_elems(ms1, texts::K_TYPE@, Json::Str(ty));
            lemma_with_member_elems(ms2, texts::K_PROPERTIES@, Json::Object(Seq::empty()));
            lemma_with_member_elems(ms3, texts::K_ITEMS@, string_type_schema());
            lemma_string_schema_fixed();
            let n1 = sanitize_members(ms4, is_obj);
            assert forall|i: int| 0 <= i < ms4.len() implies n1[i] == ms4[i] by {
                let e = ms4[i];
                assert(ms4.contains(e));
                if e == (texts::K_TYPE@, Json::Str(ty)) {
                    assert(!is_nested_key(texts::K_TYPE@));
                } else if e == (texts::K_PROPERTIES@, Json::Object(Seq::<(Seq<char>, Json)>::empty())) {
                    assert(sanitize_values(Seq::<(Seq<char>, Json)>::empty()) =~= Seq::<(Seq<char>, Json)>::empty());
                } else if e == (texts::K_ITEMS@, string_type_schema()) {
                    assert(is_nested_key(texts::K_ITEMS@));
                } else {
                    assert(ms1.contains(e));
                    let m = choose|m: int| 0 <= m < ms1.len() && ms1[m] == e;
                    let k = ms[m].0;
                    let x = ms[m].1;
                    assert(decreases_to!(v => ms[m].1)) by {
                        assert(decreases_to!(v => ms));
                        assert(decreases_to!(ms => ms[m]));
                        assert(decreases_to!(ms[m] => ms[m].1));
                    }
                    if k == texts::K_PROPERTIES@ {
                        match x {
                            Json::Object(pm) => {
                                let pv = sanitize_values(pm);
                                assert(ms1[m] == (k, Json::Object(pv)));
                                assert forall|l: int| 0 <= l < pv.len() implies sanitize_values(pv)[l] == pv[l] by {
                                    assert(decreases_to!(v => pm[l].1)) by {
                                        assert(decreases_to!(v => ms));
                                        assert(decreases_to!(ms => ms[m]));
                                        assert(decreases_to!(ms[m] => ms[m].1));
                                        assert(decreases_to!(x => pm));
                                        assert(decreases_to!(pm => pm[l]));
                                        assert(decreases_to!(pm[l] => pm[l].1));
                                    }
                                    lemma_sanitize_idempotent(pm[l].1);
                                }
                                assert(sanitize_values(pv) =~= pv);
                            },
                            _ => {
                                assert(ms1[m] == (k, x));
                            },
                        }
                    } else if is_nested_key(k) {
                        assert(ms1[m] == (k, sanitize(x)));
                        lemma_sanitize_idempotent(x);
                    } else if is_obj && k == texts::K_ADDITIONAL_PROPERTIES@ && !(x is Bool) {
                        assert(ms1[m] == (k, sanitize(x)));
                        assert(!(sanitize(x) is Bool));
                        lemma_sanitize_idempotent(x);
                    } else {
                        assert(ms1[m] == (k, x));
                    }
                }
            }
            assert(n1 =~= ms4);
            lemma_with_member_present(ms4, texts::K_TYPE@, Json::Str(ty));
        },
        _ => {},
    }
}


/// Sanitizing turns a boolean schema into `{"type": "string"}` and keeps the
/// `type` that a schema object states as a string.
pub proof fn lemma_sanitize_keeps_types(v: Json)
    ensures
        v is Bool ==> sanitize(v) == string_type_schema(),
        (v matches Json::Object(ms) && member(ms, texts::K_TYPE@) matches Some(Json::Str(t))) ==> (sanitize(
            v,
        ) matches Json::Object(out) && member(out, texts::K_TYPE@) == member(v->Object_0, texts::K_TYPE@)),
{
    match v {
        Json::Object(ms) => {
            lemma_sanitize_object(ms);
        },
        _ => {},
    }
}


proof fn lemma_with_member_keeps(ms: Seq<(Seq<char>, Json)>, k: Seq<char>, v: Json, i: int)
    requires
        0 <= i < ms.len(),
        ms[i].0 != k,
    ensures
        with_member(ms, k, v).len() >= ms.len(),
        with_member(ms, k, v)[i] == ms[i],
    decreases ms.len(),
{
    if ms[0].0 == k {
        assert(i > 0);
        assert((seq![(k, v)] + ms.drop_first())[i] == ms.drop_first()[i - 1]);
    } else if i > 0 {
        lemma_with_member_keeps(ms.drop_first(), k, v, i - 1);
        let tail = with_member(ms.drop_first(), k, v);
        assert((seq![ms[0]] + tail)[i] == tail[i - 1]);
    } else {
        lemma_with_member_len(ms.drop_first(), k, v);
    }
}

proof fn lemma_with_member_len(ms: Seq<(Seq<char>, Json)>, k: Seq<char>, v: Json)
    ensures
        with_member(ms, k, v).len() >= ms.len(),
    decreases ms.len(),
{
    if ms.len() > 0 && ms[0].0 != k {
        lemma_with_member_len(ms.drop_first(), k, v);
    }
}

/// Sanitizing works schema by schema: each schema that a path reaches in a
/// value, the same path reaches in the sanitized value, sanitized. So every
/// nested boolean schema becomes `{"type": "string"}` and every nested schema
/// object that states a string `type` keeps it ([`lemma_sanitize_keeps_types`]).
pub proof fn lemma_sanitize_at(v: Json, path: Seq<(int, int)>)
    ensures
        schema_at(v, path) matches Some(x) ==> schema_at(sanitize(v), path) == Some(sanitize(x)),
    decreases path.len(),
{
    lemma_key_facts();
    if path.len() > 0 {
        let (i, j) = path[0];
        let rest = path.drop_first();
        match v {
            Json::Array(a) => {
                if 0 <= i < a.len() {
                    lemma_sanitize_at(a[i], rest);
                    let sa = sanitize(v)->Array_0;
                    assert(sanitize(v) is Array && sa.len() == a.len());
                    assert(sa[i] == sanitize(a[i]));
                }
            },
            Json::Object(ms) => {
                if 0 <= i < ms.len() {
                    let ty = schema_type(ms);
                    let is_obj = ty == texts::T_OBJECT@;
                    let ms1 = sanitize_members(ms, is_obj);
                    let ms2 = with_member(ms1, texts::K_TYPE@, Json::Str(ty));
                    let ms3 = if ty == texts::T_OBJECT@ && !crate::sanitize::has_key(ms2, texts::K_PROPERTIES) {
                        with_member(ms2, texts::K_PROPERTIES@, Json::Object(Seq::empty()))
                    } else {
                        ms2
                    };
                    let ms4 = if ty == texts::T_ARRAY@ && !crate::sanitize::has_key(ms3, texts::K_ITEMS) {
                        with_member(ms3, texts::K_ITEMS@, string_type_schema())
                    } else {
                        ms3
                    };
                    assert(sanitize(v) == Json::Object(ms4));
                    lemma_sanitize_object(ms);
                    assert(member(ms4, texts::K_TYPE@) == Some(Json::Str(ty)));
                    let k = ms[i].0;
                    let x = ms[i].1;
                    let special = k == texts::K_PROPERTIES@ || is_nested_key(k) || (declares_object(ms) && k
                        == texts::K_ADDITIONAL_PROPERTIES@ && !(x is Bool));
                    if special {
                        assert(k != texts::K_TYPE@);
                        assert(ms1[i].0 == k);
                        lemma_with_member_keeps(ms1, texts::K_TYPE@, Json::Str(ty), i);
                        if ty == texts::T_OBJECT@ && !crate::sanitize::has_key(ms2, texts::K_PROPERTIES) {
                            assert(member(ms2, texts::K_PROPERTIES@) is None);
                            if k == texts::K_PROPERTIES@ {
                                crate::schema_json::lemma_find_member(ms2, texts::K_PROPERTIES@);
                                assert(ms2[i].0 == k);
                                assert(false) by {
                                    lemma_member_absent(ms2, texts::K_PROPERTIES@, i);
                                }
                            }
                            lemma_with_member_keeps(ms2, texts::K_PROPERTIES@, Json::Object(Seq::empty()), i);
                        }
                        if ty == texts::T_ARRAY@ && !crate::sanitize::has_key(ms3, texts::K_ITEMS) {
                            if k == texts::K_ITEMS@ {
                                assert(ms3[i].0 == k);
                                assert(false) by {
                                    lemma_member_absent(ms3, texts::K_ITEMS@, i);
                                }
                            }
                            lemma_with_member_keeps(ms3, texts::K_ITEMS@, string_type_schema(), i);
                        }
                        assert(ms4[i] == ms1[i]);
                        if declares_object(ms) {
                            assert(ty == texts::T_OBJECT@);
                        }
                        if k == texts::K_PROPERTIES@ {
                            match x {
                                Json::Object(pm) => {
                                    if 0 <= j < pm.len() {
                                        lemma_sanitize_at(pm[j].1, rest);
                                        assert(sanitize_values(pm)[j] == (pm[j].0, sanitize(pm[j].1)));
                                    }
                                },
                                _ => {},
                            }
                        } else if is_nested_key(k) {
                            lemma_sanitize_at(x, rest);
                        } else {
                            lemma_sanitize_at(x, rest);
                            assert(!(sanitize(x) is Bool));
                        }
                    }
                }
            },
            _ => {},
        }
    }
}

proof fn lemma_member_absent(ms: Seq<(Seq<char>, Json)>, k: Seq<char>, i: int)
    requires
        0 <= i < ms.len(),
        ms[i].0 == k,
    ensures
        member(ms, k) is Some,
    decreases ms.len(),
{
    if ms[0].0 != k {
        lemma_member_absent(ms.drop_first(), k, i - 1);
    }
}

/// The type names that the tool-schema subset knows.
pub open spec fn tool_schema_type_name(t: Seq<char>) -> bool {
    t == "object"@ || t == "array"@ || t == "string"@ || t == "number"@ || t == "integer"@ || t == "boolean"@
}

/// Whether an entry of a type list is a type name that the subset knows.
pub open spec fn known_type_entry(e: Json) -> bool {
    e matches Json::Str(t) && tool_schema_type_name(t)
}

/// When a schema object's `type` is a list, the sanitized schema's `type` is the first
/// entry of the list that names one of `object`, `array`, `string`, `number`,
/// `integer` or `boolean`; entries before it (`null`, unknown names, non-strings)
/// are passed over.
pub proof fn lemma_sanitize_type_list(ms: Seq<(Seq<char>, Json)>, ts: Seq<Json>, k: int)
    requires
        member(ms, "type"@) == Some(Json::Array(ts)),
        0 <= k < ts.len(),
        known_type_entry(ts[k]),
        forall|j: int| 0 <= j < k ==> !known_type_entry(#[trigger] ts[j]),
    ensures
        member(sanitized_members(ms), "type"@) == Some(ts[k]),
{
    lemma_first_known_type(ts, k);
    lemma_sanitize_object(ms);
}

/// When no entry of a schema object's `type` list names a known type, the list is
/// passed over and the sanitized type is the one the schema's keywords suggest:
/// `object`, `array`, `string` or `number`.
pub proof fn lemma_sanitize_type_list_unknown(ms: Seq<(Seq<char>, Json)>, ts: Seq<Json>)
    requires
        member(ms, "type"@) == Some(Json::Array(ts)),
        forall|j: int| 0 <= j < ts.len() ==> !known_type_entry(#[trigger] ts[j]),
    ensures
        member(sanitized_members(ms), "type"@) == Some(Json::Str(inferred_type(ms))),
        inferred_type(ms) == "object"@ || inferred_type(ms) == "array"@ || inferred_type(ms) == "string"@
            || inferred_type(ms) == "number"@,
{
    lemma_no_known_type(ts);
    lemma_sanitize_object(ms);
}

proof fn lemma_no_known_type(ts: Seq<Json>)
    requires
        forall|j: int| 0 <= j < ts.len() ==> !known_type_entry(#[trigger] ts[j]),
    ensures
        first_supported(ts) is None,
    decreases ts.len(),
{
    if ts.len() > 0 {
        assert(!known_type_entry(ts[0]));
        let rest = ts.drop_first();
        assert forall|j: int| 0 <= j < rest.len() implies !known_type_entry(#[trigger] rest[j]) by {
            assert(rest[j] == ts[j + 1]);
        }
        lemma_no_known_type(rest);
    }
}

proof fn lemma_first_known_type(ts: Seq<Json>, k: int)
    requires
        0 <= k < ts.len(),
        known_type_entry(ts[k]),
        forall|j: int| 0 <= j < k ==> !known_type_entry(#[trigger] ts[j]),
    ensures
        first_supported(ts) == Some(ts[k]->Str_0),
    decreases k,
{
    if k > 0 {
        assert(!known_type_entry(ts[0]));
        let rest = ts.drop_first();
        assert forall|j: int| 0 <= j < k - 1 implies !known_type_entry(#[trigger] rest[j]) by {
            assert(rest[j] == ts[j + 1]);
        }
        assert(rest[k - 1] == ts[k]);
        lemma_first_known_type(rest, k - 1);
    }
}

} // verus!
