use vstd::prelude::*;

use crate::code_mode::normalized_identifier;
use crate::discoverable::{entries_view3, insert_stable_vec, sort_stable, third};
use crate::json::{lemma_array_view, lemma_object_view, member, members_view, Json, JsonValue};
use crate::sanitize::elems_view;
use crate::strings::{join_strings, views};
use crate::text::{owned, str_eq};
use crate::code_mode::normalize_code_mode_identifier;
use crate::schema_json::{find_member, find_member_index, lemma_find_member, str_of};
use crate::strings::join;
use crate::sorting::{keyed, lemma_sort_by_key_map, lemma_sort_by_key_sorted, map_entries, sort_by_key, sort_by_name};
use crate::texts;

verus! {

pub const K_CONST: &'static str = "const";
pub const K_ENUM: &'static str = "enum";
pub const K_ANY_OF: &'static str = "anyOf";
pub const K_ONE_OF: &'static str = "oneOf";
pub const K_ALL_OF: &'static str = "allOf";
pub const K_PREFIX_ITEMS: &'static str = "prefixItems";
pub const T_NULL: &'static str = "null";
pub const TS_UNKNOWN: &'static str = "unknown";
pub const TS_NEVER: &'static str = "never";
pub const TS_STRING: &'static str = "string";
pub const TS_NUMBER: &'static str = "number";
pub const TS_BOOLEAN: &'static str = "boolean";
pub const TS_NULL: &'static str = "null";
pub const TS_UNKNOWN_ARRAY: &'static str = "unknown[]";
pub const TS_EMPTY_OBJECT: &'static str = "{}";
pub const UNION: &'static str = " | ";
pub const INTERSECTION: &'static str = " & ";
pub const TUPLE_SEPARATOR: &'static str = ", ";
pub const INDEX_SIGNATURE: &'static str = "[key: string]: ";
pub const JSON_NULL: &'static str = "null";
pub const JSON_TRUE: &'static str = "true";
pub const JSON_FALSE: &'static str = "false";

/// A lowercase hexadecimal digit.
pub open spec fn hex_digit(d: int) -> char {
    if d < 10 {
        (('0' as int) + d) as char
    } else {
        (('a' as int) + d - 10) as char
    }
}

/// How serde_json writes the character `c` inside a JSON string: quote and
/// backslash behind a backslash, backspace, tab, line feed, form feed and carriage
/// return as `\b`, `\t`, `\n`, `\f`, `\r`, the other characters below U+0020 as
/// `\u00` and two lowercase hexadecimal digits, and any other character as itself.
pub open spec fn json_escape(c: char) -> Seq<char> {
    if c == '"' {
        seq!['\\', '"']
    } else if c == '\\' {
        seq!['\\', '\\']
    } else if c == '\u{8}' {
        seq!['\\', 'b']
    } else if c == '\t' {
        seq!['\\', 't']
    } else if c == '\n' {
        seq!['\\', 'n']
    } else if c == '\u{c}' {
        seq!['\\', 'f']
    } else if c == '\r' {
        seq!['\\', 'r']
    } else if (c as int) < 0x20 {
        seq!['\\', 'u', '0', '0', hex_digit((c as int) / 16), hex_digit((c as int) % 16)]
    } else {
        seq![c]
    }
}

/// The characters of `s`, each as serde_json writes it inside a JSON string.
pub open spec fn json_escaped(s: Seq<char>) -> Seq<char>
    decreases s.len(),
{
    if s.len() == 0 {
        Seq::empty()
    } else {
        json_escaped(s.drop_last()) + json_escape(s.last())
    }
}

/// The JSON text that serde_json writes for the string `s`: `s` between quotes,
/// each character escaped as [`json_escape`] says.
pub open spec fn json_quoted(s: Seq<char>) -> Seq<char> {
    seq!['"'] + json_escaped(s) + seq!['"']
}

/// Writes `s` as a JSON string literal with `serde_json::to_string`. The contract
/// states the text that serde_json's string formatter writes (its table of escapes);
/// serializing a string does not fail, so the empty fallback is never taken.
#[verifier::external_body]
fn quote_json_string(s: &str) -> (r: String)
    ensures
        r@ == json_quoted(s@),
{
    serde_json::to_string(s).unwrap_or_default()
}

/// `n` spaces.
pub open spec fn spaces(n: nat) -> Seq<char> {
    Seq::new(n, |i: int| ' ')
}

/// The strings among `xs`, in order.
pub open spec fn string_items(xs: Seq<Json>) -> Seq<Seq<char>>
    decreases xs.len(),
{
    if xs.len() == 0 {
        Seq::empty()
    } else {
        let init = string_items(xs.drop_last());
        match xs.last() {
            Json::Str(s) => init.push(s),
            _ => init,
        }
    }
}

/// A JSON value written as compact JSON text, as `serde_json::to_string` writes
/// it: object members ordered by key.
pub open spec fn json_literal(v: Json) -> Seq<char>
    decreases v,
{
    match v {
        Json::Null => JSON_NULL@,
        Json::Bool(b) => if b {
            JSON_TRUE@
        } else {
            JSON_FALSE@
        },
        Json::Number(t) => t,
        Json::Str(s) => json_quoted(s),
        Json::Array(xs) => "["@ + join(literal_items(xs), ","@) + "]"@,
        Json::Object(ms) => "{"@ + join(literal_members(ms), ","@) + "}"@,
    }
}

/// The JSON texts of the values of a list.
pub open spec fn literal_items(xs: Seq<Json>) -> Seq<Seq<char>>
    decreases xs,
{
    Seq::new(
        xs.len(),
        |i: int|
            if 0 <= i < xs.len() {
                proof {
                    assert(decreases_to!(xs => xs[i]));
                }
                json_literal(xs[i])
            } else {
                Seq::empty()
            },
    )
}

/// The order in which an object's members are written: by key, members with
/// equal keys in the order they are held (the order of `serde_json`'s map).
pub open spec fn member_order(ms: Seq<(Seq<char>, Json)>) -> Seq<int> {
    sort_by_key(Seq::new(ms.len(), |i: int| (ms[i].0, i))).map_values(|e: (Seq<char>, int)| e.1)
}

/// The JSON texts `"key":value` of the members of an object, in the order of
/// [`member_order`].
pub open spec fn literal_members(ms: Seq<(Seq<char>, Json)>) -> Seq<Seq<char>>
    decreases ms,
{
    Seq::new(
        ms.len(),
        |k: int|
            {
                let i = member_order(ms)[k];
                if 0 <= i < ms.len() {
                    proof {
                        assert(decreases_to!(ms => ms[i]));
                        assert(decreases_to!(ms[i] => ms[i].1));
                    }
                    json_quoted(ms[i].0) + ":"@ + json_literal(ms[i].1)
                } else {
                    Seq::empty()
                }
            },
    )
}

/// The literal type of each value of `xs`.
pub open spec fn literals(xs: Seq<Json>) -> Seq<Seq<char>> {
    Seq::new(xs.len(), |i: int| json_literal(xs[i]))
}

/// The TypeScript type for a JSON `type` keyword, given what the schema renders to as an
/// array and as an object.
pub open spec fn keyword_type(t: Seq<char>, as_array: Seq<char>, as_object: Seq<char>) -> Seq<char> {
    if t == texts::T_STRING@ {
        TS_STRING@
    } else if t == texts::T_NUMBER@ || t == texts::T_INTEGER@ {
        TS_NUMBER@
    } else if t == texts::T_BOOLEAN@ {
        TS_BOOLEAN@
    } else if t == T_NULL@ {
        TS_NULL@
    } else if t == texts::T_ARRAY@ {
        as_array
    } else if t == texts::T_OBJECT@ {
        as_object
    } else {
        TS_UNKNOWN@
    }
}

/// How a property name is written: bare when it is an identifier, else quoted.
pub open spec fn property_name(name: Seq<char>) -> Seq<char> {
    if normalized_identifier(name) == name {
        name
    } else {
        json_quoted(name)
    }
}

/// A JSON Schema rendered as a TypeScript type, nested lines indented by `indent`.
pub open spec fn ts_type(v: Json, indent: nat) -> Seq<char>
    decreases v, 3int,
{
    match v {
        Json::Bool(b) => if b {
            TS_UNKNOWN@
        } else {
            TS_NEVER@
        },
        Json::Object(ms) => ts_schema(ms, indent),
        _ => TS_UNKNOWN@,
    }
}

/// The types of a list of schemas.
pub open spec fn ts_types(xs: Seq<Json>, indent: nat) -> Seq<Seq<char>>
    decreases xs, 0int,
{
    Seq::new(
        xs.len(),
        |i: int|
            if 0 <= i < xs.len() {
                proof {
                    assert(decreases_to!(xs => xs[i]));
                }
                ts_type(xs[i], indent)
            } else {
                Seq::empty()
            },
    )
}

/// The member `key` of a schema object when it is a non-empty list of schemas.
pub open spec fn schema_list(ms: Seq<(Seq<char>, Json)>, key: Seq<char>) -> Option<Seq<Json>> {
    match find_member(ms, key) {
        Some(i) => if 0 <= i < ms.len() {
            match ms[i].1 {
                Json::Array(xs) => if xs.len() > 0 {
                    Some(xs)
                } else {
                    None
                },
                _ => None,
            }
        } else {
            None
        },
        None => None,
    }
}

pub proof fn lemma_schema_list_decreases(ms: Seq<(Seq<char>, Json)>, key: Seq<char>)
    ensures
        schema_list(ms, key) matches Some(xs) ==> decreases_to!(ms => xs),
{
    match find_member(ms, key) {
        Some(i) => if 0 <= i < ms.len() {
            match ms[i].1 {
                Json::Array(xs) => {
                    assert(decreases_to!(ms => ms[i]));
                    assert(decreases_to!(ms[i] => ms[i].1));
                },
                _ => {},
            }
        },
        None => {},
    }
}

/// The names a schema object states among its `type` list.
pub open spec fn type_names(ms: Seq<(Seq<char>, Json)>) -> Seq<Seq<char>> {
    match member(ms, texts::K_TYPE@) {
        Some(Json::Array(ts)) => string_items(ts),
        _ => Seq::empty(),
    }
}

/// The values an `enum` lists, if it is a list.
pub open spec fn enum_values(ms: Seq<(Seq<char>, Json)>) -> Seq<Json> {
    match member(ms, K_ENUM@) {
        Some(Json::Array(xs)) => xs,
        _ => Seq::empty(),
    }
}

pub open spec fn has(ms: Seq<(Seq<char>, Json)>, key: &str) -> bool {
    member(ms, key@) is Some
}

/// The TypeScript type of a schema object: its `const`, its `enum`, its `anyOf`,
/// `oneOf` or `allOf` variants, its `type` (or types), or else the shape its keywords
/// suggest; `unknown` when nothing tells.
pub open spec fn ts_schema(ms: Seq<(Seq<char>, Json)>, indent: nat) -> Seq<char>
    decreases ms, 2int,
{
    proof {
        lemma_schema_list_decreases(ms, K_ANY_OF@);
        lemma_schema_list_decreases(ms, K_ONE_OF@);
        lemma_schema_list_decreases(ms, K_ALL_OF@);
    }
    if member(ms, K_CONST@) is Some {
        json_literal(member(ms, K_CONST@)->Some_0)
    } else if enum_values(ms).len() > 0 {
        join(literals(enum_values(ms)), UNION@)
    } else if schema_list(ms, K_ANY_OF@) is Some {
        join(ts_types(schema_list(ms, K_ANY_OF@)->Some_0, indent), UNION@)
    } else if schema_list(ms, K_ONE_OF@) is Some {
        join(ts_types(schema_list(ms, K_ONE_OF@)->Some_0, indent), UNION@)
    } else if schema_list(ms, K_ALL_OF@) is Some {
        join(ts_types(schema_list(ms, K_ALL_OF@)->Some_0, indent), INTERSECTION@)
    } else if type_names(ms).len() > 0 {
        let as_array = ts_array(ms, indent);
        let as_object = ts_object(ms, indent);
        join(
            type_names(ms).map_values(|t: Seq<char>| keyword_type(t, as_array, as_object)),
            UNION@,
        )
    } else if member(ms, texts::K_TYPE@) matches Some(Json::Str(_)) {
        keyword_type(str_of(member(ms, texts::K_TYPE@)->Some_0), ts_array(ms, indent), ts_object(ms, indent))
    } else if has(ms, texts::K_PROPERTIES) || has(ms, texts::K_ADDITIONAL_PROPERTIES) || has(ms, texts::K_REQUIRED) {
        ts_object(ms, indent)
    } else if has(ms, texts::K_ITEMS) || has(ms, K_PREFIX_ITEMS) {
        ts_array(ms, indent)
    } else {
        TS_UNKNOWN@
    }
}

/// An array schema as a TypeScript type: `Array<items>`, a tuple of its
/// `prefixItems`, or `unknown[]`.
pub open spec fn ts_array(ms: Seq<(Seq<char>, Json)>, indent: nat) -> Seq<char>
    decreases ms, 1int,
{
    proof {
        lemma_schema_list_decreases(ms, K_PREFIX_ITEMS@);
    }
    match find_member(ms, texts::K_ITEMS@) {
        Some(i) => if 0 <= i < ms.len() {
            proof {
                assert(decreases_to!(ms => ms[i]));
                assert(decreases_to!(ms[i] => ms[i].1));
            }
            "Array<"@ + ts_type(ms[i].1, indent + 2) + ">"@
        } else {
            TS_UNKNOWN_ARRAY@
        },
        None => if schema_list(ms, K_PREFIX_ITEMS@) is Some {
            "["@ + join(ts_types(schema_list(ms, K_PREFIX_ITEMS@)->Some_0, indent + 2), TUPLE_SEPARATOR@)
                + "]"@
        } else {
            TS_UNKNOWN_ARRAY@
        },
    }
}

/// The names an object schema lists as `required`.
pub open spec fn required_names(ms: Seq<(Seq<char>, Json)>) -> Seq<Seq<char>> {
    match member(ms, texts::K_REQUIRED@) {
        Some(Json::Array(xs)) => string_items(xs),
        _ => Seq::empty(),
    }
}

/// The `properties` of an object schema, or none when it holds no object.
pub open spec fn property_members(ms: Seq<(Seq<char>, Json)>) -> Seq<(Seq<char>, Json)> {
    match find_member(ms, texts::K_PROPERTIES@) {
        Some(i) => if 0 <= i < ms.len() {
            match ms[i].1 {
                Json::Object(pm) => pm,
                _ => Seq::empty(),
            }
        } else {
            Seq::empty()
        },
        None => Seq::empty(),
    }
}

pub proof fn lemma_property_members_decreases(ms: Seq<(Seq<char>, Json)>)
    ensures
        property_members(ms).len() > 0 ==> decreases_to!(ms => property_members(ms)),
{
    match find_member(ms, texts::K_PROPERTIES@) {
        Some(i) => if 0 <= i < ms.len() {
            match ms[i].1 {
                Json::Object(pm) => {
                    assert(decreases_to!(ms => ms[i]));
                    assert(decreases_to!(ms[i] => ms[i].1));
                },
                _ => {},
            }
        },
        None => {},
    }
}

/// One property as a line of a TypeScript object type.
pub open spec fn property_line(name: Seq<char>, value_type: Seq<char>, required: Seq<Seq<char>>, indent: nat) -> Seq<char> {
    spaces(indent + 2) + property_name(name) + (if required.contains(name) {
        Seq::empty()
    } else {
        "?"@
    }) + ": "@ + value_type + ";"@
}

/// The lines of the properties, each keyed by its name.
pub open spec fn property_entries(pm: Seq<(Seq<char>, Json)>, required: Seq<Seq<char>>, indent: nat) -> Seq<(Seq<char>, Seq<char>, Seq<char>)>
    decreases pm, 0int,
{
    Seq::new(
        pm.len(),
        |j: int|
            if 0 <= j < pm.len() {
                proof {
                    assert(decreases_to!(pm => pm[j]));
                    assert(decreases_to!(pm[j] => pm[j].1));
                }
                (pm[j].0, Seq::<char>::empty(), property_line(pm[j].0, ts_type(pm[j].1, indent + 2), required, indent))
            } else {
                (Seq::empty(), Seq::empty(), Seq::empty())
            },
    )
}

/// An object schema as a TypeScript object type: one line per property in name
/// order (`?` unless required), then an index signature for additional properties.
pub open spec fn ts_object(ms: Seq<(Seq<char>, Json)>, indent: nat) -> Seq<char>
    decreases ms, 1int,
{
    proof {
        lemma_property_members_decreases(ms);
    }
    let pm = property_members(ms);
    let lines = if pm.len() > 0 {
        third(sort_stable(property_entries(pm, required_names(ms), indent)))
    } else {
        Seq::empty()
    };
    let lines = match find_member(ms, texts::K_ADDITIONAL_PROPERTIES@) {
        Some(k) => if 0 <= k < ms.len() {
            match ms[k].1 {
                Json::Bool(true) => lines.push(spaces(indent + 2) + INDEX_SIGNATURE@ + TS_UNKNOWN@ + ";"@),
                Json::Bool(false) => lines,
                other => {
                    proof {
                        assert(decreases_to!(ms => ms[k]));
                        assert(decreases_to!(ms[k] => ms[k].1));
                    }
                    lines.push(spaces(indent + 2) + INDEX_SIGNATURE@ + ts_type(other, indent + 2) + ";"@)
                },
            }
        } else {
            lines
        },
        None => if pm.len() == 0 {
            lines.push(spaces(indent + 2) + INDEX_SIGNATURE@ + TS_UNKNOWN@ + ";"@)
        } else {
            lines
        },
    };
    if lines.len() == 0 {
        TS_EMPTY_OBJECT@
    } else {
        "{\n"@ + join(lines, "\n"@) + "\n"@ + spaces(indent) + "}"@
    }
}


pub fn json_literal_text(v: &JsonValue) -> (r: String)
    ensures
        r@ == json_literal(v@),
    decreases v,
{
    proof {
        reveal_strlit("[");
        reveal_strlit("]");
        reveal_strlit("{");
        reveal_strlit("}");
        reveal_strlit(",");
        reveal_strlit(":");
    }
    match v {
        JsonValue::Null => {
            assert(v@ == Json::Null);
            owned(JSON_NULL)
        },
        JsonValue::Bool(b) => {
            assert(v@ == Json::Bool(*b));
            if *b {
                owned(JSON_TRUE)
            } else {
                owned(JSON_FALSE)
            }
        },
        JsonValue::Number(t) => {
            assert(v@ == Json::Number(t@));
            owned(t.as_str())
        },
        JsonValue::Str(t) => {
            assert(v@ == Json::Str(t@));
            quote_json_string(t.as_str())
        },
        JsonValue::Array(a) => {
            proof {
                lemma_array_view(*a);
            }
            let ghost xs = elems_view(a@);
            let mut parts: Vec<String> = Vec::new();
            let mut i: usize = 0;
            #[verifier::loop_isolation(false)]
            while i < a.len()
                invariant
                    i <= a.len(),
                    xs == elems_view(a@),
                    parts.len() == i,
                    forall|j: int| 0 <= j < i ==> #[trigger] parts@[j]@ == json_literal(xs[j]),
                decreases a.len() - i,
            {
                assert(decreases_to!(*v => a@[i as int])) by {
                    assert(decreases_to!(*v => *a));
                    assert(decreases_to!(*a => a@));
                }
                assert(xs[i as int] == a@[i as int]@);
                parts.push(json_literal_text(&a[i]));
                i = i + 1;
            }
            let mut r = owned("[");
            let inner = join_strings(&parts, ",");
            assert(views(parts@) =~= literal_items(xs));
            r.append(inner.as_str());
            r.append("]");
            assert(v@ == Json::Array(xs));
            assert(r@ == json_literal(v@));
            r
        },
        JsonValue::Object(m) => {
            proof {
                lemma_object_view(*m);
            }
            let ghost ms = members_view(m@);
            let n = m.len();
            let mut keys: Vec<(String, usize)> = Vec::new();
            let mut i: usize = 0;
            while i < n
                invariant
                    i <= n,
                    n == m.len(),
                    ms == members_view(m@),
                    keys.len() == i,
                    forall|j: int| 0 <= j < i ==> #[trigger] keys@[j].0@ == ms[j].0 && keys@[j].1 == j,
                decreases n - i,
            {
                keys.push((owned(m[i].0.as_str()), i));
                i = i + 1;
            }
            let ghost ku = keyed(keys@);
            assert(ku =~= Seq::new(n as nat, |j: int| (ms[j].0, j as usize)));
            let sorted = sort_by_name(keys);
            let ghost order = member_order(ms);
            proof {
                lemma_member_order(ms, ku, keyed(sorted@));
            }
            let mut parts: Vec<String> = Vec::new();
            let mut k: usize = 0;
            #[verifier::loop_isolation(false)]
            while k < sorted.len()
                invariant
                    k <= sorted.len(),
                    sorted.len() == n,
                    ms == members_view(m@),
                    parts.len() == k,
                    forall|j: int| 0 <= j < n ==> 0 <= #[trigger] order[j] < n && order[j] == sorted@[j].1,
                    forall|j: int| 0 <= j < k ==> #[trigger] parts@[j]@ == json_quoted(ms[order[j]].0) + ":"@ + json_literal(ms[order[j]].1),
                decreases sorted.len() - k,
            {
                let idx = sorted[k].1;
                assert(order[k as int] == idx);
                assert(decreases_to!(*v => m@[idx as int].1)) by {
                    assert(decreases_to!(*v => *m));
                    assert(decreases_to!(*m => m@));
                    assert(decreases_to!(m@ => m@[idx as int]));
                }
                assert(ms[idx as int] == (m@[idx as int].0@, m@[idx as int].1@));
                let mut part = quote_json_string(m[idx].0.as_str());
                part.append(":");
                let value = json_literal_text(&m[idx].1);
                part.append(value.as_str());
                parts.push(part);
                k = k + 1;
            }
            let mut r = owned("{");
            let inner = join_strings(&parts, ",");
            assert(views(parts@) =~= literal_members(ms));
            r.append(inner.as_str());
            r.append("}");
            assert(v@ == Json::Object(ms));
            assert(r@ == json_literal(v@));
            r
        },
    }
}

/// The order that sorting the keyed member indices gives is [`member_order`],
/// and each place holds the index of a member.
proof fn lemma_member_order(
    ms: Seq<(Seq<char>, Json)>,
    ku: Seq<(Seq<char>, usize)>,
    su: Seq<(Seq<char>, usize)>,
)
    requires
        ms.len() <= usize::MAX,
        ku == Seq::new(ms.len(), |j: int| (ms[j].0, j as usize)),
        su == sort_by_key(ku),
    ensures
        su.len() == ms.len(),
        member_order(ms).len() == ms.len(),
        forall|j: int| 0 <= j < ms.len() ==> 0 <= #[trigger] member_order(ms)[j] < ms.len() && member_order(ms)[j] == su[j].1,
{
    broadcast use vstd::seq_lib::group_to_multiset_ensures;

    let f = |u: usize| u as int;
    lemma_sort_by_key_map(ku, f);
    let ki = Seq::new(ms.len(), |j: int| (ms[j].0, j));
    assert forall|j: int| 0 <= j < ms.len() implies #[trigger] map_entries(ku, f)[j] == ki[j] by {
        assert((j as usize) as int == j);
    }
    assert(map_entries(ku, f) =~= ki);
    lemma_sort_by_key_sorted(ku);
    assert(su.to_multiset().len() == su.len());
    assert(ku.to_multiset().len() == ku.len());
    let mi = map_entries(su, f);
    assert(mi == sort_by_key(ki));
    assert forall|j: int| 0 <= j < ms.len() implies 0 <= #[trigger] member_order(ms)[j] < ms.len()
        && member_order(ms)[j] == su[j].1 by {
        assert(su.to_multiset().count(su[j]) > 0);
        assert(ku.contains(su[j]));
        let q = choose|q: int| 0 <= q < ku.len() && ku[q] == su[j];
        assert(mi[j] == (su[j].0, su[j].1 as int));
    }
}

fn string_items_of(xs: &Vec<JsonValue>) -> (r: Vec<String>)
    ensures
        views(r@) == string_items(elems_view(xs@)),
{
    let ghost js = elems_view(xs@);
    let mut out: Vec<String> = Vec::new();
    let mut i: usize = 0;
    assert(js.take(0) =~= Seq::<Json>::empty());
    while i < xs.len()
        invariant
            i <= xs.len(),
            js == elems_view(xs@),
            views(out@) == string_items(js.take(i as int)),
        decreases xs.len() - i,
    {
        let ghost before = views(out@);
        assert(js.take(i + 1).drop_last() =~= js.take(i as int));
        assert(js.take(i + 1).last() == xs@[i as int]@);
        match &xs[i] {
            JsonValue::Str(t) => {
                out.push(owned(t.as_str()));
                assert(views(out@) =~= before.push(t@));
            },
            _ => {},
        }
        i = i + 1;
    }
    assert(js.take(xs.len() as int) =~= js);
    out
}

fn contains_string(v: &Vec<String>, s: &str) -> (r: bool)
    ensures
        r == views(v@).contains(s@),
{
    let mut i: usize = 0;
    while i < v.len()
        invariant
            i <= v.len(),
            forall|j: int| 0 <= j < i ==> views(v@)[j] != s@,
        decreases v.len() - i,
    {
        if str_eq(v[i].as_str(), s) {
            assert(views(v@)[i as int] == s@);
            return true;
        }
        i = i + 1;
    }
    false
}

fn property_name_text(name: &str) -> (r: String)
    ensures
        r@ == property_name(name@),
{
    let normalized = normalize_code_mode_identifier(name);
    if str_eq(normalized.as_str(), name) {
        owned(name)
    } else {
        quote_json_string(name)
    }
}

/// `pad` with two more spaces.
fn deeper(pad: &str, Ghost(indent): Ghost<nat>) -> (r: String)
    requires
        pad@ == spaces(indent),
    ensures
        r@ == spaces(indent + 2),
{
    let mut r = owned(pad);
    r.append("  ");
    proof {
        reveal_strlit("  ");
    }
    assert(r@ =~= spaces(indent + 2));
    r
}


fn schema_list_of<'a>(m: &'a Vec<(String, JsonValue)>, key: &str) -> (r: Option<&'a Vec<JsonValue>>)
    ensures
        match r {
            Some(xs) => schema_list(members_view(m@), key@) == Some(elems_view(xs@)) && decreases_to!(*m => *xs),
            None => schema_list(members_view(m@), key@) is None,
        },
{
    let ghost ms = members_view(m@);
    match find_member_index(m, key) {
        Some(i) => {
            proof {
                lemma_find_member(ms, key@);
            }
            assert(ms[i as int].1 == m@[i as int].1@);
            match &m[i].1 {
                JsonValue::Array(xs) => {
                    proof {
                        lemma_array_view(*xs);
                    }
                    if xs.len() > 0 {
                        assert(decreases_to!(*m => *xs)) by {
                            assert(decreases_to!(*m => m@));
                            assert(decreases_to!(m@ => m@[i as int]));
                            assert(decreases_to!(m@[i as int] => m@[i as int].1));
                        }
                        Some(xs)
                    } else {
                        None
                    }
                },
                _ => None,
            }
        },
        None => None,
    }
}

fn third_strings(sorted: &Vec<(String, String, String)>) -> (r: Vec<String>)
    ensures
        views(r@) == third(entries_view3(sorted@)),
{
    let mut lines: Vec<String> = Vec::new();
    let mut k: usize = 0;
    while k < sorted.len()
        invariant
            k <= sorted.len(),
            lines.len() == k,
            forall|j: int| 0 <= j < k ==> #[trigger] lines@[j]@ == sorted@[j].2@,
        decreases sorted.len() - k,
    {
        lines.push(owned(sorted[k].2.as_str()));
        k = k + 1;
    }
    assert(views(lines@) =~= third(entries_view3(sorted@)));
    lines
}

fn render_types(xs: &Vec<JsonValue>, pad: &str, Ghost(indent): Ghost<nat>) -> (r: Vec<String>)
    requires
        pad@ == spaces(indent),
    ensures
        views(r@) == ts_types(elems_view(xs@), indent),
    decreases xs, 0int,
{
    let mut out: Vec<String> = Vec::new();
    let mut i: usize = 0;
    while i < xs.len()
        invariant
            i <= xs.len(),
            pad@ == spaces(indent),
            out.len() == i,
            forall|j: int| 0 <= j < i ==> #[trigger] out@[j]@ == ts_type(xs@[j]@, indent),
        decreases xs.len() - i,
    {
        assert(decreases_to!(*xs => xs@[i as int])) by {
            assert(decreases_to!(*xs => xs@));
        }
        out.push(render_type(&xs[i], pad, Ghost(indent)));
        i = i + 1;
    }
    assert(views(out@) =~= ts_types(elems_view(xs@), indent));
    out
}

fn render_type(v: &JsonValue, pad: &str, Ghost(indent): Ghost<nat>) -> (r: String)
    requires
        pad@ == spaces(indent),
    ensures
        r@ == ts_type(v@, indent),
    decreases v, 4int,
{
    match v {
        JsonValue::Bool(b) => {
            assert(v@ == Json::Bool(*b));
            if *b {
                owned(TS_UNKNOWN)
            } else {
                owned(TS_NEVER)
            }
        },
        JsonValue::Object(m) => {
            proof {
                lemma_object_view(*m);
            }
            assert(decreases_to!(*v => *m));
            render_schema(m, pad, Ghost(indent))
        },
        JsonValue::Null => {
            assert(v@ == Json::Null);
            owned(TS_UNKNOWN)
        },
        JsonValue::Number(t) => {
            assert(v@ == Json::Number(t@));
            owned(TS_UNKNOWN)
        },
        JsonValue::Str(t) => {
            assert(v@ == Json::Str(t@));
            owned(TS_UNKNOWN)
        },
        JsonValue::Array(a) => {
            proof {
                lemma_array_view(*a);
            }
            owned(TS_UNKNOWN)
        },
    }
}

fn keyword_text(t: &str, m: &Vec<(String, JsonValue)>, pad: &str, Ghost(indent): Ghost<nat>) -> (r: String)
    requires
        pad@ == spaces(indent),
    ensures
        r@ == keyword_type(t@, ts_array(members_view(m@), indent), ts_object(members_view(m@), indent)),
    decreases m, 2int,
{
    if str_eq(t, texts::T_STRING) {
        owned(TS_STRING)
    } else if str_eq(t, texts::T_NUMBER) || str_eq(t, texts::T_INTEGER) {
        owned(TS_NUMBER)
    } else if str_eq(t, texts::T_BOOLEAN) {
        owned(TS_BOOLEAN)
    } else if str_eq(t, T_NULL) {
        owned(TS_NULL)
    } else if str_eq(t, texts::T_ARRAY) {
        render_array(m, pad, Ghost(indent))
    } else if str_eq(t, texts::T_OBJECT) {
        render_object(m, pad, Ghost(indent))
    } else {
        owned(TS_UNKNOWN)
    }
}

fn render_array(m: &Vec<(String, JsonValue)>, pad: &str, Ghost(indent): Ghost<nat>) -> (r: String)
    requires
        pad@ == spaces(indent),
    ensures
        r@ == ts_array(members_view(m@), indent),
    decreases m, 1int,
{
    proof {
        reveal_strlit("Array<");
        reveal_strlit(">");
        reveal_strlit("[");
        reveal_strlit("]");
    }
    let ghost ms = members_view(m@);
    let pad2 = deeper(pad, Ghost(indent));
    match find_member_index(m, texts::K_ITEMS) {
        Some(i) => {
            proof {
                lemma_find_member(ms, texts::K_ITEMS@);
            }
            assert(ms[i as int].1 == m@[i as int].1@);
            assert(decreases_to!(*m => m@[i as int].1)) by {
                assert(decreases_to!(*m => m@));
                assert(decreases_to!(m@ => m@[i as int]));
            }
            let item = render_type(&m[i].1, pad2.as_str(), Ghost(indent + 2));
            let mut r = owned("Array<");
            r.append(item.as_str());
            r.append(">");
            r
        },
        None => match schema_list_of(m, K_PREFIX_ITEMS) {
            Some(xs) => {
                let parts = render_types(xs, pad2.as_str(), Ghost(indent + 2));
                let inner = join_strings(&parts, TUPLE_SEPARATOR);
                let mut r = owned("[");
                r.append(inner.as_str());
                r.append("]");
                r
            },
            None => owned(TS_UNKNOWN_ARRAY),
        },
    }
}


fn index_signature_line(pad2: &str, value_type: &str) -> (r: String)
    ensures
        r@ == pad2@ + INDEX_SIGNATURE@ + value_type@ + ";"@,
{
    proof {
        reveal_strlit(";");
    }
    let mut r = owned(pad2);
    r.append(INDEX_SIGNATURE);
    r.append(value_type);
    r.append(";");
    r
}

fn render_object(m: &Vec<(String, JsonValue)>, pad: &str, Ghost(indent): Ghost<nat>) -> (r: String)
    requires
        pad@ == spaces(indent),
    ensures
        r@ == ts_object(members_view(m@), indent),
    decreases m, 1int,
{
    proof {
        reveal_strlit("?");
        reveal_strlit(": ");
        reveal_strlit(";");
        reveal_strlit("{\n");
        reveal_strlit("\n");
        reveal_strlit("}");
        lemma_property_members_decreases(members_view(m@));
    }
    let ghost ms = members_view(m@);
    let pad2 = deeper(pad, Ghost(indent));
    let required: Vec<String> = match crate::json::get_member(m, texts::K_REQUIRED) {
        Some(JsonValue::Array(xs)) => {
            proof {
                lemma_array_view(*xs);
            }
            string_items_of(xs)
        },
        _ => Vec::new(),
    };
    assert(views(required@) =~= required_names(ms));
    let ghost req = required_names(ms);
    let mut sorted: Vec<(String, String, String)> = Vec::new();
    let mut pm_len: usize = 0;
    match find_member_index(m, texts::K_PROPERTIES) {
        Some(i) => {
            proof {
                lemma_find_member(ms, texts::K_PROPERTIES@);
            }
            assert(ms[i as int].1 == m@[i as int].1@);
            match &m[i].1 {
                JsonValue::Object(pm) => {
                    proof {
                        lemma_object_view(*pm);
                    }
                    let ghost pms = members_view(pm@);
                    assert(property_members(ms) == pms);
                    let ghost es = property_entries(pms, req, indent);
                    pm_len = pm.len();
                    let mut j: usize = 0;
                    assert(es.take(0) =~= Seq::<(Seq<char>, Seq<char>, Seq<char>)>::empty());
                    #[verifier::loop_isolation(false)]
                    while j < pm.len()
                        invariant
                            j <= pm.len(),
                            entries_view3(sorted@) == sort_stable(es.take(j as int)),
                        decreases pm.len() - j,
                    {
                        assert(decreases_to!(*m => pm@[j as int].1)) by {
                            assert(decreases_to!(*m => m@));
                            assert(decreases_to!(m@ => m@[i as int]));
                            assert(decreases_to!(m@[i as int] => m@[i as int].1));
                            assert(decreases_to!(m@[i as int].1 => *pm));
                            assert(decreases_to!(*pm => pm@));
                            assert(decreases_to!(pm@ => pm@[j as int]));
                        }
                        let name = pm[j].0.as_str();
                        assert(pms[j as int] == (name@, pm@[j as int].1@));
                        let value_type = render_type(&pm[j].1, pad2.as_str(), Ghost(indent + 2));
                        let mut line = owned(pad2.as_str());
                        let shown = property_name_text(name);
                        line.append(shown.as_str());
                        if !contains_string(&required, name) {
                            line.append("?");
                        }
                        line.append(": ");
                        line.append(value_type.as_str());
                        line.append(";");
                        assert(line@ =~= property_line(name@, value_type@, req, indent));
                        assert(es[j as int] == (name@, Seq::<char>::empty(), line@));
                        assert(es.take(j + 1).drop_last() =~= es.take(j as int));
                        let empty = String::new();
                        insert_stable_vec(&mut sorted, (owned(name), empty, line));
                        j = j + 1;
                    }
                    assert(es.take(pm.len() as int) =~= es);
                },
                _ => {},
            }
        },
        None => {},
    }
    assert(pm_len == property_members(ms).len());
    let ghost spec_lines0 = if property_members(ms).len() > 0 {
        third(sort_stable(property_entries(property_members(ms), req, indent)))
    } else {
        Seq::<Seq<char>>::empty()
    };
    assert(third(entries_view3(sorted@)) =~= spec_lines0);
    let mut lines = third_strings(&sorted);
    assert(views(lines@) == spec_lines0);
    match find_member_index(m, texts::K_ADDITIONAL_PROPERTIES) {
        Some(k) => {
            proof {
                lemma_find_member(ms, texts::K_ADDITIONAL_PROPERTIES@);
            }
            assert(ms[k as int].1 == m@[k as int].1@);
            match &m[k].1 {
                JsonValue::Bool(true) => {
                    lines.push(index_signature_line(pad2.as_str(), TS_UNKNOWN));
                },
                JsonValue::Bool(false) => {},
                other => {
                    assert(decreases_to!(*m => m@[k as int].1)) by {
                        assert(decreases_to!(*m => m@));
                        assert(decreases_to!(m@ => m@[k as int]));
                    }
                    let t = render_type(other, pad2.as_str(), Ghost(indent + 2));
                    lines.push(index_signature_line(pad2.as_str(), t.as_str()));
                },
            }
        },
        None => {
            if pm_len == 0 {
                lines.push(index_signature_line(pad2.as_str(), TS_UNKNOWN));
            }
        },
    }
    let ghost spec_lines = match find_member(ms, texts::K_ADDITIONAL_PROPERTIES@) {
        Some(k) => if 0 <= k < ms.len() {
            match ms[k].1 {
                Json::Bool(true) => spec_lines0.push(spaces(indent + 2) + INDEX_SIGNATURE@ + TS_UNKNOWN@ + ";"@),
                Json::Bool(false) => spec_lines0,
                other => spec_lines0.push(spaces(indent + 2) + INDEX_SIGNATURE@ + ts_type(other, indent + 2) + ";"@),
            }
        } else {
            spec_lines0
        },
        None => if property_members(ms).len() == 0 {
            spec_lines0.push(spaces(indent + 2) + INDEX_SIGNATURE@ + TS_UNKNOWN@ + ";"@)
        } else {
            spec_lines0
        },
    };
    assert(views(lines@) =~= spec_lines);
    if lines.len() == 0 {
        owned(TS_EMPTY_OBJECT)
    } else {
        let body = join_strings(&lines, "\n");
        let mut r = owned("{\n");
        r.append(body.as_str());
        r.append("\n");
        r.append(pad);
        r.append("}");
        r
    }
}

fn render_schema(m: &Vec<(String, JsonValue)>, pad: &str, Ghost(indent): Ghost<nat>) -> (r: String)
    requires
        pad@ == spaces(indent),
    ensures
        r@ == ts_schema(members_view(m@), indent),
    decreases m, 3int,
{
    let ghost ms = members_view(m@);
    if let Some(c) = crate::json::get_member(m, K_CONST) {
        return json_literal_text(c);
    }
    if let Some(JsonValue::Array(xs)) = crate::json::get_member(m, K_ENUM) {
        proof {
            lemma_array_view(*xs);
        }
        if xs.len() > 0 {
            let mut parts: Vec<String> = Vec::new();
            let mut i: usize = 0;
            while i < xs.len()
                invariant
                    i <= xs.len(),
                    parts.len() == i,
                    forall|j: int| 0 <= j < i ==> #[trigger] parts@[j]@ == json_literal(xs@[j]@),
                decreases xs.len() - i,
            {
                parts.push(json_literal_text(&xs[i]));
                i = i + 1;
            }
            assert(views(parts@) =~= literals(elems_view(xs@)));
            return join_strings(&parts, UNION);
        }
    }
    if let Some(xs) = schema_list_of(m, K_ANY_OF) {
        let parts = render_types(xs, pad, Ghost(indent));
        return join_strings(&parts, UNION);
    }
    if let Some(xs) = schema_list_of(m, K_ONE_OF) {
        let parts = render_types(xs, pad, Ghost(indent));
        return join_strings(&parts, UNION);
    }
    if let Some(xs) = schema_list_of(m, K_ALL_OF) {
        let parts = render_types(xs, pad, Ghost(indent));
        return join_strings(&parts, INTERSECTION);
    }
    match crate::json::get_member(m, texts::K_TYPE) {
        Some(JsonValue::Array(ts)) => {
            proof {
                lemma_array_view(*ts);
            }
            let names = string_items_of(ts);
            assert(views(names@) == type_names(ms));
            if names.len() > 0 {
                let ghost as_array = ts_array(ms, indent);
                let ghost as_object = ts_object(ms, indent);
                let mut parts: Vec<String> = Vec::new();
                let mut i: usize = 0;
                while i < names.len()
                    invariant
                        i <= names.len(),
                        pad@ == spaces(indent),
                        ms == members_view(m@),
                        as_array == ts_array(ms, indent),
                        as_object == ts_object(ms, indent),
                        parts.len() == i,
                        forall|j: int| 0 <= j < i ==> #[trigger] parts@[j]@ == keyword_type(names@[j]@, as_array, as_object),
                    decreases names.len() - i,
                {
                    parts.push(keyword_text(names[i].as_str(), m, pad, Ghost(indent)));
                    i = i + 1;
                }
                assert(views(parts@) =~= type_names(ms).map_values(|t: Seq<char>| keyword_type(t, as_array, as_object)));
                return join_strings(&parts, UNION);
            }
        },
        _ => {},
    }
    if let Some(JsonValue::Str(t)) = crate::json::get_member(m, texts::K_TYPE) {
        return keyword_text(t.as_str(), m, pad, Ghost(indent));
    }
    if crate::json::has_member(m, texts::K_PROPERTIES) || crate::json::has_member(m, texts::K_ADDITIONAL_PROPERTIES)
        || crate::json::has_member(m, texts::K_REQUIRED) {
        return render_object(m, pad, Ghost(indent));
    }
    if crate::json::has_member(m, texts::K_ITEMS) || crate::json::has_member(m, K_PREFIX_ITEMS) {
        return render_array(m, pad, Ghost(indent));
    }
    owned(TS_UNKNOWN)
}

/// A JSON Schema rendered as a TypeScript type: see [`ts_type`].
pub fn render_json_schema_to_typescript(schema: &JsonValue) -> (r: String)
    ensures
        r@ == ts_type(schema@, 0),
{
    let pad = String::new();
    assert(pad@ =~= spaces(0));
    render_type(schema, pad.as_str(), Ghost(0))
}

/// Whether a schema object's member `key` is a non-empty list.
pub open spec fn nonempty_list_member(ms: Seq<(Seq<char>, Json)>, key: Seq<char>) -> bool {
    ||| member(ms, key) matches Some(Json::Array(xs)) && xs.len() > 0
}

proof fn lemma_schema_list_member(ms: Seq<(Seq<char>, Json)>, key: Seq<char>)
    ensures
        schema_list(ms, key) is Some <==> nonempty_list_member(ms, key),
        nonempty_list_member(ms, key) ==> schema_list(ms, key) == Some(member(ms, key)->Some_0->Array_0),
{
    lemma_find_member(ms, key);
}

/// A schema object with a `const` renders as that value's JSON literal; one with
/// no `const` and a non-empty `enum` list renders as the union of the listed
/// values' literals, joined by ` | `.
pub proof fn lemma_const_and_enum(ms: Seq<(Seq<char>, Json)>, es: Seq<Json>, indent: nat)
    ensures
        member(ms, "const"@) is Some ==> ts_type(Json::Object(ms), indent) == json_literal(
            member(ms, "const"@)->Some_0,
        ),
        member(ms, "const"@) is None && member(ms, "enum"@) == Some(Json::Array(es)) && es.len() > 0
            ==> ts_type(Json::Object(ms), indent) == join(literals(es), " | "@),
{
}

/// A schema object with no `const` and no non-empty `enum`, whose first non-empty
/// list of variants is `anyOf`, renders as the union of its variants' renderings,
/// joined by ` | `.
pub proof fn lemma_any_of_is_union(ms: Seq<(Seq<char>, Json)>, xs: Seq<Json>, indent: nat)
    requires
        member(ms, "const"@) is None,
        !nonempty_list_member(ms, "enum"@),
        member(ms, "anyOf"@) == Some(Json::Array(xs)),
        xs.len() > 0,
    ensures
        ts_type(Json::Object(ms), indent) == join(ts_types(xs, indent), " | "@),
{
    lemma_schema_list_member(ms, "anyOf"@);
}

/// A schema object with no `const`, no non-empty `enum` and no non-empty `anyOf`,
/// whose `oneOf` is a non-empty list, renders as the union of its variants'
/// renderings, joined by ` | ` exactly as `anyOf` is, and never by ` & `.
pub proof fn lemma_one_of_is_union(ms: Seq<(Seq<char>, Json)>, xs: Seq<Json>, indent: nat)
    requires
        member(ms, "const"@) is None,
        !nonempty_list_member(ms, "enum"@),
        !nonempty_list_member(ms, "anyOf"@),
        member(ms, "oneOf"@) == Some(Json::Array(xs)),
        xs.len() > 0,
    ensures
        ts_type(Json::Object(ms), indent) == join(ts_types(xs, indent), " | "@),
{
    lemma_schema_list_member(ms, "anyOf"@);
    lemma_schema_list_member(ms, "oneOf"@);
}

/// A schema object with no `const`, no non-empty `enum`, `anyOf` or `oneOf`, whose
/// `allOf` is a non-empty list, renders as the intersection of its variants'
/// renderings, joined by ` & `.
pub proof fn lemma_all_of_is_intersection(ms: Seq<(Seq<char>, Json)>, xs: Seq<Json>, indent: nat)
    requires
        member(ms, "const"@) is None,
        !nonempty_list_member(ms, "enum"@),
        !nonempty_list_member(ms, "anyOf"@),
        !nonempty_list_member(ms, "oneOf"@),
        member(ms, "allOf"@) == Some(Json::Array(xs)),
        xs.len() > 0,
    ensures
        ts_type(Json::Object(ms), indent) == join(ts_types(xs, indent), " & "@),
{
    lemma_schema_list_member(ms, "anyOf"@);
    lemma_schema_list_member(ms, "oneOf"@);
    lemma_schema_list_member(ms, "allOf"@);
}

}
