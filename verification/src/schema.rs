use vstd::prelude::*;

use crate::text::{
    lemma_str_lt_asymmetric, lemma_str_lt_irreflexive, lemma_str_lt_total, lemma_str_lt_transitive,
    owned, str_eq, str_less, str_lt,
};

verus! {

/// The subset of JSON Schema that tool definitions use.
#[derive(Debug, PartialEq)]
pub enum JsonSchema {
    Boolean { description: Option<String> },
    String { description: Option<String> },
    /// MCP schemas allow "number" and "integer"; both land here.
    Number { description: Option<String> },
    Array { items: Box<JsonSchema>, description: Option<String> },
    Object {
        properties: Properties,
        required: Option<Vec<String>>,
        additional_properties: Option<AdditionalProperties>,
    },
}

/// Whether additional properties are allowed, and if so, any required schema.
#[derive(Debug, PartialEq)]
pub enum AdditionalProperties {
    Boolean(bool),
    Schema(Box<JsonSchema>),
}

/// The `properties` of an object schema: a map from names to schemas,
/// kept in ascending key order, each key once.
#[derive(Debug, PartialEq)]
pub struct Properties {
    pub entries: Vec<(String, JsonSchema)>,
}

/// The mathematical content of a [`JsonSchema`].
pub enum Schema {
    Boolean { description: Option<Seq<char>> },
    Str { description: Option<Seq<char>> },
    Number { description: Option<Seq<char>> },
    Array { items: Box<Schema>, description: Option<Seq<char>> },
    Object {
        properties: Seq<(Seq<char>, Schema)>,
        required: Option<Seq<Seq<char>>>,
        additional_properties: Option<Extra>,
    },
}

/// The mathematical content of an [`AdditionalProperties`].
pub enum Extra {
    Boolean(bool),
    Schema(Box<Schema>),
}

pub open spec fn opt_str(o: Option<String>) -> Option<Seq<char>> {
    match o {
        Some(s) => Some(s@),
        None => None,
    }
}

pub open spec fn strs(v: Seq<String>) -> Seq<Seq<char>> {
    v.map_values(|s: String| s@)
}

pub open spec fn opt_strs(o: Option<Vec<String>>) -> Option<Seq<Seq<char>>> {
    match o {
        Some(v) => Some(strs(v@)),
        None => None,
    }
}

pub open spec fn schema_view(s: JsonSchema) -> Schema
    decreases s,
{
    match s {
        JsonSchema::Boolean { description } => Schema::Boolean { description: opt_str(description) },
        JsonSchema::String { description } => Schema::Str { description: opt_str(description) },
        JsonSchema::Number { description } => Schema::Number { description: opt_str(description) },
        JsonSchema::Array { items, description } => Schema::Array {
            items: Box::new(schema_view(*items)),
            description: opt_str(description),
        },
        JsonSchema::Object { properties, required, additional_properties } => {
            proof {
                assert(decreases_to!(properties => properties.entries));
            }
            Schema::Object {
                properties: entries_view(properties.entries@),
                required: opt_strs(required),
                additional_properties: match additional_properties {
                    None => None,
                    Some(AdditionalProperties::Boolean(b)) => Some(Extra::Boolean(b)),
                    Some(AdditionalProperties::Schema(b)) => Some(
                        Extra::Schema(Box::new(schema_view(*b))),
                    ),
                },
            }
        },
    }
}

pub open spec fn entries_view(es: Seq<(String, JsonSchema)>) -> Seq<(Seq<char>, Schema)>
    decreases es,
{
    Seq::new(
        es.len(),
        |i: int|
            {
                if 0 <= i < es.len() {
                    proof {
                        assert(decreases_to!(es => es[i]));
                        assert(decreases_to!(es[i] => es[i].1));
                    }
                    (es[i].0@, schema_view(es[i].1))
                } else {
                    (Seq::empty(), Schema::Boolean { description: None })
                }
            },
    )
}

impl View for JsonSchema {
    type V = Schema;

    open spec fn view(&self) -> Schema {
        schema_view(*self)
    }
}

impl View for Properties {
    type V = Seq<(Seq<char>, Schema)>;

    open spec fn view(&self) -> Seq<(Seq<char>, Schema)> {
        entries_view(self.entries@)
    }
}


/// What inserting `key` with `value` makes of an ordered property list: the
/// entry for `key` is replaced in place, or a new one goes before the first
/// key that sorts after it.
pub open spec fn props_insert(
    ps: Seq<(Seq<char>, Schema)>,
    key: Seq<char>,
    value: Schema,
) -> Seq<(Seq<char>, Schema)>
    decreases ps.len(),
{
    if ps.len() == 0 {
        seq![(key, value)]
    } else if ps[0].0 == key {
        seq![(key, value)] + ps.drop_first()
    } else if str_lt(key, ps[0].0) {
        seq![(key, value)] + ps
    } else {
        seq![ps[0]] + props_insert(ps.drop_first(), key, value)
    }
}

/// The value that an ordered property list gives `key`, if any.
pub open spec fn props_get(ps: Seq<(Seq<char>, Schema)>, key: Seq<char>) -> Option<Schema>
    decreases ps.len(),
{
    if ps.len() == 0 {
        None
    } else if ps[0].0 == key {
        Some(ps[0].1)
    } else {
        props_get(ps.drop_first(), key)
    }
}

/// Keys in strictly ascending order (so each key once).
pub open spec fn props_sorted(ps: Seq<(Seq<char>, Schema)>) -> bool {
    forall|i: int, j: int| 0 <= i < j < ps.len() ==> str_lt(#[trigger] ps[i].0, #[trigger] ps[j].0)
}

pub open spec fn props_keys(ps: Seq<(Seq<char>, Schema)>) -> Seq<Seq<char>> {
    ps.map_values(|e: (Seq<char>, Schema)| e.0)
}

/// After an insert, `key` reads back the inserted value and every other key
/// reads what it read before.
pub proof fn lemma_props_get_insert(
    ps: Seq<(Seq<char>, Schema)>,
    key: Seq<char>,
    value: Schema,
    other: Seq<char>,
)
    ensures
        props_get(props_insert(ps, key, value), key) == Some(value),
        other != key ==> props_get(props_insert(ps, key, value), other) == props_get(ps, other),
    decreases ps.len(),
{
    if ps.len() == 0 {
        let r = seq![(key, value)];
        assert(r.drop_first() =~= Seq::<(Seq<char>, Schema)>::empty());
        assert(props_get(r, other) == props_get(r.drop_first(), other) || other == key);
    } else if ps[0].0 != key && !str_lt(key, ps[0].0) {
        lemma_props_get_insert(ps.drop_first(), key, value, other);
        let r = seq![ps[0]] + props_insert(ps.drop_first(), key, value);
        assert(r.drop_first() =~= props_insert(ps.drop_first(), key, value));
        assert(r[0] == ps[0]);
    } else if ps.len() > 0 && ps[0].0 == key {
        let r = seq![(key, value)] + ps.drop_first();
        assert(r.drop_first() =~= ps.drop_first());
        assert(props_get(r, other) == props_get(r.drop_first(), other) || other == key);
    } else if ps.len() > 0 {
        let r = seq![(key, value)] + ps;
        assert(r.drop_first() =~= ps);
        assert(props_get(r, other) == props_get(r.drop_first(), other) || other == key);
    }
}

/// A key is listed exactly when it reads back a value.
pub proof fn lemma_props_keys_get(ps: Seq<(Seq<char>, Schema)>, key: Seq<char>)
    ensures
        props_keys(ps).contains(key) <==> props_get(ps, key) is Some,
    decreases ps.len(),
{
    if ps.len() > 0 {
        lemma_props_keys_get(ps.drop_first(), key);
        let ks = props_keys(ps);
        assert(props_keys(ps.drop_first()) =~= ks.drop_first());
        assert(ks[0] == ps[0].0);
        if ks.contains(key) {
            let i = choose|i: int| 0 <= i < ks.len() && ks[i] == key;
            if i > 0 {
                assert(ks.drop_first()[i - 1] == key);
            }
        }
        if props_keys(ps.drop_first()).contains(key) {
            let i = choose|i: int| 0 <= i < ks.len() - 1 && ks.drop_first()[i] == key;
            assert(ks[i + 1] == key);
        }
    }
}

/// Inserting keeps the keys in ascending order, and the result holds the key.
pub proof fn lemma_props_insert_sorted(ps: Seq<(Seq<char>, Schema)>, key: Seq<char>, value: Schema)
    requires
        props_sorted(ps),
    ensures
        props_sorted(props_insert(ps, key, value)),
        props_get(props_insert(ps, key, value), key) == Some(value),
        forall|e: (Seq<char>, Schema)| #[trigger] props_insert(ps, key, value).contains(e) ==> e == (key, value) || ps.contains(e),
    decreases ps.len(),
{
    let r = props_insert(ps, key, value);
    if ps.len() == 0 {
    } else if ps[0].0 == key {
        assert forall|i: int, j: int| 0 <= i < j < r.len() implies str_lt(#[trigger] r[i].0, #[trigger] r[j].0) by {
            assert(r[j] == ps[j]);
            if i > 0 {
                assert(r[i] == ps[i]);
            }
        }
        assert forall|e: (Seq<char>, Schema)| #[trigger] r.contains(e) implies e == (key, value) || ps.contains(e) by {
            let k = choose|k: int| 0 <= k < r.len() && r[k] == e;
            if k > 0 {
                assert(ps[k] == e);
            }
        }
    } else if str_lt(key, ps[0].0) {
        assert forall|i: int, j: int| 0 <= i < j < r.len() implies str_lt(#[trigger] r[i].0, #[trigger] r[j].0) by {
            assert(r[j] == ps[j - 1]);
            if i > 0 {
                assert(r[i] == ps[i - 1]);
            } else if j > 1 {
                lemma_str_lt_transitive(key, ps[0].0, ps[j - 1].0);
            }
        }
        assert forall|e: (Seq<char>, Schema)| #[trigger] r.contains(e) implies e == (key, value) || ps.contains(e) by {
            let k = choose|k: int| 0 <= k < r.len() && r[k] == e;
            if k > 0 {
                assert(ps[k - 1] == e);
            }
        }
    } else {
        let rest = ps.drop_first();
        assert(props_sorted(rest)) by {
            assert forall|i: int, j: int| 0 <= i < j < rest.len() implies str_lt(#[trigger] rest[i].0, #[trigger] rest[j].0) by {
                assert(rest[i] == ps[i + 1]);
                assert(rest[j] == ps[j + 1]);
            }
        }
        lemma_props_insert_sorted(rest, key, value);
        let tail = props_insert(rest, key, value);
        lemma_str_lt_total(key, ps[0].0);
        assert(str_lt(ps[0].0, key));
        assert forall|i: int, j: int| 0 <= i < j < r.len() implies str_lt(#[trigger] r[i].0, #[trigger] r[j].0) by {
            assert(r[j] == tail[j - 1]);
            if i > 0 {
                assert(r[i] == tail[i - 1]);
            } else {
                assert(tail.contains(tail[j - 1]));
                if tail[j - 1] != (key, value) {
                    assert(rest.contains(tail[j - 1]));
                    let m = choose|m: int| 0 <= m < rest.len() && rest[m] == tail[j - 1];
                    assert(ps[m + 1] == rest[m]);
                }
            }
        }
        assert forall|e: (Seq<char>, Schema)| #[trigger] r.contains(e) implies e == (key, value) || ps.contains(e) by {
            let k = choose|k: int| 0 <= k < r.len() && r[k] == e;
            if k > 0 {
                assert(tail[k - 1] == e);
                assert(tail.contains(e));
                if e != (key, value) {
                    let m = choose|m: int| 0 <= m < rest.len() && rest[m] == e;
                    assert(ps[m + 1] == e);
                }
            }
        }
        assert(r.drop_first() =~= tail);
    }
}

impl Properties {
    /// An empty property map.
    pub fn new() -> (r: Properties)
        ensures
            r@ == Seq::<(Seq<char>, Schema)>::empty(),
    {
        let r = Properties { entries: Vec::new() };
        assert(r@ =~= Seq::<(Seq<char>, Schema)>::empty());
        r
    }

    /// The number of properties.
    pub fn len(&self) -> (n: usize)
        ensures
            n == self@.len(),
    {
        self.entries.len()
    }

    /// Sets the schema of `key`, keeping keys in ascending order.
    pub fn insert(&mut self, key: String, value: JsonSchema)
        ensures
            final(self)@ == props_insert(old(self)@, key@, value@),
    {
        let n = self.entries.len();
        let ghost v = value@;
        let mut i: usize = 0;
        assert(self@.skip(0) =~= self@);
        assert(self@.take(0) =~= Seq::<(Seq<char>, Schema)>::empty());
        while i < n
            invariant
                n == self.entries.len(),
                self.entries@ == old(self).entries@,
                i <= n,
                v == value@,
                props_insert(self@, key@, v) == self@.take(i as int) + props_insert(
                    self@.skip(i as int),
                    key@,
                    v,
                ),
            decreases n - i,
        {
            let found = str_eq(self.entries[i].0.as_str(), key.as_str());
            let ghost tail = self@.skip(i as int);
            assert(tail[0] == self@[i as int]);
            assert(self@[i as int].0 == self.entries@[i as int].0@);
            if found {
                let ghost old_view = self@;
                self.entries.set(i, (key, value));
                assert(self@ =~= old_view.take(i as int) + (seq![(key@, v)] + tail.drop_first()));
                return;
            }
            let before = str_less(key.as_str(), self.entries[i].0.as_str());
            if before {
                let ghost old_view = self@;
                self.entries.insert(i, (key, value));
                assert(self@ =~= old_view.take(i as int) + (seq![(key@, v)] + tail));
                return;
            }
            assert(tail.drop_first() =~= self@.skip(i + 1));
            assert(self@.take(i + 1) =~= self@.take(i as int) + seq![tail[0]]);
            i = i + 1;
        }
        let ghost old_view = self@;
        self.entries.push((key, value));
        assert(self@ =~= old_view.take(n as int) + seq![(key@, v)]);
        assert(old_view.take(n as int) =~= old_view);
    }

    /// The schema of `key`, if the map has one.
    pub fn get(&self, key: &str) -> (r: Option<&JsonSchema>)
        ensures
            match r {
                Some(s) => props_get(self@, key@) == Some(s@),
                None => props_get(self@, key@) is None,
            },
    {
        let n = self.entries.len();
        let mut i: usize = 0;
        assert(self@.skip(0) =~= self@);
        while i < n
            invariant
                n == self.entries.len(),
                i <= n,
                props_get(self@, key@) == props_get(self@.skip(i as int), key@),
            decreases n - i,
        {
            let ghost tail = self@.skip(i as int);
            assert(tail[0] == self@[i as int]);
            if str_eq(self.entries[i].0.as_str(), key) {
                return Some(&self.entries[i].1);
            }
            assert(tail.drop_first() =~= self@.skip(i + 1));
            i = i + 1;
        }
        None
    }

    /// Whether the map has an entry for `key`.
    pub fn contains_key(&self, key: &str) -> (r: bool)
        ensures
            r == props_get(self@, key@) is Some,
    {
        self.get(key).is_some()
    }
}

/// A copy of `s` with the same content.
pub fn clone_schema(s: &JsonSchema) -> (r: JsonSchema)
    ensures
        r@ == s@,
    decreases s,
{
    match s {
        JsonSchema::Boolean { description } => JsonSchema::Boolean { description: clone_opt_string(description) },
        JsonSchema::String { description } => JsonSchema::String { description: clone_opt_string(description) },
        JsonSchema::Number { description } => JsonSchema::Number { description: clone_opt_string(description) },
        JsonSchema::Array { items, description } => JsonSchema::Array {
            items: Box::new(clone_schema(items)),
            description: clone_opt_string(description),
        },
        JsonSchema::Object { properties, required, additional_properties } => {
            let n = properties.entries.len();
            let mut entries: Vec<(String, JsonSchema)> = Vec::new();
            let mut i: usize = 0;
            #[verifier::loop_isolation(false)]
            while i < n
                invariant
                    n == properties.entries.len(),
                    i <= n,
                    entries.len() == i,
                    forall|j: int|
                        0 <= j < i ==> #[trigger] entries@[j].0@ == properties.entries@[j].0@
                            && entries@[j].1@ == properties.entries@[j].1@,
                decreases n - i,
            {
                assert(decreases_to!(*s => properties.entries@[i as int].1)) by {
                    assert(decreases_to!(*s => *properties));
                    assert(decreases_to!(*properties => properties.entries));
                    assert(decreases_to!(properties.entries => properties.entries@));
                    assert(decreases_to!(properties.entries@ => properties.entries@[i as int]));
                    assert(decreases_to!(properties.entries@[i as int] => properties.entries@[i as int].1));
                }
                let key = owned(properties.entries[i].0.as_str());
                let value = clone_schema(&properties.entries[i].1);
                entries.push((key, value));
                i = i + 1;
            }
            assert(entries_view(entries@) =~= entries_view(properties.entries@));
            let required = match required {
                Some(r) => Some(clone_strings(r)),
                None => None,
            };
            let additional_properties = match additional_properties {
                None => None,
                Some(AdditionalProperties::Boolean(b)) => Some(AdditionalProperties::Boolean(*b)),
                Some(AdditionalProperties::Schema(b)) => Some(AdditionalProperties::Schema(Box::new(clone_schema(b)))),
            };
            JsonSchema::Object { properties: Properties { entries }, required, additional_properties }
        },
    }
}

pub fn clone_opt_string(o: &Option<String>) -> (r: Option<String>)
    ensures
        opt_str(r) == opt_str(*o),
{
    match o {
        Some(s) => Some(owned(s.as_str())),
        None => None,
    }
}

pub fn clone_strings(v: &Vec<String>) -> (r: Vec<String>)
    ensures
        strs(r@) == strs(v@),
{
    let mut r: Vec<String> = Vec::new();
    let mut i: usize = 0;
    while i < v.len()
        invariant
            i <= v.len(),
            r.len() == i,
            forall|j: int| 0 <= j < i ==> #[trigger] r@[j]@ == v@[j]@,
        decreases v.len() - i,
    {
        r.push(owned(v[i].as_str()));
        i = i + 1;
    }
    assert(strs(r@) =~= strs(v@));
    r
}


impl From<bool> for AdditionalProperties {
    fn from(b: bool) -> (r: AdditionalProperties) {
        AdditionalProperties::Boolean(b)
    }
}

impl vstd::std_specs::convert::FromSpecImpl<bool> for AdditionalProperties {
    open spec fn obeys_from_spec() -> bool {
        true
    }

    open spec fn from_spec(v: bool) -> AdditionalProperties {
        AdditionalProperties::Boolean(v)
    }
}

impl From<JsonSchema> for AdditionalProperties {
    fn from(s: JsonSchema) -> (r: AdditionalProperties) {
        AdditionalProperties::Schema(Box::new(s))
    }
}

impl vstd::std_specs::convert::FromSpecImpl<JsonSchema> for AdditionalProperties {
    open spec fn obeys_from_spec() -> bool {
        true
    }

    open spec fn from_spec(v: JsonSchema) -> AdditionalProperties {
        AdditionalProperties::Schema(Box::new(v))
    }
}

}
