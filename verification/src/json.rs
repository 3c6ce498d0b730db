use vstd::prelude::*;

use crate::text::{owned, str_eq};

verus! {

/// A JSON document as the tool-schema logic reads it.
#[derive(Debug, PartialEq)]
pub enum JsonValue {
    Null,
    Bool(bool),
    /// A number, held as its JSON text.
    Number(String),
    Str(String),
    Array(Vec<JsonValue>),
    /// An object: its members in order, each key once.
    Object(Vec<(String, JsonValue)>),
}

/// The mathematical content of a [`JsonValue`].
pub enum Json {
    Null,
    Bool(bool),
    Number(Seq<char>),
    Str(Seq<char>),
    Array(Seq<Json>),
    Object(Seq<(Seq<char>, Json)>),
}

pub open spec fn json_view(v: JsonValue) -> Json
    decreases v,
{
    match v {
        JsonValue::Null => Json::Null,
        JsonValue::Bool(b) => Json::Bool(b),
        JsonValue::Number(n) => Json::Number(n@),
        JsonValue::Str(s) => Json::Str(s@),
        JsonValue::Array(a) => Json::Array(
            Seq::new(a@.len(), |i: int| {
                if 0 <= i < a@.len() {
                    proof {
                        assert(decreases_to!(a => a@[i]));
                    }
                    json_view(a@[i])
                } else {
                    Json::Null
                }
            }),
        ),
        JsonValue::Object(m) => Json::Object(
            Seq::new(m@.len(), |i: int| {
                if 0 <= i < m@.len() {
                    proof {
                        assert(decreases_to!(m => m@[i]));
                        assert(decreases_to!(m@[i] => m@[i].1));
                    }
                    (m@[i].0@, json_view(m@[i].1))
                } else {
                    (Seq::empty(), Json::Null)
                }
            }),
        ),
    }
}

impl View for JsonValue {
    type V = Json;

    open spec fn view(&self) -> Json {
        json_view(*self)
    }
}

pub fn is_null(v: &JsonValue) -> (r: bool)
    ensures r <==> v@ is Null,
{
    match v {
        JsonValue::Null => true,
        _ => false,
    }
}


/// The first member of an object named `key`.
pub open spec fn member(ms: Seq<(Seq<char>, Json)>, key: Seq<char>) -> Option<Json>
    decreases ms.len(),
{
    if ms.len() == 0 {
        None
    } else if ms[0].0 == key {
        Some(ms[0].1)
    } else {
        member(ms.drop_first(), key)
    }
}

/// An object's members after setting `key`: replaced in place, or appended.
pub open spec fn with_member(ms: Seq<(Seq<char>, Json)>, key: Seq<char>, value: Json) -> Seq<(Seq<char>, Json)>
    decreases ms.len(),
{
    if ms.len() == 0 {
        seq![(key, value)]
    } else if ms[0].0 == key {
        seq![(key, value)] + ms.drop_first()
    } else {
        seq![ms[0]] + with_member(ms.drop_first(), key, value)
    }
}

pub open spec fn members_view(m: Seq<(String, JsonValue)>) -> Seq<(Seq<char>, Json)> {
    Seq::new(m.len(), |i: int| (m[i].0@, json_view(m[i].1)))
}

pub proof fn lemma_object_view(m: Vec<(String, JsonValue)>)
    ensures
        JsonValue::Object(m)@ == Json::Object(members_view(m@)),
{
    assert(members_view(m@) =~= match JsonValue::Object(m)@ {
        Json::Object(ms) => ms,
        _ => Seq::empty(),
    });
}

pub proof fn lemma_array_view(a: Vec<JsonValue>)
    ensures
        JsonValue::Array(a)@ == Json::Array(a@.map_values(|x: JsonValue| x@)),
{
    assert(a@.map_values(|x: JsonValue| x@) =~= match JsonValue::Array(a)@ {
        Json::Array(xs) => xs,
        _ => Seq::empty(),
    });
}

/// The member of `m` named `key`, if any.
pub fn get_member<'a>(m: &'a Vec<(String, JsonValue)>, key: &str) -> (r: Option<&'a JsonValue>)
    ensures
        match r {
            Some(v) => member(members_view(m@), key@) == Some(v@),
            None => member(members_view(m@), key@) is None,
        },
{
    let n = m.len();
    let mut i: usize = 0;
    assert(members_view(m@).skip(0) =~= members_view(m@));
    while i < n
        invariant
            n == m.len(),
            i <= n,
            member(members_view(m@), key@) == member(members_view(m@).skip(i as int), key@),
        decreases n - i,
    {
        let ghost tail = members_view(m@).skip(i as int);
        assert(tail[0] == (m@[i as int].0@, m@[i as int].1@));
        if str_eq(m[i].0.as_str(), key) {
            return Some(&m[i].1);
        }
        assert(tail.drop_first() =~= members_view(m@).skip(i + 1));
        i = i + 1;
    }
    None
}

/// Whether `m` has a member named `key`.
pub fn has_member(m: &Vec<(String, JsonValue)>, key: &str) -> (r: bool)
    ensures
        r == member(members_view(m@), key@) is Some,
{
    get_member(m, key).is_some()
}

/// Sets the member `key` of `m` to `value`: in place if `m` has one, else at the end.
pub fn set_member(m: &mut Vec<(String, JsonValue)>, key: String, value: JsonValue)
    ensures
        members_view(final(m)@) == with_member(members_view(old(m)@), key@, value@),
{
    let n = m.len();
    let ghost v = value@;
    let ghost ov = members_view(m@);
    let mut i: usize = 0;
    assert(ov.skip(0) =~= ov);
    assert(ov.take(0) =~= Seq::<(Seq<char>, Json)>::empty());
    while i < n
        invariant
            n == m.len(),
            m@ == old(m)@,
            ov == members_view(m@),
            i <= n,
            v == value@,
            with_member(ov, key@, v) == ov.take(i as int) + with_member(ov.skip(i as int), key@, v),
        decreases n - i,
    {
        let ghost tail = ov.skip(i as int);
        assert(tail[0] == (m@[i as int].0@, m@[i as int].1@));
        if str_eq(m[i].0.as_str(), key.as_str()) {
            m.set(i, (key, value));
            assert(members_view(m@) =~= ov.take(i as int) + (seq![(key@, v)] + tail.drop_first()));
            return;
        }
        assert(tail.drop_first() =~= ov.skip(i + 1));
        assert(ov.take(i + 1) =~= ov.take(i as int) + seq![tail[0]]);
        i = i + 1;
    }
    m.push((key, value));
    assert(members_view(m@) =~= ov.take(n as int) + seq![(key@, v)]);
    assert(ov.take(n as int) =~= ov);
}

/// A copy of `v` with the same content.
pub fn clone_json(v: &JsonValue) -> (r: JsonValue)
    ensures
        r@ == v@,
    decreases v,
{
    match v {
        JsonValue::Null => JsonValue::Null,
        JsonValue::Bool(b) => JsonValue::Bool(*b),
        JsonValue::Number(n) => JsonValue::Number(owned(n.as_str())),
        JsonValue::Str(s) => JsonValue::Str(owned(s.as_str())),
        JsonValue::Array(a) => {
            let mut out: Vec<JsonValue> = Vec::new();
            let mut i: usize = 0;
            #[verifier::loop_isolation(false)]
            while i < a.len()
                invariant
                    i <= a.len(),
                    out.len() == i,
                    forall|j: int| 0 <= j < i ==> #[trigger] out@[j]@ == a@[j]@,
                decreases a.len() - i,
            {
                assert(decreases_to!(*v => a@[i as int])) by {
                    assert(decreases_to!(*v => *a));
                    assert(decreases_to!(*a => a@));
                }
                out.push(clone_json(&a[i]));
                i = i + 1;
            }
            proof {
                lemma_array_view(out);
                lemma_array_view(*a);
                assert(out@.map_values(|x: JsonValue| x@) =~= a@.map_values(|x: JsonValue| x@));
            }
            JsonValue::Array(out)
        },
        JsonValue::Object(m) => {
            let mut out: Vec<(String, JsonValue)> = Vec::new();
            let mut i: usize = 0;
            #[verifier::loop_isolation(false)]
            while i < m.len()
                invariant
                    i <= m.len(),
                    out.len() == i,
                    forall|j: int|
                        0 <= j < i ==> #[trigger] out@[j].0@ == m@[j].0@ && out@[j].1@ == m@[j].1@,
                decreases m.len() - i,
            {
                assert(decreases_to!(*v => m@[i as int].1)) by {
                    assert(decreases_to!(*v => *m));
                    assert(decreases_to!(*m => m@));
                    assert(decreases_to!(m@ => m@[i as int]));
                }
                let key = owned(m[i].0.as_str());
                let value = clone_json(&m[i].1);
                out.push((key, value));
                i = i + 1;
            }
            proof {
                lemma_object_view(out);
                lemma_object_view(*m);
                assert(members_view(out@) =~= members_view(m@));
            }
            JsonValue::Object(out)
        },
    }
}

}
