use vstd::prelude::*;

use crate::code_mode::{
    code_mode_tool_reference, mcp_module_file, normalize_code_mode_identifier, normalized_identifier,
    split_qualified, TOOLS_MODULE,
};
use crate::json::{Json, JsonValue};
use crate::sorting::{keyed, lemma_sort_by_key_sorted, sort_by_key, sort_by_name, sorted_by_key};
use crate::text::{lemma_str_lt_total, lemma_str_lt_transitive, str_lt};
use crate::strings::{decimal, decimal_string};
use crate::text::{owned, str_eq};
use crate::texts;
use crate::tool::{tool_name, Tool, ToolSpec};
use crate::typescript::{json_literal, json_literal_text};

verus! {

/// How code mode calls a nested tool.
#[derive(Debug, Clone, Copy, PartialEq, Eq, Structural)]
pub enum CodeModeToolKind {
    Function,
    Freeform,
}

/// A tool that code mode scripts may call, as the script runner learns of it.
pub struct EnabledTool {
    pub tool_name: String,
    pub global_name: String,
    pub module_file: String,
    pub namespace: Vec<String>,
    pub name: String,
    pub description: String,
    pub kind: CodeModeToolKind,
}

/// The content of an [`EnabledTool`].
pub struct EnabledToolView {
    pub tool_name: Seq<char>,
    pub global_name: Seq<char>,
    pub module_file: Seq<char>,
    pub namespace: Seq<Seq<char>>,
    pub name: Seq<char>,
    pub description: Seq<char>,
    pub kind: CodeModeToolKind,
}

impl View for EnabledTool {
    type V = EnabledToolView;

    open spec fn view(&self) -> EnabledToolView {
        EnabledToolView {
            tool_name: self.tool_name@,
            global_name: self.global_name@,
            module_file: self.module_file@,
            namespace: self.namespace@.map_values(|s: String| s@),
            name: self.name@,
            description: self.description@,
            kind: self.kind,
        }
    }
}

/// What code mode knows of a tool it may call: none for its own tools and for tools
/// that are neither function nor freeform tools.
pub open spec fn enabled_tool_view(t: Tool) -> Option<EnabledToolView> {
    let name = tool_name(t);
    if name == texts::PUBLIC_TOOL_NAME@ || name == texts::WAIT_TOOL_NAME@ {
        None
    } else {
        let (module_file, namespace, key) = match split_qualified(name) {
            Some((server, key)) => (mcp_module_file(server), seq![crate::code_mode::MCP_NAMESPACE@, server], key),
            None => (TOOLS_MODULE@, Seq::<Seq<char>>::empty(), name),
        };
        match t {
            Tool::Function(f) => Some(
                EnabledToolView {
                    tool_name: name,
                    global_name: normalized_identifier(name),
                    module_file,
                    namespace,
                    name: normalized_identifier(key),
                    description: f.description,
                    kind: CodeModeToolKind::Function,
                },
            ),
            Tool::Freeform(f) => Some(
                EnabledToolView {
                    tool_name: name,
                    global_name: normalized_identifier(name),
                    module_file,
                    namespace,
                    name: normalized_identifier(key),
                    description: f.description,
                    kind: CodeModeToolKind::Freeform,
                },
            ),
            _ => None,
        }
    }
}

/// Code mode knows exactly the tools it can call ([`crate::toolset::is_nested`]),
/// each under its own name, with its description, as a freeform tool exactly
/// when it is one.
pub proof fn lemma_enabled_tool_view(t: Tool)
    ensures
        enabled_tool_view(t) is None <==> !crate::toolset::is_nested(t),
        enabled_tool_view(t) matches Some(e) ==> e.tool_name == tool_name(t) && e.global_name == normalized_identifier(
            tool_name(t),
        ) && (e.kind == CodeModeToolKind::Freeform <==> t is Freeform) && match t {
            Tool::Function(f) => e.description == f.description,
            Tool::Freeform(f) => e.description == f.description,
            _ => false,
        },
{
}

/// What code mode knows of the tool `spec`: see [`enabled_tool_view`].
pub fn enabled_tool_from_spec(spec: ToolSpec) -> (r: Option<EnabledTool>)
    ensures
        match r {
            Some(e) => enabled_tool_view(spec@) == Some(e@),
            None => enabled_tool_view(spec@) is None,
        },
{
    let ghost sv = spec@;
    let tool_name = owned(spec.name());
    if str_eq(tool_name.as_str(), texts::PUBLIC_TOOL_NAME) || str_eq(tool_name.as_str(), texts::WAIT_TOOL_NAME) {
        return None;
    }
    let reference = code_mode_tool_reference(tool_name.as_str());
    let (description, kind) = match spec {
        ToolSpec::Function(tool) => (tool.description, CodeModeToolKind::Function),
        ToolSpec::Freeform(tool) => (tool.description, CodeModeToolKind::Freeform),
        _ => {
            return None;
        },
    };
    let global_name = normalize_code_mode_identifier(tool_name.as_str());
    let name = normalize_code_mode_identifier(reference.tool_key.as_str());
    let r = EnabledTool {
        global_name,
        tool_name,
        module_file: reference.module_file,
        namespace: reference.namespace,
        name,
        description,
        kind,
    };
    assert(r@.namespace =~= match split_qualified(crate::tool::tool_name(sv)) {
        Some((server, _)) => seq![crate::code_mode::MCP_NAMESPACE@, server],
        None => Seq::<Seq<char>>::empty(),
    });
    Some(r)
}


/// The enabled tools in the order given, each keyed by its name.
pub open spec fn enabled_in_order(ts: Seq<Tool>) -> Seq<(Seq<char>, EnabledToolView)>
    decreases ts.len(),
{
    if ts.len() == 0 {
        Seq::empty()
    } else {
        let rest = enabled_in_order(ts.drop_last());
        match enabled_tool_view(crate::code_mode::augmented(ts.last(), true)) {
            Some(e) => rest.push((e.tool_name, e)),
            None => rest,
        }
    }
}

/// All but the first of each run of entries with equal keys dropped.
pub open spec fn dedup_by_key<T>(s: Seq<(Seq<char>, T)>) -> Seq<(Seq<char>, T)>
    decreases s.len(),
{
    if s.len() == 0 {
        Seq::empty()
    } else {
        let rest = dedup_by_key(s.drop_last());
        if rest.len() > 0 && rest.last().0 == s.last().0 {
            rest
        } else {
            rest.push(s.last())
        }
    }
}

proof fn lemma_dedup_sorted<T>(s: Seq<(Seq<char>, T)>)
    requires
        sorted_by_key(s),
    ensures
        forall|i: int, j: int| 0 <= i < j < dedup_by_key(s).len() ==> str_lt(
            #[trigger] dedup_by_key(s)[i].0,
            #[trigger] dedup_by_key(s)[j].0,
        ),
        s.len() > 0 ==> dedup_by_key(s).len() > 0 && dedup_by_key(s).last().0 == s.last().0,
    decreases s.len(),
{
    if s.len() > 0 {
        let init = s.drop_last();
        assert forall|i: int, j: int| 0 <= i < j < init.len() implies !str_lt(#[trigger] init[j].0, #[trigger] init[i].0) by {
            assert(init[i] == s[i] && init[j] == s[j]);
        }
        lemma_dedup_sorted(init);
        let d0 = dedup_by_key(init);
        let d = dedup_by_key(s);
        let x = s.last();
        if !(d0.len() > 0 && d0.last().0 == x.0) {
            if init.len() > 0 {
                let y = init.last();
                assert(y == s[s.len() - 2]);
                assert(!str_lt(x.0, y.0));
                lemma_str_lt_total(y.0, x.0);
                assert(str_lt(y.0, x.0));
                assert forall|i: int| 0 <= i < d0.len() implies str_lt(#[trigger] d0[i].0, x.0) by {
                    if i < d0.len() - 1 {
                        lemma_str_lt_transitive(d0[i].0, y.0, x.0);
                    }
                }
            }
            assert forall|i: int, j: int| 0 <= i < j < d.len() implies str_lt(#[trigger] d[i].0, #[trigger] d[j].0) by {
                assert(d[i] == d0[i]);
                if j < d.len() - 1 {
                    assert(d[j] == d0[j]);
                }
            }
        }
    }
}

proof fn lemma_dedup_members<T>(s: Seq<(Seq<char>, T)>)
    ensures
        forall|i: int| 0 <= i < dedup_by_key(s).len() ==> s.contains(#[trigger] dedup_by_key(s)[i]),
    decreases s.len(),
{
    if s.len() > 0 {
        let init = s.drop_last();
        lemma_dedup_members(init);
        let d0 = dedup_by_key(init);
        let d = dedup_by_key(s);
        assert forall|i: int| 0 <= i < d.len() implies s.contains(#[trigger] d[i]) by {
            if i < d0.len() {
                assert(d[i] == d0[i]);
                assert(init.contains(d0[i]));
                let m = choose|m: int| 0 <= m < init.len() && init[m] == d0[i];
                assert(s[m] == init[m]);
            } else {
                assert(s[s.len() - 1] == d[i]);
            }
        }
    }
}

proof fn lemma_dedup_keys<T>(s: Seq<(Seq<char>, T)>)
    ensures
        forall|m: int| #![trigger s[m]] 0 <= m < s.len() ==> exists|i: int|
            0 <= i < dedup_by_key(s).len() && #[trigger] dedup_by_key(s)[i].0 == s[m].0,
    decreases s.len(),
{
    if s.len() > 0 {
        let init = s.drop_last();
        lemma_dedup_keys(init);
        let d0 = dedup_by_key(init);
        let d = dedup_by_key(s);
        assert forall|m: int| #![trigger s[m]] 0 <= m < s.len() implies exists|i: int|
            0 <= i < d.len() && #[trigger] d[i].0 == s[m].0 by {
            if m < s.len() - 1 {
                assert(init[m] == s[m]);
                let i = choose|i: int| 0 <= i < d0.len() && #[trigger] d0[i].0 == init[m].0;
                assert(d[i] == d0[i]);
            } else {
                assert(d[d.len() - 1].0 == s[m].0);
            }
        }
    }
}

proof fn lemma_enabled_in_order(ts: Seq<Tool>)
    ensures
        forall|i: int| 0 <= i < enabled_in_order(ts).len() ==> (#[trigger] enabled_in_order(ts)[i]).0
            == enabled_in_order(ts)[i].1.tool_name,
        forall|k: int| 0 <= k < ts.len() && #[trigger] enabled_tool_view(crate::code_mode::augmented(ts[k], true)) is Some
            ==> enabled_in_order(ts).contains(
            {
                let e = enabled_tool_view(crate::code_mode::augmented(ts[k], true)).unwrap();
                (e.tool_name, e)
            },
        ),
    decreases ts.len(),
{
    if ts.len() > 0 {
        let init = ts.drop_last();
        lemma_enabled_in_order(init);
        let rest = enabled_in_order(init);
        let r = enabled_in_order(ts);
        assert forall|k: int| 0 <= k < ts.len() && #[trigger] enabled_tool_view(crate::code_mode::augmented(ts[k], true)) is Some
            implies r.contains(
            {
                let e = enabled_tool_view(crate::code_mode::augmented(ts[k], true)).unwrap();
                (e.tool_name, e)
            },
        ) by {
            let e = enabled_tool_view(crate::code_mode::augmented(ts[k], true)).unwrap();
            if k < ts.len() - 1 {
                assert(init[k] == ts[k]);
                assert(rest.contains((e.tool_name, e)));
                let m = choose|m: int| 0 <= m < rest.len() && rest[m] == (e.tool_name, e);
                assert(r[m] == rest[m]);
            } else {
                assert(r[r.len() - 1] == (e.tool_name, e));
            }
        }
    }
}

/// The tools a code mode script may call come in ascending order of name, each name
/// once, and every tool of the session that code mode may call is among them.
pub proof fn lemma_enabled_tools_sorted(ts: Seq<Tool>)
    ensures
        forall|i: int, j: int| 0 <= i < j < enabled_tools_view(ts).len() ==> str_lt(
            (#[trigger] enabled_tools_view(ts)[i]).tool_name,
            (#[trigger] enabled_tools_view(ts)[j]).tool_name,
        ),
        forall|k: int| 0 <= k < ts.len() && #[trigger] enabled_tool_view(crate::code_mode::augmented(ts[k], true)) is Some
            ==> exists|i: int| 0 <= i < enabled_tools_view(ts).len() && (#[trigger] enabled_tools_view(ts)[i]).tool_name
            == enabled_tool_view(crate::code_mode::augmented(ts[k], true)).unwrap().tool_name,
{
    broadcast use vstd::seq_lib::group_to_multiset_ensures;

    let e = enabled_in_order(ts);
    let sorted = sort_by_key(e);
    let d = dedup_by_key(sorted);
    let v = enabled_tools_view(ts);
    assert(forall|i: int| 0 <= i < sorted.len() ==> (#[trigger] sorted[i]).0 == sorted[i].1.tool_name) by {
        broadcast use vstd::seq_lib::group_to_multiset_ensures;

        lemma_enabled_in_order(ts);
        lemma_sort_by_key_sorted(e);
        assert forall|i: int| 0 <= i < sorted.len() implies (#[trigger] sorted[i]).0 == sorted[i].1.tool_name by {
            assert(sorted.to_multiset().count(sorted[i]) > 0);
            assert(e.contains(sorted[i]));
            let m = choose|m: int| 0 <= m < e.len() && e[m] == sorted[i];
            assert(e[m].0 == e[m].1.tool_name);
        }
    }
    assert(forall|i: int| 0 <= i < d.len() ==> (#[trigger] d[i]).0 == d[i].1.tool_name && v[i] == d[i].1) by {
        lemma_dedup_members(sorted);
        assert forall|i: int| 0 <= i < d.len() implies (#[trigger] d[i]).0 == d[i].1.tool_name && v[i] == d[i].1 by {
            assert(sorted.contains(d[i]));
            let m = choose|m: int| 0 <= m < sorted.len() && sorted[m] == d[i];
            assert(sorted[m].0 == sorted[m].1.tool_name);
        }
    }
    assert forall|i: int, j: int| 0 <= i < j < v.len() implies str_lt(
        (#[trigger] v[i]).tool_name,
        (#[trigger] v[j]).tool_name,
    ) by {
        lemma_sort_by_key_sorted(e);
        lemma_dedup_sorted(sorted);
        assert(str_lt(d[i].0, d[j].0));
        assert(d[i].0 == d[i].1.tool_name && v[i] == d[i].1);
        assert(d[j].0 == d[j].1.tool_name && v[j] == d[j].1);
    }
    assert forall|k: int| 0 <= k < ts.len() && #[trigger] enabled_tool_view(crate::code_mode::augmented(ts[k], true)) is Some
        implies exists|i: int| 0 <= i < v.len() && (#[trigger] v[i]).tool_name
        == enabled_tool_view(crate::code_mode::augmented(ts[k], true)).unwrap().tool_name by {
        broadcast use vstd::seq_lib::group_to_multiset_ensures;

        let x = enabled_tool_view(crate::code_mode::augmented(ts[k], true)).unwrap();
        lemma_enabled_in_order(ts);
        lemma_sort_by_key_sorted(e);
        assert(e.contains((x.tool_name, x)));
        assert(e.to_multiset().count((x.tool_name, x)) > 0);
        assert(sorted.contains((x.tool_name, x)));
        let m = choose|m: int| 0 <= m < sorted.len() && sorted[m] == (x.tool_name, x);
        lemma_dedup_keys(sorted);
        let i = choose|i: int| 0 <= i < d.len() && #[trigger] d[i].0 == sorted[m].0;
        assert(d[i].0 == d[i].1.tool_name && v[i] == d[i].1);
    }
}

/// The tools a code mode script may call: each tool as code mode shows it, sorted by
/// name, the first of each name kept.
pub open spec fn enabled_tools_view(ts: Seq<Tool>) -> Seq<EnabledToolView> {
    dedup_by_key(sort_by_key(enabled_in_order(ts))).map_values(|e: (Seq<char>, EnabledToolView)| e.1)
}

pub open spec fn tools_of(specs: Seq<ToolSpec>) -> Seq<Tool> {
    specs.map_values(|t: ToolSpec| t@)
}

/// The tools a code mode script may call, from the tools of its session: see
/// [`enabled_tools_view`].
pub fn enabled_tools_from_specs(specs: &Vec<ToolSpec>) -> (r: Vec<EnabledTool>)
    ensures
        r@.map_values(|e: EnabledTool| e@) == enabled_tools_view(tools_of(specs@)),
{
    let ghost ts = tools_of(specs@);
    let mut found: Vec<(String, EnabledTool)> = Vec::new();
    let mut i: usize = 0;
    let ghost f = |e: EnabledTool| e@;
    assert(ts.take(0) =~= Seq::<Tool>::empty());
    while i < specs.len()
        invariant
            i <= specs.len(),
            ts == tools_of(specs@),
            f == (|e: EnabledTool| e@),
            crate::sorting::map_entries(keyed(found@), f) == enabled_in_order(ts.take(i as int)),
        decreases specs.len() - i,
    {
        assert(ts.take(i + 1).drop_last() =~= ts.take(i as int));
        assert(ts.take(i + 1).last() == specs@[i as int]@);
        let ghost before = crate::sorting::map_entries(keyed(found@), f);
        let spec = crate::code_mode::augment_tool_spec_for_code_mode(crate::tool::clone_tool_spec(&specs[i]), true);
        match enabled_tool_from_spec(spec) {
            Some(e) => {
                let key = owned(e.tool_name.as_str());
                found.push((key, e));
                assert(crate::sorting::map_entries(keyed(found@), f) =~= before.push((e@.tool_name, e@)));
            },
            None => {},
        }
        i = i + 1;
    }
    assert(ts.take(specs.len() as int) =~= ts);
    let ghost unsorted = keyed(found@);
    let sorted = sort_by_name(found);
    proof {
        crate::sorting::lemma_sort_by_key_map(unsorted, f);
    }
    let ghost es = crate::sorting::map_entries(keyed(sorted@), f);
    assert(es == sort_by_key(enabled_in_order(ts)));
    let mut rest = sorted;
    let mut out: Vec<EnabledTool> = Vec::new();
    let mut kept: Vec<String> = Vec::new();
    let n = rest.len();
    let mut k: usize = 0;
    assert(es.take(0) =~= Seq::<(Seq<char>, EnabledToolView)>::empty());
    assert(es.skip(0) =~= es);
    while k < n
        invariant
            k <= n,
            n == es.len(),
            f == (|e: EnabledTool| e@),
            rest.len() == n - k,
            crate::sorting::map_entries(keyed(rest@), f) == es.skip(k as int),
            kept.len() == out.len(),
            dedup_by_key(es.take(k as int)).map_values(|e: (Seq<char>, EnabledToolView)| e.1)
                == out@.map_values(|e: EnabledTool| e@),
            dedup_by_key(es.take(k as int)).len() == out.len(),
            forall|j: int| 0 <= j < out.len() ==> #[trigger] dedup_by_key(es.take(k as int))[j].0 == kept@[j]@,
        decreases n - k,
    {
        let ghost before_rest = crate::sorting::map_entries(keyed(rest@), f);
        let ghost d0 = dedup_by_key(es.take(k as int));
        let x = rest.remove(0);
        assert(before_rest[0] == (x.0@, x.1@));
        assert(crate::sorting::map_entries(keyed(rest@), f) =~= before_rest.drop_first());
        assert(es.skip(k + 1) =~= before_rest.drop_first());
        assert(es.take(k + 1).drop_last() =~= es.take(k as int));
        assert(es.take(k + 1).last() == es[k as int]);
        assert(es[k as int] == before_rest[0]);
        let ghost before_out = out@.map_values(|e: EnabledTool| e@);
        let duplicate = out.len() > 0 && str_eq(kept[out.len() - 1].as_str(), x.0.as_str());
        if !duplicate {
            kept.push(owned(x.0.as_str()));
            out.push(x.1);
            assert(out@.map_values(|e: EnabledTool| e@) =~= before_out.push(x.1@));
            assert(dedup_by_key(es.take(k + 1)) =~= d0.push(es[k as int]));
        } else {
            assert(d0.last().0 == kept@[out.len() - 1]@);
        }
        k = k + 1;
    }
    assert(es.take(n as int) =~= es);
    out
}

/// How code mode calls `spec`.
pub fn tool_kind_for_spec(spec: &ToolSpec) -> (r: CodeModeToolKind)
    ensures
        r == (if spec@ is Freeform {
            CodeModeToolKind::Freeform
        } else {
            CodeModeToolKind::Function
        }),
{
    match spec {
        ToolSpec::Freeform(_) => CodeModeToolKind::Freeform,
        _ => CodeModeToolKind::Function,
    }
}

/// The first of `ts` named `name`.
pub open spec fn first_named(ts: Seq<Tool>, name: Seq<char>) -> Option<Tool>
    decreases ts.len(),
{
    if ts.len() == 0 {
        None
    } else if tool_name(ts[0]) == name {
        Some(ts[0])
    } else {
        first_named(ts.drop_first(), name)
    }
}

/// The tool found under a name is the first one that carries it; there is one
/// exactly when some tool carries the name.
pub proof fn lemma_first_named(ts: Seq<Tool>, name: Seq<char>)
    ensures
        first_named(ts, name) is None <==> forall|i: int| 0 <= i < ts.len() ==> tool_name(#[trigger] ts[i]) != name,
        first_named(ts, name) matches Some(t) ==> exists|i: int|
            0 <= i < ts.len() && ts[i] == t && tool_name(t) == name && forall|j: int|
                0 <= j < i ==> tool_name(#[trigger] ts[j]) != name,
    decreases ts.len(),
{
    if ts.len() > 0 {
        let rest = ts.drop_first();
        lemma_first_named(rest, name);
        if tool_name(ts[0]) != name {
            assert forall|i: int| 0 < i < ts.len() implies #[trigger] ts[i] == rest[i - 1] by {}
            if first_named(rest, name) is None {
                assert forall|i: int| 0 <= i < ts.len() implies tool_name(#[trigger] ts[i]) != name by {
                    if i > 0 {
                        assert(ts[i] == rest[i - 1]);
                    }
                }
            } else {
                let t = first_named(rest, name)->0;
                let k = choose|k: int|
                    0 <= k < rest.len() && rest[k] == t && tool_name(t) == name && forall|j: int|
                        0 <= j < k ==> tool_name(#[trigger] rest[j]) != name;
                assert(ts[k + 1] == t);
                assert forall|j: int| 0 <= j < k + 1 implies tool_name(#[trigger] ts[j]) != name by {
                    if j > 0 {
                        assert(ts[j] == rest[j - 1]);
                    }
                }
                assert(rest.len() > 0 && tool_name(ts[k + 1]) == name);
            }
        }
    }
}

pub const NOT_ENABLED_HEAD: &'static str = "tool `";
pub const NOT_ENABLED_TAIL: &'static str = "` is not enabled in ";

/// "tool `{name}` is not enabled in exec".
pub open spec fn not_enabled_message(name: Seq<char>) -> Seq<char> {
    NOT_ENABLED_HEAD@ + name + NOT_ENABLED_TAIL@ + texts::PUBLIC_TOOL_NAME@
}

/// How code mode calls the tool named `tool_name`, or why it cannot.
pub fn tool_kind_for_name(specs: &Vec<ToolSpec>, tool_name: &str) -> (r: Result<CodeModeToolKind, String>)
    ensures
        match first_named(tools_of(specs@), tool_name@) {
            Some(t) => r == Ok::<CodeModeToolKind, String>(
                if t is Freeform {
                    CodeModeToolKind::Freeform
                } else {
                    CodeModeToolKind::Function
                },
            ),
            None => r matches Err(e) && e@ == not_enabled_message(tool_name@),
        },
{
    let ghost ts = tools_of(specs@);
    let mut i: usize = 0;
    assert(ts.skip(0) =~= ts);
    while i < specs.len()
        invariant
            i <= specs.len(),
            ts == tools_of(specs@),
            first_named(ts, tool_name@) == first_named(ts.skip(i as int), tool_name@),
        decreases specs.len() - i,
    {
        assert(ts.skip(i as int)[0] == specs@[i as int]@);
        if str_eq(specs[i].name(), tool_name) {
            return Ok(tool_kind_for_spec(&specs[i]));
        }
        assert(ts.skip(i as int).drop_first() =~= ts.skip(i + 1));
        i = i + 1;
    }
    let mut e = owned(NOT_ENABLED_HEAD);
    e.append(tool_name);
    e.append(NOT_ENABLED_TAIL);
    e.append(texts::PUBLIC_TOOL_NAME);
    Err(e)
}


/// What a tool call carries.
#[derive(Debug, PartialEq)]
pub enum ToolPayload {
    /// JSON arguments of a function tool.
    Function { arguments: String },
    /// The raw input of a freeform tool.
    Custom { input: String },
    /// A call of a tool of an MCP server.
    Mcp { server: String, tool: String, raw_arguments: String },
}

/// The content of a [`ToolPayload`].
pub enum PayloadView {
    Function { arguments: Seq<char> },
    Custom { input: Seq<char> },
    Mcp { server: Seq<char>, tool: Seq<char>, raw_arguments: Seq<char> },
}

impl View for ToolPayload {
    type V = PayloadView;

    open spec fn view(&self) -> PayloadView {
        match self {
            ToolPayload::Function { arguments } => PayloadView::Function { arguments: arguments@ },
            ToolPayload::Custom { input } => PayloadView::Custom { input: input@ },
            ToolPayload::Mcp { server, tool, raw_arguments } => PayloadView::Mcp {
                server: server@,
                tool: tool@,
                raw_arguments: raw_arguments@,
            },
        }
    }
}

pub const EMPTY_ARGUMENTS: &'static str = "{}";
pub const TOOL_HEAD: &'static str = "tool `";
pub const EXPECTS_OBJECT: &'static str = "` expects a JSON object for arguments";
pub const EXPECTS_STRING: &'static str = "` expects a string input";

/// The JSON arguments handed to a function tool: `{}` when there is no input, the
/// input's JSON text when it is an object, else the error.
pub open spec fn function_arguments(tool_name: Seq<char>, input: Option<Json>) -> Result<Seq<char>, Seq<char>> {
    match input {
        None => Ok(EMPTY_ARGUMENTS@),
        Some(Json::Object(ms)) => Ok(json_literal(Json::Object(ms))),
        Some(_) => Err(TOOL_HEAD@ + tool_name + EXPECTS_OBJECT@),
    }
}

pub open spec fn opt_json(input: Option<JsonValue>) -> Option<Json> {
    match input {
        Some(v) => Some(v@),
        None => None,
    }
}

/// The JSON arguments a code mode script hands to a function tool: see
/// [`function_arguments`].
pub fn serialize_function_tool_arguments(tool_name: &str, input: Option<JsonValue>) -> (r: Result<String, String>)
    ensures
        match r {
            Ok(a) => function_arguments(tool_name@, opt_json(input)) == Ok::<Seq<char>, Seq<char>>(a@),
            Err(e) => function_arguments(tool_name@, opt_json(input)) == Err::<Seq<char>, Seq<char>>(e@),
        },
{
    match input {
        None => Ok(owned(EMPTY_ARGUMENTS)),
        Some(v) => {
            let is_object = match &v {
                JsonValue::Object(m) => {
                    proof {
                        crate::json::lemma_object_view(*m);
                    }
                    true
                },
                JsonValue::Array(a) => {
                    proof {
                        crate::json::lemma_array_view(*a);
                    }
                    false
                },
                JsonValue::Null => {
                    assert(v@ == Json::Null);
                    false
                },
                JsonValue::Bool(b) => {
                    assert(v@ == Json::Bool(*b));
                    false
                },
                JsonValue::Number(t) => {
                    assert(v@ == Json::Number(t@));
                    false
                },
                JsonValue::Str(t) => {
                    assert(v@ == Json::Str(t@));
                    false
                },
            };
            if is_object {
                Ok(json_literal_text(&v))
            } else {
                let mut e = owned(TOOL_HEAD);
                e.append(tool_name);
                e.append(EXPECTS_OBJECT);
                Err(e)
            }
        },
    }
}

/// The payload of a code mode call of a function tool.
pub fn build_function_tool_payload(tool_name: &str, input: Option<JsonValue>) -> (r: Result<ToolPayload, String>)
    ensures
        match r {
            Ok(p) => function_arguments(tool_name@, opt_json(input)) matches Ok(a)
                && p@ == (PayloadView::Function { arguments: a }),
            Err(e) => function_arguments(tool_name@, opt_json(input)) == Err::<Seq<char>, Seq<char>>(e@),
        },
{
    let arguments = serialize_function_tool_arguments(tool_name, input)?;
    Ok(ToolPayload::Function { arguments })
}

/// The payload of a code mode call of a freeform tool: its input must be a string.
pub fn build_freeform_tool_payload(tool_name: &str, input: Option<JsonValue>) -> (r: Result<ToolPayload, String>)
    ensures
        match opt_json(input) {
            Some(Json::Str(s)) => r matches Ok(p) && p@ == (PayloadView::Custom { input: s }),
            _ => r matches Err(e) && e@ == TOOL_HEAD@ + tool_name@ + EXPECTS_STRING@,
        },
{
    match input {
        Some(JsonValue::Str(s)) => Ok(ToolPayload::Custom { input: s }),
        other => {
            match &other {
                Some(JsonValue::Array(a)) => {
                    proof {
                        crate::json::lemma_array_view(*a);
                    }
                },
                Some(JsonValue::Object(m)) => {
                    proof {
                        crate::json::lemma_object_view(*m);
                    }
                },
                Some(JsonValue::Null) => {
                    assert(other.unwrap()@ == Json::Null);
                },
                Some(JsonValue::Bool(b)) => {
                    assert(other.unwrap()@ == Json::Bool(*b));
                },
                Some(JsonValue::Number(t)) => {
                    assert(other.unwrap()@ == Json::Number(t@));
                },
                _ => {},
            }
            let mut e = owned(TOOL_HEAD);
            e.append(tool_name);
            e.append(EXPECTS_STRING);
            Err(e)
        },
    }
}

/// The payload of a code mode call of a tool of its session: by the kind of the first
/// tool with that name, or the error when there is none.
pub fn build_nested_tool_payload(specs: &Vec<ToolSpec>, tool_name: &str, input: Option<JsonValue>) -> (r: Result<ToolPayload, String>)
    ensures
        match first_named(tools_of(specs@), tool_name@) {
            None => r matches Err(e) && e@ == not_enabled_message(tool_name@),
            Some(Tool::Freeform(_)) => match opt_json(input) {
                Some(Json::Str(s)) => r matches Ok(p) && p@ == (PayloadView::Custom { input: s }),
                _ => r matches Err(e) && e@ == TOOL_HEAD@ + tool_name@ + EXPECTS_STRING@,
            },
            Some(_) => match r {
                Ok(p) => function_arguments(tool_name@, opt_json(input)) matches Ok(a)
                    && p@ == (PayloadView::Function { arguments: a }),
                Err(e) => function_arguments(tool_name@, opt_json(input)) == Err::<Seq<char>, Seq<char>>(e@),
            },
        },
{
    let kind = tool_kind_for_name(specs, tool_name)?;
    match kind {
        CodeModeToolKind::Function => build_function_tool_payload(tool_name, input),
        CodeModeToolKind::Freeform => build_freeform_tool_payload(tool_name, input),
    }
}

/// How the registry classes a handler.
#[derive(Debug, Clone, Copy, PartialEq, Eq, Structural)]
pub enum ToolKind {
    Function,
    Mcp,
}

pub const EXEC_EXPECTS_SOURCE: &'static str = " expects raw JavaScript source text";
pub const WAIT_EXPECTS_JSON: &'static str = " expects JSON arguments";

/// Handles calls of the code mode tool, which run a script.
pub struct CodeModeExecuteHandler;

impl CodeModeExecuteHandler {
    pub fn kind(&self) -> (r: ToolKind)
        ensures
            r == ToolKind::Function,
    {
        ToolKind::Function
    }

    /// Whether the handler takes this payload: it takes raw input only.
    pub fn matches_kind(&self, payload: &ToolPayload) -> (r: bool)
        ensures
            r == (payload@ is Custom),
    {
        match payload {
            ToolPayload::Custom { .. } => true,
            _ => false,
        }
    }

    /// The script that a call runs, or the error the model is answered with: only a
    /// raw-input call of `exec` runs a script.
    pub fn script_for_call(&self, tool_name: &str, payload: ToolPayload) -> (r: Result<String, String>)
        ensures
            match payload@ {
                PayloadView::Custom { input } => if tool_name@ == texts::PUBLIC_TOOL_NAME@ {
                    r matches Ok(s) && s@ == input
                } else {
                    r matches Err(e) && e@ == texts::PUBLIC_TOOL_NAME@ + EXEC_EXPECTS_SOURCE@
                },
                _ => r matches Err(e) && e@ == texts::PUBLIC_TOOL_NAME@ + EXEC_EXPECTS_SOURCE@,
            },
    {
        match payload {
            ToolPayload::Custom { input } => {
                if str_eq(tool_name, texts::PUBLIC_TOOL_NAME) {
                    return Ok(input);
                }
            },
            _ => {},
        }
        let mut e = owned(texts::PUBLIC_TOOL_NAME);
        e.append(EXEC_EXPECTS_SOURCE);
        Err(e)
    }
}

/// Handles calls of the tool that waits on a code mode cell.
pub struct CodeModeWaitHandler;

/// What waiting on a cell asks of the script runner.
#[derive(Debug, PartialEq)]
pub enum WaitAction {
    Terminate { cell_id: String },
    Poll { cell_id: String, yield_time_ms: u64 },
}

/// The arguments of a wait call.
#[derive(Debug, PartialEq)]
pub struct ExecWaitArgs {
    pub cell_id: String,
    pub yield_time_ms: u64,
    pub max_tokens: Option<u64>,
    pub terminate: bool,
}

pub const DEFAULT_WAIT_YIELD_TIME_MS: u64 = 10_000;

/// How long a wait yields by default.
pub fn default_wait_yield_time_ms() -> (r: u64)
    ensures
        r == DEFAULT_WAIT_YIELD_TIME_MS,
{
    DEFAULT_WAIT_YIELD_TIME_MS
}

impl CodeModeWaitHandler {
    pub fn kind(&self) -> (r: ToolKind)
        ensures
            r == ToolKind::Function,
    {
        ToolKind::Function
    }

    /// The JSON arguments of a call, or the error the model is answered with: only a
    /// function call of `exec_wait` is taken.
    pub fn arguments_for_call<'a>(&self, tool_name: &str, payload: &'a ToolPayload) -> (r: Result<&'a str, String>)
        ensures
            match payload@ {
                PayloadView::Function { arguments } => if tool_name@ == texts::WAIT_TOOL_NAME@ {
                    r matches Ok(s) && s@ == arguments
                } else {
                    r matches Err(e) && e@ == texts::WAIT_TOOL_NAME@ + WAIT_EXPECTS_JSON@
                },
                _ => r matches Err(e) && e@ == texts::WAIT_TOOL_NAME@ + WAIT_EXPECTS_JSON@,
            },
    {
        match payload {
            ToolPayload::Function { arguments } => {
                if str_eq(tool_name, texts::WAIT_TOOL_NAME) {
                    return Ok(arguments.as_str());
                }
            },
            _ => {},
        }
        let mut e = owned(texts::WAIT_TOOL_NAME);
        e.append(WAIT_EXPECTS_JSON);
        Err(e)
    }

    /// What the runner is asked: to end the cell, or to report on it within the
    /// yield time.
    pub fn action_for(&self, args: &ExecWaitArgs) -> (r: WaitAction)
        ensures
            if args.terminate {
                r matches WaitAction::Terminate { cell_id } && cell_id@ == args.cell_id@
            } else {
                r matches WaitAction::Poll { cell_id, yield_time_ms } && cell_id@ == args.cell_id@
                    && yield_time_ms == args.yield_time_ms
            },
    {
        if args.terminate {
            WaitAction::Terminate { cell_id: owned(args.cell_id.as_str()) }
        } else {
            WaitAction::Poll { cell_id: owned(args.cell_id.as_str()), yield_time_ms: args.yield_time_ms }
        }
    }
}

/// Hands out the ids of code mode cells: 1, 2, 3 and so on, staying at the largest
/// id once it is reached.
pub struct CodeModeCellIds {
    next_cell_id: u64,
}

impl CodeModeCellIds {
    pub closed spec fn next_id(&self) -> u64 {
        self.next_cell_id
    }

    pub fn new() -> (r: CodeModeCellIds)
        ensures
            r.next_id() == 1,
    {
        CodeModeCellIds { next_cell_id: 1 }
    }

    /// The next cell id, in decimal.
    pub fn allocate_cell_id(&mut self) -> (r: String)
        ensures
            r@ == decimal(old(self).next_id() as nat),
            final(self).next_id() == if old(self).next_id() == u64::MAX {
                u64::MAX
            } else {
                (old(self).next_id() + 1) as u64
            },
            final(self).next_id() == next_id_after(old(self).next_id(), 1),
    {
        let cell_id = self.next_cell_id;
        assert(next_id_after(cell_id, 0) == cell_id);
        self.next_cell_id = cell_id.saturating_add(1);
        decimal_string(cell_id)
    }
}

/// Whether `c` is a lowercase hexadecimal digit.
pub open spec fn is_lower_hex(c: char) -> bool {
    ('0' <= c && c <= '9') || ('a' <= c && c <= 'f')
}

/// The hyphenated text of a UUID: 36 characters, hyphens after the 8th, 12th, 16th
/// and 20th hexadecimal digit, and lowercase hexadecimal digits elsewhere.
pub open spec fn uuid_hyphenated(t: Seq<char>) -> bool {
    &&& t.len() == 36
    &&& forall|i: int| 0 <= i < 36 ==> if i == 8 || i == 13 || i == 18 || i == 23 {
        #[trigger] t[i] == '-'
    } else {
        is_lower_hex(t[i])
    }
}

/// The hyphenated text of a version 4 UUID: `4`, the version, is its 13th digit,
/// and its 17th digit, which holds the variant bits `10`, is `8`, `9`, `a` or `b`.
pub open spec fn uuid_v4_text(t: Seq<char>) -> bool {
    &&& uuid_hyphenated(t)
    &&& t[14] == '4'
    &&& (t[19] == '8' || t[19] == '9' || t[19] == 'a' || t[19] == 'b')
}

/// A fresh request id from `uuid::Uuid::new_v4`, in its hyphenated lowercase form
/// (`to_string`). The contract claims the form that the uuid crate's formatter
/// writes and the version and variant digits that `new_v4` sets by masking its
/// random bytes; which id comes out is chance.
#[verifier::external_body]
fn new_request_id() -> (r: String)
    ensures
        uuid_v4_text(r@),
{
    uuid::Uuid::new_v4().to_string()
}

/// A fresh id for a request to the script runner: a random version 4 UUID in its
/// hyphenated form.
pub fn allocate_request_id() -> (r: String)
    ensures
        uuid_v4_text(r@),
{
    new_request_id()
}


/// The value of a string of decimal digits.
pub open spec fn digits_value(t: Seq<char>) -> nat
    decreases t.len(),
{
    if t.len() == 0 {
        0
    } else {
        digits_value(t.drop_last()) * 10 + ((t.last() as int) - ('0' as int)) as nat
    }
}

pub open spec fn all_digits(t: Seq<char>) -> bool {
    forall|i: int| 0 <= i < t.len() ==> '0' <= #[trigger] t[i] && t[i] <= '9'
}

/// A JSON number read as a `u64`: a non-empty run of digits whose value fits.
pub open spec fn u64_of(t: Seq<char>) -> Option<u64> {
    if t.len() > 0 && all_digits(t) && digits_value(t) <= u64::MAX {
        Some(digits_value(t) as u64)
    } else {
        None
    }
}

proof fn lemma_digits_value_monotone(t: Seq<char>, k: int)
    requires
        0 <= k <= t.len(),
        all_digits(t),
    ensures
        digits_value(t.take(k)) <= digits_value(t),
    decreases t.len() - k,
{
    if k < t.len() {
        assert(t.take(k + 1).drop_last() =~= t.take(k));
        lemma_digits_value_monotone(t, k + 1);
        assert('0' <= t[k] && t[k] <= '9');
        assert(digits_value(t.take(k + 1)) == digits_value(t.take(k)) * 10 + ((t[k] as int) - ('0' as int)) as nat);
    } else {
        assert(t.take(k) =~= t);
    }
}

/// Reads a JSON number's text as a `u64`: see [`u64_of`].
pub fn parse_u64(t: &str) -> (r: Option<u64>)
    ensures
        r == u64_of(t@),
{
    let n = t.unicode_len();
    if n == 0 {
        return None;
    }
    let mut acc: u64 = 0;
    let mut i: usize = 0;
    assert(t@.take(0) =~= Seq::<char>::empty());
    while i < n
        invariant
            n == t@.len(),
            n > 0,
            i <= n,
            all_digits(t@.take(i as int)),
            acc as nat == digits_value(t@.take(i as int)),
        decreases n - i,
    {
        let c = t.get_char(i);
        assert(t@.take(i + 1).drop_last() =~= t@.take(i as int));
        assert(t@.take(i + 1).last() == c);
        if c < '0' || c > '9' {
            assert(!all_digits(t@)) by {
                assert(!('0' <= t@[i as int] && t@[i as int] <= '9'));
            }
            return None;
        }
        let d = (c as u32 - '0' as u32) as u64;
        assert(d as int == (c as int) - ('0' as int));
        if acc > (u64::MAX - d) / 10 {
            proof {
                assert(acc * 10 + d > u64::MAX) by (nonlinear_arith)
                    requires
                        acc > (u64::MAX - d) / 10,
                        d <= 9,
                ;
                assert(all_digits(t@.take(i + 1)));
                if all_digits(t@) {
                    lemma_digits_value_monotone(t@, i + 1);
                }
            }
            return None;
        }
        assert(acc * 10 + d <= u64::MAX) by (nonlinear_arith)
            requires
                acc <= (u64::MAX - d) / 10,
                d <= 9,
        ;
        acc = acc * 10 + d;
        assert(all_digits(t@.take(i + 1)));
        i = i + 1;
    }
    assert(t@.take(n as int) =~= t@);
    Some(acc)
}

pub const ARGUMENTS_ERROR: &'static str = "failed to parse function arguments: ";
pub const NOT_AN_OBJECT: &'static str = "expected an object";
pub const MISSING_FIELD: &'static str = "missing field `";
pub const INVALID_FIELD: &'static str = "invalid type for `";
pub const FIELD_END: &'static str = "`";
pub const K_CELL_ID: &'static str = "cell_id";
pub const K_YIELD_TIME_MS: &'static str = "yield_time_ms";
pub const K_MAX_TOKENS: &'static str = "max_tokens";
pub const K_TERMINATE: &'static str = "terminate";

pub open spec fn missing(field: &str) -> Seq<char> {
    ARGUMENTS_ERROR@ + MISSING_FIELD@ + field@ + FIELD_END@
}

pub open spec fn invalid(field: &str) -> Seq<char> {
    ARGUMENTS_ERROR@ + INVALID_FIELD@ + field@ + FIELD_END@
}

/// What the arguments of a wait call read as: `cell_id` (a string, required),
/// `yield_time_ms` (a `u64`, by default 10000), `max_tokens` (a `u64` or null, by
/// default none) and `terminate` (a boolean, by default false); other members are
/// ignored. The first field in that order that is wrong gives the error.
pub open spec fn wait_args(j: Json) -> Result<(Seq<char>, u64, Option<u64>, bool), Seq<char>> {
    match j {
        Json::Object(ms) => {
            let cell = match crate::json::member(ms, K_CELL_ID@) {
                Some(Json::Str(c)) => Ok(c),
                None => Err(missing(K_CELL_ID)),
                Some(_) => Err(invalid(K_CELL_ID)),
            };
            let yield_time = match crate::json::member(ms, K_YIELD_TIME_MS@) {
                None => Ok(DEFAULT_WAIT_YIELD_TIME_MS),
                Some(Json::Number(t)) => match u64_of(t) {
                    Some(v) => Ok(v),
                    None => Err(invalid(K_YIELD_TIME_MS)),
                },
                Some(_) => Err(invalid(K_YIELD_TIME_MS)),
            };
            let max_tokens = match crate::json::member(ms, K_MAX_TOKENS@) {
                None => Ok(None),
                Some(Json::Null) => Ok(None),
                Some(Json::Number(t)) => match u64_of(t) {
                    Some(v) => Ok(Some(v)),
                    None => Err(invalid(K_MAX_TOKENS)),
                },
                Some(_) => Err(invalid(K_MAX_TOKENS)),
            };
            let terminate = match crate::json::member(ms, K_TERMINATE@) {
                None => Ok(false),
                Some(Json::Bool(b)) => Ok(b),
                Some(_) => Err(invalid(K_TERMINATE)),
            };
            match (cell, yield_time, max_tokens, terminate) {
                (Err(e), _, _, _) => Err(e),
                (Ok(_), Err(e), _, _) => Err(e),
                (Ok(_), Ok(_), Err(e), _) => Err(e),
                (Ok(_), Ok(_), Ok(_), Err(e)) => Err(e),
                (Ok(c), Ok(y), Ok(m), Ok(t)) => Ok((c, y, m, t)),
            }
        },
        _ => Err(ARGUMENTS_ERROR@ + NOT_AN_OBJECT@),
    }
}

fn field_error(head: &str, field: &str) -> (r: String)
    ensures
        r@ == ARGUMENTS_ERROR@ + head@ + field@ + FIELD_END@,
{
    let mut e = owned(ARGUMENTS_ERROR);
    e.append(head);
    e.append(field);
    e.append(FIELD_END);
    e
}

/// Reads the arguments of a wait call: see [`wait_args`].
pub fn parse_exec_wait_args(v: &JsonValue) -> (r: Result<ExecWaitArgs, String>)
    ensures
        match r {
            Ok(a) => wait_args(v@) == Ok::<(Seq<char>, u64, Option<u64>, bool), Seq<char>>(
                (a.cell_id@, a.yield_time_ms, a.max_tokens, a.terminate),
            ),
            Err(e) => wait_args(v@) == Err::<(Seq<char>, u64, Option<u64>, bool), Seq<char>>(e@),
        },
{
    let m = match v {
        JsonValue::Object(m) => m,
        other => {
            match other {
                JsonValue::Array(a) => {
                    proof {
                        crate::json::lemma_array_view(*a);
                    }
                },
                JsonValue::Null => {
                    assert(v@ == Json::Null);
                },
                JsonValue::Bool(b) => {
                    assert(v@ == Json::Bool(*b));
                },
                JsonValue::Number(t) => {
                    assert(v@ == Json::Number(t@));
                },
                JsonValue::Str(t) => {
                    assert(v@ == Json::Str(t@));
                },
                _ => {},
            }
            let mut e = owned(ARGUMENTS_ERROR);
            e.append(NOT_AN_OBJECT);
            return Err(e);
        },
    };
    proof {
        crate::json::lemma_object_view(*m);
    }
    let cell_id = match crate::json::get_member(m, K_CELL_ID) {
        Some(JsonValue::Str(c)) => owned(c.as_str()),
        None => {
            return Err(field_error(MISSING_FIELD, K_CELL_ID));
        },
        Some(_) => {
            return Err(field_error(INVALID_FIELD, K_CELL_ID));
        },
    };
    let yield_time_ms = match crate::json::get_member(m, K_YIELD_TIME_MS) {
        None => DEFAULT_WAIT_YIELD_TIME_MS,
        Some(JsonValue::Number(t)) => match parse_u64(t.as_str()) {
            Some(x) => x,
            None => {
                return Err(field_error(INVALID_FIELD, K_YIELD_TIME_MS));
            },
        },
        Some(_) => {
            return Err(field_error(INVALID_FIELD, K_YIELD_TIME_MS));
        },
    };
    let max_tokens = match crate::json::get_member(m, K_MAX_TOKENS) {
        None => None,
        Some(JsonValue::Null) => None,
        Some(JsonValue::Number(t)) => match parse_u64(t.as_str()) {
            Some(x) => Some(x),
            None => {
                return Err(field_error(INVALID_FIELD, K_MAX_TOKENS));
            },
        },
        Some(_) => {
            return Err(field_error(INVALID_FIELD, K_MAX_TOKENS));
        },
    };
    let terminate = match crate::json::get_member(m, K_TERMINATE) {
        None => false,
        Some(JsonValue::Bool(b)) => *b,
        Some(_) => {
            return Err(field_error(INVALID_FIELD, K_TERMINATE));
        },
    };
    Ok(ExecWaitArgs { cell_id, yield_time_ms, max_tokens, terminate })
}


/// Cell ids never repeat: the ids handed out from a fresh counter are the decimal
/// texts of 1, 2, 3 and so on, and different numbers have different texts.
pub proof fn lemma_cell_ids_distinct(a: nat, b: nat)
    requires
        a != b,
    ensures
        decimal(a) != decimal(b),
{
    crate::app_server::lemma_decimal_reads_back(a);
    crate::app_server::lemma_decimal_reads_back(b);
}

/// The allocator's next id after `k` allocations that began at `start`: one more
/// each time, until it stays at `u64::MAX`.
pub open spec fn next_id_after(start: u64, k: nat) -> u64
    decreases k,
{
    if k == 0 {
        start
    } else {
        let c = next_id_after(start, (k - 1) as nat);
        if c == u64::MAX {
            c
        } else {
            (c + 1) as u64
        }
    }
}

/// On a fresh allocator, the call that follows `k` earlier ones returns the
/// decimal of `k + 1`: the calls give "1", "2", "3", and so on, and no two of
/// them give the same id.
pub proof fn lemma_cell_id_run(k: nat, earlier: nat)
    requires
        k < u64::MAX,
        earlier < k,
    ensures
        next_id_after(1, k) == k + 1,
        decimal(next_id_after(1, earlier) as nat) != decimal(next_id_after(1, k) as nat),
{
    lemma_next_id_after(k);
    lemma_next_id_after(earlier);
    lemma_cell_ids_distinct(earlier + 1, k + 1);
}

proof fn lemma_next_id_after(k: nat)
    requires
        k < u64::MAX,
    ensures
        next_id_after(1, k) == k + 1,
    decreases k,
{
    if k > 0 {
        lemma_next_id_after((k - 1) as nat);
    }
}

}
