use vstd::prelude::*;
use vstd::string::*;

use crate::strings::{join, join_strings, trim, trim_spec, views};
use crate::text::{
    lemma_str_lt_asymmetric, lemma_str_lt_irreflexive, lemma_str_lt_total, lemma_str_lt_transitive, owned,
    str_eq, str_less, str_lt,
};
use crate::texts;

verus! {

/// A connector (app) that can be installed.
#[derive(Debug)]
pub struct AppInfo {
    pub id: String,
    pub name: String,
    pub description: Option<String>,
    pub install_url: Option<String>,
    pub is_accessible: bool,
    pub is_enabled: bool,
}

/// A plugin that can be enabled, with what it brings.
#[derive(Debug)]
pub struct DiscoverablePluginInfo {
    pub id: String,
    pub name: String,
    pub description: Option<String>,
    pub has_skills: bool,
    pub mcp_server_names: Vec<String>,
    pub app_connector_ids: Vec<String>,
}

/// A tool the model may suggest to the user.
#[derive(Debug)]
pub enum DiscoverableTool {
    Connector(AppInfo),
    Plugin(DiscoverablePluginInfo),
}

#[derive(Debug, Clone, Copy, PartialEq, Eq, Structural)]
pub enum DiscoverableToolType {
    Connector,
    Plugin,
}

#[derive(Debug, Clone, Copy, PartialEq, Eq, Structural)]
pub enum DiscoverableToolAction {
    Install,
    Enable,
}

pub const CONNECTOR_TYPE: &'static str = "connector";
pub const PLUGIN_TYPE: &'static str = "plugin";
pub const INSTALL_ACTION: &'static str = "install";
pub const ENABLE_ACTION: &'static str = "enable";

impl DiscoverableToolType {
    pub open spec fn text(self) -> Seq<char> {
        match self {
            DiscoverableToolType::Connector => CONNECTOR_TYPE@,
            DiscoverableToolType::Plugin => PLUGIN_TYPE@,
        }
    }

    pub fn as_str(&self) -> (r: &'static str)
        ensures
            r@ == self.text(),
    {
        match self {
            DiscoverableToolType::Connector => CONNECTOR_TYPE,
            DiscoverableToolType::Plugin => PLUGIN_TYPE,
        }
    }
}

impl DiscoverableToolAction {
    pub open spec fn text(self) -> Seq<char> {
        match self {
            DiscoverableToolAction::Install => INSTALL_ACTION@,
            DiscoverableToolAction::Enable => ENABLE_ACTION@,
        }
    }

    pub fn as_str(&self) -> (r: &'static str)
        ensures
            r@ == self.text(),
    {
        match self {
            DiscoverableToolAction::Install => INSTALL_ACTION,
            DiscoverableToolAction::Enable => ENABLE_ACTION,
        }
    }
}

/// The content of a [`DiscoverableTool`].
pub struct DiscoverableView {
    pub kind: DiscoverableToolType,
    pub id: Seq<char>,
    pub name: Seq<char>,
    pub description: Option<Seq<char>>,
    pub has_skills: bool,
    pub mcp_server_names: Seq<Seq<char>>,
    pub app_connector_ids: Seq<Seq<char>>,
}

impl View for DiscoverableTool {
    type V = DiscoverableView;

    open spec fn view(&self) -> DiscoverableView {
        match self {
            DiscoverableTool::Connector(a) => DiscoverableView {
                kind: DiscoverableToolType::Connector,
                id: a.id@,
                name: a.name@,
                description: crate::schema::opt_str(a.description),
                has_skills: false,
                mcp_server_names: Seq::empty(),
                app_connector_ids: Seq::empty(),
            },
            DiscoverableTool::Plugin(p) => DiscoverableView {
                kind: DiscoverableToolType::Plugin,
                id: p.id@,
                name: p.name@,
                description: crate::schema::opt_str(p.description),
                has_skills: p.has_skills,
                mcp_server_names: views(p.mcp_server_names@),
                app_connector_ids: views(p.app_connector_ids@),
            },
        }
    }
}

impl DiscoverableTool {
    pub fn id(&self) -> (r: &str)
        ensures
            r@ == self@.id,
    {
        match self {
            DiscoverableTool::Connector(a) => a.id.as_str(),
            DiscoverableTool::Plugin(p) => p.id.as_str(),
        }
    }

    pub fn name(&self) -> (r: &str)
        ensures
            r@ == self@.name,
    {
        match self {
            DiscoverableTool::Connector(a) => a.name.as_str(),
            DiscoverableTool::Plugin(p) => p.name.as_str(),
        }
    }

    pub fn description(&self) -> (r: Option<&str>)
        ensures
            match r {
                Some(d) => self@.description == Some(d@),
                None => self@.description is None,
            },
    {
        match self {
            DiscoverableTool::Connector(a) => match &a.description {
                Some(d) => Some(d.as_str()),
                None => None,
            },
            DiscoverableTool::Plugin(p) => match &p.description {
                Some(d) => Some(d.as_str()),
                None => None,
            },
        }
    }

    pub fn tool_type(&self) -> (r: DiscoverableToolType)
        ensures
            r == self@.kind,
    {
        match self {
            DiscoverableTool::Connector(_) => DiscoverableToolType::Connector,
            DiscoverableTool::Plugin(_) => DiscoverableToolType::Plugin,
        }
    }
}

/// What a plugin without a description is summarised as.
pub open spec fn plugin_summary(has_skills: bool, mcp_server_names: Seq<Seq<char>>, app_connector_ids: Seq<Seq<char>>) -> Seq<char> {
    let d0: Seq<Seq<char>> = if has_skills {
        seq![texts::SKILLS_DETAIL@]
    } else {
        Seq::empty()
    };
    let d1 = if mcp_server_names.len() > 0 {
        d0.push(texts::MCP_SERVERS_DETAIL@ + join(mcp_server_names, texts::LIST_SEPARATOR@))
    } else {
        d0
    };
    let d2 = if app_connector_ids.len() > 0 {
        d1.push(texts::APP_CONNECTORS_DETAIL@ + join(app_connector_ids, texts::LIST_SEPARATOR@))
    } else {
        d1
    };
    if d2.len() == 0 {
        texts::NO_DESCRIPTION@
    } else {
        join(d2, texts::DETAIL_SEPARATOR@)
    }
}

/// Summarises a plugin: its skills, MCP servers and app connectors.
pub fn format_plugin_summary(plugin: &DiscoverablePluginInfo) -> (r: String)
    ensures
        r@ == plugin_summary(plugin.has_skills, views(plugin.mcp_server_names@), views(plugin.app_connector_ids@)),
{
    let mut details: Vec<String> = Vec::new();
    if plugin.has_skills {
        details.push(owned(texts::SKILLS_DETAIL));
    }
    if plugin.mcp_server_names.len() > 0 {
        let s = owned(texts::MCP_SERVERS_DETAIL).concat(join_strings(&plugin.mcp_server_names, texts::LIST_SEPARATOR).as_str());
        details.push(s);
    }
    if plugin.app_connector_ids.len() > 0 {
        let s = owned(texts::APP_CONNECTORS_DETAIL).concat(join_strings(&plugin.app_connector_ids, texts::LIST_SEPARATOR).as_str());
        details.push(s);
    }
    let ghost d0: Seq<Seq<char>> = if plugin.has_skills {
        seq![texts::SKILLS_DETAIL@]
    } else {
        Seq::empty()
    };
    assert(views(details@) =~= {
        let d1 = if plugin.mcp_server_names.len() > 0 {
            d0.push(texts::MCP_SERVERS_DETAIL@ + join(views(plugin.mcp_server_names@), texts::LIST_SEPARATOR@))
        } else {
            d0
        };
        if plugin.app_connector_ids.len() > 0 {
            d1.push(texts::APP_CONNECTORS_DETAIL@ + join(views(plugin.app_connector_ids@), texts::LIST_SEPARATOR@))
        } else {
            d1
        }
    });
    if details.len() == 0 {
        owned(texts::NO_DESCRIPTION)
    } else {
        join_strings(&details, texts::DETAIL_SEPARATOR)
    }
}

/// The description shown for a tool: its own unless blank, else a stand-in.
pub open spec fn shown_description(t: DiscoverableView) -> Seq<char> {
    match t.description {
        Some(d) if trim_spec(d).len() > 0 => d,
        _ => match t.kind {
            DiscoverableToolType::Connector => texts::NO_DESCRIPTION@,
            DiscoverableToolType::Plugin => plugin_summary(t.has_skills, t.mcp_server_names, t.app_connector_ids),
        },
    }
}

pub open spec fn default_action(kind: DiscoverableToolType) -> DiscoverableToolAction {
    match kind {
        DiscoverableToolType::Connector => DiscoverableToolAction::Install,
        DiscoverableToolType::Plugin => DiscoverableToolAction::Enable,
    }
}

/// `- name (id: `id`, type: t, action: a): description`.
pub open spec fn tool_line(t: DiscoverableView) -> Seq<char> {
    texts::BULLET@ + t.name + texts::TOOL_ID_OPEN@ + t.id + texts::TOOL_TYPE_LABEL@ + t.kind.text()
        + texts::TOOL_ACTION_LABEL@ + default_action(t.kind).text() + texts::TOOL_DESCRIPTION_LABEL@
        + shown_description(t)
}

/// The line that lists one discoverable tool.
pub fn format_tool_line(tool: &DiscoverableTool) -> (r: String)
    ensures
        r@ == tool_line(tool@),
{
    let description = match tool.description() {
        Some(d) if trim(d).unicode_len() > 0 => owned(d),
        _ => match tool {
            DiscoverableTool::Connector(_) => owned(texts::NO_DESCRIPTION),
            DiscoverableTool::Plugin(p) => format_plugin_summary(p),
        },
    };
    let kind = tool.tool_type();
    let action = match kind {
        DiscoverableToolType::Connector => DiscoverableToolAction::Install,
        DiscoverableToolType::Plugin => DiscoverableToolAction::Enable,
    };
    let mut r = owned(texts::BULLET);
    r.append(tool.name());
    r.append(texts::TOOL_ID_OPEN);
    r.append(tool.id());
    r.append(texts::TOOL_TYPE_LABEL);
    r.append(kind.as_str());
    r.append(texts::TOOL_ACTION_LABEL);
    r.append(action.as_str());
    r.append(texts::TOOL_DESCRIPTION_LABEL);
    r.append(description.as_str());
    r
}

/// Orders (name, id) pairs: by name, then by id.
pub open spec fn key_lt(a: (Seq<char>, Seq<char>, Seq<char>), b: (Seq<char>, Seq<char>, Seq<char>)) -> bool {
    str_lt(a.0, b.0) || (a.0 == b.0 && str_lt(a.1, b.1))
}

/// `x` put into `s` after every entry whose key is not greater than its own.
pub open spec fn insert_stable(
    s: Seq<(Seq<char>, Seq<char>, Seq<char>)>,
    x: (Seq<char>, Seq<char>, Seq<char>),
) -> Seq<(Seq<char>, Seq<char>, Seq<char>)>
    decreases s.len(),
{
    if s.len() == 0 {
        seq![x]
    } else if key_lt(x, s[0]) {
        seq![x] + s
    } else {
        seq![s[0]] + insert_stable(s.drop_first(), x)
    }
}

/// A stable sort of (name, id, line) entries by name, then id.
pub open spec fn sort_stable(s: Seq<(Seq<char>, Seq<char>, Seq<char>)>) -> Seq<(Seq<char>, Seq<char>, Seq<char>)>
    decreases s.len(),
{
    if s.len() == 0 {
        Seq::empty()
    } else {
        insert_stable(sort_stable(s.drop_last()), s.last())
    }
}

pub open spec fn entry_of(t: DiscoverableView) -> (Seq<char>, Seq<char>, Seq<char>) {
    (t.name, t.id, tool_line(t))
}

pub open spec fn third(s: Seq<(Seq<char>, Seq<char>, Seq<char>)>) -> Seq<Seq<char>> {
    s.map_values(|e: (Seq<char>, Seq<char>, Seq<char>)| e.2)
}

pub open spec fn tools_view(v: Seq<DiscoverableTool>) -> Seq<DiscoverableView> {
    v.map_values(|t: DiscoverableTool| t@)
}

/// The listing of discoverable tools: one line each, by name then id.
pub open spec fn discoverable_listing(tools: Seq<DiscoverableView>) -> Seq<char> {
    join(third(sort_stable(tools.map_values(|t: DiscoverableView| entry_of(t)))), texts::LINE_SEPARATOR@)
}

pub open spec fn entries_view3(v: Seq<(String, String, String)>) -> Seq<(Seq<char>, Seq<char>, Seq<char>)> {
    v.map_values(|e: (String, String, String)| (e.0@, e.1@, e.2@))
}

fn key_less(a: &(String, String, String), b: &(String, String, String)) -> (r: bool)
    ensures
        r == key_lt((a.0@, a.1@, a.2@), (b.0@, b.1@, b.2@)),
{
    str_less(a.0.as_str(), b.0.as_str()) || (str_eq(a.0.as_str(), b.0.as_str()) && str_less(a.1.as_str(), b.1.as_str()))
}

pub(crate) fn insert_stable_vec(v: &mut Vec<(String, String, String)>, x: (String, String, String))
    ensures
        entries_view3(final(v)@) == insert_stable(entries_view3(old(v)@), (x.0@, x.1@, x.2@)),
{
    let ghost o = entries_view3(v@);
    let ghost xv = (x.0@, x.1@, x.2@);
    let n = v.len();
    let mut i: usize = 0;
    assert(o.skip(0) =~= o);
    assert(o.take(0) =~= Seq::<(Seq<char>, Seq<char>, Seq<char>)>::empty());
    while i < n
        invariant
            n == v.len(),
            v@ == old(v)@,
            o == entries_view3(v@),
            xv == (x.0@, x.1@, x.2@),
            i <= n,
            insert_stable(o, xv) == o.take(i as int) + insert_stable(o.skip(i as int), xv),
        decreases n - i,
    {
        let ghost tail = o.skip(i as int);
        assert(tail[0] == (v@[i as int].0@, v@[i as int].1@, v@[i as int].2@));
        if key_less(&x, &v[i]) {
            v.insert(i, x);
            assert(entries_view3(v@) =~= o.take(i as int) + (seq![xv] + tail));
            return;
        }
        assert(tail.drop_first() =~= o.skip(i + 1));
        assert(o.take(i + 1) =~= o.take(i as int) + seq![tail[0]]);
        i = i + 1;
    }
    v.push(x);
    assert(entries_view3(v@) =~= o.take(n as int) + seq![xv]);
    assert(o.take(n as int) =~= o);
}

/// Lists discoverable tools, one line each, ordered by name and then id.
pub fn format_discoverable_tools(discoverable_tools: &Vec<DiscoverableTool>) -> (r: String)
    ensures
        r@ == discoverable_listing(tools_view(discoverable_tools@)),
{
    let ghost es = tools_view(discoverable_tools@).map_values(|t: DiscoverableView| entry_of(t));
    let mut sorted: Vec<(String, String, String)> = Vec::new();
    let mut i: usize = 0;
    while i < discoverable_tools.len()
        invariant
            i <= discoverable_tools.len(),
            es == tools_view(discoverable_tools@).map_values(|t: DiscoverableView| entry_of(t)),
            entries_view3(sorted@) == sort_stable(es.take(i as int)),
        decreases discoverable_tools.len() - i,
    {
        let t = &discoverable_tools[i];
        let entry = (owned(t.name()), owned(t.id()), format_tool_line(t));
        assert(es.take(i + 1).drop_last() =~= es.take(i as int));
        assert(es.take(i + 1).last() == es[i as int]);
        insert_stable_vec(&mut sorted, entry);
        i = i + 1;
    }
    assert(es.take(discoverable_tools.len() as int) =~= es);
    let mut lines: Vec<String> = Vec::new();
    let mut k: usize = 0;
    while k < sorted.len()
        invariant
            k <= sorted.len(),
            views(lines@) == third(entries_view3(sorted@)).take(k as int),
        decreases sorted.len() - k,
    {
        let ghost before = views(lines@);
        let line = owned(sorted[k].2.as_str());
        lines.push(line);
        assert(views(lines@) =~= before.push(sorted@[k as int].2@));
        assert(third(entries_view3(sorted@)).take(k + 1) =~= third(entries_view3(sorted@)).take(k as int).push(third(entries_view3(sorted@))[k as int]));
        assert(entries_view3(sorted@)[k as int] == (sorted@[k as int].0@, sorted@[k as int].1@, sorted@[k as int].2@));
        assert(third(entries_view3(sorted@))[k as int] == sorted@[k as int].2@);
        assert(views(lines@) =~= third(entries_view3(sorted@)).take(k + 1));
        k = k + 1;
    }
    assert(third(entries_view3(sorted@)).take(sorted.len() as int) =~= third(entries_view3(sorted@)));
    join_strings(&lines, texts::LINE_SEPARATOR)
}

/// Entries in ascending order of name, then id: no entry has a smaller key
/// than one before it.
pub open spec fn sorted_by_key(s: Seq<(Seq<char>, Seq<char>, Seq<char>)>) -> bool {
    forall|i: int, j: int| 0 <= i < j < s.len() ==> !key_lt(#[trigger] s[j], #[trigger] s[i])
}

/// Tools that share a name and an id are listed by the same line.
pub open spec fn key_fixes_line(s: Seq<DiscoverableView>) -> bool {
    forall|i: int, j: int|
        0 <= i < s.len() && 0 <= j < s.len() && (#[trigger] s[i]).name == (#[trigger] s[j]).name && s[i].id
            == s[j].id ==> tool_line(s[i]) == tool_line(s[j])
}

pub open spec fn entries_of(s: Seq<DiscoverableView>) -> Seq<(Seq<char>, Seq<char>, Seq<char>)> {
    s.map_values(|t: DiscoverableView| entry_of(t))
}

proof fn lemma_key_lt_order(a: (Seq<char>, Seq<char>, Seq<char>), b: (Seq<char>, Seq<char>, Seq<char>), c: (Seq<char>, Seq<char>, Seq<char>))
    ensures
        !key_lt(a, a),
        key_lt(a, b) ==> !key_lt(b, a),
        key_lt(a, b) && key_lt(b, c) ==> key_lt(a, c),
        (a.0, a.1) != (b.0, b.1) ==> key_lt(a, b) || key_lt(b, a),
{
    lemma_str_lt_irreflexive(a.0);
    lemma_str_lt_irreflexive(a.1);
    lemma_str_lt_asymmetric(a.0, b.0);
    lemma_str_lt_asymmetric(a.1, b.1);
    lemma_str_lt_total(a.0, b.0);
    lemma_str_lt_total(a.1, b.1);
    if str_lt(a.0, b.0) && str_lt(b.0, c.0) {
        lemma_str_lt_transitive(a.0, b.0, c.0);
    }
    if str_lt(a.1, b.1) && str_lt(b.1, c.1) {
        lemma_str_lt_transitive(a.1, b.1, c.1);
    }
}


proof fn lemma_insert_stable_sorted(s: Seq<(Seq<char>, Seq<char>, Seq<char>)>, x: (Seq<char>, Seq<char>, Seq<char>))
    requires
        sorted_by_key(s),
    ensures
        sorted_by_key(insert_stable(s, x)),
        exists|k: int| 0 <= k <= s.len() && insert_stable(s, x) == s.insert(k, x),
    decreases s.len(),
{
    let r = insert_stable(s, x);
    if s.len() == 0 {
        assert(r =~= s.insert(0, x));
    } else if key_lt(x, s[0]) {
        assert(r =~= s.insert(0, x));
        assert forall|i: int, j: int| 0 <= i < j < r.len() implies !key_lt(#[trigger] r[j], #[trigger] r[i]) by {
            assert(r[j] == s[j - 1]);
            if i > 0 {
                assert(r[i] == s[i - 1]);
            } else {
                lemma_key_lt_order(s[j - 1], x, s[0]);
                if j - 1 > 0 {
                    assert(!key_lt(s[j - 1], s[0]));
                }
            }
        }
    } else {
        let rest = s.drop_first();
        assert(sorted_by_key(rest)) by {
            assert forall|i: int, j: int| 0 <= i < j < rest.len() implies !key_lt(#[trigger] rest[j], #[trigger] rest[i]) by {
                assert(rest[i] == s[i + 1]);
                assert(rest[j] == s[j + 1]);
            }
        }
        lemma_insert_stable_sorted(rest, x);
        let tail = insert_stable(rest, x);
        let k = choose|k: int| 0 <= k <= rest.len() && tail == rest.insert(k, x);
        assert(r =~= s.insert(k + 1, x));
        assert forall|i: int, j: int| 0 <= i < j < r.len() implies !key_lt(#[trigger] r[j], #[trigger] r[i]) by {
            assert(r[j] == tail[j - 1]);
            if i > 0 {
                assert(r[i] == tail[i - 1]);
            } else if j - 1 != k {
                if j - 1 < k {
                    assert(tail[j - 1] == s[j]);
                } else {
                    assert(tail[j - 1] == s[j - 1]);
                }
            }
        }
    }
}

proof fn lemma_sort_stable_sorted(s: Seq<(Seq<char>, Seq<char>, Seq<char>)>)
    ensures
        sorted_by_key(sort_stable(s)),
        sort_stable(s).to_multiset() == s.to_multiset(),
    decreases s.len(),
{
    broadcast use vstd::seq_lib::group_to_multiset_ensures;

    if s.len() == 0 {
        assert(sort_stable(s) =~= s);
    } else {
        let init = s.drop_last();
        lemma_sort_stable_sorted(init);
        let sorted = sort_stable(init);
        lemma_insert_stable_sorted(sorted, s.last());
        let k = choose|k: int| 0 <= k <= sorted.len() && insert_stable(sorted, s.last()) == sorted.insert(k, s.last());
        assert(s =~= init.push(s.last()));
    }
}

proof fn lemma_entries_permuted(s: Seq<DiscoverableView>, t: Seq<DiscoverableView>)
    requires
        s.to_multiset() == t.to_multiset(),
    ensures
        entries_of(s).to_multiset() == entries_of(t).to_multiset(),
    decreases s.len(),
{
    broadcast use vstd::seq_lib::group_to_multiset_ensures;
    broadcast use vstd::multiset::group_multiset_axioms;

    assert(s.to_multiset().len() == s.len());
    assert(t.to_multiset().len() == t.len());
    if s.len() == 0 {
        assert(t.len() == 0);
        assert(entries_of(s) =~= entries_of(t));
    } else {
        let x = s.last();
        let init = s.drop_last();
        assert(s =~= init.push(x));
        assert(s.to_multiset().count(x) > 0);
        assert(t.contains(x));
        let k = choose|k: int| 0 <= k < t.len() && t[k] == x;
        let t2 = t.remove(k);
        assert(init.to_multiset() =~= t2.to_multiset());
        lemma_entries_permuted(init, t2);
        let e = entry_of(x);
        assert(entries_of(s) =~= entries_of(init).push(e));
        assert(entries_of(t2) =~= entries_of(t).remove(k));
        assert(entries_of(t)[k] == e);
        assert(entries_of(t).to_multiset().count(e) > 0);
        assert(entries_of(s).to_multiset() =~= entries_of(t).to_multiset());
    }
}

proof fn lemma_sorted_permutation_unique(a: Seq<(Seq<char>, Seq<char>, Seq<char>)>, b: Seq<(Seq<char>, Seq<char>, Seq<char>)>)
    requires
        sorted_by_key(a),
        sorted_by_key(b),
        a.to_multiset() == b.to_multiset(),
        forall|x: (Seq<char>, Seq<char>, Seq<char>), y: (Seq<char>, Seq<char>, Seq<char>)|
            a.contains(x) && a.contains(y) && x.0 == y.0 && x.1 == y.1 ==> x == y,
    ensures
        a == b,
    decreases a.len(),
{
    broadcast use vstd::seq_lib::group_to_multiset_ensures;
    broadcast use vstd::multiset::group_multiset_axioms;

    assert(a.to_multiset().len() == a.len());
    assert(b.to_multiset().len() == b.len());
    if a.len() == 0 {
        assert(b.len() == 0);
        assert(a =~= b);
    } else {
        assert(b.len() == a.len());
        assert(a.to_multiset().count(a[0]) > 0);
        assert(b.contains(a[0]));
        assert(b.to_multiset().count(b[0]) > 0);
        assert(a.contains(b[0]));
        let j = choose|j: int| 0 <= j < a.len() && a[j] == b[0];
        let k = choose|k: int| 0 <= k < b.len() && b[k] == a[0];
        lemma_key_lt_order(a[0], b[0], a[0]);
        if j > 0 {
            assert(!key_lt(a[j], a[0]));
        }
        if k > 0 {
            assert(!key_lt(b[k], b[0]));
        }
        assert(a[0].0 == b[0].0 && a[0].1 == b[0].1);
        assert(a.contains(a[0]));
        assert(a[0] == b[0]);
        let ar = a.drop_first();
        let br = b.drop_first();
        assert(ar =~= a.remove(0));
        assert(br =~= b.remove(0));
        assert(ar.to_multiset() =~= br.to_multiset());
        assert(sorted_by_key(ar)) by {
            assert forall|i: int, m: int| 0 <= i < m < ar.len() implies !key_lt(#[trigger] ar[m], #[trigger] ar[i]) by {
                assert(ar[i] == a[i + 1]);
                assert(ar[m] == a[m + 1]);
            }
        }
        assert(sorted_by_key(br)) by {
            assert forall|i: int, m: int| 0 <= i < m < br.len() implies !key_lt(#[trigger] br[m], #[trigger] br[i]) by {
                assert(br[i] == b[i + 1]);
                assert(br[m] == b[m + 1]);
            }
        }
        assert forall|x: (Seq<char>, Seq<char>, Seq<char>), y: (Seq<char>, Seq<char>, Seq<char>)|
            ar.contains(x) && ar.contains(y) && x.0 == y.0 && x.1 == y.1 implies x == y by {
            let p = choose|p: int| 0 <= p < ar.len() && ar[p] == x;
            let q = choose|q: int| 0 <= q < ar.len() && ar[q] == y;
            assert(a[p + 1] == x);
            assert(a[q + 1] == y);
            assert(a.contains(x));
            assert(a.contains(y));
        }
        lemma_sorted_permutation_unique(ar, br);
        assert(a =~= seq![a[0]] + ar);
        assert(b =~= seq![b[0]] + br);
    }
}

/// The listing does not depend on the order in which the tools come: any
/// reordering of the tools gives the same listing, provided tools that share a
/// name and an id are listed by the same line.
pub proof fn lemma_listing_ignores_order(s: Seq<DiscoverableView>, t: Seq<DiscoverableView>)
    requires
        s.to_multiset() == t.to_multiset(),
        key_fixes_line(s),
    ensures
        discoverable_listing(s) == discoverable_listing(t),
{
    broadcast use vstd::seq_lib::group_to_multiset_ensures;

    let es = entries_of(s);
    let et = entries_of(t);
    lemma_entries_permuted(s, t);
    lemma_sort_stable_sorted(es);
    lemma_sort_stable_sorted(et);
    let a = sort_stable(es);
    let b = sort_stable(et);
    assert forall|x: (Seq<char>, Seq<char>, Seq<char>), y: (Seq<char>, Seq<char>, Seq<char>)|
        a.contains(x) && a.contains(y) && x.0 == y.0 && x.1 == y.1 implies x == y by {
        assert(a.to_multiset().count(x) > 0);
        assert(a.to_multiset().count(y) > 0);
        assert(es.contains(x));
        assert(es.contains(y));
        let i = choose|i: int| 0 <= i < es.len() && es[i] == x;
        let j = choose|j: int| 0 <= j < es.len() && es[j] == y;
        assert(es[i] == entry_of(s[i]));
        assert(es[j] == entry_of(s[j]));
    }
    lemma_sorted_permutation_unique(a, b);
    assert(es == s.map_values(|t: DiscoverableView| entry_of(t)));
    assert(et == t.map_values(|t: DiscoverableView| entry_of(t)));
}


/// A tool's line shows its own description when that is not blank; a connector
/// without one shows `No description provided.`.
pub proof fn lemma_shown_description(t: DiscoverableView)
    ensures
        (t.description matches Some(d) && trim_spec(d).len() > 0) ==> shown_description(t)
            == t.description->Some_0,
        !(t.description matches Some(d) && trim_spec(d).len() > 0) && t.kind == DiscoverableToolType::Connector
            ==> shown_description(t) == "No description provided."@,
{
}

/// A tool's line names it, gives its id in backticks, its type (`connector` or
/// `plugin`) and the action it is offered for: a connector is installed and a
/// plugin is enabled. The shown description closes the line.
pub proof fn lemma_tool_line_action(t: DiscoverableView)
    ensures
        tool_line(t) == "- "@ + t.name + " (id: `"@ + t.id + "`, type: "@ + (match t.kind {
            DiscoverableToolType::Connector => "connector"@,
            DiscoverableToolType::Plugin => "plugin"@,
        }) + ", action: "@ + (match t.kind {
            DiscoverableToolType::Connector => "install"@,
            DiscoverableToolType::Plugin => "enable"@,
        }) + "): "@ + shown_description(t),
{
}

}
