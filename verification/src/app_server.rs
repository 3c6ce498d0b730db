use vstd::prelude::*;

use crate::config::starts_with;
use crate::discoverable::AppInfo;
use crate::mcp::{input_schema_result, parse_tool_input_schema, DynamicToolSpec};
use crate::schema::{clone_opt_string, opt_str, strs};
use crate::schema_json::fault_message;
use crate::code_mode_runtime::{all_digits, digits_value, parse_u64, u64_of};
use crate::strings::{decimal, decimal_string, digit_text, trim, trim_spec};
use crate::text::{owned, str_eq};

verus! {

pub const EMPTY_NAME_ERROR: &'static str = "dynamic tool name must not be empty";
pub const WHITESPACE_NAME_ERROR: &'static str = "dynamic tool name has leading/trailing whitespace: ";
pub const RESERVED_NAME_ERROR: &'static str = "dynamic tool name is reserved: ";
pub const DUPLICATE_NAME_ERROR: &'static str = "duplicate dynamic tool name: ";
pub const UNSUPPORTED_SCHEMA_ERROR: &'static str = "dynamic tool input schema is not supported for ";
pub const MESSAGE_SEPARATOR: &'static str = ": ";
pub const MCP_RESERVED: &'static str = "mcp";
pub const MCP_RESERVED_PREFIX: &'static str = "mcp__";

/// What is wrong with a dynamic tool, given the names of the tools before it: an
/// empty or untrimmed name, a name reserved for MCP tools, a name taken, or an input
/// schema that does not read.
pub open spec fn dynamic_tool_error(tool: DynamicToolSpec, earlier: Seq<Seq<char>>) -> Option<Seq<char>> {
    let name = trim_spec(tool.name@);
    if name.len() == 0 {
        Some(EMPTY_NAME_ERROR@)
    } else if name != tool.name@ {
        Some(WHITESPACE_NAME_ERROR@ + tool.name@)
    } else if name == MCP_RESERVED@ || MCP_RESERVED_PREFIX@.is_prefix_of(name) {
        Some(RESERVED_NAME_ERROR@ + name)
    } else if earlier.contains(name) {
        Some(DUPLICATE_NAME_ERROR@ + name)
    } else {
        match input_schema_result(tool.input_schema@) {
            Err(e) => Some(UNSUPPORTED_SCHEMA_ERROR@ + name + MESSAGE_SEPARATOR@ + fault_message(e)),
            Ok(_) => None,
        }
    }
}

pub open spec fn app_ids(v: Seq<AppInfo>) -> Seq<Seq<char>> {
    v.map_values(|a: AppInfo| a.id@)
}

pub open spec fn tool_names(tools: Seq<DynamicToolSpec>) -> Seq<Seq<char>> {
    tools.map_values(|t: DynamicToolSpec| t.name@)
}

/// The error of the first dynamic tool that is wrong, if any.
pub open spec fn first_dynamic_tool_error(tools: Seq<DynamicToolSpec>) -> Option<Seq<char>>
    decreases tools.len(),
{
    if tools.len() == 0 {
        None
    } else {
        match first_dynamic_tool_error(tools.drop_last()) {
            Some(e) => Some(e),
            None => dynamic_tool_error(tools.last(), tool_names(tools.drop_last())),
        }
    }
}

/// Every dynamic tool has a name that is not empty, carries no surrounding
/// whitespace and is not reserved for MCP tools, and an input schema that
/// reads; no two tools share a name.
pub open spec fn dynamic_tools_valid(tools: Seq<DynamicToolSpec>) -> bool {
    &&& forall|i: int| 0 <= i < tools.len() ==> {
        let name = (#[trigger] tools[i]).name@;
        &&& name.len() > 0
        &&& trim_spec(name) == name
        &&& name != MCP_RESERVED@
        &&& !MCP_RESERVED_PREFIX@.is_prefix_of(name)
        &&& input_schema_result(tools[i].input_schema@) is Ok
    }
    &&& forall|i: int, j: int| 0 <= i < j < tools.len() ==> (#[trigger] tools[i]).name@ != (#[trigger] tools[j]).name@
}

/// Validation passes exactly when the dynamic tools are valid
/// ([`dynamic_tools_valid`]).
pub proof fn lemma_dynamic_tools_valid_iff(tools: Seq<DynamicToolSpec>)
    ensures
        first_dynamic_tool_error(tools) is None <==> dynamic_tools_valid(tools),
    decreases tools.len(),
{
    if first_dynamic_tool_error(tools) is None {
        lemma_validated_dynamic_tools(tools);
    }
    if dynamic_tools_valid(tools) && tools.len() > 0 {
        let init = tools.drop_last();
        assert(dynamic_tools_valid(init)) by {
            assert forall|i: int| 0 <= i < init.len() implies {
                let name = (#[trigger] init[i]).name@;
                &&& name.len() > 0
                &&& trim_spec(name) == name
                &&& name != MCP_RESERVED@
                &&& !MCP_RESERVED_PREFIX@.is_prefix_of(name)
                &&& input_schema_result(init[i].input_schema@) is Ok
            } by {
                assert(init[i] == tools[i]);
            }
            assert forall|i: int, j: int| 0 <= i < j < init.len() implies (#[trigger] init[i]).name@ != (#[trigger] init[j]).name@ by {
                assert(init[i] == tools[i]);
                assert(init[j] == tools[j]);
            }
        }
        lemma_dynamic_tools_valid_iff(init);
        let t = tools.last();
        let names = tool_names(init);
        assert(t == tools[tools.len() - 1]);
        if names.contains(t.name@) {
            let k = choose|k: int| 0 <= k < names.len() && names[k] == t.name@;
            assert(init[k] == tools[k]);
            assert(false);
        }
        assert(dynamic_tool_error(t, names) is None);
    }
}

/// Dynamic tools that pass validation have names that are not empty, carry no
/// surrounding whitespace, are not reserved for MCP tools and differ from each
/// other, and input schemas that read.
pub proof fn lemma_validated_dynamic_tools(tools: Seq<DynamicToolSpec>)
    requires
        first_dynamic_tool_error(tools) is None,
    ensures
        forall|i: int| 0 <= i < tools.len() ==> {
            let name = (#[trigger] tools[i]).name@;
            &&& name.len() > 0
            &&& trim_spec(name) == name
            &&& name != MCP_RESERVED@
            &&& !MCP_RESERVED_PREFIX@.is_prefix_of(name)
            &&& input_schema_result(tools[i].input_schema@) is Ok
        },
        forall|i: int, j: int| 0 <= i < j < tools.len() ==> (#[trigger] tools[i]).name@ != (#[trigger] tools[j]).name@,
    decreases tools.len(),
{
    if tools.len() > 0 {
        let init = tools.drop_last();
        lemma_validated_dynamic_tools(init);
        let t = tools.last();
        let names = tool_names(init);
        assert(dynamic_tool_error(t, names) is None);
        assert forall|i: int, j: int| 0 <= i < j < tools.len() implies (#[trigger] tools[i]).name@ != (#[trigger] tools[j]).name@ by {
            assert(tools[i] == init[i]);
            if j < tools.len() - 1 {
                assert(tools[j] == init[j]);
            } else {
                assert(names[i] == init[i].name@);
                assert(!names.contains(trim_spec(t.name@)));
            }
        }
        assert forall|i: int| 0 <= i < tools.len() implies {
            let name = (#[trigger] tools[i]).name@;
            &&& name.len() > 0
            &&& trim_spec(name) == name
            &&& name != MCP_RESERVED@
            &&& !MCP_RESERVED_PREFIX@.is_prefix_of(name)
            &&& input_schema_result(tools[i].input_schema@) is Ok
        } by {
            if i < tools.len() - 1 {
                assert(tools[i] == init[i]);
            }
        }
    }
}

/// Checks the dynamic tools a client defines: see [`dynamic_tool_error`].
pub fn validate_dynamic_tools(tools: &Vec<DynamicToolSpec>) -> (r: Result<(), String>)
    ensures
        match r {
            Ok(()) => first_dynamic_tool_error(tools@) is None,
            Err(e) => first_dynamic_tool_error(tools@) == Some(e@),
        },
{
    let ghost ts = tools@;
    let mut seen: Vec<String> = Vec::new();
    let mut i: usize = 0;
    assert(ts.take(0) =~= Seq::<DynamicToolSpec>::empty());
    while i < tools.len()
        invariant
            i <= tools.len(),
            ts == tools@,
            first_dynamic_tool_error(ts.take(i as int)) is None,
            seen@.map_values(|s: String| s@) == tool_names(ts.take(i as int)),
        decreases tools.len() - i,
    {
        assert(ts.take(i + 1).drop_last() =~= ts.take(i as int));
        assert(ts.take(i + 1).last() == ts[i as int]);
        let tool = &tools[i];
        let name = trim(tool.name.as_str());
        if name.unicode_len() == 0 {
            proof {
                lemma_first_error_prefix(ts, i as int + 1);
            }
            return Err(owned(EMPTY_NAME_ERROR));
        }
        if !str_eq(name, tool.name.as_str()) {
            let mut e = owned(WHITESPACE_NAME_ERROR);
            e.append(tool.name.as_str());
            proof {
                lemma_first_error_prefix(ts, i as int + 1);
            }
            return Err(e);
        }
        if str_eq(name, MCP_RESERVED) || starts_with(name, MCP_RESERVED_PREFIX) {
            let mut e = owned(RESERVED_NAME_ERROR);
            e.append(name);
            proof {
                lemma_first_error_prefix(ts, i as int + 1);
            }
            return Err(e);
        }
        let mut taken = false;
        let mut k: usize = 0;
        while k < seen.len()
            invariant
                k <= seen.len(),
                taken == (exists|j: int| 0 <= j < k && #[trigger] seen@[j]@ == name@),
            decreases seen.len() - k,
        {
            let ghost was = taken;
            if str_eq(seen[k].as_str(), name) {
                taken = true;
            }
            proof {
                if !taken {
                    assert forall|j: int| 0 <= j < k + 1 implies #[trigger] seen@[j]@ != name@ by {
                        if j < k {
                            assert(!was);
                        }
                    }
                }
            }
            k = k + 1;
        }
        assert(taken == seen@.map_values(|s: String| s@).contains(name@)) by {
            if taken {
                let j = choose|j: int| 0 <= j < seen.len() && #[trigger] seen@[j]@ == name@;
                assert(seen@.map_values(|s: String| s@)[j] == name@);
            }
        }
        if taken {
            let mut e = owned(DUPLICATE_NAME_ERROR);
            e.append(name);
            proof {
                lemma_first_error_prefix(ts, i as int + 1);
            }
            return Err(e);
        }
        match parse_tool_input_schema(&tool.input_schema) {
            Err(err) => {
                let mut e = owned(UNSUPPORTED_SCHEMA_ERROR);
                e.append(name);
                e.append(MESSAGE_SEPARATOR);
                e.append(err.message().as_str());
                proof {
                    lemma_first_error_prefix(ts, i as int + 1);
                }
                return Err(e);
            },
            Ok(_) => {},
        }
        let ghost before = seen@.map_values(|s: String| s@);
        seen.push(owned(name));
        assert(seen@.map_values(|s: String| s@) =~= before.push(tool.name@));
        assert(tool_names(ts.take(i + 1)) =~= tool_names(ts.take(i as int)).push(ts[i as int].name@));
        i = i + 1;
    }
    assert(ts.take(tools.len() as int) =~= ts);
    Ok(())
}

proof fn lemma_first_error_prefix(ts: Seq<DynamicToolSpec>, k: int)
    requires
        0 <= k <= ts.len(),
        first_dynamic_tool_error(ts.take(k)) is Some,
    ensures
        first_dynamic_tool_error(ts) == first_dynamic_tool_error(ts.take(k)),
    decreases ts.len(),
{
    if k == ts.len() {
        assert(ts.take(k) =~= ts);
    } else {
        let init = ts.drop_last();
        assert(init.take(k) =~= ts.take(k));
        lemma_first_error_prefix(init, k);
    }
}

/// An app as a client lists it.
#[derive(Debug, PartialEq)]
pub struct AppSummary {
    pub id: String,
    pub name: String,
    pub description: Option<String>,
    pub install_url: Option<String>,
}

/// What a summary says: id, name, description and install URL.
pub open spec fn summary_view(s: AppSummary) -> (Seq<char>, Seq<char>, Option<Seq<char>>, Option<Seq<char>>) {
    (s.id@, s.name@, opt_str(s.description), opt_str(s.install_url))
}

/// What the summary of an app listing says.
pub open spec fn app_summary_view(a: AppInfo) -> (Seq<char>, Seq<char>, Option<Seq<char>>, Option<Seq<char>>) {
    (a.id@, a.name@, opt_str(a.description), opt_str(a.install_url))
}

/// The apps of plugins that still need the user to connect them: none until the
/// apps server is ready; then each app, in order, that a plugin uses and that is not
/// accessible.
pub open spec fn apps_needing_auth(
    all: Seq<AppInfo>,
    accessible: Seq<AppInfo>,
    plugin_apps: Seq<Seq<char>>,
    ready: bool,
) -> Seq<AppInfo>
    decreases all.len(),
{
    if !ready || all.len() == 0 {
        Seq::empty()
    } else {
        let rest = apps_needing_auth(all.drop_last(), accessible, plugin_apps, ready);
        let id = all.last().id@;
        if plugin_apps.contains(id) && !app_ids(accessible).contains(id) {
            rest.push(all.last())
        } else {
            rest
        }
    }
}

fn contains_id(v: &Vec<String>, id: &str) -> (r: bool)
    ensures
        r == strs(v@).contains(id@),
{
    let mut i: usize = 0;
    while i < v.len()
        invariant
            i <= v.len(),
            forall|j: int| 0 <= j < i ==> #[trigger] v@[j]@ != id@,
        decreases v.len() - i,
    {
        if str_eq(v[i].as_str(), id) {
            assert(strs(v@)[i as int] == id@);
            return true;
        }
        i = i + 1;
    }
    assert forall|j: int| 0 <= j < v.len() implies #[trigger] strs(v@)[j] != id@ by {
        assert(v@[j]@ != id@);
    }
    false
}

fn accessible_contains(v: &Vec<AppInfo>, id: &str) -> (r: bool)
    ensures
        r == app_ids(v@).contains(id@),
{
    let mut i: usize = 0;
    while i < v.len()
        invariant
            i <= v.len(),
            forall|j: int| 0 <= j < i ==> #[trigger] v@[j].id@ != id@,
        decreases v.len() - i,
    {
        if str_eq(v[i].id.as_str(), id) {
            assert(app_ids(v@)[i as int] == id@);
            return true;
        }
        i = i + 1;
    }
    assert forall|j: int| 0 <= j < v.len() implies #[trigger] app_ids(v@)[j] != id@ by {
        assert(v@[j].id@ != id@);
    }
    false
}

fn summary_of(a: &AppInfo) -> (r: AppSummary)
    ensures
        summary_view(r) == app_summary_view(*a),
{
    AppSummary {
        id: owned(a.id.as_str()),
        name: owned(a.name.as_str()),
        description: clone_opt_string(&a.description),
        install_url: clone_opt_string(&a.install_url),
    }
}

/// The apps that a plugin needs and that still need sign-in: none until the
/// apps service is ready; then the connectors, in their order, that some plugin
/// names and that are not accessible.
pub proof fn lemma_apps_needing_auth_filter(
    all: Seq<AppInfo>,
    accessible: Seq<AppInfo>,
    plugin_apps: Seq<Seq<char>>,
    ready: bool,
)
    ensures
        !ready ==> apps_needing_auth(all, accessible, plugin_apps, ready) == Seq::<AppInfo>::empty(),
        ready ==> apps_needing_auth(all, accessible, plugin_apps, ready) == all.filter(
            |a: AppInfo| plugin_apps.contains(a.id@) && !app_ids(accessible).contains(a.id@),
        ),
    decreases all.len(),
{
    reveal(Seq::filter);
    if ready && all.len() > 0 {
        lemma_apps_needing_auth_filter(all.drop_last(), accessible, plugin_apps, ready);
    }
}


/// The apps of plugins that still need the user to connect them: see
/// [`apps_needing_auth`]; each is summarized from its listing in `all_connectors`.
pub fn plugin_apps_needing_auth(
    all_connectors: &Vec<AppInfo>,
    accessible_connectors: &Vec<AppInfo>,
    plugin_apps: &Vec<String>,
    codex_apps_ready: bool,
) -> (r: Vec<AppSummary>)
    ensures
        r@.map_values(|s: AppSummary| summary_view(s)) == apps_needing_auth(
            all_connectors@,
            accessible_connectors@,
            strs(plugin_apps@),
            codex_apps_ready,
        ).map_values(|a: AppInfo| app_summary_view(a)),
{
    let mut out: Vec<AppSummary> = Vec::new();
    if !codex_apps_ready {
        assert(out@.map_values(|s: AppSummary| summary_view(s)) =~= Seq::<AppInfo>::empty().map_values(
            |a: AppInfo| app_summary_view(a),
        ));
        return out;
    }
    let ghost all = all_connectors@;
    let mut i: usize = 0;
    assert(all.take(0) =~= Seq::<AppInfo>::empty());
    while i < all_connectors.len()
        invariant
            i <= all_connectors.len(),
            all == all_connectors@,
            codex_apps_ready,
            out@.map_values(|s: AppSummary| summary_view(s)) == apps_needing_auth(
                all.take(i as int),
                accessible_connectors@,
                strs(plugin_apps@),
                codex_apps_ready,
            ).map_values(|a: AppInfo| app_summary_view(a)),
        decreases all_connectors.len() - i,
    {
        assert(all.take(i + 1).drop_last() =~= all.take(i as int));
        assert(all.take(i + 1).last() == all[i as int]);
        let c = &all_connectors[i];
        if contains_id(plugin_apps, c.id.as_str()) && !accessible_contains(accessible_connectors, c.id.as_str()) {
            let ghost before = out@.map_values(|s: AppSummary| summary_view(s));
            let ghost prev = apps_needing_auth(all.take(i as int), accessible_connectors@, strs(plugin_apps@), codex_apps_ready);
            out.push(summary_of(c));
            assert(prev.push(*c).map_values(|a: AppInfo| app_summary_view(a)) =~= prev.map_values(
                |a: AppInfo| app_summary_view(a),
            ).push(app_summary_view(*c)));
            assert(out@.map_values(|s: AppSummary| summary_view(s)) =~= before.push(app_summary_view(*c)));
        }
        i = i + 1;
    }
    assert(all.take(all_connectors.len() as int) =~= all);
    out
}

/// Whether clients are told that the app list changed: when some app is accessible,
/// or when both lists have loaded.
pub fn should_send_app_list_updated_notification(
    connectors: &Vec<AppInfo>,
    accessible_loaded: bool,
    all_loaded: bool,
) -> (r: bool)
    ensures
        r == ((exists|i: int| 0 <= i < connectors.len() && #[trigger] connectors@[i].is_accessible) || (
        accessible_loaded && all_loaded)),
{
    let mut i: usize = 0;
    while i < connectors.len()
        invariant
            i <= connectors.len(),
            forall|j: int| 0 <= j < i ==> !(#[trigger] connectors@[j]).is_accessible,
        decreases connectors.len() - i,
    {
        if connectors[i].is_accessible {
            return true;
        }
        i = i + 1;
    }
    accessible_loaded && all_loaded
}

/// A JSON-RPC error answered to a client.
#[derive(Debug, PartialEq)]
pub struct RpcError {
    pub code: i64,
    pub message: String,
}

pub const INVALID_REQUEST_ERROR_CODE: i64 = -32600;
pub const CURSOR_HEAD: &'static str = "cursor ";
pub const CURSOR_TAIL: &'static str = " exceeds total apps ";

pub open spec fn app_view(a: AppInfo) -> (Seq<char>, Seq<char>, Option<Seq<char>>, Option<Seq<char>>, bool, bool) {
    (a.id@, a.name@, opt_str(a.description), opt_str(a.install_url), a.is_accessible, a.is_enabled)
}

/// A copy of an app listing.
pub fn clone_app_info(a: &AppInfo) -> (r: AppInfo)
    ensures
        app_view(r) == app_view(*a),
{
    AppInfo {
        id: owned(a.id.as_str()),
        name: owned(a.name.as_str()),
        description: clone_opt_string(&a.description),
        install_url: clone_opt_string(&a.install_url),
        is_accessible: a.is_accessible,
        is_enabled: a.is_enabled,
    }
}

/// How many apps a page holds: the limit, or all apps (their count as a `u32`) when
/// there is none, and at least one.
pub open spec fn page_size(total: nat, limit: Option<u32>) -> int {
    let l = match limit {
        Some(l) => l,
        None => total as u32,
    };
    if l == 0 {
        1
    } else {
        l as int
    }
}

/// One page of the app list: from `start`, [`page_size`] apps or up to the end, and
/// the cursor of the next page when apps remain; an error when `start` is past the
/// end.
pub fn paginate_apps(connectors: &Vec<AppInfo>, start: usize, limit: Option<u32>) -> (r: Result<(Vec<AppInfo>, Option<String>), RpcError>)
    ensures
        start > connectors.len() ==> (r matches Err(e) && e.code == INVALID_REQUEST_ERROR_CODE && e.message@
            == CURSOR_HEAD@ + decimal(start as nat) + CURSOR_TAIL@ + decimal(connectors.len() as nat)),
        start <= connectors.len() ==> (r matches Ok((data, next)) && {
            let size = page_size(connectors.len() as nat, limit);
            let end = if start + size < connectors.len() { start + size } else { connectors.len() as int };
            &&& data@.map_values(|a: AppInfo| app_view(a)) == connectors@.subrange(start as int, end).map_values(
                |a: AppInfo| app_view(a),
            )
            &&& (end < connectors.len() ==> (next matches Some(c) && c@ == decimal(end as nat)))
            &&& (end >= connectors.len() ==> next is None)
        }),
{
    let total = connectors.len();
    if start > total {
        let mut message = owned(CURSOR_HEAD);
        message.append(decimal_string(start as u64).as_str());
        message.append(CURSOR_TAIL);
        message.append(decimal_string(total as u64).as_str());
        return Err(RpcError { code: INVALID_REQUEST_ERROR_CODE, message });
    }
    let l: u32 = match limit {
        Some(l) => l,
        None => total as u32,
    };
    let size: usize = if l == 0 { 1 } else { l as usize };
    let end = if size < total - start { start + size } else { total };
    let mut data: Vec<AppInfo> = Vec::new();
    let mut i: usize = start;
    while i < end
        invariant
            start <= i <= end,
            end <= total,
            total == connectors.len(),
            data.len() == i - start,
            forall|j: int| 0 <= j < data.len() ==> #[trigger] app_view(data@[j]) == app_view(connectors@[start + j]),
        decreases end - i,
    {
        data.push(clone_app_info(&connectors[i]));
        i = i + 1;
    }
    assert(data@.map_values(|a: AppInfo| app_view(a)) =~= connectors@.subrange(start as int, end as int).map_values(
        |a: AppInfo| app_view(a),
    ));
    let next_cursor = if end < total {
        Some(decimal_string(end as u64))
    } else {
        None
    };
    Ok((data, next_cursor))
}


/// What a client asks to have reviewed.
#[derive(Debug, PartialEq)]
pub enum ReviewTarget {
    UncommittedChanges,
    BaseBranch { branch: String },
    Commit { sha: String, title: Option<String> },
    Custom { instructions: String },
}

/// The content of a [`ReviewTarget`].
pub enum ReviewTargetView {
    UncommittedChanges,
    BaseBranch { branch: Seq<char> },
    Commit { sha: Seq<char>, title: Option<Seq<char>> },
    Custom { instructions: Seq<char> },
}

impl View for ReviewTarget {
    type V = ReviewTargetView;

    open spec fn view(&self) -> ReviewTargetView {
        match self {
            ReviewTarget::UncommittedChanges => ReviewTargetView::UncommittedChanges,
            ReviewTarget::BaseBranch { branch } => ReviewTargetView::BaseBranch { branch: branch@ },
            ReviewTarget::Commit { sha, title } => ReviewTargetView::Commit { sha: sha@, title: opt_str(*title) },
            ReviewTarget::Custom { instructions } => ReviewTargetView::Custom { instructions: instructions@ },
        }
    }
}

pub const EMPTY_BRANCH_ERROR: &'static str = "branch must not be empty";
pub const EMPTY_SHA_ERROR: &'static str = "sha must not be empty";
pub const EMPTY_INSTRUCTIONS_ERROR: &'static str = "instructions must not be empty";

/// A review target with its texts trimmed, or the message of the error that a
/// target with an empty branch, commit or instructions gets; a commit title that is
/// empty once trimmed is dropped.
pub open spec fn cleaned_review_target(t: ReviewTargetView) -> Result<ReviewTargetView, Seq<char>> {
    match t {
        ReviewTargetView::UncommittedChanges => Ok(ReviewTargetView::UncommittedChanges),
        ReviewTargetView::BaseBranch { branch } => if trim_spec(branch).len() == 0 {
            Err(EMPTY_BRANCH_ERROR@)
        } else {
            Ok(ReviewTargetView::BaseBranch { branch: trim_spec(branch) })
        },
        ReviewTargetView::Commit { sha, title } => if trim_spec(sha).len() == 0 {
            Err(EMPTY_SHA_ERROR@)
        } else {
            Ok(
                ReviewTargetView::Commit {
                    sha: trim_spec(sha),
                    title: match title {
                        Some(x) => if trim_spec(x).len() > 0 {
                            Some(trim_spec(x))
                        } else {
                            None
                        },
                        None => None,
                    },
                },
            )
        },
        ReviewTargetView::Custom { instructions } => if trim_spec(instructions).len() == 0 {
            Err(EMPTY_INSTRUCTIONS_ERROR@)
        } else {
            Ok(ReviewTargetView::Custom { instructions: trim_spec(instructions) })
        },
    }
}

fn invalid_request(message: &str) -> (r: RpcError)
    ensures
        r.code == INVALID_REQUEST_ERROR_CODE,
        r.message@ == message@,
{
    RpcError { code: INVALID_REQUEST_ERROR_CODE, message: owned(message) }
}

/// A review target made ready to review: see [`cleaned_review_target`]; its errors
/// are invalid requests.
pub fn clean_review_target(target: ReviewTarget) -> (r: Result<ReviewTarget, RpcError>)
    ensures
        match r {
            Ok(t) => cleaned_review_target(target@) == Ok::<ReviewTargetView, Seq<char>>(t@),
            Err(e) => e.code == INVALID_REQUEST_ERROR_CODE && cleaned_review_target(target@)
                == Err::<ReviewTargetView, Seq<char>>(e.message@),
        },
{
    match target {
        ReviewTarget::UncommittedChanges => Ok(ReviewTarget::UncommittedChanges),
        ReviewTarget::BaseBranch { branch } => {
            let b = trim(branch.as_str());
            if b.unicode_len() == 0 {
                return Err(invalid_request(EMPTY_BRANCH_ERROR));
            }
            Ok(ReviewTarget::BaseBranch { branch: owned(b) })
        },
        ReviewTarget::Commit { sha, title } => {
            let s = trim(sha.as_str());
            if s.unicode_len() == 0 {
                return Err(invalid_request(EMPTY_SHA_ERROR));
            }
            let title = match &title {
                Some(x) => {
                    let t = trim(x.as_str());
                    if t.unicode_len() > 0 {
                        Some(owned(t))
                    } else {
                        None
                    }
                },
                None => None,
            };
            Ok(ReviewTarget::Commit { sha: owned(s), title })
        },
        ReviewTarget::Custom { instructions } => {
            let i = trim(instructions.as_str());
            if i.unicode_len() == 0 {
                return Err(invalid_request(EMPTY_INSTRUCTIONS_ERROR));
            }
            Ok(ReviewTarget::Custom { instructions: owned(i) })
        },
    }
}


/// The value of a cursor, read as Rust reads a `usize`: an optional `+`, then a
/// non-empty run of decimal digits whose value fits.
pub open spec fn usize_of(t: Seq<char>) -> Option<usize> {
    let digits = if t.len() > 0 && t[0] == '+' {
        t.drop_first()
    } else {
        t
    };
    match u64_of(digits) {
        Some(v) => if v <= usize::MAX {
            Some(v as usize)
        } else {
            None
        },
        None => None,
    }
}

/// Reads a cursor as a `usize`: see [`usize_of`].
pub fn parse_usize(t: &str) -> (r: Option<usize>)
    ensures
        r == usize_of(t@),
{
    let digits = if t.unicode_len() > 0 && t.get_char(0) == '+' {
        let d = t.substring_char(1, t.unicode_len());
        assert(d@ =~= t@.drop_first());
        d
    } else {
        t
    };
    match parse_u64(digits) {
        Some(v) => if v <= usize::MAX as u64 {
            Some(v as usize)
        } else {
            None
        },
        None => None,
    }
}

pub const INVALID_CURSOR_ERROR: &'static str = "invalid cursor: ";
pub const EXCEEDS_TOTAL: &'static str = " exceeds total ";
pub const SPACE: &'static str = " ";

/// One page of a list of `total` items that a cursor gives the start of: none when
/// the list is empty; else the cursor (a `usize`, `0` when absent) must read and not
/// lie past the end. The page holds [`page_size`] items, no more than the list, or
/// up to the end; the next cursor is where it ends, when items remain. `noun` names
/// the items in the error.
pub open spec fn list_page(total: nat, cursor: Option<Seq<char>>, limit: Option<u32>, noun: Seq<char>) -> Result<
    (nat, nat, Option<Seq<char>>),
    Seq<char>,
> {
    if total == 0 {
        Ok((0, 0, None))
    } else {
        let start: Result<nat, Seq<char>> = match cursor {
            None => Ok(0),
            Some(c) => match usize_of(c) {
                Some(v) => Ok(v as nat),
                None => Err(INVALID_CURSOR_ERROR@ + c),
            },
        };
        match start {
            Err(e) => Err(e),
            Ok(start) => if start > total {
                Err(CURSOR_HEAD@ + decimal(start) + EXCEEDS_TOTAL@ + noun + SPACE@ + decimal(total))
            } else {
                let size = if page_size(total, limit) < total {
                    page_size(total, limit)
                } else {
                    total as int
                };
                let end = if start + size < total {
                    (start + size) as nat
                } else {
                    total
                };
                Ok((start, end, if end < total { Some(decimal(end)) } else { None }))
            },
        }
    }
}

/// Where a page of a list starts and ends, and the cursor of the next page.
#[derive(Debug, PartialEq)]
pub struct ListPage {
    pub start: usize,
    pub end: usize,
    pub next_cursor: Option<String>,
}

/// One page of a list of `total` items: see [`list_page`]; its errors are invalid
/// requests.
pub fn list_page_bounds(total: usize, cursor: Option<&str>, limit: Option<u32>, noun: &str) -> (r: Result<ListPage, RpcError>)
    ensures
        match r {
            Ok(p) => list_page(
                total as nat,
                match cursor {
                    Some(c) => Some(c@),
                    None => None,
                },
                limit,
                noun@,
            ) == Ok::<(nat, nat, Option<Seq<char>>), Seq<char>>(
                (p.start as nat, p.end as nat, opt_str(p.next_cursor)),
            ),
            Err(e) => e.code == INVALID_REQUEST_ERROR_CODE && list_page(
                total as nat,
                match cursor {
                    Some(c) => Some(c@),
                    None => None,
                },
                limit,
                noun@,
            ) == Err::<(nat, nat, Option<Seq<char>>), Seq<char>>(e.message@),
        },
{
    if total == 0 {
        return Ok(ListPage { start: 0, end: 0, next_cursor: None });
    }
    let start = match cursor {
        None => 0,
        Some(c) => match parse_usize(c) {
            Some(v) => v,
            None => {
                let mut message = owned(INVALID_CURSOR_ERROR);
                message.append(c);
                return Err(RpcError { code: INVALID_REQUEST_ERROR_CODE, message });
            },
        },
    };
    if start > total {
        let mut message = owned(CURSOR_HEAD);
        message.append(decimal_string(start as u64).as_str());
        message.append(EXCEEDS_TOTAL);
        message.append(noun);
        message.append(SPACE);
        message.append(decimal_string(total as u64).as_str());
        return Err(RpcError { code: INVALID_REQUEST_ERROR_CODE, message });
    }
    let l: u32 = match limit {
        Some(l) => l,
        None => total as u32,
    };
    let size: usize = if l == 0 { 1 } else { l as usize };
    let size = if size < total { size } else { total };
    let end = if size < total - start { start + size } else { total };
    let next_cursor = if end < total {
        Some(decimal_string(end as u64))
    } else {
        None
    };
    Ok(ListPage { start, end, next_cursor })
}

proof fn lemma_digit_text(d: nat)
    requires
        d < 10,
    ensures
        digit_text(d) == seq![((('0' as int) + d) as char)],
{
    reveal_strlit("0");
    reveal_strlit("1");
    reveal_strlit("2");
    reveal_strlit("3");
    reveal_strlit("4");
    reveal_strlit("5");
    reveal_strlit("6");
    reveal_strlit("7");
    reveal_strlit("8");
    reveal_strlit("9");
    assert(digit_text(d) =~= seq![((('0' as int) + d) as char)]);
}

pub(crate) proof fn lemma_decimal_reads_back(n: nat)
    ensures
        decimal(n).len() > 0,
        all_digits(decimal(n)),
        digits_value(decimal(n)) == n,
    decreases n,
{
    if n < 10 {
        lemma_digit_text(n);
        let t = decimal(n);
        let c = ((('0' as int) + n) as char);
        assert(c as int == ('0' as int) + n);
        assert(t.drop_last() =~= Seq::<char>::empty());
        assert(digits_value(t.drop_last()) == 0);
        assert(t.last() == c);
        assert(digits_value(t) == digits_value(t.drop_last()) * 10 + ((t.last() as int) - ('0' as int)) as nat);
    } else {
        lemma_decimal_reads_back(n / 10);
        lemma_digit_text(n % 10);
        let head = decimal(n / 10);
        let t = decimal(n);
        assert(t.drop_last() =~= head);
        let c = ((('0' as int) + n % 10) as char);
        assert(c as int == ('0' as int) + n % 10);
        assert(t.last() == c);
        assert(digits_value(t) == digits_value(t.drop_last()) * 10 + ((t.last() as int) - ('0' as int)) as nat);
        assert(n == (n / 10) * 10 + n % 10) by (nonlinear_arith);
        assert forall|i: int| 0 <= i < t.len() implies '0' <= #[trigger] t[i] && t[i] <= '9' by {
            if i < head.len() {
                assert(t[i] == head[i]);
            }
        }
    }
}

/// A cursor written as a number reads back as that number.
proof fn lemma_cursor_reads_back(n: nat)
    requires
        n <= usize::MAX,
    ensures
        usize_of(decimal(n)) == Some(n as usize),
{
    lemma_decimal_reads_back(n);
    assert('0' <= decimal(n)[0] && decimal(n)[0] <= '9');
}

/// Paging moves forward and loses nothing: a page of a non-empty list that has a
/// next cursor ends past where it starts, and the page that cursor asks for starts
/// where this one ended; a page without a next cursor ends the list.
pub proof fn lemma_list_page_next(total: nat, cursor: Option<Seq<char>>, limit: Option<u32>, noun: Seq<char>)
    requires
        0 < total <= usize::MAX,
        list_page(total, cursor, limit, noun) is Ok,
    ensures
        ({
            let (start, end, next) = list_page(total, cursor, limit, noun)->Ok_0;
            &&& next is None ==> end == total
            &&& next is Some ==> {
                &&& start < end < total
                &&& list_page(total, next, limit, noun) matches Ok((start2, _, _)) && start2 == end
            }
        }),
{
    let (start, end, next) = list_page(total, cursor, limit, noun)->Ok_0;
    if next is Some {
        lemma_cursor_reads_back(end);
    }
}

}
