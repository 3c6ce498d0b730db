use vstd::prelude::*;

use crate::app_list::INTERNAL_ERROR_CODE;
use crate::app_server::{page_size, RpcError, INVALID_CURSOR_ERROR, INVALID_REQUEST_ERROR_CODE};
use crate::code_mode_runtime::{is_lower_hex, uuid_hyphenated};
use crate::sorting::{keyed, sort_by_key, sort_by_name};
use crate::schema::{clone_opt_string, opt_str};
use crate::strings::{occurs_at, trim, trim_spec, views};
use crate::text::{owned, str_eq, str_less, str_lt};

verus! {

/// The marker after which a user message holds what the user typed.
pub const USER_MESSAGE_BEGIN: &'static str = "## My request for Codex:";

/// Where `pat` first occurs in `s`.
pub open spec fn first_occurrence(s: Seq<char>, pat: Seq<char>) -> Option<int>
    decreases s.len(),
{
    if pat.is_prefix_of(s) {
        Some(0)
    } else if s.len() == 0 {
        None
    } else {
        match first_occurrence(s.drop_first(), pat) {
            Some(i) => Some(i + 1),
            None => None,
        }
    }
}

proof fn lemma_first_occurrence(s: Seq<char>, pat: Seq<char>, i: int)
    requires
        0 <= i <= s.len(),
        forall|j: int| 0 <= j < i ==> !pat.is_prefix_of(#[trigger] s.skip(j)),
    ensures
        pat.is_prefix_of(s.skip(i)) ==> first_occurrence(s, pat) == Some(i),
        i == s.len() && !pat.is_prefix_of(s.skip(i)) ==> first_occurrence(s, pat) is None,
    decreases i,
{
    if i > 0 {
        let rest = s.drop_first();
        assert(s.skip(0) =~= s);
        assert forall|j: int| 0 <= j < i - 1 implies !pat.is_prefix_of(#[trigger] rest.skip(j)) by {
            assert(rest.skip(j) =~= s.skip(j + 1));
        }
        assert(rest.skip(i - 1) =~= s.skip(i));
        lemma_first_occurrence(rest, pat, i - 1);
    } else {
        assert(s.skip(0) =~= s);
    }
}

/// Where `pat` first occurs in `s`: see [`first_occurrence`].
pub fn find(s: &str, pat: &str) -> (r: Option<usize>)
    ensures
        match r {
            Some(i) => first_occurrence(s@, pat@) == Some(i as int),
            None => first_occurrence(s@, pat@) is None,
        },
{
    let n = s.unicode_len();
    let m = pat.unicode_len();
    let mut i: usize = 0;
    while i < n
        invariant
            n == s@.len(),
            m == pat@.len(),
            i <= n,
            forall|j: int| 0 <= j < i ==> !pat@.is_prefix_of(#[trigger] s@.skip(j)),
        decreases n - i,
    {
        if occurs_at(s, n, pat, m, i) {
            proof {
                lemma_first_occurrence(s@, pat@, i as int);
            }
            return Some(i);
        }
        i = i + 1;
    }
    proof {
        lemma_first_occurrence(s@, pat@, n as int);
    }
    if occurs_at(s, n, pat, m, n) {
        Some(n)
    } else {
        None
    }
}

/// The preview of a conversation from its first user message: what follows the
/// marker that starts the user's own words, trimmed, when the marker occurs; else the
/// whole message.
pub open spec fn preview_text(message: Seq<char>) -> Seq<char> {
    match first_occurrence(message, USER_MESSAGE_BEGIN@) {
        Some(i) => trim_spec(message.skip(i + USER_MESSAGE_BEGIN@.len())),
        None => message,
    }
}

/// The preview of a conversation from its first user message: see [`preview_text`].
pub fn conversation_preview(message: &str) -> (r: String)
    ensures
        r@ == preview_text(message@),
{
    match find(message, USER_MESSAGE_BEGIN) {
        Some(i) => {
            proof {
                lemma_first_occurrence_bound(message@, USER_MESSAGE_BEGIN@);
            }
            let n = message.unicode_len();
            let m = USER_MESSAGE_BEGIN.unicode_len();
            let rest = message.substring_char(i + m, n);
            assert(rest@ =~= message@.skip(i + m));
            owned(trim(rest))
        },
        None => owned(message),
    }
}

proof fn lemma_first_occurrence_bound(s: Seq<char>, pat: Seq<char>)
    ensures
        first_occurrence(s, pat) matches Some(i) ==> 0 <= i && i + pat.len() <= s.len(),
    decreases s.len(),
{
    if !pat.is_prefix_of(s) && s.len() > 0 {
        lemma_first_occurrence_bound(s.drop_first(), pat);
    }
}

/// The preview of a thread from the first user message of its history: see
/// [`preview_text`]; empty when the history holds no user message.
pub fn preview_from_rollout_items(first_user_message: Option<String>) -> (r: String)
    ensures
        r@ == match first_user_message {
            Some(m) => preview_text(m@),
            None => Seq::empty(),
        },
{
    match first_user_message {
        Some(m) => conversation_preview(m.as_str()),
        None => String::new(),
    }
}

/// Where a repository stands, as a conversation listing shows it.
#[derive(Debug, PartialEq)]
pub struct ConversationGitInfo {
    pub sha: Option<String>,
    pub branch: Option<String>,
    pub origin_url: Option<String>,
}

/// What a session recorded about itself when it began.
pub struct SessionMeta {
    pub id: String,
    pub timestamp: String,
    pub cwd: String,
    pub cli_version: String,
    pub model_provider: Option<String>,
    /// Which client started the session.
    pub source: String,
}

/// A conversation as it is listed.
#[derive(Debug, PartialEq)]
pub struct ConversationSummary {
    pub conversation_id: String,
    pub timestamp: Option<String>,
    pub updated_at: Option<String>,
    pub path: String,
    pub preview: String,
    pub model_provider: String,
    pub cwd: String,
    pub cli_version: String,
    pub source: String,
    pub git_info: Option<ConversationGitInfo>,
}

pub open spec fn git_view(g: ConversationGitInfo) -> (Option<Seq<char>>, Option<Seq<char>>, Option<Seq<char>>) {
    (opt_str(g.sha), opt_str(g.branch), opt_str(g.origin_url))
}

/// What a summary says.
pub struct SummaryView {
    pub conversation_id: Seq<char>,
    pub timestamp: Option<Seq<char>>,
    pub updated_at: Option<Seq<char>>,
    pub path: Seq<char>,
    pub preview: Seq<char>,
    pub model_provider: Seq<char>,
    pub cwd: Seq<char>,
    pub cli_version: Seq<char>,
    pub source: Seq<char>,
    pub git_info: Option<(Option<Seq<char>>, Option<Seq<char>>, Option<Seq<char>>)>,
}

impl View for ConversationSummary {
    type V = SummaryView;

    open spec fn view(&self) -> SummaryView {
        SummaryView {
            conversation_id: self.conversation_id@,
            timestamp: opt_str(self.timestamp),
            updated_at: opt_str(self.updated_at),
            path: self.path@,
            preview: self.preview@,
            model_provider: self.model_provider@,
            cwd: self.cwd@,
            cli_version: self.cli_version@,
            source: self.source@,
            git_info: match self.git_info {
                Some(g) => Some(git_view(g)),
                None => None,
            },
        }
    }
}

/// The listing of a conversation whose history starts with `meta` and whose first
/// user message is given; none without a user message. An empty timestamp counts as
/// none, the fallback provider stands in for a missing one, and the time of the last
/// update defaults to the start.
pub open spec fn conversation_summary(
    path: Seq<char>,
    first_user_message: Option<Seq<char>>,
    meta: SessionMeta,
    git: Option<(Option<Seq<char>>, Option<Seq<char>>, Option<Seq<char>>)>,
    fallback_provider: Seq<char>,
    updated_at: Option<Seq<char>>,
) -> Option<SummaryView> {
    match first_user_message {
        None => None,
        Some(message) => {
            let timestamp = if meta.timestamp@.len() == 0 {
                None
            } else {
                Some(meta.timestamp@)
            };
            Some(
                SummaryView {
                    conversation_id: meta.id@,
                    timestamp,
                    updated_at: match updated_at {
                        Some(u) => Some(u),
                        None => timestamp,
                    },
                    path,
                    preview: preview_text(message),
                    model_provider: match meta.model_provider {
                        Some(p) => p@,
                        None => fallback_provider,
                    },
                    cwd: meta.cwd@,
                    cli_version: meta.cli_version@,
                    source: meta.source@,
                    git_info: git,
                },
            )
        },
    }
}

fn clone_git(g: &ConversationGitInfo) -> (r: ConversationGitInfo)
    ensures
        git_view(r) == git_view(*g),
{
    ConversationGitInfo {
        sha: clone_opt_string(&g.sha),
        branch: clone_opt_string(&g.branch),
        origin_url: clone_opt_string(&g.origin_url),
    }
}

/// The listing of a conversation: see [`conversation_summary`]. Which item of the
/// history is its first user message the caller decides.
pub fn extract_conversation_summary(
    path: &str,
    first_user_message: Option<&str>,
    session_meta: &SessionMeta,
    git: Option<&ConversationGitInfo>,
    fallback_provider: &str,
    updated_at: Option<String>,
) -> (r: Option<ConversationSummary>)
    ensures
        match r {
            Some(s) => conversation_summary(
                path@,
                match first_user_message {
                    Some(m) => Some(m@),
                    None => None,
                },
                *session_meta,
                match git {
                    Some(g) => Some(git_view(*g)),
                    None => None,
                },
                fallback_provider@,
                opt_str(updated_at),
            ) == Some(s@),
            None => first_user_message is None,
        },
{
    let message = match first_user_message {
        Some(m) => m,
        None => {
            return None;
        },
    };
    let preview = conversation_preview(message);
    let timestamp = if session_meta.timestamp.unicode_len() == 0 {
        None
    } else {
        Some(owned(session_meta.timestamp.as_str()))
    };
    let model_provider = match &session_meta.model_provider {
        Some(p) => owned(p.as_str()),
        None => owned(fallback_provider),
    };
    let updated_at = match updated_at {
        Some(u) => Some(u),
        None => clone_opt_string(&timestamp),
    };
    let git_info = match git {
        Some(g) => Some(clone_git(g)),
        None => None,
    };
    Some(
        ConversationSummary {
            conversation_id: owned(session_meta.id.as_str()),
            timestamp,
            updated_at,
            path: owned(path),
            preview,
            model_provider,
            cwd: owned(session_meta.cwd.as_str()),
            cli_version: owned(session_meta.cli_version.as_str()),
            source: owned(session_meta.source.as_str()),
            git_info,
        },
    )
}


/// The listing of a conversation read from its rollout: the summary that
/// [`conversation_summary`] gives when there is a first user message, else the
/// same listing with an empty preview.
pub open spec fn rollout_summary(
    path: Seq<char>,
    first_user_message: Option<Seq<char>>,
    meta: SessionMeta,
    git: Option<(Option<Seq<char>>, Option<Seq<char>>, Option<Seq<char>>)>,
    fallback_provider: Seq<char>,
    updated_at: Option<Seq<char>>,
) -> SummaryView {
    let timestamp = if meta.timestamp@.len() == 0 {
        None
    } else {
        Some(meta.timestamp@)
    };
    SummaryView {
        conversation_id: meta.id@,
        timestamp,
        updated_at: match updated_at {
            Some(u) => Some(u),
            None => timestamp,
        },
        path,
        preview: match first_user_message {
            Some(m) => preview_text(m),
            None => Seq::empty(),
        },
        model_provider: match meta.model_provider {
            Some(p) => p@,
            None => fallback_provider,
        },
        cwd: meta.cwd@,
        cli_version: meta.cli_version@,
        source: meta.source@,
        git_info: git,
    }
}

/// The listing of a conversation read from its rollout: see [`rollout_summary`].
pub fn summary_from_rollout(
    path: &str,
    first_user_message: Option<&str>,
    session_meta: &SessionMeta,
    git: Option<&ConversationGitInfo>,
    fallback_provider: &str,
    updated_at: Option<String>,
) -> (r: ConversationSummary)
    ensures
        r@ == rollout_summary(
            path@,
            match first_user_message {
                Some(m) => Some(m@),
                None => None,
            },
            *session_meta,
            match git {
                Some(g) => Some(git_view(*g)),
                None => None,
            },
            fallback_provider@,
            opt_str(updated_at),
        ),
{
    let kept = clone_opt_string(&updated_at);
    match extract_conversation_summary(path, first_user_message, session_meta, git, fallback_provider, updated_at) {
        Some(s) => s,
        None => {
            let timestamp = if session_meta.timestamp.unicode_len() == 0 {
                None
            } else {
                Some(owned(session_meta.timestamp.as_str()))
            };
            let model_provider = match &session_meta.model_provider {
                Some(p) => owned(p.as_str()),
                None => owned(fallback_provider),
            };
            let updated_at = match kept {
                Some(u) => Some(u),
                None => clone_opt_string(&timestamp),
            };
            let git_info = match git {
                Some(g) => Some(clone_git(g)),
                None => None,
            };
            ConversationSummary {
                conversation_id: owned(session_meta.id.as_str()),
                timestamp,
                updated_at,
                path: owned(path),
                preview: String::new(),
                model_provider,
                cwd: owned(session_meta.cwd.as_str()),
                cli_version: owned(session_meta.cli_version.as_str()),
                source: owned(session_meta.source.as_str()),
                git_info,
            }
        },
    }
}

/// What looking for a thread's rollout file on disk gave.
#[derive(Debug, PartialEq)]
pub enum RolloutLookup {
    Found,
    NotFound,
    /// The lookup failed with this message.
    Failed(String),
}

/// The mathematical content of a [`RolloutLookup`].
pub enum LookupView {
    Found,
    NotFound,
    Failed(Seq<char>),
}

impl View for RolloutLookup {
    type V = LookupView;

    open spec fn view(&self) -> LookupView {
        match self {
            RolloutLookup::Found => LookupView::Found,
            RolloutLookup::NotFound => LookupView::NotFound,
            RolloutLookup::Failed(m) => LookupView::Failed(m@),
        }
    }
}

/// Where the listing of a thread that is read comes from.
#[derive(Debug, PartialEq, Eq, Clone, Copy, Structural)]
pub enum ThreadSummarySource {
    /// The summary kept in the state database.
    StateDb,
    /// The rollout file that the lookup found.
    Rollout,
    /// The thread that is loaded in memory.
    LoadedThread,
}

/// Which rollout file a read takes the turns from, if any.
#[derive(Debug, PartialEq, Eq, Clone, Copy, Structural)]
pub enum TurnsSource {
    NoTurns,
    /// The path that the state database keeps.
    StateDbPath,
    /// The path that the lookup found.
    LocatedPath,
    /// The loaded thread's own rollout path.
    LoadedPath,
}

/// How a thread is read.
#[derive(Debug, PartialEq, Eq, Clone, Copy, Structural)]
pub struct ThreadReadPlan {
    pub summary: ThreadSummarySource,
    pub turns: TurnsSource,
}

pub const LOCATE_FAILED_HEAD: &'static str = "failed to locate thread id ";
pub const LOCATE_FAILED_SEPARATOR: &'static str = ": ";
pub const ROLLOUT_MISSING_HEAD: &'static str = "failed to locate rollout for thread ";
pub const NOT_LOADED_HEAD: &'static str = "thread not loaded: ";
pub const EPHEMERAL_TURNS_ERROR: &'static str = "ephemeral threads do not support includeTurns";

/// Whether reading a thread looks for its rollout file on disk: when the state
/// database holds no summary (and so no path), or when turns are asked for.
pub open spec fn read_needs_lookup(has_db_summary: bool, include_turns: bool) -> bool {
    !has_db_summary || include_turns
}

/// Whether reading a thread looks for its rollout file: see [`read_needs_lookup`].
pub fn thread_read_needs_lookup(has_db_summary: bool, include_turns: bool) -> (r: bool)
    ensures
        r == read_needs_lookup(has_db_summary, include_turns),
{
    !has_db_summary || include_turns
}

/// How a thread is read, or the error (code and message) that answers the
/// request. The rollout path is the state database's, replaced by the one the
/// lookup found, or dropped when the lookup found none and turns are asked for;
/// a failed lookup is an invalid request. Turns asked for with a summary but no
/// path are an internal error. The listing comes from the state database, else
/// the rollout file, else the loaded thread (`loaded` tells whether it has a
/// rollout path of its own); a thread that is not loaded, or an ephemeral one
/// whose turns are asked for, is an invalid request.
pub open spec fn thread_read_plan(
    thread_id: Seq<char>,
    has_db_summary: bool,
    include_turns: bool,
    lookup: Option<LookupView>,
    loaded: Option<bool>,
) -> Result<ThreadReadPlan, (i64, Seq<char>)> {
    let path0 = if has_db_summary {
        TurnsSource::StateDbPath
    } else {
        TurnsSource::NoTurns
    };
    let path: Result<TurnsSource, (i64, Seq<char>)> = match lookup {
        None => Ok(path0),
        Some(LookupView::Found) => Ok(TurnsSource::LocatedPath),
        Some(LookupView::NotFound) => Ok(
            if include_turns {
                TurnsSource::NoTurns
            } else {
                path0
            },
        ),
        Some(LookupView::Failed(m)) => Err(
            (INVALID_REQUEST_ERROR_CODE, LOCATE_FAILED_HEAD@ + thread_id + LOCATE_FAILED_SEPARATOR@ + m),
        ),
    };
    match path {
        Err(e) => Err(e),
        Ok(path) => if include_turns && path == TurnsSource::NoTurns && has_db_summary {
            Err((INTERNAL_ERROR_CODE, ROLLOUT_MISSING_HEAD@ + thread_id))
        } else if has_db_summary {
            Ok(
                ThreadReadPlan {
                    summary: ThreadSummarySource::StateDb,
                    turns: if include_turns {
                        path
                    } else {
                        TurnsSource::NoTurns
                    },
                },
            )
        } else if path != TurnsSource::NoTurns {
            Ok(
                ThreadReadPlan {
                    summary: ThreadSummarySource::Rollout,
                    turns: if include_turns {
                        path
                    } else {
                        TurnsSource::NoTurns
                    },
                },
            )
        } else {
            match loaded {
                None => Err((INVALID_REQUEST_ERROR_CODE, NOT_LOADED_HEAD@ + thread_id)),
                Some(has_rollout) => if include_turns && !has_rollout {
                    Err((INVALID_REQUEST_ERROR_CODE, EPHEMERAL_TURNS_ERROR@))
                } else {
                    Ok(
                        ThreadReadPlan {
                            summary: ThreadSummarySource::LoadedThread,
                            turns: if include_turns {
                                TurnsSource::LoadedPath
                            } else {
                                TurnsSource::NoTurns
                            },
                        },
                    )
                },
            }
        },
    }
}

/// How a thread is read: see [`thread_read_plan`]. `lookup` is what looking for
/// the rollout file gave, `None` when there was no need to look
/// ([`thread_read_needs_lookup`]); `loaded` is `None` when the thread is not
/// loaded, else whether it has a rollout path.
pub fn plan_thread_read(
    thread_id: &str,
    has_db_summary: bool,
    include_turns: bool,
    lookup: Option<RolloutLookup>,
    loaded: Option<bool>,
) -> (r: Result<ThreadReadPlan, RpcError>)
    ensures
        match r {
            Ok(p) => thread_read_plan(
                thread_id@,
                has_db_summary,
                include_turns,
                match lookup {
                    Some(l) => Some(l@),
                    None => None,
                },
                loaded,
            ) == Ok::<ThreadReadPlan, (i64, Seq<char>)>(p),
            Err(e) => thread_read_plan(
                thread_id@,
                has_db_summary,
                include_turns,
                match lookup {
                    Some(l) => Some(l@),
                    None => None,
                },
                loaded,
            ) == Err::<ThreadReadPlan, (i64, Seq<char>)>((e.code, e.message@)),
        },
{
    let path0 = if has_db_summary {
        TurnsSource::StateDbPath
    } else {
        TurnsSource::NoTurns
    };
    let path = match lookup {
        None => path0,
        Some(RolloutLookup::Found) => TurnsSource::LocatedPath,
        Some(RolloutLookup::NotFound) => if include_turns {
            TurnsSource::NoTurns
        } else {
            path0
        },
        Some(RolloutLookup::Failed(m)) => {
            let mut message = owned(LOCATE_FAILED_HEAD);
            message.append(thread_id);
            message.append(LOCATE_FAILED_SEPARATOR);
            message.append(m.as_str());
            return Err(RpcError { code: INVALID_REQUEST_ERROR_CODE, message });
        },
    };
    let no_path = path == TurnsSource::NoTurns;
    let turns = if include_turns {
        path
    } else {
        TurnsSource::NoTurns
    };
    if include_turns && no_path && has_db_summary {
        let mut message = owned(ROLLOUT_MISSING_HEAD);
        message.append(thread_id);
        return Err(RpcError { code: INTERNAL_ERROR_CODE, message });
    }
    if has_db_summary {
        return Ok(ThreadReadPlan { summary: ThreadSummarySource::StateDb, turns });
    }
    if !no_path {
        return Ok(ThreadReadPlan { summary: ThreadSummarySource::Rollout, turns });
    }
    match loaded {
        None => {
            let mut message = owned(NOT_LOADED_HEAD);
            message.append(thread_id);
            Err(RpcError { code: INVALID_REQUEST_ERROR_CODE, message })
        },
        Some(has_rollout) => if include_turns && !has_rollout {
            Err(RpcError { code: INVALID_REQUEST_ERROR_CODE, message: owned(EPHEMERAL_TURNS_ERROR) })
        } else {
            Ok(
                ThreadReadPlan {
                    summary: ThreadSummarySource::LoadedThread,
                    turns: if include_turns {
                        TurnsSource::LoadedPath
                    } else {
                        TurnsSource::NoTurns
                    },
                },
            )
        },
    }
}

/// The sandbox a client asks a thread to run in.
#[derive(Debug, Clone, Copy, PartialEq, Eq, Structural)]
pub enum SandboxMode {
    ReadOnly,
    WorkspaceWrite,
    DangerFullAccess,
}

/// The kind of sandbox policy a running thread has.
#[derive(Debug, Clone, Copy, PartialEq, Eq, Structural)]
pub enum SandboxPolicyKind {
    ReadOnly,
    WorkspaceWrite,
    DangerFullAccess,
    ExternalSandbox,
}

/// What a request to resume a running thread asks to change. Approval policies,
/// service tiers and personalities are given as their debug texts, which tell their
/// values apart.
pub struct ResumeOverrides {
    pub model: Option<String>,
    pub model_provider: Option<String>,
    /// Present when the request names a service tier: the tier, or none.
    pub service_tier: Option<Option<String>>,
    pub cwd: Option<String>,
    pub approval_policy: Option<String>,
    pub sandbox: Option<SandboxMode>,
    pub personality: Option<String>,
    pub has_config_overrides: bool,
    pub has_base_instructions: bool,
    pub has_developer_instructions: bool,
    pub persist_extended_history: bool,
}

/// The configuration a running thread has.
pub struct ActiveThreadConfig {
    pub model: String,
    pub model_provider_id: String,
    pub service_tier: Option<String>,
    pub cwd: String,
    pub approval_policy: String,
    pub sandbox_policy: SandboxPolicyKind,
    /// The sandbox policy as it reads in a report.
    pub sandbox_policy_text: String,
    pub personality: Option<String>,
}

pub const REQUESTED: &'static str = " requested=";
pub const ACTIVE: &'static str = " active=";
pub const MODEL_FIELD: &'static str = "model";
pub const MODEL_PROVIDER_FIELD: &'static str = "model_provider";
pub const SERVICE_TIER_FIELD: &'static str = "service_tier";
pub const CWD_FIELD: &'static str = "cwd";
pub const APPROVAL_POLICY_FIELD: &'static str = "approval_policy";
pub const SANDBOX_FIELD: &'static str = "sandbox";
pub const PERSONALITY_FIELD: &'static str = "personality";
pub const SOME_OPEN: &'static str = "Some(";
pub const SOME_CLOSE: &'static str = ")";
pub const NONE_TEXT: &'static str = "None";
pub const CONFIG_IGNORED: &'static str = "config overrides were provided and ignored while running";
pub const BASE_INSTRUCTIONS_IGNORED: &'static str = "baseInstructions override was provided and ignored while running";
pub const DEVELOPER_INSTRUCTIONS_IGNORED: &'static str = "developerInstructions override was provided and ignored while running";
pub const PERSIST_HISTORY_IGNORED: &'static str = "persistExtendedHistory override was provided and ignored while running";

/// How an optional value reads in a report.
pub open spec fn debug_opt(o: Option<Seq<char>>) -> Seq<char> {
    match o {
        Some(t) => SOME_OPEN@ + t + SOME_CLOSE@,
        None => NONE_TEXT@,
    }
}

/// How a sandbox mode reads in a report.
pub open spec fn sandbox_mode_text(m: SandboxMode) -> Seq<char> {
    match m {
        SandboxMode::ReadOnly => "ReadOnly"@,
        SandboxMode::WorkspaceWrite => "WorkspaceWrite"@,
        SandboxMode::DangerFullAccess => "DangerFullAccess"@,
    }
}

/// Whether a thread's sandbox policy is of the mode asked for; an external sandbox
/// counts as full access.
pub open spec fn sandbox_matches(m: SandboxMode, k: SandboxPolicyKind) -> bool {
    match m {
        SandboxMode::ReadOnly => k == SandboxPolicyKind::ReadOnly,
        SandboxMode::WorkspaceWrite => k == SandboxPolicyKind::WorkspaceWrite,
        SandboxMode::DangerFullAccess => k == SandboxPolicyKind::DangerFullAccess || k
            == SandboxPolicyKind::ExternalSandbox,
    }
}

/// `line` added to `m` when `cond` holds.
pub open spec fn push_if(m: Seq<Seq<char>>, cond: bool, line: Seq<char>) -> Seq<Seq<char>> {
    if cond {
        m.push(line)
    } else {
        m
    }
}

/// `{field} requested={requested} active={active}`.
pub open spec fn mismatch_line(field: &str, requested: Seq<char>, active: Seq<char>) -> Seq<char> {
    field@ + REQUESTED@ + requested + ACTIVE@ + active
}

/// The report on the model asked for.
pub open spec fn model_step(m: Seq<Seq<char>>, r: ResumeOverrides, a: ActiveThreadConfig) -> Seq<Seq<char>> {
    match r.model {
        Some(x) => push_if(m, x@ != a.model@, mismatch_line(MODEL_FIELD, x@, a.model@)),
        None => m,
    }
}

/// The report on the model provider asked for.
pub open spec fn provider_step(m: Seq<Seq<char>>, r: ResumeOverrides, a: ActiveThreadConfig) -> Seq<Seq<char>> {
    match r.model_provider {
        Some(x) => push_if(m, x@ != a.model_provider_id@, mismatch_line(MODEL_PROVIDER_FIELD, x@, a.model_provider_id@)),
        None => m,
    }
}

/// The report on the service tier asked for.
pub open spec fn tier_step(m: Seq<Seq<char>>, r: ResumeOverrides, a: ActiveThreadConfig) -> Seq<Seq<char>> {
    match r.service_tier {
        Some(t) => push_if(
            m,
            opt_str(t) != opt_str(a.service_tier),
            mismatch_line(SERVICE_TIER_FIELD, debug_opt(opt_str(t)), debug_opt(opt_str(a.service_tier))),
        ),
        None => m,
    }
}

/// The report on the working directory asked for.
pub open spec fn cwd_step(m: Seq<Seq<char>>, r: ResumeOverrides, a: ActiveThreadConfig, cwd_same: bool) -> Seq<Seq<char>> {
    match r.cwd {
        Some(c) => push_if(m, !cwd_same, mismatch_line(CWD_FIELD, c@, a.cwd@)),
        None => m,
    }
}

/// The report on the approval policy asked for.
pub open spec fn approval_step(m: Seq<Seq<char>>, r: ResumeOverrides, a: ActiveThreadConfig) -> Seq<Seq<char>> {
    match r.approval_policy {
        Some(p) => push_if(m, p@ != a.approval_policy@, mismatch_line(APPROVAL_POLICY_FIELD, p@, a.approval_policy@)),
        None => m,
    }
}

/// The report on the sandbox asked for.
pub open spec fn sandbox_step(m: Seq<Seq<char>>, r: ResumeOverrides, a: ActiveThreadConfig) -> Seq<Seq<char>> {
    match r.sandbox {
        Some(x) => push_if(
            m,
            !sandbox_matches(x, a.sandbox_policy),
            mismatch_line(SANDBOX_FIELD, sandbox_mode_text(x), a.sandbox_policy_text@),
        ),
        None => m,
    }
}

/// The report on the personality asked for.
pub open spec fn personality_step(m: Seq<Seq<char>>, r: ResumeOverrides, a: ActiveThreadConfig) -> Seq<Seq<char>> {
    match r.personality {
        Some(p) => push_if(
            m,
            opt_str(a.personality) != Some(p@),
            mismatch_line(PERSONALITY_FIELD, p@, debug_opt(opt_str(a.personality))),
        ),
        None => m,
    }
}

/// The overrides that a running thread ignores.
pub open spec fn ignored_step(m: Seq<Seq<char>>, r: ResumeOverrides) -> Seq<Seq<char>> {
    let m = push_if(m, r.has_config_overrides, CONFIG_IGNORED@);
    let m = push_if(m, r.has_base_instructions, BASE_INSTRUCTIONS_IGNORED@);
    let m = push_if(m, r.has_developer_instructions, DEVELOPER_INSTRUCTIONS_IGNORED@);
    push_if(m, r.persist_extended_history, PERSIST_HISTORY_IGNORED@)
}

/// What a request to resume a running thread asks that the thread does not have, in
/// a fixed order of fields (model, provider, service tier, working directory,
/// approval policy, sandbox, personality), then the overrides that a running thread
/// ignores. `cwd_same` tells whether the requested working directory is the
/// thread's.
pub open spec fn resume_mismatches(r: ResumeOverrides, a: ActiveThreadConfig, cwd_same: bool) -> Seq<Seq<char>> {
    let m = model_step(Seq::empty(), r, a);
    let m = provider_step(m, r, a);
    let m = tier_step(m, r, a);
    let m = cwd_step(m, r, a, cwd_same);
    let m = approval_step(m, r, a);
    let m = sandbox_step(m, r, a);
    let m = personality_step(m, r, a);
    ignored_step(m, r)
}

fn mismatch_text(field: &str, requested: &str, active: &str) -> (r: String)
    ensures
        r@ == mismatch_line(field, requested@, active@),
{
    let mut line = owned(field);
    line.append(REQUESTED);
    line.append(requested);
    line.append(ACTIVE);
    line.append(active);
    line
}

fn debug_opt_text(o: &Option<String>) -> (r: String)
    ensures
        r@ == debug_opt(opt_str(*o)),
{
    match o {
        Some(t) => {
            let mut r = owned(SOME_OPEN);
            r.append(t.as_str());
            r.append(SOME_CLOSE);
            r
        },
        None => owned(NONE_TEXT),
    }
}

fn opt_str_eq(a: &Option<String>, b: &Option<String>) -> (r: bool)
    ensures
        r == (opt_str(*a) == opt_str(*b)),
{
    match (a, b) {
        (Some(x), Some(y)) => str_eq(x.as_str(), y.as_str()),
        (None, None) => true,
        _ => false,
    }
}

fn push_line(m: &mut Vec<String>, line: String)
    ensures
        views(final(m)@) == views(old(m)@).push(line@),
{
    let ghost before = views(m@);
    m.push(line);
    assert(views(m@) =~= before.push(line@));
}

fn add_model(m: &mut Vec<String>, request: &ResumeOverrides, active: &ActiveThreadConfig)
    ensures
        views(final(m)@) == model_step(views(old(m)@), *request, *active),
{
    if let Some(x) = &request.model {
        if !str_eq(x.as_str(), active.model.as_str()) {
            push_line(m, mismatch_text(MODEL_FIELD, x.as_str(), active.model.as_str()));
        }
    }
}

fn add_provider(m: &mut Vec<String>, request: &ResumeOverrides, active: &ActiveThreadConfig)
    ensures
        views(final(m)@) == provider_step(views(old(m)@), *request, *active),
{
    if let Some(x) = &request.model_provider {
        if !str_eq(x.as_str(), active.model_provider_id.as_str()) {
            push_line(m, mismatch_text(MODEL_PROVIDER_FIELD, x.as_str(), active.model_provider_id.as_str()));
        }
    }
}

fn add_tier(m: &mut Vec<String>, request: &ResumeOverrides, active: &ActiveThreadConfig)
    ensures
        views(final(m)@) == tier_step(views(old(m)@), *request, *active),
{
    if let Some(t) = &request.service_tier {
        if !opt_str_eq(t, &active.service_tier) {
            let requested = debug_opt_text(t);
            let current = debug_opt_text(&active.service_tier);
            push_line(m, mismatch_text(SERVICE_TIER_FIELD, requested.as_str(), current.as_str()));
        }
    }
}

fn add_cwd(m: &mut Vec<String>, request: &ResumeOverrides, active: &ActiveThreadConfig, cwd_same: bool)
    ensures
        views(final(m)@) == cwd_step(views(old(m)@), *request, *active, cwd_same),
{
    if let Some(c) = &request.cwd {
        if !cwd_same {
            push_line(m, mismatch_text(CWD_FIELD, c.as_str(), active.cwd.as_str()));
        }
    }
}

fn add_approval(m: &mut Vec<String>, request: &ResumeOverrides, active: &ActiveThreadConfig)
    ensures
        views(final(m)@) == approval_step(views(old(m)@), *request, *active),
{
    if let Some(p) = &request.approval_policy {
        if !str_eq(p.as_str(), active.approval_policy.as_str()) {
            push_line(m, mismatch_text(APPROVAL_POLICY_FIELD, p.as_str(), active.approval_policy.as_str()));
        }
    }
}

fn add_sandbox(m: &mut Vec<String>, request: &ResumeOverrides, active: &ActiveThreadConfig)
    ensures
        views(final(m)@) == sandbox_step(views(old(m)@), *request, *active),
{
    if let Some(x) = request.sandbox {
        let matches = match x {
            SandboxMode::ReadOnly => active.sandbox_policy == SandboxPolicyKind::ReadOnly,
            SandboxMode::WorkspaceWrite => active.sandbox_policy == SandboxPolicyKind::WorkspaceWrite,
            SandboxMode::DangerFullAccess => active.sandbox_policy == SandboxPolicyKind::DangerFullAccess
                || active.sandbox_policy == SandboxPolicyKind::ExternalSandbox,
        };
        if !matches {
            let requested = match x {
                SandboxMode::ReadOnly => "ReadOnly",
                SandboxMode::WorkspaceWrite => "WorkspaceWrite",
                SandboxMode::DangerFullAccess => "DangerFullAccess",
            };
            assert(requested@ == sandbox_mode_text(x));
            push_line(m, mismatch_text(SANDBOX_FIELD, requested, active.sandbox_policy_text.as_str()));
        }
    }
}

fn add_personality(m: &mut Vec<String>, request: &ResumeOverrides, active: &ActiveThreadConfig)
    ensures
        views(final(m)@) == personality_step(views(old(m)@), *request, *active),
{
    if let Some(p) = &request.personality {
        let same = match &active.personality {
            Some(q) => str_eq(q.as_str(), p.as_str()),
            None => false,
        };
        if !same {
            let current = debug_opt_text(&active.personality);
            push_line(m, mismatch_text(PERSONALITY_FIELD, p.as_str(), current.as_str()));
        }
    }
}

fn add_ignored(m: &mut Vec<String>, request: &ResumeOverrides)
    ensures
        views(final(m)@) == ignored_step(views(old(m)@), *request),
{
    if request.has_config_overrides {
        push_line(m, owned(CONFIG_IGNORED));
    }
    if request.has_base_instructions {
        push_line(m, owned(BASE_INSTRUCTIONS_IGNORED));
    }
    if request.has_developer_instructions {
        push_line(m, owned(DEVELOPER_INSTRUCTIONS_IGNORED));
    }
    if request.persist_extended_history {
        push_line(m, owned(PERSIST_HISTORY_IGNORED));
    }
}

/// What a request to resume a running thread asks that the thread does not have: see
/// [`resume_mismatches`], given whether the requested working directory is the
/// thread's.
pub fn resume_override_mismatches(
    request: &ResumeOverrides,
    active: &ActiveThreadConfig,
    cwd_same: bool,
) -> (r: Vec<String>)
    ensures
        views(r@) == resume_mismatches(*request, *active, cwd_same),
{
    let mut m: Vec<String> = Vec::new();
    assert(views(m@) =~= Seq::<Seq<char>>::empty());
    add_model(&mut m, request, active);
    add_provider(&mut m, request, active);
    add_tier(&mut m, request, active);
    add_cwd(&mut m, request, active, cwd_same);
    add_approval(&mut m, request, active);
    add_sandbox(&mut m, request, active);
    add_personality(&mut m, request, active);
    add_ignored(&mut m, request);
    m
}

/// A component of a path as `std::path::Path::components` gives it.
pub enum PathComponent {
    RootDir,
    CurDir,
    Normal(Seq<char>),
}

/// The part between two separators, unless it is empty or `.`.
pub open spec fn kept_segment(s: Seq<char>) -> Seq<Seq<char>> {
    if s.len() == 0 || s == seq!['.'] {
        Seq::empty()
    } else {
        seq![s]
    }
}

/// The non-empty, non-`.` parts of `t` between `/` separators, `cur` being the
/// part read so far.
pub open spec fn path_segments(t: Seq<char>, cur: Seq<char>) -> Seq<Seq<char>>
    decreases t.len(),
{
    if t.len() == 0 {
        kept_segment(cur)
    } else if t[0] == '/' {
        kept_segment(cur) + path_segments(t.drop_first(), Seq::empty())
    } else {
        path_segments(t.drop_first(), cur.push(t[0]))
    }
}

/// The components of a path written with `/` separators and no prefix: a root
/// when it starts with `/`; `.` when, without a root, it is `.` or starts with
/// `./`; then each part between separators, repeated separators, a trailing
/// separator and every other `.` being dropped.
pub open spec fn path_components(t: Seq<char>) -> Seq<PathComponent> {
    let rooted = t.len() > 0 && t[0] == '/';
    let cur_dir = !rooted && t.len() > 0 && t[0] == '.' && (t.len() == 1 || t[1] == '/');
    (if rooted {
        seq![PathComponent::RootDir]
    } else {
        Seq::empty()
    }) + (if cur_dir {
        seq![PathComponent::CurDir]
    } else {
        Seq::empty()
    }) + path_segments(t, Seq::empty()).map_values(|s: Seq<char>| PathComponent::Normal(s))
}

/// A path text that reads alike on every platform: no `\` or `:`, which
/// Windows reads as separators or prefixes, and no leading `//`, which it reads
/// as a network share.
pub open spec fn portable_path_text(t: Seq<char>) -> bool {
    &&& forall|i: int| 0 <= i < t.len() ==> #[trigger] t[i] != '\\' && t[i] != ':'
    &&& !(t.len() >= 2 && t[0] == '/' && t[1] == '/')
}

/// Whether two paths compare equal as `std::path::Path` values, which compare them
/// component by component. The contract claims that a path equals itself and,
/// for texts that read alike on every platform ([`portable_path_text`]), that the
/// comparison is that of their components as the `std::path` documentation
/// describes them ([`path_components`]). How other texts split into components
/// (drive letters, network shares, `\\` separators) depends on the platform and
/// is left unsaid.
#[verifier::external_body]
fn paths_equal(a: &str, b: &str) -> (r: bool)
    ensures
        a@ == b@ ==> r,
        portable_path_text(a@) && portable_path_text(b@) ==> r == (path_components(a@) == path_components(b@)),
{
    std::path::Path::new(a) == std::path::Path::new(b)
}

/// What a request to resume a running thread asks that the thread does not have: see
/// [`resume_mismatches`]. Whether the requested working directory is the thread's is
/// decided by comparing the two as paths; a directory written exactly as the
/// thread's always is.
pub fn collect_resume_override_mismatches(request: &ResumeOverrides, active: &ActiveThreadConfig) -> (r: Vec<String>)
    ensures
        exists|cwd_same: bool|
            {
                &&& (request.cwd matches Some(c) && c@ == active.cwd@ ==> cwd_same)
                &&& match request.cwd {
                    Some(c) => portable_path_text(c@) && portable_path_text(active.cwd@) ==> cwd_same == (
                    path_components(c@) == path_components(active.cwd@)),
                    None => true,
                }
                &&& views(r@) == resume_mismatches(*request, *active, cwd_same)
            },
{
    let cwd_same = match &request.cwd {
        Some(c) => paths_equal(c.as_str(), active.cwd.as_str()),
        None => true,
    };
    resume_override_mismatches(request, active, cwd_same)
}


/// A change to the git facts of a thread: for each field, none to leave it as it
/// is, `Some(None)` to clear it, `Some(Some(v))` to set it to `v`.
#[derive(Debug, PartialEq)]
pub struct GitInfoUpdate {
    pub sha: Option<Option<String>>,
    pub branch: Option<Option<String>>,
    pub origin_url: Option<Option<String>>,
}

pub open spec fn field_view(f: Option<Option<String>>) -> Option<Option<Seq<char>>> {
    match f {
        Some(Some(v)) => Some(Some(v@)),
        Some(None) => Some(None),
        None => None,
    }
}

pub open spec fn update_view(u: GitInfoUpdate) -> (Option<Option<Seq<char>>>, Option<Option<Seq<char>>>, Option<Option<Seq<char>>>) {
    (field_view(u.sha), field_view(u.branch), field_view(u.origin_url))
}

pub const NO_GIT_FIELD_ERROR: &'static str = "gitInfo must include at least one field";
pub const EMPTY_GIT_SHA_ERROR: &'static str = "gitInfo.sha must not be empty";
pub const EMPTY_GIT_BRANCH_ERROR: &'static str = "gitInfo.branch must not be empty";
pub const EMPTY_GIT_ORIGIN_ERROR: &'static str = "gitInfo.originUrl must not be empty";

/// A request to change a thread's git facts must change at least one of them.
pub fn require_git_info_update(git_info: Option<GitInfoUpdate>) -> (r: Result<GitInfoUpdate, RpcError>)
    ensures
        match git_info {
            Some(u) if !(u.sha is None && u.branch is None && u.origin_url is None) => r matches Ok(v) && update_view(v)
                == update_view(u),
            _ => r matches Err(e) && e.code == INVALID_REQUEST_ERROR_CODE && e.message@ == NO_GIT_FIELD_ERROR@,
        },
{
    match git_info {
        Some(u) => {
            if u.sha.is_none() && u.branch.is_none() && u.origin_url.is_none() {
                Err(RpcError { code: INVALID_REQUEST_ERROR_CODE, message: owned(NO_GIT_FIELD_ERROR) })
            } else {
                Ok(u)
            }
        },
        None => Err(RpcError { code: INVALID_REQUEST_ERROR_CODE, message: owned(NO_GIT_FIELD_ERROR) }),
    }
}

/// A field of a git update with a value to set trimmed; `None` when that value is
/// empty once trimmed.
pub open spec fn trimmed_field(f: Option<Option<Seq<char>>>) -> Option<Option<Option<Seq<char>>>> {
    match f {
        Some(Some(v)) => if trim_spec(v).len() == 0 {
            None
        } else {
            Some(Some(Some(trim_spec(v))))
        },
        other => Some(other),
    }
}

/// A git update with each value to set trimmed, or the message of the error for
/// the first of sha, branch and origin URL that is empty once trimmed.
pub open spec fn normalized_git_update(
    u: (Option<Option<Seq<char>>>, Option<Option<Seq<char>>>, Option<Option<Seq<char>>>),
) -> Result<(Option<Option<Seq<char>>>, Option<Option<Seq<char>>>, Option<Option<Seq<char>>>), Seq<char>> {
    match (trimmed_field(u.0), trimmed_field(u.1), trimmed_field(u.2)) {
        (None, _, _) => Err(EMPTY_GIT_SHA_ERROR@),
        (Some(_), None, _) => Err(EMPTY_GIT_BRANCH_ERROR@),
        (Some(_), Some(_), None) => Err(EMPTY_GIT_ORIGIN_ERROR@),
        (Some(a), Some(b), Some(c)) => Ok((a, b, c)),
    }
}

fn trim_field(f: Option<Option<String>>) -> (r: Option<Option<Option<String>>>)
    ensures
        match r {
            Some(g) => trimmed_field(field_view(f)) == Some(field_view(g)),
            None => trimmed_field(field_view(f)) is None,
        },
{
    match f {
        Some(Some(v)) => {
            let t = trim(v.as_str());
            if t.unicode_len() == 0 {
                None
            } else {
                Some(Some(Some(owned(t))))
            }
        },
        Some(None) => Some(Some(None)),
        None => Some(None),
    }
}

/// The git update with its values trimmed: see [`normalized_git_update`]; its
/// errors are invalid requests.
pub fn normalize_git_info_update(update: GitInfoUpdate) -> (r: Result<GitInfoUpdate, RpcError>)
    ensures
        match r {
            Ok(v) => normalized_git_update(update_view(update)) == Ok::<
                (Option<Option<Seq<char>>>, Option<Option<Seq<char>>>, Option<Option<Seq<char>>>),
                Seq<char>,
            >(update_view(v)),
            Err(e) => e.code == INVALID_REQUEST_ERROR_CODE && normalized_git_update(update_view(update)) == Err::<
                (Option<Option<Seq<char>>>, Option<Option<Seq<char>>>, Option<Option<Seq<char>>>),
                Seq<char>,
            >(e.message@),
        },
{
    let sha = match trim_field(update.sha) {
        Some(v) => v,
        None => {
            return Err(RpcError { code: INVALID_REQUEST_ERROR_CODE, message: owned(EMPTY_GIT_SHA_ERROR) });
        },
    };
    let branch = match trim_field(update.branch) {
        Some(v) => v,
        None => {
            return Err(RpcError { code: INVALID_REQUEST_ERROR_CODE, message: owned(EMPTY_GIT_BRANCH_ERROR) });
        },
    };
    let origin_url = match trim_field(update.origin_url) {
        Some(v) => v,
        None => {
            return Err(RpcError { code: INVALID_REQUEST_ERROR_CODE, message: owned(EMPTY_GIT_ORIGIN_ERROR) });
        },
    };
    Ok(GitInfoUpdate { sha, branch, origin_url })
}


/// A hexadecimal digit in either case.
pub open spec fn is_hex_digit(c: char) -> bool {
    is_lower_hex(c) || ('A' <= c && c <= 'F')
}

/// A hexadecimal digit in lowercase.
pub open spec fn hex_lower(c: char) -> char {
    if 'A' <= c && c <= 'F' {
        ((c as int) + 32) as char
    } else {
        c
    }
}

/// A hyphen at each of the places 8, 13, 18 and 23.
pub open spec fn is_hyphen_place(i: int) -> bool {
    i == 8 || i == 13 || i == 18 || i == 23
}

/// 36 characters: hyphens at the hyphen places and hexadecimal digits, in
/// either case, elsewhere.
pub open spec fn hyphenated_any_case(s: Seq<char>) -> bool {
    &&& s.len() == 36
    &&& forall|i: int| 0 <= i < 36 ==> if is_hyphen_place(i) {
        #[trigger] s[i] == '-'
    } else {
        is_hex_digit(s[i])
    }
}

/// The hyphenated part of a UUID text, if the text is one: 32 hexadecimal
/// digits become hyphenated; 36 characters are it; 38 wrap it in braces; 45
/// put `urn:uuid:` (in any case) before it.
pub open spec fn uuid_body(t: Seq<char>) -> Option<Seq<char>> {
    if t.len() == 32 {
        if forall|i: int| 0 <= i < 32 ==> #[trigger] is_hex_digit(t[i]) {
            Some(t.subrange(0, 8) + seq!['-'] + t.subrange(8, 12) + seq!['-'] + t.subrange(12, 16) + seq!['-']
                + t.subrange(16, 20) + seq!['-'] + t.subrange(20, 32))
        } else {
            None
        }
    } else if t.len() == 36 {
        if hyphenated_any_case(t) {
            Some(t)
        } else {
            None
        }
    } else if t.len() == 38 {
        if t[0] == '{' && t[37] == '}' && hyphenated_any_case(t.subrange(1, 37)) {
            Some(t.subrange(1, 37))
        } else {
            None
        }
    } else if t.len() == 45 {
        if t.subrange(0, 9).map_values(|c: char| ascii_lower(c)) == URN_PREFIX@ && hyphenated_any_case(
            t.subrange(9, 45),
        ) {
            Some(t.subrange(9, 45))
        } else {
            None
        }
    } else {
        None
    }
}

/// An ASCII letter in lowercase; any other character as it is.
pub open spec fn ascii_lower(c: char) -> char {
    if 'A' <= c && c <= 'Z' {
        ((c as int) + 32) as char
    } else {
        c
    }
}

pub const URN_PREFIX: &'static str = "urn:uuid:";

/// What `uuid::Uuid::parse_str` makes of a text, written back with `to_string`:
/// the hyphenated part, see [`uuid_body`], in lowercase; none when the text is
/// not a UUID.
pub open spec fn uuid_text(t: Seq<char>) -> Option<Seq<char>> {
    match uuid_body(t) {
        Some(b) => Some(b.map_values(|c: char| hex_lower(c))),
        None => None,
    }
}

/// A UUID text is written back in the lowercase hyphenated form.
pub proof fn lemma_uuid_text_hyphenated(t: Seq<char>)
    ensures
        uuid_text(t) matches Some(c) ==> uuid_hyphenated(c),
{
    match uuid_body(t) {
        Some(b) => {
            let c = b.map_values(|x: char| hex_lower(x));
            if t.len() == 32 {
                assert forall|i: int| 0 <= i < 36 implies if is_hyphen_place(i) {
                    b[i] == '-'
                } else {
                    is_hex_digit(b[i])
                } by {
                    if i < 8 {
                        assert(b[i] == t[i]);
                    } else if 8 < i < 13 {
                        assert(b[i] == t[i - 1]);
                    } else if 13 < i < 18 {
                        assert(b[i] == t[i - 2]);
                    } else if 18 < i < 23 {
                        assert(b[i] == t[i - 3]);
                    } else if 23 < i {
                        assert(b[i] == t[i - 4]);
                    }
                }
                assert(hyphenated_any_case(b));
            } else if t.len() == 38 {
                assert(hyphenated_any_case(t.subrange(1, 37)));
            } else if t.len() == 45 {
                assert(hyphenated_any_case(t.subrange(9, 45)));
            }
            assert(hyphenated_any_case(b));
            assert forall|i: int| 0 <= i < 36 implies if i == 8 || i == 13 || i == 18 || i == 23 {
                #[trigger] c[i] == '-'
            } else {
                is_lower_hex(c[i])
            } by {
                assert(c[i] == hex_lower(b[i]));
                if !is_hyphen_place(i) {
                    assert(is_hex_digit(b[i]));
                }
            }
        },
        None => {},
    }
}

/// Reads a thread id as `uuid::Uuid::parse_str` does and writes it back in its
/// hyphenated lowercase form. The contract claims what the uuid crate's parser
/// (`parser.rs`: simple, hyphenated, braced and URN forms, hexadecimal digits
/// in either case) and its lowercase hyphenated `Display` give.
#[verifier::external_body]
fn canonical_uuid(t: &str) -> (r: Option<String>)
    ensures
        match r {
            Some(c) => uuid_text(t@) == Some(c@),
            None => uuid_text(t@) is None,
        },
{
    uuid::Uuid::parse_str(t).ok().map(|u| u.to_string())
}

/// Where a page of sorted ids starts after `cursor`: at the first id that sorts
/// after it.
pub open spec fn first_after(ids: Seq<Seq<char>>, cursor: Seq<char>) -> nat
    decreases ids.len(),
{
    if ids.len() == 0 {
        0
    } else if str_lt(cursor, ids[0]) {
        0
    } else {
        1 + first_after(ids.drop_first(), cursor)
    }
}

/// The page of the loaded threads, by id in ascending order, after the thread the
/// cursor names (`canonical_cursor` is the cursor read as a thread id: none when it
/// is not one), [`page_size`] ids long or up to the end; the next cursor is the
/// last id of the page when ids remain. An empty list has an empty page whatever
/// the cursor.
pub open spec fn loaded_page(
    ids: Seq<Seq<char>>,
    cursor: Option<(Seq<char>, Option<Seq<char>>)>,
    limit: Option<u32>,
) -> Result<(Seq<Seq<char>>, Option<Seq<char>>), Seq<char>> {
    let data = sort_by_key(ids.map_values(|s: Seq<char>| (s, ()))).map_values(|e: (Seq<char>, ())| e.0);
    let total = data.len();
    if total == 0 {
        Ok((Seq::empty(), None))
    } else {
        let start: Result<nat, Seq<char>> = match cursor {
            None => Ok(0),
            Some((raw, Some(c))) => Ok(first_after(data, c)),
            Some((raw, None)) => Err(INVALID_CURSOR_ERROR@ + raw),
        };
        match start {
            Err(e) => Err(e),
            Ok(start) => {
                let end = if start + page_size(total, limit) < total {
                    start + page_size(total, limit)
                } else {
                    total as int
                };
                let page = data.subrange(start as int, end);
                Ok((page, if end < total { Some(page.last()) } else { None }))
            },
        }
    }
}

proof fn lemma_first_after_bound(ids: Seq<Seq<char>>, cursor: Seq<char>)
    ensures
        first_after(ids, cursor) <= ids.len(),
    decreases ids.len(),
{
    if ids.len() > 0 && !str_lt(cursor, ids[0]) {
        lemma_first_after_bound(ids.drop_first(), cursor);
    }
}

/// The page of the loaded threads, given what the cursor reads as: see
/// [`loaded_page`].
pub fn loaded_thread_page(
    ids: Vec<String>,
    cursor: Option<(&str, Option<String>)>,
    limit: Option<u32>,
) -> (r: Result<(Vec<String>, Option<String>), RpcError>)
    ensures
        match r {
            Ok((page, next)) => loaded_page(
                views(ids@),
                match cursor {
                    Some((raw, c)) => Some((raw@, opt_str(c))),
                    None => None,
                },
                limit,
            ) == Ok::<(Seq<Seq<char>>, Option<Seq<char>>), Seq<char>>((views(page@), opt_str(next))),
            Err(e) => e.code == INVALID_REQUEST_ERROR_CODE && loaded_page(
                views(ids@),
                match cursor {
                    Some((raw, c)) => Some((raw@, opt_str(c))),
                    None => None,
                },
                limit,
            ) == Err::<(Seq<Seq<char>>, Option<Seq<char>>), Seq<char>>(e.message@),
        },
{
    let ghost iv = views(ids@);
    let mut pairs: Vec<(String, ())> = Vec::new();
    let mut i: usize = 0;
    let n = ids.len();
    let mut rest = ids;
    while i < n
        invariant
            n == iv.len(),
            i <= n,
            rest@.len() == n - i,
            forall|j: int| 0 <= j < n - i ==> #[trigger] rest@[j]@ == iv[i + j],
            keyed(pairs@) == iv.take(i as int).map_values(|s: Seq<char>| (s, ())),
        decreases n - i,
    {
        let ghost before = keyed(pairs@);
        let ghost old_rest = rest@;
        assert(old_rest[0]@ == iv[i + 0]);
        let s = rest.remove(0);
        assert(s@ == iv[i as int]);
        assert forall|j: int| 0 <= j < n - (i + 1) implies #[trigger] rest@[j]@ == iv[(i + 1) + j] by {
            assert(rest@[j] == old_rest[j + 1]);
        }
        pairs.push((s, ()));
        assert(keyed(pairs@) =~= before.push((iv[i as int], ())));
        assert(iv.take(i + 1) =~= iv.take(i as int).push(iv[i as int]));
        assert(keyed(pairs@) =~= iv.take(i + 1).map_values(|s: Seq<char>| (s, ())));
        i = i + 1;
    }
    assert(iv.take(n as int) =~= iv);
    let sorted_pairs = sort_by_name(pairs);
    let ghost sorted = sort_by_key(iv.map_values(|s: Seq<char>| (s, ())));
    let ghost data = sorted.map_values(|e: (Seq<char>, ())| e.0);
    assert(keyed(sorted_pairs@) == sorted);
    let total = sorted_pairs.len();
    let mut data_vec: Vec<String> = Vec::new();
    let mut k: usize = 0;
    let mut source = sorted_pairs;
    while k < total
        invariant
            total == data.len(),
            k <= total,
            source@.len() == total - k,
            forall|j: int| 0 <= j < total - k ==> #[trigger] source@[j].0@ == data[k + j],
            views(data_vec@) == data.take(k as int),
        decreases total - k,
    {
        let ghost old_source = source@;
        assert(old_source[0].0@ == data[k + 0]);
        let (s, _) = source.remove(0);
        assert forall|j: int| 0 <= j < total - (k + 1) implies #[trigger] source@[j].0@ == data[(k + 1) + j] by {
            assert(source@[j] == old_source[j + 1]);
        }
        let ghost before = views(data_vec@);
        data_vec.push(s);
        assert(views(data_vec@) =~= before.push(data[k as int]));
        assert(data.take(k + 1) =~= data.take(k as int).push(data[k as int]));
        k = k + 1;
    }
    assert(data.take(total as int) =~= data);
    if total == 0 {
        let empty: Vec<String> = Vec::new();
        assert(views(empty@) =~= Seq::<Seq<char>>::empty());
        return Ok((empty, None));
    }
    let start: usize = match cursor {
        None => 0,
        Some((raw, None)) => {
            let mut message = owned(INVALID_CURSOR_ERROR);
            message.append(raw);
            return Err(RpcError { code: INVALID_REQUEST_ERROR_CODE, message });
        },
        Some((_, Some(c))) => {
            let mut j: usize = 0;
            proof {
                lemma_first_after_bound(data, c@);
                assert(data.skip(0) =~= data);
            }
            while j < total && !str_less(c.as_str(), data_vec[j].as_str())
                invariant
                    total == data.len(),
                    views(data_vec@) == data,
                    j <= total,
                    first_after(data, c@) == j + first_after(data.skip(j as int), c@),
                decreases total - j,
            {
                assert(data.skip(j as int)[0] == data_vec@[j as int]@);
                assert(data.skip(j as int).drop_first() =~= data.skip(j + 1));
                j = j + 1;
            }
            if j < total {
                assert(data.skip(j as int)[0] == data_vec@[j as int]@);
            } else {
                assert(data.skip(j as int) =~= Seq::<Seq<char>>::empty());
            }
            j
        },
    };
    let l: u32 = match limit {
        Some(l) => l,
        None => #[verifier::truncate] (total as u32),
    };
    let size: usize = if l == 0 { 1 } else { l as usize };
    let end = if size < total - start { start + size } else { total };
    let mut page: Vec<String> = Vec::new();
    let mut m: usize = start;
    while m < end
        invariant
            start <= m <= end,
            end <= total,
            total == data.len(),
            views(data_vec@) == data,
            views(page@) == data.subrange(start as int, m as int),
        decreases end - m,
    {
        assert(views(data_vec@)[m as int] == data_vec@[m as int]@);
        let ghost before = views(page@);
        page.push(owned(data_vec[m].as_str()));
        assert(views(page@) =~= before.push(data[m as int]));
        assert(data.subrange(start as int, m + 1) =~= data.subrange(start as int, m as int).push(data[m as int]));
        m = m + 1;
    }
    let next = if end < total {
        assert(views(page@).last() == data[end - 1]);
        Some(owned(page[page.len() - 1].as_str()))
    } else {
        None
    };
    Ok((page, next))
}

/// The page of the loaded threads: see [`loaded_page`]; the cursor is read as a
/// thread id first.
pub fn thread_loaded_page(ids: Vec<String>, cursor: Option<&str>, limit: Option<u32>) -> (r: Result<
    (Vec<String>, Option<String>),
    RpcError,
>)
    ensures
        ({
            let c = match cursor {
                Some(t) => Some((t@, uuid_text(t@))),
                None => None,
            };
            match r {
                Ok((page, next)) => loaded_page(views(ids@), c, limit) == Ok::<
                    (Seq<Seq<char>>, Option<Seq<char>>),
                    Seq<char>,
                >((views(page@), opt_str(next))),
                Err(e) => e.code == INVALID_REQUEST_ERROR_CODE && loaded_page(views(ids@), c, limit) == Err::<
                    (Seq<Seq<char>>, Option<Seq<char>>),
                    Seq<char>,
                >(e.message@),
            }
        }),
{
    let read = match cursor {
        Some(t) => Some((t, canonical_uuid(t))),
        None => None,
    };
    loaded_thread_page(ids, read, limit)
}

/// Whether `s` ends with `suffix`.
pub fn ends_with(s: &str, suffix: &str) -> (r: bool)
    ensures
        r == suffix@.is_suffix_of(s@),
{
    let ls = s.unicode_len();
    let lt = suffix.unicode_len();
    if lt > ls {
        return false;
    }
    let off = ls - lt;
    let mut i: usize = 0;
    while i < lt
        invariant
            ls == s@.len(),
            lt == suffix@.len(),
            off == ls - lt,
            i <= lt,
            forall|j: int| 0 <= j < i ==> suffix@[j] == s@[off + j],
        decreases lt - i,
    {
        if suffix.get_char(i) != s.get_char(off + i) {
            assert(s@.subrange(off as int, ls as int)[i as int] == s@[off + i]);
            return false;
        }
        i = i + 1;
    }
    assert(suffix@ =~= s@.subrange(off as int, ls as int));
    true
}

pub const ROLLOUT_PATH_HEAD: &'static str = "rollout path `";
pub const NOT_IN_ARCHIVE: &'static str = "` must be in archived directory";
pub const MISSING_FILE_NAME: &'static str = "` missing file name";
pub const THREAD_MISMATCH: &'static str = "` does not match thread id ";
pub const ROLLOUT_SUFFIX: &'static str = ".jsonl";

/// The error that unarchiving gives for an archived rollout file, if any: it
/// must lie in the archived directory (`in_archive`), have a file name, and that
/// name must end with the thread id and `.jsonl`. `display` is how the path is
/// shown in the message.
pub open spec fn rollout_location_error(
    display: Seq<char>,
    in_archive: bool,
    file_name: Option<Seq<char>>,
    thread_id: Seq<char>,
) -> Option<Seq<char>> {
    if !in_archive {
        Some(ROLLOUT_PATH_HEAD@ + display + NOT_IN_ARCHIVE@)
    } else {
        match file_name {
            None => Some(ROLLOUT_PATH_HEAD@ + display + MISSING_FILE_NAME@),
            Some(f) => if (thread_id + ROLLOUT_SUFFIX@).is_suffix_of(f) {
                None
            } else {
                Some(ROLLOUT_PATH_HEAD@ + display + THREAD_MISMATCH@ + thread_id)
            },
        }
    }
}

/// Checks where an archived rollout file lies before it is restored: see
/// [`rollout_location_error`]; its errors are invalid requests.
pub fn check_archived_rollout(
    display: &str,
    in_archive: bool,
    file_name: Option<&str>,
    thread_id: &str,
) -> (r: Result<(), RpcError>)
    ensures
        match r {
            Ok(()) => rollout_location_error(
                display@,
                in_archive,
                match file_name {
                    Some(f) => Some(f@),
                    None => None,
                },
                thread_id@,
            ) is None,
            Err(e) => e.code == INVALID_REQUEST_ERROR_CODE && rollout_location_error(
                display@,
                in_archive,
                match file_name {
                    Some(f) => Some(f@),
                    None => None,
                },
                thread_id@,
            ) == Some(e.message@),
        },
{
    let mut message = owned(ROLLOUT_PATH_HEAD);
    message.append(display);
    if !in_archive {
        message.append(NOT_IN_ARCHIVE);
        return Err(RpcError { code: INVALID_REQUEST_ERROR_CODE, message });
    }
    match file_name {
        None => {
            message.append(MISSING_FILE_NAME);
            Err(RpcError { code: INVALID_REQUEST_ERROR_CODE, message })
        },
        Some(f) => {
            let mut suffix = owned(thread_id);
            suffix.append(ROLLOUT_SUFFIX);
            if ends_with(f, suffix.as_str()) {
                Ok(())
            } else {
                message.append(THREAD_MISMATCH);
                message.append(thread_id);
                Err(RpcError { code: INVALID_REQUEST_ERROR_CODE, message })
            }
        },
    }
}

}
