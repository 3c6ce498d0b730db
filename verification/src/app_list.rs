use vstd::prelude::*;

use crate::app_server::RpcError;
use crate::strings::{decimal, decimal_string};
use crate::text::owned;

verus! {

/// JSON-RPC's code for an internal error.
pub const INTERNAL_ERROR_CODE: i64 = -32603;

/// How long, in seconds, a listing waits for both app lists.
pub const APP_LIST_LOAD_TIMEOUT_SECONDS: u64 = 90;

pub const APP_LISTS_FAILED: &'static str = "failed to load app lists";
pub const APP_LISTS_TIMEOUT_HEAD: &'static str = "timed out waiting for app lists after ";
pub const APP_LISTS_TIMEOUT_TAIL: &'static str = " seconds";

/// Where the loading of the two app lists stands: whether the accessible apps
/// and the directory of all apps have arrived, whether the caller asked to
/// refetch both, and whether a cached directory was at hand when loading began.
#[derive(Debug, Clone, Copy, PartialEq, Eq, Structural)]
pub struct AppListProgress {
    pub accessible_loaded: bool,
    pub all_loaded: bool,
    pub force_refetch: bool,
    pub has_cached_directory: bool,
}

/// What the loaders report, or that waiting ended without a report.
#[derive(Debug, PartialEq)]
pub enum AppListEvent {
    AccessibleLoaded,
    AccessibleFailed(String),
    DirectoryLoaded,
    DirectoryFailed(String),
    /// Every loader is gone and nothing more will come.
    ChannelClosed,
    /// The deadline passed.
    TimedOut,
}

/// What to do after an event.
#[derive(Debug, PartialEq)]
pub enum AppListAction {
    /// Answer the request with this error and stop.
    Fail(RpcError),
    /// Merge the directory (the cached one when `cached_directory`, else the
    /// latest) with the accessible apps (only when `with_accessible`), tell
    /// clients of the merged list when it warrants it and differs from the last
    /// one told, and, when `finish`, answer with a page of it and stop.
    Update { cached_directory: bool, with_accessible: bool, finish: bool },
}

/// The progress once the list that an event names has arrived.
pub open spec fn progress_after(p: AppListProgress, accessible: bool) -> AppListProgress {
    if accessible {
        AppListProgress { accessible_loaded: true, ..p }
    } else {
        AppListProgress { all_loaded: true, ..p }
    }
}

/// While a refetch is under way and one list is still missing, clients are
/// shown the cached directory (when there is one) and no accessible apps that
/// have not arrived yet.
pub open spec fn update_after(p: AppListProgress) -> AppListAction {
    let interim = p.force_refetch && !(p.accessible_loaded && p.all_loaded);
    AppListAction::Update {
        cached_directory: interim && p.has_cached_directory,
        with_accessible: !(interim && !p.accessible_loaded),
        finish: p.accessible_loaded && p.all_loaded,
    }
}

/// The step of an app listing that follows one event: a failed load answers
/// with the loader's message, a closed channel and a passed deadline with their
/// own; an arrived list is recorded and the lists are merged as
/// [`update_after`] says.
pub fn app_list_step(progress: AppListProgress, event: AppListEvent) -> (r: (AppListProgress, AppListAction))
    ensures
        match event {
            AppListEvent::AccessibleLoaded => r.0 == progress_after(progress, true) && r.1 == update_after(
                progress_after(progress, true),
            ),
            AppListEvent::DirectoryLoaded => r.0 == progress_after(progress, false) && r.1 == update_after(
                progress_after(progress, false),
            ),
            AppListEvent::AccessibleFailed(m) => r.0 == progress && (r.1 matches AppListAction::Fail(e)
                && e.code == INTERNAL_ERROR_CODE && e.message@ == m@),
            AppListEvent::DirectoryFailed(m) => r.0 == progress && (r.1 matches AppListAction::Fail(e)
                && e.code == INTERNAL_ERROR_CODE && e.message@ == m@),
            AppListEvent::ChannelClosed => r.0 == progress && (r.1 matches AppListAction::Fail(e) && e.code
                == INTERNAL_ERROR_CODE && e.message@ == APP_LISTS_FAILED@),
            AppListEvent::TimedOut => r.0 == progress && (r.1 matches AppListAction::Fail(e) && e.code
                == INTERNAL_ERROR_CODE && e.message@ == APP_LISTS_TIMEOUT_HEAD@ + decimal(
                APP_LIST_LOAD_TIMEOUT_SECONDS as nat,
            ) + APP_LISTS_TIMEOUT_TAIL@),
        },
{
    let next = match event {
        AppListEvent::AccessibleLoaded => AppListProgress { accessible_loaded: true, ..progress },
        AppListEvent::DirectoryLoaded => AppListProgress { all_loaded: true, ..progress },
        AppListEvent::AccessibleFailed(m) => {
            return (progress, AppListAction::Fail(RpcError { code: INTERNAL_ERROR_CODE, message: m }));
        },
        AppListEvent::DirectoryFailed(m) => {
            return (progress, AppListAction::Fail(RpcError { code: INTERNAL_ERROR_CODE, message: m }));
        },
        AppListEvent::ChannelClosed => {
            return (
                progress,
                AppListAction::Fail(RpcError { code: INTERNAL_ERROR_CODE, message: owned(APP_LISTS_FAILED) }),
            );
        },
        AppListEvent::TimedOut => {
            let mut message = owned(APP_LISTS_TIMEOUT_HEAD);
            message.append(decimal_string(APP_LIST_LOAD_TIMEOUT_SECONDS).as_str());
            message.append(APP_LISTS_TIMEOUT_TAIL);
            return (progress, AppListAction::Fail(RpcError { code: INTERNAL_ERROR_CODE, message }));
        },
    };
    let interim = next.force_refetch && !(next.accessible_loaded && next.all_loaded);
    let action = AppListAction::Update {
        cached_directory: interim && next.has_cached_directory,
        with_accessible: !(interim && !next.accessible_loaded),
        finish: next.accessible_loaded && next.all_loaded,
    };
    (next, action)
}

/// Once both lists have arrived, whatever order they came in, the listing
/// merges the latest directory with the accessible apps and finishes; before
/// that it never finishes. Without a refetch, the latest lists are always used.
pub proof fn lemma_app_list_finishes_when_both_loaded(p: AppListProgress, accessible: bool)
    ensures
        ({
            let n = progress_after(p, accessible);
            let u = update_after(n);
            &&& u is Update
            &&& u->finish == (n.accessible_loaded && n.all_loaded)
            &&& u->finish ==> !u->cached_directory && u->with_accessible
            &&& !p.force_refetch ==> !u->cached_directory && u->with_accessible
        }),
{
}

} // verus!
