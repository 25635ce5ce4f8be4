//! Favorite synchronization with the upstream account.
//!
//! The synchronization record says whether synchronization is on, for which
//! account, what state it is in, and which task is pending. Every operation
//! that starts a task raises the operation epoch; a task may write only while
//! the record is enabled and still carries the epoch it was started under.
//! The functions here decide each step: which record comes next, which error
//! answers a request, what a background task does with what it read.
pub mod remote;
pub mod repository;
pub mod snapshot;

use crate::application::account::{AccountSession, AccountSessionView, LoginStatus};
use crate::application::favorite::{FavoriteItem, FavoriteItemView};
use crate::clock;
use crate::http_error::{HttpError, STATUS_BAD_GATEWAY, STATUS_CONFLICT};
use crate::jm::models::{FavoriteComic, FavoriteOrder, FavoritePage};
use crate::text;
use vstd::prelude::*;

verus! {

broadcast use vstd::string::group_string_axioms;

/// How many favorites the upstream service lists on one page.
pub const REMOTE_PAGE_SIZE: usize = 20;

/// How many pages a snapshot of the upstream favorites may read at most.
pub const MAX_REMOTE_PAGES: u32 = 10000;

#[derive(Clone, Copy, Debug, PartialEq, Eq, Structural)]
pub enum FavoriteSyncStatus {
    Disabled,
    Checking,
    NeedsResolution,
    Syncing,
    Synced,
    Error,
}

#[derive(Clone, Copy, Debug, PartialEq, Eq, Structural)]
pub enum FavoriteSyncProgressPhase {
    FetchingRemote,
    UploadingLocal,
    Verifying,
}

/// The task that synchronization owes: checking for differences, merging,
/// overwriting local favorites with the upstream ones, or bringing one
/// comic's upstream favorite to a target.
#[derive(Clone, Copy, Debug, PartialEq, Eq, Structural)]
pub enum PendingKind {
    Check,
    Merge,
    RemoteOverwrite,
    SetFavorite,
}

/// How a user settles a difference between local and upstream favorites.
#[derive(Clone, Copy, Debug, PartialEq, Eq, Structural)]
pub enum FavoriteSyncResolution {
    Merge,
    RemoteOverwrite,
}

pub open spec fn status_db_text(s: FavoriteSyncStatus) -> Seq<char> {
    match s {
        FavoriteSyncStatus::Disabled => "disabled"@,
        FavoriteSyncStatus::Checking => "checking"@,
        FavoriteSyncStatus::NeedsResolution => "needs_resolution"@,
        FavoriteSyncStatus::Syncing => "syncing"@,
        FavoriteSyncStatus::Synced => "synced"@,
        FavoriteSyncStatus::Error => "error"@,
    }
}

pub open spec fn status_from_db_text(v: Seq<char>) -> Option<FavoriteSyncStatus> {
    if v == "disabled"@ {
        Some(FavoriteSyncStatus::Disabled)
    } else if v == "checking"@ {
        Some(FavoriteSyncStatus::Checking)
    } else if v == "needs_resolution"@ {
        Some(FavoriteSyncStatus::NeedsResolution)
    } else if v == "syncing"@ {
        Some(FavoriteSyncStatus::Syncing)
    } else if v == "synced"@ {
        Some(FavoriteSyncStatus::Synced)
    } else if v == "error"@ {
        Some(FavoriteSyncStatus::Error)
    } else {
        None
    }
}

pub open spec fn phase_db_text(p: FavoriteSyncProgressPhase) -> Seq<char> {
    match p {
        FavoriteSyncProgressPhase::FetchingRemote => "fetching_remote"@,
        FavoriteSyncProgressPhase::UploadingLocal => "uploading_local"@,
        FavoriteSyncProgressPhase::Verifying => "verifying"@,
    }
}

pub open spec fn phase_from_db_text(v: Seq<char>) -> Option<FavoriteSyncProgressPhase> {
    if v == "fetching_remote"@ {
        Some(FavoriteSyncProgressPhase::FetchingRemote)
    } else if v == "uploading_local"@ {
        Some(FavoriteSyncProgressPhase::UploadingLocal)
    } else if v == "verifying"@ {
        Some(FavoriteSyncProgressPhase::Verifying)
    } else {
        None
    }
}

pub open spec fn kind_db_text(k: PendingKind) -> Seq<char> {
    match k {
        PendingKind::Check => "check"@,
        PendingKind::Merge => "merge"@,
        PendingKind::RemoteOverwrite => "remote_overwrite"@,
        PendingKind::SetFavorite => "set_favorite"@,
    }
}

pub open spec fn kind_from_db_text(v: Seq<char>) -> Option<PendingKind> {
    if v == "check"@ {
        Some(PendingKind::Check)
    } else if v == "merge"@ {
        Some(PendingKind::Merge)
    } else if v == "remote_overwrite"@ {
        Some(PendingKind::RemoteOverwrite)
    } else if v == "set_favorite"@ {
        Some(PendingKind::SetFavorite)
    } else {
        None
    }
}

impl FavoriteSyncStatus {
    /// The text the status is stored as.
    pub fn db_value(self) -> (s: &'static str)
        ensures
            s@ == status_db_text(self),
    {
        match self {
            FavoriteSyncStatus::Disabled => "disabled",
            FavoriteSyncStatus::Checking => "checking",
            FavoriteSyncStatus::NeedsResolution => "needs_resolution",
            FavoriteSyncStatus::Syncing => "syncing",
            FavoriteSyncStatus::Synced => "synced",
            FavoriteSyncStatus::Error => "error",
        }
    }

    /// The status a stored text names; `None` for an unknown text.
    pub fn from_db(value: &str) -> (r: Option<Self>)
        ensures
            r == status_from_db_text(value@),
    {
        if text::str_equals(value, "disabled") {
            Some(FavoriteSyncStatus::Disabled)
        } else if text::str_equals(value, "checking") {
            Some(FavoriteSyncStatus::Checking)
        } else if text::str_equals(value, "needs_resolution") {
            Some(FavoriteSyncStatus::NeedsResolution)
        } else if text::str_equals(value, "syncing") {
            Some(FavoriteSyncStatus::Syncing)
        } else if text::str_equals(value, "synced") {
            Some(FavoriteSyncStatus::Synced)
        } else if text::str_equals(value, "error") {
            Some(FavoriteSyncStatus::Error)
        } else {
            None
        }
    }
}

impl FavoriteSyncProgressPhase {
    /// The text the phase is stored as.
    pub fn db_value(self) -> (s: &'static str)
        ensures
            s@ == phase_db_text(self),
    {
        match self {
            FavoriteSyncProgressPhase::FetchingRemote => "fetching_remote",
            FavoriteSyncProgressPhase::UploadingLocal => "uploading_local",
            FavoriteSyncProgressPhase::Verifying => "verifying",
        }
    }

    /// The phase a stored text names; `None` for an unknown text.
    pub fn from_db(value: &str) -> (r: Option<Self>)
        ensures
            r == phase_from_db_text(value@),
    {
        if text::str_equals(value, "fetching_remote") {
            Some(FavoriteSyncProgressPhase::FetchingRemote)
        } else if text::str_equals(value, "uploading_local") {
            Some(FavoriteSyncProgressPhase::UploadingLocal)
        } else if text::str_equals(value, "verifying") {
            Some(FavoriteSyncProgressPhase::Verifying)
        } else {
            None
        }
    }
}

impl PendingKind {
    /// The text the kind is stored as.
    pub fn db_value(self) -> (s: &'static str)
        ensures
            s@ == kind_db_text(self),
    {
        match self {
            PendingKind::Check => "check",
            PendingKind::Merge => "merge",
            PendingKind::RemoteOverwrite => "remote_overwrite",
            PendingKind::SetFavorite => "set_favorite",
        }
    }

    /// The kind a stored text names; `None` for an unknown text.
    pub fn from_db(value: &str) -> (r: Option<Self>)
        ensures
            r == kind_from_db_text(value@),
    {
        if text::str_equals(value, "check") {
            Some(PendingKind::Check)
        } else if text::str_equals(value, "merge") {
            Some(PendingKind::Merge)
        } else if text::str_equals(value, "remote_overwrite") {
            Some(PendingKind::RemoteOverwrite)
        } else if text::str_equals(value, "set_favorite") {
            Some(PendingKind::SetFavorite)
        } else {
            None
        }
    }
}

/// Every status, phase and pending kind reads back from the text it is
/// stored as, and no two of them are stored as the same text.
pub proof fn lemma_db_texts_round_trip(
    s: FavoriteSyncStatus,
    p: FavoriteSyncProgressPhase,
    k: PendingKind,
)
    ensures
        status_from_db_text(status_db_text(s)) == Some(s),
        phase_from_db_text(phase_db_text(p)) == Some(p),
        kind_from_db_text(kind_db_text(k)) == Some(k),
{
    reveal_strlit("disabled");
    reveal_strlit("checking");
    reveal_strlit("needs_resolution");
    reveal_strlit("syncing");
    reveal_strlit("synced");
    reveal_strlit("error");
    reveal_strlit("fetching_remote");
    reveal_strlit("uploading_local");
    reveal_strlit("verifying");
    reveal_strlit("check");
    reveal_strlit("merge");
    reveal_strlit("remote_overwrite");
    reveal_strlit("set_favorite");
    assert("checking"@[0] != "disabled"@[0]);
    assert("uploading_local"@[0] != "fetching_remote"@[0]);
    assert("merge"@[0] != "check"@[0]);
    assert("needs_resolution"@.len() != "disabled"@.len());
    assert("needs_resolution"@.len() != "checking"@.len());
    assert("syncing"@.len() != "disabled"@.len());
    assert("syncing"@.len() != "checking"@.len());
    assert("syncing"@.len() != "needs_resolution"@.len());
    assert("synced"@.len() != "disabled"@.len());
    assert("synced"@.len() != "checking"@.len());
    assert("synced"@.len() != "needs_resolution"@.len());
    assert("synced"@.len() != "syncing"@.len());
    assert("error"@.len() != "disabled"@.len());
    assert("error"@.len() != "checking"@.len());
    assert("error"@.len() != "needs_resolution"@.len());
    assert("error"@.len() != "syncing"@.len());
    assert("error"@.len() != "synced"@.len());
    assert("remote_overwrite"@.len() != "check"@.len());
    assert("remote_overwrite"@.len() != "merge"@.len());
    assert("set_favorite"@.len() != "check"@.len());
    assert("set_favorite"@.len() != "merge"@.len());
    assert("set_favorite"@.len() != "remote_overwrite"@.len());
}

} // verus!

verus! {

/// The stored synchronization record.
#[derive(Debug, Clone)]
pub struct SyncRecord {
    pub enabled: bool,
    pub account_id: Option<u32>,
    pub account_username: Option<String>,
    pub status: FavoriteSyncStatus,
    pub local_count: i64,
    pub remote_count: i64,
    pub local_only_count: i64,
    pub remote_only_count: i64,
    pub progress_done: i64,
    pub progress_total: i64,
    pub progress_phase: Option<FavoriteSyncProgressPhase>,
    pub operation_epoch: i64,
    pub pending_kind: Option<PendingKind>,
    pub pending_comic_id: Option<String>,
    pub pending_target: Option<bool>,
    pub pending_payload: Option<String>,
    pub last_error: Option<String>,
    pub last_checked_at: Option<i64>,
    pub last_synced_at: Option<i64>,
    pub updated_at: i64,
}

/// A synchronization record with its texts as character sequences.
pub struct SyncRecordView {
    pub enabled: bool,
    pub account_id: Option<u32>,
    pub account_username: Option<Seq<char>>,
    pub status: FavoriteSyncStatus,
    pub local_count: i64,
    pub remote_count: i64,
    pub local_only_count: i64,
    pub remote_only_count: i64,
    pub progress_done: i64,
    pub progress_total: i64,
    pub progress_phase: Option<FavoriteSyncProgressPhase>,
    pub operation_epoch: i64,
    pub pending_kind: Option<PendingKind>,
    pub pending_comic_id: Option<Seq<char>>,
    pub pending_target: Option<bool>,
    pub pending_payload: Option<Seq<char>>,
    pub last_error: Option<Seq<char>>,
    pub last_checked_at: Option<i64>,
    pub last_synced_at: Option<i64>,
    pub updated_at: i64,
}

impl View for SyncRecord {
    type V = SyncRecordView;

    open spec fn view(&self) -> SyncRecordView {
        SyncRecordView {
            enabled: self.enabled,
            account_id: self.account_id,
            account_username: text::opt_text(self.account_username),
            status: self.status,
            local_count: self.local_count,
            remote_count: self.remote_count,
            local_only_count: self.local_only_count,
            remote_only_count: self.remote_only_count,
            progress_done: self.progress_done,
            progress_total: self.progress_total,
            progress_phase: self.progress_phase,
            operation_epoch: self.operation_epoch,
            pending_kind: self.pending_kind,
            pending_comic_id: text::opt_text(self.pending_comic_id),
            pending_target: self.pending_target,
            pending_payload: text::opt_text(self.pending_payload),
            last_error: text::opt_text(self.last_error),
            last_checked_at: self.last_checked_at,
            last_synced_at: self.last_synced_at,
            updated_at: self.updated_at,
        }
    }
}

impl SyncRecord {
    /// A copy of the record.
    pub fn duplicate(&self) -> (r: SyncRecord)
        ensures
            r@ == self@,
    {
        SyncRecord {
            enabled: self.enabled,
            account_id: self.account_id,
            account_username: text::clone_opt_string(&self.account_username),
            status: self.status,
            local_count: self.local_count,
            remote_count: self.remote_count,
            local_only_count: self.local_only_count,
            remote_only_count: self.remote_only_count,
            progress_done: self.progress_done,
            progress_total: self.progress_total,
            progress_phase: self.progress_phase,
            operation_epoch: self.operation_epoch,
            pending_kind: self.pending_kind,
            pending_comic_id: text::clone_opt_string(&self.pending_comic_id),
            pending_target: self.pending_target,
            pending_payload: text::clone_opt_string(&self.pending_payload),
            last_error: text::clone_opt_string(&self.last_error),
            last_checked_at: self.last_checked_at,
            last_synced_at: self.last_synced_at,
            updated_at: self.updated_at,
        }
    }
}

/// What the frontend is shown of the synchronization record.
#[derive(Debug, Clone)]
pub struct FavoriteSyncState {
    pub enabled: bool,
    pub status: FavoriteSyncStatus,
    pub account_username: Option<String>,
    pub local_count: i64,
    pub remote_count: i64,
    pub local_only_count: i64,
    pub remote_only_count: i64,
    pub progress_done: i64,
    pub progress_total: i64,
    pub progress_phase: Option<FavoriteSyncProgressPhase>,
    pub pending_kind: Option<PendingKind>,
    pub pending_comic_id: Option<String>,
    pub pending_target: Option<bool>,
    pub last_error: Option<String>,
    pub last_checked_at: Option<i64>,
    pub last_synced_at: Option<i64>,
}

impl FavoriteSyncState {
    /// The record as the frontend sees it: everything but the account id, the
    /// operation epoch, the pending payload and the update time.
    pub fn from_record(record: &SyncRecord) -> (s: FavoriteSyncState)
        ensures
            s.enabled == record.enabled,
            s.status == record.status,
            text::opt_text(s.account_username) == text::opt_text(record.account_username),
            s.local_count == record.local_count,
            s.remote_count == record.remote_count,
            s.local_only_count == record.local_only_count,
            s.remote_only_count == record.remote_only_count,
            s.progress_done == record.progress_done,
            s.progress_total == record.progress_total,
            s.progress_phase == record.progress_phase,
            s.pending_kind == record.pending_kind,
            text::opt_text(s.pending_comic_id) == text::opt_text(record.pending_comic_id),
            s.pending_target == record.pending_target,
            text::opt_text(s.last_error) == text::opt_text(record.last_error),
            s.last_checked_at == record.last_checked_at,
            s.last_synced_at == record.last_synced_at,
    {
        FavoriteSyncState {
            enabled: record.enabled,
            status: record.status,
            account_username: text::clone_opt_string(&record.account_username),
            local_count: record.local_count,
            remote_count: record.remote_count,
            local_only_count: record.local_only_count,
            remote_only_count: record.remote_only_count,
            progress_done: record.progress_done,
            progress_total: record.progress_total,
            progress_phase: record.progress_phase,
            pending_kind: record.pending_kind,
            pending_comic_id: text::clone_opt_string(&record.pending_comic_id),
            pending_target: record.pending_target,
            last_error: text::clone_opt_string(&record.last_error),
            last_checked_at: record.last_checked_at,
            last_synced_at: record.last_synced_at,
        }
    }
}

/// What a synchronization request can fail with.
#[derive(Debug)]
pub enum FavoriteSyncError {
    Conflict(String),
    Account(String),
    OrderUnavailable(String),
    SyncMismatch(String),
    OrderStale(String),
    Remote(String),
    Internal(String),
}

pub enum SyncErrorView {
    Conflict(Seq<char>),
    Account(Seq<char>),
    OrderUnavailable(Seq<char>),
    SyncMismatch(Seq<char>),
    OrderStale(Seq<char>),
    Remote(Seq<char>),
    Internal(Seq<char>),
}

impl View for FavoriteSyncError {
    type V = SyncErrorView;

    open spec fn view(&self) -> SyncErrorView {
        match self {
            FavoriteSyncError::Conflict(m) => SyncErrorView::Conflict(m@),
            FavoriteSyncError::Account(m) => SyncErrorView::Account(m@),
            FavoriteSyncError::OrderUnavailable(m) => SyncErrorView::OrderUnavailable(m@),
            FavoriteSyncError::SyncMismatch(m) => SyncErrorView::SyncMismatch(m@),
            FavoriteSyncError::OrderStale(m) => SyncErrorView::OrderStale(m@),
            FavoriteSyncError::Remote(m) => SyncErrorView::Remote(m@),
            FavoriteSyncError::Internal(m) => SyncErrorView::Internal(m@),
        }
    }
}

/// The HTTP status, retry hint and machine-readable code an error answers
/// with.
pub open spec fn http_shape(e: SyncErrorView) -> (u16, bool, Option<Seq<char>>) {
    match e {
        SyncErrorView::Conflict(_) => (STATUS_CONFLICT, false, None),
        SyncErrorView::Account(_) => (STATUS_CONFLICT, false, None),
        SyncErrorView::OrderUnavailable(_) => (
            STATUS_CONFLICT,
            false,
            Some("favorite_order_unavailable"@),
        ),
        SyncErrorView::SyncMismatch(_) => (STATUS_CONFLICT, false, Some("favorite_sync_mismatch"@)),
        SyncErrorView::OrderStale(_) => (STATUS_CONFLICT, true, Some("favorite_order_stale"@)),
        SyncErrorView::Remote(_) => (STATUS_BAD_GATEWAY, true, None),
        SyncErrorView::Internal(_) => (crate::http_error::STATUS_INTERNAL_SERVER_ERROR, false, None),
    }
}

pub open spec fn error_message(e: SyncErrorView) -> Seq<char> {
    match e {
        SyncErrorView::Conflict(m) => m,
        SyncErrorView::Account(m) => m,
        SyncErrorView::OrderUnavailable(m) => m,
        SyncErrorView::SyncMismatch(m) => m,
        SyncErrorView::OrderStale(m) => m,
        SyncErrorView::Remote(m) => m,
        SyncErrorView::Internal(m) => m,
    }
}

pub open spec fn code_text(c: Option<&'static str>) -> Option<Seq<char>> {
    match c {
        Some(s) => Some(s@),
        None => None,
    }
}

impl FavoriteSyncError {
    /// The HTTP error that answers this error: a conflict (409) for state,
    /// account and ordering problems, a bad gateway (502) for an upstream
    /// failure, an internal error (500) otherwise; only upstream failures and
    /// stale orderings are worth retrying.
    pub fn into_http_error(self) -> (h: HttpError)
        ensures
            (h.status, h.retryable, code_text(h.code)) == http_shape(self@),
            h.message@ == error_message(self@),
    {
        match self {
            FavoriteSyncError::Conflict(message) => HttpError::new(STATUS_CONFLICT, message, false),
            FavoriteSyncError::Account(message) => HttpError::new(STATUS_CONFLICT, message, false),
            FavoriteSyncError::OrderUnavailable(message) => HttpError::new(
                STATUS_CONFLICT,
                message,
                false,
            ).with_code("favorite_order_unavailable"),
            FavoriteSyncError::SyncMismatch(message) => HttpError::new(
                STATUS_CONFLICT,
                message,
                false,
            ).with_code("favorite_sync_mismatch"),
            FavoriteSyncError::OrderStale(message) => HttpError::new(
                STATUS_CONFLICT,
                message,
                true,
            ).with_code("favorite_order_stale"),
            FavoriteSyncError::Remote(message) => HttpError::new(STATUS_BAD_GATEWAY, message, true),
            FavoriteSyncError::Internal(message) => HttpError::internal(message),
        }
    }
}

/// Why a background synchronization task stopped.
#[derive(Debug)]
pub enum SyncTaskError {
    /// Synchronization was turned off or another operation started.
    Cancelled,
    MissingComicId,
    MissingTarget,
    MissingPayload,
    /// Reading the upstream favorites went wrong.
    Snapshot(snapshot::SnapshotFault),
    MergeMismatch,
    OverwriteMismatch,
    TargetNotReached,
    /// An upstream call failed, with its message.
    Remote(String),
    /// The toggle and the check after it both failed, with their messages.
    ToggleAndVerify(String, String),
}

} // verus!

verus! {

pub open spec fn msg_login_required() -> Seq<char> {
    "请先登录 JM 账号再同步收藏"@
}

pub open spec fn msg_account_mismatch() -> Seq<char> {
    "当前登录账号与收藏同步绑定账号不一致"@
}

pub open spec fn msg_nothing_to_resolve() -> Seq<char> {
    "当前没有需要处理的收藏差异"@
}

pub open spec fn msg_nothing_to_retry() -> Seq<char> {
    "当前没有可重试的收藏同步任务"@
}

pub open spec fn msg_retry_without_task() -> Seq<char> {
    "收藏同步错误缺少可重试任务，请关闭后重新开启"@
}

pub open spec fn msg_sync_not_ready() -> Seq<char> {
    "收藏同步尚未就绪，请在设置中完成或重试同步"@
}

pub open spec fn msg_clear_while_enabled() -> Seq<char> {
    "收藏同步开启时不能批量清空收藏"@
}

pub open spec fn msg_sync_not_enabled() -> Seq<char> {
    "收藏同步尚未开启"@
}

pub open spec fn msg_automatic_check_not_needed() -> Seq<char> {
    "当前收藏同步状态不需要自动检查"@
}

pub open spec fn msg_check_not_allowed() -> Seq<char> {
    "当前收藏同步状态不能重新检查，请先完成或重试现有任务"@
}

pub open spec fn msg_interrupted_by_restart() -> Seq<char> {
    "上次收藏同步被服务重启中断，请重试同步"@
}

pub open spec fn msg_order_unavailable() -> Seq<char> {
    "登录 JM 账号并完成收藏同步后才能按更新时间排序"@
}

pub open spec fn msg_remote_read_failed() -> Seq<char> {
    "读取远端收藏失败，请重试"@
}

pub open spec fn msg_sets_differ() -> Seq<char> {
    "本地与远端收藏已不一致，请在设置中重新检查同步"@
}

pub open spec fn msg_remote_list_broken() -> Seq<char> {
    "远端收藏列表异常，请在设置中重新检查同步"@
}

pub open spec fn msg_order_stale() -> Seq<char> {
    "收藏同步状态已变化，正在重新读取"@
}

pub open spec fn msg_cancelled_before_local_write() -> Seq<char> {
    "收藏同步已关闭，本次操作未写入本地"@
}

pub open spec fn msg_state_save_failed() -> Seq<char> {
    "收藏同步状态保存失败"@
}

pub open spec fn msg_store_failed() -> Seq<char> {
    "收藏存储操作失败"@
}

pub open spec fn msg_relogging() -> Seq<char> {
    "JM 账号正在重新登录，请登录成功后重试同步"@
}

pub open spec fn msg_logged_out() -> Seq<char> {
    "JM 账号未登录，请重新登录后重试同步"@
}

pub open spec fn task_failure_text(kind: PendingKind) -> Seq<char> {
    match kind {
        PendingKind::Check => "读取远端收藏失败，请重试同步"@,
        PendingKind::Merge => "合并收藏失败，请重试同步"@,
        PendingKind::RemoteOverwrite => "使用远端收藏覆盖本地失败，请重试同步"@,
        PendingKind::SetFavorite => "收藏同步失败，请重试同步"@,
    }
}

/// The message a failed background task leaves in the record.
pub fn task_failure_message(kind: PendingKind) -> (m: &'static str)
    ensures
        m@ == task_failure_text(kind),
{
    match kind {
        PendingKind::Check => "读取远端收藏失败，请重试同步",
        PendingKind::Merge => "合并收藏失败，请重试同步",
        PendingKind::RemoteOverwrite => "使用远端收藏覆盖本地失败，请重试同步",
        PendingKind::SetFavorite => "收藏同步失败，请重试同步",
    }
}

fn conflict(m: &str) -> (e: FavoriteSyncError)
    ensures
        e@ == SyncErrorView::Conflict(m@),
{
    FavoriteSyncError::Conflict(text::owned(m))
}

fn account(m: &str) -> (e: FavoriteSyncError)
    ensures
        e@ == SyncErrorView::Account(m@),
{
    FavoriteSyncError::Account(text::owned(m))
}

fn mismatch(m: &str) -> (e: FavoriteSyncError)
    ensures
        e@ == SyncErrorView::SyncMismatch(m@),
{
    FavoriteSyncError::SyncMismatch(text::owned(m))
}

/// The error that stands for a stale ordered listing.
pub fn stale_order_error() -> (e: FavoriteSyncError)
    ensures
        e@ == SyncErrorView::OrderStale(msg_order_stale()),
{
    FavoriteSyncError::OrderStale(text::owned("收藏同步状态已变化，正在重新读取"))
}

/// The error that answers a failed save of the synchronization record.
pub fn internal_error() -> (e: FavoriteSyncError)
    ensures
        e@ == SyncErrorView::Internal(msg_state_save_failed()),
{
    FavoriteSyncError::Internal(text::owned("收藏同步状态保存失败"))
}

/// The error that answers a failed operation on local favorites.
pub fn local_operation_error() -> (e: FavoriteSyncError)
    ensures
        e@ == SyncErrorView::Internal(msg_store_failed()),
{
    FavoriteSyncError::Internal(text::owned("收藏存储操作失败"))
}

/// The error that answers a failed read of the upstream favorites.
pub fn remote_read_error() -> (e: FavoriteSyncError)
    ensures
        e@ == SyncErrorView::Remote(msg_remote_read_failed()),
{
    FavoriteSyncError::Remote(text::owned("读取远端收藏失败，请重试"))
}

} // verus!

verus! {

/// The epoch after `e`; it stays put at the largest value.
pub open spec fn bumped(e: i64) -> i64 {
    if e == i64::MAX {
        e
    } else {
        (e + 1) as i64
    }
}

/// True when a task started under `epoch` may still write: synchronization
/// is on and no other operation started since.
pub open spec fn is_current(r: SyncRecordView, epoch: i64) -> bool {
    r.enabled && r.operation_epoch == epoch
}

/// True when the session is logged in as a known user.
pub open spec fn logged_in(s: AccountSessionView) -> bool {
    s.login_status == LoginStatus::LoggedIn && s.user_id is Some
}

/// True when favorites may be listed in the upstream order: synchronization
/// is on and settled, for the account that is logged in.
pub open spec fn order_ready(r: SyncRecordView, s: AccountSessionView) -> bool {
    &&& r.enabled
    &&& r.status == FavoriteSyncStatus::Synced
    &&& logged_in(s)
    &&& r.account_id == s.user_id
}

/// `r` with a task pending; the progress phase is cleared.
pub open spec fn pending_set(
    r: SyncRecordView,
    kind: PendingKind,
    comic_id: Option<Seq<char>>,
    target: Option<bool>,
    payload: Option<Seq<char>>,
) -> SyncRecordView {
    SyncRecordView {
        pending_kind: Some(kind),
        pending_comic_id: comic_id,
        pending_target: target,
        pending_payload: payload,
        progress_phase: None,
        ..r
    }
}

/// `r` with no task pending, no progress phase and no error.
pub open spec fn pending_cleared(r: SyncRecordView) -> SyncRecordView {
    SyncRecordView {
        pending_kind: None,
        pending_comic_id: None,
        pending_target: None,
        pending_payload: None,
        progress_phase: None,
        last_error: None,
        ..r
    }
}

/// `r` with its counts and progress at zero and no error.
pub open spec fn counts_cleared(r: SyncRecordView) -> SyncRecordView {
    SyncRecordView {
        local_count: 0,
        remote_count: 0,
        local_only_count: 0,
        remote_only_count: 0,
        progress_done: 0,
        progress_total: 0,
        progress_phase: None,
        last_error: None,
        ..r
    }
}

/// `r` turned off: no account, status `Disabled`, nothing counted, pending,
/// failed, checked or synced.
pub open spec fn reset_to_disabled(r: SyncRecordView) -> SyncRecordView {
    let a = SyncRecordView {
        enabled: false,
        account_id: None,
        account_username: None,
        status: FavoriteSyncStatus::Disabled,
        ..r
    };
    let b = pending_cleared(counts_cleared(a));
    SyncRecordView { last_checked_at: None, last_synced_at: None, ..b }
}

/// Records a pending task.
pub fn set_pending(
    record: &mut SyncRecord,
    kind: PendingKind,
    comic_id: Option<String>,
    target: Option<bool>,
    payload: Option<String>,
)
    ensures
        final(record)@ == pending_set(
            old(record)@,
            kind,
            text::opt_text(comic_id),
            target,
            text::opt_text(payload),
        ),
{
    record.pending_kind = Some(kind);
    record.pending_comic_id = comic_id;
    record.pending_target = target;
    record.pending_payload = payload;
    record.progress_phase = None;
}

/// Forgets the pending task, the progress phase and the last error.
pub fn clear_pending(record: &mut SyncRecord)
    ensures
        final(record)@ == pending_cleared(old(record)@),
{
    record.pending_kind = None;
    record.pending_comic_id = None;
    record.pending_target = None;
    record.pending_payload = None;
    record.progress_phase = None;
    record.last_error = None;
}

/// Sets the counts and progress to zero and forgets the last error.
pub fn clear_counts_and_error(record: &mut SyncRecord)
    ensures
        final(record)@ == counts_cleared(old(record)@),
{
    record.local_count = 0;
    record.remote_count = 0;
    record.local_only_count = 0;
    record.remote_only_count = 0;
    record.progress_done = 0;
    record.progress_total = 0;
    record.progress_phase = None;
    record.last_error = None;
}

/// Turns synchronization off (see `reset_to_disabled`).
pub fn reset_disabled(record: &mut SyncRecord)
    ensures
        final(record)@ == reset_to_disabled(old(record)@),
{
    record.enabled = false;
    record.account_id = None;
    record.account_username = None;
    record.status = FavoriteSyncStatus::Disabled;
    clear_counts_and_error(record);
    clear_pending(record);
    record.last_checked_at = None;
    record.last_synced_at = None;
}

fn bump_epoch(e: i64) -> (r: i64)
    ensures
        r == bumped(e),
{
    if e == i64::MAX {
        e
    } else {
        e + 1
    }
}

/// Whether a task started under `epoch` may still write.
pub fn require_current_record(record: &SyncRecord, epoch: i64) -> (r: Result<(), SyncTaskError>)
    ensures
        r is Ok <==> is_current(record@, epoch),
        r matches Err(e) ==> e is Cancelled,
{
    if !record.enabled || record.operation_epoch != epoch {
        return Err(SyncTaskError::Cancelled);
    }
    Ok(())
}

/// True when a task started under `epoch` may still write.
pub fn is_current_record(record: &SyncRecord, epoch: i64) -> (b: bool)
    ensures
        b == is_current(record@, epoch),
{
    record.enabled && record.operation_epoch == epoch
}

/// Whether favorites may be listed in the upstream order (see `order_ready`).
pub fn remote_order_ready(record: &SyncRecord, session: &AccountSession) -> (b: bool)
    ensures
        b == order_ready(record@, session@),
{
    record.enabled && record.status == FavoriteSyncStatus::Synced && session.login_status
        == LoginStatus::LoggedIn && session.user_id.is_some() && record.account_id
        == session.user_id
}

/// The session must be logged in as a known user.
pub fn require_logged_in(session: &AccountSession) -> (r: Result<(), FavoriteSyncError>)
    ensures
        match r {
            Ok(()) => logged_in(session@),
            Err(e) => !logged_in(session@) && e@ == SyncErrorView::Account(msg_login_required()),
        },
{
    if session.login_status != LoginStatus::LoggedIn || session.user_id.is_none() {
        return Err(account("请先登录 JM 账号再同步收藏"));
    }
    Ok(())
}

/// Changing one favorite while synchronization is on needs the record to be
/// settled, for the account that is logged in.
pub open spec fn synced_session_check(r: SyncRecordView, s: AccountSessionView) -> Result<
    (),
    SyncErrorView,
> {
    if r.status != FavoriteSyncStatus::Synced {
        Err(SyncErrorView::Conflict(msg_sync_not_ready()))
    } else if r.account_id != s.user_id {
        Err(SyncErrorView::Account(msg_account_mismatch()))
    } else {
        Ok(())
    }
}

pub open spec fn unit_result(r: Result<(), FavoriteSyncError>) -> Result<(), SyncErrorView> {
    match r {
        Ok(()) => Ok(()),
        Err(e) => Err(e@),
    }
}

/// See `synced_session_check`.
pub fn validate_synced_session(record: &SyncRecord, session: &AccountSession) -> (r: Result<
    (),
    FavoriteSyncError,
>)
    ensures
        unit_result(r) == synced_session_check(record@, session@),
{
    if record.status != FavoriteSyncStatus::Synced {
        return Err(conflict("收藏同步尚未就绪，请在设置中完成或重试同步"));
    }
    if record.account_id != session.user_id {
        return Err(account("当前登录账号与收藏同步绑定账号不一致"));
    }
    Ok(())
}

} // verus!

verus! {

pub open spec fn opt_record(o: Option<SyncRecord>) -> Option<SyncRecordView> {
    match o {
        Some(r) => Some(r@),
        None => None,
    }
}

pub open spec fn record_result(r: Result<SyncRecord, FavoriteSyncError>) -> Result<
    SyncRecordView,
    SyncErrorView,
> {
    match r {
        Ok(n) => Ok(n@),
        Err(e) => Err(e@),
    }
}

pub open spec fn opt_record_result(r: Result<Option<SyncRecord>, FavoriteSyncError>) -> Result<
    Option<SyncRecordView>,
    SyncErrorView,
> {
    match r {
        Ok(n) => Ok(opt_record(n)),
        Err(e) => Err(e@),
    }
}

pub open spec fn kind_record_result(r: Result<(SyncRecord, PendingKind), FavoriteSyncError>) -> Result<
    (SyncRecordView, PendingKind),
    SyncErrorView,
> {
    match r {
        Ok((n, k)) => Ok((n@, k)),
        Err(e) => Err(e@),
    }
}

// ---- Starting up ----

/// What a record loaded at start-up becomes: a record that is off but not
/// `Disabled` is reset; a task that a restart interrupted becomes an error to
/// retry; any other record stays as it is (`None`).
pub open spec fn recovered(r: SyncRecordView, now: i64) -> Option<SyncRecordView> {
    if !r.enabled && r.status != FavoriteSyncStatus::Disabled {
        Some(reset_to_disabled(r))
    } else if r.enabled && (r.status == FavoriteSyncStatus::Checking || r.status
        == FavoriteSyncStatus::Syncing) {
        Some(
            SyncRecordView {
                status: FavoriteSyncStatus::Error,
                last_error: Some(msg_interrupted_by_restart()),
                progress_done: 0,
                progress_total: 0,
                progress_phase: None,
                updated_at: now,
                ..r
            },
        )
    } else {
        None
    }
}

/// See `recovered`; `now` is the time of the start-up.
pub fn recover_at(record: &SyncRecord, now: i64) -> (r: Option<SyncRecord>)
    ensures
        opt_record(r) == recovered(record@, now),
{
    if !record.enabled && record.status != FavoriteSyncStatus::Disabled {
        let mut next = record.duplicate();
        reset_disabled(&mut next);
        Some(next)
    } else if record.enabled && (record.status == FavoriteSyncStatus::Checking || record.status
        == FavoriteSyncStatus::Syncing) {
        let mut next = record.duplicate();
        next.status = FavoriteSyncStatus::Error;
        next.last_error = Some(text::owned("上次收藏同步被服务重启中断，请重试同步"));
        next.progress_done = 0;
        next.progress_total = 0;
        next.progress_phase = None;
        next.updated_at = now;
        Some(next)
    } else {
        None
    }
}

/// See `recovered`, at the time the clock reads.
pub fn recover(record: &SyncRecord) -> (r: Option<SyncRecord>)
    ensures
        exists|t: i64| opt_record(r) == recovered(record@, t),
{
    recover_at(record, clock::now())
}

// ---- Turning synchronization on and off ----

/// Turning synchronization on: refused unless logged in; nothing to do when
/// it is on already; otherwise the record binds the session's account and a
/// check is pending.
pub open spec fn enabled_for(r: SyncRecordView, s: AccountSessionView, now: i64) -> Result<
    Option<SyncRecordView>,
    SyncErrorView,
> {
    if !logged_in(s) {
        Err(SyncErrorView::Account(msg_login_required()))
    } else if r.enabled {
        Ok(None)
    } else {
        let a = SyncRecordView {
            enabled: true,
            account_id: s.user_id,
            account_username: s.username,
            status: FavoriteSyncStatus::Checking,
            operation_epoch: bumped(r.operation_epoch),
            ..r
        };
        let b = counts_cleared(pending_set(a, PendingKind::Check, None, None, None));
        Ok(Some(SyncRecordView { updated_at: now, ..b }))
    }
}

/// See `enabled_for`.
pub fn begin_enable_at(record: &SyncRecord, session: &AccountSession, now: i64) -> (r: Result<
    Option<SyncRecord>,
    FavoriteSyncError,
>)
    ensures
        opt_record_result(r) == enabled_for(record@, session@, now),
{
    require_logged_in(session)?;
    if record.enabled {
        return Ok(None);
    }
    let mut next = record.duplicate();
    next.enabled = true;
    next.account_id = session.user_id;
    next.account_username = text::clone_opt_string(&session.username);
    next.status = FavoriteSyncStatus::Checking;
    next.operation_epoch = bump_epoch(next.operation_epoch);
    set_pending(&mut next, PendingKind::Check, None, None, None);
    clear_counts_and_error(&mut next);
    next.updated_at = now;
    Ok(Some(next))
}

/// See `enabled_for`, at the time the clock reads.
pub fn begin_enable(record: &SyncRecord, session: &AccountSession) -> (r: Result<
    Option<SyncRecord>,
    FavoriteSyncError,
>)
    ensures
        exists|t: i64| opt_record_result(r) == enabled_for(record@, session@, t),
{
    begin_enable_at(record, session, clock::now())
}

/// Turning synchronization off: a new operation that resets the record.
pub open spec fn disabled_from(r: SyncRecordView, now: i64) -> SyncRecordView {
    let a = SyncRecordView { operation_epoch: bumped(r.operation_epoch), ..r };
    SyncRecordView { updated_at: now, ..reset_to_disabled(a) }
}

/// See `disabled_from`.
pub fn disable_at(record: &SyncRecord, now: i64) -> (r: SyncRecord)
    ensures
        r@ == disabled_from(record@, now),
{
    let mut next = record.duplicate();
    next.operation_epoch = bump_epoch(next.operation_epoch);
    reset_disabled(&mut next);
    next.updated_at = now;
    next
}

/// See `disabled_from`, at the time the clock reads.
pub fn disable(record: &SyncRecord) -> (r: SyncRecord)
    ensures
        exists|t: i64| r@ == disabled_from(record@, t),
{
    disable_at(record, clock::now())
}

// ---- Starting a check, a resolution or a retry ----

/// Starting a check for differences: refused unless logged in as the bound
/// account with synchronization on and settled or awaiting a resolution.
pub open spec fn check_started(
    r: SyncRecordView,
    s: AccountSessionView,
    automatic: bool,
    now: i64,
) -> Result<SyncRecordView, SyncErrorView> {
    if !logged_in(s) {
        Err(SyncErrorView::Account(msg_login_required()))
    } else if !r.enabled {
        Err(SyncErrorView::Conflict(msg_sync_not_enabled()))
    } else if r.account_id != s.user_id {
        Err(SyncErrorView::Account(msg_account_mismatch()))
    } else if !(r.status == FavoriteSyncStatus::Synced || r.status
        == FavoriteSyncStatus::NeedsResolution) {
        Err(
            SyncErrorView::Conflict(
                if automatic {
                    msg_automatic_check_not_needed()
                } else {
                    msg_check_not_allowed()
                },
            ),
        )
    } else {
        let a = SyncRecordView {
            status: FavoriteSyncStatus::Checking,
            operation_epoch: bumped(r.operation_epoch),
            ..r
        };
        let b = pending_set(a, PendingKind::Check, None, None, None);
        Ok(
            SyncRecordView {
                last_error: None,
                progress_done: 0,
                progress_total: 0,
                progress_phase: None,
                updated_at: now,
                ..b
            },
        )
    }
}

/// See `check_started`.
pub fn begin_check_at(record: &SyncRecord, session: &AccountSession, automatic: bool, now: i64) -> (r:
    Result<SyncRecord, FavoriteSyncError>)
    ensures
        record_result(r) == check_started(record@, session@, automatic, now),
{
    require_logged_in(session)?;
    if !record.enabled {
        return Err(conflict("收藏同步尚未开启"));
    }
    if record.account_id != session.user_id {
        return Err(account("当前登录账号与收藏同步绑定账号不一致"));
    }
    let allowed = record.status == FavoriteSyncStatus::Synced || record.status
        == FavoriteSyncStatus::NeedsResolution;
    if !allowed {
        if automatic {
            return Err(conflict("当前收藏同步状态不需要自动检查"));
        } else {
            return Err(conflict("当前收藏同步状态不能重新检查，请先完成或重试现有任务"));
        }
    }
    let mut next = record.duplicate();
    next.status = FavoriteSyncStatus::Checking;
    next.operation_epoch = bump_epoch(next.operation_epoch);
    set_pending(&mut next, PendingKind::Check, None, None, None);
    next.last_error = None;
    next.progress_done = 0;
    next.progress_total = 0;
    next.progress_phase = None;
    next.updated_at = now;
    Ok(next)
}

/// See `check_started`, at the time the clock reads.
pub fn begin_check(record: &SyncRecord, session: &AccountSession, automatic: bool) -> (r: Result<
    SyncRecord,
    FavoriteSyncError,
>)
    ensures
        exists|t: i64| record_result(r) == check_started(record@, session@, automatic, t),
{
    begin_check_at(record, session, automatic, clock::now())
}

pub open spec fn resolution_kind(resolution: FavoriteSyncResolution) -> PendingKind {
    match resolution {
        FavoriteSyncResolution::Merge => PendingKind::Merge,
        FavoriteSyncResolution::RemoteOverwrite => PendingKind::RemoteOverwrite,
    }
}

/// Starting a resolution of the differences found: refused unless logged in
/// as the bound account with differences awaiting a resolution.
pub open spec fn resolution_started(
    r: SyncRecordView,
    s: AccountSessionView,
    resolution: FavoriteSyncResolution,
    now: i64,
) -> Result<(SyncRecordView, PendingKind), SyncErrorView> {
    if !logged_in(s) {
        Err(SyncErrorView::Account(msg_login_required()))
    } else if !r.enabled || r.status != FavoriteSyncStatus::NeedsResolution {
        Err(SyncErrorView::Conflict(msg_nothing_to_resolve()))
    } else if r.account_id != s.user_id {
        Err(SyncErrorView::Account(msg_account_mismatch()))
    } else {
        let kind = resolution_kind(resolution);
        let a = SyncRecordView {
            status: FavoriteSyncStatus::Syncing,
            operation_epoch: bumped(r.operation_epoch),
            ..r
        };
        let b = pending_set(a, kind, None, None, None);
        Ok(
            (
                SyncRecordView {
                    last_error: None,
                    progress_done: 0,
                    progress_total: 0,
                    progress_phase: None,
                    updated_at: now,
                    ..b
                },
                kind,
            ),
        )
    }
}

/// See `resolution_started`.
pub fn begin_resolve_at(
    record: &SyncRecord,
    session: &AccountSession,
    resolution: FavoriteSyncResolution,
    now: i64,
) -> (r: Result<(SyncRecord, PendingKind), FavoriteSyncError>)
    ensures
        kind_record_result(r) == resolution_started(record@, session@, resolution, now),
{
    require_logged_in(session)?;
    if !record.enabled || record.status != FavoriteSyncStatus::NeedsResolution {
        return Err(conflict("当前没有需要处理的收藏差异"));
    }
    if record.account_id != session.user_id {
        return Err(account("当前登录账号与收藏同步绑定账号不一致"));
    }
    let kind = match resolution {
        FavoriteSyncResolution::Merge => PendingKind::Merge,
        FavoriteSyncResolution::RemoteOverwrite => PendingKind::RemoteOverwrite,
    };
    let mut next = record.duplicate();
    next.status = FavoriteSyncStatus::Syncing;
    next.operation_epoch = bump_epoch(next.operation_epoch);
    set_pending(&mut next, kind, None, None, None);
    next.last_error = None;
    next.progress_done = 0;
    next.progress_total = 0;
    next.progress_phase = None;
    next.updated_at = now;
    Ok((next, kind))
}

/// See `resolution_started`, at the time the clock reads.
pub fn begin_resolve(
    record: &SyncRecord,
    session: &AccountSession,
    resolution: FavoriteSyncResolution,
) -> (r: Result<(SyncRecord, PendingKind), FavoriteSyncError>)
    ensures
        exists|t: i64| kind_record_result(r) == resolution_started(record@, session@, resolution, t),
{
    begin_resolve_at(record, session, resolution, clock::now())
}

/// Retrying the task that failed: refused unless logged in as the bound
/// account with a failed task pending. The progress phase is left as it is.
pub open spec fn retry_started(r: SyncRecordView, s: AccountSessionView, now: i64) -> Result<
    (SyncRecordView, PendingKind),
    SyncErrorView,
> {
    if !logged_in(s) {
        Err(SyncErrorView::Account(msg_login_required()))
    } else if !r.enabled || r.status != FavoriteSyncStatus::Error {
        Err(SyncErrorView::Conflict(msg_nothing_to_retry()))
    } else if r.account_id != s.user_id {
        Err(SyncErrorView::Account(msg_account_mismatch()))
    } else {
        match r.pending_kind {
            None => Err(SyncErrorView::Conflict(msg_retry_without_task())),
            Some(kind) => Ok(
                (
                    SyncRecordView {
                        status: if kind == PendingKind::Check {
                            FavoriteSyncStatus::Checking
                        } else {
                            FavoriteSyncStatus::Syncing
                        },
                        operation_epoch: bumped(r.operation_epoch),
                        last_error: None,
                        progress_done: 0,
                        progress_total: 0,
                        updated_at: now,
                        ..r
                    },
                    kind,
                ),
            ),
        }
    }
}

/// See `retry_started`.
pub fn begin_retry_at(record: &SyncRecord, session: &AccountSession, now: i64) -> (r: Result<
    (SyncRecord, PendingKind),
    FavoriteSyncError,
>)
    ensures
        kind_record_result(r) == retry_started(record@, session@, now),
{
    require_logged_in(session)?;
    if !record.enabled || record.status != FavoriteSyncStatus::Error {
        return Err(conflict("当前没有可重试的收藏同步任务"));
    }
    if record.account_id != session.user_id {
        return Err(account("当前登录账号与收藏同步绑定账号不一致"));
    }
    let kind = match record.pending_kind {
        Some(k) => k,
        None => return Err(conflict("收藏同步错误缺少可重试任务，请关闭后重新开启")),
    };
    let mut next = record.duplicate();
    next.status = if kind == PendingKind::Check {
        FavoriteSyncStatus::Checking
    } else {
        FavoriteSyncStatus::Syncing
    };
    next.operation_epoch = bump_epoch(next.operation_epoch);
    next.last_error = None;
    next.progress_done = 0;
    next.progress_total = 0;
    next.updated_at = now;
    Ok((next, kind))
}

/// See `retry_started`, at the time the clock reads.
pub fn begin_retry(record: &SyncRecord, session: &AccountSession) -> (r: Result<
    (SyncRecord, PendingKind),
    FavoriteSyncError,
>)
    ensures
        exists|t: i64| kind_record_result(r) == retry_started(record@, session@, t),
{
    begin_retry_at(record, session, clock::now())
}

} // verus!

verus! {

// ---- Changing one favorite ----

/// Favoriting (`target` true) or unfavoriting a comic: with synchronization
/// off the change is local alone (`None`); otherwise it needs a login as the
/// bound account with the record settled, and the change becomes the pending
/// task, with the favorite's input kept as `payload`.
pub open spec fn set_favorite_started(
    r: SyncRecordView,
    s: AccountSessionView,
    comic_id: Seq<char>,
    target: bool,
    payload: Option<Seq<char>>,
    now: i64,
) -> Result<Option<SyncRecordView>, SyncErrorView> {
    if !r.enabled {
        Ok(None)
    } else if !logged_in(s) {
        Err(SyncErrorView::Account(msg_login_required()))
    } else {
        match synced_session_check(r, s) {
            Err(e) => Err(e),
            Ok(()) => {
                let a = SyncRecordView {
                    status: FavoriteSyncStatus::Syncing,
                    operation_epoch: bumped(r.operation_epoch),
                    ..r
                };
                let b = pending_set(a, PendingKind::SetFavorite, Some(comic_id), Some(target), payload);
                Ok(Some(SyncRecordView { last_error: None, updated_at: now, ..b }))
            },
        }
    }
}

/// See `set_favorite_started`.
pub fn begin_set_favorite_at(
    record: &SyncRecord,
    session: &AccountSession,
    comic_id: &str,
    target: bool,
    payload: Option<String>,
    now: i64,
) -> (r: Result<Option<SyncRecord>, FavoriteSyncError>)
    ensures
        opt_record_result(r) == set_favorite_started(
            record@,
            session@,
            comic_id@,
            target,
            text::opt_text(payload),
            now,
        ),
{
    if !record.enabled {
        return Ok(None);
    }
    require_logged_in(session)?;
    validate_synced_session(record, session)?;
    let mut next = record.duplicate();
    next.status = FavoriteSyncStatus::Syncing;
    next.operation_epoch = bump_epoch(next.operation_epoch);
    set_pending(
        &mut next,
        PendingKind::SetFavorite,
        Some(text::owned(comic_id)),
        Some(target),
        payload,
    );
    next.last_error = None;
    next.updated_at = now;
    Ok(Some(next))
}

/// See `set_favorite_started`, at the time the clock reads.
pub fn begin_set_favorite(
    record: &SyncRecord,
    session: &AccountSession,
    comic_id: &str,
    target: bool,
    payload: Option<String>,
) -> (r: Result<Option<SyncRecord>, FavoriteSyncError>)
    ensures
        exists|t: i64|
            opt_record_result(r) == set_favorite_started(
                record@,
                session@,
                comic_id@,
                target,
                text::opt_text(payload),
                t,
            ),
{
    begin_set_favorite_at(record, session, comic_id, target, payload, clock::now())
}

/// Clearing all local favorites is refused while synchronization is on.
pub fn clear_allowed(record: &SyncRecord) -> (r: Result<(), FavoriteSyncError>)
    ensures
        match r {
            Ok(()) => !record.enabled,
            Err(e) => record.enabled && e@ == SyncErrorView::Conflict(msg_clear_while_enabled()),
        },
{
    if record.enabled {
        return Err(conflict("收藏同步开启时不能批量清空收藏"));
    }
    Ok(())
}

// ---- Account changes ----

/// Why the bound account cannot be used for now.
#[derive(Clone, Copy, Debug, PartialEq, Eq, Structural)]
pub enum UnavailableReason {
    Relogging,
    LoggedOut,
}

pub open spec fn unavailable_text(reason: UnavailableReason) -> Seq<char> {
    match reason {
        UnavailableReason::Relogging => msg_relogging(),
        UnavailableReason::LoggedOut => msg_logged_out(),
    }
}

impl UnavailableReason {
    pub fn message(self) -> (m: &'static str)
        ensures
            m@ == unavailable_text(self),
    {
        match self {
            UnavailableReason::Relogging => "JM 账号正在重新登录，请登录成功后重试同步",
            UnavailableReason::LoggedOut => "JM 账号未登录，请重新登录后重试同步",
        }
    }
}

/// What synchronization does when the account session changes.
#[derive(Clone, Copy, Debug, PartialEq, Eq, Structural)]
pub enum AccountAction {
    Ignore,
    Disable,
    MarkUnavailable(UnavailableReason),
    AutomaticCheck,
}

/// With synchronization on: the account gone or switched turns it off; a
/// login in progress interrupts a running task; a logout makes the account
/// unavailable; the bound account logged in again starts a check when the
/// record is settled or awaits a resolution.
pub open spec fn account_reaction(r: SyncRecordView, s: AccountSessionView) -> AccountAction {
    if !r.enabled {
        AccountAction::Ignore
    } else if s.username is None {
        AccountAction::Disable
    } else if s.login_status == LoginStatus::LoggingIn {
        if r.status == FavoriteSyncStatus::Checking || r.status == FavoriteSyncStatus::Syncing {
            AccountAction::MarkUnavailable(UnavailableReason::Relogging)
        } else {
            AccountAction::Ignore
        }
    } else if s.login_status == LoginStatus::LoggedOut {
        AccountAction::MarkUnavailable(UnavailableReason::LoggedOut)
    } else if r.account_id != s.user_id {
        AccountAction::Disable
    } else if r.status == FavoriteSyncStatus::Synced || r.status
        == FavoriteSyncStatus::NeedsResolution {
        AccountAction::AutomaticCheck
    } else {
        AccountAction::Ignore
    }
}

/// See `account_reaction`.
pub fn account_session_action(record: &SyncRecord, session: &AccountSession) -> (a:
    AccountAction)
    ensures
        a == account_reaction(record@, session@),
{
    if !record.enabled {
        return AccountAction::Ignore;
    }
    if session.username.is_none() {
        return AccountAction::Disable;
    }
    if session.login_status == LoginStatus::LoggingIn {
        if record.status == FavoriteSyncStatus::Checking || record.status
            == FavoriteSyncStatus::Syncing {
            return AccountAction::MarkUnavailable(UnavailableReason::Relogging);
        }
        return AccountAction::Ignore;
    }
    if session.login_status == LoginStatus::LoggedOut {
        return AccountAction::MarkUnavailable(UnavailableReason::LoggedOut);
    }
    if record.account_id != session.user_id {
        return AccountAction::Disable;
    }
    if record.status == FavoriteSyncStatus::Synced || record.status
        == FavoriteSyncStatus::NeedsResolution {
        return AccountAction::AutomaticCheck;
    }
    AccountAction::Ignore
}

/// Marking the account unavailable: nothing changes when synchronization is
/// off or already failed; otherwise a new operation records the failure,
/// keeping the pending task or making a check pending.
pub open spec fn marked_unavailable(r: SyncRecordView, message: Seq<char>, now: i64) -> Option<
    SyncRecordView,
> {
    if !r.enabled || r.status == FavoriteSyncStatus::Error {
        None
    } else {
        let a = SyncRecordView {
            operation_epoch: bumped(r.operation_epoch),
            status: FavoriteSyncStatus::Error,
            ..r
        };
        let b = if a.pending_kind is None {
            pending_set(a, PendingKind::Check, None, None, None)
        } else {
            a
        };
        Some(
            SyncRecordView {
                last_error: Some(message),
                progress_done: 0,
                progress_total: 0,
                progress_phase: None,
                updated_at: now,
                ..b
            },
        )
    }
}

/// See `marked_unavailable`.
pub fn mark_account_unavailable_at(record: &SyncRecord, reason: UnavailableReason, now: i64) -> (r:
    Option<SyncRecord>)
    ensures
        opt_record(r) == marked_unavailable(record@, unavailable_text(reason), now),
{
    if !record.enabled || record.status == FavoriteSyncStatus::Error {
        return None;
    }
    let mut next = record.duplicate();
    next.operation_epoch = bump_epoch(next.operation_epoch);
    next.status = FavoriteSyncStatus::Error;
    if next.pending_kind.is_none() {
        set_pending(&mut next, PendingKind::Check, None, None, None);
    }
    next.last_error = Some(text::owned(reason.message()));
    next.progress_done = 0;
    next.progress_total = 0;
    next.progress_phase = None;
    next.updated_at = now;
    Some(next)
}

/// See `marked_unavailable`, at the time the clock reads.
pub fn mark_account_unavailable(record: &SyncRecord, reason: UnavailableReason) -> (r: Option<
    SyncRecord,
>)
    ensures
        exists|t: i64| opt_record(r) == marked_unavailable(record@, unavailable_text(reason), t),
{
    mark_account_unavailable_at(record, reason, clock::now())
}

} // verus!

verus! {

// ---- Sets of comic ids ----

/// The ids of a list of favorites, in order.
pub open spec fn ids_of(items: Seq<FavoriteItem>) -> Seq<Seq<char>> {
    items.map_values(|i: FavoriteItem| i.comic_id@)
}

/// The set of ids of a list of favorites.
pub open spec fn id_set_of(items: Seq<FavoriteItem>) -> Set<Seq<char>> {
    ids_of(items).to_set()
}

/// The ids of `items`, each once, in the order they first occur.
pub fn id_set(items: &Vec<FavoriteItem>) -> (ids: Vec<String>)
    ensures
        text::texts(ids@).no_duplicates(),
        text::texts(ids@).to_set() == id_set_of(items@),
        ids.len() <= items.len(),
{
    let mut out: Vec<String> = Vec::new();
    let mut i: usize = 0;
    assert(text::texts(out@).to_set() =~= ids_of(items@.take(0)).to_set());
    while i < items.len()
        invariant
            i <= items.len(),
            out.len() <= i,
            text::texts(out@).no_duplicates(),
            text::texts(out@).to_set() == ids_of(items@.take(i as int)).to_set(),
        decreases items.len() - i,
    {
        let ghost before = text::texts(out@);
        let ghost x = items@[i as int].comic_id@;
        assert(ids_of(items@.take(i + 1)) == ids_of(items@.take(i as int)).push(x));
        proof {
            ids_of(items@.take(i as int)).lemma_push_to_set_commute(x);
            before.lemma_push_to_set_commute(x);
        }
        if !text::strings_contain(&out, &items[i].comic_id) {
            out.push(items[i].comic_id.clone());
            assert(text::texts(out@) == before.push(items@[i as int].comic_id@));
            assert forall|a: int, b: int|
                0 <= a < text::texts(out@).len() && 0 <= b < text::texts(out@).len() && a != b implies text::texts(
                out@,
            )[a] != text::texts(out@)[b] by {
                if a < before.len() && b < before.len() {
                    assert(text::texts(out@)[a] == before[a]);
                    assert(text::texts(out@)[b] == before[b]);
                } else if a < before.len() {
                    assert(text::texts(out@)[a] == before[a]);
                    assert(before.contains(before[a]));
                } else {
                    assert(text::texts(out@)[b] == before[b]);
                    assert(before.contains(before[b]));
                }
            }
        } else {
            assert(before.to_set().insert(items@[i as int].comic_id@) =~= before.to_set());
        }
        assert(text::texts(out@).to_set() =~= ids_of(items@.take(i + 1)).to_set());
        i = i + 1;
    }
    assert(items@.take(items.len() as int) == items@);
    out
}

/// The strings of `ids` that are not in `others`, in order.
fn ids_not_in(ids: &Vec<String>, others: &Vec<String>) -> (r: Vec<String>)
    requires
        text::texts(ids@).no_duplicates(),
    ensures
        text::texts(r@).no_duplicates(),
        text::texts(r@).to_set() == text::texts(ids@).to_set().difference(
            text::texts(others@).to_set(),
        ),
        r.len() <= ids.len(),
{
    let mut out: Vec<String> = Vec::new();
    let mut i: usize = 0;
    let ghost other_set = text::texts(others@).to_set();
    assert(text::texts(out@).to_set() =~= text::texts(ids@).take(0).to_set().difference(other_set));
    while i < ids.len()
        invariant
            i <= ids.len(),
            out.len() <= i,
            other_set == text::texts(others@).to_set(),
            text::texts(ids@).no_duplicates(),
            text::texts(out@).no_duplicates(),
            text::texts(out@).to_set() == text::texts(ids@).take(i as int).to_set().difference(
                other_set,
            ),
            forall|k: int|
                0 <= k < out@.len() ==> text::texts(ids@).take(i as int).contains(
                    #[trigger] text::texts(out@)[k],
                ),
        decreases ids.len() - i,
    {
        let ghost before = text::texts(out@);
        let ghost x = ids@[i as int]@;
        assert(text::texts(ids@).take(i + 1) == text::texts(ids@).take(i as int).push(x));
        assert(text::texts(ids@)[i as int] == x);
        proof {
            text::texts(ids@).take(i as int).lemma_push_to_set_commute(x);
            before.lemma_push_to_set_commute(x);
        }
        if !text::strings_contain(others, &ids[i]) {
            out.push(ids[i].clone());
            assert(text::texts(out@) == before.push(x));
            assert(!text::texts(ids@).take(i as int).contains(x)) by {
                if text::texts(ids@).take(i as int).contains(x) {
                    let k = choose|k: int| 0 <= k < i && text::texts(ids@).take(i as int)[k] == x;
                    assert(text::texts(ids@).take(i as int)[k] == text::texts(ids@)[k]);
                    assert(text::texts(ids@)[k] == text::texts(ids@)[i as int]);
                }
            }
            assert(text::texts(out@).to_set() =~= text::texts(ids@).take(i + 1).to_set().difference(
                other_set,
            ));
            assert forall|k: int|
                0 <= k < out@.len() implies text::texts(ids@).take(i + 1).contains(
                #[trigger] text::texts(out@)[k],
            ) by {
                if k < before.len() {
                    assert(text::texts(out@)[k] == before[k]);
                    assert(text::texts(ids@).take(i as int).contains(before[k]));
                    let m = choose|m: int|
                        0 <= m < i && text::texts(ids@).take(i as int)[m] == before[k];
                    assert(text::texts(ids@).take(i + 1)[m] == before[k]);
                } else {
                    assert(text::texts(ids@).take(i + 1)[i as int] == x);
                }
            }
        } else {
            assert(text::texts(out@).to_set() =~= text::texts(ids@).take(i + 1).to_set().difference(
                other_set,
            ));
            assert forall|k: int|
                0 <= k < out@.len() implies text::texts(ids@).take(i + 1).contains(
                #[trigger] text::texts(out@)[k],
            ) by {
                let m = choose|m: int|
                    0 <= m < i && text::texts(ids@).take(i as int)[m] == text::texts(out@)[k];
                assert(text::texts(ids@).take(i + 1)[m] == text::texts(out@)[k]);
            }
        }
        i = i + 1;
    }
    assert(text::texts(ids@).take(ids.len() as int) == text::texts(ids@));
    out
}

/// The ids only the local favorites have, and the ids only the upstream
/// favorites have, each once.
pub fn differences(local: &Vec<FavoriteItem>, remote: &Vec<FavoriteItem>) -> (r: (
    Vec<String>,
    Vec<String>,
))
    ensures
        text::texts(r.0@).no_duplicates(),
        text::texts(r.1@).no_duplicates(),
        text::texts(r.0@).to_set() == id_set_of(local@).difference(id_set_of(remote@)),
        text::texts(r.1@).to_set() == id_set_of(remote@).difference(id_set_of(local@)),
        r.0.len() <= local.len(),
        r.1.len() <= remote.len(),
{
    let local_ids = id_set(local);
    let remote_ids = id_set(remote);
    (ids_not_in(&local_ids, &remote_ids), ids_not_in(&remote_ids, &local_ids))
}

proof fn lemma_empty_iff_no_elements(s: Seq<Seq<char>>)
    ensures
        s.len() == 0 <==> s.to_set() =~= Set::<Seq<char>>::empty(),
{
    if s.len() > 0 {
        assert(s.to_set().contains(s[0]));
    }
}

/// True when both lists hold the same set of ids.
pub fn same_id_sets(local: &Vec<FavoriteItem>, remote: &Vec<FavoriteItem>) -> (b: bool)
    ensures
        b == (id_set_of(local@) == id_set_of(remote@)),
{
    let (local_only, remote_only) = differences(local, remote);
    proof {
        lemma_empty_iff_no_elements(text::texts(local_only@));
        lemma_empty_iff_no_elements(text::texts(remote_only@));
        let a = id_set_of(local@);
        let b = id_set_of(remote@);
        if a.difference(b) =~= Set::empty() && b.difference(a) =~= Set::empty() {
            assert(a =~= b) by {
                assert forall|x| a.contains(x) implies b.contains(x) by {
                    assert(!a.difference(b).contains(x));
                }
                assert forall|x| b.contains(x) implies a.contains(x) by {
                    assert(!b.difference(a).contains(x));
                }
            }
        }
        if a == b {
            assert(a.difference(b) =~= Set::empty());
        }
    }
    local_only.len() == 0 && remote_only.len() == 0
}

/// The favorites of `items` whose id is not in `ids`, in order.
pub open spec fn items_outside(items: Seq<FavoriteItemView>, ids: Set<Seq<char>>) -> Seq<
    FavoriteItemView,
>
    decreases items.len(),
{
    if items.len() == 0 {
        Seq::empty()
    } else {
        let rest = items_outside(items.drop_last(), ids);
        if ids.contains(items.last().comic_id) {
            rest
        } else {
            rest.push(items.last())
        }
    }
}

/// The local favorites the upstream favorites lack, in local order.
pub fn local_only_items(local: &Vec<FavoriteItem>, remote: &Vec<FavoriteItem>) -> (r: Vec<
    FavoriteItem,
>)
    ensures
        crate::application::favorite::item_views(r@) == items_outside(
            crate::application::favorite::item_views(local@),
            id_set_of(remote@),
        ),
{
    let remote_ids = id_set(remote);
    let mut out: Vec<FavoriteItem> = Vec::new();
    let mut i: usize = 0;
    while i < local.len()
        invariant
            i <= local.len(),
            text::texts(remote_ids@).to_set() == id_set_of(remote@),
            crate::application::favorite::item_views(out@) == items_outside(
                crate::application::favorite::item_views(local@).take(i as int),
                id_set_of(remote@),
            ),
        decreases local.len() - i,
    {
        let ghost views = crate::application::favorite::item_views(local@);
        assert(views.take(i + 1).drop_last() == views.take(i as int));
        assert(views.take(i + 1).last() == local@[i as int]@);
        let present = text::strings_contain(&remote_ids, &local[i].comic_id);
        if !present {
            let item = local[i].duplicate();
            let ghost before = out@;
            out.push(item);
            assert(crate::application::favorite::item_views(out@)
                == crate::application::favorite::item_views(before).push(item@));
        }
        i = i + 1;
    }
    assert(crate::application::favorite::item_views(local@).take(local.len() as int)
        == crate::application::favorite::item_views(local@));
    out
}

} // verus!

verus! {

// ---- What background tasks record ----

/// A finished check: the counts of both sides and of the ids only one side
/// has; settled when no id is on one side only, awaiting a resolution
/// otherwise. A task that is no longer current records nothing.
pub open spec fn check_recorded(
    r: SyncRecordView,
    epoch: i64,
    local_count: i64,
    remote_count: i64,
    local_only_count: i64,
    remote_only_count: i64,
    timestamp: i64,
    now: i64,
) -> Option<SyncRecordView> {
    if !is_current(r, epoch) {
        None
    } else {
        let a = SyncRecordView {
            local_count,
            remote_count,
            local_only_count,
            remote_only_count,
            progress_done: 0,
            progress_total: 0,
            progress_phase: None,
            last_checked_at: Some(timestamp),
            ..r
        };
        let b = pending_cleared(a);
        let c = if local_only_count == 0 && remote_only_count == 0 {
            SyncRecordView {
                status: FavoriteSyncStatus::Synced,
                last_synced_at: Some(timestamp),
                ..b
            }
        } else {
            SyncRecordView { status: FavoriteSyncStatus::NeedsResolution, ..b }
        };
        Some(SyncRecordView { updated_at: now, ..c })
    }
}

/// The record after a check compared `local` with `remote` (see
/// `check_recorded`); `timestamp` is when the comparison was made.
pub fn finish_check_at(
    record: &SyncRecord,
    epoch: i64,
    local: &Vec<FavoriteItem>,
    remote: &Vec<FavoriteItem>,
    timestamp: i64,
    now: i64,
) -> (r: Option<SyncRecord>)
    requires
        local.len() <= i64::MAX,
        remote.len() <= i64::MAX,
    ensures
        opt_record(r) == check_recorded(
            record@,
            epoch,
            local.len() as i64,
            remote.len() as i64,
            id_set_of(local@).difference(id_set_of(remote@)).len() as i64,
            id_set_of(remote@).difference(id_set_of(local@)).len() as i64,
            timestamp,
            now,
        ),
{
    let (local_only, remote_only) = differences(local, remote);
    proof {
        text::texts(local_only@).unique_seq_to_set();
        text::texts(remote_only@).unique_seq_to_set();
        assert(local_only.len() == id_set_of(local@).difference(id_set_of(remote@)).len());
        assert(remote_only.len() == id_set_of(remote@).difference(id_set_of(local@)).len());
    }
    if !is_current_record(record, epoch) {
        return None;
    }
    let mut next = record.duplicate();
    next.local_count = local.len() as i64;
    next.remote_count = remote.len() as i64;
    next.local_only_count = local_only.len() as i64;
    next.remote_only_count = remote_only.len() as i64;
    next.progress_done = 0;
    next.progress_total = 0;
    next.progress_phase = None;
    next.last_checked_at = Some(timestamp);
    clear_pending(&mut next);
    if local_only.len() == 0 && remote_only.len() == 0 {
        next.status = FavoriteSyncStatus::Synced;
        next.last_synced_at = Some(timestamp);
    } else {
        next.status = FavoriteSyncStatus::NeedsResolution;
    }
    next.updated_at = now;
    Some(next)
}

/// See `check_recorded`, at the times the clock reads.
pub fn finish_check(
    record: &SyncRecord,
    epoch: i64,
    local: &Vec<FavoriteItem>,
    remote: &Vec<FavoriteItem>,
) -> (r: Option<SyncRecord>)
    requires
        local.len() <= i64::MAX,
        remote.len() <= i64::MAX,
    ensures
        exists|timestamp: i64, now: i64|
            opt_record(r) == #[trigger] check_recorded(
                record@,
                epoch,
                local.len() as i64,
                remote.len() as i64,
                id_set_of(local@).difference(id_set_of(remote@)).len() as i64,
                id_set_of(remote@).difference(id_set_of(local@)).len() as i64,
                timestamp,
                now,
            ),
{
    let timestamp = clock::now();
    finish_check_at(record, epoch, local, remote, timestamp, clock::now())
}

/// Progress of the current task: `done` of `total`.
pub open spec fn progress_recorded(r: SyncRecordView, epoch: i64, done: i64, total: i64, now: i64) -> Option<
    SyncRecordView,
> {
    if !is_current(r, epoch) {
        None
    } else {
        Some(SyncRecordView { progress_done: done, progress_total: total, updated_at: now, ..r })
    }
}

/// See `progress_recorded`.
pub fn set_progress_at(record: &SyncRecord, epoch: i64, done: i64, total: i64, now: i64) -> (r:
    Option<SyncRecord>)
    ensures
        opt_record(r) == progress_recorded(record@, epoch, done, total, now),
{
    if !is_current_record(record, epoch) {
        return None;
    }
    let mut next = record.duplicate();
    next.progress_done = done;
    next.progress_total = total;
    next.updated_at = now;
    Some(next)
}

/// See `progress_recorded`, at the time the clock reads.
pub fn set_progress(record: &SyncRecord, epoch: i64, done: i64, total: i64) -> (r: Option<
    SyncRecord,
>)
    ensures
        exists|t: i64| opt_record(r) == progress_recorded(record@, epoch, done, total, t),
{
    set_progress_at(record, epoch, done, total, clock::now())
}

/// A merge entering `phase`, with `total` steps ahead and none done.
pub open spec fn merge_phase_recorded(
    r: SyncRecordView,
    epoch: i64,
    phase: FavoriteSyncProgressPhase,
    total: i64,
    now: i64,
) -> Option<SyncRecordView> {
    if !is_current(r, epoch) {
        None
    } else {
        Some(
            SyncRecordView {
                progress_phase: Some(phase),
                progress_done: 0,
                progress_total: total,
                updated_at: now,
                ..r
            },
        )
    }
}

/// See `merge_phase_recorded`.
pub fn set_merge_phase_at(
    record: &SyncRecord,
    epoch: i64,
    phase: FavoriteSyncProgressPhase,
    total: i64,
    now: i64,
) -> (r: Option<SyncRecord>)
    ensures
        opt_record(r) == merge_phase_recorded(record@, epoch, phase, total, now),
{
    if !is_current_record(record, epoch) {
        return None;
    }
    let mut next = record.duplicate();
    next.progress_phase = Some(phase);
    next.progress_done = 0;
    next.progress_total = total;
    next.updated_at = now;
    Some(next)
}

/// See `merge_phase_recorded`, at the time the clock reads.
pub fn set_merge_phase(record: &SyncRecord, epoch: i64, phase: FavoriteSyncProgressPhase, total: i64) -> (r:
    Option<SyncRecord>)
    ensures
        exists|t: i64| opt_record(r) == merge_phase_recorded(record@, epoch, phase, total, t),
{
    set_merge_phase_at(record, epoch, phase, total, clock::now())
}

/// The current task finished with both sides holding `count` favorites:
/// settled, nothing pending, checked and synced at `timestamp`.
pub open spec fn synced_recorded(r: SyncRecordView, epoch: i64, count: i64, timestamp: i64, now: i64) -> Option<
    SyncRecordView,
> {
    if !is_current(r, epoch) {
        None
    } else {
        let a = SyncRecordView {
            status: FavoriteSyncStatus::Synced,
            local_count: count,
            remote_count: count,
            local_only_count: 0,
            remote_only_count: 0,
            progress_done: 0,
            progress_total: 0,
            last_checked_at: Some(timestamp),
            last_synced_at: Some(timestamp),
            ..r
        };
        Some(SyncRecordView { updated_at: now, ..pending_cleared(a) })
    }
}

/// See `synced_recorded`.
pub fn finish_synced_at(record: &SyncRecord, epoch: i64, count: i64, timestamp: i64, now: i64) -> (r:
    Option<SyncRecord>)
    ensures
        opt_record(r) == synced_recorded(record@, epoch, count, timestamp, now),
{
    if !is_current_record(record, epoch) {
        return None;
    }
    let mut next = record.duplicate();
    next.status = FavoriteSyncStatus::Synced;
    next.local_count = count;
    next.remote_count = count;
    next.local_only_count = 0;
    next.remote_only_count = 0;
    next.progress_done = 0;
    next.progress_total = 0;
    next.last_checked_at = Some(timestamp);
    next.last_synced_at = Some(timestamp);
    clear_pending(&mut next);
    next.updated_at = now;
    Some(next)
}

/// See `synced_recorded`, at the times the clock reads.
pub fn finish_synced(record: &SyncRecord, epoch: i64, count: i64) -> (r: Option<SyncRecord>)
    ensures
        exists|timestamp: i64, now: i64|
            opt_record(r) == #[trigger] synced_recorded(record@, epoch, count, timestamp, now),
{
    let timestamp = clock::now();
    finish_synced_at(record, epoch, count, timestamp, clock::now())
}

/// The current task failed with `message`; its pending task stays, to retry.
pub open spec fn failure_recorded(r: SyncRecordView, epoch: i64, message: Seq<char>, now: i64) -> Option<
    SyncRecordView,
> {
    if !is_current(r, epoch) {
        None
    } else {
        Some(
            SyncRecordView {
                status: FavoriteSyncStatus::Error,
                last_error: Some(message),
                progress_done: 0,
                progress_total: 0,
                progress_phase: None,
                updated_at: now,
                ..r
            },
        )
    }
}

/// See `failure_recorded`.
pub fn fail_current_at(record: &SyncRecord, epoch: i64, message: &str, now: i64) -> (r: Option<
    SyncRecord,
>)
    ensures
        opt_record(r) == failure_recorded(record@, epoch, message@, now),
{
    if !is_current_record(record, epoch) {
        return None;
    }
    let mut next = record.duplicate();
    next.status = FavoriteSyncStatus::Error;
    next.last_error = Some(text::owned(message));
    next.progress_done = 0;
    next.progress_total = 0;
    next.progress_phase = None;
    next.updated_at = now;
    Some(next)
}

/// See `failure_recorded`, at the time the clock reads.
pub fn fail_current(record: &SyncRecord, epoch: i64, message: &str) -> (r: Option<SyncRecord>)
    ensures
        exists|t: i64| opt_record(r) == failure_recorded(record@, epoch, message@, t),
{
    fail_current_at(record, epoch, message, clock::now())
}

/// What a failed change of one favorite answers: that nothing was written
/// locally when synchronization stopped meanwhile, the upstream failure
/// otherwise.
pub fn operation_error(record: &SyncRecord, epoch: i64, message: &str) -> (e: FavoriteSyncError)
    ensures
        e@ == if is_current(record@, epoch) {
            SyncErrorView::Remote(message@)
        } else {
            SyncErrorView::Conflict(msg_cancelled_before_local_write())
        },
{
    if !record.enabled || record.operation_epoch != epoch {
        conflict("收藏同步已关闭，本次操作未写入本地")
    } else {
        FavoriteSyncError::Remote(text::owned(message))
    }
}

/// The comic and target of the pending change of one favorite, while the
/// task that owes it is current.
pub fn pending_target_job(record: &SyncRecord, epoch: i64) -> (r: Result<
    (String, bool),
    SyncTaskError,
>)
    ensures
        match r {
            Ok((comic_id, target)) => is_current(record@, epoch) && record@.pending_comic_id
                == Some(comic_id@) && record.pending_target == Some(target),
            Err(e) => if !is_current(record@, epoch) {
                e is Cancelled
            } else if record.pending_comic_id is None {
                e is MissingComicId
            } else {
                record.pending_target is None && e is MissingTarget
            },
        },
{
    if !record.enabled || record.operation_epoch != epoch {
        return Err(SyncTaskError::Cancelled);
    }
    let comic_id = match &record.pending_comic_id {
        Some(id) => id.clone(),
        None => return Err(SyncTaskError::MissingComicId),
    };
    let target = match record.pending_target {
        Some(t) => t,
        None => return Err(SyncTaskError::MissingTarget),
    };
    Ok((comic_id, target))
}

/// The kept input of a pending favorite.
pub fn pending_payload(record: &SyncRecord) -> (r: Result<String, SyncTaskError>)
    ensures
        match r {
            Ok(p) => record@.pending_payload == Some(p@),
            Err(e) => record.pending_payload is None && e is MissingPayload,
        },
{
    match &record.pending_payload {
        Some(p) => Ok(p.clone()),
        None => Err(SyncTaskError::MissingPayload),
    }
}

} // verus!

verus! {

// ---- Listing favorites in the upstream order ----

/// Listing local favorites in their own order is refused for the order by
/// update time, which only the upstream service knows.
pub fn unordered_listing(order: FavoriteOrder) -> (r: Result<(), FavoriteSyncError>)
    ensures
        match r {
            Ok(()) => order == FavoriteOrder::Mr,
            Err(e) => order == FavoriteOrder::Mp && e@ == SyncErrorView::OrderUnavailable(
                msg_order_unavailable(),
            ),
        },
{
    match order {
        FavoriteOrder::Mr => Ok(()),
        FavoriteOrder::Mp => Err(
            FavoriteSyncError::OrderUnavailable(
                text::owned("登录 JM 账号并完成收藏同步后才能按更新时间排序"),
            ),
        ),
    }
}

/// Where a page of favorites comes from: the upstream listing, read under the
/// record's epoch, when synchronization is ready for ordering; otherwise the
/// local favorites in their own order (`None`), which only the order by when
/// favorites were made allows.
pub open spec fn listing_plan(r: SyncRecordView, s: AccountSessionView, order: FavoriteOrder) -> Result<
    Option<i64>,
    SyncErrorView,
> {
    if order_ready(r, s) {
        Ok(Some(r.operation_epoch))
    } else if order == FavoriteOrder::Mr {
        Ok(None)
    } else {
        Err(SyncErrorView::OrderUnavailable(msg_order_unavailable()))
    }
}

pub open spec fn plan_result(r: Result<Option<i64>, FavoriteSyncError>) -> Result<
    Option<i64>,
    SyncErrorView,
> {
    match r {
        Ok(p) => Ok(p),
        Err(e) => Err(e@),
    }
}

/// See `listing_plan`.
pub fn listing_source(record: &SyncRecord, session: &AccountSession, order: FavoriteOrder) -> (r:
    Result<Option<i64>, FavoriteSyncError>)
    ensures
        plan_result(r) == listing_plan(record@, session@, order),
{
    if remote_order_ready(record, session) {
        return Ok(Some(record.operation_epoch));
    }
    match unordered_listing(order) {
        Ok(()) => Ok(None),
        Err(e) => Err(e),
    }
}

/// An upstream listing read under `epoch` in `initial` still describes the
/// present only if the session was not replaced meanwhile, is the same, and
/// the record carries the same epoch and is still ready for ordering.
pub open spec fn order_context_ok(
    changed: bool,
    current: AccountSessionView,
    initial: AccountSessionView,
    r: SyncRecordView,
    epoch: i64,
) -> bool {
    !changed && current == initial && r.operation_epoch == epoch && order_ready(r, current)
}

/// See `order_context_ok`; a stale listing is refused.
pub fn validate_order_context(
    changed: bool,
    current: &AccountSession,
    initial: &AccountSession,
    record: &SyncRecord,
    epoch: i64,
) -> (r: Result<(), FavoriteSyncError>)
    ensures
        match r {
            Ok(()) => order_context_ok(changed, current@, initial@, record@, epoch),
            Err(e) => !order_context_ok(changed, current@, initial@, record@, epoch) && e@
                == SyncErrorView::OrderStale(msg_order_stale()),
        },
{
    if changed {
        return Err(stale_order_error());
    }
    if !current.same_as(initial) || record.operation_epoch != epoch || !remote_order_ready(
        record,
        current,
    ) {
        return Err(stale_order_error());
    }
    Ok(())
}

/// The trimmed ids of an upstream page, in order.
pub open spec fn page_ids(items: Seq<FavoriteComic>) -> Seq<Seq<char>> {
    items.map_values(|c: FavoriteComic| text::trimmed(c.id@))
}

/// Every id is a run of digits and none repeats.
pub open spec fn valid_id_list(ids: Seq<Seq<char>>) -> bool {
    &&& forall|i: int| 0 <= i < ids.len() ==> text::is_digit_id(#[trigger] ids[i])
    &&& ids.no_duplicates()
}

/// An upstream page fits the local favorites when it reports as many in all
/// and lists valid ids, none twice.
pub open spec fn ordered_page_check(local_total: i64, page_total: u32, items: Seq<FavoriteComic>) -> Result<
    Seq<Seq<char>>,
    SyncErrorView,
> {
    if local_total != page_total as i64 {
        Err(SyncErrorView::SyncMismatch(msg_sets_differ()))
    } else if !valid_id_list(page_ids(items)) {
        Err(SyncErrorView::SyncMismatch(msg_remote_list_broken()))
    } else {
        Ok(page_ids(items))
    }
}

/// See `ordered_page_check`; gives the page's ids.
pub fn ordered_page_ids(local_total: i64, page: &FavoritePage) -> (r: Result<
    Vec<String>,
    FavoriteSyncError,
>)
    ensures
        match r {
            Ok(ids) => ordered_page_check(local_total, page.total, page.items@) == Ok::<
                Seq<Seq<char>>,
                SyncErrorView,
            >(text::texts(ids@)),
            Err(e) => ordered_page_check(local_total, page.total, page.items@) == Err::<
                Seq<Seq<char>>,
                SyncErrorView,
            >(e@),
        },
{
    if local_total != page.total as i64 {
        return Err(mismatch("本地与远端收藏已不一致，请在设置中重新检查同步"));
    }
    let ghost all = page_ids(page.items@);
    let mut out: Vec<String> = Vec::new();
    let mut i: usize = 0;
    while i < page.items.len()
        invariant
            i <= page.items.len(),
            local_total == page.total as i64,
            all == page_ids(page.items@),
            text::texts(out@) == all.take(i as int),
            valid_id_list(text::texts(out@)),
        decreases page.items.len() - i,
    {
        let id = text::trim_string(page.items[i].id.as_str());
        assert(all[i as int] == id@);
        if !text::is_digit_id_str(id.as_str()) {
            assert(!text::is_digit_id(all[i as int]));
            assert(!valid_id_list(all));
            return Err(mismatch("远端收藏列表异常，请在设置中重新检查同步"));
        }
        if text::strings_contain(&out, &id) {
            proof {
                let k = choose|k: int| 0 <= k < out@.len() && text::texts(out@)[k] == id@;
                assert(all.take(i as int)[k] == all[k]);
                assert(all[k] == all[i as int]);
                assert(!all.no_duplicates());
                assert(!valid_id_list(all));
            }
            return Err(mismatch("远端收藏列表异常，请在设置中重新检查同步"));
        }
        let ghost before = text::texts(out@);
        out.push(id);
        proof {
            assert(text::texts(out@) == before.push(all[i as int]));
            assert(all.take(i + 1) == all.take(i as int).push(all[i as int]));
            assert forall|a: int, b: int|
                0 <= a < text::texts(out@).len() && 0 <= b < text::texts(out@).len() && a
                    != b implies text::texts(out@)[a] != text::texts(out@)[b] by {
                if a < before.len() && b < before.len() {
                    assert(text::texts(out@)[a] == before[a]);
                    assert(text::texts(out@)[b] == before[b]);
                } else if a < before.len() {
                    assert(text::texts(out@)[a] == before[a]);
                    assert(before.contains(before[a]));
                } else {
                    assert(text::texts(out@)[b] == before[b]);
                    assert(before.contains(before[b]));
                }
            }
        }
        i = i + 1;
    }
    assert(all.take(page.items.len() as int) == all);
    Ok(out)
}

/// Every id of the page must name a local favorite.
pub fn check_ordered_items(ids: &Vec<String>, items: &Vec<FavoriteItem>) -> (r: Result<
    (),
    FavoriteSyncError,
>)
    ensures
        match r {
            Ok(()) => items.len() == ids.len(),
            Err(e) => items.len() != ids.len() && e@ == SyncErrorView::SyncMismatch(
                msg_sets_differ(),
            ),
        },
{
    if items.len() != ids.len() {
        return Err(mismatch("本地与远端收藏已不一致，请在设置中重新检查同步"));
    }
    Ok(())
}

} // verus!

verus! {

// ---- Laws ----

/// A record is coherent when it is on exactly when its status is not
/// `Disabled`.
pub open spec fn coherent(r: SyncRecordView) -> bool {
    r.enabled <==> r.status != FavoriteSyncStatus::Disabled
}

/// Every operation that starts a task, turns synchronization off or marks the
/// account unavailable cancels the tasks started before it: none of them is
/// current any longer (short of the epoch reaching its largest value).
pub proof fn lemma_new_operation_cancels_older_tasks(
    r: SyncRecordView,
    s: AccountSessionView,
    automatic: bool,
    resolution: FavoriteSyncResolution,
    comic_id: Seq<char>,
    target: bool,
    payload: Option<Seq<char>>,
    message: Seq<char>,
    now: i64,
)
    requires
        r.operation_epoch < i64::MAX,
    ensures
        enabled_for(r, s, now) matches Ok(Some(n)) ==> !is_current(n, r.operation_epoch),
        !is_current(disabled_from(r, now), r.operation_epoch),
        check_started(r, s, automatic, now) matches Ok(n) ==> !is_current(n, r.operation_epoch),
        resolution_started(r, s, resolution, now) matches Ok((n, _)) ==> !is_current(
            n,
            r.operation_epoch,
        ),
        retry_started(r, s, now) matches Ok((n, _)) ==> !is_current(n, r.operation_epoch),
        set_favorite_started(r, s, comic_id, target, payload, now) matches Ok(Some(n))
            ==> !is_current(n, r.operation_epoch),
        marked_unavailable(r, message, now) matches Some(n) ==> !is_current(n, r.operation_epoch),
{
}

/// A task that is no longer current records nothing: not a check's result,
/// not progress, not a merge phase, not success and not failure.
pub proof fn lemma_cancelled_task_writes_nothing(
    r: SyncRecordView,
    epoch: i64,
    counts: (i64, i64, i64, i64),
    phase: FavoriteSyncProgressPhase,
    done: i64,
    total: i64,
    message: Seq<char>,
    timestamp: i64,
    now: i64,
)
    requires
        !is_current(r, epoch),
    ensures
        check_recorded(r, epoch, counts.0, counts.1, counts.2, counts.3, timestamp, now) is None,
        progress_recorded(r, epoch, done, total, now) is None,
        merge_phase_recorded(r, epoch, phase, total, now) is None,
        synced_recorded(r, epoch, done, timestamp, now) is None,
        failure_recorded(r, epoch, message, now) is None,
{
}

/// Turning synchronization off leaves it off, for no account, with nothing
/// pending, counted or failed.
pub proof fn lemma_disable_resets(r: SyncRecordView, now: i64)
    ensures
        ({
            let d = disabled_from(r, now);
            &&& !d.enabled
            &&& d.status == FavoriteSyncStatus::Disabled
            &&& d.account_id is None
            &&& d.account_username is None
            &&& d.pending_kind is None
            &&& d.pending_comic_id is None
            &&& d.pending_payload is None
            &&& d.last_error is None
            &&& d.local_count == 0 && d.remote_count == 0
            &&& d.last_checked_at is None && d.last_synced_at is None
        }),
{
}

/// Every step keeps a coherent record coherent, and starting up makes a
/// switched-off record coherent.
pub proof fn lemma_steps_keep_records_coherent(
    r: SyncRecordView,
    s: AccountSessionView,
    automatic: bool,
    resolution: FavoriteSyncResolution,
    comic_id: Seq<char>,
    target: bool,
    payload: Option<Seq<char>>,
    message: Seq<char>,
    epoch: i64,
    counts: (i64, i64, i64, i64),
    phase: FavoriteSyncProgressPhase,
    done: i64,
    total: i64,
    timestamp: i64,
    now: i64,
)
    requires
        coherent(r),
    ensures
        recovered(r, now) matches Some(n) ==> coherent(n),
        enabled_for(r, s, now) matches Ok(Some(n)) ==> coherent(n),
        coherent(disabled_from(r, now)),
        check_started(r, s, automatic, now) matches Ok(n) ==> coherent(n),
        resolution_started(r, s, resolution, now) matches Ok((n, _)) ==> coherent(n),
        retry_started(r, s, now) matches Ok((n, _)) ==> coherent(n),
        set_favorite_started(r, s, comic_id, target, payload, now) matches Ok(Some(n)) ==> coherent(
            n,
        ),
        marked_unavailable(r, message, now) matches Some(n) ==> coherent(n),
        check_recorded(r, epoch, counts.0, counts.1, counts.2, counts.3, timestamp, now) matches Some(
            n,
        ) ==> coherent(n),
        progress_recorded(r, epoch, done, total, now) matches Some(n) ==> coherent(n),
        merge_phase_recorded(r, epoch, phase, total, now) matches Some(n) ==> coherent(n),
        synced_recorded(r, epoch, done, timestamp, now) matches Some(n) ==> coherent(n),
        failure_recorded(r, epoch, message, now) matches Some(n) ==> coherent(n),
{
}

/// Starting up never leaves a task running and never leaves a record that is
/// off in another status than `Disabled`.
pub proof fn lemma_restart_leaves_no_running_task(r: SyncRecordView, now: i64)
    ensures
        ({
            let n = match recovered(r, now) {
                Some(n) => n,
                None => r,
            };
            &&& !n.enabled ==> n.status == FavoriteSyncStatus::Disabled
            &&& n.enabled ==> n.status != FavoriteSyncStatus::Checking && n.status
                != FavoriteSyncStatus::Syncing
        }),
{
}

/// A page listed in the upstream order lists exactly the page's ids, in the
/// page's order: when the page passes its check and as many local favorites
/// are found for its ids as it has ids, the k-th favorite listed is the one
/// stored under the page's k-th id.
pub proof fn lemma_ordered_listing_follows_the_page(
    local_total: i64,
    page_total: u32,
    page_items: Seq<FavoriteComic>,
    local: Seq<FavoriteItemView>,
)
    requires
        ordered_page_check(local_total, page_total, page_items) is Ok,
        crate::application::favorite::in_requested_order(page_ids(page_items), local).len()
            == page_items.len(),
    ensures
        ({
            let listed = crate::application::favorite::in_requested_order(
                page_ids(page_items),
                local,
            );
            &&& crate::application::favorite::item_ids(listed) == page_ids(page_items)
            &&& forall|k: int|
                0 <= k < listed.len() ==> crate::application::favorite::last_with_id(
                    local,
                    page_ids(page_items)[k],
                ) == Some(#[trigger] listed[k])
        }),
{
    crate::application::favorite::lemma_full_request_follows_ids(page_ids(page_items), local);
}

/// While synchronization is not ready for ordering, listing favorites never
/// reads the upstream service: the order by when favorites were made lists
/// the local favorites, the order by update time is refused as unavailable.
pub proof fn lemma_unready_listing_stays_local(
    r: SyncRecordView,
    s: AccountSessionView,
    order: FavoriteOrder,
)
    requires
        !order_ready(r, s),
    ensures
        !(listing_plan(r, s, order) matches Ok(Some(_))),
        order == FavoriteOrder::Mr ==> listing_plan(r, s, order) == Ok::<
            Option<i64>,
            SyncErrorView,
        >(None),
        order == FavoriteOrder::Mp ==> listing_plan(r, s, order) == Err::<
            Option<i64>,
            SyncErrorView,
        >(SyncErrorView::OrderUnavailable(msg_order_unavailable())),
{
}

/// Once synchronization is ready for ordering, every page is listed from the
/// upstream service, under the record's current epoch.
pub proof fn lemma_ready_listing_reads_upstream(
    r: SyncRecordView,
    s: AccountSessionView,
    order: FavoriteOrder,
)
    requires
        order_ready(r, s),
    ensures
        listing_plan(r, s, order) == Ok::<Option<i64>, SyncErrorView>(Some(r.operation_epoch)),
{
}

/// A check can be started, by hand or automatically, exactly when the session
/// is logged in as the account synchronization is on for and the record is
/// settled or awaits a resolution; the check then runs under a new epoch,
/// with a check pending and no error, progress or other task left.
pub proof fn lemma_check_starts_when_settled_or_unresolved(
    r: SyncRecordView,
    s: AccountSessionView,
    automatic: bool,
    now: i64,
)
    ensures
        check_started(r, s, automatic, now) is Ok <==> {
            &&& s.login_status == LoginStatus::LoggedIn
            &&& s.user_id is Some
            &&& r.enabled
            &&& r.account_id == s.user_id
            &&& (r.status == FavoriteSyncStatus::Synced || r.status
                == FavoriteSyncStatus::NeedsResolution)
        },
        check_started(r, s, automatic, now) matches Ok(n) ==> {
            &&& n.enabled
            &&& n.account_id == r.account_id
            &&& n.status == FavoriteSyncStatus::Checking
            &&& n.pending_kind == Some(PendingKind::Check)
            &&& n.pending_comic_id is None
            &&& n.pending_target is None
            &&& n.pending_payload is None
            &&& n.last_error is None
            &&& n.progress_done == 0 && n.progress_total == 0 && n.progress_phase is None
            &&& (r.operation_epoch < i64::MAX ==> n.operation_epoch == r.operation_epoch + 1)
            &&& n.local_count == r.local_count && n.remote_count == r.remote_count
        },
{
}

/// A task that finishes as synced leaves both sides with the same number of
/// favorites and none on one side only, nothing pending and no error; it is
/// recorded exactly when the task is still current.
pub proof fn lemma_synced_record_has_no_differences(
    r: SyncRecordView,
    epoch: i64,
    count: i64,
    timestamp: i64,
    now: i64,
)
    ensures
        synced_recorded(r, epoch, count, timestamp, now) is Some <==> is_current(r, epoch),
        synced_recorded(r, epoch, count, timestamp, now) matches Some(n) ==> {
            &&& n.enabled
            &&& n.status == FavoriteSyncStatus::Synced
            &&& n.local_count == count && n.remote_count == count
            &&& n.local_only_count == 0 && n.remote_only_count == 0
            &&& n.progress_done == 0 && n.progress_total == 0 && n.progress_phase is None
            &&& n.pending_kind is None && n.pending_comic_id is None
            &&& n.pending_target is None && n.pending_payload is None
            &&& n.last_error is None
            &&& n.last_checked_at == Some(timestamp) && n.last_synced_at == Some(timestamp)
            &&& n.operation_epoch == r.operation_epoch
            &&& n.account_id == r.account_id
        },
{
}

/// How synchronization reacts to a session: nothing while it is off; off when
/// the account is gone or another one logs in; the account unavailable on a
/// logout; and when the bound account is logged in, a check exactly when the
/// record is settled or awaits a resolution.
pub proof fn lemma_account_reactions(r: SyncRecordView, s: AccountSessionView)
    ensures
        !r.enabled ==> account_reaction(r, s) == AccountAction::Ignore,
        r.enabled && s.username is None ==> account_reaction(r, s) == AccountAction::Disable,
        r.enabled && s.username is Some && s.login_status == LoginStatus::LoggedOut
            ==> account_reaction(r, s) == AccountAction::MarkUnavailable(
            UnavailableReason::LoggedOut,
        ),
        r.enabled && s.username is Some && s.login_status == LoginStatus::LoggedIn && r.account_id
            != s.user_id ==> account_reaction(r, s) == AccountAction::Disable,
        r.enabled && s.username is Some && s.login_status == LoginStatus::LoggedIn && r.account_id
            == s.user_id ==> (account_reaction(r, s) == AccountAction::AutomaticCheck <==> (r.status
            == FavoriteSyncStatus::Synced || r.status == FavoriteSyncStatus::NeedsResolution)),
        account_reaction(r, s) == AccountAction::AutomaticCheck ==> r.enabled && s.login_status
            == LoginStatus::LoggedIn && r.account_id == s.user_id,
        s.login_status == LoginStatus::LoggingIn ==> account_reaction(r, s)
            != AccountAction::AutomaticCheck,
{
}

/// Turning synchronization on needs a login; when it is on already nothing
/// changes; otherwise it binds the logged-in account, counts nothing yet, and
/// starts a check under a new epoch.
pub proof fn lemma_enable_binds_the_logged_in_account(
    r: SyncRecordView,
    s: AccountSessionView,
    now: i64,
)
    ensures
        enabled_for(r, s, now) is Err <==> !(s.login_status == LoginStatus::LoggedIn
            && s.user_id is Some),
        enabled_for(r, s, now) matches Err(e) ==> e == SyncErrorView::Account(msg_login_required()),
        enabled_for(r, s, now) matches Ok(None) <==> (s.login_status == LoginStatus::LoggedIn
            && s.user_id is Some && r.enabled),
        enabled_for(r, s, now) matches Ok(Some(n)) ==> {
            &&& !r.enabled
            &&& n.enabled
            &&& n.account_id == s.user_id
            &&& n.account_username == s.username
            &&& n.status == FavoriteSyncStatus::Checking
            &&& n.pending_kind == Some(PendingKind::Check)
            &&& n.pending_comic_id is None && n.pending_target is None && n.pending_payload is None
            &&& n.local_count == 0 && n.remote_count == 0
            &&& n.local_only_count == 0 && n.remote_only_count == 0
            &&& n.last_error is None
            &&& (r.operation_epoch < i64::MAX ==> n.operation_epoch == r.operation_epoch + 1)
        },
{
}

/// A resolution starts exactly when the session is logged in as the bound
/// account and the differences await a resolution; the chosen resolution is
/// then the task pending, under a new epoch.
pub proof fn lemma_resolution_runs_the_chosen_task(
    r: SyncRecordView,
    s: AccountSessionView,
    resolution: FavoriteSyncResolution,
    now: i64,
)
    ensures
        resolution_started(r, s, resolution, now) is Ok <==> {
            &&& s.login_status == LoginStatus::LoggedIn
            &&& s.user_id is Some
            &&& r.enabled
            &&& r.status == FavoriteSyncStatus::NeedsResolution
            &&& r.account_id == s.user_id
        },
        resolution_started(r, s, resolution, now) matches Ok((n, k)) ==> {
            &&& (resolution == FavoriteSyncResolution::Merge ==> k == PendingKind::Merge)
            &&& (resolution == FavoriteSyncResolution::RemoteOverwrite ==> k
                == PendingKind::RemoteOverwrite)
            &&& n.enabled
            &&& n.status == FavoriteSyncStatus::Syncing
            &&& n.pending_kind == Some(k)
            &&& n.pending_comic_id is None && n.pending_target is None && n.pending_payload is None
            &&& n.last_error is None
            &&& (r.operation_epoch < i64::MAX ==> n.operation_epoch == r.operation_epoch + 1)
        },
{
}

/// A retry starts exactly when the session is logged in as the bound account
/// and a failed task is pending; it runs that same task again, with the same
/// comic, target and kept input, under a new epoch.
pub proof fn lemma_retry_runs_the_failed_task_again(r: SyncRecordView, s: AccountSessionView, now: i64)
    ensures
        retry_started(r, s, now) is Ok <==> {
            &&& s.login_status == LoginStatus::LoggedIn
            &&& s.user_id is Some
            &&& r.enabled
            &&& r.status == FavoriteSyncStatus::Error
            &&& r.account_id == s.user_id
            &&& r.pending_kind is Some
        },
        retry_started(r, s, now) matches Ok((n, k)) ==> {
            &&& r.pending_kind == Some(k)
            &&& n.pending_kind == Some(k)
            &&& n.pending_comic_id == r.pending_comic_id
            &&& n.pending_target == r.pending_target
            &&& n.pending_payload == r.pending_payload
            &&& n.enabled
            &&& n.status == (if k == PendingKind::Check {
                FavoriteSyncStatus::Checking
            } else {
                FavoriteSyncStatus::Syncing
            })
            &&& n.last_error is None
            &&& (r.operation_epoch < i64::MAX ==> n.operation_epoch == r.operation_epoch + 1)
        },
{
}

/// With synchronization off a favorite changes locally alone; with it on, the
/// change is started exactly when the session is logged in as the bound
/// account and the record is settled, and the change of that comic to that
/// target, with its kept input, is then the task pending under a new epoch.
pub proof fn lemma_favorite_change_becomes_the_pending_task(
    r: SyncRecordView,
    s: AccountSessionView,
    comic_id: Seq<char>,
    target: bool,
    payload: Option<Seq<char>>,
    now: i64,
)
    ensures
        !r.enabled ==> set_favorite_started(r, s, comic_id, target, payload, now) == Ok::<
            Option<SyncRecordView>,
            SyncErrorView,
        >(None),
        set_favorite_started(r, s, comic_id, target, payload, now) matches Ok(Some(_)) <==> {
            &&& r.enabled
            &&& s.login_status == LoginStatus::LoggedIn
            &&& s.user_id is Some
            &&& r.status == FavoriteSyncStatus::Synced
            &&& r.account_id == s.user_id
        },
        set_favorite_started(r, s, comic_id, target, payload, now) matches Ok(Some(n)) ==> {
            &&& n.enabled
            &&& n.status == FavoriteSyncStatus::Syncing
            &&& n.pending_kind == Some(PendingKind::SetFavorite)
            &&& n.pending_comic_id == Some(comic_id)
            &&& n.pending_target == Some(target)
            &&& n.pending_payload == payload
            &&& n.last_error is None
            &&& (r.operation_epoch < i64::MAX ==> n.operation_epoch == r.operation_epoch + 1)
        },
{
}

/// An unavailable account stops the running work exactly when synchronization
/// is on and not failed already: the record fails with the message under a
/// new epoch, keeping the task it owed, or owing a check when it owed none.
pub proof fn lemma_unavailable_account_fails_and_keeps_the_task(
    r: SyncRecordView,
    message: Seq<char>,
    now: i64,
)
    ensures
        marked_unavailable(r, message, now) is Some <==> (r.enabled && r.status
            != FavoriteSyncStatus::Error),
        marked_unavailable(r, message, now) matches Some(n) ==> {
            &&& n.enabled
            &&& n.account_id == r.account_id
            &&& n.status == FavoriteSyncStatus::Error
            &&& n.last_error == Some(message)
            &&& (r.pending_kind is Some ==> {
                &&& n.pending_kind == r.pending_kind
                &&& n.pending_comic_id == r.pending_comic_id
                &&& n.pending_target == r.pending_target
                &&& n.pending_payload == r.pending_payload
            })
            &&& (r.pending_kind is None ==> n.pending_kind == Some(PendingKind::Check))
            &&& (r.operation_epoch < i64::MAX ==> n.operation_epoch == r.operation_epoch + 1)
        },
{
}

/// What a current task records, and that only a current task records: a
/// check keeps the four counts it was given and is settled exactly when no id
/// is on one side only; progress and merge phases change the progress alone;
/// a failure keeps the task pending to retry it and records the message.
pub proof fn lemma_task_results_are_recorded(
    r: SyncRecordView,
    epoch: i64,
    counts: (i64, i64, i64, i64),
    phase: FavoriteSyncProgressPhase,
    done: i64,
    total: i64,
    message: Seq<char>,
    timestamp: i64,
    now: i64,
)
    ensures
        check_recorded(r, epoch, counts.0, counts.1, counts.2, counts.3, timestamp, now) is Some
            <==> is_current(r, epoch),
        check_recorded(r, epoch, counts.0, counts.1, counts.2, counts.3, timestamp, now) matches Some(
            n,
        ) ==> {
            &&& n.local_count == counts.0 && n.remote_count == counts.1
            &&& n.local_only_count == counts.2 && n.remote_only_count == counts.3
            &&& (n.status == FavoriteSyncStatus::Synced <==> (counts.2 == 0 && counts.3 == 0))
            &&& (n.status == FavoriteSyncStatus::NeedsResolution <==> !(counts.2 == 0 && counts.3
                == 0))
            &&& n.pending_kind is None
            &&& n.last_error is None
            &&& n.last_checked_at == Some(timestamp)
            &&& (n.status == FavoriteSyncStatus::Synced ==> n.last_synced_at == Some(timestamp))
            &&& (n.status != FavoriteSyncStatus::Synced ==> n.last_synced_at == r.last_synced_at)
            &&& n.operation_epoch == r.operation_epoch
        },
        progress_recorded(r, epoch, done, total, now) is Some <==> is_current(r, epoch),
        progress_recorded(r, epoch, done, total, now) matches Some(n) ==> {
            &&& n.progress_done == done && n.progress_total == total
            &&& n.progress_phase == r.progress_phase
            &&& n.status == r.status
            &&& n.pending_kind == r.pending_kind
            &&& n.operation_epoch == r.operation_epoch
        },
        merge_phase_recorded(r, epoch, phase, total, now) is Some <==> is_current(r, epoch),
        merge_phase_recorded(r, epoch, phase, total, now) matches Some(n) ==> {
            &&& n.progress_phase == Some(phase)
            &&& n.progress_done == 0 && n.progress_total == total
            &&& n.status == r.status
            &&& n.pending_kind == r.pending_kind
            &&& n.operation_epoch == r.operation_epoch
        },
        failure_recorded(r, epoch, message, now) is Some <==> is_current(r, epoch),
        failure_recorded(r, epoch, message, now) matches Some(n) ==> {
            &&& n.enabled
            &&& n.status == FavoriteSyncStatus::Error
            &&& n.last_error == Some(message)
            &&& n.pending_kind == r.pending_kind
            &&& n.pending_comic_id == r.pending_comic_id
            &&& n.pending_target == r.pending_target
            &&& n.pending_payload == r.pending_payload
            &&& n.progress_done == 0 && n.progress_total == 0 && n.progress_phase is None
            &&& n.operation_epoch == r.operation_epoch
        },
{
}

/// Starting up resets a record that is off but not `Disabled`; it turns a
/// check or a synchronization that a restart interrupted into a failure to
/// retry, keeping its task; it leaves every other record as it is.
pub proof fn lemma_restart_keeps_interrupted_tasks_to_retry(r: SyncRecordView, now: i64)
    ensures
        recovered(r, now) is None <==> ((!r.enabled && r.status == FavoriteSyncStatus::Disabled)
            || (r.enabled && r.status != FavoriteSyncStatus::Checking && r.status
            != FavoriteSyncStatus::Syncing)),
        recovered(r, now) matches Some(n) ==> (!r.enabled ==> {
            &&& !n.enabled
            &&& n.status == FavoriteSyncStatus::Disabled
            &&& n.account_id is None
            &&& n.pending_kind is None
            &&& n.last_error is None
            &&& n.local_count == 0 && n.remote_count == 0
        }),
        recovered(r, now) matches Some(n) ==> (r.enabled ==> {
            &&& n.enabled
            &&& n.status == FavoriteSyncStatus::Error
            &&& n.last_error == Some(msg_interrupted_by_restart())
            &&& n.pending_kind == r.pending_kind
            &&& n.pending_comic_id == r.pending_comic_id
            &&& n.pending_target == r.pending_target
            &&& n.pending_payload == r.pending_payload
            &&& n.operation_epoch == r.operation_epoch
        }),
{
}

/// The favorites kept outside a set of ids are exactly those of `items` whose
/// id is not in the set: each kept one is one of `items` with such an id,
/// every such one is kept, and none is added.
pub proof fn lemma_items_outside_keeps_exactly_the_unmatched(
    items: Seq<FavoriteItemView>,
    ids: Set<Seq<char>>,
)
    ensures
        items_outside(items, ids).len() <= items.len(),
        forall|k: int|
            0 <= k < items_outside(items, ids).len() ==> !ids.contains(
                (#[trigger] items_outside(items, ids)[k]).comic_id,
            ) && items.contains(items_outside(items, ids)[k]),
        forall|k: int|
            0 <= k < items.len() && !ids.contains((#[trigger] items[k]).comic_id)
                ==> items_outside(items, ids).contains(items[k]),
    decreases items.len(),
{
    if items.len() > 0 {
        let prev = items.drop_last();
        lemma_items_outside_keeps_exactly_the_unmatched(prev, ids);
        let rest = items_outside(prev, ids);
        let r = items_outside(items, ids);
        assert forall|k: int| 0 <= k < r.len() implies !ids.contains(
            (#[trigger] r[k]).comic_id,
        ) && items.contains(r[k]) by {
            if k < rest.len() {
                assert(r[k] == rest[k]);
                let m = choose|m: int| 0 <= m < prev.len() && prev[m] == rest[k];
                assert(items[m] == prev[m]);
            } else {
                assert(r[k] == items.last());
                assert(items[items.len() - 1] == items.last());
            }
        }
        assert forall|k: int|
            0 <= k < items.len() && !ids.contains((#[trigger] items[k]).comic_id) implies r.contains(
            items[k],
        ) by {
            if k < prev.len() {
                assert(items[k] == prev[k]);
                assert(rest.contains(prev[k]));
                let m = choose|m: int| 0 <= m < rest.len() && rest[m] == prev[k];
                assert(r[m] == rest[m]);
            } else {
                assert(r[r.len() - 1] == items.last());
            }
        }
    }
}

/// An upstream page fits the local favorites exactly when it reports as many
/// favorites as are stored locally and lists ids that are runs of digits
/// once trimmed, none twice; the ids it gives are the page's ids, trimmed, in
/// the page's order.
pub proof fn lemma_page_check_gives_the_trimmed_ids(
    local_total: i64,
    page_total: u32,
    items: Seq<FavoriteComic>,
)
    ensures
        ordered_page_check(local_total, page_total, items) is Ok <==> {
            &&& local_total == page_total as i64
            &&& forall|k: int|
                0 <= k < items.len() ==> text::is_digit_id(text::trimmed((#[trigger] items[k]).id@))
            &&& page_ids(items).no_duplicates()
        },
        ordered_page_check(local_total, page_total, items) matches Ok(ids) ==> {
            &&& ids.len() == items.len()
            &&& forall|k: int| 0 <= k < items.len() ==> #[trigger] ids[k] == text::trimmed(items[k].id@)
        },
        local_total != page_total as i64 ==> ordered_page_check(local_total, page_total, items)
            == Err::<Seq<Seq<char>>, SyncErrorView>(SyncErrorView::SyncMismatch(msg_sets_differ())),
{
    assert forall|k: int| 0 <= k < items.len() implies #[trigger] page_ids(items)[k]
        == text::trimmed(items[k].id@) by {}
    if local_total == page_total as i64 {
        if forall|k: int|
            0 <= k < items.len() ==> text::is_digit_id(text::trimmed((#[trigger] items[k]).id@)) {
            assert forall|i: int| 0 <= i < page_ids(items).len() implies text::is_digit_id(
                #[trigger] page_ids(items)[i],
            ) by {
                assert(page_ids(items)[i] == text::trimmed(items[i].id@));
            }
        }
        if valid_id_list(page_ids(items)) {
            assert forall|k: int| 0 <= k < items.len() implies text::is_digit_id(
                text::trimmed((#[trigger] items[k]).id@),
            ) by {
                assert(page_ids(items)[k] == text::trimmed(items[k].id@));
            }
        }
    }
}

/// An upstream listing is still good only when the session was not replaced
/// meanwhile, is the same session, the record still carries the epoch it was
/// read under, and synchronization is still ready for ordering.
pub proof fn lemma_stale_listings_are_refused(
    changed: bool,
    current: AccountSessionView,
    initial: AccountSessionView,
    r: SyncRecordView,
    epoch: i64,
)
    ensures
        changed ==> !order_context_ok(changed, current, initial, r, epoch),
        current != initial ==> !order_context_ok(changed, current, initial, r, epoch),
        r.operation_epoch != epoch ==> !order_context_ok(changed, current, initial, r, epoch),
        !r.enabled || r.status != FavoriteSyncStatus::Synced ==> !order_context_ok(
            changed,
            current,
            initial,
            r,
            epoch,
        ),
        !changed && current == initial && r.operation_epoch == epoch && r.enabled && r.status
            == FavoriteSyncStatus::Synced && current.login_status == LoginStatus::LoggedIn
            && current.user_id is Some && r.account_id == current.user_id ==> order_context_ok(
            changed,
            current,
            initial,
            r,
            epoch,
        ),
{
}

/// How each error answers over HTTP: state, account and ordering problems
/// are conflicts (409), an upstream failure is a bad gateway (502) and the
/// rest an internal error (500); only an upstream failure and a stale
/// ordering are worth retrying, and only the ordering and mismatch errors
/// carry a code.
pub proof fn lemma_error_answers(e: SyncErrorView)
    ensures
        (e is Remote) <==> http_shape(e).0 == 502,
        (e is Internal) <==> http_shape(e).0 == 500,
        (e is Conflict || e is Account || e is OrderUnavailable || e is SyncMismatch
            || e is OrderStale) <==> http_shape(e).0 == 409,
        http_shape(e).1 <==> (e is Remote || e is OrderStale),
        http_shape(e).2 is Some <==> (e is OrderUnavailable || e is SyncMismatch || e is OrderStale),
{
}

/// A check settles the record exactly when both sides hold the same set of
/// ids; otherwise it awaits a resolution.
pub proof fn lemma_check_settles_iff_same_ids(
    r: SyncRecordView,
    epoch: i64,
    local: Seq<FavoriteItem>,
    remote: Seq<FavoriteItem>,
    timestamp: i64,
    now: i64,
)
    requires
        is_current(r, epoch),
        local.len() <= i64::MAX,
        remote.len() <= i64::MAX,
    ensures
        ({
            let n = check_recorded(
                r,
                epoch,
                local.len() as i64,
                remote.len() as i64,
                id_set_of(local).difference(id_set_of(remote)).len() as i64,
                id_set_of(remote).difference(id_set_of(local)).len() as i64,
                timestamp,
                now,
            )->0;
            &&& (n.status == FavoriteSyncStatus::Synced) <==> (id_set_of(local) == id_set_of(
                remote,
            ))
            &&& (n.status == FavoriteSyncStatus::NeedsResolution) <==> (id_set_of(local)
                != id_set_of(remote))
            &&& n.pending_kind is None
        }),
{
    let a = id_set_of(local);
    let b = id_set_of(remote);
    ids_of(local).lemma_cardinality_of_set();
    ids_of(remote).lemma_cardinality_of_set();
    vstd::set_lib::lemma_len_difference(a, b);
    vstd::set_lib::lemma_len_difference(b, a);
    if a.difference(b).len() == 0 && b.difference(a).len() == 0 {
        a.difference(b).lemma_len0_is_empty();
        b.difference(a).lemma_len0_is_empty();
        assert(a =~= b) by {
            assert forall|x| a.contains(x) implies b.contains(x) by {
                assert(!a.difference(b).contains(x));
            }
            assert forall|x| b.contains(x) implies a.contains(x) by {
                assert(!b.difference(a).contains(x));
            }
        }
    }
    if a == b {
        assert(a.difference(b) =~= Set::empty());
    }
}

} // verus!
