use server::application::account::{AccountSession, LoginStatus};
use server::application::favorite::FavoriteItem;
use server::application::favorite_sync::remote::{toggle_needed, toggle_outcome, JmFavoriteRemote};
use server::application::favorite_sync::repository::{decode_record, encode_record, RecordDecodeError};
use server::application::favorite_sync::snapshot::{RemoteSnapshot, SnapshotFault, SnapshotStep};
use server::application::favorite_sync::{
    account_session_action, begin_check_at, begin_enable_at, begin_resolve_at, begin_retry_at,
    begin_set_favorite_at, check_ordered_items, clear_allowed, differences, disable_at,
    fail_current_at, finish_check_at, finish_synced_at, id_set, is_current_record, listing_source,
    local_only_items, mark_account_unavailable_at, operation_error, ordered_page_ids,
    pending_payload, pending_target_job, recover_at, remote_order_ready, remote_read_error,
    require_current_record,
    same_id_sets, set_merge_phase_at, set_progress_at, task_failure_message, unordered_listing,
    validate_order_context, AccountAction, FavoriteSyncError, FavoriteSyncProgressPhase,
    FavoriteSyncResolution, FavoriteSyncState, FavoriteSyncStatus, PendingKind, SyncRecord,
    SyncTaskError, UnavailableReason,
};
use server::jm::models::{FavoriteComic, FavoriteOrder, FavoritePage};
use std::sync::Arc;

fn disabled_record() -> SyncRecord {
    SyncRecord {
        enabled: false,
        account_id: None,
        account_username: None,
        status: FavoriteSyncStatus::Disabled,
        local_count: 0,
        remote_count: 0,
        local_only_count: 0,
        remote_only_count: 0,
        progress_done: 0,
        progress_total: 0,
        progress_phase: None,
        operation_epoch: 0,
        pending_kind: None,
        pending_comic_id: None,
        pending_target: None,
        pending_payload: None,
        last_error: None,
        last_checked_at: None,
        last_synced_at: None,
        updated_at: 0,
    }
}

fn logged_in_session(user_id: u32, username: &str) -> AccountSession {
    AccountSession {
        user_id: Some(user_id),
        username: Some(username.to_string()),
        login_status: LoginStatus::LoggedIn,
    }
}

fn item(id: &str) -> FavoriteItem {
    FavoriteItem {
        comic_id: id.to_string(),
        title: format!("Local {id}"),
        author: "Author".to_string(),
        description: "Description".to_string(),
        image: "cover.jpg".to_string(),
        tags: vec!["Tag".to_string()],
        favorited_at: 0,
    }
}

fn comic(id: &str) -> FavoriteComic {
    FavoriteComic {
        id: id.to_string(),
        name: format!("Remote {id}"),
        author: "Remote Author".to_string(),
        description: "Remote Description".to_string(),
        image: "remote.jpg".to_string(),
        tags: vec!["Remote Tag".to_string()],
    }
}

fn ids(items: &[FavoriteItem]) -> Vec<String> {
    items.iter().map(|i| i.comic_id.clone()).collect()
}

/// A record that synchronization turned on and a check settled.
fn synced_record() -> SyncRecord {
    let session = logged_in_session(1, "first");
    let enabled = begin_enable_at(&disabled_record(), &session, 10).unwrap().unwrap();
    let epoch = enabled.operation_epoch;
    finish_check_at(&enabled, epoch, &vec![item("1")], &vec![item("1")], 11, 12).unwrap()
}

#[test]
fn remains_disabled_without_contacting_remote() {
    let record = disabled_record();
    assert!(recover_at(&record, 5).is_none());
    let state = FavoriteSyncState::from_record(&record);
    assert!(!state.enabled);
    assert_eq!(state.status, FavoriteSyncStatus::Disabled);
    assert_eq!(
        account_session_action(&record, &logged_in_session(1, "first")),
        AccountAction::Ignore
    );
}

#[test]
fn uses_local_mr_order_and_rejects_mp_while_sync_is_disabled() {
    let record = disabled_record();
    assert!(!remote_order_ready(&record, &logged_in_session(1, "first")));
    let session = logged_in_session(1, "first");
    assert_eq!(listing_source(&record, &session, FavoriteOrder::Mr).unwrap(), None);
    assert!(matches!(
        listing_source(&record, &session, FavoriteOrder::Mp),
        Err(FavoriteSyncError::OrderUnavailable(_))
    ));
    assert!(unordered_listing(FavoriteOrder::Mr).is_ok());
    assert!(matches!(
        unordered_listing(FavoriteOrder::Mp),
        Err(FavoriteSyncError::OrderUnavailable(_))
    ));
}

#[test]
fn enabling_binds_the_account_and_starts_a_check() {
    let record = disabled_record();
    let next = begin_enable_at(&record, &logged_in_session(7, "seven"), 100)
        .unwrap()
        .unwrap();
    assert!(next.enabled);
    assert_eq!(next.account_id, Some(7));
    assert_eq!(next.account_username.as_deref(), Some("seven"));
    assert_eq!(next.status, FavoriteSyncStatus::Checking);
    assert_eq!(next.pending_kind, Some(PendingKind::Check));
    assert_eq!(next.operation_epoch, 1);
    assert_eq!(next.updated_at, 100);
    assert!(begin_enable_at(&next, &logged_in_session(7, "seven"), 101)
        .unwrap()
        .is_none());
    let logged_out = AccountSession {
        user_id: None,
        username: None,
        login_status: LoginStatus::LoggedOut,
    };
    assert!(matches!(
        begin_enable_at(&record, &logged_out, 100),
        Err(FavoriteSyncError::Account(_))
    ));
}

#[test]
fn detects_differences_and_merges_the_union() {
    let session = logged_in_session(1, "first");
    let enabled = begin_enable_at(&disabled_record(), &session, 10).unwrap().unwrap();
    let epoch = enabled.operation_epoch;
    let local = vec![item("1")];
    let remote = vec![item("2")];
    let checked = finish_check_at(&enabled, epoch, &local, &remote, 20, 21).unwrap();
    assert_eq!(checked.status, FavoriteSyncStatus::NeedsResolution);
    assert_eq!(checked.local_only_count, 1);
    assert_eq!(checked.remote_only_count, 1);
    assert_eq!(checked.pending_kind, None);
    assert_eq!(checked.last_checked_at, Some(20));
    assert_eq!(checked.updated_at, 21);

    let (merging, kind) =
        begin_resolve_at(&checked, &session, FavoriteSyncResolution::Merge, 30).unwrap();
    assert_eq!(kind, PendingKind::Merge);
    assert_eq!(merging.status, FavoriteSyncStatus::Syncing);
    let epoch = merging.operation_epoch;
    let uploads = local_only_items(&local, &remote);
    assert_eq!(ids(&uploads), vec!["1"]);
    let union = vec![item("1"), item("2")];
    assert!(same_id_sets(&union, &vec![item("2"), item("1"), item("2")]));
    let synced = finish_synced_at(&merging, epoch, 2, 40, 41).unwrap();
    assert_eq!(synced.status, FavoriteSyncStatus::Synced);
    assert_eq!((synced.local_count, synced.remote_count), (2, 2));
    assert_eq!(synced.last_synced_at, Some(40));
    assert_eq!(synced.pending_kind, None);
}

#[test]
fn exposes_merge_progress_phases_in_operation_order() {
    let session = logged_in_session(1, "first");
    let enabled = begin_enable_at(&disabled_record(), &session, 10).unwrap().unwrap();
    let checked = finish_check_at(
        &enabled,
        enabled.operation_epoch,
        &vec![item("1")],
        &vec![item("2")],
        20,
        21,
    )
    .unwrap();
    let (merging, _) =
        begin_resolve_at(&checked, &session, FavoriteSyncResolution::Merge, 30).unwrap();
    let epoch = merging.operation_epoch;
    let fetching =
        set_merge_phase_at(&merging, epoch, FavoriteSyncProgressPhase::FetchingRemote, 0, 31)
            .unwrap();
    assert_eq!(
        fetching.progress_phase,
        Some(FavoriteSyncProgressPhase::FetchingRemote)
    );
    assert_eq!((fetching.progress_done, fetching.progress_total), (0, 0));
    let uploading =
        set_merge_phase_at(&fetching, epoch, FavoriteSyncProgressPhase::UploadingLocal, 1, 32)
            .unwrap();
    assert_eq!((uploading.progress_done, uploading.progress_total), (0, 1));
    let uploaded = set_progress_at(&uploading, epoch, 1, 1, 33).unwrap();
    assert_eq!((uploaded.progress_done, uploaded.progress_total), (1, 1));
    let verifying =
        set_merge_phase_at(&uploaded, epoch, FavoriteSyncProgressPhase::Verifying, 0, 34).unwrap();
    assert_eq!(
        verifying.progress_phase,
        Some(FavoriteSyncProgressPhase::Verifying)
    );
    let synced = finish_synced_at(&verifying, epoch, 2, 35, 36).unwrap();
    assert_eq!(synced.progress_phase, None);
}

#[test]
fn clears_merge_progress_phase_after_failure() {
    let session = logged_in_session(1, "first");
    let enabled = begin_enable_at(&disabled_record(), &session, 10).unwrap().unwrap();
    let checked = finish_check_at(
        &enabled,
        enabled.operation_epoch,
        &vec![item("1")],
        &vec![item("2")],
        20,
        21,
    )
    .unwrap();
    let (merging, kind) =
        begin_resolve_at(&checked, &session, FavoriteSyncResolution::Merge, 30).unwrap();
    let epoch = merging.operation_epoch;
    let fetching =
        set_merge_phase_at(&merging, epoch, FavoriteSyncProgressPhase::FetchingRemote, 0, 31)
            .unwrap();
    let failed = fail_current_at(&fetching, epoch, task_failure_message(kind), 32).unwrap();
    assert_eq!(failed.status, FavoriteSyncStatus::Error);
    assert_eq!(failed.pending_kind, Some(PendingKind::Merge));
    assert_eq!(failed.progress_phase, None);
    assert_eq!(failed.last_error.as_deref(), Some("合并收藏失败，请重试同步"));
}

#[test]
fn exposes_and_retries_an_initial_check_failure() {
    let session = logged_in_session(1, "first");
    let enabled = begin_enable_at(&disabled_record(), &session, 10).unwrap().unwrap();
    let epoch = enabled.operation_epoch;
    let failed = fail_current_at(&enabled, epoch, task_failure_message(PendingKind::Check), 11)
        .unwrap();
    assert_eq!(failed.status, FavoriteSyncStatus::Error);
    assert_eq!(failed.pending_kind, Some(PendingKind::Check));
    assert!(failed.last_error.is_some());

    let (retrying, kind) = begin_retry_at(&failed, &session, 12).unwrap();
    assert_eq!(kind, PendingKind::Check);
    assert_eq!(retrying.status, FavoriteSyncStatus::Checking);
    assert!(retrying.last_error.is_none());
    assert_eq!(retrying.operation_epoch, epoch + 1);
    let checked = finish_check_at(
        &retrying,
        retrying.operation_epoch,
        &vec![item("1")],
        &Vec::new(),
        13,
        14,
    )
    .unwrap();
    assert_eq!(checked.status, FavoriteSyncStatus::NeedsResolution);
    assert_eq!(checked.local_only_count, 1);
}

#[test]
fn retry_and_resolve_are_refused_outside_their_states() {
    let session = logged_in_session(1, "first");
    let synced = synced_record();
    assert!(matches!(
        begin_retry_at(&synced, &session, 1),
        Err(FavoriteSyncError::Conflict(_))
    ));
    assert!(matches!(
        begin_resolve_at(&synced, &session, FavoriteSyncResolution::Merge, 1),
        Err(FavoriteSyncError::Conflict(_))
    ));
    assert!(matches!(
        begin_check_at(&synced, &logged_in_session(2, "second"), false, 1),
        Err(FavoriteSyncError::Account(_))
    ));
    let checking = begin_check_at(&synced, &session, false, 2).unwrap();
    assert_eq!(checking.status, FavoriteSyncStatus::Checking);
    match begin_check_at(&checking, &session, true, 3) {
        Err(FavoriteSyncError::Conflict(m)) => assert_eq!(m, "当前收藏同步状态不需要自动检查"),
        _ => panic!("an automatic check of a running check must be refused"),
    }
    let mut without_task = fail_current_at(&checking, checking.operation_epoch, "x", 4).unwrap();
    without_task.pending_kind = None;
    match begin_retry_at(&without_task, &session, 5) {
        Err(FavoriteSyncError::Conflict(m)) => {
            assert_eq!(m, "收藏同步错误缺少可重试任务，请关闭后重新开启")
        }
        _ => panic!("a retry without a task must be refused"),
    }
}

#[test]
fn keeps_local_unchanged_and_retries_a_failed_target() {
    let session = logged_in_session(1, "first");
    let synced = synced_record();
    let payload = Some("{\"title\":\"One\"}".to_string());
    let pending = begin_set_favorite_at(&synced, &session, "1", true, payload.clone(), 50)
        .unwrap()
        .unwrap();
    assert_eq!(pending.status, FavoriteSyncStatus::Syncing);
    assert_eq!(pending.pending_kind, Some(PendingKind::SetFavorite));
    assert_eq!(pending.pending_comic_id.as_deref(), Some("1"));
    assert_eq!(pending.pending_target, Some(true));
    let epoch = pending.operation_epoch;
    let outcome = toggle_outcome(
        true,
        Some("failed before sending".to_string()),
        Ok(false),
    );
    assert!(matches!(outcome, Err(SyncTaskError::Remote(ref m)) if m == "failed before sending"));
    let failed = fail_current_at(&pending, epoch, "远端收藏失败，请在设置中重试同步", 51).unwrap();
    assert!(matches!(
        operation_error(&failed, epoch, "远端收藏失败，请在设置中重试同步"),
        FavoriteSyncError::Remote(_)
    ));
    assert_eq!(failed.status, FavoriteSyncStatus::Error);
    assert_eq!(failed.pending_comic_id.as_deref(), Some("1"));

    let (retrying, kind) = begin_retry_at(&failed, &session, 52).unwrap();
    assert_eq!(kind, PendingKind::SetFavorite);
    assert_eq!(retrying.status, FavoriteSyncStatus::Syncing);
    let (comic_id, target) = pending_target_job(&retrying, retrying.operation_epoch).unwrap();
    assert_eq!((comic_id.as_str(), target), ("1", true));
    assert_eq!(pending_payload(&retrying).unwrap(), payload.unwrap());
    assert!(matches!(
        pending_target_job(&retrying, epoch),
        Err(SyncTaskError::Cancelled)
    ));
}

#[test]
fn changing_a_favorite_needs_a_settled_record_or_goes_local() {
    let session = logged_in_session(1, "first");
    assert!(begin_set_favorite_at(&disabled_record(), &session, "1", false, None, 1)
        .unwrap()
        .is_none());
    let synced = synced_record();
    let checking = begin_check_at(&synced, &session, false, 2).unwrap();
    assert!(matches!(
        begin_set_favorite_at(&checking, &session, "1", false, None, 3),
        Err(FavoriteSyncError::Conflict(_))
    ));
    assert!(matches!(
        begin_set_favorite_at(&synced, &logged_in_session(2, "second"), "1", false, None, 3),
        Err(FavoriteSyncError::Account(_))
    ));
}

#[test]
fn verifies_target_after_a_lost_toggle_response() {
    assert!(!toggle_needed(true, true));
    assert!(toggle_needed(false, true));
    assert!(toggle_needed(true, false));
    assert!(toggle_outcome(true, Some("response was lost".to_string()), Ok(true)).is_ok());
    assert!(matches!(
        toggle_outcome(false, None, Ok(true)),
        Err(SyncTaskError::TargetNotReached)
    ));
    assert!(matches!(
        toggle_outcome(true, Some("a".to_string()), Err("b".to_string())),
        Err(SyncTaskError::ToggleAndVerify(ref t, ref v)) if t == "a" && v == "b"
    ));
    assert!(matches!(
        toggle_outcome(true, None, Err("b".to_string())),
        Err(SyncTaskError::Remote(ref v)) if v == "b"
    ));
}

#[test]
fn persists_a_failed_target_across_service_restart() {
    let session = logged_in_session(1, "first");
    let synced = synced_record();
    let pending = begin_set_favorite_at(&synced, &session, "1", true, Some("{}".into()), 50)
        .unwrap()
        .unwrap();
    let failed = fail_current_at(&pending, pending.operation_epoch, "x", 51).unwrap();
    let stored = encode_record(&failed);
    assert_eq!(stored.status, "error");
    assert_eq!(stored.pending_kind.as_deref(), Some("set_favorite"));
    assert_eq!(stored.pending_target, Some(1));
    assert_eq!(stored.enabled, 1);
    let restored = decode_record(stored).unwrap();
    assert!(recover_at(&restored, 60).is_none());
    let state = FavoriteSyncState::from_record(&restored);
    assert_eq!(state.status, FavoriteSyncStatus::Error);
    assert_eq!(state.pending_kind, Some(PendingKind::SetFavorite));
    assert_eq!(state.pending_comic_id.as_deref(), Some("1"));
    assert!(begin_retry_at(&restored, &session, 61).is_ok());
}

#[test]
fn a_restart_interrupts_running_tasks_and_resets_half_disabled_records() {
    let session = logged_in_session(1, "first");
    let enabled = begin_enable_at(&disabled_record(), &session, 10).unwrap().unwrap();
    let recovered = recover_at(&enabled, 99).unwrap();
    assert_eq!(recovered.status, FavoriteSyncStatus::Error);
    assert_eq!(
        recovered.last_error.as_deref(),
        Some("上次收藏同步被服务重启中断，请重试同步")
    );
    assert_eq!(recovered.pending_kind, Some(PendingKind::Check));
    assert_eq!(recovered.updated_at, 99);
    let mut half = disabled_record();
    half.status = FavoriteSyncStatus::Synced;
    half.last_error = Some("old".into());
    let reset = recover_at(&half, 99).unwrap();
    assert_eq!(reset.status, FavoriteSyncStatus::Disabled);
    assert!(reset.last_error.is_none());
}

#[test]
fn account_switch_disables_sync_and_preserves_local_favorites() {
    let synced = synced_record();
    assert!(matches!(
        clear_allowed(&synced),
        Err(FavoriteSyncError::Conflict(_))
    ));
    assert!(clear_allowed(&disabled_record()).is_ok());
    assert_eq!(
        account_session_action(&synced, &logged_in_session(2, "second")),
        AccountAction::Disable
    );
    assert_eq!(
        account_session_action(&synced, &logged_in_session(1, "first")),
        AccountAction::AutomaticCheck
    );
    let gone = AccountSession {
        user_id: None,
        username: None,
        login_status: LoginStatus::LoggedOut,
    };
    assert_eq!(account_session_action(&synced, &gone), AccountAction::Disable);
    let logged_out = AccountSession {
        user_id: Some(1),
        username: Some("first".into()),
        login_status: LoginStatus::LoggedOut,
    };
    assert_eq!(
        account_session_action(&synced, &logged_out),
        AccountAction::MarkUnavailable(UnavailableReason::LoggedOut)
    );
    let disabled = disable_at(&synced, 70);
    assert!(!disabled.enabled);
    assert_eq!(disabled.status, FavoriteSyncStatus::Disabled);
    assert_eq!(disabled.account_id, None);
    assert_eq!(disabled.operation_epoch, synced.operation_epoch + 1);
}

#[test]
fn a_relogin_interrupts_a_running_task_only() {
    let session = logged_in_session(1, "first");
    let synced = synced_record();
    let relogging = AccountSession {
        user_id: Some(1),
        username: Some("first".into()),
        login_status: LoginStatus::LoggingIn,
    };
    assert_eq!(account_session_action(&synced, &relogging), AccountAction::Ignore);
    let checking = begin_check_at(&synced, &session, true, 80).unwrap();
    assert_eq!(
        account_session_action(&checking, &relogging),
        AccountAction::MarkUnavailable(UnavailableReason::Relogging)
    );
    let marked =
        mark_account_unavailable_at(&checking, UnavailableReason::Relogging, 81).unwrap();
    assert_eq!(marked.status, FavoriteSyncStatus::Error);
    assert_eq!(marked.pending_kind, Some(PendingKind::Check));
    assert_eq!(
        marked.last_error.as_deref(),
        Some("JM 账号正在重新登录，请登录成功后重试同步")
    );
    assert!(mark_account_unavailable_at(&marked, UnavailableReason::LoggedOut, 82).is_none());
}

#[test]
fn disabling_sync_prevents_an_old_background_check_from_writing_state() {
    let session = logged_in_session(1, "first");
    let enabled = begin_enable_at(&disabled_record(), &session, 10).unwrap().unwrap();
    let epoch = enabled.operation_epoch;
    let disabled = disable_at(&enabled, 11);
    assert!(!is_current_record(&disabled, epoch));
    assert!(require_current_record(&disabled, epoch).is_err());
    assert!(finish_check_at(&disabled, epoch, &Vec::new(), &Vec::new(), 12, 13).is_none());
    assert!(set_progress_at(&disabled, epoch, 1, 2, 13).is_none());
    assert!(fail_current_at(&disabled, epoch, "x", 13).is_none());
    assert!(matches!(
        operation_error(&disabled, epoch, "x"),
        FavoriteSyncError::Conflict(ref m) if m == "收藏同步已关闭，本次操作未写入本地"
    ));
    assert_eq!(disabled.status, FavoriteSyncStatus::Disabled);
    assert!(disabled.last_error.is_none());
}

#[test]
fn reads_every_remote_favorite_page_before_overwrite() {
    let all: Vec<FavoriteComic> = (1..=25).map(|id| comic(&id.to_string())).collect();
    let mut snapshot = RemoteSnapshot::new();
    let mut pages_read: u32 = 0;
    loop {
        let (page_number, order) = snapshot.next_page().unwrap();
        // Pages are read one after another, in the order favorites were made.
        assert_eq!(page_number, pages_read + 1);
        assert_eq!(order, FavoriteOrder::Mr);
        let offset = (page_number as usize - 1) * 20;
        let items: Vec<FavoriteComic> = all.iter().skip(offset).take(20).map(|c| c.duplicate()).collect();
        pages_read += 1;
        snapshot = snapshot
            .absorb(FavoritePage { total: 25, items })
            .unwrap();
        let (done, total) = snapshot.progress();
        assert_eq!(total, 25);
        assert!(done <= 25);
        match snapshot.advance().unwrap() {
            SnapshotStep::More(next) => snapshot = next,
            SnapshotStep::Complete(done) => {
                snapshot = done;
                break;
            }
        }
    }
    assert_eq!(pages_read, 2);
    let favorites = snapshot.into_favorites_at(1000);
    assert_eq!(favorites.len(), 25);
    assert_eq!(favorites[0].comic_id, "1");
    assert_eq!(favorites[0].favorited_at, 1000);
    assert_eq!(favorites[24].favorited_at, 976);
    assert_eq!(favorites[3].title, "Remote 4");
}

#[test]
fn snapshot_trims_dedupes_and_refuses_bad_pages() {
    let page = FavoritePage {
        total: 2,
        items: vec![comic(" 1 "), comic("1"), comic("2")],
    };
    let snapshot = RemoteSnapshot::new().absorb(page).unwrap();
    assert_eq!(snapshot.len(), 2);
    assert_eq!(snapshot.items()[0].id, "1");
    assert!(matches!(snapshot.advance(), Ok(SnapshotStep::Complete(_))));

    let bad = FavoritePage {
        total: 1,
        items: vec![comic("x1")],
    };
    assert_eq!(
        RemoteSnapshot::new().absorb(bad).err(),
        Some(SnapshotFault::InvalidComicId)
    );
    let first = RemoteSnapshot::new()
        .absorb(FavoritePage {
            total: 3,
            items: (1..=20).map(|i| comic(&i.to_string())).collect(),
        });
    assert_eq!(first.unwrap().advance().err(), Some(SnapshotFault::CountExceeded));
    let short = RemoteSnapshot::new()
        .absorb(FavoritePage {
            total: 3,
            items: vec![comic("1")],
        })
        .unwrap();
    assert_eq!(short.advance().err(), Some(SnapshotFault::Incomplete));
    let over = RemoteSnapshot::new()
        .absorb(FavoritePage {
            total: 1,
            items: vec![comic("1"), comic("2")],
        })
        .unwrap();
    assert_eq!(over.advance().err(), Some(SnapshotFault::CountExceeded));
    let full = RemoteSnapshot::new()
        .absorb(FavoritePage {
            total: 40,
            items: (1..=20).map(|i| comic(&i.to_string())).collect(),
        })
        .unwrap();
    let next = match full.advance().unwrap() {
        SnapshotStep::More(next) => next,
        SnapshotStep::Complete(_) => panic!("a full page is followed by another"),
    };
    assert_eq!(next.next_page().unwrap(), (2, FavoriteOrder::Mr));
    assert_eq!(
        next.absorb(FavoritePage {
            total: 41,
            items: vec![comic("21")],
        })
        .err(),
        Some(SnapshotFault::TotalChanged)
    );
    let again = RemoteSnapshot::new()
        .absorb(FavoritePage {
            total: 0,
            items: vec![comic("1")],
        })
        .unwrap();
    assert_eq!(
        again
            .absorb(FavoritePage {
                total: 0,
                items: vec![comic("1")],
            })
            .err(),
        Some(SnapshotFault::NoProgress)
    );
}

#[test]
fn preserves_remote_mr_and_mp_page_order_after_sync() {
    let session = logged_in_session(1, "first");
    let synced = synced_record();
    assert!(remote_order_ready(&synced, &session));
    for order in [FavoriteOrder::Mr, FavoriteOrder::Mp] {
        assert_eq!(
            listing_source(&synced, &session, order).unwrap(),
            Some(synced.operation_epoch)
        );
    }
    let page = FavoritePage {
        total: 3,
        items: vec![comic("3"), comic("2"), comic("1")],
    };
    let order = ordered_page_ids(3, &page).unwrap();
    assert_eq!(order, vec!["3", "2", "1"]);
    let local = vec![item("1"), item("2"), item("3")];
    let items = server::application::favorite::by_ids_in_order(&order, &local);
    assert_eq!(ids(&items), vec!["3", "2", "1"]);
    assert!(check_ordered_items(&order, &items).is_ok());
    let epoch = synced.operation_epoch;
    assert!(validate_order_context(false, &session, &session, &synced, epoch).is_ok());
}

#[test]
fn rejects_an_ordered_page_when_remote_and_local_sets_differ() {
    let page = FavoritePage {
        total: 3,
        items: vec![comic("2"), comic("3"), comic("4")],
    };
    let order = ordered_page_ids(3, &page).unwrap();
    let local = vec![item("1"), item("2"), item("3")];
    let items = server::application::favorite::by_ids_in_order(&order, &local);
    assert!(matches!(
        check_ordered_items(&order, &items),
        Err(FavoriteSyncError::SyncMismatch(_))
    ));
    let duplicated = FavoritePage {
        total: 2,
        items: vec![comic("2"), comic(" 2")],
    };
    assert!(matches!(
        ordered_page_ids(2, &duplicated),
        Err(FavoriteSyncError::SyncMismatch(ref m)) if m == "远端收藏列表异常，请在设置中重新检查同步"
    ));
}

#[test]
fn rejects_an_ordered_page_when_remote_total_changes() {
    let page = FavoritePage {
        total: 3,
        items: vec![comic("1"), comic("2"), comic("3")],
    };
    assert!(matches!(
        ordered_page_ids(2, &page),
        Err(FavoriteSyncError::SyncMismatch(ref m)) if m == "本地与远端收藏已不一致，请在设置中重新检查同步"
    ));
}

#[test]
fn rejects_an_ordered_page_if_sync_changes_during_the_remote_read() {
    let session = logged_in_session(1, "first");
    let synced = synced_record();
    let epoch = synced.operation_epoch;
    let disabled = disable_at(&synced, 90);
    assert!(matches!(
        validate_order_context(false, &session, &session, &disabled, epoch),
        Err(FavoriteSyncError::OrderStale(_))
    ));
    assert!(matches!(
        validate_order_context(true, &session, &session, &synced, epoch),
        Err(FavoriteSyncError::OrderStale(_))
    ));
    assert!(matches!(
        validate_order_context(false, &logged_in_session(1, "renamed"), &session, &synced, epoch),
        Err(FavoriteSyncError::OrderStale(_))
    ));
}

#[test]
fn differences_and_id_sets_count_each_id_once() {
    let local = vec![item("1"), item("2"), item("2"), item("3")];
    let remote = vec![item("3"), item("4"), item("4")];
    assert_eq!(id_set(&local), vec!["1", "2", "3"]);
    let (local_only, remote_only) = differences(&local, &remote);
    assert_eq!(local_only, vec!["1", "2"]);
    assert_eq!(remote_only, vec!["4"]);
    assert!(!same_id_sets(&local, &remote));
}

#[test]
fn maps_errors_to_their_http_answers() {
    let stale = FavoriteSyncError::OrderStale("s".into()).into_http_error();
    assert_eq!(stale.status, 409);
    assert!(stale.retryable);
    assert_eq!(stale.code, Some("favorite_order_stale"));
    let remote = FavoriteSyncError::Remote("r".into()).into_http_error();
    assert_eq!((remote.status, remote.retryable, remote.code), (502, true, None));
    let internal = FavoriteSyncError::Internal("i".into()).into_http_error();
    assert_eq!((internal.status, internal.retryable), (500, false));
    assert_eq!(internal.message, "i");
    let mismatch = FavoriteSyncError::SyncMismatch("m".into()).into_http_error();
    assert_eq!(mismatch.code, Some("favorite_sync_mismatch"));
    assert!(!mismatch.retryable);
    let unavailable = FavoriteSyncError::OrderUnavailable("u".into()).into_http_error();
    assert_eq!(unavailable.code, Some("favorite_order_unavailable"));
    let account = FavoriteSyncError::Account("a".into()).into_http_error();
    assert_eq!((account.status, account.code), (409, None));
}

#[test]
fn stored_records_refuse_unknown_texts_and_large_account_ids() {
    let mut row = encode_record(&synced_record());
    row.account_id = Some(1 << 40);
    assert!(matches!(decode_record(row), Err(RecordDecodeError::AccountIdOutOfRange)));
    let mut row = encode_record(&synced_record());
    row.status = "paused".into();
    assert!(matches!(decode_record(row), Err(RecordDecodeError::UnknownStatus(ref v)) if v == "paused"));
    let mut row = encode_record(&synced_record());
    row.pending_kind = Some("sync".into());
    assert!(matches!(decode_record(row), Err(RecordDecodeError::UnknownPendingKind(_))));
    let mut row = encode_record(&synced_record());
    row.progress_phase = Some("waiting".into());
    assert!(matches!(decode_record(row), Err(RecordDecodeError::UnknownProgressPhase(_))));
    assert_eq!(FavoriteSyncStatus::from_db("needs_resolution"), Some(FavoriteSyncStatus::NeedsResolution));
    assert_eq!(FavoriteSyncStatus::NeedsResolution.db_value(), "needs_resolution");
    assert_eq!(PendingKind::from_db("remote_overwrite"), Some(PendingKind::RemoteOverwrite));
    assert_eq!(FavoriteSyncProgressPhase::from_db("Verifying"), None);
}

#[test]
fn the_upstream_remote_binds_its_client_and_endpoints() {
    let remote = JmFavoriteRemote::new(Arc::new(1u8), Arc::new("endpoints"));
    assert_eq!(*remote.jm, 1);
    assert_eq!(*remote.endpoints, "endpoints");
}

#[test]
fn does_not_fall_back_to_local_order_after_a_remote_read_failure() {
    let session = logged_in_session(1, "first");
    let synced = synced_record();
    // A settled record lists in the upstream order, so a failed upstream read
    // answers with the upstream error instead of the local order.
    assert!(remote_order_ready(&synced, &session));
    assert!(matches!(remote_read_error(), FavoriteSyncError::Remote(_)));
    let answer = remote_read_error().into_http_error();
    assert_eq!(answer.status, 502);
    assert!(answer.retryable);
}

#[test]
fn remote_overwrite_replaces_local_without_toggling_remote() {
    let session = logged_in_session(1, "first");
    let enabled = begin_enable_at(&disabled_record(), &session, 10).unwrap().unwrap();
    let epoch = enabled.operation_epoch;
    let local = vec![item("1")];
    let remote = vec![item("2")];
    let checked = finish_check_at(&enabled, epoch, &local, &remote, 11, 12).unwrap();
    assert_eq!(checked.status, FavoriteSyncStatus::NeedsResolution);
    let (overwriting, kind) =
        begin_resolve_at(&checked, &session, FavoriteSyncResolution::RemoteOverwrite, 13).unwrap();
    assert_eq!(kind, PendingKind::RemoteOverwrite);
    assert_eq!(overwriting.status, FavoriteSyncStatus::Syncing);
    // The overwrite owes no change of one favorite upstream.
    assert_eq!(overwriting.pending_comic_id, None);
    assert_eq!(overwriting.pending_target, None);
    assert!(matches!(
        pending_target_job(&overwriting, overwriting.operation_epoch),
        Err(SyncTaskError::MissingComicId)
    ));
    // Once the local favorites are the upstream ones, the sets agree.
    let replaced = remote.clone();
    assert!(same_id_sets(&replaced, &remote));
    let done = finish_synced_at(&overwriting, overwriting.operation_epoch, 1, 14, 15).unwrap();
    assert_eq!(done.status, FavoriteSyncStatus::Synced);
    assert_eq!(done.pending_kind, None);
}

#[test]
fn removes_a_favorite_remotely_before_deleting_it_locally() {
    let session = logged_in_session(1, "first");
    let synced = synced_record();
    let pending = begin_set_favorite_at(&synced, &session, "1", false, None, 20)
        .unwrap()
        .unwrap();
    assert_eq!(pending.status, FavoriteSyncStatus::Syncing);
    assert_eq!(pending.pending_kind, Some(PendingKind::SetFavorite));
    let epoch = pending.operation_epoch;
    let (comic_id, target) = pending_target_job(&pending, epoch).unwrap();
    assert_eq!((comic_id.as_str(), target), ("1", false));
    // One toggle takes the favorite away upstream; the local delete follows.
    assert!(toggle_outcome(false, None, Ok(false)).is_ok());
    let done = finish_synced_at(&pending, epoch, 0, 21, 22).unwrap();
    assert_eq!(done.status, FavoriteSyncStatus::Synced);
    assert_eq!(done.pending_kind, None);
}
