//! The row the synchronization record is stored as: flags as integers 1 and
//! 0, statuses, phases and kinds as their stored texts.
use super::{
    FavoriteSyncProgressPhase, FavoriteSyncStatus, PendingKind, SyncRecord, SyncRecordView,
};
use crate::text;
use vstd::prelude::*;

verus! {

/// The columns of the stored record.
pub struct SyncRow {
    pub enabled: i64,
    pub account_id: Option<i64>,
    pub account_username: Option<String>,
    pub status: String,
    pub local_count: i64,
    pub remote_count: i64,
    pub local_only_count: i64,
    pub remote_only_count: i64,
    pub progress_done: i64,
    pub progress_total: i64,
    pub progress_phase: Option<String>,
    pub operation_epoch: i64,
    pub pending_kind: Option<String>,
    pub pending_comic_id: Option<String>,
    pub pending_target: Option<i64>,
    pub pending_payload: Option<String>,
    pub last_error: Option<String>,
    pub last_checked_at: Option<i64>,
    pub last_synced_at: Option<i64>,
    pub updated_at: i64,
}

pub struct SyncRowView {
    pub enabled: i64,
    pub account_id: Option<i64>,
    pub account_username: Option<Seq<char>>,
    pub status: Seq<char>,
    pub local_count: i64,
    pub remote_count: i64,
    pub local_only_count: i64,
    pub remote_only_count: i64,
    pub progress_done: i64,
    pub progress_total: i64,
    pub progress_phase: Option<Seq<char>>,
    pub operation_epoch: i64,
    pub pending_kind: Option<Seq<char>>,
    pub pending_comic_id: Option<Seq<char>>,
    pub pending_target: Option<i64>,
    pub pending_payload: Option<Seq<char>>,
    pub last_error: Option<Seq<char>>,
    pub last_checked_at: Option<i64>,
    pub last_synced_at: Option<i64>,
    pub updated_at: i64,
}

impl View for SyncRow {
    type V = SyncRowView;

    open spec fn view(&self) -> SyncRowView {
        SyncRowView {
            enabled: self.enabled,
            account_id: self.account_id,
            account_username: text::opt_text(self.account_username),
            status: self.status@,
            local_count: self.local_count,
            remote_count: self.remote_count,
            local_only_count: self.local_only_count,
            remote_only_count: self.remote_only_count,
            progress_done: self.progress_done,
            progress_total: self.progress_total,
            progress_phase: text::opt_text(self.progress_phase),
            operation_epoch: self.operation_epoch,
            pending_kind: text::opt_text(self.pending_kind),
            pending_comic_id: text::opt_text(self.pending_comic_id),
            pending_target: self.pending_target,
            pending_payload: text::opt_text(self.pending_payload),
            last_error: text::opt_text(self.last_error),
            last_checked_at: self.last_checked_at,
            last_synced_at: self.last_synced_at,
            updated_at: self.updated_at,
        }
    }
}

/// Why a stored row is not a record.
#[derive(Debug)]
pub enum RecordDecodeError {
    AccountIdOutOfRange,
    UnknownStatus(String),
    UnknownPendingKind(String),
    UnknownProgressPhase(String),
}

pub enum DecodeFault {
    AccountIdOutOfRange,
    UnknownStatus(Seq<char>),
    UnknownPendingKind(Seq<char>),
    UnknownProgressPhase(Seq<char>),
}

impl View for RecordDecodeError {
    type V = DecodeFault;

    open spec fn view(&self) -> DecodeFault {
        match self {
            RecordDecodeError::AccountIdOutOfRange => DecodeFault::AccountIdOutOfRange,
            RecordDecodeError::UnknownStatus(v) => DecodeFault::UnknownStatus(v@),
            RecordDecodeError::UnknownPendingKind(v) => DecodeFault::UnknownPendingKind(v@),
            RecordDecodeError::UnknownProgressPhase(v) => DecodeFault::UnknownProgressPhase(v@),
        }
    }
}

pub open spec fn flag_value(b: bool) -> i64 {
    if b {
        1
    } else {
        0
    }
}

/// The row a record is stored as.
pub open spec fn encoded(r: SyncRecordView) -> SyncRowView {
    SyncRowView {
        enabled: flag_value(r.enabled),
        account_id: match r.account_id {
            Some(id) => Some(id as i64),
            None => None,
        },
        account_username: r.account_username,
        status: super::status_db_text(r.status),
        local_count: r.local_count,
        remote_count: r.remote_count,
        local_only_count: r.local_only_count,
        remote_only_count: r.remote_only_count,
        progress_done: r.progress_done,
        progress_total: r.progress_total,
        progress_phase: match r.progress_phase {
            Some(p) => Some(super::phase_db_text(p)),
            None => None,
        },
        operation_epoch: r.operation_epoch,
        pending_kind: match r.pending_kind {
            Some(k) => Some(super::kind_db_text(k)),
            None => None,
        },
        pending_comic_id: r.pending_comic_id,
        pending_target: match r.pending_target {
            Some(t) => Some(flag_value(t)),
            None => None,
        },
        pending_payload: r.pending_payload,
        last_error: r.last_error,
        last_checked_at: r.last_checked_at,
        last_synced_at: r.last_synced_at,
        updated_at: r.updated_at,
    }
}

/// The record a row stores: an account id must fit in `u32`, and the
/// status, the pending kind and the progress phase must be known texts, read
/// in that order; a flag is set when its integer is not zero.
pub open spec fn decoded(w: SyncRowView) -> Result<SyncRecordView, DecodeFault> {
    if w.account_id is Some && !(0 <= w.account_id->0 <= u32::MAX) {
        Err(DecodeFault::AccountIdOutOfRange)
    } else if super::status_from_db_text(w.status) is None {
        Err(DecodeFault::UnknownStatus(w.status))
    } else if w.pending_kind is Some && super::kind_from_db_text(w.pending_kind->0) is None {
        Err(DecodeFault::UnknownPendingKind(w.pending_kind->0))
    } else if w.progress_phase is Some && super::phase_from_db_text(w.progress_phase->0) is None {
        Err(DecodeFault::UnknownProgressPhase(w.progress_phase->0))
    } else {
        Ok(
            SyncRecordView {
                enabled: w.enabled != 0,
                account_id: match w.account_id {
                    Some(id) => Some(id as u32),
                    None => None,
                },
                account_username: w.account_username,
                status: super::status_from_db_text(w.status)->0,
                local_count: w.local_count,
                remote_count: w.remote_count,
                local_only_count: w.local_only_count,
                remote_only_count: w.remote_only_count,
                progress_done: w.progress_done,
                progress_total: w.progress_total,
                progress_phase: match w.progress_phase {
                    Some(p) => super::phase_from_db_text(p),
                    None => None,
                },
                operation_epoch: w.operation_epoch,
                pending_kind: match w.pending_kind {
                    Some(k) => super::kind_from_db_text(k),
                    None => None,
                },
                pending_comic_id: w.pending_comic_id,
                pending_target: match w.pending_target {
                    Some(t) => Some(t != 0),
                    None => None,
                },
                pending_payload: w.pending_payload,
                last_error: w.last_error,
                last_checked_at: w.last_checked_at,
                last_synced_at: w.last_synced_at,
                updated_at: w.updated_at,
            },
        )
    }
}

pub open spec fn decode_result(r: Result<SyncRecord, RecordDecodeError>) -> Result<
    SyncRecordView,
    DecodeFault,
> {
    match r {
        Ok(n) => Ok(n@),
        Err(e) => Err(e@),
    }
}

/// The row the record is stored as (see `encoded`).
pub fn encode_record(record: &SyncRecord) -> (w: SyncRow)
    ensures
        w@ == encoded(record@),
{
    SyncRow {
        enabled: if record.enabled {
            1
        } else {
            0
        },
        account_id: match record.account_id {
            Some(id) => Some(id as i64),
            None => None,
        },
        account_username: text::clone_opt_string(&record.account_username),
        status: text::owned(record.status.db_value()),
        local_count: record.local_count,
        remote_count: record.remote_count,
        local_only_count: record.local_only_count,
        remote_only_count: record.remote_only_count,
        progress_done: record.progress_done,
        progress_total: record.progress_total,
        progress_phase: match record.progress_phase {
            Some(p) => Some(text::owned(p.db_value())),
            None => None,
        },
        operation_epoch: record.operation_epoch,
        pending_kind: match record.pending_kind {
            Some(k) => Some(text::owned(k.db_value())),
            None => None,
        },
        pending_comic_id: text::clone_opt_string(&record.pending_comic_id),
        pending_target: match record.pending_target {
            Some(t) => Some(
                if t {
                    1
                } else {
                    0
                },
            ),
            None => None,
        },
        pending_payload: text::clone_opt_string(&record.pending_payload),
        last_error: text::clone_opt_string(&record.last_error),
        last_checked_at: record.last_checked_at,
        last_synced_at: record.last_synced_at,
        updated_at: record.updated_at,
    }
}

/// The record the row stores (see `decoded`).
pub fn decode_record(row: SyncRow) -> (r: Result<SyncRecord, RecordDecodeError>)
    ensures
        decode_result(r) == decoded(row@),
{
    let account_id = match row.account_id {
        Some(id) => {
            if id < 0 || id > 0xffff_ffff {
                return Err(RecordDecodeError::AccountIdOutOfRange);
            }
            Some(id as u32)
        },
        None => None,
    };
    let status = match FavoriteSyncStatus::from_db(row.status.as_str()) {
        Some(s) => s,
        None => return Err(RecordDecodeError::UnknownStatus(row.status)),
    };
    let pending_kind = match &row.pending_kind {
        Some(k) => match PendingKind::from_db(k.as_str()) {
            Some(kind) => Some(kind),
            None => return Err(RecordDecodeError::UnknownPendingKind(k.clone())),
        },
        None => None,
    };
    let progress_phase = match &row.progress_phase {
        Some(p) => match FavoriteSyncProgressPhase::from_db(p.as_str()) {
            Some(phase) => Some(phase),
            None => return Err(RecordDecodeError::UnknownProgressPhase(p.clone())),
        },
        None => None,
    };
    Ok(
        SyncRecord {
            enabled: row.enabled != 0,
            account_id,
            account_username: row.account_username,
            status,
            local_count: row.local_count,
            remote_count: row.remote_count,
            local_only_count: row.local_only_count,
            remote_only_count: row.remote_only_count,
            progress_done: row.progress_done,
            progress_total: row.progress_total,
            progress_phase,
            operation_epoch: row.operation_epoch,
            pending_kind,
            pending_comic_id: row.pending_comic_id,
            pending_target: match row.pending_target {
                Some(t) => Some(t != 0),
                None => None,
            },
            pending_payload: row.pending_payload,
            last_error: row.last_error,
            last_checked_at: row.last_checked_at,
            last_synced_at: row.last_synced_at,
            updated_at: row.updated_at,
        },
    )
}

/// A stored row is read field by field: an account id outside `u32` and an
/// unknown status are refused; a flag reads as set when its integer is not
/// zero; every count, time, text and the epoch is read as it is stored. A
/// record is stored with its flags as 1 and 0.
pub proof fn lemma_rows_read_field_by_field(w: SyncRowView, r: SyncRecordView)
    ensures
        w.account_id matches Some(id) ==> (!(0 <= id <= u32::MAX) ==> decoded(w) == Err::<
            SyncRecordView,
            DecodeFault,
        >(DecodeFault::AccountIdOutOfRange)),
        decoded(w) is Ok ==> super::status_from_db_text(w.status) is Some,
        decoded(w) matches Ok(n) ==> {
            &&& Some(n.status) == super::status_from_db_text(w.status)
            &&& n.enabled == (w.enabled != 0)
            &&& (w.account_id matches Some(id) ==> n.account_id matches Some(a) && a == id)
            &&& (w.account_id is None ==> n.account_id is None)
            &&& (w.pending_target matches Some(t) ==> n.pending_target == Some(t != 0))
            &&& (w.pending_target is None ==> n.pending_target is None)
            &&& n.account_username == w.account_username
            &&& n.local_count == w.local_count && n.remote_count == w.remote_count
            &&& n.local_only_count == w.local_only_count
            &&& n.remote_only_count == w.remote_only_count
            &&& n.progress_done == w.progress_done && n.progress_total == w.progress_total
            &&& n.operation_epoch == w.operation_epoch
            &&& n.pending_comic_id == w.pending_comic_id
            &&& n.pending_payload == w.pending_payload
            &&& n.last_error == w.last_error
            &&& n.last_checked_at == w.last_checked_at
            &&& n.last_synced_at == w.last_synced_at
            &&& n.updated_at == w.updated_at
            &&& (w.pending_kind is None <==> n.pending_kind is None)
            &&& (w.progress_phase is None <==> n.progress_phase is None)
        },
        encoded(r).enabled == (if r.enabled {
            1i64
        } else {
            0i64
        }),
        r.pending_target matches Some(t) ==> encoded(r).pending_target == Some(
            if t {
                1i64
            } else {
                0i64
            },
        ),
{
    if w.pending_kind is Some && decoded(w) is Ok {
        assert(super::kind_from_db_text(w.pending_kind->0) is Some);
    }
}

/// A saved record loads back as the same record.
pub proof fn lemma_saved_record_loads_back(r: SyncRecordView)
    ensures
        decoded(encoded(r)) == Ok::<SyncRecordView, DecodeFault>(r),
{
    super::lemma_db_texts_round_trip(
        r.status,
        match r.progress_phase {
            Some(p) => p,
            None => FavoriteSyncProgressPhase::Verifying,
        },
        match r.pending_kind {
            Some(k) => k,
            None => PendingKind::Check,
        },
    );
    let d = decoded(encoded(r))->Ok_0;
    assert(d.account_id == r.account_id);
    assert(d.pending_target == r.pending_target);
    assert(d.enabled == r.enabled);
}

} // verus!
