//! Comic detail, state and comments.
use crate::application::history::ReadingHistoryItem;
use crate::http_error::{HttpError, STATUS_BAD_REQUEST};
use crate::text;
use vstd::prelude::*;

verus! {

/// Whether a comic is a favorite, where its reader left off, and which of
/// its chapters were read.
pub struct ComicStateResponse {
    pub is_favorite: bool,
    pub history: Option<ReadingHistoryItem>,
    pub read_chapter_ids: Vec<String>,
}

/// Which page of comments to read.
pub struct CommentsQuery {
    pub page: u32,
}

/// One page of a comic's comments.
pub struct ComicCommentsResult {
    pub page: u32,
    pub total: u32,
    pub comments: Vec<ComicComment>,
}

/// A comment, with its replies.
pub struct ComicComment {
    pub id: String,
    pub comic_id: Option<String>,
    pub user_id: String,
    pub username: String,
    pub nickname: String,
    pub content: String,
    pub like_count: u32,
    pub time: String,
    pub updated_at: String,
    pub avatar: String,
    pub parent_id: String,
    pub spoiler: bool,
    pub replies: Vec<ComicComment>,
}

/// The page of comments read when none is asked for.
pub fn default_page() -> (p: u32)
    ensures
        p == 1,
{
    1
}

pub open spec fn invalid_comic_id_text() -> Seq<char> {
    "漫画 ID 必须为数字"@
}

/// A comic id must be a non-empty run of ASCII digits; anything else is a bad
/// request.
pub fn validate_comic_id(comic_id: &str) -> (r: Result<(), HttpError>)
    ensures
        match r {
            Ok(()) => text::is_digit_id(comic_id@),
            Err(e) => !text::is_digit_id(comic_id@) && e.status == STATUS_BAD_REQUEST
                && e.message@ == invalid_comic_id_text() && !e.retryable && e.code is None,
        },
{
    if !text::is_digit_id_str(comic_id) {
        return Err(HttpError::new(STATUS_BAD_REQUEST, text::owned("漫画 ID 必须为数字"), false));
    }
    Ok(())
}

/// The error that answers a failed read of a comic's state.
pub fn state_error() -> (e: HttpError)
    ensures
        e.status == crate::http_error::STATUS_INTERNAL_SERVER_ERROR,
        e.message@ == "漫画状态查询失败"@,
        !e.retryable,
        e.code is None,
{
    HttpError::internal(text::owned("漫画状态查询失败"))
}

} // verus!
