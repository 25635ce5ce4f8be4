//! Listing, favoriting and unfavoriting comics.
use crate::application::favorite::FavoriteItem;
use crate::http_error::{HttpError, STATUS_BAD_REQUEST};
use crate::jm::models::FavoriteOrder;
use crate::text;
use vstd::prelude::*;

verus! {

/// Which page of favorites to list, and in which order.
pub struct FavoriteListQuery {
    pub page: u32,
    pub order: FavoriteOrder,
}

/// One page of favorites and how many there are in all.
pub struct FavoriteListResponse {
    pub items: Vec<FavoriteResponse>,
    pub total: i64,
}

/// A favorite as a client sees it.
pub struct FavoriteResponse {
    pub id: String,
    pub title: String,
    pub author: String,
    pub description: String,
    pub image: String,
    pub tags: Vec<String>,
    pub favorited_at: i64,
}

impl FavoriteResponse {
    /// The favorite as a client sees it, its cover served at `cover`.
    pub fn from_item(item: FavoriteItem, cover: String) -> (r: FavoriteResponse)
        ensures
            r.id == item.comic_id,
            r.title == item.title,
            r.author == item.author,
            r.description == item.description,
            r.image == cover,
            r.tags == item.tags,
            r.favorited_at == item.favorited_at,
    {
        FavoriteResponse {
            image: cover,
            id: item.comic_id,
            title: item.title,
            author: item.author,
            description: item.description,
            tags: item.tags,
            favorited_at: item.favorited_at,
        }
    }
}

/// The page of favorites listed when none is asked for.
pub fn default_page() -> (p: u32)
    ensures
        p == 1,
{
    1
}

pub open spec fn invalid_comic_id_text() -> Seq<char> {
    "收藏漫画 ID 必须为数字"@
}

pub open spec fn invalid_page_text() -> Seq<char> {
    "页码必须大于 0"@
}

/// A favorite's comic id must be a non-empty run of ASCII digits; anything
/// else is a bad request.
pub fn validate_comic_id(comic_id: &str) -> (r: Result<(), HttpError>)
    ensures
        match r {
            Ok(()) => text::is_digit_id(comic_id@),
            Err(e) => !text::is_digit_id(comic_id@) && e.status == STATUS_BAD_REQUEST
                && e.message@ == invalid_comic_id_text() && !e.retryable && e.code is None,
        },
{
    if !text::is_digit_id_str(comic_id) {
        return Err(
            HttpError::new(STATUS_BAD_REQUEST, text::owned("收藏漫画 ID 必须为数字"), false),
        );
    }
    Ok(())
}

/// Pages are counted from 1; page 0 is a bad request.
pub fn validate_page(page: u32) -> (r: Result<(), HttpError>)
    ensures
        match r {
            Ok(()) => page > 0,
            Err(e) => page == 0 && e.status == STATUS_BAD_REQUEST && e.message@
                == invalid_page_text() && !e.retryable && e.code is None,
        },
{
    if page == 0 {
        return Err(HttpError::new(STATUS_BAD_REQUEST, text::owned("页码必须大于 0"), false));
    }
    Ok(())
}

} // verus!
