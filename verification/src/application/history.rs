//! Reading history: where a reader left off in each comic.
use crate::clock;
use vstd::prelude::*;

verus! {

/// Where a reader left off in a comic.
#[derive(Debug, Clone)]
pub struct ReadingHistoryItem {
    pub comic_id: String,
    pub title: String,
    pub author: String,
    pub image: String,
    pub chapter_id: String,
    pub chapter_title: String,
    pub page_index: i64,
    pub page_count: i64,
    pub last_read_at: i64,
}

/// What a client reports of its reading; without a time, the report is
/// stamped when it arrives.
#[derive(Debug, Clone)]
pub struct ReadingHistoryInput {
    pub title: String,
    pub author: String,
    pub image: String,
    pub chapter_id: String,
    pub chapter_title: String,
    pub page_index: i64,
    pub page_count: i64,
    pub last_read_at: Option<i64>,
}

impl ReadingHistoryInput {
    /// When the reading took place: the reported time, or the time the clock
    /// reads when none was reported.
    pub fn read_at(&self) -> (t: i64)
        ensures
            self.last_read_at matches Some(v) ==> t == v,
    {
        match self.last_read_at {
            Some(v) => v,
            None => clock::now(),
        }
    }
}

} // verus!
