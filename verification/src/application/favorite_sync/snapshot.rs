//! A snapshot of all upstream favorites, read page by page.
//!
//! The caller asks for the page `next_page` names, hands it to `absorb`,
//! records the progress the snapshot reports, and calls `advance` to learn
//! whether the snapshot is complete. Every page must report the same total;
//! ids are trimmed, must be runs of digits, and are kept once, in the order
//! they first appear; a page that adds nothing new stops the reading, and so
//! does a count that passes the reported total or falls short of it at the
//! last page.
use super::{MAX_REMOTE_PAGES, REMOTE_PAGE_SIZE};
use crate::application::favorite::{FavoriteItem, FavoriteItemView};
use crate::clock;
use crate::jm::models::{FavoriteComic, FavoriteComicView, FavoriteOrder, FavoritePage};
use crate::text;
use vstd::prelude::*;

verus! {

/// Why reading the upstream favorites stopped.
#[derive(Clone, Copy, Debug, PartialEq, Eq, Structural)]
pub enum SnapshotFault {
    PaginationLimit,
    TotalChanged,
    InvalidComicId,
    NoProgress,
    CountExceeded,
    Incomplete,
}

/// The message each fault is reported with.
pub open spec fn fault_text(f: SnapshotFault) -> Seq<char> {
    match f {
        SnapshotFault::PaginationLimit => "remote favorite pagination exceeded the safety limit"@,
        SnapshotFault::TotalChanged => "remote favorite total changed while paging"@,
        SnapshotFault::InvalidComicId => "remote favorite contains an invalid comic id"@,
        SnapshotFault::NoProgress => "remote favorite pagination made no progress"@,
        SnapshotFault::CountExceeded => "remote favorite count exceeded the reported total"@,
        SnapshotFault::Incomplete => "remote favorite snapshot is incomplete"@,
    }
}

impl SnapshotFault {
    /// The message the fault is reported with (see `fault_text`).
    pub fn message(self) -> (m: &'static str)
        ensures
            m@ == fault_text(self),
    {
        match self {
            SnapshotFault::PaginationLimit => "remote favorite pagination exceeded the safety limit",
            SnapshotFault::TotalChanged => "remote favorite total changed while paging",
            SnapshotFault::InvalidComicId => "remote favorite contains an invalid comic id",
            SnapshotFault::NoProgress => "remote favorite pagination made no progress",
            SnapshotFault::CountExceeded => "remote favorite count exceeded the reported total",
            SnapshotFault::Incomplete => "remote favorite snapshot is incomplete",
        }
    }
}

/// The upstream favorites read so far. Its fields are private: every value
/// keeps `snapshot_wf` as its type invariant.
pub struct RemoteSnapshot {
    /// The page to read next, counted from 1.
    page_number: u32,
    /// The total the first page reported.
    expected_total: Option<u32>,
    /// The favorites read so far, each id once.
    items: Vec<FavoriteComic>,
    /// How many favorites the last page listed.
    last_page_len: usize,
}

pub struct SnapshotView {
    pub page_number: u32,
    pub expected_total: Option<u32>,
    pub items: Seq<FavoriteComicView>,
    pub last_page_len: nat,
}

pub open spec fn comic_views(items: Seq<FavoriteComic>) -> Seq<FavoriteComicView> {
    items.map_values(|c: FavoriteComic| c@)
}

pub open spec fn comic_ids(items: Seq<FavoriteComicView>) -> Seq<Seq<char>> {
    items.map_values(|c: FavoriteComicView| c.id)
}

impl View for RemoteSnapshot {
    type V = SnapshotView;

    closed spec fn view(&self) -> SnapshotView {
        SnapshotView {
            page_number: self.page_number,
            expected_total: self.expected_total,
            items: comic_views(self.items@),
            last_page_len: self.last_page_len as nat,
        }
    }
}

/// The ids read so far are runs of digits, none twice, and pages are counted
/// from 1.
pub open spec fn snapshot_wf(s: SnapshotView) -> bool {
    &&& s.page_number >= 1
    &&& forall|i: int| 0 <= i < s.items.len() ==> text::is_digit_id(#[trigger] s.items[i].id)
    &&& comic_ids(s.items).no_duplicates()
}

impl RemoteSnapshot {
    #[verifier::type_invariant]
    spec fn well_formed(self) -> bool {
        snapshot_wf(self@)
    }
}

/// `acc` with the favorites of `page` added in order, each with its id
/// trimmed, leaving out ids already there; `None` when an id is not a run of
/// digits once trimmed.
pub open spec fn merged(acc: Seq<FavoriteComicView>, page: Seq<FavoriteComicView>) -> Option<
    Seq<FavoriteComicView>,
>
    decreases page.len(),
{
    if page.len() == 0 {
        Some(acc)
    } else {
        match merged(acc, page.drop_last()) {
            None => None,
            Some(a) => {
                let c = page.last();
                let id = text::trimmed(c.id);
                if !text::is_digit_id(id) {
                    None
                } else if comic_ids(a).contains(id) {
                    Some(a)
                } else {
                    Some(a.push(FavoriteComicView { id, ..c }))
                }
            },
        }
    }
}

/// What the snapshot becomes once a page reporting `total` and listing
/// `page` is read.
pub open spec fn absorbed(s: SnapshotView, total: u32, page: Seq<FavoriteComicView>) -> Result<
    SnapshotView,
    SnapshotFault,
> {
    if s.expected_total is Some && s.expected_total != Some(total) {
        Err(SnapshotFault::TotalChanged)
    } else {
        match merged(s.items, page) {
            None => Err(SnapshotFault::InvalidComicId),
            Some(items) => if page.len() > 0 && items.len() == s.items.len() {
                Err(SnapshotFault::NoProgress)
            } else {
                Ok(
                    SnapshotView {
                        expected_total: Some(total),
                        items,
                        last_page_len: page.len(),
                        ..s
                    },
                )
            },
        }
    }
}

/// How the snapshot goes on after a page: complete when the reported total
/// is reached (passing it is a fault) or when the page was short (falling
/// short of the total is a fault then); otherwise the next page follows.
pub open spec fn advanced(s: SnapshotView) -> Result<(SnapshotView, bool), SnapshotFault> {
    let total = match s.expected_total {
        Some(t) => t as nat,
        None => 0,
    };
    if total > 0 && s.items.len() >= total {
        if s.items.len() != total {
            Err(SnapshotFault::CountExceeded)
        } else {
            Ok((s, true))
        }
    } else if s.last_page_len < REMOTE_PAGE_SIZE {
        if total > 0 && s.items.len() != total {
            Err(SnapshotFault::Incomplete)
        } else {
            Ok((s, true))
        }
    } else {
        Ok((SnapshotView { page_number: (s.page_number + 1) as u32, ..s }, false))
    }
}

/// `base` less `i`, or the least `i64` when that is below it.
pub open spec fn saturating_minus(base: i64, i: int) -> i64 {
    if base - i < i64::MIN {
        i64::MIN
    } else {
        (base - i) as i64
    }
}

/// The favorites a complete snapshot makes, stamped one millisecond apart
/// down from `base`, so that the upstream order is kept.
pub open spec fn snapshot_favorites(items: Seq<FavoriteComicView>, base: i64) -> Seq<
    FavoriteItemView,
> {
    Seq::new(
        items.len(),
        |i: int|
            FavoriteItemView {
                comic_id: items[i].id,
                title: items[i].name,
                author: items[i].author,
                description: items[i].description,
                image: items[i].image,
                tags: items[i].tags,
                favorited_at: saturating_minus(base, i),
            },
    )
}

pub enum SnapshotStep {
    More(RemoteSnapshot),
    Complete(RemoteSnapshot),
}

/// True when one of `items` has the id `id`.
fn ids_contain(items: &Vec<FavoriteComic>, id: &String) -> (b: bool)
    ensures
        b == comic_ids(comic_views(items@)).contains(id@),
{
    let mut i: usize = 0;
    while i < items.len()
        invariant
            i <= items.len(),
            forall|k: int| 0 <= k < i ==> items@[k].id@ != id@,
        decreases items.len() - i,
    {
        if items[i].id == *id {
            assert(comic_ids(comic_views(items@))[i as int] == id@);
            return true;
        }
        i = i + 1;
    }
    assert forall|k: int|
        0 <= k < comic_ids(comic_views(items@)).len() implies comic_ids(comic_views(items@))[k]
        != id@ by {
        assert(comic_ids(comic_views(items@))[k] == items@[k].id@);
    }
    false
}

impl RemoteSnapshot {
    /// A snapshot that has read nothing yet.
    pub fn new() -> (s: RemoteSnapshot)
        ensures
            s@ == (SnapshotView {
                page_number: 1,
                expected_total: None,
                items: Seq::empty(),
                last_page_len: 0,
            }),
            snapshot_wf(s@),
    {
        let items: Vec<FavoriteComic> = Vec::new();
        assert(comic_views(items@) == Seq::<FavoriteComicView>::empty());
        RemoteSnapshot { page_number: 1, expected_total: None, items, last_page_len: 0 }
    }

    /// The page to read next and the order to read it in: always by when the
    /// favorites were made (`Mr`), the order the snapshot's stamps keep.
    /// Refused past the page limit.
    pub fn next_page(&self) -> (r: Result<(u32, FavoriteOrder), SnapshotFault>)
        ensures
            match r {
                Ok((p, order)) => p == self@.page_number && order == FavoriteOrder::Mr
                    && self@.page_number <= MAX_REMOTE_PAGES,
                Err(f) => self@.page_number > MAX_REMOTE_PAGES && f
                    == SnapshotFault::PaginationLimit,
            },
    {
        if self.page_number > MAX_REMOTE_PAGES {
            return Err(SnapshotFault::PaginationLimit);
        }
        Ok((self.page_number, FavoriteOrder::Mr))
    }

    /// How many favorites are read so far.
    pub fn len(&self) -> (n: usize)
        ensures
            n == self@.items.len(),
    {
        self.items.len()
    }

    /// The favorites read so far.
    pub fn items(&self) -> (r: &Vec<FavoriteComic>)
        ensures
            comic_views(r@) == self@.items,
    {
        &self.items
    }

    /// How many favorites are read, of how many reported.
    pub fn progress(&self) -> (r: (i64, i64))
        requires
            self@.items.len() <= i64::MAX,
        ensures
            r.0 == self@.items.len(),
            r.1 == match self@.expected_total {
                Some(t) => t as int,
                None => 0,
            },
    {
        let total: i64 = match self.expected_total {
            Some(t) => t as i64,
            None => 0,
        };
        (self.items.len() as i64, total)
    }

    /// Reads one page into the snapshot (see `absorbed`).
    pub fn absorb(self, page: FavoritePage) -> (r: Result<RemoteSnapshot, SnapshotFault>)
        ensures
            match r {
                Ok(s) => absorbed(self@, page.total, comic_views(page.items@)) == Ok::<
                    SnapshotView,
                    SnapshotFault,
                >(s@) && snapshot_wf(s@),
                Err(f) => absorbed(self@, page.total, comic_views(page.items@)) == Err::<
                    SnapshotView,
                    SnapshotFault,
                >(f),
            },
    {
        proof {
            use_type_invariant(&self);
        }
        match self.expected_total {
            Some(t) => if t != page.total {
                return Err(SnapshotFault::TotalChanged);
            },
            None => {},
        }
        let ghost start = self@;
        let ghost page_views = comic_views(page.items@);
        let ghost page_total = page.total;
        let RemoteSnapshot { page_number, expected_total: _, items: mut acc, last_page_len: _ } =
            self;
        let before = acc.len();
        let mut i: usize = 0;
        while i < page.items.len()
            invariant
                i <= page.items.len(),
                start == self@,
                page_total == page.total,
                !(start.expected_total is Some && start.expected_total != Some(page.total)),
                page_views == comic_views(page.items@),
                snapshot_wf(SnapshotView { items: comic_views(acc@), ..start }),
                merged(start.items, page_views.take(i as int)) == Some(comic_views(acc@)),
                before == start.items.len(),
                start.items.len() <= acc.len(),
            decreases page.items.len() - i,
        {
            let c = &page.items[i];
            let id = text::trim_string(c.id.as_str());
            let ghost taken = page_views.take(i + 1);
            proof {
                assert(taken.drop_last() == page_views.take(i as int));
                assert(taken.last() == c@);
            }
            if !text::is_digit_id_str(id.as_str()) {
                proof {
                    assert(text::trimmed(taken.last().id) == id@);
                    assert(merged(start.items, taken) is None);
                    lemma_merged_none_stays(start.items, page_views, i as int + 1);
                    assert(page_views.take(page_views.len() as int) == page_views);
                    assert(merged(start.items, page_views) is None);
                }
                return Err(SnapshotFault::InvalidComicId);
            }
            if !ids_contain(&acc, &id) {
                let ghost old_acc = comic_views(acc@);
                let item = FavoriteComic {
                    id,
                    name: c.name.clone(),
                    author: c.author.clone(),
                    description: c.description.clone(),
                    image: c.image.clone(),
                    tags: text::clone_strings(&c.tags),
                };
                let ghost iv = item@;
                acc.push(item);
                proof {
                    assert(comic_views(acc@) == old_acc.push(iv));
                    assert(comic_ids(comic_views(acc@)) == comic_ids(old_acc).push(iv.id));
                    let ids = comic_ids(comic_views(acc@));
                    let old_ids = comic_ids(old_acc);
                    assert forall|a: int, b: int|
                        0 <= a < ids.len() && 0 <= b < ids.len() && a != b implies ids[a]
                        != ids[b] by {
                        if a < old_ids.len() && b < old_ids.len() {
                            assert(ids[a] == old_ids[a]);
                            assert(ids[b] == old_ids[b]);
                        } else if a < old_ids.len() {
                            assert(ids[a] == old_ids[a]);
                            assert(old_ids.contains(old_ids[a]));
                        } else {
                            assert(ids[b] == old_ids[b]);
                            assert(old_ids.contains(old_ids[b]));
                        }
                    }
                    assert forall|k: int|
                        0 <= k < comic_views(acc@).len() implies text::is_digit_id(
                        #[trigger] comic_views(acc@)[k].id,
                    ) by {
                        if k < old_acc.len() {
                            assert(comic_views(acc@)[k] == old_acc[k]);
                        }
                    }
                }
            }
            i = i + 1;
        }
        proof {
            assert(page_views.take(page.items.len() as int) == page_views);
        }
        if page.items.len() > 0 && acc.len() == before {
            return Err(SnapshotFault::NoProgress);
        }
        Ok(
            RemoteSnapshot {
                page_number,
                expected_total: Some(page.total),
                items: acc,
                last_page_len: page.items.len(),
            },
        )
    }

    /// Decides, after a page, whether the snapshot is complete (see `advanced`).
    pub fn advance(self) -> (r: Result<SnapshotStep, SnapshotFault>)
        requires
            self@.page_number <= MAX_REMOTE_PAGES,
        ensures
            match r {
                Ok(SnapshotStep::More(s)) => advanced(self@) == Ok::<
                    (SnapshotView, bool),
                    SnapshotFault,
                >((s@, false)),
                Ok(SnapshotStep::Complete(s)) => advanced(self@) == Ok::<
                    (SnapshotView, bool),
                    SnapshotFault,
                >((s@, true)),
                Err(f) => advanced(self@) == Err::<(SnapshotView, bool), SnapshotFault>(f),
            },
    {
        proof {
            use_type_invariant(&self);
        }
        let total: usize = match self.expected_total {
            Some(t) => t as usize,
            None => 0,
        };
        let read = self.items.len();
        if total > 0 && read >= total {
            if read != total {
                return Err(SnapshotFault::CountExceeded);
            }
            return Ok(SnapshotStep::Complete(self));
        }
        if self.last_page_len < REMOTE_PAGE_SIZE {
            if total > 0 && read != total {
                return Err(SnapshotFault::Incomplete);
            }
            return Ok(SnapshotStep::Complete(self));
        }
        let RemoteSnapshot { page_number, expected_total, items, last_page_len } = self;
        Ok(
            SnapshotStep::More(
                RemoteSnapshot { page_number: page_number + 1, expected_total, items, last_page_len },
            ),
        )
    }

    /// The favorites of the snapshot (see `snapshot_favorites`), stamped from
    /// `base`.
    pub fn into_favorites_at(self, base: i64) -> (r: Vec<FavoriteItem>)
        requires
            self@.items.len() <= i64::MAX,
        ensures
            crate::application::favorite::item_views(r@) == snapshot_favorites(
                self@.items,
                base,
            ),
            r.len() == self@.items.len(),
            forall|k: int|
                0 <= k < r.len() ==> {
                    &&& (#[trigger] r@[k]).comic_id@ == self@.items[k].id
                    &&& r@[k].title@ == self@.items[k].name
                    &&& r@[k].author@ == self@.items[k].author
                    &&& r@[k].description@ == self@.items[k].description
                    &&& r@[k].image@ == self@.items[k].image
                    &&& text::texts(r@[k].tags@) == self@.items[k].tags
                },
    {
        let ghost views = self@.items;
        let RemoteSnapshot { page_number: _, expected_total: _, items, last_page_len: _ } = self;
        let mut out: Vec<FavoriteItem> = Vec::new();
        let mut i: usize = 0;
        while i < items.len()
            invariant
                i <= items.len(),
                items.len() <= i64::MAX,
                views == comic_views(items@),
                crate::application::favorite::item_views(out@) == snapshot_favorites(
                    views,
                    base,
                ).take(i as int),
            decreases items.len() - i,
        {
            let c = &items[i];
            let favorited_at: i64 = if base >= i64::MIN + (i as i64) {
                base - (i as i64)
            } else {
                i64::MIN
            };
            let item = FavoriteItem {
                comic_id: c.id.clone(),
                title: c.name.clone(),
                author: c.author.clone(),
                description: c.description.clone(),
                image: c.image.clone(),
                tags: text::clone_strings(&c.tags),
                favorited_at,
            };
            let ghost before = out@;
            out.push(item);
            proof {
                assert(crate::application::favorite::item_views(out@)
                    == crate::application::favorite::item_views(before).push(item@));
                assert(snapshot_favorites(views, base).take(i + 1) == snapshot_favorites(
                    views,
                    base,
                ).take(i as int).push(snapshot_favorites(views, base)[i as int]));
                assert(item@ == snapshot_favorites(views, base)[i as int]);
            }
            i = i + 1;
        }
        assert(snapshot_favorites(views, base).take(items.len() as int) == snapshot_favorites(
            views,
            base,
        ));
        proof {
            assert forall|k: int| 0 <= k < out.len() implies {
                &&& (#[trigger] out@[k]).comic_id@ == views[k].id
                &&& out@[k].title@ == views[k].name
                &&& out@[k].author@ == views[k].author
                &&& out@[k].description@ == views[k].description
                &&& out@[k].image@ == views[k].image
                &&& text::texts(out@[k].tags@) == views[k].tags
            } by {
                assert(crate::application::favorite::item_views(out@)[k] == out@[k]@);
                assert(out@[k]@ == snapshot_favorites(views, base)[k]);
            }
        }
        out
    }

    /// The favorites of the snapshot, stamped down from the time the clock
    /// reads.
    pub fn into_favorites(self) -> (r: Vec<FavoriteItem>)
        requires
            self@.items.len() <= i64::MAX,
        ensures
            exists|base: i64|
                crate::application::favorite::item_views(r@) == #[trigger] snapshot_favorites(
                    self@.items,
                    base,
                ),
            r.len() == self@.items.len(),
            forall|k: int|
                0 <= k < r.len() ==> {
                    &&& (#[trigger] r@[k]).comic_id@ == self@.items[k].id
                    &&& r@[k].title@ == self@.items[k].name
                    &&& r@[k].author@ == self@.items[k].author
                    &&& r@[k].description@ == self@.items[k].description
                    &&& r@[k].image@ == self@.items[k].image
                    &&& text::texts(r@[k].tags@) == self@.items[k].tags
                },
    {
        self.into_favorites_at(clock::now())
    }
}

/// Once an id fails, merging more of the page still fails.
proof fn lemma_merged_none_stays(acc: Seq<FavoriteComicView>, page: Seq<FavoriteComicView>, k: int)
    requires
        0 <= k <= page.len(),
        merged(acc, page.take(k)) is None,
    ensures
        merged(acc, page) is None,
    decreases page.len() - k,
{
    if k < page.len() {
        assert(page.take(k + 1).drop_last() == page.take(k));
        lemma_merged_none_stays(acc, page, k + 1);
    } else {
        assert(page.take(k) == page);
    }
}

} // verus!

verus! {

/// Merging a page keeps what was read before, first and unchanged, and adds
/// only the page's favorites, each with its id trimmed; afterwards every
/// id of the page is present. It fails exactly when some id of the page is
/// not a run of digits once trimmed.
pub proof fn lemma_merging_a_page(acc: Seq<FavoriteComicView>, page: Seq<FavoriteComicView>)
    ensures
        merged(acc, page) is None <==> exists|k: int|
            0 <= k < page.len() && !text::is_digit_id(text::trimmed((#[trigger] page[k]).id)),
        merged(acc, page) matches Some(m) ==> {
            &&& acc.len() <= m.len() <= acc.len() + page.len()
            &&& forall|i: int| 0 <= i < acc.len() ==> #[trigger] m[i] == acc[i]
            &&& forall|k: int|
                0 <= k < page.len() ==> comic_ids(m).contains(
                    text::trimmed((#[trigger] page[k]).id),
                )
            &&& forall|j: int|
                #![trigger m[j]]
                acc.len() <= j < m.len() ==> exists|k: int|
                    #![trigger page[k]]
                    0 <= k < page.len() && m[j] == (FavoriteComicView {
                        id: text::trimmed(page[k].id),
                        ..page[k]
                    })
        },
    decreases page.len(),
{
    if page.len() > 0 {
        let prev = page.drop_last();
        lemma_merging_a_page(acc, prev);
        let c = page.last();
        let id = text::trimmed(c.id);
        assert(page[page.len() - 1] == c);
        assert forall|k: int| 0 <= k < prev.len() implies #[trigger] page[k] == prev[k] by {}
        match merged(acc, prev) {
            None => {
                let k = choose|k: int|
                    0 <= k < prev.len() && !text::is_digit_id(text::trimmed((#[trigger] prev[k]).id));
                assert(page[k] == prev[k]);
            },
            Some(a) => {
                if !text::is_digit_id(id) {
                } else {
                    assert forall|k: int|
                        0 <= k < page.len() implies text::is_digit_id(
                        text::trimmed((#[trigger] page[k]).id),
                    ) by {
                        if k < prev.len() {
                            assert(page[k] == prev[k]);
                        }
                    }
                    let m = merged(acc, page)->0;
                    if comic_ids(a).contains(id) {
                        assert(m == a);
                        assert forall|k: int|
                            0 <= k < page.len() implies comic_ids(m).contains(
                            text::trimmed((#[trigger] page[k]).id),
                        ) by {
                            if k < prev.len() {
                                assert(page[k] == prev[k]);
                            }
                        }
                        assert forall|j: int| #![trigger m[j]] acc.len() <= j < m.len() implies exists|k: int|
                            #![trigger page[k]]
                            0 <= k < page.len() && m[j] == (FavoriteComicView {
                                id: text::trimmed(page[k].id),
                                ..page[k]
                            }) by {
                            let k = choose|k: int|
                                #![trigger prev[k]]
                                0 <= k < prev.len() && a[j] == (FavoriteComicView {
                                    id: text::trimmed(prev[k].id),
                                    ..prev[k]
                                });
                            assert(page[k] == prev[k]);
                        }
                    } else {
                        let nc = FavoriteComicView { id, ..c };
                        assert(m == a.push(nc));
                        assert(comic_ids(m) == comic_ids(a).push(id));
                        assert(comic_ids(m)[m.len() - 1] == id);
                        assert forall|k: int|
                            0 <= k < page.len() implies comic_ids(m).contains(
                            text::trimmed((#[trigger] page[k]).id),
                        ) by {
                            if k < prev.len() {
                                assert(page[k] == prev[k]);
                                let t = text::trimmed(prev[k].id);
                                assert(comic_ids(a).contains(t));
                                let i = choose|i: int| 0 <= i < comic_ids(a).len() && comic_ids(a)[i] == t;
                                assert(comic_ids(m)[i] == comic_ids(a)[i]);
                            }
                        }
                        assert forall|j: int| #![trigger m[j]] acc.len() <= j < m.len() implies exists|k: int|
                            #![trigger page[k]]
                            0 <= k < page.len() && m[j] == (FavoriteComicView {
                                id: text::trimmed(page[k].id),
                                ..page[k]
                            }) by {
                            if j < a.len() {
                                let k = choose|k: int|
                                    #![trigger prev[k]]
                                    0 <= k < prev.len() && a[j] == (FavoriteComicView {
                                        id: text::trimmed(prev[k].id),
                                        ..prev[k]
                                    });
                                assert(page[k] == prev[k]);
                                assert(m[j] == a[j]);
                            } else {
                                assert(m[j] == nc);
                                assert(page[page.len() - 1] == c);
                            }
                        }
                        assert forall|i: int| 0 <= i < acc.len() implies #[trigger] m[i] == acc[i] by {
                            assert(m[i] == a[i]);
                        }
                    }
                }
            },
        }
    }
}

/// After a page the snapshot completes when the reported total is read, or
/// after a short page; passing the total, or a short page that falls short of
/// it, is a fault; otherwise the next page is the one after, and nothing read
/// changes.
pub proof fn lemma_advancing_after_a_page(s: SnapshotView)
    ensures
        ({
            let total: int = match s.expected_total {
                Some(t) => t as int,
                None => 0,
            };
            &&& (advanced(s) == Err::<(SnapshotView, bool), SnapshotFault>(
                SnapshotFault::CountExceeded) <==> (total > 0 && s.items.len() > total))
            &&& (advanced(s) == Err::<(SnapshotView, bool), SnapshotFault>(
                SnapshotFault::Incomplete) <==> (s.items.len() < total && s.last_page_len
                < REMOTE_PAGE_SIZE))
            &&& (advanced(s) matches Ok((n, more)) ==> (!more ==> {
                &&& (s.page_number < u32::MAX ==> n.page_number == s.page_number + 1)
                &&& n.items == s.items
                &&& n.expected_total == s.expected_total
                &&& s.last_page_len >= REMOTE_PAGE_SIZE
                &&& (total == 0 || s.items.len() < total)
            }))
            &&& (s.last_page_len >= REMOTE_PAGE_SIZE && (total == 0 || s.items.len() < total)
                && s.page_number < u32::MAX ==> advanced(s) matches Ok((_, false)))
        }),
{
}

/// Reading a page refuses a total that differs from the one reported before,
/// a page with an id that is not a run of digits, and a page that adds
/// nothing new; otherwise it records the page's total and length, stays on
/// the same page number and merges the page into what was read.
pub proof fn lemma_absorbing_a_page(s: SnapshotView, total: u32, page: Seq<FavoriteComicView>)
    ensures
        absorbed(s, total, page) == Err::<SnapshotView, SnapshotFault>(SnapshotFault::TotalChanged)
            <==> (s.expected_total is Some && s.expected_total != Some(total)),
        absorbed(s, total, page) matches Ok(n) ==> {
            &&& n.expected_total == Some(total)
            &&& n.page_number == s.page_number
            &&& n.last_page_len == page.len()
            &&& merged(s.items, page) == Some(n.items)
            &&& (page.len() > 0 ==> n.items.len() > s.items.len())
        },
        absorbed(s, total, page) is Ok ==> forall|k: int|
            0 <= k < page.len() ==> text::is_digit_id(text::trimmed((#[trigger] page[k]).id)),
{
    lemma_merging_a_page(s.items, page);
}

/// The favorites made from a snapshot are its upstream items, one for one and
/// in the same order: each keeps its item's id, name (as the title), author,
/// description, image and tags, and is stamped `k` milliseconds before `base`
/// (never later than `base`), so an item listed earlier upstream is never
/// older than one listed after it.
pub proof fn lemma_favorites_keep_upstream_items(items: Seq<FavoriteComicView>, base: i64)
    ensures
        snapshot_favorites(items, base).len() == items.len(),
        forall|k: int|
            0 <= k < items.len() ==> {
                let f = #[trigger] snapshot_favorites(items, base)[k];
                &&& f.comic_id == items[k].id
                &&& f.title == items[k].name
                &&& f.author == items[k].author
                &&& f.description == items[k].description
                &&& f.image == items[k].image
                &&& f.tags == items[k].tags
                &&& f.favorited_at <= base
                &&& (base - k >= i64::MIN ==> f.favorited_at == base - k)
            },
        forall|j: int, k: int|
            0 <= j < k < items.len() ==> snapshot_favorites(items, base)[j].favorited_at
                >= snapshot_favorites(items, base)[k].favorited_at,
{
}

/// A snapshot is complete only when it holds as many favorites as the
/// upstream service reported, or, when none were reported, after a short page.
pub proof fn lemma_complete_snapshot_holds_the_total(s: SnapshotView)
    ensures
        advanced(s) matches Ok((n, true)) ==> {
            let total = match n.expected_total {
                Some(t) => t as nat,
                None => 0,
            };
            &&& n == s
            &&& (total == 0 || n.items.len() == total)
            &&& (total == 0 ==> n.last_page_len < REMOTE_PAGE_SIZE)
        },
{
}

} // verus!
