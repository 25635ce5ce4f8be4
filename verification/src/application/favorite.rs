//! Local favorites: the item a favorite is stored as, the row it is kept in,
//! paging, and reading requested favorites back in the caller's order.
use crate::clock;
use crate::json_text;
use crate::text;
use vstd::prelude::*;

verus! {

broadcast use vstd::string::group_string_axioms;

/// A favorite kept on this server.
#[derive(Debug, Clone)]
pub struct FavoriteItem {
    pub comic_id: String,
    pub title: String,
    pub author: String,
    pub description: String,
    pub image: String,
    pub tags: Vec<String>,
    pub favorited_at: i64,
}

/// What a client sends to favorite a comic.
#[derive(Debug, Clone)]
pub struct FavoriteInput {
    pub title: String,
    pub author: String,
    pub description: String,
    pub image: String,
    pub tags: Vec<String>,
}

/// A favorite as its table row holds it: the tags as JSON text.
pub struct FavoriteRow {
    pub comic_id: String,
    pub title: String,
    pub author: String,
    pub description: String,
    pub image: String,
    pub tags: String,
    pub favorited_at: i64,
}

pub struct FavoriteItemView {
    pub comic_id: Seq<char>,
    pub title: Seq<char>,
    pub author: Seq<char>,
    pub description: Seq<char>,
    pub image: Seq<char>,
    pub tags: Seq<Seq<char>>,
    pub favorited_at: i64,
}

impl View for FavoriteItem {
    type V = FavoriteItemView;

    open spec fn view(&self) -> FavoriteItemView {
        FavoriteItemView {
            comic_id: self.comic_id@,
            title: self.title@,
            author: self.author@,
            description: self.description@,
            image: self.image@,
            tags: text::texts(self.tags@),
            favorited_at: self.favorited_at,
        }
    }
}

/// A row whose tags text could not be read as a list of strings.
#[derive(Clone, Copy, Debug, PartialEq, Eq, Structural)]
pub enum FavoriteStoreError {
    MalformedTags,
}

/// The views of a list of favorites.
pub open spec fn item_views(items: Seq<FavoriteItem>) -> Seq<FavoriteItemView> {
    items.map_values(|i: FavoriteItem| i@)
}

/// The ids of a list of favorites.
pub open spec fn item_ids(items: Seq<FavoriteItemView>) -> Seq<Seq<char>> {
    items.map_values(|i: FavoriteItemView| i.comic_id)
}

impl FavoriteItem {
    /// A copy of the item.
    pub fn duplicate(&self) -> (r: FavoriteItem)
        ensures
            r@ == self@,
    {
        let tags = text::clone_strings(&self.tags);
        FavoriteItem {
            comic_id: self.comic_id.clone(),
            title: self.title.clone(),
            author: self.author.clone(),
            description: self.description.clone(),
            image: self.image.clone(),
            tags,
            favorited_at: self.favorited_at,
        }
    }

    /// The item a stored row describes, its tags read from their JSON text.
    pub fn from_row(row: FavoriteRow) -> (r: Result<FavoriteItem, FavoriteStoreError>)
        ensures
            match r {
                Ok(item) => {
                    &&& item.comic_id == row.comic_id
                    &&& item.title == row.title
                    &&& item.author == row.author
                    &&& item.description == row.description
                    &&& item.image == row.image
                    &&& item.favorited_at == row.favorited_at
                    &&& json_text::json_string_list_of(row.tags@) == Some(text::texts(item.tags@))
                },
                Err(e) => e == FavoriteStoreError::MalformedTags && json_text::json_string_list_of(
                    row.tags@,
                ) is None,
            },
    {
        match json_text::decode_string_list(row.tags.as_str()) {
            Ok(tags) => Ok(
                FavoriteItem {
                    comic_id: row.comic_id,
                    title: row.title,
                    author: row.author,
                    description: row.description,
                    image: row.image,
                    tags,
                    favorited_at: row.favorited_at,
                },
            ),
            Err(_) => Err(FavoriteStoreError::MalformedTags),
        }
    }

    /// The row the item is stored as, its tags written as JSON text.
    pub fn to_row(&self) -> (row: FavoriteRow)
        ensures
            row.comic_id@ == self.comic_id@,
            row.title@ == self.title@,
            row.author@ == self.author@,
            row.description@ == self.description@,
            row.image@ == self.image@,
            row.favorited_at == self.favorited_at,
            row.tags@ == json_text::json_string_list_text(text::texts(self.tags@)),
            json_text::json_string_list_of(row.tags@) == Some(text::texts(self.tags@)),
    {
        let tags = json_text::encode_string_list(&self.tags).unwrap();
        FavoriteRow {
            comic_id: self.comic_id.clone(),
            title: self.title.clone(),
            author: self.author.clone(),
            description: self.description.clone(),
            image: self.image.clone(),
            tags,
            favorited_at: self.favorited_at,
        }
    }
}

/// The favorite a client's input makes of a comic, stamped with the time it
/// was favorited.
pub fn new_favorite(comic_id: &str, input: FavoriteInput) -> (item: FavoriteItem)
    ensures
        item.comic_id@ == comic_id@,
        item.title == input.title,
        item.author == input.author,
        item.description == input.description,
        item.image == input.image,
        item.tags == input.tags,
{
    let favorited_at = clock::now();
    FavoriteItem {
        comic_id: text::owned(comic_id),
        title: input.title,
        author: input.author,
        description: input.description,
        image: input.image,
        tags: input.tags,
        favorited_at,
    }
}

/// How many rows come before the first one of `page` (counted from 1) when a
/// page holds `page_size` rows.
pub fn page_offset(page: u32, page_size: u32) -> (offset: i64)
    requires
        page >= 1,
        (page - 1) * page_size <= i64::MAX,
    ensures
        offset == (page - 1) * page_size,
{
    let before = (page - 1) as i64;
    before * (page_size as i64)
}

/// The last of `items` whose id is `id`.
pub open spec fn last_with_id(items: Seq<FavoriteItemView>, id: Seq<char>) -> Option<
    FavoriteItemView,
>
    decreases items.len(),
{
    if items.len() == 0 {
        None
    } else if items.last().comic_id == id {
        Some(items.last())
    } else {
        last_with_id(items.drop_last(), id)
    }
}

/// The favorites among `items` that `ids` asks for, in the order of `ids`:
/// for each id its last item, once, and nothing for an id with no item.
pub open spec fn in_requested_order(ids: Seq<Seq<char>>, items: Seq<FavoriteItemView>) -> Seq<
    FavoriteItemView,
>
    decreases ids.len(),
{
    if ids.len() == 0 {
        Seq::empty()
    } else {
        let earlier = in_requested_order(ids.drop_last(), items);
        let id = ids.last();
        if ids.drop_last().contains(id) {
            earlier
        } else {
            match last_with_id(items, id) {
                Some(item) => earlier.push(item),
                None => earlier,
            }
        }
    }
}

/// The index of the last of `items` whose id is `id`.
fn find_last_with_id(items: &Vec<FavoriteItem>, id: &String) -> (r: Option<usize>)
    ensures
        match r {
            Some(j) => j < items.len() && last_with_id(item_views(items@), id@) == Some(
                items@[j as int]@,
            ),
            None => last_with_id(item_views(items@), id@) is None,
        },
{
    let mut j = items.len();
    assert(item_views(items@).take(j as int) == item_views(items@));
    while j > 0
        invariant
            j <= items.len(),
            last_with_id(item_views(items@), id@) == last_with_id(
                item_views(items@).take(j as int),
                id@,
            ),
        decreases j,
    {
        let ghost prefix = item_views(items@).take(j as int);
        assert(prefix.drop_last() == item_views(items@).take(j - 1));
        assert(prefix.last() == items@[j - 1]@);
        if items[j - 1].comic_id == *id {
            return Some(j - 1);
        }
        j = j - 1;
    }
    None
}

/// True when one of `ids[..k]` equals `id`.
fn occurs_before(ids: &Vec<String>, k: usize, id: &String) -> (b: bool)
    requires
        k <= ids.len(),
    ensures
        b == text::texts(ids@).take(k as int).contains(id@),
{
    let mut i: usize = 0;
    while i < k
        invariant
            i <= k <= ids.len(),
            forall|m: int| 0 <= m < i ==> ids@[m]@ != id@,
        decreases k - i,
    {
        if ids[i] == *id {
            assert(text::texts(ids@).take(k as int)[i as int] == id@);
            return true;
        }
        i = i + 1;
    }
    assert forall|m: int| 0 <= m < k implies text::texts(ids@).take(k as int)[m] != id@ by {
        assert(text::texts(ids@).take(k as int)[m] == ids@[m]@);
    }
    false
}

/// Reads the requested favorites back in the caller's order (see
/// `in_requested_order`).
pub fn by_ids_in_order(ids: &Vec<String>, items: &Vec<FavoriteItem>) -> (r: Vec<FavoriteItem>)
    ensures
        item_views(r@) == in_requested_order(text::texts(ids@), item_views(items@)),
{
    let mut out: Vec<FavoriteItem> = Vec::new();
    let mut k: usize = 0;
    while k < ids.len()
        invariant
            k <= ids.len(),
            item_views(out@) == in_requested_order(
                text::texts(ids@).take(k as int),
                item_views(items@),
            ),
        decreases ids.len() - k,
    {
        let ghost asked = text::texts(ids@).take(k + 1);
        assert(asked.drop_last() == text::texts(ids@).take(k as int));
        assert(asked.last() == ids@[k as int]@);
        if !occurs_before(ids, k, &ids[k]) {
            match find_last_with_id(items, &ids[k]) {
                Some(j) => {
                    let item = items[j].duplicate();
                    let ghost before = out@;
                    out.push(item);
                    assert(item_views(out@) == item_views(before).push(item@));
                },
                None => {},
            }
        }
        k = k + 1;
    }
    assert(text::texts(ids@).take(ids.len() as int) == text::texts(ids@));
    out
}

} // verus!

verus! {

/// Reading favorites by id gives each requested favorite once, as the last
/// stored item with that id, never one that was not asked for.
pub proof fn lemma_requested_order_is_faithful(ids: Seq<Seq<char>>, items: Seq<FavoriteItemView>)
    ensures
        ({
            let r = in_requested_order(ids, items);
            &&& item_ids(r).no_duplicates()
            &&& forall|k: int|
                0 <= k < r.len() ==> ids.contains(#[trigger] r[k].comic_id) && last_with_id(
                    items,
                    r[k].comic_id,
                ) == Some(r[k])
        }),
    decreases ids.len(),
{
    if ids.len() > 0 {
        let prev_ids = ids.drop_last();
        lemma_requested_order_is_faithful(prev_ids, items);
        let earlier = in_requested_order(prev_ids, items);
        let r = in_requested_order(ids, items);
        let id = ids.last();
        assert forall|k: int| 0 <= k < earlier.len() implies ids.contains(
            #[trigger] earlier[k].comic_id,
        ) by {
            let m = choose|m: int| 0 <= m < prev_ids.len() && prev_ids[m] == earlier[k].comic_id;
            assert(ids[m] == prev_ids[m]);
        }
        if !prev_ids.contains(id) {
            match last_with_id(items, id) {
                Some(item) => {
                    lemma_last_with_id_has_id(items, id);
                    assert(r == earlier.push(item));
                    assert(item.comic_id == id);
                    assert(ids[ids.len() - 1] == id);
                    assert forall|k: int| 0 <= k < earlier.len() implies earlier[k].comic_id
                        != id by {
                        if earlier[k].comic_id == id {
                            assert(prev_ids.contains(earlier[k].comic_id));
                        }
                    }
                    assert(item_ids(r) == item_ids(earlier).push(id));
                    assert forall|a: int, b: int|
                        0 <= a < item_ids(r).len() && 0 <= b < item_ids(r).len() && a
                            != b implies item_ids(r)[a] != item_ids(r)[b] by {
                        if a < earlier.len() && b < earlier.len() {
                            assert(item_ids(r)[a] == item_ids(earlier)[a]);
                            assert(item_ids(r)[b] == item_ids(earlier)[b]);
                        } else if a < earlier.len() {
                            assert(item_ids(r)[a] == earlier[a].comic_id);
                        } else {
                            assert(item_ids(r)[b] == earlier[b].comic_id);
                        }
                    }
                    assert forall|k: int| 0 <= k < r.len() implies ids.contains(
                        #[trigger] r[k].comic_id,
                    ) && last_with_id(items, r[k].comic_id) == Some(r[k]) by {
                        if k < earlier.len() {
                            assert(r[k] == earlier[k]);
                        }
                    }
                },
                None => {},
            }
        }
    }
}

/// Reading favorites by distinct ids gives at most one favorite per id, and
/// when it gives as many as there are ids, the k-th favorite is the one
/// stored last under the k-th id.
pub proof fn lemma_full_request_follows_ids(ids: Seq<Seq<char>>, items: Seq<FavoriteItemView>)
    requires
        ids.no_duplicates(),
    ensures
        in_requested_order(ids, items).len() <= ids.len(),
        in_requested_order(ids, items).len() == ids.len() ==> {
            &&& item_ids(in_requested_order(ids, items)) == ids
            &&& forall|k: int|
                0 <= k < ids.len() ==> last_with_id(items, ids[k]) == Some(
                    #[trigger] in_requested_order(ids, items)[k],
                )
        },
    decreases ids.len(),
{
    if ids.len() > 0 {
        let prev = ids.drop_last();
        let id = ids.last();
        assert forall|a: int, b: int|
            0 <= a < prev.len() && 0 <= b < prev.len() && a != b implies prev[a] != prev[b] by {
            assert(prev[a] == ids[a] && prev[b] == ids[b]);
        }
        lemma_full_request_follows_ids(prev, items);
        if prev.contains(id) {
            let m = choose|m: int| 0 <= m < prev.len() && prev[m] == id;
            assert(ids[m] == ids[ids.len() - 1]);
        }
        let earlier = in_requested_order(prev, items);
        let r = in_requested_order(ids, items);
        match last_with_id(items, id) {
            Some(item) => {
                lemma_last_with_id_has_id(items, id);
                assert(r == earlier.push(item));
                if r.len() == ids.len() {
                    assert(ids == prev.push(id));
                    assert(item_ids(r) == item_ids(earlier).push(id));
                    assert forall|k: int| 0 <= k < ids.len() implies last_with_id(
                        items,
                        ids[k],
                    ) == Some(#[trigger] r[k]) by {
                        if k < prev.len() {
                            assert(r[k] == earlier[k]);
                            assert(ids[k] == prev[k]);
                        }
                    }
                }
            },
            None => {
                assert(r == earlier);
            },
        }
    }
}

/// Looking up an id finds a stored favorite exactly when one has that id,
/// and then finds the last stored one with it.
pub proof fn lemma_last_with_id_finds_the_last(items: Seq<FavoriteItemView>, id: Seq<char>)
    ensures
        last_with_id(items, id) is None <==> forall|j: int|
            0 <= j < items.len() ==> (#[trigger] items[j]).comic_id != id,
        last_with_id(items, id) matches Some(x) ==> exists|j: int|
            0 <= j < items.len() && #[trigger] items[j] == x && x.comic_id == id && forall|m: int|
                j < m < items.len() ==> (#[trigger] items[m]).comic_id != id,
    decreases items.len(),
{
    if items.len() > 0 {
        let prev = items.drop_last();
        lemma_last_with_id_finds_the_last(prev, id);
        assert forall|j: int| 0 <= j < prev.len() implies #[trigger] prev[j] == items[j] by {}
        if items.last().comic_id == id {
            let j = items.len() - 1;
            assert(items[j] == items.last());
        } else {
            if let Some(x) = last_with_id(prev, id) {
                let j = choose|j: int|
                    0 <= j < prev.len() && #[trigger] prev[j] == x && x.comic_id == id && forall|
                        m: int,
                    | j < m < prev.len() ==> (#[trigger] prev[m]).comic_id != id;
                assert(items[j] == x);
                assert forall|m: int| j < m < items.len() implies (#[trigger] items[m]).comic_id
                    != id by {
                    if m < prev.len() {
                        assert(items[m] == prev[m]);
                    }
                }
            }
            assert((forall|j: int| 0 <= j < items.len() ==> (#[trigger] items[j]).comic_id != id)
                <==> (forall|j: int| 0 <= j < prev.len() ==> (#[trigger] prev[j]).comic_id != id))
                by {
                if forall|j: int| 0 <= j < prev.len() ==> (#[trigger] prev[j]).comic_id != id {
                    assert forall|j: int| 0 <= j < items.len() implies (#[trigger] items[j]).comic_id
                        != id by {
                        if j < prev.len() {
                            assert(items[j] == prev[j]);
                        } else {
                            assert(items[j] == items.last());
                        }
                    }
                }
            }
        }
    }
}

/// Reading favorites by id lists, for every requested id that a stored
/// favorite has, the last stored favorite with that id.
pub proof fn lemma_requested_order_finds_every_stored_id(
    ids: Seq<Seq<char>>,
    items: Seq<FavoriteItemView>,
)
    ensures
        forall|k: int|
            0 <= k < ids.len() ==> (last_with_id(items, #[trigger] ids[k]) matches Some(x)
                ==> in_requested_order(ids, items).contains(x)),
    decreases ids.len(),
{
    if ids.len() > 0 {
        let prev = ids.drop_last();
        lemma_requested_order_finds_every_stored_id(prev, items);
        let earlier = in_requested_order(prev, items);
        let r = in_requested_order(ids, items);
        let id = ids.last();
        assert(r == earlier || (last_with_id(items, id) matches Some(x) && r == earlier.push(x)));
        assert forall|k: int| 0 <= k < ids.len() implies (last_with_id(items, #[trigger] ids[k]) matches Some(
            x,
        ) ==> r.contains(x)) by {
            if let Some(x) = last_with_id(items, ids[k]) {
                if k < prev.len() {
                    assert(ids[k] == prev[k]);
                    assert(earlier.contains(x));
                    let m = choose|m: int| 0 <= m < earlier.len() && earlier[m] == x;
                    assert(r[m] == earlier[m]);
                } else if prev.contains(id) {
                    let m = choose|m: int| 0 <= m < prev.len() && prev[m] == id;
                    assert(earlier.contains(x));
                    let q = choose|q: int| 0 <= q < earlier.len() && earlier[q] == x;
                    assert(r == earlier);
                    assert(r[q] == x);
                } else {
                    assert(r == earlier.push(x));
                    assert(r[r.len() - 1] == x);
                }
            }
        }
    }
}

/// The item `last_with_id` finds has the id it was looked up by.
proof fn lemma_last_with_id_has_id(items: Seq<FavoriteItemView>, id: Seq<char>)
    ensures
        last_with_id(items, id) matches Some(item) ==> item.comic_id == id,
    decreases items.len(),
{
    if items.len() > 0 && items.last().comic_id != id {
        lemma_last_with_id_has_id(items.drop_last(), id);
    }
}

} // verus!
