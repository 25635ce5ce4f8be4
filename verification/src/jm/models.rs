//! Normalized models of the upstream comic service, and the payload shapes
//! they are built from.
use crate::text;
use vstd::prelude::*;

verus! {

broadcast use vstd::string::group_string_axioms;

/// The order in which the upstream service lists an account's favorites:
/// `Mr` by when they were favorited, `Mp` by when the comic was updated.
#[derive(Clone, Copy, Debug, PartialEq, Eq, Structural)]
pub enum FavoriteOrder {
    Mr,
    Mp,
}

impl Default for FavoriteOrder {
    fn default() -> (r: Self)
        ensures
            r == FavoriteOrder::Mr,
    {
        FavoriteOrder::Mr
    }
}

impl FavoriteOrder {
    /// The name the upstream service knows the order by.
    pub fn as_str(self) -> (s: &'static str)
        ensures
            s@ == match self {
                FavoriteOrder::Mr => "mr"@,
                FavoriteOrder::Mp => "mp"@,
            },
    {
        match self {
            FavoriteOrder::Mr => "mr",
            FavoriteOrder::Mp => "mp",
        }
    }
}

/// Comic basic info (used in lists, search results).
#[derive(Debug, Clone)]
pub struct Comic {
    pub id: String,
    pub name: String,
    pub author: String,
    pub description: String,
    pub image: String,
    pub tags: Vec<String>,
}

/// Search result.
#[derive(Debug)]
pub struct SearchResult {
    pub total: u32,
    pub content: Vec<Comic>,
    pub redirect_aid: Option<String>,
}

/// Home feed section.
#[derive(Debug)]
pub struct HomeSection {
    pub id: String,
    pub title: String,
    pub slug: String,
    pub section_type: String,
    pub filter_val: String,
    pub content: Vec<Comic>,
}

/// A comic in an account's upstream favorites.
#[derive(Debug, Clone)]
pub struct FavoriteComic {
    pub id: String,
    pub name: String,
    pub author: String,
    pub description: String,
    pub image: String,
    pub tags: Vec<String>,
}

/// An upstream favorite with its texts as character sequences.
pub struct FavoriteComicView {
    pub id: Seq<char>,
    pub name: Seq<char>,
    pub author: Seq<char>,
    pub description: Seq<char>,
    pub image: Seq<char>,
    pub tags: Seq<Seq<char>>,
}

impl View for FavoriteComic {
    type V = FavoriteComicView;

    open spec fn view(&self) -> FavoriteComicView {
        FavoriteComicView {
            id: self.id@,
            name: self.name@,
            author: self.author@,
            description: self.description@,
            image: self.image@,
            tags: text::texts(self.tags@),
        }
    }
}

impl FavoriteComic {
    /// A copy of the favorite.
    pub fn duplicate(&self) -> (r: FavoriteComic)
        ensures
            r@ == self@,
    {
        FavoriteComic {
            id: self.id.clone(),
            name: self.name.clone(),
            author: self.author.clone(),
            description: self.description.clone(),
            image: self.image.clone(),
            tags: text::clone_strings(&self.tags),
        }
    }
}

/// One page of an account's upstream favorites, and how many there are in all.
#[derive(Debug)]
pub struct FavoritePage {
    pub total: u32,
    pub items: Vec<FavoriteComic>,
}

/// A comic as the upstream service sends it in lists.
pub struct ComicPayload {
    pub id: String,
    pub name: String,
    pub author: String,
    pub description: String,
    pub image: String,
    pub tags: Vec<String>,
}

/// A category that the upstream service files a favorite under.
pub struct FavoriteCategoryPayload {
    pub title: String,
}

/// A favorite as the upstream service sends it.
pub struct FavoriteComicPayload {
    pub id: String,
    pub name: String,
    pub author: String,
    pub description: String,
    pub image: String,
    pub category: Option<FavoriteCategoryPayload>,
    pub category_sub: Option<FavoriteCategoryPayload>,
}

impl Comic {
    /// The comic that a list payload describes, field for field.
    pub fn from_payload(p: ComicPayload) -> (c: Comic)
        ensures
            c.id == p.id,
            c.name == p.name,
            c.author == p.author,
            c.description == p.description,
            c.image == p.image,
            c.tags == p.tags,
    {
        Comic {
            id: p.id,
            name: p.name,
            author: p.author,
            description: p.description,
            image: p.image,
            tags: p.tags,
        }
    }
}

/// The trimmed title of a category, when there is one.
pub open spec fn category_title(c: Option<FavoriteCategoryPayload>) -> Option<Seq<char>> {
    match c {
        Some(cat) => Some(text::trimmed(cat.title@)),
        None => None,
    }
}

/// `tags` with `title` added at the end, unless it is absent, empty or there
/// already.
pub open spec fn add_tag(tags: Seq<Seq<char>>, title: Option<Seq<char>>) -> Seq<Seq<char>> {
    match title {
        Some(t) => if t.len() > 0 && !tags.contains(t) {
            tags.push(t)
        } else {
            tags
        },
        None => tags,
    }
}

/// The tags of a favorite: the trimmed titles of its category and its
/// sub-category, in that order, leaving out empty ones and repeats.
pub open spec fn favorite_tags(
    category: Option<FavoriteCategoryPayload>,
    category_sub: Option<FavoriteCategoryPayload>,
) -> Seq<Seq<char>> {
    add_tag(add_tag(Seq::empty(), category_title(category)), category_title(category_sub))
}

fn push_category_title(tags: &mut Vec<String>, category: Option<FavoriteCategoryPayload>)
    ensures
        text::texts(final(tags)@) == add_tag(text::texts(old(tags)@), category_title(category)),
{
    match category {
        Some(cat) => {
            let title = text::trim_string(cat.title.as_str());
            if title.as_str().unicode_len() > 0 && !text::strings_contain(tags, &title) {
                let ghost before = tags@;
                tags.push(title);
                assert(text::texts(tags@) == text::texts(before).push(title@));
            }
        },
        None => {},
    }
}

impl FavoriteComic {
    /// The favorite that an upstream payload describes; its tags are the
    /// payload's category titles (see `favorite_tags`).
    pub fn from_payload(payload: FavoriteComicPayload) -> (c: FavoriteComic)
        ensures
            c.id == payload.id,
            c.name == payload.name,
            c.author == payload.author,
            c.description == payload.description,
            c.image == payload.image,
            text::texts(c.tags@) == favorite_tags(payload.category, payload.category_sub),
    {
        let FavoriteComicPayload { id, name, author, description, image, category, category_sub } =
            payload;
        let mut tags: Vec<String> = Vec::new();
        assert(text::texts(tags@) == Seq::<Seq<char>>::empty());
        push_category_title(&mut tags, category);
        push_category_title(&mut tags, category_sub);
        FavoriteComic { id, name, author, description, image, tags }
    }
}

/// The tags of a favorite are its categories' titles, trimmed: the
/// category's title comes first when it is not empty, the sub-category's is
/// there too when it is not empty, and no other tag is.
pub proof fn lemma_favorite_tags_are_the_category_titles(
    category: Option<FavoriteCategoryPayload>,
    category_sub: Option<FavoriteCategoryPayload>,
)
    ensures
        ({
            let tags = favorite_tags(category, category_sub);
            &&& (category matches Some(c) ==> (text::trimmed(c.title@).len() > 0 ==> tags.len()
                >= 1 && tags[0] == text::trimmed(c.title@)))
            &&& (category_sub matches Some(c) ==> (text::trimmed(c.title@).len() > 0
                ==> tags.contains(text::trimmed(c.title@))))
            &&& forall|i: int|
                0 <= i < tags.len() ==> (category matches Some(c) && #[trigger] tags[i]
                    == text::trimmed(c.title@)) || (category_sub matches Some(c) && tags[i]
                    == text::trimmed(c.title@))
            &&& (category is None && category_sub is None ==> tags.len() == 0)
        }),
{
    let first = add_tag(Seq::empty(), category_title(category));
    let tags = favorite_tags(category, category_sub);
    if let Some(c) = category_sub {
        let t = text::trimmed(c.title@);
        if t.len() > 0 {
            if first.contains(t) {
            } else {
                assert(tags[tags.len() - 1] == t);
            }
        }
    }
}

/// The tags of a favorite are never empty and never repeat, and there are at
/// most two of them.
pub proof fn lemma_favorite_tags_distinct(
    category: Option<FavoriteCategoryPayload>,
    category_sub: Option<FavoriteCategoryPayload>,
)
    ensures
        ({
            let tags = favorite_tags(category, category_sub);
            &&& tags.len() <= 2
            &&& tags.no_duplicates()
            &&& forall|i: int| 0 <= i < tags.len() ==> (#[trigger] tags[i]).len() > 0
        }),
{
    let first = add_tag(Seq::empty(), category_title(category));
    let tags = favorite_tags(category, category_sub);
    if tags.len() == 2 {
        assert(first.len() == 1);
        assert(tags[0] == first[0]);
        assert(!first.contains(tags[1]));
        assert(tags[0] != tags[1]) by {
            assert(first[0] == tags[0]);
        }
    }
}

} // verus!
