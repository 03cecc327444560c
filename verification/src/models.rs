//! The data exchanged between a novel source and the Bunori host.
use vstd::prelude::*;
use std::collections::HashMap;

verus! {

/// Description of a source: its identity, site and runner settings.
#[derive(Debug, Clone)]
pub struct SourceMetadata {
    pub id: String,
    pub name: String,
    pub version: String,
    pub api_version: i32,
    pub lang: String,
    pub base_url: String,
    pub icon_path: Option<String>,
    pub icon_url: Option<String>,
    pub authors: Vec<String>,
    pub is_deprecated: bool,
    pub deprecation_reason: Option<String>,
    pub suggested_alternative: Option<String>,
    pub webview_needed: bool,
    pub runner_concurrency: i32,
    pub runner_cooldown: i64,
    pub max_attempts: i32,
}

/// One novel in a search result or a listing page.
#[derive(Debug, Clone)]
pub struct SearchResultDto {
    pub url: String,
    pub title: String,
    pub cover_url: Option<String>,
    pub author: Option<String>,
}

/// One chapter of a novel.
#[derive(Debug, Clone)]
pub struct ChapterDto {
    pub url: String,
    pub title: String,
    pub index: i32,
    pub release_date: Option<String>,
    pub scanlation: Option<String>,
}

/// Full details of a novel.
#[derive(Debug, Clone)]
pub struct NovelDto {
    pub url: String,
    pub title: String,
    pub author: Option<String>,
    pub cover_url: Option<String>,
    pub description: Option<String>,
    pub status: Option<String>,
    pub genres: Vec<String>,
    pub chapters: Vec<ChapterDto>,
    pub extra: HashMap<String, String>,
}

/// A browse listing offered by a source.
#[derive(Debug, Clone)]
pub struct ListingDto {
    pub id: String,
    pub name: String,
}

/// An HTTP request as the host receives it.
#[derive(Debug, Clone)]
pub struct HttpRequest {
    pub url: String,
    pub method: String,
    pub headers: HashMap<String, String>,
    pub body: Option<String>,
}

/// An HTTP response as the host returns it.
#[derive(Debug, Clone)]
pub struct HttpResponse {
    pub status_code: i32,
    pub headers: HashMap<String, String>,
    pub body: String,
}

/// Mathematical value of a [`SearchResultDto`].
pub struct SearchResultView {
    pub url: Seq<char>,
    pub title: Seq<char>,
    pub cover_url: Option<Seq<char>>,
    pub author: Option<Seq<char>>,
}

/// Mathematical value of a [`ChapterDto`].
pub struct ChapterView {
    pub url: Seq<char>,
    pub title: Seq<char>,
    pub index: i32,
    pub release_date: Option<Seq<char>>,
    pub scanlation: Option<Seq<char>>,
}

/// Mathematical value of a [`ListingDto`].
pub struct ListingView {
    pub id: Seq<char>,
    pub name: Seq<char>,
}

/// Mathematical value of a [`NovelDto`], without its `extra` map.
pub struct NovelView {
    pub url: Seq<char>,
    pub title: Seq<char>,
    pub author: Option<Seq<char>>,
    pub cover_url: Option<Seq<char>>,
    pub description: Option<Seq<char>>,
    pub status: Option<Seq<char>>,
    pub genres: Seq<Seq<char>>,
    pub chapters: Seq<ChapterView>,
}

impl DeepView for SearchResultDto {
    type V = SearchResultView;

    open spec fn deep_view(&self) -> SearchResultView {
        SearchResultView {
            url: self.url@,
            title: self.title@,
            cover_url: self.cover_url.deep_view(),
            author: self.author.deep_view(),
        }
    }
}

impl DeepView for ChapterDto {
    type V = ChapterView;

    open spec fn deep_view(&self) -> ChapterView {
        ChapterView {
            url: self.url@,
            title: self.title@,
            index: self.index,
            release_date: self.release_date.deep_view(),
            scanlation: self.scanlation.deep_view(),
        }
    }
}

impl DeepView for ListingDto {
    type V = ListingView;

    open spec fn deep_view(&self) -> ListingView {
        ListingView { id: self.id@, name: self.name@ }
    }
}

impl DeepView for NovelDto {
    type V = NovelView;

    open spec fn deep_view(&self) -> NovelView {
        NovelView {
            url: self.url@,
            title: self.title@,
            author: self.author.deep_view(),
            cover_url: self.cover_url.deep_view(),
            description: self.description.deep_view(),
            status: self.status.deep_view(),
            genres: self.genres.deep_view(),
            chapters: self.chapters.deep_view(),
        }
    }
}

/// A copy of a list of listings.
pub fn clone_listings(v: &Vec<ListingDto>) -> (r: Vec<ListingDto>)
    ensures
        r.deep_view() == v.deep_view(),
{
    let mut r: Vec<ListingDto> = Vec::new();
    let mut i: usize = 0;
    while i < v.len()
        invariant
            i <= v.len(),
            r@.len() == i,
            forall|j: int| 0 <= j < i ==> r@[j].deep_view() == v@[j].deep_view(),
        decreases v.len() - i,
    {
        r.push(ListingDto { id: v[i].id.clone(), name: v[i].name.clone() });
        i += 1;
    }
    assert(r.deep_view() =~= v.deep_view());
    r
}

/// A listing entry with the given id and display name.
pub fn listing(id: &str, name: &str) -> (l: ListingDto)
    ensures
        l.id@ == id@,
        l.name@ == name@,
{
    ListingDto { id: String::from_str(id), name: String::from_str(name) }
}

/// A map of strings by the characters of its keys and values.
pub open spec fn extra_view(m: HashMap<String, String>) -> Map<Seq<char>, Seq<char>> {
    Map::new(
        |k: Seq<char>| exists|s: String| #[trigger] m@.contains_key(s) && s@ == k,
        |k: Seq<char>| m@[choose|s: String| #[trigger] m@.contains_key(s) && s@ == k]@,
    )
}

/// The map of a list of key/value pairs, a later pair replacing an earlier
/// one with the same key.
pub open spec fn pairs_map(es: Seq<(Seq<char>, Seq<char>)>) -> Map<Seq<char>, Seq<char>>
    decreases es.len(),
{
    if es.len() == 0 {
        Map::empty()
    } else {
        pairs_map(es.drop_last()).insert(es.last().0, es.last().1)
    }
}

/// Collects key/value pairs with distinct keys into a `HashMap` (std's
/// `FromIterator for HashMap`): the map holds each pair.
#[verifier::external_body]
pub(crate) fn map_of_pairs(entries: Vec<(String, String)>) -> (r: HashMap<String, String>)
    requires
        forall|i: int, j: int| 0 <= i < j < entries@.len() ==> entries@[i].0@ != entries@[j].0@,
    ensures
        extra_view(r) == pairs_map(entries@.map_values(|p: (String, String)| (p.0@, p.1@))),
{
    entries.into_iter().collect()
}

} // verus!
