//! The NovelArchive source: a JSON API with a primary chapter list and
//! chapters from external sources.
use vstd::prelude::*;
use crate::fetch::{get_request, get_spec, lit, Request, RequestView};
use crate::json::{ji64, jstr, JsonValue};
use crate::models::{ChapterDto, ChapterView, ListingDto, ListingView, NovelDto, NovelView, SearchResultDto, SearchResultView};
use crate::readnovelfull::chapter_n;
use crate::sort::{stable_sort, stable_sorted, SortKey};
use crate::text::{
    chars_of, concat2, contains_text, dec, dec_exec, filter_some, find, find_exec, join, join_exec,
    lemma_filter_some_step, lemma_find, os, ov, parse_i32, parse_i32_exec, push_all, replace,
    replace_exec, slice_exec, starts_with, starts_with_exec, str_eq, string_of, trim, trim_exec,
    udec_exec, vviews,
};
use crate::words::{
    lemma_split_char_nonempty, split_char, split_char_exec, utf8_len, utf8_len_exec,
};

verus! {

// ---------------------------------------------------------------------------
// API records (filled by the host from the API's JSON)
// ---------------------------------------------------------------------------
/// A novel of a search or listing response.
pub struct NaSearchNovel {
    pub id: String,
    pub title: String,
    pub author: Option<String>,
    pub cover_url: Option<String>,
    pub novel_image: Option<String>,
    pub image_url: Option<String>,
}

/// The `novel` object of a detail response.
pub struct NaNovelDetail {
    pub title: Option<String>,
    pub author: Option<String>,
    pub cover_url: Option<String>,
    pub description: Option<String>,
    pub chapter_names: Vec<String>,
    pub total_chapters: Option<JsonValue>,
    pub sources: Vec<NaSourceItem>,
}

/// An external source of chapters.
pub struct NaSourceItem {
    pub id: String,
    pub label: Option<String>,
    pub name: Option<String>,
}

/// A chapter of an external source.
pub struct NaSourceChapter {
    pub number: Option<i32>,
    pub chapter_number: Option<i32>,
    pub index: Option<i32>,
    pub title: Option<String>,
    pub name: Option<String>,
    pub url: Option<String>,
}

/// A chapter response.
pub struct NaChapterResponse {
    pub chapter: Option<NaChapterContent>,
    pub content_html: Option<String>,
    pub content: Option<String>,
}

/// The `chapter` object of a chapter response.
pub struct NaChapterContent {
    pub content_html: Option<String>,
    pub content: Option<String>,
}

/// The empty source struct; its methods take the site's base URL.
#[derive(Debug, Clone, Copy)]
pub struct NovelArchiveSource;

// ---------------------------------------------------------------------------
// Specifications
// ---------------------------------------------------------------------------
/// `a.or(b)`.
pub open spec fn or_else(a: Option<Seq<char>>, b: Option<Seq<char>>) -> Option<Seq<char>> {
    match a {
        Some(x) => Some(x),
        None => b,
    }
}

/// The novel id of a novel URL: what follows the first `id=` up to the next
/// `&`; else the last `/`-separated segment when it is 24 bytes long.
pub open spec fn na_extract_id(url: Seq<char>) -> Option<Seq<char>> {
    match find(url, "id="@) {
        Some(idx) => {
            let rest = url.subrange(idx + 3, url.len() as int);
            match find(rest, seq!['&']) {
                Some(end) => Some(rest.subrange(0, end)),
                None => Some(rest),
            }
        },
        None => {
            let last = split_char(url, '/').last();
            if utf8_len(last) == 24 {
                Some(last)
            } else {
                None
            }
        },
    }
}

/// A rooted image path gets the base URL.
pub open spec fn na_abs(base: Seq<char>, c: Seq<char>) -> Seq<char> {
    if starts_with(c, "/"@) {
        base + c
    } else {
        c
    }
}

pub open spec fn na_search_entry(base: Seq<char>, n: NaSearchNovel) -> SearchResultView {
    SearchResultView {
        url: base + "/novel?id="@ + n.id@,
        title: n.title@,
        cover_url: match or_else(or_else(os(n.cover_url), os(n.novel_image)), os(n.image_url)) {
            Some(c) => Some(na_abs(base, c)),
            None => None,
        },
        author: os(n.author),
    }
}

pub open spec fn na_search_results(base: Seq<char>, novels: Seq<NaSearchNovel>) -> Seq<SearchResultView> {
    novels.map_values(|n: NaSearchNovel| na_search_entry(base, n))
}

pub open spec fn na_search_url(base: Seq<char>, query: Seq<char>) -> Seq<char> {
    base + "/api/novels?search="@ + replace(query, " "@, "+"@) + "&fuzzy=1"@
}

pub open spec fn na_excluded_genres() -> Seq<char> {
    "adult,smut,mature,erotica,ecchi,hentai,explicit,sexual+content,nsfw,r-18,lewd,pornographic"@
}

/// The sort order of a listing id.
pub open spec fn na_sort(listing_id: Seq<char>) -> Seq<char> {
    if listing_id == "recent"@ || listing_id == "latest"@ {
        "recent"@
    } else if listing_id == "rating"@ || listing_id == "top-rated"@ {
        "rating"@
    } else if listing_id == "chapters"@ {
        "chapters"@
    } else {
        "popular"@
    }
}

/// A listing page: `genre_{slug}` ids list a genre, other ids a sort order;
/// adult genres are always excluded.
pub open spec fn na_listing_url(base: Seq<char>, listing_id: Seq<char>, page: i32) -> Seq<char> {
    if starts_with(listing_id, "genre_"@) {
        base + "/api/novels?genres_include="@ + listing_id.subrange(6, listing_id.len() as int)
            + "&genres_exclude="@ + na_excluded_genres() + "&page="@ + dec(page as int)
            + "&per_page=24"@
    } else {
        base + "/api/novels?sort="@ + na_sort(listing_id) + "&genres_exclude="@
            + na_excluded_genres() + "&page="@ + dec(page as int) + "&per_page=24"@
    }
}

pub open spec fn na_listings() -> Seq<ListingView> {
    seq![
        ListingView { id: "popular"@, name: "Popular"@ },
        ListingView { id: "recent"@, name: "Latest Updates"@ },
        ListingView { id: "rating"@, name: "Top Rated"@ },
        ListingView { id: "chapters"@, name: "Most Chapters"@ },
    ]
}

/// `{base}/api/novels/{id}`.
pub open spec fn na_novel_api(base: Seq<char>, id: Seq<char>) -> Seq<char> {
    base + "/api/novels/"@ + id
}

/// URL of primary chapter `number`.
pub open spec fn na_primary_url(base: Seq<char>, id: Seq<char>, number: int) -> Seq<char> {
    na_novel_api(base, id) + "/chapters/"@ + dec(number)
}

/// The total chapter count: a string that parses as `i32`, or a number
/// (truncated to `i32`); 0 otherwise.
pub open spec fn na_total(t: Option<JsonValue>) -> i32 {
    match t {
        Some(v) => match jstr(v) {
            Some(s) => match parse_i32(s) {
                Some(n) => n,
                None => 0,
            },
            None => match ji64(v) {
                Some(n) => n as i32,
                None => 0,
            },
        },
        None => 0,
    }
}

/// Primary chapters: one per chapter name (a blank name becomes
/// `"Chapter {n}"`), or else `"Chapter 1"` to `"Chapter {total}"`; all
/// credited to the source itself.
pub open spec fn na_primary(base: Seq<char>, name: Seq<char>, id: Seq<char>, d: NaNovelDetail) -> Seq<
    ChapterView,
> {
    if d.chapter_names@.len() > 0 {
        d.chapter_names@.map(
            |i: int, nm: String|
                ChapterView {
                    url: na_primary_url(base, id, i + 1),
                    title: if trim(nm@).len() == 0 {
                        chapter_n(i + 1)
                    } else {
                        nm@
                    },
                    index: (i + 1) as i32,
                    release_date: None,
                    scanlation: Some(name),
                },
        )
    } else {
        let total = na_total(d.total_chapters);
        Seq::new(
            if total > 0 {
                total as nat
            } else {
                0
            },
            |k: int|
                ChapterView {
                    url: na_primary_url(base, id, k + 1),
                    title: chapter_n(k + 1),
                    index: (k + 1) as i32,
                    release_date: None,
                    scanlation: Some(name),
                },
        )
    }
}

/// The ids of a list of (id, label) pairs.
pub open spec fn source_ids(v: Seq<(Seq<char>, Seq<char>)>) -> Seq<Seq<char>> {
    v.map_values(|p: (Seq<char>, Seq<char>)| p.0)
}

/// The external sources to read, in order: trimmed ids, blank and repeated
/// ids skipped, each with its label (else its name, else its id).
pub open spec fn na_sources(items: Seq<NaSourceItem>) -> Seq<(Seq<char>, Seq<char>)>
    decreases items.len(),
{
    if items.len() == 0 {
        Seq::empty()
    } else {
        let prev = na_sources(items.drop_last());
        let src = items.last();
        let id = trim(src.id@);
        if id.len() == 0 || source_ids(prev).contains(id) {
            prev
        } else {
            let label = match or_else(os(src.label), os(src.name)) {
                Some(l) => l,
                None => id,
            };
            prev.push((id, label))
        }
    }
}

/// `{base}/api/novels/{id}/sources/{src}/chapters`.
pub open spec fn na_source_chapters_url(base: Seq<char>, id: Seq<char>, src: Seq<char>) -> Seq<char> {
    na_novel_api(base, id) + "/sources/"@ + src + "/chapters"@
}

/// Chapter `i` of an external source.
pub open spec fn na_source_chapter(
    base: Seq<char>,
    id: Seq<char>,
    src: (Seq<char>, Seq<char>),
    i: int,
    c: NaSourceChapter,
) -> ChapterView {
    let num: i32 = match c.number {
        Some(n) => n,
        None => match c.chapter_number {
            Some(n) => n,
            None => match c.index {
                Some(n) => n,
                None => (i + 1) as i32,
            },
        },
    };
    ChapterView {
        url: match os(c.url) {
            Some(u) => if starts_with(u, "http"@) {
                u
            } else {
                base + u
            },
            None => na_source_chapters_url(base, id, src.0) + "/"@ + dec(num as int),
        },
        title: match or_else(os(c.title), os(c.name)) {
            Some(t) => t,
            None => chapter_n(num as int),
        },
        index: num,
        release_date: None,
        scanlation: Some(src.1),
    }
}

pub open spec fn na_source_chapters(
    base: Seq<char>,
    id: Seq<char>,
    src: (Seq<char>, Seq<char>),
    chapters: Seq<NaSourceChapter>,
) -> Seq<ChapterView> {
    chapters.map(|i: int, c: NaSourceChapter| na_source_chapter(base, id, src, i, c))
}

// ---------------------------------------------------------------------------
// Fetching a novel's details: a state machine driven by the host
// ---------------------------------------------------------------------------
/// Where the reading of a novel stands.
pub struct NaFetch {
    pub novel_url: String,
    pub novel_id: String,
    pub title: String,
    pub author: Option<String>,
    pub cover_url: Option<String>,
    pub description: Option<String>,
    /// Chapters gathered so far, unsorted.
    pub chapters: Vec<ChapterDto>,
    /// The external sources to read: (id, label).
    pub sources: Vec<(String, String)>,
    /// How many of them have been asked for.
    pub next: usize,
    /// Whether the pending request is the novel's sources list (its answer
    /// goes to `on_sources`); otherwise it is an external source's chapters
    /// (its answer goes to `on_source_chapters`).
    pub awaiting_sources: bool,
}

pub struct NaFetchView {
    pub novel_url: Seq<char>,
    pub novel_id: Seq<char>,
    pub title: Seq<char>,
    pub author: Option<Seq<char>>,
    pub cover_url: Option<Seq<char>>,
    pub description: Option<Seq<char>>,
    pub chapters: Seq<ChapterView>,
    pub sources: Seq<(Seq<char>, Seq<char>)>,
    pub next: nat,
    pub awaiting_sources: bool,
}

impl View for NaFetch {
    type V = NaFetchView;

    open spec fn view(&self) -> NaFetchView {
        NaFetchView {
            novel_url: self.novel_url@,
            novel_id: self.novel_id@,
            title: self.title@,
            author: os(self.author),
            cover_url: os(self.cover_url),
            description: os(self.description),
            chapters: self.chapters.deep_view(),
            sources: self.sources@.map_values(|p: (String, String)| (p.0@, p.1@)),
            next: self.next as nat,
            awaiting_sources: self.awaiting_sources,
        }
    }
}

/// What the host is asked to do next.
pub enum NaStep {
    /// Fetch this URL and hand the result to the matching `on_...` method.
    Fetch(Request),
    /// The novel is complete.
    Done(NovelDto),
}

/// The request that follows a state: the next external source's chapters,
/// or nothing when all were asked for.
pub open spec fn na_next_request(base: Seq<char>, f: NaFetchView) -> Option<RequestView> {
    if f.next < f.sources.len() {
        Some(get_spec(na_source_chapters_url(base, f.novel_id, f.sources[f.next as int].0)))
    } else {
        None
    }
}

/// The finished novel of a state: its chapters sorted stably by index, then
/// by translator group.
pub open spec fn na_done(f: NaFetchView, n: NovelView) -> bool {
    &&& n.url == f.novel_url
    &&& n.title == f.title
    &&& n.author == f.author
    &&& n.cover_url == f.cover_url
    &&& n.description == f.description
    &&& n.status is None
    &&& n.genres.len() == 0
    &&& stable_sorted(SortKey::IndexThenScanlation, f.chapters, n.chapters)
}

/// `step` follows state `f`.
pub open spec fn na_step_ok(base: Seq<char>, f: NaFetchView, step: NaStep) -> bool {
    match step {
        NaStep::Fetch(r) => na_next_request(base, f) == Some(r@),
        NaStep::Done(n) => na_next_request(base, f) is None && na_done(f, n.deep_view()) && n.extra@
            == Map::<String, String>::empty(),
    }
}

// ---------------------------------------------------------------------------
// Implementation
// ---------------------------------------------------------------------------
fn na_abs_exec(base: &Vec<char>, c: &Vec<char>) -> (r: Vec<char>)
    ensures
        r@ == na_abs(base@, c@),
{
    if starts_with_exec(c, &lit("/")) {
        concat2(base, c)
    } else {
        c.clone()
    }
}

fn ostr(o: &Option<String>) -> (r: Option<Vec<char>>)
    ensures
        ov(r) == os(*o),
{
    match o {
        Some(s) => Some(chars_of(s.as_str())),
        None => None,
    }
}

fn clone_opt(o: &Option<String>) -> (r: Option<String>)
    ensures
        os(r) == os(*o),
{
    match o {
        Some(s) => Some(s.clone()),
        None => None,
    }
}

fn na_total_exec(t: &Option<JsonValue>) -> (n: i32)
    ensures
        n == na_total(*t),
{
    match t {
        Some(v) => match v.as_str() {
            Some(s) => match parse_i32_exec(&chars_of(s.as_str())) {
                Some(n) => n,
                None => 0,
            },
            None => match v.as_i64() {
                Some(n) => #[verifier::truncate] (n as i32),
                None => 0,
            },
        },
        None => 0,
    }
}

fn primary_url_exec(base: &Vec<char>, id: &Vec<char>, number: u64) -> (r: Vec<char>)
    ensures
        r@ == na_primary_url(base@, id@, number as int),
{
    let mut u = concat2(base, &lit("/api/novels/"));
    push_all(&mut u, id);
    push_all(&mut u, &lit("/chapters/"));
    push_all(&mut u, &udec_exec(number));
    proof {
        assert(crate::text::dec(number as int) == crate::text::udec(number as nat));
    }
    u
}

fn chapter_n_exec(n: i64) -> (r: Vec<char>)
    ensures
        r@ == chapter_n(n as int),
{
    concat2(&lit("Chapter "), &dec_exec(n))
}

impl NovelArchiveSource {
    /// See [`na_extract_id`].
    pub fn extract_id(url: &str) -> (r: Option<String>)
        ensures
            os(r) == na_extract_id(url@),
    {
        let u = chars_of(url);
        match find_exec(&u, &lit("id=")) {
            Some(idx) => {
                let n = u.len();
                proof {
                    lemma_find(u@, "id="@);
                    reveal_strlit("id=");
                }
                let rest = slice_exec(&u, idx + 3, n);
                let mut amp: Vec<char> = Vec::new();
                amp.push('&');
                assert(amp@ =~= seq!['&']);
                match find_exec(&rest, &amp) {
                    Some(end) => {
                        proof {
                            lemma_find(rest@, amp@);
                        }
                        Some(string_of(&slice_exec(&rest, 0, end)))
                    },
                    None => Some(string_of(&rest)),
                }
            },
            None => {
                let segs = split_char_exec(&u, '/');
                proof {
                    lemma_split_char_nonempty(u@, '/');
                }
                let last = &segs[segs.len() - 1];
                if utf8_len_exec(last) == 24 {
                    Some(string_of(last))
                } else {
                    None
                }
            },
        }
    }

    /// The search request (see [`na_search_url`]).
    pub fn search(base_url: &str, query: &str) -> (r: Request)
        ensures
            r@ == get_spec(na_search_url(base_url@, query@)),
    {
        proof {
            reveal_strlit(" ");
        }
        let mut u = chars_of(base_url);
        push_all(&mut u, &lit("/api/novels?search="));
        push_all(&mut u, &replace_exec(&chars_of(query), &lit(" "), &lit("+")));
        push_all(&mut u, &lit("&fuzzy=1"));
        get_request(&u)
    }

    /// The novels of a search or listing response.
    pub fn search_results(base_url: &str, novels: &Vec<NaSearchNovel>) -> (r: Vec<SearchResultDto>)
        ensures
            r.deep_view() == na_search_results(base_url@, novels@),
    {
        let base = chars_of(base_url);
        let mut r: Vec<SearchResultDto> = Vec::new();
        let mut i: usize = 0;
        while i < novels.len()
            invariant
                i <= novels.len(),
                base@ == base_url@,
                r@.len() == i,
                forall|k: int| 0 <= k < i ==> #[trigger] r@[k].deep_view() == na_search_entry(base@, novels@[k]),
            decreases novels.len() - i,
        {
            let n = &novels[i];
            let cover = match ostr(&n.cover_url) {
                Some(c) => Some(c),
                None => match ostr(&n.novel_image) {
                    Some(c) => Some(c),
                    None => ostr(&n.image_url),
                },
            };
            let cover_url = match cover {
                Some(c) => Some(string_of(&na_abs_exec(&base, &c))),
                None => None,
            };
            let url = concat2(&concat2(&base, &lit("/novel?id=")), &chars_of(n.id.as_str()));
            r.push(
                SearchResultDto {
                    url: string_of(&url),
                    title: n.title.clone(),
                    cover_url,
                    author: clone_opt(&n.author),
                },
            );
            i += 1;
        }
        assert(r.deep_view() =~= na_search_results(base_url@, novels@));
        r
    }

    /// The listings of the site.
    pub fn get_listings() -> (r: Vec<ListingDto>)
        ensures
            r.deep_view() == na_listings(),
    {
        let r = vec![
            crate::models::listing("popular", "Popular"),
            crate::models::listing("recent", "Latest Updates"),
            crate::models::listing("rating", "Top Rated"),
            crate::models::listing("chapters", "Most Chapters"),
        ];
        assert(r.deep_view() =~= na_listings());
        r
    }

    /// The request for a listing page (see [`na_listing_url`]).
    pub fn get_listing_novels(base_url: &str, listing_id: &str, page: i32) -> (r: Request)
        ensures
            r@ == get_spec(na_listing_url(base_url@, listing_id@, page)),
    {
        let id = chars_of(listing_id);
        let mut u = chars_of(base_url);
        if starts_with_exec(&id, &lit("genre_")) {
            proof {
                reveal_strlit("genre_");
            }
            push_all(&mut u, &lit("/api/novels?genres_include="));
            push_all(&mut u, &slice_exec(&id, 6, id.len()));
        } else {
            push_all(&mut u, &lit("/api/novels?sort="));
            let sort = if str_eq("recent", &id) || str_eq("latest", &id) {
                lit("recent")
            } else if str_eq("rating", &id) || str_eq("top-rated", &id) {
                lit("rating")
            } else if str_eq("chapters", &id) {
                lit("chapters")
            } else {
                lit("popular")
            };
            push_all(&mut u, &sort);
        }
        push_all(&mut u, &lit("&genres_exclude="));
        push_all(
            &mut u,
            &lit("adult,smut,mature,erotica,ecchi,hentai,explicit,sexual+content,nsfw,r-18,lewd,pornographic"),
        );
        push_all(&mut u, &lit("&page="));
        push_all(&mut u, &dec_exec(page as i64));
        push_all(&mut u, &lit("&per_page=24"));
        get_request(&u)
    }
}

/// The state after the detail response.
pub open spec fn na_after_detail(
    base: Seq<char>,
    name: Seq<char>,
    novel_url: Seq<char>,
    id: Seq<char>,
    d: NaNovelDetail,
) -> NaFetchView {
    NaFetchView {
        novel_url,
        novel_id: id,
        title: match os(d.title) {
            Some(t) => t,
            None => Seq::empty(),
        },
        author: os(d.author),
        cover_url: match os(d.cover_url) {
            Some(c) => Some(na_abs(base, c)),
            None => None,
        },
        description: os(d.description),
        chapters: na_primary(base, name, id, d),
        sources: na_sources(d.sources@),
        next: 0,
        awaiting_sources: d.sources@.len() == 0,
    }
}

pub open spec fn source_pairs(v: Seq<(String, String)>) -> Seq<(Seq<char>, Seq<char>)> {
    v.map_values(|p: (String, String)| (p.0@, p.1@))
}

fn na_sources_exec(items: &Vec<NaSourceItem>) -> (r: Vec<(String, String)>)
    ensures
        source_pairs(r@) == na_sources(items@),
{
    let mut ids: Vec<Vec<char>> = Vec::new();
    let mut r: Vec<(String, String)> = Vec::new();
    let mut i: usize = 0;
    assert(items@.take(0) =~= Seq::<NaSourceItem>::empty());
    while i < items.len()
        invariant
            i <= items.len(),
            source_pairs(r@) == na_sources(items@.take(i as int)),
            vviews(ids@) == source_ids(source_pairs(r@)),
        decreases items.len() - i,
    {
        proof {
            let t = items@.take(i + 1);
            assert(t.drop_last() =~= items@.take(i as int));
            assert(t.last() == items@[i as int]);
        }
        let src = &items[i];
        let id = trim_exec(&chars_of(src.id.as_str()));
        if id.len() > 0 && !contains_text(&ids, &id) {
            let label = match ostr(&src.label) {
                Some(l) => l,
                None => match ostr(&src.name) {
                    Some(n) => n,
                    None => id.clone(),
                },
            };
            let ghost before = source_pairs(r@);
            let ghost ids_before = vviews(ids@);
            r.push((string_of(&id), string_of(&label)));
            ids.push(id);
            assert(source_pairs(r@) =~= before.push((ids@[ids@.len() - 1]@, label@)));
            assert(vviews(ids@) =~= ids_before.push(ids@[ids@.len() - 1]@));
            assert(source_ids(source_pairs(r@)) =~= source_ids(before).push(ids@[ids@.len() - 1]@));
        }
        i += 1;
    }
    assert(items@.take(items.len() as int) =~= items@);
    r
}

fn na_primary_exec(base: &Vec<char>, name: &Vec<char>, id: &Vec<char>, d: &NaNovelDetail) -> (r: Vec<ChapterDto>)
    ensures
        r.deep_view() == na_primary(base@, name@, id@, *d),
{
    let mut r: Vec<ChapterDto> = Vec::new();
    if d.chapter_names.len() > 0 {
        let n = d.chapter_names.len();
        let mut i: usize = 0;
        while i < n
            invariant
                i <= n,
                n == d.chapter_names@.len(),
                n > 0,
                r@.len() == i,
                forall|k: int| 0 <= k < i ==> #[trigger] r@[k].deep_view() == na_primary(base@, name@, id@, *d)[k],
            decreases n - i,
        {
            let nm = chars_of(d.chapter_names[i].as_str());
            let title = if trim_exec(&nm).len() == 0 {
                concat2(&lit("Chapter "), &udec_exec((i + 1) as u64))
            } else {
                nm
            };
            r.push(
                ChapterDto {
                    url: string_of(&primary_url_exec(base, id, (i + 1) as u64)),
                    title: string_of(&title),
                    index: #[verifier::truncate] ((i + 1) as i32),
                    release_date: None,
                    scanlation: Some(string_of(name)),
                },
            );
            i += 1;
        }
    } else {
        let total = na_total_exec(&d.total_chapters);
        if total > 0 {
            let n = total as u64;
            let mut k: u64 = 0;
            while k < n
                invariant
                    k <= n,
                    n == na_total(d.total_chapters),
                    d.chapter_names@.len() == 0,
                    n <= i32::MAX,
                    r@.len() == k,
                    forall|j: int| 0 <= j < k ==> #[trigger] r@[j].deep_view() == na_primary(base@, name@, id@, *d)[j],
                decreases n - k,
            {
                r.push(
                    ChapterDto {
                        url: string_of(&primary_url_exec(base, id, k + 1)),
                        title: string_of(&concat2(&lit("Chapter "), &udec_exec(k + 1))),
                        index: (k + 1) as i32,
                        release_date: None,
                        scanlation: Some(string_of(name)),
                    },
                );
                k += 1;
            }
        }
    }
    assert(r.deep_view() =~= na_primary(base@, name@, id@, *d));
    r
}

fn na_source_chapters_url_exec(base: &Vec<char>, id: &Vec<char>, src: &Vec<char>) -> (r: Vec<char>)
    ensures
        r@ == na_source_chapters_url(base@, id@, src@),
{
    let mut u = concat2(base, &lit("/api/novels/"));
    push_all(&mut u, id);
    push_all(&mut u, &lit("/sources/"));
    push_all(&mut u, src);
    push_all(&mut u, &lit("/chapters"));
    u
}

impl NovelArchiveSource {
    /// The state machine's next step after `f` (see [`na_step_ok`]).
    fn advance(base_url: &str, f: &NaFetch) -> (step: NaStep)
        ensures
            na_step_ok(base_url@, f@, step),
    {
        if f.next < f.sources.len() {
            let base = chars_of(base_url);
            let src = chars_of(f.sources[f.next].0.as_str());
            let u = na_source_chapters_url_exec(&base, &chars_of(f.novel_id.as_str()), &src);
            NaStep::Fetch(get_request(&u))
        } else {
            let mut chapters: Vec<ChapterDto> = Vec::new();
            let mut i: usize = 0;
            while i < f.chapters.len()
                invariant
                    i <= f.chapters.len(),
                    chapters@.len() == i,
                    forall|k: int| 0 <= k < i ==> #[trigger] chapters@[k].deep_view() == f.chapters@[k].deep_view(),
                decreases f.chapters.len() - i,
            {
                let c = &f.chapters[i];
                chapters.push(
                    ChapterDto {
                        url: c.url.clone(),
                        title: c.title.clone(),
                        index: c.index,
                        release_date: clone_opt(&c.release_date),
                        scanlation: clone_opt(&c.scanlation),
                    },
                );
                i += 1;
            }
            assert(chapters.deep_view() =~= f.chapters.deep_view());
            let n = NovelDto {
                url: f.novel_url.clone(),
                title: f.title.clone(),
                author: clone_opt(&f.author),
                cover_url: clone_opt(&f.cover_url),
                description: clone_opt(&f.description),
                status: None,
                genres: Vec::new(),
                chapters: stable_sort(SortKey::IndexThenScanlation, chapters),
                extra: std::collections::HashMap::new(),
            };
            NaStep::Done(n)
        }
    }

    /// First step of reading a novel: its id and the request for its details.
    /// A URL without an id is an error.
    pub fn get_novel_details(base_url: &str, novel_url: &str) -> (r: Result<(String, Request), String>)
        ensures
            match r {
                Ok((id, req)) => na_extract_id(novel_url@) == Some(id@) && req@ == get_spec(
                    na_novel_api(base_url@, id@),
                ),
                Err(e) => na_extract_id(novel_url@) is None && e@ == "Could not extract novel ID from "@
                    + novel_url@,
            },
    {
        match Self::extract_id(novel_url) {
            Some(id) => {
                let u = concat2(&concat2(&chars_of(base_url), &lit("/api/novels/")), &chars_of(id.as_str()));
                Ok((id, get_request(&u)))
            },
            None => Err(string_of(&concat2(&lit("Could not extract novel ID from "), &chars_of(novel_url)))),
        }
    }

    /// The detail response (`None`: it has no `novel` object, an error).
    /// When the novel lists no external sources, the next step asks for them
    /// (answer with [`Self::on_sources`]); otherwise it reads them in turn.
    pub fn on_detail(
        base_url: &str,
        source_name: &str,
        novel_url: &str,
        novel_id: &str,
        detail: Option<NaNovelDetail>,
    ) -> (r: Result<(NaFetch, NaStep), String>)
        ensures
            match detail {
                None => r == Err::<(NaFetch, NaStep), String>(r->Err_0) && r->Err_0@ == "Missing 'novel' object in response"@,
                Some(d) => r is Ok && {
                    let (f, step) = r->Ok_0;
                    &&& f@ == na_after_detail(base_url@, source_name@, novel_url@, novel_id@, d)
                    &&& d.sources@.len() > 0 ==> na_step_ok(base_url@, f@, step)
                    &&& d.sources@.len() == 0 ==> (step matches NaStep::Fetch(q) && q@ == get_spec(
                        na_novel_api(base_url@, novel_id@) + "/sources"@,
                    ))
                },
            },
    {
        let d = match detail {
            None => return Err(String::from_str("Missing 'novel' object in response")),
            Some(d) => d,
        };
        let base = chars_of(base_url);
        let id = chars_of(novel_id);
        let name = chars_of(source_name);
        let cover_url = match ostr(&d.cover_url) {
            Some(c) => Some(string_of(&na_abs_exec(&base, &c))),
            None => None,
        };
        let title = match &d.title {
            Some(t) => t.clone(),
            None => String::new(),
        };
        let chapters = na_primary_exec(&base, &name, &id, &d);
        let sources = na_sources_exec(&d.sources);
        let f = NaFetch {
            novel_url: String::from_str(novel_url),
            novel_id: String::from_str(novel_id),
            title,
            author: clone_opt(&d.author),
            cover_url,
            description: clone_opt(&d.description),
            chapters,
            sources,
            next: 0,
            awaiting_sources: d.sources.len() == 0,
        };
        assert(f@.sources =~= na_sources(d.sources@));
        if d.sources.len() > 0 {
            let step = Self::advance(base_url, &f);
            Ok((f, step))
        } else {
            let u = concat2(&concat2(&concat2(&base, &lit("/api/novels/")), &id), &lit("/sources"));
            Ok((f, NaStep::Fetch(get_request(&u))))
        }
    }

    /// The response of the sources request (`None`: it failed or did not
    /// parse, and no external source is read).
    pub fn on_sources(base_url: &str, f: NaFetch, items: Option<Vec<NaSourceItem>>) -> (r: (NaFetch, NaStep))
        ensures
            r.0@ == (NaFetchView {
                sources: match items {
                    Some(v) => na_sources(v@),
                    None => Seq::empty(),
                },
                next: 0,
                awaiting_sources: false,
                ..f@
            }),
            na_step_ok(base_url@, r.0@, r.1),
    {
        let mut f = f;
        f.awaiting_sources = false;
        f.sources = match &items {
            Some(v) => na_sources_exec(v),
            None => Vec::new(),
        };
        f.next = 0;
        proof {
            if items is None {
                assert(source_pairs(f.sources@) =~= Seq::<(Seq<char>, Seq<char>)>::empty());
            }
        }
        let step = Self::advance(base_url, &f);
        (f, step)
    }

    /// The chapters of the external source that was asked for last (`None`:
    /// the request failed or did not parse, and it adds nothing). When every
    /// source was already read, the state stays as it is.
    pub fn on_source_chapters(base_url: &str, f: NaFetch, chapters: Option<Vec<NaSourceChapter>>) -> (r: (NaFetch, NaStep))
        ensures
            f@.next < f@.sources.len() ==> r.0@ == (NaFetchView {
                chapters: f@.chapters + match chapters {
                    Some(v) => na_source_chapters(base_url@, f@.novel_id, f@.sources[f@.next as int], v@),
                    None => Seq::empty(),
                },
                next: f@.next + 1,
                ..f@
            }),
            f@.next >= f@.sources.len() ==> r.0@ == f@,
            na_step_ok(base_url@, r.0@, r.1),
    {
        if f.next >= f.sources.len() {
            let step = Self::advance(base_url, &f);
            return (f, step);
        }
        let mut f = f;
        let base = chars_of(base_url);
        let ghost old_f = f@;
        assert(old_f.next < old_f.sources.len());
        match &chapters {
            Some(v) => {
                let id = chars_of(f.novel_id.as_str());
                let src_id = chars_of(f.sources[f.next].0.as_str());
                let label = chars_of(f.sources[f.next].1.as_str());
                let ghost src = f@.sources[f@.next as int];
                assert(src == (src_id@, label@));
                let mut i: usize = 0;
                while i < v.len()
                    invariant
                        i <= v.len(),
                        f.chapters.deep_view() == old_f.chapters + na_source_chapters(base@, id@, src, v@).take(i as int),
                        base@ == base_url@,
                        src == (src_id@, label@),
                        id@ == old_f.novel_id,
                        f@ == (NaFetchView { chapters: f@.chapters, ..old_f }),
                    decreases v.len() - i,
                {
                    let c = &v[i];
                    let num: i32 = match c.number {
                        Some(n) => n,
                        None => match c.chapter_number {
                            Some(n) => n,
                            None => match c.index {
                                Some(n) => n,
                                None => #[verifier::truncate] ((i + 1) as i32),
                            },
                        },
                    };
                    let url = match ostr(&c.url) {
                        Some(u) => if starts_with_exec(&u, &lit("http")) {
                            u
                        } else {
                            concat2(&base, &u)
                        },
                        None => {
                            let mut u = na_source_chapters_url_exec(&base, &id, &src_id);
                            u.push('/');
                            proof {
                                reveal_strlit("/");
                            }
                            concat2(&u, &dec_exec(num as i64))
                        },
                    };
                    let title = match ostr(&c.title) {
                        Some(t) => t,
                        None => match ostr(&c.name) {
                            Some(t) => t,
                            None => chapter_n_exec(num as i64),
                        },
                    };
                    let ch = ChapterDto {
                        url: string_of(&url),
                        title: string_of(&title),
                        index: num,
                        release_date: None,
                        scanlation: Some(string_of(&label)),
                    };
                    proof {
                        let e = na_source_chapter(base@, id@, src, i as int, v@[i as int]);
                        assert(ch.deep_view().index == e.index);
                        assert(ch.deep_view().title == e.title);
                        assert(ch.deep_view().url == e.url);
                        assert(ch.deep_view().scanlation == e.scanlation);
                        assert(ch.deep_view() == e);
                    }
                    let ghost before = f.chapters.deep_view();
                    f.chapters.push(ch);
                    assert(f.chapters.deep_view() =~= before.push(ch.deep_view()));
                    assert(na_source_chapters(base@, id@, src, v@).take(i + 1) =~= na_source_chapters(
                        base@,
                        id@,
                        src,
                        v@,
                    ).take(i as int).push(ch.deep_view()));
                    i += 1;
                }
                assert(na_source_chapters(base@, id@, src, v@).take(v.len() as int) =~= na_source_chapters(
                    base@,
                    id@,
                    src,
                    v@,
                ));
            },
            None => {
                assert(f.chapters.deep_view() =~= old_f.chapters + Seq::<ChapterView>::empty());
            },
        }
        let nsrc = f.sources.len();
        assert(f.next < nsrc);
        f.next = f.next + 1;
        let step = Self::advance(base_url, &f);
        (f, step)
    }
}

// ---------------------------------------------------------------------------
// Chapter content
// ---------------------------------------------------------------------------
/// Rooted `src="/...` and `src='/...` links made absolute.
pub open spec fn na_fix_src(s: Seq<char>, base: Seq<char>) -> Seq<char> {
    replace(replace(s, "src=\"/"@, "src=\""@ + base + "/"@), "src='/"@, "src='"@ + base + "/"@)
}

/// A line of plain text as a paragraph, blank lines dropped.
pub open spec fn na_paragraph(line: Seq<char>) -> Option<Seq<char>> {
    if trim(line).len() == 0 {
        None
    } else {
        Some("<p>"@ + trim(line) + "</p>"@)
    }
}

/// Plain text as HTML paragraphs, one per nonblank line, joined by newlines.
pub open spec fn na_paragraphs(text: Seq<char>) -> Seq<char> {
    join(filter_some(split_char(text, '\n').map_values(|l: Seq<char>| na_paragraph(l))), "\n"@)
}

/// Chapter text of a chapter response: its HTML (the chapter's, else the
/// response's), else its plain text as paragraphs; with rooted image links
/// made absolute.
pub open spec fn na_content(base: Seq<char>, resp: NaChapterResponse) -> Option<Seq<char>> {
    let html = match resp.chapter {
        Some(c) => or_else(os(c.content_html), os(resp.content_html)),
        None => os(resp.content_html),
    };
    match html {
        Some(h) => Some(na_fix_src(h, base)),
        None => {
            let text = match resp.chapter {
                Some(c) => or_else(os(c.content), os(resp.content)),
                None => os(resp.content),
            };
            match text {
                Some(t) => Some(na_fix_src(na_paragraphs(t), base)),
                None => None,
            }
        },
    }
}

fn na_fix_src_exec(s: &Vec<char>, base: &Vec<char>) -> (r: Vec<char>)
    ensures
        r@ == na_fix_src(s@, base@),
{
    proof {
        reveal_strlit("src=\"/");
        reveal_strlit("src='/");
    }
    let mut to1 = concat2(&lit("src=\""), base);
    to1.push('/');
    let mut to2 = concat2(&lit("src='"), base);
    to2.push('/');
    proof {
        reveal_strlit("/");
        assert(to1@ =~= "src=\""@ + base@ + "/"@);
        assert(to2@ =~= "src='"@ + base@ + "/"@);
    }
    let a = replace_exec(s, &lit("src=\"/"), &to1);
    replace_exec(&a, &lit("src='/"), &to2)
}

fn na_paragraphs_exec(text: &Vec<char>) -> (r: Vec<char>)
    ensures
        r@ == na_paragraphs(text@),
{
    let lines = split_char_exec(text, '\n');
    let ghost mapped = split_char(text@, '\n').map_values(|l: Seq<char>| na_paragraph(l));
    let mut ps: Vec<Vec<char>> = Vec::new();
    let mut i: usize = 0;
    while i < lines.len()
        invariant
            i <= lines@.len(),
            lines@.len() == split_char(text@, '\n').len(),
            forall|k: int| 0 <= k < lines@.len() ==> #[trigger] lines@[k]@ == split_char(text@, '\n')[k],
            mapped == split_char(text@, '\n').map_values(|l: Seq<char>| na_paragraph(l)),
            vviews(ps@) == filter_some(mapped.take(i as int)),
        decreases lines@.len() - i,
    {
        proof {
            lemma_filter_some_step(mapped, i as int);
        }
        let t = trim_exec(&lines[i]);
        if t.len() > 0 {
            let p = concat2(&concat2(&lit("<p>"), &t), &lit("</p>"));
            let ghost before = vviews(ps@);
            ps.push(p);
            assert(vviews(ps@) =~= before.push(p@));
        }
        i += 1;
    }
    assert(mapped.take(lines@.len() as int) =~= mapped);
    join_exec(&ps, &lit("\n"))
}

impl NovelArchiveSource {
    /// See [`na_content`].
    pub fn get_chapter_content(base_url: &str, resp: &NaChapterResponse) -> (r: Option<String>)
        ensures
            os(r) == na_content(base_url@, *resp),
    {
        let base = chars_of(base_url);
        let html = match &resp.chapter {
            Some(c) => match ostr(&c.content_html) {
                Some(h) => Some(h),
                None => ostr(&resp.content_html),
            },
            None => ostr(&resp.content_html),
        };
        match html {
            Some(h) => Some(string_of(&na_fix_src_exec(&h, &base))),
            None => {
                let text = match &resp.chapter {
                    Some(c) => match ostr(&c.content) {
                        Some(t) => Some(t),
                        None => ostr(&resp.content),
                    },
                    None => ostr(&resp.content),
                };
                match text {
                    Some(t) => Some(string_of(&na_fix_src_exec(&na_paragraphs_exec(&t), &base))),
                    None => None,
                }
            },
        }
    }
}

/// The external sources read for a novel have nonempty, pairwise distinct ids.
pub proof fn law_na_sources_distinct(items: Seq<NaSourceItem>)
    ensures
        forall|k: int| 0 <= k < na_sources(items).len() ==> (#[trigger] na_sources(items)[k]).0.len() > 0,
        forall|i: int, j: int|
            0 <= i < j < na_sources(items).len() ==> na_sources(items)[i].0 != na_sources(items)[j].0,
    decreases items.len(),
{
    if items.len() > 0 {
        law_na_sources_distinct(items.drop_last());
        let prev = na_sources(items.drop_last());
        let cur = na_sources(items);
        if cur.len() > prev.len() {
            assert forall|i: int, j: int| 0 <= i < j < cur.len() implies cur[i].0 != cur[j].0 by {
                assert(cur[i] == prev[i]);
                if j < prev.len() {
                    assert(cur[j] == prev[j]);
                } else {
                    assert(source_ids(prev)[i] == prev[i].0);
                }
            }
            assert forall|k: int| 0 <= k < cur.len() implies (#[trigger] cur[k]).0.len() > 0 by {
                if k < prev.len() {
                    assert(cur[k] == prev[k]);
                }
            }
        }
    }
}

/// The id of a novel link that the search results build is read back from
/// it, when the base has no `id=` and the id no `&`.
pub proof fn law_na_extract_id_of_novel_url(base: Seq<char>, id: Seq<char>)
    requires
        !crate::text::contains(base, "id="@),
        !crate::text::contains(id, seq!['&']),
    ensures
        na_extract_id(base + "/novel?id="@ + id) == Some(id),
{
    reveal_strlit("id=");
    reveal_strlit("/novel?id=");
    let u = base + "/novel?id="@ + id;
    let p = "id="@;
    let b = base.len() as int;
    crate::text::lemma_find(base, p);
    crate::text::lemma_find(u, p);
    assert(crate::text::matches_at(u, p, b + 7)) by {
        assert(u.subrange(b + 7, b + 10) =~= p);
    }
    assert forall|k: int| 0 <= k < b + 7 implies !crate::text::matches_at(u, p, k) by {
        if crate::text::matches_at(u, p, k) {
            let w = u.subrange(k, k + 3);
            assert(w == p);
            if k + 3 <= b {
                assert(w =~= base.subrange(k, k + 3));
                assert(crate::text::matches_at(base, p, k));
            } else if k < b {
                assert(w[2] == u[k + 2]);
                assert(u[k + 2] == "/novel?id="@[k + 2 - b]);
            } else {
                assert(w[0] == u[k]);
                assert(u[k] == "/novel?id="@[k - b]);
            }
        }
    }
    assert(find(u, p) == Some(b + 7));
    let rest = u.subrange(b + 10, u.len() as int);
    assert(rest =~= id);
    crate::text::lemma_find(id, seq!['&']);
}

/// The primary chapters of a novel with chapter names cover 1 to k, one per
/// name in order: chapter `j` has index `j + 1`, the chapter API URL of that
/// number, the source's name as scanlation, and the name as title (or
/// `"Chapter {j + 1}"` when the name is blank).
pub proof fn law_na_primary_numbered(base: Seq<char>, name: Seq<char>, id: Seq<char>, d: NaNovelDetail)
    requires
        d.chapter_names@.len() > 0,
    ensures
        na_primary(base, name, id, d).len() == d.chapter_names@.len(),
        forall|j: int|
            0 <= j < d.chapter_names@.len() ==> {
                let c = #[trigger] na_primary(base, name, id, d)[j];
                &&& c.index == (j + 1) as i32
                &&& c.url == na_primary_url(base, id, j + 1)
                &&& c.scanlation == Some(name)
                &&& c.title == if trim(d.chapter_names@[j]@).len() == 0 {
                    chapter_n(j + 1)
                } else {
                    d.chapter_names@[j]@
                }
            },
{
}

} // verus!
