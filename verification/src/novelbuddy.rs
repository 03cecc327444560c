//! The NovelBuddy source: a JSON API, and pages that embed their data in a
//! `__NEXT_DATA__` script.
use vstd::prelude::*;
use crate::dom::{compile_selector, inner_html, parse_document, select_all};
use crate::fetch::{get_request, get_spec, lit, Request, RequestView};
use crate::models::{ChapterDto, ChapterView, ListingDto, ListingView, NovelDto, NovelView, SearchResultDto, SearchResultView};
use crate::text::{chars_of, concat2, filter_some, find, find_exec, join, join_exec, lowercase, lowercase_exec, opt_string, or_empty, os, ov, push_all, replace, replace_exec, slice_exec, starts_with, starts_with_exec, str_eq, string_of, trim, trim_exec, vviews};
use crate::urls::{abs_http_concat, abs_http_concat_exec};
use crate::words::{lemma_split_char_nonempty, split_char, split_char_exec};

verus! {

/// Base URL of the NovelBuddy API.
pub open spec fn api_base() -> Seq<char> {
    "https://api.novelbuddy.me"@
}

// ---------------------------------------------------------------------------
// The `__NEXT_DATA__` script, found with the `regex` crate
// ---------------------------------------------------------------------------
/// The pattern of the script that holds a page's data.
pub open spec fn next_data_pattern() -> Seq<char> {
    "<script id=\"__NEXT_DATA__\"[^>]*>(.*?)</script>"@
}

/// What `regex::Regex::new` reports for a pattern: `None` when it compiles,
/// else the error's message.
pub uninterp spec fn regex_error(pattern: Seq<char>) -> Option<Seq<char>>;

/// What `Regex::captures` finds for a compiled pattern in a haystack: `None`
/// without a match, else capture group 1 of the leftmost-first match
/// (`None` when that group did not take part).
pub uninterp spec fn regex_first_captures(pattern: Seq<char>, haystack: Seq<char>) -> Option<
    Option<Seq<char>>,
>;

/// Calls `regex::Regex::new(pattern)`, then `captures(haystack)` and
/// `get(1)`. Both depend on the pattern and the haystack alone; the
/// contract ties the results to them by the two names above.
#[verifier::external_body]
fn regex_captures(pattern: &str, haystack: &str) -> (r: Result<Option<Option<String>>, String>)
    ensures
        match r {
            Err(e) => regex_error(pattern@) == Some(e@),
            Ok(c) => regex_error(pattern@) is None && regex_first_captures(pattern@, haystack@)
                == match c {
                Some(Some(g)) => Some(Some(g@)),
                Some(None) => Some(None),
                None => None,
            },
        },
{
    let re = match regex::Regex::new(pattern) {
        Ok(re) => re,
        Err(e) => return Err(e.to_string()),
    };
    Ok(re.captures(haystack).map(|c| c.get(1).map(|m| m.as_str().to_string())))
}

/// The text of a page's `__NEXT_DATA__` script: `Err` when the pattern does
/// not compile, `None` without the script, and the empty text when the group
/// is missing.
pub open spec fn nby_next_data(html: Seq<char>) -> Result<Option<Seq<char>>, Seq<char>> {
    match regex_error(next_data_pattern()) {
        Some(e) => Err(e),
        None => match regex_first_captures(next_data_pattern(), html) {
            Some(g) => Ok(Some(or_empty(g))),
            None => Ok(None),
        },
    }
}

pub open spec fn res_opt_view(r: Result<Option<String>, String>) -> Result<Option<Seq<char>>, Seq<char>> {
    match r {
        Ok(Some(c)) => Ok(Some(c@)),
        Ok(None) => Ok(None),
        Err(e) => Err(e@),
    }
}

// ---------------------------------------------------------------------------
// API records (filled by the host from the JSON)
// ---------------------------------------------------------------------------
/// An item of a search or listing response.
pub struct NbySearchItem {
    pub name: Option<String>,
    pub url: Option<String>,
    pub cover: Option<String>,
}

/// The `initialManga` object of a novel page.
pub struct NbyManga {
    pub id: String,
    pub name: Option<String>,
    pub cover: Option<String>,
    pub status: Option<String>,
    pub summary: Option<String>,
    /// The `name` of each author.
    pub authors: Option<Vec<Option<String>>>,
    /// The `name` of each genre.
    pub genres: Option<Vec<Option<String>>>,
}

/// An item of the chapter list API. `number_text` is the `Display` text of
/// the chapter's number, when it has one.
pub struct NbyChapterItem {
    pub id: String,
    pub name: Option<String>,
    pub url: Option<String>,
    pub number_text: Option<String>,
    pub updated_at: Option<String>,
}

/// The empty source struct.
#[derive(Debug, Clone, Copy)]
pub struct NovelBuddySource;

// ---------------------------------------------------------------------------
// Specifications
// ---------------------------------------------------------------------------
pub open spec fn nby_search_url(query: Seq<char>, page: i32) -> Seq<char> {
    api_base() + "/titles/search?limit=24&page="@ + crate::text::dec(page as int) + "&q="@ + replace(
        query,
        " "@,
        "%20"@,
    )
}

/// A cover link made absolute against the site's base.
pub open spec fn nby_cover(base: Seq<char>, cover: Option<Seq<char>>) -> Option<Seq<char>> {
    match cover {
        Some(c) => Some(abs_http_concat(base, c)),
        None => None,
    }
}

/// A result of a search or listing response: skipped when its trimmed name
/// or its URL is empty.
pub open spec fn nby_entry(base: Seq<char>, item: NbySearchItem) -> Option<SearchResultView> {
    let title = trim(or_empty(os(item.name)));
    let rel = or_empty(os(item.url));
    if title.len() == 0 || rel.len() == 0 {
        None
    } else {
        Some(SearchResultView { url: abs_http_concat(base, rel), title, cover_url: nby_cover(base, os(item.cover)), author: None })
    }
}

pub open spec fn nby_results(base: Seq<char>, items: Option<Seq<NbySearchItem>>) -> Seq<SearchResultView> {
    match items {
        Some(v) => filter_some(v.map_values(|it: NbySearchItem| nby_entry(base, it))),
        None => Seq::empty(),
    }
}

pub open spec fn nby_listing_sort(listing_id: Seq<char>) -> Seq<char> {
    if listing_id == "popular"@ || listing_id == "latest"@ || listing_id == "views"@ || listing_id
        == "rating"@ {
        listing_id
    } else {
        "views"@
    }
}

pub open spec fn nby_listing_url(listing_id: Seq<char>, page: i32) -> Seq<char> {
    api_base() + "/titles/search?sort="@ + nby_listing_sort(listing_id) + "&page="@
        + crate::text::dec(page as int) + "&limit=24"@
}

pub open spec fn nby_listings() -> Seq<ListingView> {
    seq![
        ListingView { id: "popular"@, name: "Most Popular"@ },
        ListingView { id: "latest"@, name: "Latest Updates"@ },
        ListingView { id: "views"@, name: "Most Viewed"@ },
        ListingView { id: "rating"@, name: "Highest Rating"@ },
    ]
}

/// Status names mapped to the host's: ongoing, completed, hiatus and
/// cancelled/dropped (in any case); other statuses stay as they are.
pub open spec fn nby_status(s: Seq<char>) -> Seq<char> {
    let l = lowercase(s);
    if l == "ongoing"@ {
        "Ongoing"@
    } else if l == "completed"@ {
        "Completed"@
    } else if l == "hiatus"@ {
        "On Hiatus"@
    } else if l == "cancelled"@ || l == "dropped"@ {
        "Cancelled"@
    } else {
        s
    }
}

/// The summary as text: paragraph and line-break tags made newlines, trimmed.
pub open spec fn nby_description(s: Seq<char>) -> Seq<char> {
    trim(
        replace(
            replace(replace(replace(s, "<p>"@, Seq::empty()), "</p>"@, "\n"@), "<br />"@, "\n"@),
            "<br>"@,
            "\n"@,
        ),
    )
}

pub open spec fn onames(v: Seq<Option<String>>) -> Seq<Option<Seq<char>>> {
    v.map_values(|o: Option<String>| os(o))
}

/// What the library makes of a novel's `initialManga`.
pub struct NbyDetails {
    pub novel_id: String,
    pub title: String,
    pub cover_url: Option<String>,
    pub author: Option<String>,
    pub description: Option<String>,
    pub status: Option<String>,
    pub genres: Vec<String>,
}

pub struct NbyDetailsView {
    pub novel_id: Seq<char>,
    pub title: Seq<char>,
    pub cover_url: Option<Seq<char>>,
    pub author: Option<Seq<char>>,
    pub description: Option<Seq<char>>,
    pub status: Option<Seq<char>>,
    pub genres: Seq<Seq<char>>,
}

impl View for NbyDetails {
    type V = NbyDetailsView;

    open spec fn view(&self) -> NbyDetailsView {
        NbyDetailsView {
            novel_id: self.novel_id@,
            title: self.title@,
            cover_url: os(self.cover_url),
            author: os(self.author),
            description: os(self.description),
            status: os(self.status),
            genres: crate::text::sviews(self.genres@),
        }
    }
}

pub open spec fn nby_details(m: NbyManga) -> NbyDetailsView {
    NbyDetailsView {
        novel_id: m.id@,
        title: trim(or_empty(os(m.name))),
        cover_url: os(m.cover),
        author: match m.authors {
            Some(v) => {
                let j = join(filter_some(onames(v@)), ", "@);
                if j.len() > 0 {
                    Some(j)
                } else {
                    None
                }
            },
            None => None,
        },
        description: match os(m.summary) {
            Some(s) => Some(nby_description(s)),
            None => None,
        },
        status: match os(m.status) {
            Some(s) => Some(nby_status(s)),
            None => None,
        },
        genres: match m.genres {
            Some(v) => filter_some(onames(v@)),
            None => Seq::empty(),
        },
    }
}

/// `{api}/titles/{id}/chapters`.
pub open spec fn nby_chapters_url(id: Seq<char>) -> Seq<char> {
    api_base() + "/titles/"@ + id + "/chapters"@
}

/// The chapter URL: the item's URL (made absolute) with the novel and
/// chapter ids as query.
pub open spec fn nby_chapter_url(base: Seq<char>, novel_id: Seq<char>, ch: NbyChapterItem) -> Seq<char> {
    let rel = or_empty(os(ch.url));
    let q = "?id="@ + novel_id + "&chapterId="@ + ch.id@;
    if starts_with(rel, "http"@) {
        rel + q
    } else if starts_with(rel, "/"@) {
        base + rel + q
    } else {
        base + "/"@ + rel + q
    }
}

/// Chapter `idx` of the oldest-first list (numbered from 1).
pub open spec fn nby_chapter(base: Seq<char>, novel_id: Seq<char>, idx: int, ch: NbyChapterItem) -> ChapterView {
    ChapterView {
        url: nby_chapter_url(base, novel_id, ch),
        title: trim(
            match os(ch.name) {
                Some(n) => n,
                None => match os(ch.number_text) {
                    Some(t) => "Chapter "@ + t,
                    None => "Chapter"@,
                },
            },
        ),
        index: (idx + 1) as i32,
        release_date: os(ch.updated_at),
        scanlation: None,
    }
}

/// The chapters of the chapter list API, which lists them newest first.
pub open spec fn nby_chapters(base: Seq<char>, novel_id: Seq<char>, items: Option<Seq<NbyChapterItem>>) -> Seq<
    ChapterView,
> {
    match items {
        Some(v) => v.reverse().map(|i: int, ch: NbyChapterItem| nby_chapter(base, novel_id, i, ch)),
        None => Seq::empty(),
    }
}

/// The marker after which NovelBuddy appends promotion to chapter text.
pub open spec fn promo_marker() -> Seq<char> {
    "Find authorized novels in Webnovel"@
}

/// Chapter text without the promotion at its end, trimmed.
pub open spec fn nby_clean(raw: Seq<char>) -> Seq<char> {
    match find(raw, promo_marker()) {
        Some(p) => trim(raw.subrange(0, p)),
        None => trim(raw),
    }
}

/// The value of the last `key=value` parameter with key `key` in the query
/// of `url` (what follows its first `?`, up to a second `?`).
pub open spec fn query_param(params: Seq<Seq<char>>, key: Seq<char>) -> Option<Seq<char>>
    decreases params.len(),
{
    if params.len() == 0 {
        None
    } else {
        let p = params.last();
        match find(p, seq!['=']) {
            Some(e) if p.subrange(0, e) == key => Some(p.subrange(e + 1, p.len() as int)),
            _ => query_param(params.drop_last(), key),
        }
    }
}

/// The parameters of the query of `url`, or none without `?`.
pub open spec fn query_params(url: Seq<char>) -> Seq<Seq<char>> {
    let parts = split_char(url, '?');
    if parts.len() >= 2 {
        split_char(parts[1], '&')
    } else {
        Seq::empty()
    }
}

/// The API request for a chapter's text, when its URL carries both ids.
pub open spec fn nby_content_request(url: Seq<char>) -> Option<RequestView> {
    let ps = query_params(url);
    match (query_param(ps, "id"@), query_param(ps, "chapterId"@)) {
        (Some(n), Some(c)) => Some(get_spec(api_base() + "/titles/"@ + n + "/chapters/"@ + c)),
        _ => None,
    }
}

/// The page URL of a chapter: the URL without its query.
pub open spec fn nby_clean_url(url: Seq<char>) -> Seq<char> {
    split_char(url, '?')[0]
}

/// The content selector of rendered chapter pages.
pub open spec fn nby_content_selector() -> Seq<char> {
    ".chapter-content, #chapter-content, .content-inner"@
}

// ---------------------------------------------------------------------------
// Implementation
// ---------------------------------------------------------------------------
fn ostr(o: &Option<String>) -> (r: Option<Vec<char>>)
    ensures
        ov(r) == os(*o),
{
    match o {
        Some(s) => Some(chars_of(s.as_str())),
        None => None,
    }
}

fn clone_opt(o: &Option<String>) -> (r: Option<String>)
    ensures
        os(r) == os(*o),
{
    match o {
        Some(s) => Some(s.clone()),
        None => None,
    }
}

fn names_exec(v: &Vec<Option<String>>) -> (r: Vec<Vec<char>>)
    ensures
        vviews(r@) == filter_some(onames(v@)),
{
    let ghost o = onames(v@);
    let mut r: Vec<Vec<char>> = Vec::new();
    let mut i: usize = 0;
    while i < v.len()
        invariant
            i <= v.len(),
            o == onames(v@),
            vviews(r@) == filter_some(o.take(i as int)),
        decreases v.len() - i,
    {
        proof {
            crate::text::lemma_filter_some_step(o, i as int);
        }
        match &v[i] {
            Some(s) => {
                let ghost before = vviews(r@);
                let c = chars_of(s.as_str());
                r.push(c);
                assert(vviews(r@) =~= before.push(c@));
            },
            None => {},
        }
        i += 1;
    }
    assert(o.take(v.len() as int) =~= o);
    r
}

fn nby_status_exec(s: &Vec<char>) -> (r: Vec<char>)
    ensures
        r@ == nby_status(s@),
{
    let l = lowercase_exec(s);
    if str_eq("ongoing", &l) {
        lit("Ongoing")
    } else if str_eq("completed", &l) {
        lit("Completed")
    } else if str_eq("hiatus", &l) {
        lit("On Hiatus")
    } else if str_eq("cancelled", &l) || str_eq("dropped", &l) {
        lit("Cancelled")
    } else {
        s.clone()
    }
}

fn nby_description_exec(s: &Vec<char>) -> (r: Vec<char>)
    ensures
        r@ == nby_description(s@),
{
    proof {
        reveal_strlit("<p>");
        reveal_strlit("</p>");
        reveal_strlit("<br />");
        reveal_strlit("<br>");
    }
    let empty: Vec<char> = Vec::new();
    assert(empty@ =~= Seq::<char>::empty());
    let a = replace_exec(s, &lit("<p>"), &empty);
    let b = replace_exec(&a, &lit("</p>"), &lit("\n"));
    let c = replace_exec(&b, &lit("<br />"), &lit("\n"));
    let d = replace_exec(&c, &lit("<br>"), &lit("\n"));
    trim_exec(&d)
}

fn nby_clean_exec(raw: &Vec<char>) -> (r: Vec<char>)
    ensures
        r@ == nby_clean(raw@),
{
    match find_exec(raw, &lit("Find authorized novels in Webnovel")) {
        Some(p) => {
            proof {
                crate::text::lemma_find(raw@, promo_marker());
            }
            trim_exec(&slice_exec(raw, 0, p))
        },
        None => trim_exec(raw),
    }
}

fn query_param_exec(params: &Vec<Vec<char>>, key: &str) -> (r: Option<Vec<char>>)
    ensures
        ov(r) == query_param(vviews(params@), key@),
{
    let ghost all = vviews(params@);
    let mut i: usize = params.len();
    assert(all.take(params.len() as int) =~= all);
    let mut eq: Vec<char> = Vec::new();
    eq.push('=');
    assert(eq@ =~= seq!['=']);
    while i > 0
        invariant
            i <= params.len(),
            all == vviews(params@),
            eq@ == seq!['='],
            query_param(all, key@) == query_param(all.take(i as int), key@),
        decreases i,
    {
        let p = &params[i - 1];
        proof {
            let t = all.take(i as int);
            assert(t.drop_last() =~= all.take(i - 1));
            assert(t.last() == p@);
        }
        match find_exec(p, &eq) {
            Some(e) => {
                proof {
                    crate::text::lemma_find(p@, eq@);
                }
                let k = slice_exec(p, 0, e);
                if str_eq(key, &k) {
                    let n = p.len();
                    return Some(slice_exec(p, e + 1, n));
                }
            },
            None => {},
        }
        i -= 1;
    }
    assert(all.take(0) =~= Seq::<Seq<char>>::empty());
    None
}

fn query_params_exec(url: &Vec<char>) -> (r: Vec<Vec<char>>)
    ensures
        vviews(r@) == query_params(url@),
{
    let parts = split_char_exec(url, '?');
    if parts.len() >= 2 {
        let r = split_char_exec(&parts[1], '&');
        assert(vviews(r@) =~= split_char(parts@[1]@, '&'));
        r
    } else {
        let r: Vec<Vec<char>> = Vec::new();
        assert(vviews(r@) =~= Seq::<Seq<char>>::empty());
        r
    }
}

impl NovelBuddySource {
    /// The search request (see [`nby_search_url`]).
    pub fn search(query: &str, page: i32) -> (r: Request)
        ensures
            r@ == get_spec(nby_search_url(query@, page)),
    {
        proof {
            reveal_strlit(" ");
        }
        let mut u = concat2(&lit("https://api.novelbuddy.me"), &lit("/titles/search?limit=24&page="));
        push_all(&mut u, &crate::text::dec_exec(page as i64));
        push_all(&mut u, &lit("&q="));
        push_all(&mut u, &replace_exec(&chars_of(query), &lit(" "), &lit("%20")));
        get_request(&u)
    }

    /// The novels of a search or listing response (see [`nby_results`]).
    pub fn search_results(base_url: &str, items: &Option<Vec<NbySearchItem>>) -> (r: Vec<SearchResultDto>)
        ensures
            r.deep_view() == nby_results(
                base_url@,
                match items {
                    Some(v) => Some(v@),
                    None => None,
                },
            ),
    {
        let base = chars_of(base_url);
        let mut r: Vec<SearchResultDto> = Vec::new();
        match items {
            Some(v) => {
                let ghost mapped = v@.map_values(|it: NbySearchItem| nby_entry(base@, it));
                let mut i: usize = 0;
                while i < v.len()
                    invariant
                        i <= v.len(),
                        base@ == base_url@,
                        mapped == v@.map_values(|it: NbySearchItem| nby_entry(base@, it)),
                        r.deep_view() == filter_some(mapped.take(i as int)),
                    decreases v.len() - i,
                {
                    proof {
                        crate::text::lemma_filter_some_step(mapped, i as int);
                    }
                    let it = &v[i];
                    let title = trim_exec(&crate::text::or_empty_exec(ostr(&it.name)));
                    let rel = crate::text::or_empty_exec(ostr(&it.url));
                    if title.len() > 0 && rel.len() > 0 {
                        let e = SearchResultDto {
                            url: string_of(&abs_http_concat_exec(&base, &rel)),
                            title: string_of(&title),
                            cover_url: match &it.cover {
                                Some(c) => Some(string_of(&abs_http_concat_exec(&base, &chars_of(c)))),
                                None => None,
                            },
                            author: None,
                        };
                        let ghost before = r.deep_view();
                        r.push(e);
                        assert(r.deep_view() =~= before.push(e.deep_view()));
                    }
                    i += 1;
                }
                assert(mapped.take(v.len() as int) =~= mapped);
            },
            None => {
                assert(r.deep_view() =~= Seq::<SearchResultView>::empty());
            },
        }
        r
    }

    /// The listings of the site.
    pub fn get_listings() -> (r: Vec<ListingDto>)
        ensures
            r.deep_view() == nby_listings(),
    {
        let r = vec![
            crate::models::listing("popular", "Most Popular"),
            crate::models::listing("latest", "Latest Updates"),
            crate::models::listing("views", "Most Viewed"),
            crate::models::listing("rating", "Highest Rating"),
        ];
        assert(r.deep_view() =~= nby_listings());
        r
    }

    /// The request for a listing page (see [`nby_listing_url`]).
    pub fn get_listing_novels(listing_id: &str, page: i32) -> (r: Request)
        ensures
            r@ == get_spec(nby_listing_url(listing_id@, page)),
    {
        let id = chars_of(listing_id);
        let sort = if str_eq("popular", &id) || str_eq("latest", &id) || str_eq("views", &id)
            || str_eq("rating", &id) {
            id
        } else {
            lit("views")
        };
        let mut u = concat2(&lit("https://api.novelbuddy.me"), &lit("/titles/search?sort="));
        push_all(&mut u, &sort);
        push_all(&mut u, &lit("&page="));
        push_all(&mut u, &crate::text::dec_exec(page as i64));
        push_all(&mut u, &lit("&limit=24"));
        get_request(&u)
    }

    /// The text of a page's `__NEXT_DATA__` script (see [`nby_next_data`]).
    pub fn next_data(html: &str) -> (r: Result<Option<String>, String>)
        ensures
            res_opt_view(r) == nby_next_data(html@),
    {
        match regex_captures("<script id=\"__NEXT_DATA__\"[^>]*>(.*?)</script>", html) {
            Err(e) => Err(e),
            Ok(None) => Ok(None),
            Ok(Some(Some(g))) => Ok(Some(g)),
            Ok(Some(None)) => Ok(Some(String::new())),
        }
    }

    /// First step of reading a novel page: the text of its data script. A
    /// page without it is an error naming the novel URL.
    pub fn get_novel_details(novel_url: &str, html: &str) -> (r: Result<String, String>)
        ensures
            match nby_next_data(html@) {
                Err(e) => r is Err && r->Err_0@ == e,
                Ok(None) => r is Err && r->Err_0@ == "Could not find __NEXT_DATA__ script in "@ + novel_url@,
                Ok(Some(t)) => r is Ok && r->Ok_0@ == t,
            },
    {
        match Self::next_data(html) {
            Err(e) => Err(e),
            Ok(None) => Err(string_of(&concat2(&lit("Could not find __NEXT_DATA__ script in "), &chars_of(novel_url)))),
            Ok(Some(t)) => Ok(t),
        }
    }

    /// The novel's details from its `initialManga` (`None`: the page data
    /// has none, an error), and the request for its chapter list.
    pub fn manga_details(manga: &Option<NbyManga>) -> (r: Result<(NbyDetails, Request), String>)
        ensures
            match manga {
                None => r is Err && r->Err_0@ == "Could not find initialManga in pageProps"@,
                Some(m) => r is Ok && r->Ok_0.0@ == nby_details(*m) && r->Ok_0.1@ == get_spec(
                    nby_chapters_url(m.id@),
                ),
            },
    {
        let m = match manga {
            None => return Err(String::from_str("Could not find initialManga in pageProps")),
            Some(m) => m,
        };
        let title = trim_exec(&crate::text::or_empty_exec(ostr(&m.name)));
        let author = match &m.authors {
            Some(v) => {
                let j = join_exec(&names_exec(v), &lit(", "));
                if j.len() > 0 {
                    Some(j)
                } else {
                    None
                }
            },
            None => None,
        };
        let genres = match &m.genres {
            Some(v) => names_exec(v),
            None => Vec::new(),
        };
        assert(m.genres is None ==> vviews(genres@) =~= Seq::<Seq<char>>::empty());
        let description = match ostr(&m.summary) {
            Some(s) => Some(nby_description_exec(&s)),
            None => None,
        };
        let status = match ostr(&m.status) {
            Some(s) => Some(nby_status_exec(&s)),
            None => None,
        };
        let d = NbyDetails {
            novel_id: m.id.clone(),
            title: string_of(&title),
            cover_url: clone_opt(&m.cover),
            author: opt_string(author),
            description: opt_string(description),
            status: opt_string(status),
            genres: crate::text::strings_of(&genres),
        };
        let mut u = concat2(&lit("https://api.novelbuddy.me"), &lit("/titles/"));
        push_all(&mut u, &chars_of(m.id.as_str()));
        push_all(&mut u, &lit("/chapters"));
        Ok((d, get_request(&u)))
    }

    /// The novel, from its details and the chapter list API's items
    /// (`None`: the response has no chapter list).
    pub fn finish_details(base_url: &str, novel_url: &str, d: NbyDetails, items: &Option<Vec<NbyChapterItem>>) -> (n: NovelDto)
        ensures
            n.deep_view() == (NovelView {
                url: novel_url@,
                title: d@.title,
                author: d@.author,
                cover_url: nby_cover(base_url@, d@.cover_url),
                description: d@.description,
                status: d@.status,
                genres: d@.genres,
                chapters: nby_chapters(
                    base_url@,
                    d@.novel_id,
                    match items {
                        Some(v) => Some(v@),
                        None => None,
                    },
                ),
            }),
            n.extra@ == Map::<String, String>::empty(),
    {
        let base = chars_of(base_url);
        let nid = chars_of(d.novel_id.as_str());
        let mut chapters: Vec<ChapterDto> = Vec::new();
        match items {
            Some(v) => {
                let n = v.len();
                let ghost rev = v@.reverse();
                let mut j: usize = 0;
                while j < n
                    invariant
                        j <= n,
                        n == v@.len(),
                        rev == v@.reverse(),
                        base@ == base_url@,
                        nid@ == d@.novel_id,
                        chapters@.len() == j,
                        forall|k: int| 0 <= k < j ==> #[trigger] chapters@[k].deep_view() == nby_chapter(base@, nid@, k, rev[k]),
                    decreases n - j,
                {
                    let ch = &v[n - 1 - j];
                    assert(rev[j as int] == *ch);
                    let rel = crate::text::or_empty_exec(ostr(&ch.url));
                    let mut q = lit("?id=");
                    push_all(&mut q, &nid);
                    push_all(&mut q, &lit("&chapterId="));
                    push_all(&mut q, &chars_of(ch.id.as_str()));
                    let url = if starts_with_exec(&rel, &lit("http")) {
                        concat2(&rel, &q)
                    } else if starts_with_exec(&rel, &lit("/")) {
                        concat2(&concat2(&base, &rel), &q)
                    } else {
                        concat2(&concat2(&concat2(&base, &lit("/")), &rel), &q)
                    };
                    let raw_title = match ostr(&ch.name) {
                        Some(nm) => nm,
                        None => match ostr(&ch.number_text) {
                            Some(t) => concat2(&lit("Chapter "), &t),
                            None => lit("Chapter"),
                        },
                    };
                    let c = ChapterDto {
                        url: string_of(&url),
                        title: string_of(&trim_exec(&raw_title)),
                        index: #[verifier::truncate] ((j as u128 + 1) as i32),
                        release_date: clone_opt(&ch.updated_at),
                        scanlation: None,
                    };
                    assert(c.deep_view() == nby_chapter(base@, nid@, j as int, rev[j as int]));
                    chapters.push(c);
                    j += 1;
                }
            },
            None => {},
        }
        let ghost expected = nby_chapters(
            base_url@,
            d@.novel_id,
            match items {
                Some(v) => Some(v@),
                None => None,
            },
        );
        assert(chapters.deep_view() =~= expected);
        let n = NovelDto {
            url: String::from_str(novel_url),
            title: d.title,
            author: d.author,
            cover_url: match &d.cover_url {
                Some(c) => Some(string_of(&abs_http_concat_exec(&base, &chars_of(c.as_str())))),
                None => None,
            },
            description: d.description,
            status: d.status,
            genres: d.genres,
            chapters,
            extra: std::collections::HashMap::new(),
        };
        assert(n.genres.deep_view() =~= d@.genres);
        n
    }

    /// Chapter text as NovelBuddy serves it (see [`nby_clean`]).
    pub fn clean_content(raw: &str) -> (r: String)
        ensures
            r@ == nby_clean(raw@),
    {
        string_of(&nby_clean_exec(&chars_of(raw)))
    }

    /// The API request for a chapter's text (see [`nby_content_request`]).
    pub fn content_api_request(chapter_url: &str) -> (r: Option<Request>)
        ensures
            crate::fetch::oreq(r) == nby_content_request(chapter_url@),
    {
        let ps = query_params_exec(&chars_of(chapter_url));
        let nid = query_param_exec(&ps, "id");
        let cid = query_param_exec(&ps, "chapterId");
        match (nid, cid) {
            (Some(n), Some(c)) => {
                let mut u = concat2(&lit("https://api.novelbuddy.me"), &lit("/titles/"));
                push_all(&mut u, &n);
                push_all(&mut u, &lit("/chapters/"));
                push_all(&mut u, &c);
                Some(get_request(&u))
            },
            _ => None,
        }
    }

    /// What follows the chapter-content API: its content, cleaned, when the
    /// API gave one; otherwise the request for the chapter's page, whose text
    /// goes to [`Self::page_content`].
    pub fn after_api(chapter_url: &str, api_content: Option<String>) -> (r: Result<String, Request>)
        ensures
            match api_content {
                Some(c) => r is Ok && r->Ok_0@ == nby_clean(c@),
                None => r is Err && r->Err_0@ == get_spec(nby_clean_url(chapter_url@)),
            },
    {
        match api_content {
            Some(c) => Ok(Self::clean_content(c.as_str())),
            None => {
                let u = Self::page_url(chapter_url);
                Err(get_request(&chars_of(u.as_str())))
            },
        }
    }

    /// The page URL of a chapter (see [`nby_clean_url`]).
    pub fn page_url(chapter_url: &str) -> (r: String)
        ensures
            r@ == nby_clean_url(chapter_url@),
    {
        let parts = split_char_exec(&chars_of(chapter_url), '?');
        proof {
            lemma_split_char_nonempty(chapter_url@, '?');
        }
        string_of(&parts[0])
    }

    /// The chapter text of a chapter page, given the `content` of the page
    /// data's `initialChapter` (when the data script was found, parsed and
    /// has it): that content cleaned; else the inner HTML of the first
    /// element of the content selector, cleaned; else an error naming the
    /// chapter URL.
    pub fn page_content(chapter_url: &str, html: &str, next_content: Option<String>) -> (r: Result<String, String>)
        ensures
            match next_content {
                Some(c) => r is Ok && r->Ok_0@ == nby_clean(c@),
                None => match crate::content::page_inner(html@, nby_content_selector()) {
                    Some(inner) => r is Ok && r->Ok_0@ == nby_clean(inner),
                    None => r is Err && r->Err_0@ == "Could not extract chapter content for "@ + chapter_url@,
                },
            },
    {
        match next_content {
            Some(c) => Ok(Self::clean_content(c.as_str())),
            None => {
                let doc = parse_document(html);
                match compile_selector(".chapter-content, #chapter-content, .content-inner") {
                    Ok(sel) => {
                        let found = select_all(&doc, &sel);
                        if found.len() > 0 {
                            let inner = inner_html(&found[0]);
                            assert(found@[0].node().path =~= seq![(nby_content_selector(), 0int)]);
                            return Ok(Self::clean_content(inner.as_str()));
                        }
                    },
                    Err(_) => {},
                }
                Err(string_of(&concat2(&lit("Could not extract chapter content for "), &chars_of(chapter_url))))
            },
        }
    }
}

/// The chapter API lists chapters newest first; the chapters come out in
/// reading order, numbered from 1: chapter `i` is item `i` from the end,
/// with index `i + 1`.
pub proof fn law_nby_chapters_reading_order(base: Seq<char>, novel_id: Seq<char>, items: Seq<NbyChapterItem>)
    ensures
        nby_chapters(base, novel_id, Some(items)).len() == items.len(),
        forall|i: int|
            0 <= i < items.len() ==> (#[trigger] nby_chapters(base, novel_id, Some(items))[i]) == nby_chapter(
                base,
                novel_id,
                i,
                items[items.len() - 1 - i],
            ) && nby_chapters(base, novel_id, Some(items))[i].index == (i + 1) as i32,
{
}

/// Cleaning chapter text twice changes nothing: what is left holds no
/// promotion marker and is already trimmed.
pub proof fn law_nby_clean_idempotent(raw: Seq<char>)
    ensures
        nby_clean(nby_clean(raw)) == nby_clean(raw),
{
    let m = promo_marker();
    reveal_strlit("Find authorized novels in Webnovel");
    assert(m.len() > 0);
    crate::text::lemma_find(raw, m);
    let pre = match find(raw, m) {
        Some(p) => raw.subrange(0, p),
        None => raw,
    };
    assert forall|k: int| !crate::text::matches_at(pre, m, k) by {
        if crate::text::matches_at(pre, m, k) {
            assert(pre.subrange(k, k + m.len()) =~= raw.subrange(k, k + m.len()));
            assert(crate::text::matches_at(raw, m, k));
            match find(raw, m) {
                Some(p) => assert(k < p),
                None => {},
            }
        }
    }
    let t = crate::text::trim_start(pre);
    let y = crate::text::trim(pre);
    let i0: int = crate::text::lead_count(pre, crate::text::ws_pred()) as int;
    crate::text::lemma_lead_le(pre, crate::text::ws_pred());
    crate::text::lemma_trail_le(t, crate::text::ws_pred());
    assert(y =~= pre.subrange(i0, i0 + y.len()));
    crate::text::lemma_find(y, m);
    if let Some(j) = find(y, m) {
        assert(y.subrange(j, j + m.len()) =~= pre.subrange(i0 + j, i0 + j + m.len()));
        assert(crate::text::matches_at(pre, m, i0 + j));
    }
    crate::text::lemma_trim_idempotent(pre);
    assert(nby_clean(raw) == y);
}

/// Every search or listing result has a nonempty title, and its URL and
/// cover are absolute links when the base starts with `"http"`.
pub proof fn law_nby_results_absolute(base: Seq<char>, items: Option<Seq<NbySearchItem>>)
    requires
        starts_with(base, "http"@),
    ensures
        forall|k: int|
            0 <= k < nby_results(base, items).len() ==> {
                let r = #[trigger] nby_results(base, items)[k];
                &&& r.title.len() > 0
                &&& starts_with(r.url, "http"@)
                &&& r.cover_url matches Some(c) ==> starts_with(c, "http"@)
            },
{
    let p = |r: SearchResultView|
        r.title.len() > 0 && starts_with(r.url, "http"@) && (r.cover_url matches Some(c) ==> starts_with(c, "http"@));
    match items {
        Some(v) => {
            let m = v.map_values(|it: NbySearchItem| nby_entry(base, it));
            assert forall|k: int| 0 <= k < m.len() implies (#[trigger] m[k] matches Some(x) ==> p(x)) by {
                let it = v[k];
                crate::urls::lemma_abs_http_starts(base, or_empty(os(it.url)));
                match os(it.cover) {
                    Some(c) => crate::urls::lemma_abs_http_starts(base, c),
                    None => {},
                }
            }
            crate::text::lemma_filter_some_all(m, p);
        },
        None => {},
    }
}

} // verus!
