//! Engine for sites built on the NovelFire layout.
use vstd::prelude::*;
use std::collections::HashMap;
use crate::content::{engine_tag_list, engine_tags, select_clean};
use crate::dom::{first_selector_error, lemma_first_selector_error_at, child, compile_selector, count_in, doc_html, document_html, page_node, parse_document, root, select_all, selector_parse_error, NodeRef};
use crate::fetch::{get_request, get_spec, lit, oreq, with_header, Request, RequestView};
use crate::json::{get_array, get_i64, get_i64_exec, get_str, get_str_exec, JsonValue};
use crate::madara_details::{add_genres, add_genres_exec};
use crate::models::{clone_listings, ChapterDto, ChapterView, ListingDto, ListingView, NovelDto, SearchResultDto, SearchResultView};
use crate::readnovelfull::chapter_n;
use crate::snap::{all_of, first_attr, first_attr_exec, first_in, first_of, nonempty_text, nonempty_text_exec, opt_first_of, osnap, sattr, sel_ok, select_first, select_snaps, snap_views, strs, ttext, Snap, SnapView};
use crate::sort::{stable_sort, stable_sorted, SortKey};
use crate::text::{chars_of, concat2, dec, dec_exec, digit_prefix, digit_prefix_exec, filter_some, find, find_exec, lead_count, lemma_filter_some_step, lemma_find, lemma_lead_count, opt_string, or_empty, or_empty_exec, os, push_all, replace, replace_exec, slice_exec, starts_with, starts_with_exec, str_eq, string_of, strings_of, sviews, trim, trim_end_char, trim_end_char_exec, trim_exec, trim_start_char, trim_start_char_exec, udec_exec, vviews};
use crate::urls::{abs_http_join, abs_http_join_exec, join_path, join_path_exec};

verus! {

/// Configuration of a NovelFire-style site.
pub struct NovelFireEngine {
    pub base_url: String,
    pub novel_path_prefix: String,
    pub search_endpoint: String,
    pub search_query_param: String,
    pub search_type_param: String,
    pub search_json_title_key: String,
    pub search_json_slug_key: String,
    pub search_json_image_key: String,
    pub chapter_ajax_endpoint: String,
    pub chapter_list_path: String,
    pub listing_path: String,
    pub listing_status_path: String,
    pub list_item_selector: String,
    pub list_link_selector: String,
    pub list_cover_selector: String,
    pub detail_title_selector: String,
    pub detail_author_selector: String,
    pub detail_cover_selector: String,
    pub detail_desc_selector: String,
    pub detail_genre_selector: String,
    pub detail_status_selector: String,
    pub detail_post_id_selector: String,
    pub detail_post_id_attr: String,
    pub chapter_list_selector: String,
    pub chapter_content_selector: String,
    pub listings: Vec<ListingDto>,
}

pub open spec fn nf_default_listings() -> Seq<ListingView> {
    seq![
        ListingView { id: "popular"@, name: "Popular"@ },
        ListingView { id: "new"@, name: "New Novels"@ },
        ListingView { id: "top-rated"@, name: "Top Rated"@ },
        ListingView { id: "view"@, name: "Most Viewed"@ },
        ListingView { id: "completed"@, name: "Completed"@ },
    ]
}

// ---------------------------------------------------------------------------
// Search
// ---------------------------------------------------------------------------
/// `{base}/{endpoint}?{query param}={query, spaces as %20}`, then
/// `&{type param}` when there is one.
pub open spec fn nf_search_url(
    base: Seq<char>,
    endpoint: Seq<char>,
    qparam: Seq<char>,
    tparam: Seq<char>,
    query: Seq<char>,
) -> Seq<char> {
    let head = join_path(base, endpoint) + "?"@ + qparam + "="@ + replace(query, " "@, "%20"@);
    if tparam.len() == 0 {
        head
    } else {
        head + "&"@ + tparam
    }
}

/// `prefix` without leading or trailing slashes (`trim_matches('/')`).
pub open spec fn trim_slashes(p: Seq<char>) -> Seq<char> {
    trim_end_char(trim_start_char(p, '/'), '/')
}

/// Keys of the search JSON items, and the novel path prefix.
pub struct SearchKeys {
    pub title: Seq<char>,
    pub slug: Seq<char>,
    pub image: Seq<char>,
    pub prefix: Seq<char>,
}

/// Novel URL of a search item: the slug itself when absolute, else under
/// the novel path prefix (or directly under the base without one).
pub open spec fn nf_novel_url(base: Seq<char>, prefix: Seq<char>, slug: Seq<char>) -> Seq<char> {
    if starts_with(slug, "http"@) {
        slug
    } else if prefix.len() == 0 {
        join_path(base, slug)
    } else {
        trim_end_char(base, '/') + "/"@ + trim_slashes(prefix) + "/"@ + trim_start_char(slug, '/')
    }
}

/// The result for one search item: none unless its title and slug are
/// nonempty; the cover only when its image is nonempty.
pub open spec fn nf_search_entry(base: Seq<char>, keys: SearchKeys, item: JsonValue) -> Option<
    SearchResultView,
> {
    let title = or_empty(get_str(item, keys.title));
    let slug = or_empty(get_str(item, keys.slug));
    let image = or_empty(get_str(item, keys.image));
    if title.len() > 0 && slug.len() > 0 {
        Some(
            SearchResultView {
                url: nf_novel_url(base, keys.prefix, slug),
                title,
                cover_url: if image.len() > 0 {
                    Some(abs_http_join(base, image))
                } else {
                    None
                },
                author: None,
            },
        )
    } else {
        None
    }
}

/// Search results of the search response (`None` when it is not JSON): the
/// items of its `data` array that give a result.
pub open spec fn nf_search_results(base: Seq<char>, keys: SearchKeys, json: Option<JsonValue>) -> Seq<
    SearchResultView,
> {
    match json {
        Some(j) => match get_array(j, "data"@) {
            Some(arr) => filter_some(arr.map_values(|it: JsonValue| nf_search_entry(base, keys, it))),
            None => Seq::empty(),
        },
        None => Seq::empty(),
    }
}

// ---------------------------------------------------------------------------
// Novel page
// ---------------------------------------------------------------------------
/// What was read of a novel page.
pub struct NfDetailsRaw {
    pub title: Option<Snap>,
    pub author: Option<Snap>,
    pub cover: Option<Snap>,
    pub description: Option<Snap>,
    pub genres: Vec<Snap>,
    pub status: Option<Snap>,
    pub id_element: Option<Option<Snap>>,
    pub page_html: Vec<char>,
}

pub struct NfDetailsRawView {
    pub title: Option<SnapView>,
    pub author: Option<SnapView>,
    pub cover: Option<SnapView>,
    pub description: Option<SnapView>,
    pub genres: Seq<SnapView>,
    pub status: Option<SnapView>,
    pub id_element: Option<Option<SnapView>>,
    pub page_html: Seq<char>,
}

/// The selectors of a novel page that must parse, in the order they are
/// compiled.
pub open spec fn nf_detail_selectors(e: NovelFireEngine) -> Seq<Seq<char>> {
    seq![
        e.detail_title_selector@,
        e.detail_author_selector@,
        e.detail_cover_selector@,
        e.detail_desc_selector@,
        e.detail_genre_selector@,
        e.detail_status_selector@,
    ]
}

/// What is read of the novel page parsed from `src` with the selectors of `e`.
pub open spec fn nf_details_raw(e: NovelFireEngine, src: Seq<char>) -> NfDetailsRawView {
    let pn = root(src, false);
    NfDetailsRawView {
        title: select_first(pn, e.detail_title_selector@, Seq::empty()),
        author: select_first(pn, e.detail_author_selector@, Seq::empty()),
        cover: select_first(pn, e.detail_cover_selector@, seq!["src"@, "data-src"@]),
        description: select_first(pn, e.detail_desc_selector@, Seq::empty()),
        genres: select_snaps(pn, e.detail_genre_selector@, Seq::empty()),
        status: select_first(pn, e.detail_status_selector@, Seq::empty()),
        id_element: if sel_ok(e.detail_post_id_selector@) {
            Some(select_first(pn, e.detail_post_id_selector@, seq![e.detail_post_id_attr@, "data-id"@, "value"@]))
        } else {
            None
        },
        page_html: doc_html(src, false),
    }
}

impl View for NfDetailsRaw {
    type V = NfDetailsRawView;

    open spec fn view(&self) -> NfDetailsRawView {
        NfDetailsRawView {
            title: osnap(self.title),
            author: osnap(self.author),
            cover: osnap(self.cover),
            description: osnap(self.description),
            genres: snap_views(self.genres@),
            status: osnap(self.status),
            id_element: crate::madara_details::oosnap(self.id_element),
            page_html: self.page_html@,
        }
    }
}

/// What the library makes of a novel page.
pub struct NfDetails {
    pub title: String,
    pub author: Option<String>,
    pub cover_url: Option<String>,
    pub description: Option<String>,
    pub genres: Vec<String>,
    pub status: Option<String>,
    pub post_id: String,
}

pub struct NfDetailsView {
    pub title: Seq<char>,
    pub author: Option<Seq<char>>,
    pub cover_url: Option<Seq<char>>,
    pub description: Option<Seq<char>>,
    pub genres: Seq<Seq<char>>,
    pub status: Option<Seq<char>>,
    pub post_id: Seq<char>,
}

impl View for NfDetails {
    type V = NfDetailsView;

    open spec fn view(&self) -> NfDetailsView {
        NfDetailsView {
            title: self.title@,
            author: os(self.author),
            cover_url: os(self.cover_url),
            description: os(self.description),
            genres: sviews(self.genres@),
            status: os(self.status),
            post_id: self.post_id@,
        }
    }
}

pub open spec fn quote_pred() -> spec_fn(char) -> bool {
    |c: char| c == '"' || c == '\''
}

/// The digits after a marker, once leading quotes are skipped.
pub open spec fn digits_after_quotes(rest: Seq<char>) -> Seq<char> {
    digit_prefix(rest.subrange(lead_count(rest, quote_pred()) as int, rest.len() as int))
}

/// Post id written after the first occurrence of the first marker that
/// yields one.
pub open spec fn nf_id_from_patterns(html: Seq<char>, pats: Seq<Seq<char>>) -> Seq<char>
    decreases pats.len(),
{
    if pats.len() == 0 {
        Seq::empty()
    } else {
        let rest = pats.subrange(1, pats.len() as int);
        match find(html, pats[0]) {
            Some(i) => {
                let d = digits_after_quotes(html.subrange(i + pats[0].len(), html.len() as int));
                if d.len() > 0 {
                    d
                } else {
                    nf_id_from_patterns(html, rest)
                }
            },
            None => nf_id_from_patterns(html, rest),
        }
    }
}

/// Post id: the configured attribute (else `data-id`, else `value`) of the
/// first id element, else the digits after `{attr}=`, `report-post_id=`,
/// `post_id=` or `data-id=` in the page.
pub open spec fn nf_post_id(attr: Seq<char>, el: Option<Option<SnapView>>, html: Seq<char>) -> Seq<char> {
    let from_el = match el {
        Some(Some(e)) => or_empty(first_attr(e, seq![attr, "data-id"@, "value"@])),
        _ => Seq::empty(),
    };
    if from_el.len() > 0 {
        from_el
    } else {
        nf_id_from_patterns(
            html,
            seq![attr + "="@, "report-post_id="@, "post_id="@, "data-id="@],
        )
    }
}

pub open spec fn nf_details(base: Seq<char>, attr: Seq<char>, raw: NfDetailsRawView) -> NfDetailsView {
    NfDetailsView {
        title: match raw.title {
            Some(t) => ttext(t),
            None => Seq::empty(),
        },
        author: nonempty_text(raw.author),
        cover_url: match raw.cover {
            Some(img) => match first_attr(img, seq!["src"@, "data-src"@]) {
                Some(s) => Some(abs_http_join(base, s)),
                None => None,
            },
            None => None,
        },
        description: nonempty_text(raw.description),
        genres: add_genres(Seq::empty(), raw.genres),
        status: nonempty_text(raw.status),
        post_id: nf_post_id(attr, raw.id_element, raw.page_html),
    }
}

// ---------------------------------------------------------------------------
// Chapters
// ---------------------------------------------------------------------------
/// Query of the chapter AJAX call after the post id.
pub open spec fn nf_ajax_tail() -> Seq<char> {
    "&order[0][column]=0&order[0][dir]=asc&order[0][name]=cmm_posts_detail.n_sort&columns[0][data]=n_sort&columns[0][name]=cmm_posts_detail.n_sort&columns[0][searchable]=true&columns[0][orderable]=true&columns[0][search][value]=&columns[0][search][regex]=false&columns[1][data]=bookmark_created_at&columns[1][name]=bookmark_chapters.created_at&columns[1][searchable]=false&columns[1][orderable]=true&columns[1][search][value]=&columns[1][search][regex]=false&search[value]=&search[regex]=false&only_bookmark=false"@
}

/// The chapter AJAX request: all chapters of the post, as an AJAX call with
/// the novel page as `Referer`.
pub open spec fn nf_ajax_request(base: Seq<char>, endpoint: Seq<char>, clean: Seq<char>, id: Seq<char>) -> RequestView {
    RequestView {
        headers: seq![("Referer"@, clean), ("X-Requested-With"@, "XMLHttpRequest"@)],
        ..get_spec(join_path(base, endpoint) + "?draw=1&start=0&length=-1&post_id="@ + id + nf_ajax_tail())
    }
}

/// The chapter-list page request: `GET {clean}/{list path}`.
pub open spec fn nf_list_request(clean: Seq<char>, path: Seq<char>) -> RequestView {
    get_spec(clean + "/"@ + trim_start_char(path, '/'))
}

/// Chapter of item `i` of the AJAX `data` array: numbered by `n_sort` when
/// positive (URL `{clean}/chapter-{n}`), else by position with URL
/// `{clean}/{slug}`, skipped without a slug; untitled chapters get
/// `"Chapter {n}"`.
pub open spec fn nf_ajax_chapter(clean: Seq<char>, i: int, item: JsonValue) -> Option<ChapterView> {
    let raw_title = match get_str(item, "title"@) {
        Some(t) => t,
        None => or_empty(get_str(item, "slug"@)),
    };
    let n_sort: i32 = match get_i64(item, "n_sort"@) {
        Some(n) => n as i32,
        None => -1i32,
    };
    let title_for = |idx: i32|
        if raw_title.len() == 0 {
            chapter_n(idx as int)
        } else {
            raw_title
        };
    if n_sort > 0 {
        Some(
            ChapterView {
                url: clean + "/chapter-"@ + dec(n_sort as int),
                title: title_for(n_sort),
                index: n_sort,
                release_date: None,
                scanlation: None,
            },
        )
    } else {
        let slug = or_empty(get_str(item, "slug"@));
        if slug.len() > 0 {
            Some(
                ChapterView {
                    url: clean + "/"@ + slug,
                    title: title_for((i + 1) as i32),
                    index: (i + 1) as i32,
                    release_date: None,
                    scanlation: None,
                },
            )
        } else {
            None
        }
    }
}

/// Chapters of the AJAX response (`None` when it failed or is not JSON).
pub open spec fn nf_ajax_chapters(clean: Seq<char>, json: Option<JsonValue>) -> Seq<ChapterView> {
    match json {
        Some(j) => match get_array(j, "data"@) {
            Some(arr) => filter_some(arr.map(|i: int, it: JsonValue| nf_ajax_chapter(clean, i, it))),
            None => Seq::empty(),
        },
        None => Seq::empty(),
    }
}

/// Chapter of link `i` of the chapter-list page.
pub open spec fn nf_list_chapter(base: Seq<char>, i: int, a: SnapView) -> ChapterView {
    ChapterView {
        url: abs_http_join(base, or_empty(sattr(a, "href"@))),
        title: if ttext(a).len() == 0 {
            chapter_n(i + 1)
        } else {
            ttext(a)
        },
        index: (i + 1) as i32,
        release_date: None,
        scanlation: None,
    }
}

pub open spec fn nf_list_chapters(base: Seq<char>, links: Seq<SnapView>) -> Seq<ChapterView> {
    links.map(|i: int, a: SnapView| nf_list_chapter(base, i, a))
}

/// Where the chapter fetch of a novel stands.
pub enum NovelFireFetch {
    /// The AJAX chapter list was asked for.
    Ajax,
    /// The chapter-list page was asked for.
    List,
    /// Finished with these chapters.
    Done { chapters: Vec<ChapterDto> },
}

// ---------------------------------------------------------------------------
// Listing pages
// ---------------------------------------------------------------------------
/// `(sort, status)` path parts of a listing.
pub open spec fn nf_listing_parts(listing_id: Seq<char>) -> (Seq<char>, Seq<char>) {
    if listing_id == "completed"@ {
        ("popular"@, "status-completed"@)
    } else {
        (listing_id, "status-all"@)
    }
}

/// `{base}/genre-all/sort-{sort}/{status}/all-novel?page={page}`.
pub open spec fn nf_listing_url(base: Seq<char>, listing_id: Seq<char>, page: i32) -> Seq<char> {
    let (sort, status) = nf_listing_parts(listing_id);
    trim_end_char(base, '/') + "/genre-all/sort-"@ + sort + "/"@ + status + "/all-novel?page="@
        + dec(page as int)
}

/// One listing entry: its first heading, its links, its first image.
pub struct NfListItem {
    pub heading: Option<Snap>,
    pub links: Vec<Snap>,
    pub cover: Option<Snap>,
}

pub struct NfListItemView {
    pub heading: Option<SnapView>,
    pub links: Seq<SnapView>,
    pub cover: Option<SnapView>,
}

/// The selectors of a listing page that must parse, in the order they are
/// compiled.
pub open spec fn nf_listing_selectors(e: NovelFireEngine) -> Seq<Seq<char>> {
    seq![e.list_item_selector@, e.list_link_selector@, e.list_cover_selector@, "h4.novel-title, h4, .item-title"@]
}

/// The items of a listing page under `n`: for each item, its first heading,
/// all its links (with `title` and `href`) and its first cover image.
pub open spec fn nf_list_items(e: NovelFireEngine, n: NodeRef) -> Seq<NfListItemView> {
    let item = e.list_item_selector@;
    Seq::new(
        count_in(n, item),
        |i: int|
            NfListItemView {
                heading: select_first(child(n, item, i), "h4.novel-title, h4, .item-title"@, Seq::empty()),
                links: select_snaps(child(n, item, i), e.list_link_selector@, seq!["title"@, "href"@]),
                cover: select_first(child(n, item, i), e.list_cover_selector@, seq!["data-src"@, "data-original"@, "src"@]),
            },
    )
}

impl View for NfListItem {
    type V = NfListItemView;

    open spec fn view(&self) -> NfListItemView {
        NfListItemView {
            heading: osnap(self.heading),
            links: snap_views(self.links@),
            cover: osnap(self.cover),
        }
    }
}

pub open spec fn nf_items_view(v: Seq<NfListItem>) -> Seq<NfListItemView> {
    v.map_values(|it: NfListItem| it@)
}

/// Scans the links of an entry: while the title is empty, a link's trimmed
/// `title` attribute, else its text, supplies it; the first link with a
/// nonempty `href` other than `#` gives the URL and ends the scan.
pub open spec fn nf_scan(base: Seq<char>, title: Seq<char>, links: Seq<SnapView>) -> (Seq<char>, Seq<char>)
    decreases links.len(),
{
    if links.len() == 0 {
        (title, Seq::empty())
    } else {
        let a = links[0];
        let t = if title.len() == 0 {
            let ta = trim(or_empty(sattr(a, "title"@)));
            if ta.len() > 0 {
                ta
            } else if ttext(a).len() > 0 {
                ttext(a)
            } else {
                title
            }
        } else {
            title
        };
        match sattr(a, "href"@) {
            Some(h) => if trim(h).len() > 0 && h != "#"@ {
                (t, abs_http_join(base, h))
            } else {
                nf_scan(base, t, links.subrange(1, links.len() as int))
            },
            None => nf_scan(base, t, links.subrange(1, links.len() as int)),
        }
    }
}

/// The result for one listing entry (covers given as `data:` URLs are dropped).
pub open spec fn nf_listing_entry(base: Seq<char>, it: NfListItemView) -> Option<SearchResultView> {
    let t0 = match it.heading {
        Some(h) => ttext(h),
        None => Seq::empty(),
    };
    let (title, url) = nf_scan(base, t0, it.links);
    let cover_url = match it.cover {
        Some(img) => match first_attr(img, seq!["data-src"@, "data-original"@, "src"@]) {
            Some(s) => if starts_with(s, "data:"@) {
                None
            } else {
                Some(abs_http_join(base, s))
            },
            None => None,
        },
        None => None,
    };
    if title.len() > 0 && url.len() > 0 {
        Some(SearchResultView { url, title, cover_url, author: None })
    } else {
        None
    }
}

pub open spec fn nf_listing(base: Seq<char>, items: Seq<NfListItemView>) -> Seq<SearchResultView> {
    filter_some(items.map_values(|it: NfListItemView| nf_listing_entry(base, it)))
}

// ---------------------------------------------------------------------------
// Implementation
// ---------------------------------------------------------------------------
fn digits_after_quotes_exec(rest: &Vec<char>) -> (r: Vec<char>)
    ensures
        r@ == digits_after_quotes(rest@),
{
    let mut i: usize = 0;
    while i < rest.len() && (rest[i] == '"' || rest[i] == '\'')
        invariant
            i <= rest.len(),
            forall|j: int| 0 <= j < i ==> (rest@[j] == '"' || rest@[j] == '\''),
        decreases rest.len() - i,
    {
        i += 1;
    }
    proof {
        lemma_lead_count(rest@, quote_pred(), i as int);
    }
    digit_prefix_exec(&slice_exec(rest, i, rest.len()))
}

fn nf_id_from_patterns_exec(html: &Vec<char>, pats: &Vec<Vec<char>>) -> (r: Vec<char>)
    ensures
        r@ == nf_id_from_patterns(html@, vviews(pats@)),
{
    let ghost all = vviews(pats@);
    assert(all.subrange(0, all.len() as int) =~= all);
    let mut i: usize = 0;
    while i < pats.len()
        invariant
            i <= pats.len(),
            all == vviews(pats@),
            nf_id_from_patterns(html@, all) == nf_id_from_patterns(
                html@,
                all.subrange(i as int, all.len() as int),
            ),
        decreases pats.len() - i,
    {
        let ghost rest = all.subrange(i as int, all.len() as int);
        assert(rest[0] == pats@[i as int]@);
        assert(rest.subrange(1, rest.len() as int) =~= all.subrange(i + 1, all.len() as int));
        match find_exec(html, &pats[i]) {
            Some(p) => {
                proof {
                    lemma_find(html@, pats[i as int]@);
                }
                let plen = pats[i].len();
                let hlen = html.len();
                let after = slice_exec(html, p + plen, hlen);
                let d = digits_after_quotes_exec(&after);
                if d.len() > 0 {
                    return d;
                }
            },
            None => {},
        }
        i += 1;
    }
    Vec::new()
}

impl NovelFireEngine {
    /// An engine for the site at `base_url` with the default layout.
    pub fn new(base_url: String) -> (e: Self)
        ensures
            e.base_url@ == base_url@,
            e.novel_path_prefix@ == "novel"@,
            e.search_endpoint@ == "ajax/searchLive"@,
            e.search_query_param@ == "keyword"@,
            e.search_type_param@ == "type=title"@,
            e.search_json_title_key@ == "title"@,
            e.search_json_slug_key@ == "slug"@,
            e.search_json_image_key@ == "image"@,
            e.chapter_ajax_endpoint@ == "ajax/listChapterDataAjax"@,
            e.chapter_list_path@ == "chapters"@,
            e.listing_path@ == "genre-all/sort"@,
            e.listing_status_path@ == "status-all/all-novel"@,
            e.list_item_selector@ == ".novel-item, .item"@,
            e.list_link_selector@ == ".item-body h4 a, h4.novel-title a, h4 a, .item-title a, a"@,
            e.list_cover_selector@ == "figure.cover img, figure.novel-cover img, img.cover, img"@,
            e.detail_title_selector@ == "h1.novel-title"@,
            e.detail_author_selector@
                == ".author a[itemprop='author'], .author span[itemprop='author'], .author a"@,
            e.detail_cover_selector@
                == ".fixed-img figure.cover img, .glass-background img, .cover img"@,
            e.detail_desc_selector@ == ".summary .content, [itemprop='description']"@,
            e.detail_genre_selector@ == ".categories ul li a, .categories li a"@,
            e.detail_status_selector@
                == ".header-stats strong.ongoing, .header-stats strong.completed, .header-stats span strong"@,
            e.detail_post_id_selector@
                == "#novel-report, [report-post_id], [data-id], input#post_id"@,
            e.detail_post_id_attr@ == "report-post_id"@,
            e.chapter_list_selector@ == "ul.chapter-list li a, .chapter-list a"@,
            e.chapter_content_selector@
                == "#chapter-content, #content, .content, .chapter-body, .chapter-text"@,
            e.listings.deep_view() == nf_default_listings(),
    {
        let listings = vec![
            ListingDto { id: String::from_str("popular"), name: String::from_str("Popular") },
            ListingDto { id: String::from_str("new"), name: String::from_str("New Novels") },
            ListingDto { id: String::from_str("top-rated"), name: String::from_str("Top Rated") },
            ListingDto { id: String::from_str("view"), name: String::from_str("Most Viewed") },
            ListingDto { id: String::from_str("completed"), name: String::from_str("Completed") },
        ];
        assert(listings.deep_view() =~= nf_default_listings());
        NovelFireEngine {
            base_url,
            novel_path_prefix: String::from_str("novel"),
            search_endpoint: String::from_str("ajax/searchLive"),
            search_query_param: String::from_str("keyword"),
            search_type_param: String::from_str("type=title"),
            search_json_title_key: String::from_str("title"),
            search_json_slug_key: String::from_str("slug"),
            search_json_image_key: String::from_str("image"),
            chapter_ajax_endpoint: String::from_str("ajax/listChapterDataAjax"),
            chapter_list_path: String::from_str("chapters"),
            listing_path: String::from_str("genre-all/sort"),
            listing_status_path: String::from_str("status-all/all-novel"),
            list_item_selector: String::from_str(".novel-item, .item"),
            list_link_selector: String::from_str(
                ".item-body h4 a, h4.novel-title a, h4 a, .item-title a, a",
            ),
            list_cover_selector: String::from_str(
                "figure.cover img, figure.novel-cover img, img.cover, img",
            ),
            detail_title_selector: String::from_str("h1.novel-title"),
            detail_author_selector: String::from_str(
                ".author a[itemprop='author'], .author span[itemprop='author'], .author a",
            ),
            detail_cover_selector: String::from_str(
                ".fixed-img figure.cover img, .glass-background img, .cover img",
            ),
            detail_desc_selector: String::from_str(".summary .content, [itemprop='description']"),
            detail_genre_selector: String::from_str(".categories ul li a, .categories li a"),
            detail_status_selector: String::from_str(
                ".header-stats strong.ongoing, .header-stats strong.completed, .header-stats span strong",
            ),
            detail_post_id_selector: String::from_str(
                "#novel-report, [report-post_id], [data-id], input#post_id",
            ),
            detail_post_id_attr: String::from_str("report-post_id"),
            chapter_list_selector: String::from_str("ul.chapter-list li a, .chapter-list a"),
            chapter_content_selector: String::from_str(
                "#chapter-content, #content, .content, .chapter-body, .chapter-text",
            ),
            listings,
        }
    }

    pub open spec fn keys(&self) -> SearchKeys {
        SearchKeys {
            title: self.search_json_title_key@,
            slug: self.search_json_slug_key@,
            image: self.search_json_image_key@,
            prefix: self.novel_path_prefix@,
        }
    }

    /// Absolute form of a link found on the site (see [`abs_http_join`]).
    pub fn abs_url(&self, href: &Vec<char>) -> (r: Vec<char>)
        ensures
            r@ == abs_http_join(self.base_url@, href@),
    {
        abs_http_join_exec(&chars_of(self.base_url.as_str()), href)
    }

    /// Request for a live search.
    pub fn search(&self, query: &str) -> (r: Request)
        ensures
            r@ == get_spec(
                nf_search_url(
                    self.base_url@,
                    self.search_endpoint@,
                    self.search_query_param@,
                    self.search_type_param@,
                    query@,
                ),
            ),
    {
        let base = chars_of(self.base_url.as_str());
        let mut u = join_path_exec(&base, &chars_of(self.search_endpoint.as_str()));
        push_all(&mut u, &lit("?"));
        push_all(&mut u, &chars_of(self.search_query_param.as_str()));
        push_all(&mut u, &lit("="));
        proof {
            reveal_strlit(" ");
        }
        push_all(&mut u, &replace_exec(&chars_of(query), &lit(" "), &lit("%20")));
        let t = chars_of(self.search_type_param.as_str());
        if t.len() > 0 {
            push_all(&mut u, &lit("&"));
            push_all(&mut u, &t);
        }
        get_request(&u)
    }

    fn search_entry(&self, item: &JsonValue) -> (r: Option<SearchResultDto>)
        ensures
            r.deep_view() == nf_search_entry(self.base_url@, self.keys(), *item),
    {
        let title = or_empty_exec(get_str_exec(item, self.search_json_title_key.as_str()));
        let slug = or_empty_exec(get_str_exec(item, self.search_json_slug_key.as_str()));
        let image = or_empty_exec(get_str_exec(item, self.search_json_image_key.as_str()));
        if title.len() > 0 && slug.len() > 0 {
            let base = chars_of(self.base_url.as_str());
            let cover_url = if image.len() > 0 {
                Some(string_of(&self.abs_url(&image)))
            } else {
                None
            };
            let prefix = chars_of(self.novel_path_prefix.as_str());
            let url = if starts_with_exec(&slug, &lit("http")) {
                slug
            } else if prefix.len() == 0 {
                join_path_exec(&base, &slug)
            } else {
                let mut u = trim_end_char_exec(&base, '/');
                push_all(&mut u, &lit("/"));
                push_all(&mut u, &trim_end_char_exec(&trim_start_char_exec(&prefix, '/'), '/'));
                push_all(&mut u, &lit("/"));
                push_all(&mut u, &trim_start_char_exec(&slug, '/'));
                u
            };
            Some(
                SearchResultDto {
                    url: string_of(&url),
                    title: string_of(&title),
                    cover_url,
                    author: None,
                },
            )
        } else {
            None
        }
    }

    /// Search results of the search response (see [`nf_search_results`]).
    /// The results of a search response's text, read as JSON (see
    /// [`nf_search_results`]).
    pub fn search_body(&self, body: &str) -> (r: Vec<SearchResultDto>)
        ensures
            r.deep_view() == nf_search_results(self.base_url@, self.keys(), crate::json::json_of(body@)),
    {
        self.search_results(crate::json::parse_json(body))
    }

    /// URL fetched for a novel page: the novel URL without trailing slashes.
    pub fn details_url(&self, novel_url: &str) -> (r: String)
        ensures
            r@ == trim_end_char(novel_url@, '/'),
    {
        string_of(&trim_end_char_exec(&chars_of(novel_url), '/'))
    }

    pub fn search_results(&self, json: Option<JsonValue>) -> (r: Vec<SearchResultDto>)
        ensures
            r.deep_view() == nf_search_results(self.base_url@, self.keys(), json),
    {
        let arr = match &json {
            Some(j) => match j.get("data") {
                Some(d) => match d.as_array() {
                    Some(a) => a,
                    None => {
                        let r: Vec<SearchResultDto> = Vec::new();
                        assert(r.deep_view() =~= nf_search_results(self.base_url@, self.keys(), json));
                        return r;
                    },
                },
                None => {
                    let r: Vec<SearchResultDto> = Vec::new();
                    assert(r.deep_view() =~= nf_search_results(self.base_url@, self.keys(), json));
                    return r;
                },
            },
            None => {
                let r: Vec<SearchResultDto> = Vec::new();
                assert(r.deep_view() =~= nf_search_results(self.base_url@, self.keys(), json));
                return r;
            },
        };
        let ghost mapped = arr@.map_values(
            |it: JsonValue| nf_search_entry(self.base_url@, self.keys(), it),
        );
        let mut r: Vec<SearchResultDto> = Vec::new();
        let mut i: usize = 0;
        while i < arr.len()
            invariant
                i <= arr.len(),
                mapped == arr@.map_values(
                    |it: JsonValue| nf_search_entry(self.base_url@, self.keys(), it),
                ),
                r.deep_view() == filter_some(mapped.take(i as int)),
            decreases arr.len() - i,
        {
            let e = self.search_entry(&arr[i]);
            proof {
                lemma_filter_some_step(mapped, i as int);
            }
            match e {
                Some(x) => {
                    let ghost before = r.deep_view();
                    r.push(x);
                    assert(r.deep_view() =~= before.push(x.deep_view()));
                },
                None => {},
            }
            i += 1;
        }
        assert(mapped.take(arr.len() as int) =~= mapped);
        r
    }

    /// What the library makes of a read novel page (see [`nf_details`]).
    pub fn assemble_details(&self, raw: &NfDetailsRaw) -> (d: NfDetails)
        ensures
            d@ == nf_details(self.base_url@, self.detail_post_id_attr@, raw@),
    {
        let base = chars_of(self.base_url.as_str());
        let title = match &raw.title {
            Some(t) => t.trimmed(),
            None => Vec::new(),
        };
        let cover_url = match &raw.cover {
            Some(img) => {
                let names = ["src", "data-src"];
                assert(strs(names@) =~= seq!["src"@, "data-src"@]);
                match first_attr_exec(img, &names) {
                    Some(s) => Some(self.abs_url(&s)),
                    None => None,
                }
            },
            None => None,
        };
        let mut genres: Vec<Vec<char>> = Vec::new();
        assert(vviews(genres@) =~= Seq::<Seq<char>>::empty());
        add_genres_exec(&mut genres, &raw.genres);
        let attr = self.detail_post_id_attr.as_str();
        let from_el = match &raw.id_element {
            Some(Some(e)) => {
                let names = [attr, "data-id", "value"];
                assert(strs(names@) =~= seq![attr@, "data-id"@, "value"@]);
                or_empty_exec(first_attr_exec(e, &names))
            },
            _ => Vec::new(),
        };
        let post_id = if from_el.len() > 0 {
            from_el
        } else {
            let mut first = chars_of(attr);
            first.push('=');
            let pats = vec![first, lit("report-post_id="), lit("post_id="), lit("data-id=")];
            proof {
                reveal_strlit("=");
                assert(pats@[0]@ =~= attr@ + "="@);
            }
            assert(vviews(pats@) =~= seq![
                attr@ + "="@,
                "report-post_id="@,
                "post_id="@,
                "data-id="@,
            ]);
            nf_id_from_patterns_exec(&raw.page_html, &pats)
        };
        NfDetails {
            title: string_of(&title),
            author: opt_string(nonempty_text_exec(&raw.author)),
            cover_url: opt_string(cover_url),
            description: opt_string(nonempty_text_exec(&raw.description)),
            genres: strings_of(&genres),
            status: opt_string(nonempty_text_exec(&raw.status)),
            post_id: string_of(&post_id),
        }
    }

    /// Reads a novel page. An invalid title, author, cover, description,
    /// genre or status selector is an error (the first such one, in order).
    pub fn get_novel_details(&self, page_html: &str) -> (r: Result<NfDetails, String>)
        ensures
            match r {
                Err(e) => first_selector_error(nf_detail_selectors(*self)) == Some(e@),
                Ok(d) => first_selector_error(nf_detail_selectors(*self)) is None && d@ == nf_details(
                    self.base_url@,
                    self.detail_post_id_attr@,
                    nf_details_raw(*self, page_html@),
                ),
            },
    {
        let title_sel = match compile_selector(self.detail_title_selector.as_str()) {
            Ok(s) => s,
            Err(e) => {
                proof {
                    lemma_first_selector_error_at(nf_detail_selectors(*self), 0);
                }
                return Err(e);
            },
        };
        let author_sel = match compile_selector(self.detail_author_selector.as_str()) {
            Ok(s) => s,
            Err(e) => {
                proof {
                    lemma_first_selector_error_at(nf_detail_selectors(*self), 1);
                }
                return Err(e);
            },
        };
        let cover_sel = match compile_selector(self.detail_cover_selector.as_str()) {
            Ok(s) => s,
            Err(e) => {
                proof {
                    lemma_first_selector_error_at(nf_detail_selectors(*self), 2);
                }
                return Err(e);
            },
        };
        let desc_sel = match compile_selector(self.detail_desc_selector.as_str()) {
            Ok(s) => s,
            Err(e) => {
                proof {
                    lemma_first_selector_error_at(nf_detail_selectors(*self), 3);
                }
                return Err(e);
            },
        };
        let genre_sel = match compile_selector(self.detail_genre_selector.as_str()) {
            Ok(s) => s,
            Err(e) => {
                proof {
                    lemma_first_selector_error_at(nf_detail_selectors(*self), 4);
                }
                return Err(e);
            },
        };
        let status_sel = match compile_selector(self.detail_status_selector.as_str()) {
            Ok(s) => s,
            Err(e) => {
                proof {
                    lemma_first_selector_error_at(nf_detail_selectors(*self), 5);
                }
                return Err(e);
            },
        };
        let page = parse_document(page_html);
        let doc = &page;
        let none: &[&str] = &[];
        let img: &[&str] = &["src", "data-src"];
        let id_names: &[&str] = &[self.detail_post_id_attr.as_str(), "data-id", "value"];
        proof {
            assert(strs(none@) =~= Seq::<Seq<char>>::empty());
            assert(strs(img@) =~= seq!["src"@, "data-src"@]);
            assert(strs(id_names@) =~= seq![self.detail_post_id_attr@, "data-id"@, "value"@]);
        }
        let id_element = opt_first_of(doc, self.detail_post_id_selector.as_str(), id_names);
        let raw = NfDetailsRaw {
            title: first_of(doc, &title_sel, none),
            author: first_of(doc, &author_sel, none),
            cover: first_of(doc, &cover_sel, img),
            description: first_of(doc, &desc_sel, none),
            genres: all_of(doc, &genre_sel, none),
            status: first_of(doc, &status_sel, none),
            id_element,
            page_html: chars_of(document_html(doc).as_str()),
        };
        assert(raw@ == nf_details_raw(*self, page_html@));
        proof {
            crate::dom::lemma_first_selector_error_none(nf_detail_selectors(*self));
        }
        Ok(self.assemble_details(&raw))
    }

    fn list_request_exec(&self, novel_url: &str) -> (r: Request)
        ensures
            r@ == nf_list_request(trim_end_char(novel_url@, '/'), self.chapter_list_path@),
    {
        let mut u = trim_end_char_exec(&chars_of(novel_url), '/');
        push_all(&mut u, &lit("/"));
        push_all(&mut u, &trim_start_char_exec(&chars_of(self.chapter_list_path.as_str()), '/'));
        get_request(&u)
    }

    /// First step of the chapter fetch: the AJAX chapter list when the post
    /// id is known, else the chapter-list page.
    pub fn fetch_start(&self, novel_url: &str, details: &NfDetails) -> (r: (NovelFireFetch, Request))
        ensures
            details.post_id@.len() > 0 ==> (r.0 is Ajax && r.1@ == nf_ajax_request(
                self.base_url@,
                self.chapter_ajax_endpoint@,
                trim_end_char(novel_url@, '/'),
                details.post_id@,
            )),
            details.post_id@.len() == 0 ==> (r.0 is List && r.1@ == nf_list_request(
                trim_end_char(novel_url@, '/'),
                self.chapter_list_path@,
            )),
    {
        let id = chars_of(details.post_id.as_str());
        if id.len() > 0 {
            let clean = trim_end_char_exec(&chars_of(novel_url), '/');
            let base = chars_of(self.base_url.as_str());
            let mut u = join_path_exec(&base, &chars_of(self.chapter_ajax_endpoint.as_str()));
            push_all(&mut u, &lit("?draw=1&start=0&length=-1&post_id="));
            push_all(&mut u, &id);
            push_all(
                &mut u,
                &lit(
                    "&order[0][column]=0&order[0][dir]=asc&order[0][name]=cmm_posts_detail.n_sort&columns[0][data]=n_sort&columns[0][name]=cmm_posts_detail.n_sort&columns[0][searchable]=true&columns[0][orderable]=true&columns[0][search][value]=&columns[0][search][regex]=false&columns[1][data]=bookmark_created_at&columns[1][name]=bookmark_chapters.created_at&columns[1][searchable]=false&columns[1][orderable]=true&columns[1][search][value]=&columns[1][search][regex]=false&search[value]=&search[regex]=false&only_bookmark=false",
                ),
            );
            let r = get_request(&u);
            let r = with_header(r, "Referer", &clean);
            let r = with_header(r, "X-Requested-With", &lit("XMLHttpRequest"));
            assert(r@.headers =~= seq![
                ("Referer"@, clean@),
                ("X-Requested-With"@, "XMLHttpRequest"@),
            ]);
            (NovelFireFetch::Ajax, r)
        } else {
            (NovelFireFetch::List, self.list_request_exec(novel_url))
        }
    }

    fn ajax_chapter(&self, clean: &Vec<char>, i: usize, item: &JsonValue) -> (r: Option<ChapterDto>)
        requires
            i < usize::MAX,
        ensures
            r.deep_view() == nf_ajax_chapter(clean@, i as int, *item),
    {
        let raw_title = match get_str_exec(item, "title") {
            Some(t) => t,
            None => or_empty_exec(get_str_exec(item, "slug")),
        };
        let n_sort: i32 = match get_i64_exec(item, "n_sort") {
            Some(n) => #[verifier::truncate] (n as i32),
            None => -1,
        };
        if n_sort > 0 {
            let mut u = clean.clone();
            push_all(&mut u, &lit("/chapter-"));
            push_all(&mut u, &dec_exec(n_sort as i64));
            let title = if raw_title.len() == 0 {
                concat2(&lit("Chapter "), &dec_exec(n_sort as i64))
            } else {
                raw_title
            };
            Some(
                ChapterDto {
                    url: string_of(&u),
                    title: string_of(&title),
                    index: n_sort,
                    release_date: None,
                    scanlation: None,
                },
            )
        } else {
            let slug = or_empty_exec(get_str_exec(item, "slug"));
            if slug.len() > 0 {
                let mut u = clean.clone();
                push_all(&mut u, &lit("/"));
                push_all(&mut u, &slug);
                let idx: i32 = #[verifier::truncate] ((i + 1) as i32);
                let title = if raw_title.len() == 0 {
                    concat2(&lit("Chapter "), &dec_exec(idx as i64))
                } else {
                    raw_title
                };
                Some(
                    ChapterDto {
                        url: string_of(&u),
                        title: string_of(&title),
                        index: idx,
                        release_date: None,
                        scanlation: None,
                    },
                )
            } else {
                None
            }
        }
    }

    /// Chapters of the AJAX response (see [`nf_ajax_chapters`]).
    pub fn ajax_chapters(&self, novel_url: &str, json: &Option<JsonValue>) -> (r: Vec<ChapterDto>)
        ensures
            r.deep_view() == nf_ajax_chapters(trim_end_char(novel_url@, '/'), *json),
    {
        let clean = trim_end_char_exec(&chars_of(novel_url), '/');
        let arr = match json {
            Some(j) => match j.get("data") {
                Some(d) => match d.as_array() {
                    Some(a) => a,
                    None => return Vec::new(),
                },
                None => return Vec::new(),
            },
            None => return Vec::new(),
        };
        let ghost mapped = arr@.map(|i: int, it: JsonValue| nf_ajax_chapter(clean@, i, it));
        let mut r: Vec<ChapterDto> = Vec::new();
        let mut i: usize = 0;
        while i < arr.len()
            invariant
                i <= arr.len(),
                mapped == arr@.map(|i: int, it: JsonValue| nf_ajax_chapter(clean@, i, it)),
                r.deep_view() == filter_some(mapped.take(i as int)),
            decreases arr.len() - i,
        {
            let e = self.ajax_chapter(&clean, i, &arr[i]);
            proof {
                lemma_filter_some_step(mapped, i as int);
            }
            match e {
                Some(x) => {
                    let ghost before = r.deep_view();
                    r.push(x);
                    assert(r.deep_view() =~= before.push(x.deep_view()));
                },
                None => {},
            }
            i += 1;
        }
        assert(mapped.take(arr.len() as int) =~= mapped);
        r
    }

    /// After the AJAX response (`None` when it failed or is not JSON): done
    /// when it gave chapters, else the chapter-list page is asked for.
    /// The chapter AJAX response's text (`None`: the request failed), read as
    /// JSON and handed to [`Self::on_ajax`].
    pub fn on_ajax_body(&self, novel_url: &str, body: Option<String>) -> (r: (NovelFireFetch, Option<Request>))
        ensures
            ({
                let json = crate::json::opt_json(body);
                &&& nf_ajax_chapters(trim_end_char(novel_url@, '/'), json).len() > 0 ==> (r.0 matches NovelFireFetch::Done { chapters }
                    && chapters.deep_view() == nf_ajax_chapters(trim_end_char(novel_url@, '/'), json)
                    && r.1 is None)
                &&& nf_ajax_chapters(trim_end_char(novel_url@, '/'), json).len() == 0 ==> (r.0 is List
                    && oreq(r.1) == Some(nf_list_request(trim_end_char(novel_url@, '/'), self.chapter_list_path@)))
            }),
    {
        let json = crate::json::parse_opt_json(&body);
        self.on_ajax(novel_url, json)
    }

    pub fn on_ajax(&self, novel_url: &str, json: Option<JsonValue>) -> (r: (NovelFireFetch, Option<Request>))
        ensures
            nf_ajax_chapters(trim_end_char(novel_url@, '/'), json).len() > 0 ==> (r.0 matches NovelFireFetch::Done { chapters }
                && chapters.deep_view() == nf_ajax_chapters(trim_end_char(novel_url@, '/'), json)
                && r.1 is None),
            nf_ajax_chapters(trim_end_char(novel_url@, '/'), json).len() == 0 ==> (r.0 is List
                && oreq(r.1) == Some(
                nf_list_request(trim_end_char(novel_url@, '/'), self.chapter_list_path@),
            )),
    {
        let chapters = self.ajax_chapters(novel_url, &json);
        if chapters.len() > 0 {
            (NovelFireFetch::Done { chapters }, None)
        } else {
            (NovelFireFetch::List, Some(self.list_request_exec(novel_url)))
        }
    }

    /// After the chapter-list page response: its chapter links, numbered
    /// from 1 (none when it failed or the list selector is invalid).
    pub fn on_list(&self, resp: Result<String, String>) -> (r: NovelFireFetch)
        ensures
            r matches NovelFireFetch::Done { chapters } && chapters.deep_view() == match resp {
                Ok(h) => if sel_ok(self.chapter_list_selector@) {
                    nf_list_chapters(
                        self.base_url@,
                        select_snaps(root(h@, false), self.chapter_list_selector@, seq!["href"@]),
                    )
                } else {
                    Seq::empty()
                },
                Err(_) => Seq::empty(),
            },
    {
        let base = chars_of(self.base_url.as_str());
        let empty: Vec<ChapterDto> = Vec::new();
        assert(empty.deep_view() =~= nf_list_chapters(self.base_url@, Seq::empty()));
        let ghost rv = resp;
        let html = match resp {
            Ok(h) => h,
            Err(_) => return NovelFireFetch::Done { chapters: empty },
        };
        assert(rv == Ok::<String, String>(html));
        let doc = parse_document(html.as_str());
        let sel = match compile_selector(self.chapter_list_selector.as_str()) {
            Ok(s) => s,
            Err(_) => return NovelFireFetch::Done { chapters: empty },
        };
        let href: &[&str] = &["href"];
        proof {
            assert(strs(href@) =~= seq!["href"@]);
        }
        let links = all_of(&doc, &sel, href);
        let ghost lv = snap_views(links@);
        let mut r: Vec<ChapterDto> = Vec::new();
        let mut i: usize = 0;
        while i < links.len()
            invariant
                i <= links.len(),
                lv == snap_views(links@),
                base@ == self.base_url@,
                r@.len() == i,
                forall|j: int| 0 <= j < i ==> #[trigger] r@[j].deep_view() == nf_list_chapter(
                    base@,
                    j,
                    lv[j],
                ),
            decreases links.len() - i,
        {
            let href = or_empty_exec(links[i].get_attr("href"));
            let t = links[i].trimmed();
            let title = if t.len() == 0 {
                concat2(&lit("Chapter "), &udec_exec((i + 1) as u64))
            } else {
                t
            };
            r.push(
                ChapterDto {
                    url: string_of(&self.abs_url(&href)),
                    title: string_of(&title),
                    index: #[verifier::truncate] ((i + 1) as i32),
                    release_date: None,
                    scanlation: None,
                },
            );
            i += 1;
        }
        assert(r.deep_view() =~= nf_list_chapters(self.base_url@, lv));
        NovelFireFetch::Done { chapters: r }
    }

    /// The novel: its details and its chapters sorted stably by index.
    pub fn finish_details(&self, novel_url: &str, details: NfDetails, chapters: Vec<ChapterDto>) -> (n: NovelDto)
        ensures
            n.url@ == novel_url@,
            n.title@ == details@.title,
            os(n.author) == details@.author,
            os(n.cover_url) == details@.cover_url,
            os(n.description) == details@.description,
            os(n.status) == details@.status,
            sviews(n.genres@) == details@.genres,
            stable_sorted(SortKey::Index, chapters.deep_view(), n.chapters.deep_view()),
            n.extra@ == Map::<String, String>::empty(),
    {
        NovelDto {
            url: String::from_str(novel_url),
            title: details.title,
            author: details.author,
            cover_url: details.cover_url,
            description: details.description,
            status: details.status,
            genres: details.genres,
            chapters: stable_sort(SortKey::Index, chapters),
            extra: HashMap::new(),
        }
    }

    /// Request for a chapter page, with the chapter URL as `Referer`.
    pub fn chapter_request(&self, chapter_url: &str) -> (r: Request)
        ensures
            r@ == (RequestView {
                headers: seq![("Referer"@, chapter_url@)],
                ..get_spec(chapter_url@)
            }),
    {
        let u = chars_of(chapter_url);
        let r = get_request(&u);
        let r = with_header(r, "Referer", &u);
        assert(r@.headers =~= seq![("Referer"@, chapter_url@)]);
        r
    }

    /// Chapter text of a chapter page (see [`first_clean`]).
    pub fn get_chapter_content(&self, page_html: &str) -> (r: Result<Option<String>, String>)
        ensures
            match r {
                Err(e) => selector_parse_error(self.chapter_content_selector@) == Some(e@),
                Ok(o) => selector_parse_error(self.chapter_content_selector@) is None
                    && os(o) == crate::content::first_clean(page_html@, self.chapter_content_selector@, engine_tags()),
            },
    {
        let tags = engine_tag_list();
        select_clean(page_html, self.chapter_content_selector.as_str(), &tags)
    }

    /// The listings that this site offers.
    pub fn get_listings(&self) -> (r: Vec<ListingDto>)
        ensures
            r.deep_view() == self.listings.deep_view(),
    {
        clone_listings(&self.listings)
    }

    /// Request for a listing page.
    pub fn get_listing_novels(&self, listing_id: &str, page: i32) -> (r: Request)
        ensures
            r@ == get_spec(nf_listing_url(self.base_url@, listing_id@, page)),
    {
        let id = chars_of(listing_id);
        let (sort, status) = if str_eq("completed", &id) {
            (lit("popular"), lit("status-completed"))
        } else {
            (id, lit("status-all"))
        };
        let mut u = trim_end_char_exec(&chars_of(self.base_url.as_str()), '/');
        push_all(&mut u, &lit("/genre-all/sort-"));
        push_all(&mut u, &sort);
        push_all(&mut u, &lit("/"));
        push_all(&mut u, &status);
        push_all(&mut u, &lit("/all-novel?page="));
        push_all(&mut u, &dec_exec(page as i64));
        get_request(&u)
    }

    fn scan_exec(&self, base: &Vec<char>, t0: Vec<char>, links: &Vec<Snap>) -> (r: (Vec<char>, Vec<char>))
        requires
            base@ == self.base_url@,
        ensures
            (r.0@, r.1@) == nf_scan(self.base_url@, t0@, snap_views(links@)),
    {
        let ghost all = snap_views(links@);
        let mut title = t0;
        let mut i: usize = 0;
        assert(all.subrange(0, all.len() as int) =~= all);
        while i < links.len()
            invariant
                i <= links.len(),
                base@ == self.base_url@,
                all == snap_views(links@),
                nf_scan(self.base_url@, t0@, all) == nf_scan(
                    self.base_url@,
                    title@,
                    all.subrange(i as int, all.len() as int),
                ),
            decreases links.len() - i,
        {
            let ghost rest = all.subrange(i as int, all.len() as int);
            assert(rest[0] == links@[i as int]@);
            assert(rest.subrange(1, rest.len() as int) =~= all.subrange(i + 1, all.len() as int));
            let a = &links[i];
            if title.len() == 0 {
                let ta = trim_exec(&or_empty_exec(a.get_attr("title")));
                if ta.len() > 0 {
                    title = ta;
                } else {
                    let tx = a.trimmed();
                    if tx.len() > 0 {
                        title = tx;
                    }
                }
            }
            match a.get_attr("href") {
                Some(h) => {
                    if trim_exec(&h).len() > 0 && !str_eq("#", &h) {
                        let url = abs_http_join_exec(base, &h);
                        return (title, url);
                    }
                },
                None => {},
            }
            i += 1;
        }
        (title, Vec::new())
    }

    fn listing_entry(&self, it: &NfListItem) -> (r: Option<SearchResultDto>)
        ensures
            r.deep_view() == nf_listing_entry(self.base_url@, it@),
    {
        let base = chars_of(self.base_url.as_str());
        let t0 = match &it.heading {
            Some(h) => h.trimmed(),
            None => Vec::new(),
        };
        let (title, url) = self.scan_exec(&base, t0, &it.links);
        let cover_url = match &it.cover {
            Some(img) => {
                let names = ["data-src", "data-original", "src"];
                assert(strs(names@) =~= seq!["data-src"@, "data-original"@, "src"@]);
                match first_attr_exec(img, &names) {
                    Some(s) => if starts_with_exec(&s, &lit("data:")) {
                        None
                    } else {
                        Some(string_of(&self.abs_url(&s)))
                    },
                    None => None,
                }
            },
            None => None,
        };
        if title.len() > 0 && url.len() > 0 {
            Some(
                SearchResultDto {
                    url: string_of(&url),
                    title: string_of(&title),
                    cover_url,
                    author: None,
                },
            )
        } else {
            None
        }
    }

    /// Results of a listing page whose entries have been read.
    pub fn collect_listing(&self, items: &Vec<NfListItem>) -> (r: Vec<SearchResultDto>)
        ensures
            r.deep_view() == nf_listing(self.base_url@, nf_items_view(items@)),
    {
        let ghost mapped = nf_items_view(items@).map_values(
            |it: NfListItemView| nf_listing_entry(self.base_url@, it),
        );
        let mut r: Vec<SearchResultDto> = Vec::new();
        let mut i: usize = 0;
        while i < items.len()
            invariant
                i <= items.len(),
                mapped == nf_items_view(items@).map_values(
                    |it: NfListItemView| nf_listing_entry(self.base_url@, it),
                ),
                r.deep_view() == filter_some(mapped.take(i as int)),
            decreases items.len() - i,
        {
            let e = self.listing_entry(&items[i]);
            proof {
                lemma_filter_some_step(mapped, i as int);
                assert(mapped[i as int] == e.deep_view());
            }
            match e {
                Some(x) => {
                    let ghost before = r.deep_view();
                    r.push(x);
                    assert(r.deep_view() =~= before.push(x.deep_view()));
                },
                None => {},
            }
            i += 1;
        }
        assert(mapped.take(items.len() as int) =~= mapped);
        r
    }

    /// Reads a listing page. An invalid item, link, cover or heading selector
    /// is an error.
    pub fn parse_listing(&self, page_html: &str) -> (r: Result<Vec<SearchResultDto>, String>)
        ensures
            match r {
                Err(e) => first_selector_error(nf_listing_selectors(*self)) == Some(e@),
                Ok(v) => first_selector_error(nf_listing_selectors(*self)) is None && v.deep_view() == nf_listing(
                    self.base_url@,
                    nf_list_items(*self, root(page_html@, false)),
                ),
            },
    {
        let item_sel = match compile_selector(self.list_item_selector.as_str()) {
            Ok(s) => s,
            Err(e) => {
                proof {
                    lemma_first_selector_error_at(nf_listing_selectors(*self), 0);
                }
                return Err(e);
            },
        };
        let link_sel = match compile_selector(self.list_link_selector.as_str()) {
            Ok(s) => s,
            Err(e) => {
                proof {
                    lemma_first_selector_error_at(nf_listing_selectors(*self), 1);
                }
                return Err(e);
            },
        };
        let cover_sel = match compile_selector(self.list_cover_selector.as_str()) {
            Ok(s) => s,
            Err(e) => {
                proof {
                    lemma_first_selector_error_at(nf_listing_selectors(*self), 2);
                }
                return Err(e);
            },
        };
        let title_sel = match compile_selector("h4.novel-title, h4, .item-title") {
            Ok(s) => s,
            Err(e) => {
                proof {
                    lemma_first_selector_error_at(nf_listing_selectors(*self), 3);
                }
                return Err(e);
            },
        };
        let doc = parse_document(page_html);
        let ghost pn = page_node(&doc);
        let ghost want = nf_list_items(*self, pn);
        let none: &[&str] = &[];
        let link_names: &[&str] = &["title", "href"];
        let img: &[&str] = &["data-src", "data-original", "src"];
        proof {
            assert(strs(none@) =~= Seq::<Seq<char>>::empty());
            assert(strs(link_names@) =~= seq!["title"@, "href"@]);
            assert(strs(img@) =~= seq!["data-src"@, "data-original"@, "src"@]);
        }
        let found = select_all(&doc, &item_sel);
        let mut items: Vec<NfListItem> = Vec::new();
        let mut i: usize = 0;
        while i < found.len()
            invariant
                i <= found@.len(),
                found@.len() == want.len(),
                want == nf_list_items(*self, pn),
                item_sel.text() == self.list_item_selector@,
                link_sel.text() == self.list_link_selector@,
                cover_sel.text() == self.list_cover_selector@,
                title_sel.text() == "h4.novel-title, h4, .item-title"@,
                strs(none@) == Seq::<Seq<char>>::empty(),
                strs(link_names@) == seq!["title"@, "href"@],
                strs(img@) == seq!["data-src"@, "data-original"@, "src"@],
                forall|k: int| 0 <= k < found@.len() ==> (#[trigger] found@[k]).node() == child(pn, item_sel.text(), k),
                items@.len() == i,
                forall|k: int| 0 <= k < i ==> (#[trigger] items@[k])@ == want[k],
            decreases found@.len() - i,
        {
            items.push(
                NfListItem {
                    heading: first_in(&found[i], &title_sel, none),
                    links: crate::snap::all_in(&found[i], &link_sel, link_names),
                    cover: first_in(&found[i], &cover_sel, img),
                },
            );
            i += 1;
        }
        assert(items@.map_values(|it: NfListItem| it@) =~= want);
        proof {
            crate::dom::lemma_first_selector_error_none(nf_listing_selectors(*self));
        }
        Ok(self.collect_listing(&items))
    }
}

/// The chapters of a chapter-list page are numbered 1 to N in page order.
pub proof fn law_nf_list_chapters_numbered(base: Seq<char>, links: Seq<SnapView>)
    ensures
        nf_list_chapters(base, links).len() == links.len(),
        forall|i: int| 0 <= i < links.len() ==> (#[trigger] nf_list_chapters(base, links)[i]).index == (i + 1) as i32,
{
}

/// Every listing result has a nonempty title and URL and no author; its
/// cover, when it has one, is an absolute link (so never a `data:` URL),
/// when the base starts with `"http"`.
pub proof fn law_nf_listing_results(base: Seq<char>, items: Seq<NfListItemView>)
    requires
        starts_with(base, "http"@),
    ensures
        forall|k: int|
            0 <= k < nf_listing(base, items).len() ==> {
                let r = #[trigger] nf_listing(base, items)[k];
                &&& r.title.len() > 0 && r.url.len() > 0
                &&& r.author is None
                &&& r.cover_url matches Some(c) ==> starts_with(c, "http"@) && !starts_with(c, "data:"@)
            },
{
    reveal_strlit("http");
    reveal_strlit("data:");
    let p = |r: SearchResultView|
        r.title.len() > 0 && r.url.len() > 0 && r.author is None && (r.cover_url matches Some(c) ==> starts_with(
            c,
            "http"@,
        ) && !starts_with(c, "data:"@));
    let m = items.map_values(|it: NfListItemView| nf_listing_entry(base, it));
    assert forall|k: int| 0 <= k < m.len() implies (#[trigger] m[k] matches Some(x) ==> p(x)) by {
        let it = items[k];
        match it.cover {
            Some(img) => match first_attr(img, seq!["data-src"@, "data-original"@, "src"@]) {
                Some(s) => {
                    crate::urls::lemma_abs_http_starts(base, s);
                    let c = abs_http_join(base, s);
                    assert(c.subrange(0, 4)[0] == 'h');
                    if starts_with(c, "data:"@) {
                        assert(c.subrange(0, 5)[0] == 'd');
                    }
                },
                None => {},
            },
            None => {},
        }
    }
    crate::text::lemma_filter_some_all(m, p);
}

/// Every search result has a nonempty title and no author, and its URL and
/// cover, when the base starts with `"http"`, are absolute links.
pub proof fn law_nf_search_results(base: Seq<char>, keys: SearchKeys, json: Option<JsonValue>)
    requires
        starts_with(base, "http"@),
    ensures
        forall|k: int|
            0 <= k < nf_search_results(base, keys, json).len() ==> {
                let r = #[trigger] nf_search_results(base, keys, json)[k];
                &&& r.title.len() > 0
                &&& r.author is None
                &&& starts_with(r.url, "http"@)
                &&& r.cover_url matches Some(c) ==> starts_with(c, "http"@)
            },
{
    reveal_strlit("http");
    reveal_strlit("/");
    let p = |r: SearchResultView|
        r.title.len() > 0 && r.author is None && starts_with(r.url, "http"@) && (r.cover_url matches Some(c)
            ==> starts_with(c, "http"@));
    match json {
        Some(j) => match get_array(j, "data"@) {
            Some(arr) => {
                let m = arr.map_values(|it: JsonValue| nf_search_entry(base, keys, it));
                assert forall|k: int| 0 <= k < m.len() implies (#[trigger] m[k] matches Some(x) ==> p(x)) by {
                    let it = arr[k];
                    let slug = or_empty(get_str(it, keys.slug));
                    let image = or_empty(get_str(it, keys.image));
                    crate::urls::lemma_abs_http_starts(base, image);
                    crate::urls::lemma_abs_http_starts(base, slug);
                    crate::urls::lemma_trimmed_base_http(base);
                    if !starts_with(slug, "http"@) && keys.prefix.len() > 0 {
                        let b = trim_end_char(base, '/');
                        let u = b + "/"@ + trim_slashes(keys.prefix) + "/"@ + trim_start_char(slug, '/');
                        assert(u.subrange(0, 4) =~= b.subrange(0, 4));
                    }
                }
                crate::text::lemma_filter_some_all(m, p);
            },
            None => {},
        },
        None => {},
    }
}

} // verus!
