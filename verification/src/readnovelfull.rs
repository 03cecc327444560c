//! Engine for sites built on the ReadNovelFull layout.
use vstd::prelude::*;
use std::collections::HashMap;
use crate::content::{engine_tag_list, engine_tags, select_clean};
use crate::dom::{first_selector_error, lemma_first_selector_error_at, child, compile_selector, count_in, doc_html, document_html, page_node, parse_document, parse_fragment, root, select_all, select_in, selector_parse_error, NodeRef};
use crate::fetch::{get_request, get_spec, lit, oreq, with_header, Request, RequestView};
use crate::madara_details::{add_genres, add_genres_exec, nonempty_texts, nonempty_texts_exec};
use crate::models::{clone_listings, ChapterDto, ChapterView, ListingDto, ListingView, NovelDto, SearchResultDto, SearchResultView};
use crate::snap::{all_of, first_attr, first_attr_exec, first_in, first_of, nonempty_text, nonempty_text_exec, opt_all_in, opt_all_of, opt_first_of, osnap, osnap_views, sattr, sel_ok, select_first, select_snaps, snap_of, snap_views, strs, ttext, Snap, SnapView};
use crate::text::{chars_of, concat2, dec, dec_exec, udec_exec, digit_prefix, digit_prefix_exec, filter_some, find, find_exec, join, join_exec, lemma_filter_some_step, lemma_find, opt_string, os, ov, push_all, replace, replace_exec, slice_exec, str_eq, string_of, strings_of, sviews, trim, trim_exec, trim_start, trim_start_exec, vviews};
use crate::urls::{abs_http_concat, abs_http_concat_exec};

verus! {

/// Configuration of a ReadNovelFull-style site.
pub struct ReadNovelFullEngine {
    pub base_url: String,
    pub search_path: String,
    pub chapter_endpoint: String,
    pub list_row_selector: String,
    pub list_title_selector: String,
    pub list_cover_selector: String,
    pub list_author_selector: String,
    pub detail_title_selector: String,
    pub detail_author_selector: String,
    pub detail_cover_selector: String,
    pub detail_desc_selector: String,
    pub detail_genre_selector: String,
    pub detail_status_selector: String,
    pub chapter_content_selector: String,
    pub listings: Vec<ListingDto>,
}

pub open spec fn rnf_default_listings() -> Seq<ListingView> {
    seq![
        ListingView { id: "latest-release-novel"@, name: "Latest Release"@ },
        ListingView { id: "hot-novel"@, name: "Hot Novels"@ },
        ListingView { id: "completed-novel"@, name: "Completed Novels"@ },
    ]
}

/// One row of a novel list: its first title link, image and author element.
pub struct RnfRow {
    pub link: Option<Snap>,
    pub cover: Option<Snap>,
    pub author: Option<Snap>,
}

pub struct RnfRowView {
    pub link: Option<SnapView>,
    pub cover: Option<SnapView>,
    pub author: Option<SnapView>,
}

impl View for RnfRow {
    type V = RnfRowView;

    open spec fn view(&self) -> RnfRowView {
        RnfRowView { link: osnap(self.link), cover: osnap(self.cover), author: osnap(self.author) }
    }
}

pub open spec fn rows_view(v: Seq<RnfRow>) -> Seq<RnfRowView> {
    v.map_values(|r: RnfRow| r@)
}

/// The rows of a novel list under `n`: for each match of the row selector,
/// the first title link (with its `href`), image (with `src` and
/// `data-src`) and author element under it.
pub open spec fn rnf_rows(e: ReadNovelFullEngine, n: NodeRef) -> Seq<RnfRowView> {
    let row = e.list_row_selector@;
    Seq::new(
        count_in(n, row),
        |i: int|
            RnfRowView {
                link: select_first(child(n, row, i), e.list_title_selector@, seq!["href"@]),
                cover: select_first(child(n, row, i), e.list_cover_selector@, seq!["src"@, "data-src"@]),
                author: select_first(child(n, row, i), e.list_author_selector@, Seq::empty()),
            },
    )
}

/// What is read of one status item `n` of a novel page: whether it holds a
/// status marker, and its first value element.
pub open spec fn rnf_info_item(n: NodeRef) -> RnfInfoItemView {
    RnfInfoItemView {
        has_marker: sel_ok("span[title='Status'], .glyphicon-time"@) && count_in(
            n,
            "span[title='Status'], .glyphicon-time"@,
        ) > 0,
        value: if sel_ok(".right, a, span"@) {
            select_first(n, ".right, a, span"@, Seq::empty())
        } else {
            None
        },
    }
}

/// The selectors of a novel page that must parse, in the order they are
/// compiled.
pub open spec fn rnf_detail_selectors(e: ReadNovelFullEngine) -> Seq<Seq<char>> {
    seq![
        e.detail_title_selector@,
        e.detail_author_selector@,
        e.detail_cover_selector@,
        e.detail_desc_selector@,
        e.detail_genre_selector@,
        e.detail_status_selector@,
    ]
}

/// What is read of the novel page parsed from `src` with the selectors of `e`.
pub open spec fn rnf_details_raw(e: ReadNovelFullEngine, src: Seq<char>) -> RnfDetailsRawView {
    let pn = root(src, false);
    let desc = e.detail_desc_selector@;
    let status = e.detail_status_selector@;
    RnfDetailsRawView {
        title: select_first(pn, e.detail_title_selector@, Seq::empty()),
        author: select_first(pn, e.detail_author_selector@, Seq::empty()),
        cover: select_first(pn, e.detail_cover_selector@, seq!["src"@, "data-src"@]),
        description: select_first(pn, desc, Seq::empty()),
        paragraphs: if count_in(pn, desc) > 0 && sel_ok("p"@) {
            Some(select_snaps(child(pn, desc, 0), "p"@, Seq::empty()))
        } else {
            None
        },
        genres: select_snaps(pn, e.detail_genre_selector@, Seq::empty()),
        info: Seq::new(count_in(pn, status), |i: int| rnf_info_item(child(pn, status, i))),
        id_element: if sel_ok("[data-novel-id], input#truyen-id"@) {
            Some(select_first(pn, "[data-novel-id], input#truyen-id"@, seq!["data-novel-id"@, "value"@]))
        } else {
            None
        },
        page_html: doc_html(src, false),
    }
}

/// The options of an AJAX chapter response, with their `value`.
pub open spec fn rnf_ajax_options(src: Seq<char>) -> Option<Seq<SnapView>> {
    if sel_ok("option"@) {
        Some(select_snaps(root(src, true), "option"@, seq!["value"@]))
    } else {
        None
    }
}

/// The links of an AJAX chapter response, with their `href` and `title`.
pub open spec fn rnf_ajax_anchors(src: Seq<char>) -> Option<Seq<SnapView>> {
    if sel_ok("a"@) {
        Some(select_snaps(root(src, true), "a"@, seq!["href"@, "title"@]))
    } else {
        None
    }
}

/// The links of a novel page's own chapter list, with their `href`.
pub open spec fn rnf_page_rows(src: Seq<char>) -> Option<Seq<SnapView>> {
    let sel = "#idData li a, #list-chapter ul li a, ul.list-chapter li a"@;
    if sel_ok(sel) {
        Some(select_snaps(root(src, false), sel, seq!["href"@]))
    } else {
        None
    }
}

/// The result for one row: none without a title link or without its `href`,
/// or with an empty title.
pub open spec fn rnf_row_entry(base: Seq<char>, row: RnfRowView) -> Option<SearchResultView> {
    match row.link {
        None => None,
        Some(l) => match sattr(l, "href"@) {
            None => None,
            Some(href) => {
                let title = ttext(l);
                let url = abs_http_concat(base, href);
                let cover_url = match row.cover {
                    Some(img) => match first_attr(img, seq!["src"@, "data-src"@]) {
                        Some(s) => Some(abs_http_concat(base, s)),
                        None => None,
                    },
                    None => None,
                };
                if title.len() > 0 && url.len() > 0 {
                    Some(
                        SearchResultView {
                            url,
                            title,
                            cover_url,
                            author: nonempty_text(row.author),
                        },
                    )
                } else {
                    None
                }
            },
        },
    }
}

pub open spec fn rnf_list(base: Seq<char>, rows: Seq<RnfRowView>) -> Seq<SearchResultView> {
    filter_some(rows.map_values(|r: RnfRowView| rnf_row_entry(base, r)))
}

/// `{base}/{search_path}?keyword={query with '+' for ' '}&page={page}`.
pub open spec fn rnf_search_url(base: Seq<char>, path: Seq<char>, query: Seq<char>, page: i32) -> Seq<
    char,
> {
    base + "/"@ + path + "?keyword="@ + replace(query, " "@, "+"@) + "&page="@ + dec(page as int)
}

/// `{base}/{listing_id}?page={page}`.
pub open spec fn rnf_listing_url(base: Seq<char>, listing_id: Seq<char>, page: i32) -> Seq<char> {
    base + "/"@ + listing_id + "?page="@ + dec(page as int)
}

// ---------------------------------------------------------------------------
// Novel page
// ---------------------------------------------------------------------------
/// One info line of a novel page: whether it carries the status marker
/// (false also when the marker selector could not be used), and its first
/// value element (`None` also when that selector could not be used).
pub struct RnfInfoItem {
    pub has_marker: bool,
    pub value: Option<Snap>,
}

pub struct RnfInfoItemView {
    pub has_marker: bool,
    pub value: Option<SnapView>,
}

impl View for RnfInfoItem {
    type V = RnfInfoItemView;

    open spec fn view(&self) -> RnfInfoItemView {
        RnfInfoItemView { has_marker: self.has_marker, value: osnap(self.value) }
    }
}

pub open spec fn info_view(v: Seq<RnfInfoItem>) -> Seq<RnfInfoItemView> {
    v.map_values(|r: RnfInfoItem| r@)
}

/// What was read of a novel page.
pub struct RnfDetailsRaw {
    pub title: Option<Snap>,
    pub author: Option<Snap>,
    pub cover: Option<Snap>,
    pub description: Option<Snap>,
    pub paragraphs: Option<Vec<Snap>>,
    pub genres: Vec<Snap>,
    pub info: Vec<RnfInfoItem>,
    pub id_element: Option<Option<Snap>>,
    pub page_html: Vec<char>,
}

pub struct RnfDetailsRawView {
    pub title: Option<SnapView>,
    pub author: Option<SnapView>,
    pub cover: Option<SnapView>,
    pub description: Option<SnapView>,
    pub paragraphs: Option<Seq<SnapView>>,
    pub genres: Seq<SnapView>,
    pub info: Seq<RnfInfoItemView>,
    pub id_element: Option<Option<SnapView>>,
    pub page_html: Seq<char>,
}

impl View for RnfDetailsRaw {
    type V = RnfDetailsRawView;

    open spec fn view(&self) -> RnfDetailsRawView {
        RnfDetailsRawView {
            title: osnap(self.title),
            author: osnap(self.author),
            cover: osnap(self.cover),
            description: osnap(self.description),
            paragraphs: crate::madara_details::osnaps(self.paragraphs),
            genres: snap_views(self.genres@),
            info: info_view(self.info@),
            id_element: crate::madara_details::oosnap(self.id_element),
            page_html: self.page_html@,
        }
    }
}

/// What the library makes of a novel page.
pub struct RnfDetails {
    pub title: String,
    pub author: Option<String>,
    pub cover_url: Option<String>,
    pub description: Option<String>,
    pub genres: Vec<String>,
    pub status: Option<String>,
    pub novel_id: String,
}

pub struct RnfDetailsView {
    pub title: Seq<char>,
    pub author: Option<Seq<char>>,
    pub cover_url: Option<Seq<char>>,
    pub description: Option<Seq<char>>,
    pub genres: Seq<Seq<char>>,
    pub status: Option<Seq<char>>,
    pub novel_id: Seq<char>,
}

impl View for RnfDetails {
    type V = RnfDetailsView;

    open spec fn view(&self) -> RnfDetailsView {
        RnfDetailsView {
            title: self.title@,
            author: os(self.author),
            cover_url: os(self.cover_url),
            description: os(self.description),
            genres: sviews(self.genres@),
            status: os(self.status),
            novel_id: self.novel_id@,
        }
    }
}

/// Status: the value text of the first info line that carries the status
/// marker and has a nonempty value.
pub open spec fn rnf_status(info: Seq<RnfInfoItemView>) -> Option<Seq<char>>
    decreases info.len(),
{
    if info.len() == 0 {
        None
    } else if info[0].has_marker && nonempty_text(info[0].value) is Some {
        nonempty_text(info[0].value)
    } else {
        rnf_status(info.subrange(1, info.len() as int))
    }
}

/// Markers after which a ReadNovelFull page writes the novel id.
pub open spec fn rnf_id_patterns() -> Seq<Seq<char>> {
    seq!["novelId ="@, "novelId="@, "truyenId ="@, "truyenId="@]
}

/// `s` without its `"` and `'` characters.
pub open spec fn drop_quotes(s: Seq<char>) -> Seq<char> {
    s.filter(|c: char| c != '"' && c != '\'')
}

/// The id after a marker: quotes dropped, leading whitespace skipped, then
/// the digits.
pub open spec fn id_after(rest: Seq<char>) -> Seq<char> {
    digit_prefix(trim_start(drop_quotes(rest)))
}

/// The id after the first occurrence of the first marker that yields one.
pub open spec fn rnf_id_from_patterns(html: Seq<char>, pats: Seq<Seq<char>>) -> Seq<char>
    decreases pats.len(),
{
    if pats.len() == 0 {
        Seq::empty()
    } else {
        let rest = pats.subrange(1, pats.len() as int);
        match find(html, pats[0]) {
            Some(i) => {
                let d = id_after(html.subrange(i + pats[0].len(), html.len() as int));
                if d.len() > 0 {
                    d
                } else {
                    rnf_id_from_patterns(html, rest)
                }
            },
            None => rnf_id_from_patterns(html, rest),
        }
    }
}

/// Novel id: the trimmed `data-novel-id` (else `value`) of the id element,
/// else the id written after a marker in the page.
pub open spec fn rnf_novel_id(el: Option<Option<SnapView>>, html: Seq<char>) -> Seq<char> {
    let from_el = match el {
        Some(Some(e)) => match first_attr(e, seq!["data-novel-id"@, "value"@]) {
            Some(v) => trim(v),
            None => Seq::empty(),
        },
        _ => Seq::empty(),
    };
    if from_el.len() > 0 {
        from_el
    } else {
        rnf_id_from_patterns(html, rnf_id_patterns())
    }
}

/// Description: the nonempty paragraphs joined by blank lines, or else the
/// element's whole text (possibly empty); `None` without an element.
pub open spec fn rnf_description(desc: Option<SnapView>, paragraphs: Option<Seq<SnapView>>) -> Option<
    Seq<char>,
> {
    match desc {
        Some(el) => Some(
            match paragraphs {
                Some(ps) => if nonempty_texts(ps).len() > 0 {
                    join(nonempty_texts(ps), "\n\n"@)
                } else {
                    ttext(el)
                },
                None => ttext(el),
            },
        ),
        None => None,
    }
}

pub open spec fn rnf_details(base: Seq<char>, raw: RnfDetailsRawView) -> RnfDetailsView {
    RnfDetailsView {
        title: match raw.title {
            Some(t) => ttext(t),
            None => Seq::empty(),
        },
        author: nonempty_text(raw.author),
        cover_url: match raw.cover {
            Some(img) => match first_attr(img, seq!["src"@, "data-src"@]) {
                Some(s) => Some(abs_http_concat(base, s)),
                None => None,
            },
            None => None,
        },
        description: rnf_description(raw.description, raw.paragraphs),
        genres: add_genres(Seq::empty(), raw.genres),
        status: rnf_status(raw.info),
        novel_id: rnf_novel_id(raw.id_element, raw.page_html),
    }
}

// ---------------------------------------------------------------------------
// Chapter lists
// ---------------------------------------------------------------------------
/// `"Chapter {n}"`.
pub open spec fn chapter_n(n: int) -> Seq<char> {
    "Chapter "@ + dec(n)
}

/// A chapter at position `i` (numbered `i + 1`) with the given link and title;
/// an empty title becomes `"Chapter {i + 1}"`.
pub open spec fn numbered_chapter(base: Seq<char>, i: int, href: Seq<char>, title: Seq<char>) -> ChapterView {
    ChapterView {
        url: abs_http_concat(base, href),
        title: if title.len() == 0 {
            chapter_n(i + 1)
        } else {
            title
        },
        index: (i + 1) as i32,
        release_date: None,
        scanlation: None,
    }
}

/// The link and title given by an option of the chapter dropdown: its
/// trimmed `value` is the link; options without a value, or with an empty or
/// `"0"` one, give none.
pub open spec fn option_entry(opt: SnapView) -> Option<(Seq<char>, Seq<char>)> {
    match sattr(opt, "value"@) {
        None => None,
        Some(v) => {
            let val = trim(v);
            if val.len() == 0 || val == "0"@ {
                None
            } else {
                Some((val, ttext(opt)))
            }
        },
    }
}

/// Whether a trimmed link is skipped: empty, `javascript:;` or `#`.
pub open spec fn skipped_href(h: Seq<char>) -> bool {
    h.len() == 0 || h == "javascript:;"@ || h == "#"@
}

/// The link and title given by a link of the AJAX chapter list: its `title`
/// attribute (trimmed) or else its text names it.
pub open spec fn anchor_entry(a: SnapView) -> Option<(Seq<char>, Seq<char>)> {
    match sattr(a, "href"@) {
        None => None,
        Some(h) => {
            let href = trim(h);
            if skipped_href(href) {
                None
            } else {
                let title = match sattr(a, "title"@) {
                    Some(t) => trim(t),
                    None => ttext(a),
                };
                Some((href, title))
            }
        },
    }
}

/// The link and title given by a link of the novel page's own chapter list.
pub open spec fn row_entry(a: SnapView) -> Option<(Seq<char>, Seq<char>)> {
    match sattr(a, "href"@) {
        None => None,
        Some(h) => {
            let href = trim(h);
            if skipped_href(href) {
                None
            } else {
                Some((href, ttext(a)))
            }
        },
    }
}

/// Which of the three chapter-list readings applies.
pub enum ListKind {
    Options,
    Anchors,
    Rows,
}

pub open spec fn kind_entry(k: ListKind, s: SnapView) -> Option<(Seq<char>, Seq<char>)> {
    match k {
        ListKind::Options => option_entry(s),
        ListKind::Anchors => anchor_entry(s),
        ListKind::Rows => row_entry(s),
    }
}

/// The chapters of the kept entries, numbered from 1 in order.
pub open spec fn numbered_chapters(base: Seq<char>, es: Seq<(Seq<char>, Seq<char>)>) -> Seq<ChapterView> {
    es.map(|i: int, e: (Seq<char>, Seq<char>)| numbered_chapter(base, i, e.0, e.1))
}

/// The chapters of a list of elements read as `k`: the elements that give a
/// link, numbered from 1 among themselves.
pub open spec fn kind_chapters(k: ListKind, base: Seq<char>, els: Seq<SnapView>) -> Seq<ChapterView> {
    numbered_chapters(base, filter_some(els.map_values(|s: SnapView| kind_entry(k, s))))
}

pub open spec fn option_chapters(base: Seq<char>, opts: Seq<SnapView>) -> Seq<ChapterView> {
    kind_chapters(ListKind::Options, base, opts)
}

pub open spec fn anchor_chapters(base: Seq<char>, els: Seq<SnapView>) -> Seq<ChapterView> {
    kind_chapters(ListKind::Anchors, base, els)
}

pub open spec fn row_chapters(base: Seq<char>, els: Seq<SnapView>) -> Seq<ChapterView> {
    kind_chapters(ListKind::Rows, base, els)
}

/// Chapters of the AJAX response: the dropdown options when there are more
/// than one and they give chapters, else its links.
pub open spec fn rnf_ajax_chapters(
    base: Seq<char>,
    options: Option<Seq<SnapView>>,
    anchors: Option<Seq<SnapView>>,
) -> Seq<ChapterView> {
    let from_options = match options {
        Some(o) => if o.len() > 1 {
            option_chapters(base, o)
        } else {
            Seq::empty()
        },
        None => Seq::empty(),
    };
    if from_options.len() > 0 {
        from_options
    } else {
        match anchors {
            Some(a) => anchor_chapters(base, a),
            None => Seq::empty(),
        }
    }
}

/// The novel's chapters: those of the AJAX response when it gave any, else
/// those of the novel page's own chapter list.
pub open spec fn rnf_chapters(ajax: Seq<ChapterView>, page_rows: Option<Seq<SnapView>>, base: Seq<char>) -> Seq<
    ChapterView,
> {
    if ajax.len() > 0 {
        ajax
    } else {
        match page_rows {
            Some(r) => row_chapters(base, r),
            None => Seq::empty(),
        }
    }
}

/// The chapter-list request: `GET {base}/{endpoint}?novelId={id}` with the
/// novel page as `Referer`, sent as an AJAX call.
pub open spec fn rnf_chapter_list_request(
    base: Seq<char>,
    endpoint: Seq<char>,
    novel_url: Seq<char>,
    id: Seq<char>,
) -> RequestView {
    RequestView {
        headers: seq![("Referer"@, novel_url), ("X-Requested-With"@, "XMLHttpRequest"@)],
        ..get_spec(base + "/"@ + endpoint + "?novelId="@ + id)
    }
}

// ---------------------------------------------------------------------------
// Implementation
// ---------------------------------------------------------------------------
fn numbered_chapter_exec(base: &Vec<char>, i: usize, href: &Vec<char>, title: Vec<char>) -> (r: ChapterDto)
    requires
        i < usize::MAX,
    ensures
        r.deep_view() == numbered_chapter(base@, i as int, href@, title@),
{
    let title = if title.len() == 0 {
        concat2(&lit("Chapter "), &udec_exec((i + 1) as u64))
    } else {
        title
    };
    ChapterDto {
        url: string_of(&abs_http_concat_exec(base, href)),
        title: string_of(&title),
        index: #[verifier::truncate] ((i + 1) as i32),
        release_date: None,
        scanlation: None,
    }
}

fn skipped_href_exec(h: &Vec<char>) -> (b: bool)
    ensures
        b == skipped_href(h@),
{
    h.len() == 0 || str_eq("javascript:;", h) || str_eq("#", h)
}

fn kind_entry_exec(k: &ListKind, s: &Snap) -> (r: Option<(Vec<char>, Vec<char>)>)
    ensures
        match r {
            Some(e) => kind_entry(*k, s@) == Some((e.0@, e.1@)),
            None => kind_entry(*k, s@) is None,
        },
{
    match k {
        ListKind::Options => match s.get_attr("value") {
            None => None,
            Some(v) => {
                let val = trim_exec(&v);
                if val.len() == 0 || str_eq("0", &val) {
                    None
                } else {
                    Some((val, s.trimmed()))
                }
            },
        },
        ListKind::Anchors => match s.get_attr("href") {
            None => None,
            Some(h) => {
                let href = trim_exec(&h);
                if skipped_href_exec(&href) {
                    None
                } else {
                    let title = match s.get_attr("title") {
                        Some(t) => trim_exec(&t),
                        None => s.trimmed(),
                    };
                    Some((href, title))
                }
            },
        },
        ListKind::Rows => match s.get_attr("href") {
            None => None,
            Some(h) => {
                let href = trim_exec(&h);
                if skipped_href_exec(&href) {
                    None
                } else {
                    Some((href, s.trimmed()))
                }
            },
        },
    }
}

/// Chapters of a list of elements read as options, AJAX links or page rows.
pub fn kind_chapters_exec(k: ListKind, base: &Vec<char>, els: &Vec<Snap>) -> (r: Vec<ChapterDto>)
    ensures
        r.deep_view() == kind_chapters(k, base@, snap_views(els@)),
{
    let ghost mapped = snap_views(els@).map_values(|s: SnapView| kind_entry(k, s));
    let mut r: Vec<ChapterDto> = Vec::new();
    let mut i: usize = 0;
    while i < els.len()
        invariant
            i <= els.len(),
            mapped == snap_views(els@).map_values(|s: SnapView| kind_entry(k, s)),
            filter_some(mapped.take(i as int)).len() <= i,
            r@.len() == filter_some(mapped.take(i as int)).len(),
            r.deep_view() == numbered_chapters(base@, filter_some(mapped.take(i as int))),
        decreases els.len() - i,
    {
        let e = kind_entry_exec(&k, &els[i]);
        proof {
            lemma_filter_some_step(mapped, i as int);
        }
        match e {
            Some(x) => {
                let ghost es = filter_some(mapped.take(i as int));
                let ghost before = r.deep_view();
                let n = r.len();
                let c = numbered_chapter_exec(base, n, &x.0, x.1);
                r.push(c);
                proof {
                    let es2 = es.push((x.0@, x.1@));
                    assert(numbered_chapters(base@, es2) =~= before.push(c.deep_view()));
                    assert(r.deep_view() =~= before.push(c.deep_view()));
                }
            },
            None => {},
        }
        i += 1;
    }
    assert(mapped.take(els.len() as int) =~= mapped);
    r
}

/// `s` without quotes (see [`drop_quotes`]).
fn drop_quotes_exec(s: &Vec<char>) -> (r: Vec<char>)
    ensures
        r@ == drop_quotes(s@),
{
    let mut r: Vec<char> = Vec::new();
    let mut i: usize = 0;
    while i < s.len()
        invariant
            i <= s.len(),
            r@ == drop_quotes(s@.take(i as int)),
        decreases s.len() - i,
    {
        proof {
            let t = s@.take(i + 1);
            assert(t.drop_last() =~= s@.take(i as int));
            assert(t.last() == s@[i as int]);
            reveal(Seq::filter);
        }
        if s[i] != '"' && s[i] != '\'' {
            r.push(s[i]);
        }
        i += 1;
    }
    assert(s@.take(s.len() as int) =~= s@);
    r
}

fn rnf_id_from_patterns_exec(html: &Vec<char>, pats: &Vec<Vec<char>>) -> (r: Vec<char>)
    ensures
        r@ == rnf_id_from_patterns(html@, vviews(pats@)),
{
    let ghost all = vviews(pats@);
    assert(all.subrange(0, all.len() as int) =~= all);
    let mut i: usize = 0;
    while i < pats.len()
        invariant
            i <= pats.len(),
            all == vviews(pats@),
            rnf_id_from_patterns(html@, all) == rnf_id_from_patterns(
                html@,
                all.subrange(i as int, all.len() as int),
            ),
        decreases pats.len() - i,
    {
        let ghost rest = all.subrange(i as int, all.len() as int);
        assert(rest[0] == pats@[i as int]@);
        assert(rest.subrange(1, rest.len() as int) =~= all.subrange(i + 1, all.len() as int));
        match find_exec(html, &pats[i]) {
            Some(p) => {
                proof {
                    lemma_find(html@, pats[i as int]@);
                }
                let plen = pats[i].len();
                let hlen = html.len();
                let after = slice_exec(html, p + plen, hlen);
                let d = digit_prefix_exec(&trim_start_exec(&drop_quotes_exec(&after)));
                if d.len() > 0 {
                    return d;
                }
            },
            None => {},
        }
        i += 1;
    }
    Vec::new()
}

fn rnf_status_exec(info: &Vec<RnfInfoItem>) -> (r: Option<Vec<char>>)
    ensures
        ov(r) == rnf_status(info_view(info@)),
{
    let ghost all = info_view(info@);
    assert(all.subrange(0, all.len() as int) =~= all);
    let mut i: usize = 0;
    while i < info.len()
        invariant
            i <= info.len(),
            all == info_view(info@),
            rnf_status(all) == rnf_status(all.subrange(i as int, all.len() as int)),
        decreases info.len() - i,
    {
        let ghost rest = all.subrange(i as int, all.len() as int);
        assert(rest[0] == info@[i as int]@);
        assert(rest.subrange(1, rest.len() as int) =~= all.subrange(i + 1, all.len() as int));
        if info[i].has_marker {
            let t = nonempty_text_exec(&info[i].value);
            if t.is_some() {
                return t;
            }
        }
        i += 1;
    }
    None
}

/// The default selectors of a ReadNovelFull site.
pub open spec fn rnf_default_selectors(e: ReadNovelFullEngine) -> bool {
    &&& e.list_row_selector@ == ".list-novel .row, .list-truyen .row, .rank-list .li-row, .li-row"@
    &&& e.list_title_selector@ == "h3.novel-title a, h3.tit a, h3 a"@
    &&& e.list_cover_selector@ == "img.cover, .pic img, img"@
    &&& e.list_author_selector@ == "a[href*='/author/'], a[href*='/authors/'], .author"@
    &&& e.detail_title_selector@ == "h3.title, h1.tit, .truyen-title, h1"@
    &&& e.detail_author_selector@ == "a[href*='/author/'], a[href*='/authors/']"@
    &&& e.detail_cover_selector@ == ".book img, .pic img, .cover img, img"@
    &&& e.detail_desc_selector@ == ".desc-text, #novel-summary-inner, .inner, .txt"@
    &&& e.detail_genre_selector@ == "a[href*='/genre/'], a[href*='/genres/']"@
    &&& e.detail_status_selector@ == ".info-meta li, .m-imgtxt .item"@
    &&& e.chapter_content_selector@ == "#chapter-content, #chr-content, .chapter-c, .txt"@
}

impl ReadNovelFullEngine {
    /// An engine for the site at `base_url` with the default selectors.
    pub fn new(base_url: String) -> (e: Self)
        ensures
            e.base_url@ == base_url@,
            e.search_path@ == "search"@,
            e.chapter_endpoint@ == "ajax-chapter-option"@,
            rnf_default_selectors(e),
            e.listings.deep_view() == rnf_default_listings(),
    {
        let listings = vec![
            ListingDto {
                id: String::from_str("latest-release-novel"),
                name: String::from_str("Latest Release"),
            },
            ListingDto { id: String::from_str("hot-novel"), name: String::from_str("Hot Novels") },
            ListingDto {
                id: String::from_str("completed-novel"),
                name: String::from_str("Completed Novels"),
            },
        ];
        assert(listings.deep_view() =~= rnf_default_listings());
        ReadNovelFullEngine {
            base_url,
            search_path: String::from_str("search"),
            chapter_endpoint: String::from_str("ajax-chapter-option"),
            list_row_selector: String::from_str(
                ".list-novel .row, .list-truyen .row, .rank-list .li-row, .li-row",
            ),
            list_title_selector: String::from_str("h3.novel-title a, h3.tit a, h3 a"),
            list_cover_selector: String::from_str("img.cover, .pic img, img"),
            list_author_selector: String::from_str(
                "a[href*='/author/'], a[href*='/authors/'], .author",
            ),
            detail_title_selector: String::from_str("h3.title, h1.tit, .truyen-title, h1"),
            detail_author_selector: String::from_str("a[href*='/author/'], a[href*='/authors/']"),
            detail_cover_selector: String::from_str(".book img, .pic img, .cover img, img"),
            detail_desc_selector: String::from_str(
                ".desc-text, #novel-summary-inner, .inner, .txt",
            ),
            detail_genre_selector: String::from_str("a[href*='/genre/'], a[href*='/genres/']"),
            detail_status_selector: String::from_str(".info-meta li, .m-imgtxt .item"),
            chapter_content_selector: String::from_str(
                "#chapter-content, #chr-content, .chapter-c, .txt",
            ),
            listings,
        }
    }

    fn row_entry(&self, row: &RnfRow) -> (r: Option<SearchResultDto>)
        ensures
            r.deep_view() == rnf_row_entry(self.base_url@, row@),
    {
        let link = match &row.link {
            Some(l) => l,
            None => return None,
        };
        let href = match link.get_attr("href") {
            Some(h) => h,
            None => return None,
        };
        let base = chars_of(self.base_url.as_str());
        let title = link.trimmed();
        let url = abs_http_concat_exec(&base, &href);
        let cover_url = match &row.cover {
            Some(img) => {
                let names = ["src", "data-src"];
                assert(strs(names@) =~= seq!["src"@, "data-src"@]);
                match first_attr_exec(img, &names) {
                    Some(s) => Some(string_of(&abs_http_concat_exec(&base, &s))),
                    None => None,
                }
            },
            None => None,
        };
        let author = nonempty_text_exec(&row.author);
        if title.len() > 0 && url.len() > 0 {
            Some(
                SearchResultDto {
                    url: string_of(&url),
                    title: string_of(&title),
                    cover_url,
                    author: opt_string(author),
                },
            )
        } else {
            None
        }
    }

    /// The results of a list page whose rows have been read.
    pub fn collect_list(&self, rows: &Vec<RnfRow>) -> (r: Vec<SearchResultDto>)
        ensures
            r.deep_view() == rnf_list(self.base_url@, rows_view(rows@)),
    {
        let ghost mapped = rows_view(rows@).map_values(
            |r: RnfRowView| rnf_row_entry(self.base_url@, r),
        );
        let mut r: Vec<SearchResultDto> = Vec::new();
        let mut i: usize = 0;
        while i < rows.len()
            invariant
                i <= rows.len(),
                mapped == rows_view(rows@).map_values(
                    |r: RnfRowView| rnf_row_entry(self.base_url@, r),
                ),
                r.deep_view() == filter_some(mapped.take(i as int)),
            decreases rows.len() - i,
        {
            let e = self.row_entry(&rows[i]);
            proof {
                lemma_filter_some_step(mapped, i as int);
                assert(mapped[i as int] == e.deep_view());
            }
            match e {
                Some(x) => {
                    let ghost before = r.deep_view();
                    r.push(x);
                    assert(r.deep_view() =~= before.push(x.deep_view()));
                },
                None => {},
            }
            i += 1;
        }
        assert(mapped.take(rows.len() as int) =~= mapped);
        r
    }

    /// Reads the novel list of a search or listing page. Empty when one of the
    /// list selectors is invalid.
    pub fn parse_novel_list(&self, page_html: &str) -> (r: Vec<SearchResultDto>)
        ensures
            ({
                let ok = sel_ok(self.list_row_selector@) && sel_ok(self.list_title_selector@)
                    && sel_ok(self.list_cover_selector@) && sel_ok(self.list_author_selector@);
                &&& !ok ==> r@.len() == 0
                &&& ok ==> r.deep_view() == rnf_list(self.base_url@, rnf_rows(*self, root(page_html@, false)))
            }),
    {
        let sels = (
            compile_selector(self.list_row_selector.as_str()),
            compile_selector(self.list_title_selector.as_str()),
            compile_selector(self.list_cover_selector.as_str()),
            compile_selector(self.list_author_selector.as_str()),
        );
        match sels {
            (Ok(row_sel), Ok(title_sel), Ok(cover_sel), Ok(author_sel)) => {
                let doc = parse_document(page_html);
                let found = select_all(&doc, &row_sel);
                let ghost pn = page_node(&doc);
                let ghost want = rnf_rows(*self, pn);
                let href: &[&str] = &["href"];
                let img: &[&str] = &["src", "data-src"];
                let none: &[&str] = &[];
                proof {
                    assert(strs(href@) =~= seq!["href"@]);
                    assert(strs(img@) =~= seq!["src"@, "data-src"@]);
                    assert(strs(none@) =~= Seq::<Seq<char>>::empty());
                }
                let mut rows: Vec<RnfRow> = Vec::new();
                let mut i: usize = 0;
                while i < found.len()
                    invariant
                        i <= found@.len(),
                        found@.len() == want.len(),
                        want == rnf_rows(*self, pn),
                        row_sel.text() == self.list_row_selector@,
                        title_sel.text() == self.list_title_selector@,
                        cover_sel.text() == self.list_cover_selector@,
                        author_sel.text() == self.list_author_selector@,
                        strs(href@) == seq!["href"@],
                        strs(img@) == seq!["src"@, "data-src"@],
                        strs(none@) == Seq::<Seq<char>>::empty(),
                        forall|k: int| 0 <= k < found@.len() ==> (#[trigger] found@[k]).node() == child(pn, row_sel.text(), k),
                        rows@.len() == i,
                        forall|k: int| 0 <= k < i ==> (#[trigger] rows@[k])@ == want[k],
                    decreases found@.len() - i,
                {
                    rows.push(
                        RnfRow {
                            link: first_in(&found[i], &title_sel, href),
                            cover: first_in(&found[i], &cover_sel, img),
                            author: first_in(&found[i], &author_sel, none),
                        },
                    );
                    i += 1;
                }
                assert(rows_view(rows@) =~= want);
                self.collect_list(&rows)
            },
            _ => Vec::new(),
        }
    }

    /// Request for a search results page.
    pub fn search(&self, query: &str, page: i32) -> (r: Request)
        ensures
            r@ == get_spec(rnf_search_url(self.base_url@, self.search_path@, query@, page)),
    {
        let mut u = chars_of(self.base_url.as_str());
        push_all(&mut u, &lit("/"));
        push_all(&mut u, &chars_of(self.search_path.as_str()));
        push_all(&mut u, &lit("?keyword="));
        proof {
            reveal_strlit(" ");
        }
        push_all(&mut u, &replace_exec(&chars_of(query), &lit(" "), &lit("+")));
        push_all(&mut u, &lit("&page="));
        push_all(&mut u, &dec_exec(page as i64));
        get_request(&u)
    }

    /// Request for a listing page.
    pub fn get_listing_novels(&self, listing_id: &str, page: i32) -> (r: Request)
        ensures
            r@ == get_spec(rnf_listing_url(self.base_url@, listing_id@, page)),
    {
        let mut u = chars_of(self.base_url.as_str());
        push_all(&mut u, &lit("/"));
        push_all(&mut u, &chars_of(listing_id));
        push_all(&mut u, &lit("?page="));
        push_all(&mut u, &dec_exec(page as i64));
        get_request(&u)
    }

    /// The listings that this site offers.
    pub fn get_listings(&self) -> (r: Vec<ListingDto>)
        ensures
            r.deep_view() == self.listings.deep_view(),
    {
        clone_listings(&self.listings)
    }

    /// What the library makes of a read novel page (see [`rnf_details`]).
    pub fn assemble_details(&self, raw: &RnfDetailsRaw) -> (d: RnfDetails)
        ensures
            d@ == rnf_details(self.base_url@, raw@),
    {
        let base = chars_of(self.base_url.as_str());
        let title = match &raw.title {
            Some(t) => t.trimmed(),
            None => Vec::new(),
        };
        let author = nonempty_text_exec(&raw.author);
        let cover_url = match &raw.cover {
            Some(img) => {
                let names = ["src", "data-src"];
                assert(strs(names@) =~= seq!["src"@, "data-src"@]);
                match first_attr_exec(img, &names) {
                    Some(s) => Some(abs_http_concat_exec(&base, &s)),
                    None => None,
                }
            },
            None => None,
        };
        let description = match &raw.description {
            Some(el) => Some(
                match &raw.paragraphs {
                    Some(ps) => {
                        let texts = nonempty_texts_exec(ps);
                        if texts.len() > 0 {
                            join_exec(&texts, &chars_of("\n\n"))
                        } else {
                            el.trimmed()
                        }
                    },
                    None => el.trimmed(),
                },
            ),
            None => None,
        };
        let mut genres: Vec<Vec<char>> = Vec::new();
        assert(vviews(genres@) =~= Seq::<Seq<char>>::empty());
        add_genres_exec(&mut genres, &raw.genres);
        let status = rnf_status_exec(&raw.info);
        let from_el = match &raw.id_element {
            Some(Some(e)) => {
                let names = ["data-novel-id", "value"];
                assert(strs(names@) =~= seq!["data-novel-id"@, "value"@]);
                match first_attr_exec(e, &names) {
                    Some(v) => trim_exec(&v),
                    None => Vec::new(),
                }
            },
            _ => Vec::new(),
        };
        let novel_id = if from_el.len() > 0 {
            from_el
        } else {
            let pats = vec![
                chars_of("novelId ="),
                chars_of("novelId="),
                chars_of("truyenId ="),
                chars_of("truyenId="),
            ];
            assert(vviews(pats@) =~= rnf_id_patterns());
            rnf_id_from_patterns_exec(&raw.page_html, &pats)
        };
        RnfDetails {
            title: string_of(&title),
            author: opt_string(author),
            cover_url: opt_string(cover_url),
            description: opt_string(description),
            genres: strings_of(&genres),
            status: opt_string(status),
            novel_id: string_of(&novel_id),
        }
    }

    /// Reads a novel page. An invalid title, author, cover, description,
    /// genre or info selector is an error (the first such one, in that order).
    pub fn get_novel_details(&self, page_html: &str) -> (r: Result<RnfDetails, String>)
        ensures
            match r {
                Err(e) => first_selector_error(rnf_detail_selectors(*self)) == Some(e@),
                Ok(d) => first_selector_error(rnf_detail_selectors(*self)) is None
                    && d@ == rnf_details(self.base_url@, rnf_details_raw(*self, page_html@)),
            },
    {
        let title_sel = match compile_selector(self.detail_title_selector.as_str()) {
            Ok(s) => s,
            Err(e) => {
                proof {
                    lemma_first_selector_error_at(rnf_detail_selectors(*self), 0);
                }
                return Err(e);
            },
        };
        let author_sel = match compile_selector(self.detail_author_selector.as_str()) {
            Ok(s) => s,
            Err(e) => {
                proof {
                    lemma_first_selector_error_at(rnf_detail_selectors(*self), 1);
                }
                return Err(e);
            },
        };
        let cover_sel = match compile_selector(self.detail_cover_selector.as_str()) {
            Ok(s) => s,
            Err(e) => {
                proof {
                    lemma_first_selector_error_at(rnf_detail_selectors(*self), 2);
                }
                return Err(e);
            },
        };
        let desc_sel = match compile_selector(self.detail_desc_selector.as_str()) {
            Ok(s) => s,
            Err(e) => {
                proof {
                    lemma_first_selector_error_at(rnf_detail_selectors(*self), 3);
                }
                return Err(e);
            },
        };
        let genre_sel = match compile_selector(self.detail_genre_selector.as_str()) {
            Ok(s) => s,
            Err(e) => {
                proof {
                    lemma_first_selector_error_at(rnf_detail_selectors(*self), 4);
                }
                return Err(e);
            },
        };
        let item_sel = match compile_selector(self.detail_status_selector.as_str()) {
            Ok(s) => s,
            Err(e) => {
                proof {
                    lemma_first_selector_error_at(rnf_detail_selectors(*self), 5);
                }
                return Err(e);
            },
        };
        let page = parse_document(page_html);
        let doc = &page;
        let ghost pn = page_node(doc);
        let none: &[&str] = &[];
        let img: &[&str] = &["src", "data-src"];
        let id_names: &[&str] = &["data-novel-id", "value"];
        proof {
            assert(strs(none@) =~= Seq::<Seq<char>>::empty());
            assert(strs(img@) =~= seq!["src"@, "data-src"@]);
            assert(strs(id_names@) =~= seq!["data-novel-id"@, "value"@]);
        }
        let title = first_of(doc, &title_sel, none);
        let author = first_of(doc, &author_sel, none);
        let cover = first_of(doc, &cover_sel, img);
        let descs = select_all(doc, &desc_sel);
        let (description, paragraphs) = if descs.len() > 0 {
            let ps = opt_all_in(&descs[0], "p", none);
            (Some(snap_of(&descs[0], none)), ps)
        } else {
            (None, None)
        };
        let genres = all_of(doc, &genre_sel, none);
        let time_sel = compile_selector("span[title='Status'], .glyphicon-time");
        let right_sel = compile_selector(".right, a, span");
        let found = select_all(doc, &item_sel);
        let mut info: Vec<RnfInfoItem> = Vec::new();
        let mut i: usize = 0;
        while i < found.len()
            invariant
                i <= found@.len(),
                found@.len() == count_in(pn, self.detail_status_selector@),
                item_sel.text() == self.detail_status_selector@,
                match &time_sel {
                    Ok(ts) => sel_ok("span[title='Status'], .glyphicon-time"@) && ts.text() == "span[title='Status'], .glyphicon-time"@,
                    Err(_) => !sel_ok("span[title='Status'], .glyphicon-time"@),
                },
                match &right_sel {
                    Ok(rs) => sel_ok(".right, a, span"@) && rs.text() == ".right, a, span"@,
                    Err(_) => !sel_ok(".right, a, span"@),
                },
                strs(none@) == Seq::<Seq<char>>::empty(),
                forall|k: int| 0 <= k < found@.len() ==> (#[trigger] found@[k]).node() == child(pn, item_sel.text(), k),
                info@.len() == i,
                forall|k: int| 0 <= k < i ==> (#[trigger] info@[k])@ == rnf_info_item(child(pn, item_sel.text(), k)),
            decreases found@.len() - i,
        {
            let has_marker = match &time_sel {
                Ok(ts) => select_in(&found[i], ts).len() > 0,
                Err(_) => false,
            };
            let value = match &right_sel {
                Ok(rs) => first_in(&found[i], rs, none),
                Err(_) => None,
            };
            info.push(RnfInfoItem { has_marker, value });
            i += 1;
        }
        assert(info_view(info@) =~= Seq::new(
            count_in(pn, self.detail_status_selector@),
            |k: int| rnf_info_item(child(pn, self.detail_status_selector@, k)),
        ));
        let id_element = opt_first_of(doc, "[data-novel-id], input#truyen-id", id_names);
        let raw = RnfDetailsRaw {
            title,
            author,
            cover,
            description,
            paragraphs,
            genres,
            info,
            id_element,
            page_html: chars_of(document_html(doc).as_str()),
        };
        assert(raw@ == rnf_details_raw(*self, page_html@));
        proof {
            crate::dom::lemma_first_selector_error_none(rnf_detail_selectors(*self));
        }
        Ok(self.assemble_details(&raw))
    }

    /// The chapter-list request for a novel, when its id is known.
    pub fn chapter_list_request(&self, novel_url: &str, details: &RnfDetails) -> (r: Option<Request>)
        ensures
            oreq(r) == if details.novel_id@.len() > 0 {
                Some(
                    rnf_chapter_list_request(
                        self.base_url@,
                        self.chapter_endpoint@,
                        novel_url@,
                        details.novel_id@,
                    ),
                )
            } else {
                None
            },
    {
        let id = chars_of(details.novel_id.as_str());
        if id.len() == 0 {
            return None;
        }
        let mut u = chars_of(self.base_url.as_str());
        push_all(&mut u, &lit("/"));
        push_all(&mut u, &chars_of(self.chapter_endpoint.as_str()));
        push_all(&mut u, &lit("?novelId="));
        push_all(&mut u, &id);
        let r = get_request(&u);
        let r = with_header(r, "Referer", &chars_of(novel_url));
        let r = with_header(r, "X-Requested-With", &lit("XMLHttpRequest"));
        assert(r@.headers =~= seq![
            ("Referer"@, novel_url@),
            ("X-Requested-With"@, "XMLHttpRequest"@),
        ]);
        Some(r)
    }

    /// Chapters of the AJAX chapter-list response (see [`rnf_ajax_chapters`]).
    pub fn ajax_chapters(&self, ajax_html: &str) -> (r: Vec<ChapterDto>)
        ensures
            r.deep_view() == rnf_ajax_chapters(
                self.base_url@,
                rnf_ajax_options(ajax_html@),
                rnf_ajax_anchors(ajax_html@),
            ),
    {
        let base = chars_of(self.base_url.as_str());
        let frag = parse_fragment(ajax_html);
        let value: &[&str] = &["value"];
        let link: &[&str] = &["href", "title"];
        proof {
            assert(strs(value@) =~= seq!["value"@]);
            assert(strs(link@) =~= seq!["href"@, "title"@]);
        }
        let opts = opt_all_of(&frag, "option", value);
        let anchors = opt_all_of(&frag, "a", link);
        let from_options = match &opts {
            Some(o) => if o.len() > 1 {
                kind_chapters_exec(ListKind::Options, &base, o)
            } else {
                Vec::new()
            },
            None => Vec::new(),
        };
        let ghost ov_ = osnap_views(opts);
        let ghost av = osnap_views(anchors);
        if from_options.len() > 0 {
            assert(from_options.deep_view() == rnf_ajax_chapters(self.base_url@, ov_, av));
            from_options
        } else {
            let r = match &anchors {
                Some(a) => kind_chapters_exec(ListKind::Anchors, &base, a),
                None => Vec::new(),
            };
            assert(r.deep_view() =~= rnf_ajax_chapters(self.base_url@, ov_, av));
            r
        }
    }

    /// The novel: its details, and the chapters of the AJAX response `ajax`
    /// (when one was fetched and succeeded) or else of the page's own list.
    pub fn finish_details(
        &self,
        novel_url: &str,
        details: RnfDetails,
        page_html: &str,
        ajax: Option<Result<String, String>>,
    ) -> (n: NovelDto)
        ensures
            n.url@ == novel_url@,
            n.title@ == details@.title,
            os(n.author) == details@.author,
            os(n.cover_url) == details@.cover_url,
            os(n.description) == details@.description,
            os(n.status) == details@.status,
            sviews(n.genres@) == details@.genres,
            n.chapters.deep_view() == rnf_chapters(
                match ajax {
                    Some(Ok(h)) => rnf_ajax_chapters(self.base_url@, rnf_ajax_options(h@), rnf_ajax_anchors(h@)),
                    _ => Seq::empty(),
                },
                rnf_page_rows(page_html@),
                self.base_url@,
            ),
            n.extra@ == Map::<String, String>::empty(),
    {
        let base = chars_of(self.base_url.as_str());
        let ajax_chapters = match &ajax {
            Some(Ok(h)) => self.ajax_chapters(h.as_str()),
            _ => Vec::new(),
        };
        let ghost av = ajax_chapters.deep_view();
        let chapters = if ajax_chapters.len() > 0 {
            assert(ajax_chapters.deep_view() == rnf_chapters(av, None, self.base_url@));
            ajax_chapters
        } else {
            let doc = parse_document(page_html);
            let href: &[&str] = &["href"];
            proof {
                assert(strs(href@) =~= seq!["href"@]);
            }
            match opt_all_of(&doc, "#idData li a, #list-chapter ul li a, ul.list-chapter li a", href) {
                Some(rows) => {
                    let r = kind_chapters_exec(ListKind::Rows, &base, &rows);
                    assert(r.deep_view() =~= rnf_chapters(av, Some(snap_views(rows@)), self.base_url@));
                    r
                },
                None => {
                    let r: Vec<ChapterDto> = Vec::new();
                    assert(r.deep_view() =~= rnf_chapters(av, None, self.base_url@));
                    r
                },
            }
        };
        NovelDto {
            url: String::from_str(novel_url),
            title: details.title,
            author: details.author,
            cover_url: details.cover_url,
            description: details.description,
            status: details.status,
            genres: details.genres,
            chapters,
            extra: HashMap::new(),
        }
    }

    /// Request for a chapter page, with the chapter URL as `Referer`.
    pub fn chapter_request(&self, chapter_url: &str) -> (r: Request)
        ensures
            r@ == (RequestView {
                headers: seq![("Referer"@, chapter_url@)],
                ..get_spec(chapter_url@)
            }),
    {
        let u = chars_of(chapter_url);
        let r = get_request(&u);
        let r = with_header(r, "Referer", &u);
        assert(r@.headers =~= seq![("Referer"@, chapter_url@)]);
        r
    }

    /// Chapter text of a chapter page (see [`first_clean`]).
    pub fn get_chapter_content(&self, page_html: &str) -> (r: Result<Option<String>, String>)
        ensures
            match r {
                Err(e) => selector_parse_error(self.chapter_content_selector@) == Some(e@),
                Ok(o) => selector_parse_error(self.chapter_content_selector@) is None
                    && os(o) == crate::content::first_clean(page_html@, self.chapter_content_selector@, engine_tags()),
            },
    {
        let tags = engine_tag_list();
        select_clean(page_html, self.chapter_content_selector.as_str(), &tags)
    }
}

/// Whatever the list, its chapters are numbered 1 to N in order over the
/// entries that give a link, each made absolute against the base.
pub proof fn law_rnf_chapters_numbered(k: ListKind, base: Seq<char>, els: Seq<SnapView>)
    ensures
        ({
            let es = filter_some(els.map_values(|s: SnapView| kind_entry(k, s)));
            let cs = kind_chapters(k, base, els);
            &&& cs.len() == es.len()
            &&& forall|i: int|
                0 <= i < cs.len() ==> (#[trigger] cs[i]).index == (i + 1) as i32 && cs[i].url == abs_http_concat(
                    base,
                    es[i].0,
                )
        }),
{
}

} // verus!
