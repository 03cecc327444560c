//! Chapter list of a Madara novel: fetching the AJAX chapter pages, then
//! reading the chapters.
use vstd::prelude::*;
use std::collections::HashMap;
use crate::dom::{child, compile_selector, count_in, doc_html, document_html, page_node, parse_document, parse_fragment, root, select_all, select_in, selector_parse_error, NodeRef};
use crate::fetch::{lit, oreq, post_request, post_spec, with_header, Request, RequestView};
use crate::madara::MadaraEngine;
use crate::madara_details::{madara_details, osnaps, MadaraDetails, MadaraDetailsRaw, MadaraDetailsRawView, MadaraMetaItem, MadaraMetaView};
use crate::models::{ChapterDto, ChapterView, NovelDto};
use crate::snap::{first_in, first_of, node_snap, nonempty_text, nonempty_text_exec, opt_all_in, opt_first_of, opt_all_of, osnap, sattr, sel_ok, select_first, select_snaps, snap_of, snap_views, strs, ttext, Snap, SnapView};
use crate::text::{chars_of, concat2, contains, contains_exec, dec, dec_exec, filter_some, find, find_exec, lemma_filter_some_step, lemma_find, opt_string, os, parse_i32, parse_i32_exec, push_all, slice_exec, str_eq, string_of, sviews, trail_count, trim_end_char, trim_end_char_exec, digit_pred};
use crate::urls::{abs_scheme_join, join_path, join_path_exec};

verus! {

// ---------------------------------------------------------------------------
// Fetching the chapter pages
// ---------------------------------------------------------------------------
/// Where the chapter fetch of a novel stands.
pub enum MadaraFetch {
    /// The first page of the novel's `ajax/chapters/` endpoint was asked for.
    FirstPage,
    /// Page `page` (of `max`) was asked for; `html` holds the pages so far.
    Pages { html: String, template: String, page: i32, max: i32 },
    /// The site's `admin-ajax` endpoint was asked for the chapter list.
    AdminAjax,
    /// Finished: `html` holds the chapter list markup (possibly empty).
    Done { html: String },
}

pub enum MadaraFetchView {
    FirstPage,
    Pages { html: Seq<char>, template: Seq<char>, page: i32, max: i32 },
    AdminAjax,
    Done { html: Seq<char> },
}

impl View for MadaraFetch {
    type V = MadaraFetchView;

    open spec fn view(&self) -> MadaraFetchView {
        match self {
            MadaraFetch::FirstPage => MadaraFetchView::FirstPage,
            MadaraFetch::Pages { html, template, page, max } => MadaraFetchView::Pages {
                html: html@,
                template: template@,
                page: *page,
                max: *max,
            },
            MadaraFetch::AdminAjax => MadaraFetchView::AdminAjax,
            MadaraFetch::Done { html } => MadaraFetchView::Done { html: html@ },
        }
    }
}

pub open spec fn resp_view(r: Result<String, String>) -> Result<Seq<char>, Seq<char>> {
    match r {
        Ok(s) => Ok(s@),
        Err(e) => Err(e@),
    }
}

/// `POST {clean}/ajax/chapters/{suffix}` with the novel page as `Referer`.
pub open spec fn ajax_page_request(clean: Seq<char>, suffix: Seq<char>) -> RequestView {
    RequestView {
        headers: seq![("Referer"@, clean)],
        ..post_spec(clean + "/ajax/chapters/"@ + suffix, Seq::empty())
    }
}

/// `POST {base}/{path}` with body `action={action}&manga={id}`, form-encoded.
pub open spec fn admin_ajax_request(
    base: Seq<char>,
    path: Seq<char>,
    action: Seq<char>,
    id: Seq<char>,
) -> RequestView {
    RequestView {
        headers: seq![
            ("Content-Type"@, "application/x-www-form-urlencoded; charset=UTF-8"@),
        ],
        ..post_spec(join_path(base, path), "action="@ + action + "&manga="@ + id)
    }
}

/// First step of the chapter fetch: the novel's own AJAX endpoint for sites
/// that use it; otherwise `admin-ajax` when the novel id is known; otherwise
/// nothing to fetch.
pub open spec fn madara_fetch_start(
    base: Seq<char>,
    path: Seq<char>,
    action: Seq<char>,
    use_new: bool,
    novel_url: Seq<char>,
    novel_id: Seq<char>,
) -> (MadaraFetchView, Option<RequestView>) {
    if use_new {
        (
            MadaraFetchView::FirstPage,
            Some(ajax_page_request(trim_end_char(novel_url, '/'), Seq::empty())),
        )
    } else if novel_id.len() > 0 {
        (MadaraFetchView::AdminAjax, Some(admin_ajax_request(base, path, action, novel_id)))
    } else {
        (MadaraFetchView::Done { html: Seq::empty() }, None)
    }
}

/// Pagination of the first chapter page: the largest `data-page` number of
/// its pagination links (at least 1), and the query of the first link whose
/// `href` has one, without its trailing page number.
pub open spec fn page_max(links: Seq<SnapView>) -> i32
    decreases links.len(),
{
    if links.len() == 0 {
        1
    } else {
        let m = page_max(links.subrange(0, links.len() - 1));
        match sattr(links[links.len() - 1], "data-page"@) {
            Some(p) => match parse_i32(p) {
                Some(v) => if v > m {
                    v
                } else {
                    m
                },
                None => m,
            },
            None => m,
        }
    }
}

/// The query part of `href` (from its `?`) without trailing digits; empty
/// when `href` has no `?`.
pub open spec fn page_query(href: Seq<char>) -> Seq<char> {
    match find(href, "?"@) {
        Some(q) => {
            let query = href.subrange(q, href.len() as int);
            query.subrange(0, query.len() - trail_count(query, digit_pred()))
        },
        None => Seq::empty(),
    }
}

pub open spec fn page_template(links: Seq<SnapView>) -> Seq<char>
    decreases links.len(),
{
    if links.len() == 0 {
        Seq::empty()
    } else {
        let t = page_template(links.subrange(0, links.len() - 1));
        if t.len() > 0 {
            t
        } else {
            match sattr(links[links.len() - 1], "href"@) {
                Some(h) => page_query(h),
                None => Seq::empty(),
            }
        }
    }
}

/// Pagination read from the first chapter page; `None` when the pagination
/// selector could not be used, which counts as a single page.
pub open spec fn madara_pagination(links: Option<Seq<SnapView>>) -> (i32, Seq<char>) {
    match links {
        Some(l) => (page_max(l), page_template(l)),
        None => (1, Seq::empty()),
    }
}

/// The pagination read from a first chapter page: the links matching
/// `.pagination a[data-page]` in the response parsed as a fragment, with
/// their `data-page` and `href`.
pub open spec fn madara_page_links(resp: Result<Seq<char>, Seq<char>>) -> (i32, Seq<char>) {
    match resp {
        Ok(h) => madara_pagination(
            if sel_ok(".pagination a[data-page]"@) {
                Some(select_snaps(root(h, true), ".pagination a[data-page]"@, seq!["data-page"@, "href"@]))
            } else {
                None
            },
        ),
        Err(_) => (1, Seq::empty()),
    }
}

/// Whether a page response is appended to the chapter markup: a successful,
/// nonempty response other than `"0"`.
pub open spec fn usable_page(resp: Result<Seq<char>, Seq<char>>) -> bool {
    match resp {
        Ok(h) => h.len() > 0 && h != "0"@,
        Err(_) => false,
    }
}

/// Next step of the chapter fetch, given the response to the last request
/// and the pagination read from it.
pub open spec fn madara_fetch_next(
    novel_url: Seq<char>,
    state: MadaraFetchView,
    resp: Result<Seq<char>, Seq<char>>,
    pagination: (i32, Seq<char>),
) -> (MadaraFetchView, Option<RequestView>) {
    let clean = trim_end_char(novel_url, '/');
    match state {
        MadaraFetchView::FirstPage => match resp {
            Err(_) => (MadaraFetchView::Done { html: Seq::empty() }, None),
            Ok(h) => {
                let (max, template) = pagination;
                if max > 1 && template.len() > 0 {
                    (
                        MadaraFetchView::Pages { html: h, template, page: 2, max },
                        Some(ajax_page_request(clean, template + dec(2))),
                    )
                } else {
                    (MadaraFetchView::Done { html: h }, None)
                }
            },
        },
        MadaraFetchView::Pages { html, template, page, max } => {
            let html2 = if usable_page(resp) {
                html + resp->Ok_0
            } else {
                html
            };
            if page < max {
                (
                    MadaraFetchView::Pages { html: html2, template, page: (page + 1) as i32, max },
                    Some(ajax_page_request(clean, template + dec(page + 1))),
                )
            } else {
                (MadaraFetchView::Done { html: html2 }, None)
            }
        },
        MadaraFetchView::AdminAjax => (
            MadaraFetchView::Done {
                html: if usable_page(resp) {
                    resp->Ok_0
                } else {
                    Seq::empty()
                },
            },
            None,
        ),
        MadaraFetchView::Done { html } => (MadaraFetchView::Done { html }, None),
    }
}

// ---------------------------------------------------------------------------
// Reading the chapters
// ---------------------------------------------------------------------------
/// One chapter entry: the entry element (its `class`), its first link, and
/// its first release-date element (`None` also when the date selector could
/// not be used).
pub struct MadaraChapterItem {
    pub item: Snap,
    pub link: Option<Snap>,
    pub date: Option<Snap>,
}

pub struct MadaraChapterItemView {
    pub item: SnapView,
    pub link: Option<SnapView>,
    pub date: Option<SnapView>,
}

impl View for MadaraChapterItem {
    type V = MadaraChapterItemView;

    open spec fn view(&self) -> MadaraChapterItemView {
        MadaraChapterItemView { item: self.item@, link: osnap(self.link), date: osnap(self.date) }
    }
}

pub open spec fn chapter_items_view(v: Seq<MadaraChapterItem>) -> Seq<MadaraChapterItemView> {
    v.map_values(|c: MadaraChapterItem| c@)
}

/// The chapter of one entry (index still 0): none without a link or with an
/// empty or `#` link; locked entries get a lock mark before their title.
pub open spec fn madara_chapter_entry(base: Seq<char>, it: MadaraChapterItemView) -> Option<
    ChapterView,
> {
    match it.link {
        None => None,
        Some(l) => {
            let href = match sattr(l, "href"@) {
                Some(h) => h,
                None => Seq::empty(),
            };
            if href.len() == 0 || href == "#"@ {
                None
            } else {
                let t = ttext(l);
                let cls = match sattr(it.item, "class"@) {
                    Some(c) => c,
                    None => Seq::empty(),
                };
                let title = if contains(cls, "premium-block"@) || contains(cls, "locked"@) {
                    "🔒 "@ + t
                } else {
                    t
                };
                Some(
                    ChapterView {
                        url: abs_scheme_join(base, href),
                        title,
                        index: 0,
                        release_date: nonempty_text(it.date),
                        scanlation: None,
                    },
                )
            }
        },
    }
}

/// Chapters in reading order: the page lists the newest first, so the
/// entries are reversed and numbered from 1.
pub open spec fn madara_chapters(base: Seq<char>, items: Seq<MadaraChapterItemView>) -> Seq<
    ChapterView,
> {
    let es = filter_some(
        items.map_values(|it: MadaraChapterItemView| madara_chapter_entry(base, it)),
    );
    Seq::new(es.len(), |i: int| ChapterView { index: (i + 1) as i32, ..es[es.len() - 1 - i] })
}

// ---------------------------------------------------------------------------
// Implementation
// ---------------------------------------------------------------------------
fn ajax_page_request_exec(clean: &Vec<char>, suffix: &Vec<char>) -> (r: Request)
    ensures
        r@ == ajax_page_request(clean@, suffix@),
{
    let mut u = clean.clone();
    push_all(&mut u, &lit("/ajax/chapters/"));
    push_all(&mut u, suffix);
    let r = post_request(&u, &Vec::new());
    let r = with_header(r, "Referer", clean);
    assert(r@.headers =~= seq![("Referer"@, clean@)]);
    assert(r@.body =~= Seq::<char>::empty());
    r
}

/// What is read of one metadata item `n` of a novel page: its `h5` label,
/// its first content element, and the links of that element.
pub open spec fn madara_meta_item(n: NodeRef) -> MadaraMetaView {
    let content = ".summary-content, .summary_content"@;
    MadaraMetaView {
        label: select_first(n, "h5"@, Seq::empty()),
        content: if count_in(n, content) > 0 {
            Some(node_snap(child(n, content, 0), Seq::empty()))
        } else {
            None
        },
        anchors: if count_in(n, content) > 0 && sel_ok("a"@) {
            Some(select_snaps(child(n, content, 0), "a"@, Seq::empty()))
        } else {
            None
        },
    }
}

/// What is read of the novel page parsed from `src` with the selectors of
/// `e`; a field whose selector does not parse is `None`.
pub open spec fn madara_details_raw(e: MadaraEngine, src: Seq<char>) -> MadaraDetailsRawView {
    let pn = root(src, false);
    let items = ".post-content_item, .post-content"@;
    let desc = e.detail_desc_selector@;
    MadaraDetailsRawView {
        title: select_first(pn, e.detail_title_selector@, Seq::empty()),
        cover: select_first(pn, e.detail_cover_selector@, crate::madara::detail_cover_attrs()),
        meta: if sel_ok(items) && sel_ok("h5"@) && sel_ok(".summary-content, .summary_content"@) {
            Some(Seq::new(count_in(pn, items), |i: int| madara_meta_item(child(pn, items, i))))
        } else {
            None
        },
        author_fallback: if sel_ok(e.detail_author_selector@) {
            Some(select_first(pn, e.detail_author_selector@, Seq::empty()))
        } else {
            None
        },
        status_fallback: if sel_ok(e.detail_status_selector@) {
            Some(select_first(pn, e.detail_status_selector@, Seq::empty()))
        } else {
            None
        },
        genre_fallback: if sel_ok(e.detail_genre_selector@) {
            Some(select_snaps(pn, e.detail_genre_selector@, Seq::empty()))
        } else {
            None
        },
        description: if sel_ok(desc) {
            Some(select_first(pn, desc, Seq::empty()))
        } else {
            None
        },
        paragraphs: if sel_ok(desc) && count_in(pn, desc) > 0 && sel_ok("p"@) {
            Some(select_snaps(child(pn, desc, 0), "p"@, Seq::empty()))
        } else {
            None
        },
        id_element: if e.use_new_chapter_endpoint {
            None
        } else if sel_ok(".rating-post-id, #manga-chapters-holder, [data-id]"@) {
            Some(select_first(pn, ".rating-post-id, #manga-chapters-holder, [data-id]"@, seq!["value"@, "data-id"@]))
        } else {
            None
        },
        page_html: if e.use_new_chapter_endpoint {
            Seq::empty()
        } else {
            doc_html(src, false)
        },
    }
}

/// Where the chapter entries are read: the fetched chapter markup, parsed as
/// a fragment, unless it is empty or `"0"`; then the novel page.
pub open spec fn madara_chapter_source(page_src: Seq<char>, chapter_src: Seq<char>) -> NodeRef {
    if chapter_src.len() > 0 && chapter_src != "0"@ {
        root(chapter_src, true)
    } else {
        root(page_src, false)
    }
}

/// The chapter entries under `n`: each match of the entry selector with its
/// `class`, its first link (with its `href`) and its first date element
/// (none when the date selector does not parse).
pub open spec fn madara_chapter_items(e: MadaraEngine, n: NodeRef) -> Seq<MadaraChapterItemView> {
    let item = e.chapter_item_selector@;
    Seq::new(
        count_in(n, item),
        |i: int|
            MadaraChapterItemView {
                item: node_snap(child(n, item, i), seq!["class"@]),
                link: select_first(child(n, item, i), e.chapter_link_selector@, seq!["href"@]),
                date: if sel_ok(e.chapter_date_selector@) {
                    select_first(child(n, item, i), e.chapter_date_selector@, Seq::empty())
                } else {
                    None
                },
            },
    )
}

/// Maximum page and page-query template (see [`madara_pagination`]).
pub fn pagination_exec(links: &Vec<Snap>) -> (r: (i32, Vec<char>))
    ensures
        r.0 == page_max(snap_views(links@)),
        r.1@ == page_template(snap_views(links@)),
{
    let ghost all = snap_views(links@);
    let mut max: i32 = 1;
    let mut template: Vec<char> = Vec::new();
    let mut i: usize = 0;
    while i < links.len()
        invariant
            i <= links.len(),
            all == snap_views(links@),
            max == page_max(all.take(i as int)),
            template@ == page_template(all.take(i as int)),
        decreases links.len() - i,
    {
        proof {
            let nt = all.take(i + 1);
            assert(nt.subrange(0, nt.len() - 1) =~= all.take(i as int));
            assert(nt[nt.len() - 1] == links@[i as int]@);
        }
        match links[i].get_attr("data-page") {
            Some(p) => match parse_i32_exec(&p) {
                Some(v) => {
                    if v > max {
                        max = v;
                    }
                },
                None => {},
            },
            None => {},
        }
        if template.len() == 0 {
            match links[i].get_attr("href") {
                Some(h) => {
                    proof {
                        reveal_strlit("?");
                    }
                    match find_exec(&h, &lit("?")) {
                        Some(q) => {
                            proof {
                                lemma_find(h@, "?"@);
                            }
                            let hl = h.len();
                            let query = slice_exec(&h, q, hl);
                            let mut k: usize = 0;
                            while k < query.len() && crate::text::char_is_digit(
                                query[query.len() - 1 - k],
                            )
                                invariant
                                    k <= query.len(),
                                    forall|j: int|
                                        query.len() - k <= j < query.len() ==> crate::text::is_digit(
                                            query@[j],
                                        ),
                                decreases query.len() - k,
                            {
                                k += 1;
                            }
                            proof {
                                crate::text::lemma_trail_count(query@, digit_pred(), k as int);
                            }
                            template = slice_exec(&query, 0, query.len() - k);
                        },
                        None => {
                            template = Vec::new();
                        },
                    }
                },
                None => {},
            }
        }
        i += 1;
    }
    assert(all.take(links.len() as int) =~= all);
    (max, template)
}

/// The chapter of one entry (see [`madara_chapter_entry`]).
pub fn chapter_entry_exec(e: &MadaraEngine, it: &MadaraChapterItem) -> (r: Option<ChapterDto>)
    ensures
        r.deep_view() == madara_chapter_entry(e.base_url@, it@),
{
    let link = match &it.link {
        Some(l) => l,
        None => return None,
    };
    let href = match link.get_attr("href") {
        Some(h) => h,
        None => Vec::new(),
    };
    if href.len() == 0 || str_eq("#", &href) {
        return None;
    }
    let t = link.trimmed();
    let cls = match it.item.get_attr("class") {
        Some(c) => c,
        None => Vec::new(),
    };
    let title = if contains_exec(&cls, &lit("premium-block")) || contains_exec(&cls, &lit("locked")) {
        concat2(&lit("🔒 "), &t)
    } else {
        t
    };
    let date = nonempty_text_exec(&it.date);
    Some(
        ChapterDto {
            url: string_of(&e.abs_url(&href)),
            title: string_of(&title),
            index: 0,
            release_date: opt_string(date),
            scanlation: None,
        },
    )
}

/// Chapters in reading order (see [`madara_chapters`]).
pub fn chapters_exec(e: &MadaraEngine, items: &Vec<MadaraChapterItem>) -> (r: Vec<ChapterDto>)
    ensures
        r.deep_view() == madara_chapters(e.base_url@, chapter_items_view(items@)),
{
    let ghost mapped = chapter_items_view(items@).map_values(
        |it: MadaraChapterItemView| madara_chapter_entry(e.base_url@, it),
    );
    let mut es: Vec<ChapterDto> = Vec::new();
    let mut i: usize = 0;
    while i < items.len()
        invariant
            i <= items.len(),
            mapped == chapter_items_view(items@).map_values(
                |it: MadaraChapterItemView| madara_chapter_entry(e.base_url@, it),
            ),
            es.deep_view() == filter_some(mapped.take(i as int)),
        decreases items.len() - i,
    {
        let c = chapter_entry_exec(e, &items[i]);
        proof {
            lemma_filter_some_step(mapped, i as int);
            assert(mapped[i as int] == c.deep_view());
        }
        match c {
            Some(x) => {
                let ghost before = es.deep_view();
                es.push(x);
                assert(es.deep_view() =~= before.push(x.deep_view()));
            },
            None => {},
        }
        i += 1;
    }
    assert(mapped.take(items.len() as int) =~= mapped);
    let ghost ev = es.deep_view();
    let n = es.len();
    let mut r: Vec<ChapterDto> = Vec::new();
    let mut k: usize = 0;
    while es.len() > 0
        invariant
            k + es.len() == n,
            ev.len() == n,
            es.deep_view() == ev.take(es.len() as int),
            r@.len() == k,
            forall|j: int|
                0 <= j < k ==> #[trigger] r@[j].deep_view() == (ChapterView {
                    index: (j + 1) as i32,
                    ..ev[n - 1 - j]
                }),
        decreases es.len(),
    {
        let ghost before = es@;
        let ghost len = es.len();
        assert(before[len - 1].deep_view() == es.deep_view()[len - 1]);
        let mut c = es.pop().unwrap();
        assert(c == before[len - 1]);
        assert(c.deep_view() == ev[n - 1 - k]);
        assert forall|j: int| 0 <= j < es.len() implies es.deep_view()[j] == ev.take(
            es.len() as int,
        )[j] by {
            assert(es@[j] == before[j]);
        }
        assert(es.deep_view() =~= ev.take(es.len() as int));
        c.index = #[verifier::truncate] ((k + 1) as i32);
        r.push(c);
        k += 1;
    }
    assert(r.deep_view() =~= madara_chapters(e.base_url@, chapter_items_view(items@)));
    r
}

impl MadaraEngine {
    /// URL fetched for a novel page: the novel URL without trailing slashes.
    pub fn details_url(&self, novel_url: &str) -> (r: String)
        ensures
            r@ == trim_end_char(novel_url@, '/'),
    {
        string_of(&trim_end_char_exec(&chars_of(novel_url), '/'))
    }

    /// Reads a novel page (see [`madara_details_raw`]). An invalid title or
    /// cover selector is an error; every other selector that cannot be used
    /// leaves its field to its fallback or empty.
    pub fn get_novel_details(&self, page_html: &str) -> (r: Result<MadaraDetails, String>)
        ensures
            match r {
                Err(e) => match selector_parse_error(self.detail_title_selector@) {
                    Some(m) => e@ == m,
                    None => selector_parse_error(self.detail_cover_selector@) == Some(e@),
                },
                Ok(d) => selector_parse_error(self.detail_title_selector@) is None
                    && selector_parse_error(self.detail_cover_selector@) is None
                    && d@ == madara_details(
                    self.base_url@,
                    self.use_new_chapter_endpoint,
                    madara_details_raw(*self, page_html@),
                ),
            },
    {
        let title_sel = match compile_selector(self.detail_title_selector.as_str()) {
            Ok(s) => s,
            Err(e) => return Err(e),
        };
        let cover_sel = match compile_selector(self.detail_cover_selector.as_str()) {
            Ok(s) => s,
            Err(e) => return Err(e),
        };
        let page = parse_document(page_html);
        let doc = &page;
        let ghost pn = page_node(doc);
        let none: &[&str] = &[];
        let cover_names: &[&str] = &["data-lazy-src", "data-src", "src"];
        let id_names: &[&str] = &["value", "data-id"];
        proof {
            assert(strs(none@) =~= Seq::<Seq<char>>::empty());
            assert(strs(cover_names@) =~= crate::madara::detail_cover_attrs());
            assert(strs(id_names@) =~= seq!["value"@, "data-id"@]);
        }
        let title = first_of(doc, &title_sel, none);
        let cover = first_of(doc, &cover_sel, cover_names);
        let meta = match (
            compile_selector(".post-content_item, .post-content"),
            compile_selector("h5"),
            compile_selector(".summary-content, .summary_content"),
        ) {
            (Ok(item_sel), Ok(h5_sel), Ok(content_sel)) => {
                let found = select_all(doc, &item_sel);
                let mut items: Vec<MadaraMetaItem> = Vec::new();
                let mut i: usize = 0;
                while i < found.len()
                    invariant
                        i <= found@.len(),
                        found@.len() == count_in(pn, ".post-content_item, .post-content"@),
                        item_sel.text() == ".post-content_item, .post-content"@,
                        h5_sel.text() == "h5"@,
                        content_sel.text() == ".summary-content, .summary_content"@,
                        strs(none@) == Seq::<Seq<char>>::empty(),
                        forall|k: int| 0 <= k < found@.len() ==> (#[trigger] found@[k]).node() == child(pn, item_sel.text(), k),
                        items@.len() == i,
                        forall|k: int| 0 <= k < i ==> (#[trigger] items@[k])@ == madara_meta_item(child(pn, item_sel.text(), k)),
                    decreases found@.len() - i,
                {
                    let label = first_in(&found[i], &h5_sel, none);
                    let contents = select_in(&found[i], &content_sel);
                    let (content, anchors) = if contents.len() > 0 {
                        let anchors = opt_all_in(&contents[0], "a", none);
                        (Some(snap_of(&contents[0], none)), anchors)
                    } else {
                        (None, None)
                    };
                    items.push(MadaraMetaItem { label, content, anchors });
                    i += 1;
                }
                assert(crate::madara_details::meta_views(items@) =~= Seq::new(
                    count_in(pn, ".post-content_item, .post-content"@),
                    |i: int| madara_meta_item(child(pn, ".post-content_item, .post-content"@, i)),
                ));
                Some(items)
            },
            _ => None,
        };
        let author_fallback = opt_first_of(doc, self.detail_author_selector.as_str(), none);
        let status_fallback = opt_first_of(doc, self.detail_status_selector.as_str(), none);
        let genre_fallback = opt_all_of(doc, self.detail_genre_selector.as_str(), none);
        let (description, paragraphs) = match compile_selector(self.detail_desc_selector.as_str()) {
            Ok(s) => {
                let found = select_all(doc, &s);
                if found.len() > 0 {
                    let ps = opt_all_in(&found[0], "p", none);
                    (Some(Some(snap_of(&found[0], none))), ps)
                } else {
                    (Some(None), None)
                }
            },
            Err(_) => (None, None),
        };
        let (id_element, html) = if self.use_new_chapter_endpoint {
            (None, Vec::new())
        } else {
            let el = opt_first_of(doc, ".rating-post-id, #manga-chapters-holder, [data-id]", id_names);
            (el, chars_of(document_html(doc).as_str()))
        };
        let raw = MadaraDetailsRaw {
            title,
            cover,
            meta,
            author_fallback,
            status_fallback,
            genre_fallback,
            description,
            paragraphs,
            id_element,
            page_html: html,
        };
        assert(raw@ == madara_details_raw(*self, page_html@));
        Ok(self.assemble_details(&raw))
    }

    /// First step of the chapter fetch (see [`madara_fetch_start`]).
    pub fn fetch_start(&self, novel_url: &str, details: &MadaraDetails) -> (r: (
        MadaraFetch,
        Option<Request>,
    ))
        ensures
            (r.0@, oreq(r.1)) == madara_fetch_start(
                self.base_url@,
                self.chapter_ajax_path@,
                self.chapter_ajax_action@,
                self.use_new_chapter_endpoint,
                novel_url@,
                details.novel_id@,
            ),
    {
        if self.use_new_chapter_endpoint {
            let clean = trim_end_char_exec(&chars_of(novel_url), '/');
            let req = ajax_page_request_exec(&clean, &Vec::new());
            assert(clean@ + "/ajax/chapters/"@ + Seq::<char>::empty() =~= clean@
                + "/ajax/chapters/"@);
            (MadaraFetch::FirstPage, Some(req))
        } else if chars_of(details.novel_id.as_str()).len() > 0 {
            let base = chars_of(self.base_url.as_str());
            let path = chars_of(self.chapter_ajax_path.as_str());
            let url = join_path_exec(&base, &path);
            let mut body = lit("action=");
            push_all(&mut body, &chars_of(self.chapter_ajax_action.as_str()));
            push_all(&mut body, &lit("&manga="));
            push_all(&mut body, &chars_of(details.novel_id.as_str()));
            let req = post_request(&url, &body);
            let req = with_header(
                req,
                "Content-Type",
                &lit("application/x-www-form-urlencoded; charset=UTF-8"),
            );
            assert(req@.headers =~= seq![
                ("Content-Type"@, "application/x-www-form-urlencoded; charset=UTF-8"@),
            ]);
            (MadaraFetch::AdminAjax, Some(req))
        } else {
            (MadaraFetch::Done { html: String::new() }, None)
        }
    }

    /// Next step of the chapter fetch after the response `resp` to the last
    /// request (see [`madara_fetch_next`]); the pagination is read from the
    /// first page.
    pub fn fetch_step(&self, novel_url: &str, state: MadaraFetch, resp: Result<String, String>) -> (r: (
        MadaraFetch,
        Option<Request>,
    ))
        ensures
            (r.0@, oreq(r.1)) == madara_fetch_next(
                novel_url@,
                state@,
                resp_view(resp),
                madara_page_links(resp_view(resp)),
            ),
    {
        let ghost sv = state@;
        let ghost rv = resp_view(resp);
        let clean = trim_end_char_exec(&chars_of(novel_url), '/');
        match state {
            MadaraFetch::FirstPage => match resp {
                Err(_) => {
                    let r = (MadaraFetch::Done { html: String::new() }, None);
                    assert((r.0@, oreq(r.1)) == madara_fetch_next(
                        novel_url@,
                        sv,
                        rv,
                        madara_page_links(rv),
                    ));
                    r
                },
                Ok(h) => {
                    let frag = parse_fragment(h.as_str());
                    let names: &[&str] = &["data-page", "href"];
                    proof {
                        assert(strs(names@) =~= seq!["data-page"@, "href"@]);
                    }
                    let links = opt_all_of(&frag, ".pagination a[data-page]", names);
                    let (max, template) = match &links {
                        Some(l) => pagination_exec(l),
                        None => (1, Vec::new()),
                    };
                    let ghost lv = osnaps(links);
                    assert(madara_page_links(rv) == (max, template@));
                    if max > 1 && template.len() > 0 {
                        let mut suffix = template.clone();
                        push_all(&mut suffix, &dec_exec(2));
                        let req = ajax_page_request_exec(&clean, &suffix);
                        let r = (
                            MadaraFetch::Pages { html: h, template: string_of(&template), page: 2, max },
                            Some(req),
                        );
                        assert((r.0@, oreq(r.1)) == madara_fetch_next(
                            novel_url@,
                            sv,
                            rv,
                            madara_page_links(rv),
                        ));
                        r
                    } else {
                        let r = (MadaraFetch::Done { html: h }, None);
                        assert((r.0@, oreq(r.1)) == madara_fetch_next(
                            novel_url@,
                            sv,
                            rv,
                            madara_page_links(rv),
                        ));
                        r
                    }
                },
            },
            MadaraFetch::Pages { html, template, page, max } => {
                let mut acc = chars_of(html.as_str());
                match &resp {
                    Ok(h) => {
                        let hv = chars_of(h.as_str());
                        if hv.len() > 0 && !str_eq("0", &hv) {
                            push_all(&mut acc, &hv);
                        }
                    },
                    Err(_) => {},
                }
                if page < max {
                    let mut suffix = chars_of(template.as_str());
                    push_all(&mut suffix, &dec_exec((page + 1) as i64));
                    let req = ajax_page_request_exec(&clean, &suffix);
                    let r = (
                        MadaraFetch::Pages { html: string_of(&acc), template, page: page + 1, max },
                        Some(req),
                    );
                    assert((r.0@, oreq(r.1)) == madara_fetch_next(
                        novel_url@,
                        sv,
                        rv,
                        madara_page_links(rv),
                    ));
                    r
                } else {
                    let r = (MadaraFetch::Done { html: string_of(&acc) }, None);
                    assert((r.0@, oreq(r.1)) == madara_fetch_next(
                        novel_url@,
                        sv,
                        rv,
                        madara_page_links(rv),
                    ));
                    r
                }
            },
            MadaraFetch::AdminAjax => {
                let html = match &resp {
                    Ok(h) => {
                        let hv = chars_of(h.as_str());
                        if hv.len() > 0 && !str_eq("0", &hv) {
                            h.clone()
                        } else {
                            String::new()
                        }
                    },
                    Err(_) => String::new(),
                };
                let r = (MadaraFetch::Done { html }, None);
                assert((r.0@, oreq(r.1)) == madara_fetch_next(
                    novel_url@,
                    sv,
                    rv,
                    madara_page_links(rv),
                ));
                r
            },
            MadaraFetch::Done { html } => {
                let r = (MadaraFetch::Done { html }, None);
                assert((r.0@, oreq(r.1)) == madara_fetch_next(
                    novel_url@,
                    sv,
                    rv,
                    madara_page_links(rv),
                ));
                r
            },
        }
    }

    /// Reads the chapter entries (see [`madara_chapter_items`]) of the chapter
    /// markup, or of the novel page when the markup is empty or `"0"` (see
    /// [`madara_chapter_source`]). `None` exactly when the entry or link
    /// selector cannot be used.
    pub fn chapter_items(&self, page_html: &str, chapter_html: &str) -> (r: Option<
        Vec<MadaraChapterItem>,
    >)
        ensures
            r is None <==> (selector_parse_error(self.chapter_item_selector@) is Some
                || selector_parse_error(self.chapter_link_selector@) is Some),
            r matches Some(items) ==> chapter_items_view(items@) == madara_chapter_items(
                *self,
                madara_chapter_source(page_html@, chapter_html@),
            ),
    {
        let item_sel = match compile_selector(self.chapter_item_selector.as_str()) {
            Ok(s) => s,
            Err(_) => return None,
        };
        let link_sel = match compile_selector(self.chapter_link_selector.as_str()) {
            Ok(s) => s,
            Err(_) => return None,
        };
        let date_sel = match compile_selector(self.chapter_date_selector.as_str()) {
            Ok(s) => Some(s),
            Err(_) => None,
        };
        let chv = chars_of(chapter_html);
        proof {
            reveal_strlit("0");
        }
        let src = if chv.len() > 0 && !str_eq("0", &chv) {
            parse_fragment(chapter_html)
        } else {
            parse_document(page_html)
        };
        let ghost n = madara_chapter_source(page_html@, chapter_html@);
        assert(page_node(&src) == n);
        let found = select_all(&src, &item_sel);
        let none: &[&str] = &[];
        let class_names: &[&str] = &["class"];
        let href_names: &[&str] = &["href"];
        proof {
            assert(strs(none@) =~= Seq::<Seq<char>>::empty());
            assert(strs(class_names@) =~= seq!["class"@]);
            assert(strs(href_names@) =~= seq!["href"@]);
        }
        let ghost want = madara_chapter_items(*self, n);
        let mut items: Vec<MadaraChapterItem> = Vec::new();
        let mut i: usize = 0;
        while i < found.len()
            invariant
                i <= found@.len(),
                found@.len() == want.len(),
                want == madara_chapter_items(*self, n),
                item_sel.text() == self.chapter_item_selector@,
                link_sel.text() == self.chapter_link_selector@,
                match &date_sel {
                    Some(d) => sel_ok(self.chapter_date_selector@) && d.text() == self.chapter_date_selector@,
                    None => !sel_ok(self.chapter_date_selector@),
                },
                strs(none@) == Seq::<Seq<char>>::empty(),
                strs(class_names@) == seq!["class"@],
                strs(href_names@) == seq!["href"@],
                forall|k: int| 0 <= k < found@.len() ==> (#[trigger] found@[k]).node() == child(n, item_sel.text(), k),
                items@.len() == i,
                forall|k: int| 0 <= k < i ==> (#[trigger] items@[k])@ == want[k],
            decreases found@.len() - i,
        {
            let link = first_in(&found[i], &link_sel, href_names);
            let date = match &date_sel {
                Some(d) => first_in(&found[i], d, none),
                None => None,
            };
            items.push(MadaraChapterItem { item: snap_of(&found[i], class_names), link, date });
            i += 1;
        }
        assert(chapter_items_view(items@) =~= want);
        Some(items)
    }

    /// The novel: the details read from its page, and its chapters read from
    /// the fetched chapter markup `chapter_html` (see [`madara_chapters`]).
    pub fn finish_details(
        &self,
        novel_url: &str,
        details: MadaraDetails,
        page_html: &str,
        chapter_html: &str,
    ) -> (n: NovelDto)
        ensures
            n.url@ == novel_url@,
            n.title@ == details@.title,
            os(n.author) == details@.author,
            os(n.cover_url) == details@.cover_url,
            os(n.description) == details@.description,
            os(n.status) == details@.status,
            sviews(n.genres@) == details@.genres,
            n.chapters.deep_view() == if sel_ok(self.chapter_item_selector@) && sel_ok(self.chapter_link_selector@) {
                madara_chapters(self.base_url@, madara_chapter_items(*self, madara_chapter_source(page_html@, chapter_html@)))
            } else {
                Seq::empty()
            },
            n.extra@ == Map::<String, String>::empty(),
    {
        let chapters = match self.chapter_items(page_html, chapter_html) {
            Some(items) => chapters_exec(self, &items),
            None => {
                let r: Vec<ChapterDto> = Vec::new();
                assert(r.deep_view() =~= madara_chapters(self.base_url@, Seq::empty()));
                r
            },
        };
        NovelDto {
            url: String::from_str(novel_url),
            title: details.title,
            author: details.author,
            cover_url: details.cover_url,
            description: details.description,
            status: details.status,
            genres: details.genres,
            chapters,
            extra: HashMap::new(),
        }
    }
}

/// The chapters of a Madara novel come out oldest first, numbered 1 to N:
/// chapter `i` is the entry `N - 1 - i` of the page's newest-first list (of
/// the entries that have a usable link), with index `i + 1`.
pub proof fn law_madara_chapters_numbered(base: Seq<char>, items: Seq<MadaraChapterItemView>)
    ensures
        ({
            let es = filter_some(items.map_values(|it: MadaraChapterItemView| madara_chapter_entry(base, it)));
            let cs = madara_chapters(base, items);
            &&& cs.len() == es.len()
            &&& forall|i: int|
                0 <= i < cs.len() ==> (#[trigger] cs[i]).index == (i + 1) as i32 && cs[i].url == es[es.len() - 1
                    - i].url && cs[i].title == es[es.len() - 1 - i].title
        }),
{
}

/// Each Madara chapter carries its entry's release date: the trimmed text of
/// the entry's first date element when that text is not empty, and no date
/// otherwise; the same holds of every chapter of the novel's list, whose
/// chapter `i` is entry `N - 1 - i`.
pub proof fn law_madara_release_dates(base: Seq<char>, items: Seq<MadaraChapterItemView>)
    ensures
        forall|k: int|
            0 <= k < items.len() ==> (#[trigger] madara_chapter_entry(base, items[k]) matches Some(c) ==> c.release_date
                == match items[k].date {
                Some(d) => if ttext(d).len() > 0 {
                    Some(ttext(d))
                } else {
                    None
                },
                None => None,
            }),
        ({
            let es = filter_some(items.map_values(|it: MadaraChapterItemView| madara_chapter_entry(base, it)));
            let cs = madara_chapters(base, items);
            forall|i: int| 0 <= i < cs.len() ==> (#[trigger] cs[i]).release_date == es[es.len() - 1 - i].release_date
        }),
{
}

/// A chapter entry gives a chapter exactly when its first link has an
/// `href` other than "" and "#"; the chapter's URL is that `href` made
/// absolute, and its title is the link's trimmed text, marked with a lock
/// when the entry's class names it premium or locked.
pub proof fn law_madara_chapter_entry(base: Seq<char>, it: MadaraChapterItemView)
    ensures
        madara_chapter_entry(base, it) is Some <==> (it.link matches Some(l) && sattr(l, "href"@) matches Some(h) && h.len()
            > 0 && h != "#"@),
        madara_chapter_entry(base, it) matches Some(c) ==> ({
            let l = it.link->Some_0;
            let h = sattr(l, "href"@)->Some_0;
            let cls = match sattr(it.item, "class"@) {
                Some(x) => x,
                None => Seq::empty(),
            };
            &&& c.url == abs_scheme_join(base, h)
            &&& (contains(cls, "premium-block"@) || contains(cls, "locked"@)) ==> c.title == "🔒 "@ + ttext(l)
            &&& !(contains(cls, "premium-block"@) || contains(cls, "locked"@)) ==> c.title == ttext(l)
            &&& c.scanlation is None
        }),
{
}

} // verus!
