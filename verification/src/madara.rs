//! Engine for sites built on the Madara WordPress theme.
use vstd::prelude::*;
use crate::content::{engine_tag_list, engine_tags, first_clean, select_clean};
use crate::dom::{child, compile_selector, parse_document, root, select_all, selector_parse_error, NodeRef};
use crate::fetch::{get_request, get_spec, lit, with_header, Request, RequestView};
use crate::models::{clone_listings, ListingDto, ListingView, SearchResultDto, SearchResultView};
use crate::snap::{first_attr, first_attr_exec, first_in, osnap, sattr, select_first, strs, ttext, Snap, SnapView};
use crate::text::{os, starts_with, chars_of, dec, dec_exec, filter_some, lemma_filter_some_step, push_all, replace, replace_exec, str_eq, string_of, trim_end_char, trim_end_char_exec};
use crate::urls::{abs_scheme_join, abs_scheme_join_exec};

verus! {

/// Configuration of a Madara site: its address, its chapter endpoint and the
/// CSS selectors used to read its pages.
pub struct MadaraEngine {
    pub base_url: String,
    pub use_new_chapter_endpoint: bool,
    pub chapter_ajax_path: String,
    pub chapter_ajax_action: String,
    pub list_item_selector: String,
    pub list_title_selector: String,
    pub list_cover_selector: String,
    pub detail_title_selector: String,
    pub detail_author_selector: String,
    pub detail_cover_selector: String,
    pub detail_desc_selector: String,
    pub detail_genre_selector: String,
    pub detail_status_selector: String,
    pub chapter_item_selector: String,
    pub chapter_link_selector: String,
    pub chapter_date_selector: String,
    pub chapter_content_selector: String,
    pub listings: Vec<ListingDto>,
}

/// Listings that a Madara site offers by default.
pub open spec fn madara_default_listings() -> Seq<ListingView> {
    seq![
        ListingView { id: "popular"@, name: "Popular"@ },
        ListingView { id: "latest"@, name: "Latest Updates"@ },
        ListingView { id: "new"@, name: "New Novels"@ },
    ]
}

/// One entry of a novel list page: the first title link and the first image
/// found in it.
pub struct MadaraListItem {
    pub link: Option<Snap>,
    pub cover: Option<Snap>,
}

pub struct MadaraListItemView {
    pub link: Option<SnapView>,
    pub cover: Option<SnapView>,
}

impl View for MadaraListItem {
    type V = MadaraListItemView;

    open spec fn view(&self) -> MadaraListItemView {
        MadaraListItemView { link: osnap(self.link), cover: osnap(self.cover) }
    }
}

pub open spec fn list_items_view(v: Seq<MadaraListItem>) -> Seq<MadaraListItemView> {
    v.map_values(|it: MadaraListItem| it@)
}

/// Image attributes read for a list cover, in order of preference.
pub open spec fn list_cover_attrs() -> Seq<Seq<char>> {
    seq!["data-src"@, "src"@, "data-lazy-src"@, "data-lazy-srcset"@]
}

/// Image attributes read for a novel cover, in order of preference.
pub open spec fn detail_cover_attrs() -> Seq<Seq<char>> {
    seq!["data-lazy-src"@, "data-src"@, "src"@]
}

/// The result for one list entry: none without a title link, without an
/// `href`, with an empty or `#` link, or with an empty title.
pub open spec fn madara_list_entry(base: Seq<char>, it: MadaraListItemView) -> Option<
    SearchResultView,
> {
    match it.link {
        None => None,
        Some(l) => match sattr(l, "href"@) {
            None => None,
            Some(href) => if href.len() == 0 || href == "#"@ {
                None
            } else {
                let url = abs_scheme_join(base, href);
                let title = ttext(l);
                let cover_url = match it.cover {
                    Some(img) => match first_attr(img, list_cover_attrs()) {
                        Some(s) => Some(abs_scheme_join(base, s)),
                        None => None,
                    },
                    None => None,
                };
                if title.len() > 0 && url.len() > 0 {
                    Some(SearchResultView { url, title, cover_url, author: None })
                } else {
                    None
                }
            },
        },
    }
}

/// The items of a list page: for each match of `item`, the first match of
/// `title` under it (with its `href`) and the first match of `cover`.
pub open spec fn madara_list_items(page: NodeRef, item: Seq<char>, title: Seq<char>, cover: Seq<char>) -> Seq<
    MadaraListItemView,
> {
    Seq::new(
        crate::dom::count_in(page, item),
        |i: int|
            MadaraListItemView {
                link: select_first(child(page, item, i), title, seq!["href"@]),
                cover: select_first(child(page, item, i), cover, list_cover_attrs()),
            },
    )
}

/// The results of a list page, in page order.
pub open spec fn madara_list(base: Seq<char>, items: Seq<MadaraListItemView>) -> Seq<
    SearchResultView,
> {
    filter_some(items.map_values(|it: MadaraListItemView| madara_list_entry(base, it)))
}

/// Search URL: `{base}/page/{page}/?s={query with '+' for ' '}&post_type=wp-manga`.
pub open spec fn madara_search_url(base: Seq<char>, query: Seq<char>, page: i32) -> Seq<char> {
    trim_end_char(base, '/') + "/page/"@ + dec(page as int) + "/?s="@ + replace(
        query,
        " "@,
        "+"@,
    ) + "&post_type=wp-manga"@
}

/// Sort order asked for a listing.
pub open spec fn madara_orderby(listing_id: Seq<char>) -> Seq<char> {
    if listing_id == "latest"@ {
        "latest"@
    } else if listing_id == "new"@ {
        "new-manga"@
    } else {
        "views"@
    }
}

/// Listing URL: `{base}/page/{page}/?s=&post_type=wp-manga&m_orderby={order}`.
pub open spec fn madara_listing_url(base: Seq<char>, listing_id: Seq<char>, page: i32) -> Seq<
    char,
> {
    trim_end_char(base, '/') + "/page/"@ + dec(page as int) + "/?s=&post_type=wp-manga&m_orderby="@
        + madara_orderby(listing_id)
}

/// The default selectors and AJAX endpoint of a Madara site.
pub open spec fn madara_default_selectors(e: MadaraEngine) -> bool {
    &&& e.chapter_ajax_path@ == "wp-admin/admin-ajax.php"@
    &&& e.chapter_ajax_action@ == "manga_get_chapters"@
    &&& e.list_item_selector@ == ".page-item-detail, .c-tabs-item__content, .manga-item, .post-item"@
    &&& e.list_title_selector@ == ".post-title a, .manga-title a, h3 a, h4 a"@
    &&& e.list_cover_selector@ == "img"@
    &&& e.detail_title_selector@ == ".post-title h1, #manga-title h1, .manga-title, h1"@
    &&& e.detail_author_selector@ == ".author-content a, .manga-author a, .manga-authors a, .author-content, .manga-author, .manga-authors"@
    &&& e.detail_cover_selector@ == ".summary_image img, .manga-poster img, .post-thumbnail img, img"@
    &&& e.detail_desc_selector@ == "div.summary__content, #tab-manga-about, .manga-summary, .manga-excerpt, .entry-content"@
    &&& e.detail_genre_selector@ == ".genres-content a, .genre-content a, .post-content_item a[href*='/manga-genre/']"@
    &&& e.detail_status_selector@ == ".post-status .summary-content, .manga-status, .post-content_item:contains('Status') .summary-content"@
    &&& e.chapter_item_selector@ == ".wp-manga-chapter, li.wp-manga-chapter, .chapter-item"@
    &&& e.chapter_link_selector@ == "a"@
    &&& e.chapter_date_selector@ == "span.chapter-release-date, .chapter-release-date"@
    &&& e.chapter_content_selector@ == ".text-left, .text-right, .entry-content, .c-blog-post > div > div:nth-child(2), .read-container, #chapter-ing, .reading-content"@
}

impl MadaraEngine {
    /// An engine for the site at `base_url` with the default Madara selectors.
    pub fn new(base_url: String) -> (e: Self)
        ensures
            e.base_url@ == base_url@,
            !e.use_new_chapter_endpoint,
            madara_default_selectors(e),
            e.listings.deep_view() == madara_default_listings(),
    {
        let listings = vec![
            ListingDto { id: String::from_str("popular"), name: String::from_str("Popular") },
            ListingDto { id: String::from_str("latest"), name: String::from_str("Latest Updates") },
            ListingDto { id: String::from_str("new"), name: String::from_str("New Novels") },
        ];
        assert(listings.deep_view() =~= madara_default_listings());
        MadaraEngine {
            base_url,
            use_new_chapter_endpoint: false,
            chapter_ajax_path: String::from_str("wp-admin/admin-ajax.php"),
            chapter_ajax_action: String::from_str("manga_get_chapters"),
            list_item_selector: String::from_str(
                ".page-item-detail, .c-tabs-item__content, .manga-item, .post-item",
            ),
            list_title_selector: String::from_str(".post-title a, .manga-title a, h3 a, h4 a"),
            list_cover_selector: String::from_str("img"),
            detail_title_selector: String::from_str(
                ".post-title h1, #manga-title h1, .manga-title, h1",
            ),
            detail_author_selector: String::from_str(
                ".author-content a, .manga-author a, .manga-authors a, .author-content, .manga-author, .manga-authors",
            ),
            detail_cover_selector: String::from_str(
                ".summary_image img, .manga-poster img, .post-thumbnail img, img",
            ),
            detail_desc_selector: String::from_str(
                "div.summary__content, #tab-manga-about, .manga-summary, .manga-excerpt, .entry-content",
            ),
            detail_genre_selector: String::from_str(
                ".genres-content a, .genre-content a, .post-content_item a[href*='/manga-genre/']",
            ),
            detail_status_selector: String::from_str(
                ".post-status .summary-content, .manga-status, .post-content_item:contains('Status') .summary-content",
            ),
            chapter_item_selector: String::from_str(
                ".wp-manga-chapter, li.wp-manga-chapter, .chapter-item",
            ),
            chapter_link_selector: String::from_str("a"),
            chapter_date_selector: String::from_str(
                "span.chapter-release-date, .chapter-release-date",
            ),
            chapter_content_selector: String::from_str(
                ".text-left, .text-right, .entry-content, .c-blog-post > div > div:nth-child(2), .read-container, #chapter-ing, .reading-content",
            ),
            listings,
        }
    }

    /// Absolute form of a link found on the site (see [`abs_scheme_join`]).
    pub fn abs_url(&self, href: &Vec<char>) -> (r: Vec<char>)
        ensures
            r@ == abs_scheme_join(self.base_url@, href@),
    {
        let base = chars_of(self.base_url.as_str());
        abs_scheme_join_exec(&base, href)
    }

    /// The result for one list entry (see [`madara_list_entry`]).
    pub fn list_entry(&self, it: &MadaraListItem) -> (r: Option<SearchResultDto>)
        ensures
            r.deep_view() == madara_list_entry(self.base_url@, it@),
    {
        let link = match &it.link {
            Some(l) => l,
            None => return None,
        };
        let href = match link.get_attr("href") {
            Some(h) => h,
            None => return None,
        };
        if href.len() == 0 || str_eq("#", &href) {
            return None;
        }
        let url = self.abs_url(&href);
        let title = link.trimmed();
        let cover_url = match &it.cover {
            Some(img) => {
                let names = ["data-src", "src", "data-lazy-src", "data-lazy-srcset"];
                assert(strs(names@) =~= list_cover_attrs());
                match first_attr_exec(img, &names) {
                    Some(s) => Some(string_of(&self.abs_url(&s))),
                    None => None,
                }
            },
            None => None,
        };
        if title.len() > 0 && url.len() > 0 {
            Some(
                SearchResultDto {
                    url: string_of(&url),
                    title: string_of(&title),
                    cover_url,
                    author: None,
                },
            )
        } else {
            None
        }
    }

    /// The results of a list page whose entries have been read.
    pub fn collect_list(&self, items: &Vec<MadaraListItem>) -> (r: Vec<SearchResultDto>)
        ensures
            r.deep_view() == madara_list(self.base_url@, list_items_view(items@)),
    {
        let ghost mapped = list_items_view(items@).map_values(
            |it: MadaraListItemView| madara_list_entry(self.base_url@, it),
        );
        let mut r: Vec<SearchResultDto> = Vec::new();
        let mut i: usize = 0;
        while i < items.len()
            invariant
                i <= items.len(),
                mapped == list_items_view(items@).map_values(
                    |it: MadaraListItemView| madara_list_entry(self.base_url@, it),
                ),
                r.deep_view() == filter_some(mapped.take(i as int)),
            decreases items.len() - i,
        {
            let e = self.list_entry(&items[i]);
            proof {
                lemma_filter_some_step(mapped, i as int);
                assert(mapped[i as int] == e.deep_view());
            }
            match e {
                Some(x) => {
                    let ghost before = r.deep_view();
                    r.push(x);
                    assert(r.deep_view() =~= before.push(x.deep_view()));
                },
                None => {},
            }
            i += 1;
        }
        assert(mapped.take(items.len() as int) =~= mapped);
        r
    }

    /// Reads the novel list of a search or listing page (see
    /// [`madara_list_items`]). Empty when one of the list selectors is invalid.
    pub fn parse_novel_list(&self, page_html: &str) -> (r: Vec<SearchResultDto>)
        ensures
            ({
                let ok = selector_parse_error(self.list_item_selector@) is None
                    && selector_parse_error(self.list_title_selector@) is None
                    && selector_parse_error(self.list_cover_selector@) is None;
                &&& !ok ==> r@.len() == 0
                &&& ok ==> r.deep_view() == madara_list(
                    self.base_url@,
                    madara_list_items(
                        root(page_html@, false),
                        self.list_item_selector@,
                        self.list_title_selector@,
                        self.list_cover_selector@,
                    ),
                )
            }),
    {
        let item_sel = match compile_selector(self.list_item_selector.as_str()) {
            Ok(s) => s,
            Err(_) => {
                return Vec::new();
            },
        };
        let title_sel = match compile_selector(self.list_title_selector.as_str()) {
            Ok(s) => s,
            Err(_) => {
                return Vec::new();
            },
        };
        let cover_sel = match compile_selector(self.list_cover_selector.as_str()) {
            Ok(s) => s,
            Err(_) => {
                return Vec::new();
            },
        };
        let doc = parse_document(page_html);
        let found = select_all(&doc, &item_sel);
        let ghost page = root(page_html@, false);
        let ghost want = madara_list_items(page, item_sel.text(), title_sel.text(), cover_sel.text());
        let mut items: Vec<MadaraListItem> = Vec::new();
        let mut i: usize = 0;
        while i < found.len()
            invariant
                i <= found@.len(),
                found@.len() == want.len(),
                want == madara_list_items(page, item_sel.text(), title_sel.text(), cover_sel.text()),
                forall|k: int| 0 <= k < found@.len() ==> (#[trigger] found@[k]).node() == child(page, item_sel.text(), k),
                items@.len() == i,
                forall|k: int| 0 <= k < i ==> (#[trigger] items@[k])@ == want[k],
            decreases found@.len() - i,
        {
            let link_names: &[&str] = &["href"];
            let cover_names: &[&str] = &["data-src", "src", "data-lazy-src", "data-lazy-srcset"];
            let link = first_in(&found[i], &title_sel, link_names);
            let cover = first_in(&found[i], &cover_sel, cover_names);
            proof {
                assert(strs(link_names@) =~= seq!["href"@]);
                assert(strs(cover_names@) =~= list_cover_attrs());
            }
            items.push(MadaraListItem { link, cover });
            i += 1;
        }
        assert(list_items_view(items@) =~= want);
        self.collect_list(&items)
    }

    /// URL of a search results page.
    pub fn search_url(&self, query: &str, page: i32) -> (r: String)
        ensures
            r@ == madara_search_url(self.base_url@, query@, page),
    {
        let base = chars_of(self.base_url.as_str());
        let mut u = trim_end_char_exec(&base, '/');
        push_all(&mut u, &lit("/page/"));
        push_all(&mut u, &dec_exec(page as i64));
        push_all(&mut u, &lit("/?s="));
        proof {
            reveal_strlit(" ");
        }
        let q = replace_exec(&chars_of(query), &lit(" "), &lit("+"));
        push_all(&mut u, &q);
        push_all(&mut u, &lit("&post_type=wp-manga"));
        string_of(&u)
    }

    /// Request for a search results page.
    pub fn search(&self, query: &str, page: i32) -> (r: Request)
        ensures
            r@ == get_spec(madara_search_url(self.base_url@, query@, page)),
    {
        let u = chars_of(self.search_url(query, page).as_str());
        get_request(&u)
    }

    /// URL of a listing page.
    pub fn listing_url(&self, listing_id: &str, page: i32) -> (r: String)
        ensures
            r@ == madara_listing_url(self.base_url@, listing_id@, page),
    {
        let id = chars_of(listing_id);
        let orderby = if str_eq("latest", &id) {
            lit("latest")
        } else if str_eq("new", &id) {
            lit("new-manga")
        } else {
            lit("views")
        };
        let base = chars_of(self.base_url.as_str());
        let mut u = trim_end_char_exec(&base, '/');
        push_all(&mut u, &lit("/page/"));
        push_all(&mut u, &dec_exec(page as i64));
        push_all(&mut u, &lit("/?s=&post_type=wp-manga&m_orderby="));
        push_all(&mut u, &orderby);
        string_of(&u)
    }

    /// Request for a listing page.
    pub fn get_listing_novels(&self, listing_id: &str, page: i32) -> (r: Request)
        ensures
            r@ == get_spec(madara_listing_url(self.base_url@, listing_id@, page)),
    {
        let u = chars_of(self.listing_url(listing_id, page).as_str());
        get_request(&u)
    }

    /// The listings that this site offers.
    pub fn get_listings(&self) -> (r: Vec<ListingDto>)
        ensures
            r.deep_view() == self.listings.deep_view(),
    {
        clone_listings(&self.listings)
    }

    /// Request for a chapter page: a GET of the chapter URL, with the chapter
    /// URL as `Referer`.
    pub fn chapter_request(&self, chapter_url: &str) -> (r: Request)
        ensures
            r@ == (RequestView {
                headers: seq![("Referer"@, chapter_url@)],
                ..get_spec(chapter_url@)
            }),
    {
        let u = chars_of(chapter_url);
        let r = get_request(&u);
        let r = with_header(r, "Referer", &u);
        assert(r@.headers =~= seq![("Referer"@, chapter_url@)]);
        r
    }

    /// Chapter text of a chapter page (see [`first_clean`]): the first element
    /// matching the content selector, with script, style, ins, iframe, button
    /// and noscript blocks removed, trimmed. An invalid content selector is an
    /// error.
    pub fn get_chapter_content(&self, page_html: &str) -> (r: Result<Option<String>, String>)
        ensures
            match r {
                Err(e) => selector_parse_error(self.chapter_content_selector@) == Some(e@),
                Ok(o) => selector_parse_error(self.chapter_content_selector@) is None
                    && os(o) == first_clean(page_html@, self.chapter_content_selector@, engine_tags()),
            },
    {
        let tags = engine_tag_list();
        select_clean(page_html, self.chapter_content_selector.as_str(), &tags)
    }
}

/// Every result of a list page has a nonempty, trimmed title and no author,
/// and its URL and cover are absolute links when the base starts with
/// `"http"`.
pub proof fn law_madara_list_results(base: Seq<char>, items: Seq<MadaraListItemView>)
    requires
        starts_with(base, "http"@),
    ensures
        forall|k: int|
            0 <= k < madara_list(base, items).len() ==> {
                let r = #[trigger] madara_list(base, items)[k];
                &&& r.title.len() > 0 && r.title == crate::text::trim(r.title)
                &&& r.author is None
                &&& starts_with(r.url, "http"@)
                &&& r.cover_url matches Some(c) ==> starts_with(c, "http"@)
            },
{
    let p = |r: SearchResultView|
        r.title.len() > 0 && r.title == crate::text::trim(r.title) && r.author is None && starts_with(r.url, "http"@) && (
        r.cover_url matches Some(c) ==> starts_with(c, "http"@));
    let m = items.map_values(|it: MadaraListItemView| madara_list_entry(base, it));
    assert forall|k: int| 0 <= k < m.len() implies (#[trigger] m[k] matches Some(x) ==> p(x)) by {
        let it = items[k];
        match it.link {
            Some(l) => {
                crate::text::lemma_trim_idempotent(crate::snap::stext(l));
                match sattr(l, "href"@) {
                    Some(h) => crate::urls::lemma_abs_scheme_join_http(base, h),
                    None => {},
                }
            },
            None => {},
        }
        match it.cover {
            Some(img) => match first_attr(img, list_cover_attrs()) {
                Some(s) => crate::urls::lemma_abs_scheme_join_http(base, s),
                None => {},
            },
            None => {},
        }
    }
    crate::text::lemma_filter_some_all(m, p);
}

/// The listing URL asks for the order the listing names: the "latest"
/// listing is ordered by latest updates, the "new" listing by newest
/// novels, and every other listing (such as "popular") by views; so the
/// "latest" and "popular" listings never ask for the same page.
pub proof fn law_madara_listing_order(base: Seq<char>, listing_id: Seq<char>, page: i32)
    ensures
        listing_id == "latest"@ ==> crate::text::ends_with(madara_listing_url(base, listing_id, page), "m_orderby=latest"@),
        listing_id == "new"@ ==> crate::text::ends_with(madara_listing_url(base, listing_id, page), "m_orderby=new-manga"@),
        listing_id != "latest"@ && listing_id != "new"@ ==> crate::text::ends_with(
            madara_listing_url(base, listing_id, page),
            "m_orderby=views"@,
        ),
        madara_listing_url(base, "latest"@, page) != madara_listing_url(base, "popular"@, page),
{
    reveal_strlit("latest");
    reveal_strlit("new");
    reveal_strlit("popular");
    reveal_strlit("new-manga");
    reveal_strlit("views");
    reveal_strlit("m_orderby=latest");
    reveal_strlit("m_orderby=new-manga");
    reveal_strlit("m_orderby=views");
    reveal_strlit("/?s=&post_type=wp-manga&m_orderby=");
    reveal_strlit("m_orderby=");
    assert("popular"@.len() == 7 && "latest"@.len() == 6 && "new"@.len() == 3);
    assert("popular"@ != "latest"@ && "popular"@ != "new"@);
    let head = trim_end_char(base, '/') + "/page/"@ + dec(page as int) + "/?s=&post_type=wp-manga&m_orderby="@;
    let l = madara_listing_url(base, "latest"@, page);
    let v = madara_listing_url(base, "popular"@, page);
    assert(l == head + "latest"@);
    assert(v == head + "views"@);
    assert(l.len() == head.len() + 6);
    assert(v.len() == head.len() + 5);
    let u = madara_listing_url(base, listing_id, page);
    let o = madara_orderby(listing_id);
    assert(u == head + o);
    let tail = "/?s=&post_type=wp-manga&m_orderby="@;
    assert(head.subrange(head.len() - 10, head.len() as int) =~= tail.subrange(tail.len() - 10, tail.len() as int));
    let w = "m_orderby="@ + o;
    if listing_id == "latest"@ {
        assert(w =~= "m_orderby=latest"@);
    } else if listing_id == "new"@ {
        assert(w =~= "m_orderby=new-manga"@);
    } else {
        assert(w =~= "m_orderby=views"@);
    }
    assert(u.subrange(u.len() - w.len(), u.len() as int) =~= w) by {
        assert forall|i: int| 0 <= i < w.len() implies u.subrange(u.len() - w.len(), u.len() as int)[i] == w[i] by {
            if i < 10 {
                assert(u[head.len() - 10 + i] == head[head.len() - 10 + i]);
                assert(head[head.len() - 10 + i] == tail[tail.len() - 10 + i]);
            } else {
                assert(w[i] == o[i - 10]);
                assert(u[head.len() + i - 10] == o[i - 10]);
            }
        }
    }
}

} // verus!
