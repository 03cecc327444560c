//! The AsiaNovel source: story cards, and chapter lists from the page's
//! structured data (`application/ld+json`).
use vstd::prelude::*;
use crate::content::{basic_tag_list, basic_tags, select_clean};
use crate::dom::{child, compile_all, count_in, first_selector_error, page_node, parse_document, root, select_all, selector_parse_error, NodeRef};
use crate::fetch::{get_request, get_spec, lit, with_header, Request, RequestView};
use crate::json::{get_array, get_i64, get_i64_exec, get_str, get_str_exec, JsonValue};
use crate::models::{ChapterDto, ChapterView, ListingDto, ListingView, NovelDto, NovelView, SearchResultDto, SearchResultView};
use crate::readnovelfull::chapter_n;
use crate::snap::{all_of, first_attr, first_attr_exec, first_in, first_of, opt_all_of, osnap, sattr, sel_ok, select_first, select_snaps, snap_views, stext, strs, ttext, Snap, SnapView};
use crate::sort::{stable_sort, stable_sorted, SortKey};
use crate::text::{sviews, chars_of, concat2, dec, dec_exec, find, find_exec, opt_string, or_empty, push_all, replace, replace_exec, slice_exec, starts_with, starts_with_exec, str_eq, string_of, trim, trim_end_char, trim_end_char_exec, trim_exec};
use crate::urls::{abs_http_concat, abs_http_concat_exec};

verus! {

/// The empty source struct; its methods take the site's base URL.
#[derive(Debug, Clone, Copy)]
pub struct AsiaNovelSource;

/// The browser identity that the site is asked with.
pub open spec fn an_user_agent() -> Seq<char> {
    "Mozilla/5.0 (iPhone; CPU iPhone OS 13_2_3 like Mac OS X) AppleWebKit/605.1.15 (KHTML, like Gecko) Version/13.0.3 Mobile/15E148 Safari/04.1"@
}

/// A GET request with the site's `User-Agent`.
pub open spec fn an_get(url: Seq<char>) -> RequestView {
    RequestView { headers: seq![("User-Agent"@, an_user_agent())], ..get_spec(url) }
}

// ---------------------------------------------------------------------------
// Story cards
// ---------------------------------------------------------------------------
/// One story card: its first story link (with `href`), first image (with
/// `src`, `data-src`) and first author link.
pub struct AnCard {
    pub link: Option<Snap>,
    pub img: Option<Snap>,
    pub author: Option<Snap>,
}

pub struct AnCardView {
    pub link: Option<SnapView>,
    pub img: Option<SnapView>,
    pub author: Option<SnapView>,
}

impl View for AnCard {
    type V = AnCardView;

    open spec fn view(&self) -> AnCardView {
        AnCardView { link: osnap(self.link), img: osnap(self.img), author: osnap(self.author) }
    }
}

pub open spec fn an_cards_view(v: Seq<AnCard>) -> Seq<AnCardView> {
    v.map_values(|c: AnCard| c@)
}

pub open spec fn result_urls(v: Seq<SearchResultView>) -> Seq<Seq<char>> {
    v.map_values(|r: SearchResultView| r.url)
}

/// One card: skipped without a story link or `href`, with an empty title,
/// or when a kept result already has its URL.
pub open spec fn an_card_step(base: Seq<char>, acc: Seq<SearchResultView>, c: AnCardView) -> Seq<SearchResultView> {
    match c.link {
        None => acc,
        Some(l) => match sattr(l, "href"@) {
            None => acc,
            Some(href) => {
                let url = abs_http_concat(base, href);
                let title = ttext(l);
                if title.len() == 0 || url.len() == 0 || result_urls(acc).contains(url) {
                    acc
                } else {
                    acc.push(
                        SearchResultView {
                            url,
                            title,
                            cover_url: match c.img {
                                Some(img) => match first_attr(img, seq!["src"@, "data-src"@]) {
                                    Some(s) => Some(abs_http_concat(base, s)),
                                    None => None,
                                },
                                None => None,
                            },
                            author: match c.author {
                                Some(a) => if ttext(a).len() > 0 {
                                    Some(ttext(a))
                                } else {
                                    None
                                },
                                None => None,
                            },
                        },
                    )
                }
            },
        },
    }
}

pub open spec fn an_cards(base: Seq<char>, cards: Seq<AnCardView>) -> Seq<SearchResultView>
    decreases cards.len(),
{
    if cards.len() == 0 {
        Seq::empty()
    } else {
        an_card_step(base, an_cards(base, cards.drop_last()), cards.last())
    }
}

/// The story cards of a list page under `n`: for each card, its first
/// story link (with its `href`), image (with `src` and `data-src`) and author
/// link.
pub open spec fn an_cards_of(n: NodeRef) -> Seq<AnCardView> {
    let sels = an_card_selectors();
    Seq::new(
        count_in(n, sels[0]),
        |i: int|
            AnCardView {
                link: select_first(child(n, sels[0], i), sels[1], seq!["href"@]),
                img: select_first(child(n, sels[0], i), sels[3], seq!["src"@, "data-src"@]),
                author: select_first(child(n, sels[0], i), sels[2], Seq::empty()),
            },
    )
}

/// Selectors of a card list: cards, story links, authors, images.
pub open spec fn an_card_selectors() -> Seq<Seq<char>> {
    seq![
        "ul#search-result-list li.card, ul#list-of-stories li.card, li.card._story, li.card"@,
        "h3.card__title a, a[href*='/story/']"@,
        ".card__by-author a, .card__footer-author a, a.author"@,
        ".card__image img, img.wp-post-image, img"@,
    ]
}

/// The results of a card list have pairwise distinct URLs.
pub proof fn law_an_cards_distinct_urls(base: Seq<char>, cards: Seq<AnCardView>)
    ensures
        forall|i: int, j: int|
            0 <= i < j < an_cards(base, cards).len() ==> an_cards(base, cards)[i].url != an_cards(
                base,
                cards,
            )[j].url,
    decreases cards.len(),
{
    if cards.len() > 0 {
        let prev = an_cards(base, cards.drop_last());
        law_an_cards_distinct_urls(base, cards.drop_last());
        let cur = an_cards(base, cards);
        if cur.len() > prev.len() {
            assert forall|i: int, j: int| 0 <= i < j < cur.len() implies cur[i].url != cur[j].url by {
                if j == cur.len() - 1 {
                    assert(cur[i] == prev[i]);
                    assert(result_urls(prev)[i] == prev[i].url);
                } else {
                    assert(cur[i] == prev[i]);
                    assert(cur[j] == prev[j]);
                }
            }
        }
    }
}

fn contains_url(v: &Vec<SearchResultDto>, url: &Vec<char>) -> (b: bool)
    ensures
        b == result_urls(v.deep_view()).contains(url@),
{
    let mut i: usize = 0;
    while i < v.len()
        invariant
            i <= v.len(),
            forall|j: int| 0 <= j < i ==> v@[j].url@ != url@,
        decreases v.len() - i,
    {
        if str_eq(v[i].url.as_str(), url) {
            assert(result_urls(v.deep_view())[i as int] == url@);
            return true;
        }
        i += 1;
    }
    assert forall|j: int| 0 <= j < result_urls(v.deep_view()).len() implies result_urls(
        v.deep_view(),
    )[j] != url@ by {
        assert(result_urls(v.deep_view())[j] == v@[j].url@);
    }
    false
}

impl AsiaNovelSource {
    /// The `User-Agent` header that every request of this source carries.
    pub fn default_headers() -> (r: Vec<(String, String)>)
        ensures
            r@.len() == 1,
            r@[0].0@ == "User-Agent"@,
            r@[0].1@ == an_user_agent(),
    {
        vec![
            (
                String::from_str("User-Agent"),
                String::from_str(
                    "Mozilla/5.0 (iPhone; CPU iPhone OS 13_2_3 like Mac OS X) AppleWebKit/605.1.15 (KHTML, like Gecko) Version/13.0.3 Mobile/15E148 Safari/04.1",
                ),
            ),
        ]
    }

    fn get_with_agent(url: &Vec<char>) -> (r: Request)
        ensures
            r@ == an_get(url@),
    {
        let r = get_request(url);
        let r = with_header(
            r,
            "User-Agent",
            &lit(
                "Mozilla/5.0 (iPhone; CPU iPhone OS 13_2_3 like Mac OS X) AppleWebKit/605.1.15 (KHTML, like Gecko) Version/13.0.3 Mobile/15E148 Safari/04.1",
            ),
        );
        assert(r@.headers =~= an_get(url@).headers);
        r
    }

    /// The results of a card list (see [`an_cards`]).
    pub fn collect_cards(base_url: &str, cards: &Vec<AnCard>) -> (r: Vec<SearchResultDto>)
        ensures
            r.deep_view() == an_cards(base_url@, an_cards_view(cards@)),
    {
        let base = chars_of(base_url);
        let ghost views = an_cards_view(cards@);
        let mut out: Vec<SearchResultDto> = Vec::new();
        let mut i: usize = 0;
        assert(views.take(0) =~= Seq::<AnCardView>::empty());
        while i < cards.len()
            invariant
                i <= cards.len(),
                base@ == base_url@,
                views == an_cards_view(cards@),
                out.deep_view() == an_cards(base@, views.take(i as int)),
            decreases cards.len() - i,
        {
            proof {
                let t = views.take(i + 1);
                assert(t.drop_last() =~= views.take(i as int));
                assert(t.last() == cards@[i as int]@);
            }
            let c = &cards[i];
            match &c.link {
                None => {},
                Some(l) => match l.get_attr("href") {
                    None => {},
                    Some(href) => {
                        let url = abs_http_concat_exec(&base, &href);
                        let title = l.trimmed();
                        if !(title.len() == 0 || url.len() == 0 || contains_url(&out, &url)) {
                            let cover_url = match &c.img {
                                Some(img) => {
                                    let names = ["src", "data-src"];
                                    assert(strs(names@) =~= seq!["src"@, "data-src"@]);
                                    match first_attr_exec(img, &names) {
                                        Some(s) => Some(abs_http_concat_exec(&base, &s)),
                                        None => None,
                                    }
                                },
                                None => None,
                            };
                            let author = match &c.author {
                                Some(a) => {
                                    let t = a.trimmed();
                                    if t.len() > 0 {
                                        Some(t)
                                    } else {
                                        None
                                    }
                                },
                                None => None,
                            };
                            let e = SearchResultDto {
                                url: string_of(&url),
                                title: string_of(&title),
                                cover_url: opt_string(cover_url),
                                author: opt_string(author),
                            };
                            let ghost before = out.deep_view();
                            out.push(e);
                            assert(out.deep_view() =~= before.push(e.deep_view()));
                        }
                    },
                },
            }
            i += 1;
        }
        assert(views.take(cards.len() as int) =~= views);
        out
    }

    /// Reads a page of story cards. An invalid selector is an error (the
    /// first such one).
    pub fn parse_cards(page_html: &str, base_url: &str) -> (r: Result<Vec<SearchResultDto>, String>)
        ensures
            match r {
                Err(e) => first_selector_error(an_card_selectors()) == Some(e@),
                Ok(v) => first_selector_error(an_card_selectors()) is None && v.deep_view() == an_cards(
                    base_url@,
                    an_cards_of(root(page_html@, false)),
                ),
            },
    {
        let texts = [
            "ul#search-result-list li.card, ul#list-of-stories li.card, li.card._story, li.card",
            "h3.card__title a, a[href*='/story/']",
            ".card__by-author a, .card__footer-author a, a.author",
            ".card__image img, img.wp-post-image, img",
        ];
        assert(strs(texts@) =~= an_card_selectors());
        let sels = match compile_all(&texts) {
            Ok(v) => v,
            Err(e) => return Err(e),
        };
        let page = parse_document(page_html);
        let doc = &page;
        let ghost pn = page_node(doc);
        let ghost want = an_cards_of(pn);
        let none: &[&str] = &[];
        let href: &[&str] = &["href"];
        let img: &[&str] = &["src", "data-src"];
        proof {
            assert(strs(none@) =~= Seq::<Seq<char>>::empty());
            assert(strs(href@) =~= seq!["href"@]);
            assert(strs(img@) =~= seq!["src"@, "data-src"@]);
            assert(sels@[0].text() == an_card_selectors()[0]);
        }
        let items = select_all(doc, &sels[0]);
        let mut cards: Vec<AnCard> = Vec::new();
        let mut i: usize = 0;
        while i < items.len()
            invariant
                i <= items@.len(),
                sels@.len() == 4,
                items@.len() == want.len(),
                want == an_cards_of(pn),
                forall|k: int| 0 <= k < 4 ==> (#[trigger] sels@[k]).text() == an_card_selectors()[k],
                strs(none@) == Seq::<Seq<char>>::empty(),
                strs(href@) == seq!["href"@],
                strs(img@) == seq!["src"@, "data-src"@],
                forall|k: int| 0 <= k < items@.len() ==> (#[trigger] items@[k]).node() == child(pn, an_card_selectors()[0], k),
                cards@.len() == i,
                forall|k: int| 0 <= k < i ==> (#[trigger] cards@[k])@ == want[k],
            decreases items@.len() - i,
        {
            proof {
                assert(sels@[1].text() == an_card_selectors()[1]);
                assert(sels@[2].text() == an_card_selectors()[2]);
                assert(sels@[3].text() == an_card_selectors()[3]);
            }
            cards.push(
                AnCard {
                    link: first_in(&items[i], &sels[1], href),
                    img: first_in(&items[i], &sels[3], img),
                    author: first_in(&items[i], &sels[2], none),
                },
            );
            i += 1;
        }
        assert(cards@.map_values(|c: AnCard| c@) =~= want);
        Ok(Self::collect_cards(base_url, &cards))
    }
}

// ---------------------------------------------------------------------------
// Search and listings
// ---------------------------------------------------------------------------
pub open spec fn an_search_url(base: Seq<char>, query: Seq<char>) -> Seq<char> {
    base + "/?s="@ + replace(query, " "@, "+"@) + "&post_type=fcn_story&sentence=0&orderby=modified&order=desc"@
}

/// The `orderby` and `order` of a listing id.
pub open spec fn an_order(listing_id: Seq<char>) -> (Seq<char>, Seq<char>) {
    if listing_id == "published"@ || listing_id == "new"@ {
        ("date"@, "desc"@)
    } else if listing_id == "popular"@ || listing_id == "comments"@ {
        ("comment_count"@, "desc"@)
    } else if listing_id == "words"@ {
        ("words"@, "desc"@)
    } else if listing_id == "title"@ || listing_id == "az"@ {
        ("title"@, "asc"@)
    } else {
        ("modified"@, "desc"@)
    }
}

/// A listing page: `genre_{slug}` ids list a genre, other ids all stories
/// in some order; page 1 (or less) has no page segment.
pub open spec fn an_listing_url(base: Seq<char>, listing_id: Seq<char>, page: i32) -> Seq<char> {
    let b = trim_end_char(base, '/');
    if starts_with(listing_id, "genre_"@) {
        let slug = listing_id.subrange(6, listing_id.len() as int);
        if page <= 1 {
            b + "/genre/"@ + slug + "/"@
        } else {
            b + "/genre/"@ + slug + "/page/"@ + dec(page as int) + "/"@
        }
    } else {
        let (orderby, order) = an_order(listing_id);
        if page <= 1 {
            b + "/stories/?orderby="@ + orderby + "&order="@ + order
        } else {
            b + "/stories/page/"@ + dec(page as int) + "/?orderby="@ + orderby + "&order="@ + order
        }
    }
}

pub open spec fn an_listings() -> Seq<ListingView> {
    seq![
        ListingView { id: "updated"@, name: "Latest Updates"@ },
        ListingView { id: "published"@, name: "New Stories"@ },
        ListingView { id: "popular"@, name: "Most Comments"@ },
        ListingView { id: "words"@, name: "Most Words"@ },
        ListingView { id: "title"@, name: "Alphabetical (A-Z)"@ },
    ]
}

impl AsiaNovelSource {
    /// The search request (see [`an_search_url`]).
    pub fn search(base_url: &str, query: &str) -> (r: Request)
        ensures
            r@ == an_get(an_search_url(base_url@, query@)),
    {
        proof {
            reveal_strlit(" ");
        }
        let mut u = chars_of(base_url);
        push_all(&mut u, &lit("/?s="));
        push_all(&mut u, &replace_exec(&chars_of(query), &lit(" "), &lit("+")));
        push_all(&mut u, &lit("&post_type=fcn_story&sentence=0&orderby=modified&order=desc"));
        Self::get_with_agent(&u)
    }

    /// The listings of the site.
    pub fn get_listings() -> (r: Vec<ListingDto>)
        ensures
            r.deep_view() == an_listings(),
    {
        let r = vec![
            crate::models::listing("updated", "Latest Updates"),
            crate::models::listing("published", "New Stories"),
            crate::models::listing("popular", "Most Comments"),
            crate::models::listing("words", "Most Words"),
            crate::models::listing("title", "Alphabetical (A-Z)"),
        ];
        assert(r.deep_view() =~= an_listings());
        r
    }

    /// The request for a listing page (see [`an_listing_url`]).
    pub fn get_listing_novels(base_url: &str, listing_id: &str, page: i32) -> (r: Request)
        ensures
            r@ == an_get(an_listing_url(base_url@, listing_id@, page)),
    {
        let id = chars_of(listing_id);
        let mut u = trim_end_char_exec(&chars_of(base_url), '/');
        if starts_with_exec(&id, &lit("genre_")) {
            proof {
                reveal_strlit("genre_");
            }
            let slug = slice_exec(&id, 6, id.len());
            push_all(&mut u, &lit("/genre/"));
            push_all(&mut u, &slug);
            if page <= 1 {
                push_all(&mut u, &lit("/"));
            } else {
                push_all(&mut u, &lit("/page/"));
                push_all(&mut u, &dec_exec(page as i64));
                push_all(&mut u, &lit("/"));
            }
        } else {
            let (orderby, order) = if str_eq("published", &id) || str_eq("new", &id) {
                (lit("date"), lit("desc"))
            } else if str_eq("popular", &id) || str_eq("comments", &id) {
                (lit("comment_count"), lit("desc"))
            } else if str_eq("words", &id) {
                (lit("words"), lit("desc"))
            } else if str_eq("title", &id) || str_eq("az", &id) {
                (lit("title"), lit("asc"))
            } else {
                (lit("modified"), lit("desc"))
            };
            if page <= 1 {
                push_all(&mut u, &lit("/stories/?orderby="));
            } else {
                push_all(&mut u, &lit("/stories/page/"));
                push_all(&mut u, &dec_exec(page as i64));
                push_all(&mut u, &lit("/?orderby="));
            }
            push_all(&mut u, &orderby);
            push_all(&mut u, &lit("&order="));
            push_all(&mut u, &order);
        }
        Self::get_with_agent(&u)
    }
}

// ---------------------------------------------------------------------------
// Novel page
// ---------------------------------------------------------------------------
/// What was read of a novel page: the meta tags (with `content`), the
/// headline author link, the texts of the structured-data scripts, and the
/// chapter links of the page (`None` when their selector does not parse).
pub struct AnDetailsRaw {
    pub og_title: Option<Snap>,
    pub author_meta: Option<Snap>,
    pub author_link: Option<Snap>,
    pub og_image: Option<Snap>,
    pub og_description: Option<Snap>,
    pub chapter_links: Option<Vec<Snap>>,
}

pub struct AnDetailsRawView {
    pub og_title: Option<SnapView>,
    pub author_meta: Option<SnapView>,
    pub author_link: Option<SnapView>,
    pub og_image: Option<SnapView>,
    pub og_description: Option<SnapView>,
    pub chapter_links: Option<Seq<SnapView>>,
}

impl View for AnDetailsRaw {
    type V = AnDetailsRawView;

    open spec fn view(&self) -> AnDetailsRawView {
        AnDetailsRawView {
            og_title: osnap(self.og_title),
            author_meta: osnap(self.author_meta),
            author_link: osnap(self.author_link),
            og_image: osnap(self.og_image),
            og_description: osnap(self.og_description),
            chapter_links: crate::madara_details::osnaps(self.chapter_links),
        }
    }
}

/// The `content` of a meta tag.
pub open spec fn meta_content(m: Option<SnapView>) -> Option<Seq<char>> {
    match m {
        Some(e) => sattr(e, "content"@),
        None => None,
    }
}

/// The part of `s` before the first `sep` (`s.split(sep).next()`).
pub open spec fn before_first(s: Seq<char>, sep: Seq<char>) -> Seq<char> {
    match find(s, sep) {
        Some(i) => s.subrange(0, i),
        None => s,
    }
}

/// The chapter of item `j` of a structured-data chapter list: skipped
/// without a URL; numbered by its `position` (else `j + 1`, truncated to
/// `i32`), titled by its `name` or `title` (else `"Chapter {n}"`).
pub open spec fn an_ld_chapter(j: int, c: JsonValue) -> Option<ChapterView> {
    let url = or_empty(get_str(c, "url"@));
    let pos: i32 = match get_i64(c, "position"@) {
        Some(p) => p as i32,
        None => (j + 1) as i32,
    };
    let name = match get_str(c, "name"@) {
        Some(n) => n,
        None => or_empty(get_str(c, "title"@)),
    };
    if url.len() == 0 {
        None
    } else {
        Some(
            ChapterView {
                url,
                title: if name.len() == 0 {
                    chapter_n(pos as int)
                } else {
                    name
                },
                index: pos,
                release_date: None,
                scanlation: None,
            },
        )
    }
}

/// An item of a `@graph` is the chapter list when it is an `ItemList` named
/// `Chapters`.
pub open spec fn an_item_chapters(item: JsonValue) -> Seq<ChapterView> {
    if get_str(item, "@type"@) == Some("ItemList"@) && get_str(item, "name"@) == Some("Chapters"@) {
        match get_array(item, "itemListElement"@) {
            Some(l) => crate::text::filter_some(l.map(|j: int, c: JsonValue| an_ld_chapter(j, c))),
            None => Seq::empty(),
        }
    } else {
        Seq::empty()
    }
}

pub open spec fn an_graph_chapters(items: Seq<JsonValue>) -> Seq<ChapterView>
    decreases items.len(),
{
    if items.len() == 0 {
        Seq::empty()
    } else {
        an_graph_chapters(items.drop_last()) + an_item_chapters(items.last())
    }
}

/// The chapters of a structured-data script (`None`: it is not JSON).
pub open spec fn an_script_chapters(s: Option<JsonValue>) -> Seq<ChapterView> {
    match s {
        Some(v) => match get_array(v, "@graph"@) {
            Some(g) => an_graph_chapters(g),
            None => Seq::empty(),
        },
        None => Seq::empty(),
    }
}

pub open spec fn an_ld_chapters(scripts: Seq<Option<JsonValue>>) -> Seq<ChapterView>
    decreases scripts.len(),
{
    if scripts.len() == 0 {
        Seq::empty()
    } else {
        an_ld_chapters(scripts.drop_last()) + an_script_chapters(scripts.last())
    }
}

/// The chapters of the page's chapter list, numbered from 1.
pub open spec fn an_link_chapters(base: Seq<char>, links: Option<Seq<SnapView>>) -> Seq<ChapterView> {
    match links {
        Some(ls) => ls.map(
            |i: int, a: SnapView|
                ChapterView {
                    url: abs_http_concat(base, or_empty(sattr(a, "href"@))),
                    title: ttext(a),
                    index: (i + 1) as i32,
                    release_date: None,
                    scanlation: None,
                },
        ),
        None => Seq::empty(),
    }
}

/// The chapters with each URL made absolute against the site's base.
pub open spec fn an_absolute(base: Seq<char>, cs: Seq<ChapterView>) -> Seq<ChapterView> {
    cs.map_values(
        |c: ChapterView|
            ChapterView {
                url: abs_http_concat(base, c.url),
                title: c.title,
                index: c.index,
                release_date: c.release_date,
                scanlation: c.scanlation,
            },
    )
}

/// The novel's chapters before sorting: those of the structured data (their
/// URLs made absolute), else those of the page's chapter list.
pub open spec fn an_chapters(base: Seq<char>, scripts: Seq<Option<JsonValue>>, links: Option<Seq<SnapView>>) -> Seq<ChapterView> {
    if an_ld_chapters(scripts).len() > 0 {
        an_absolute(base, an_ld_chapters(scripts))
    } else {
        an_link_chapters(base, links)
    }
}

/// What a read novel page gives, with the chapters still unsorted.
pub open spec fn an_novel(base: Seq<char>, novel_url: Seq<char>, raw: AnDetailsRawView, chapters: Seq<ChapterView>) -> NovelView {
    NovelView {
        url: novel_url,
        title: match meta_content(raw.og_title) {
            Some(t) => trim(before_first(t, " - Asianovel"@)),
            None => Seq::empty(),
        },
        author: match meta_content(raw.author_meta) {
            Some(a) if a.len() > 0 => Some(a),
            _ => match raw.author_link {
                Some(l) => Some(ttext(l)),
                None => None,
            },
        },
        cover_url: match meta_content(raw.og_image) {
            Some(c) => Some(abs_http_concat(base, c)),
            None => None,
        },
        description: meta_content(raw.og_description),
        status: None,
        genres: Seq::empty(),
        chapters,
    }
}

/// The text of each structured-data script of the page parsed from `src`.
pub open spec fn an_scripts(src: Seq<char>) -> Seq<Seq<char>> {
    select_snaps(root(src, false), an_detail_selectors()[5], Seq::empty()).map_values(|s: SnapView| stext(s))
}

/// What is read of the novel page parsed from `src`.
pub open spec fn an_details_raw(src: Seq<char>) -> AnDetailsRawView {
    let pn = root(src, false);
    let sels = an_detail_selectors();
    let links = "ol.chapter-group__list li.chapter-group__list-item a.chapter-group__list-item-link"@;
    AnDetailsRawView {
        og_title: select_first(pn, sels[0], seq!["content"@]),
        author_meta: select_first(pn, sels[1], seq!["content"@]),
        author_link: select_first(pn, sels[2], Seq::empty()),
        og_image: select_first(pn, sels[3], seq!["content"@]),
        og_description: select_first(pn, sels[4], seq!["content"@]),
        chapter_links: if sel_ok(links) {
            Some(select_snaps(pn, links, seq!["href"@]))
        } else {
            None
        },
    }
}

/// Selectors of a novel page that must parse, in order.
pub open spec fn an_detail_selectors() -> Seq<Seq<char>> {
    seq![
        "meta[property='og:title']"@,
        "meta[property='article:author']"@,
        "header.story__headline em.story__author a"@,
        "meta[property='og:image']"@,
        "meta[property='og:description']"@,
        "script[type='application/ld+json']"@,
    ]
}

fn an_ld_chapter_exec(j: usize, c: &JsonValue) -> (r: Option<ChapterDto>)
    ensures
        r.deep_view() == an_ld_chapter(j as int, *c),
{
    let url = crate::text::or_empty_exec(get_str_exec(c, "url"));
    let pos: i32 = match get_i64_exec(c, "position") {
        Some(p) => #[verifier::truncate] (p as i32),
        None => #[verifier::truncate] ((j as u128 + 1) as i32),
    };
    let name = match get_str_exec(c, "name") {
        Some(n) => n,
        None => crate::text::or_empty_exec(get_str_exec(c, "title")),
    };
    if url.len() == 0 {
        None
    } else {
        let title = if name.len() == 0 {
            concat2(&lit("Chapter "), &dec_exec(pos as i64))
        } else {
            name
        };
        Some(
            ChapterDto {
                url: string_of(&url),
                title: string_of(&title),
                index: pos,
                release_date: None,
                scanlation: None,
            },
        )
    }
}

fn clone_opt(o: &Option<String>) -> (r: Option<String>)
    ensures
        r.deep_view() == o.deep_view(),
{
    match o {
        Some(s) => Some(s.clone()),
        None => None,
    }
}

fn push_chapters(out: &mut Vec<ChapterDto>, more: Vec<ChapterDto>)
    ensures
        final(out).deep_view() == old(out).deep_view() + more.deep_view(),
{
    let ghost start = out@;
    let mut more = more;
    let ghost m = more@;
    out.append(&mut more);
    assert(out@ == start + m);
    assert(out.deep_view() =~= old(out).deep_view() + m.map_values(|c: ChapterDto| c.deep_view()));
}

fn an_item_chapters_exec(item: &JsonValue) -> (r: Vec<ChapterDto>)
    ensures
        r.deep_view() == an_item_chapters(*item),
{
    let mut r: Vec<ChapterDto> = Vec::new();
    let is_list = match (get_str_exec(item, "@type"), get_str_exec(item, "name")) {
        (Some(t), Some(n)) => str_eq("ItemList", &t) && str_eq("Chapters", &n),
        _ => false,
    };
    if !is_list {
        assert(r.deep_view() =~= an_item_chapters(*item));
        return r;
    }
    match item.get("itemListElement") {
        Some(x) => match x.as_array() {
            Some(l) => {
                let ghost mapped = l@.map(|j: int, c: JsonValue| an_ld_chapter(j, c));
                let mut j: usize = 0;
                while j < l.len()
                    invariant
                        j <= l.len(),
                        mapped == l@.map(|j: int, c: JsonValue| an_ld_chapter(j, c)),
                        r.deep_view() == crate::text::filter_some(mapped.take(j as int)),
                    decreases l.len() - j,
                {
                    proof {
                        crate::text::lemma_filter_some_step(mapped, j as int);
                    }
                    let c = an_ld_chapter_exec(j, &l[j]);
                    match c {
                        Some(ch) => {
                            let ghost before = r.deep_view();
                            r.push(ch);
                            assert(r.deep_view() =~= before.push(ch.deep_view()));
                        },
                        None => {},
                    }
                    j += 1;
                }
                assert(mapped.take(l.len() as int) =~= mapped);
            },
            None => {
                assert(r.deep_view() =~= an_item_chapters(*item));
            },
        },
        None => {
            assert(r.deep_view() =~= an_item_chapters(*item));
        },
    }
    r
}

fn an_script_chapters_exec(s: &Option<JsonValue>) -> (r: Vec<ChapterDto>)
    ensures
        r.deep_view() == an_script_chapters(*s),
{
    let mut r: Vec<ChapterDto> = Vec::new();
    match s {
        Some(v) => match v.get("@graph") {
            Some(g) => match g.as_array() {
                Some(items) => {
                    let mut i: usize = 0;
                    assert(items@.take(0) =~= Seq::<JsonValue>::empty());
                    while i < items.len()
                        invariant
                            i <= items.len(),
                            jarray_of(*s) == Some(items@),
                            r.deep_view() == an_graph_chapters(items@.take(i as int)),
                        decreases items.len() - i,
                    {
                        proof {
                            let t = items@.take(i + 1);
                            assert(t.drop_last() =~= items@.take(i as int));
                            assert(t.last() == items@[i as int]);
                        }
                        let more = an_item_chapters_exec(&items[i]);
                        push_chapters(&mut r, more);
                        i += 1;
                    }
                    assert(items@.take(items.len() as int) =~= items@);
                },
                None => {
                    assert(r.deep_view() =~= Seq::<ChapterView>::empty());
                },
            },
            None => {
                assert(r.deep_view() =~= Seq::<ChapterView>::empty());
            },
        },
        None => {
            assert(r.deep_view() =~= Seq::<ChapterView>::empty());
        },
    }
    r
}

/// The `@graph` array of a script's value, if any.
pub open spec fn jarray_of(s: Option<JsonValue>) -> Option<Seq<JsonValue>> {
    match s {
        Some(v) => get_array(v, "@graph"@),
        None => None,
    }
}

impl AsiaNovelSource {
    /// The novel's chapters before sorting (see [`an_chapters`]), from the
    /// parsed structured-data scripts (`None` for one that is not JSON).
    pub fn collect_chapters(base_url: &str, scripts: &Vec<Option<JsonValue>>, links: &Option<Vec<Snap>>) -> (r: Vec<ChapterDto>)
        ensures
            r.deep_view() == an_chapters(
                base_url@,
                scripts@,
                crate::madara_details::osnaps(*links),
            ),
    {
        let mut r: Vec<ChapterDto> = Vec::new();
        let mut i: usize = 0;
        assert(scripts@.take(0) =~= Seq::<Option<JsonValue>>::empty());
        while i < scripts.len()
            invariant
                i <= scripts.len(),
                r.deep_view() == an_ld_chapters(scripts@.take(i as int)),
            decreases scripts.len() - i,
        {
            proof {
                let t = scripts@.take(i + 1);
                assert(t.drop_last() =~= scripts@.take(i as int));
                assert(t.last() == scripts@[i as int]);
            }
            let more = an_script_chapters_exec(&scripts[i]);
            push_chapters(&mut r, more);
            i += 1;
        }
        assert(scripts@.take(scripts.len() as int) =~= scripts@);
        let base = chars_of(base_url);
        if r.len() > 0 {
            let mut abs: Vec<ChapterDto> = Vec::new();
            let mut k: usize = 0;
            while k < r.len()
                invariant
                    k <= r.len(),
                    base@ == base_url@,
                    abs@.len() == k,
                    forall|m: int| 0 <= m < k ==> #[trigger] abs@[m].deep_view() == an_absolute(base@, r.deep_view())[m],
                decreases r.len() - k,
            {
                let c = &r[k];
                abs.push(
                    ChapterDto {
                        url: string_of(&abs_http_concat_exec(&base, &chars_of(c.url.as_str()))),
                        title: c.title.clone(),
                        index: c.index,
                        release_date: clone_opt(&c.release_date),
                        scanlation: clone_opt(&c.scanlation),
                    },
                );
                k += 1;
            }
            assert(abs.deep_view() =~= an_chapters(base_url@, scripts@, crate::madara_details::osnaps(*links)));
            return abs;
        }
        let mut out: Vec<ChapterDto> = Vec::new();
        match links {
            Some(ls) => {
                let mut j: usize = 0;
                while j < ls.len()
                    invariant
                        j <= ls.len(),
                        base@ == base_url@,
                        out@.len() == j,
                        forall|k: int| 0 <= k < j ==> #[trigger] out@[k].deep_view()
                            == an_link_chapters(base@, Some(snap_views(ls@)))[k],
                    decreases ls.len() - j,
                {
                    let a = &ls[j];
                    let href = match a.get_attr("href") {
                        Some(h) => h,
                        None => Vec::new(),
                    };
                    out.push(
                        ChapterDto {
                            url: string_of(&abs_http_concat_exec(&base, &href)),
                            title: string_of(&a.trimmed()),
                            index: #[verifier::truncate] ((j + 1) as i32),
                            release_date: None,
                            scanlation: None,
                        },
                    );
                    j += 1;
                }
            },
            None => {},
        }
        assert(out.deep_view() =~= an_chapters(base_url@, scripts@, crate::madara_details::osnaps(*links)));
        out
    }

    /// The novel: what the page gives (see [`an_novel`]) with its chapters
    /// sorted stably by index.
    /// The novel from the page (see [`Self::assemble_details`]), each
    /// structured-data script text read as JSON (`None` when it is not JSON).
    pub fn assemble_details_from_scripts(
        base_url: &str,
        novel_url: &str,
        raw: &AnDetailsRaw,
        scripts: &Vec<String>,
    ) -> (n: NovelDto)
        ensures
            ({
                let v = n.deep_view();
                let js = scripts@.map_values(|s: String| crate::json::json_of(s@));
                &&& v == an_novel(base_url@, novel_url@, raw@, v.chapters)
                &&& stable_sorted(SortKey::Index, an_chapters(base_url@, js, raw@.chapter_links), v.chapters)
                &&& n.extra@ == Map::<String, String>::empty()
            }),
    {
        let mut parsed: Vec<Option<JsonValue>> = Vec::new();
        let mut i: usize = 0;
        while i < scripts.len()
            invariant
                i <= scripts.len(),
                parsed@.len() == i,
                forall|k: int| 0 <= k < i ==> #[trigger] parsed@[k] == crate::json::json_of(scripts@[k]@),
            decreases scripts.len() - i,
        {
            parsed.push(crate::json::parse_json(scripts[i].as_str()));
            i += 1;
        }
        assert(parsed@ =~= scripts@.map_values(|s: String| crate::json::json_of(s@)));
        Self::assemble_details(base_url, novel_url, raw, &parsed)
    }

    pub fn assemble_details(
        base_url: &str,
        novel_url: &str,
        raw: &AnDetailsRaw,
        scripts: &Vec<Option<JsonValue>>,
    ) -> (n: NovelDto)
        ensures
            ({
                let v = n.deep_view();
                let u = an_novel(base_url@, novel_url@, raw@, v.chapters);
                &&& v == u
                &&& stable_sorted(
                    SortKey::Index,
                    an_chapters(base_url@, scripts@, raw@.chapter_links),
                    v.chapters,
                )
                &&& n.extra@ == Map::<String, String>::empty()
            }),
    {
        let title = match &raw.og_title {
            Some(m) => match m.get_attr("content") {
                Some(t) => {
                    let sep = lit(" - Asianovel");
                    let head = match find_exec(&t, &sep) {
                        Some(i) => {
                            proof {
                                crate::text::lemma_find(t@, sep@);
                            }
                            slice_exec(&t, 0, i)
                        },
                        None => t,
                    };
                    trim_exec(&head)
                },
                None => Vec::new(),
            },
            None => Vec::new(),
        };
        let meta_author = match &raw.author_meta {
            Some(m) => m.get_attr("content"),
            None => None,
        };
        let author = match meta_author {
            Some(a) if a.len() > 0 => Some(a),
            _ => match &raw.author_link {
                Some(l) => Some(l.trimmed()),
                None => None,
            },
        };
        let cover_url = match &raw.og_image {
            Some(m) => match m.get_attr("content") {
                Some(c) => Some(abs_http_concat_exec(&chars_of(base_url), &c)),
                None => None,
            },
            None => None,
        };
        let description = match &raw.og_description {
            Some(m) => m.get_attr("content"),
            None => None,
        };
        let chapters = Self::collect_chapters(base_url, scripts, &raw.chapter_links);
        let n = NovelDto {
            url: String::from_str(novel_url),
            title: string_of(&title),
            author: opt_string(author),
            cover_url: opt_string(cover_url),
            description: opt_string(description),
            status: None,
            genres: Vec::new(),
            chapters: stable_sort(SortKey::Index, chapters),
            extra: std::collections::HashMap::new(),
        };
        assert(n.genres.deep_view() =~= Seq::<Seq<char>>::empty());
        n
    }

    /// The novel of a page (see [`an_details_raw`], [`an_scripts`] and
    /// [`Self::assemble_details_from_scripts`]). An invalid selector is an
    /// error (the first such one).
    pub fn novel_details(page_html: &str, base_url: &str, novel_url: &str) -> (r: Result<NovelDto, String>)
        ensures
            match r {
                Err(e) => first_selector_error(an_detail_selectors()) == Some(e@),
                Ok(n) => first_selector_error(an_detail_selectors()) is None && ({
                    let v = n.deep_view();
                    let raw = an_details_raw(page_html@);
                    let js = an_scripts(page_html@).map_values(|t: Seq<char>| crate::json::json_of(t));
                    &&& v == an_novel(base_url@, novel_url@, raw, v.chapters)
                    &&& stable_sorted(SortKey::Index, an_chapters(base_url@, js, raw.chapter_links), v.chapters)
                    &&& n.extra@ == Map::<String, String>::empty()
                }),
            },
    {
        let (raw, scripts) = match Self::get_novel_details(page_html) {
            Ok(p) => p,
            Err(e) => return Err(e),
        };
        let n = Self::assemble_details_from_scripts(base_url, novel_url, &raw, &scripts);
        assert(scripts@.map_values(|s: String| crate::json::json_of(s@)) =~= an_scripts(page_html@).map_values(
            |t: Seq<char>| crate::json::json_of(t),
        )) by {
            assert forall|k: int| 0 <= k < scripts@.len() implies #[trigger] sviews(scripts@)[k] == scripts@[k]@ by {}
        }
        Ok(n)
    }

    /// Reads a novel page: what [`Self::assemble_details`] needs, and the
    /// texts of its structured-data scripts (read as JSON by
    /// [`Self::assemble_details_from_scripts`]).
    /// An invalid selector is an error (the first such one).
    pub fn get_novel_details(page_html: &str) -> (r: Result<(AnDetailsRaw, Vec<String>), String>)
        ensures
            match r {
                Err(e) => first_selector_error(an_detail_selectors()) == Some(e@),
                Ok(p) => first_selector_error(an_detail_selectors()) is None && p.0@ == an_details_raw(page_html@)
                    && sviews(p.1@) == an_scripts(page_html@),
            },
    {
        let texts = [
            "meta[property='og:title']",
            "meta[property='article:author']",
            "header.story__headline em.story__author a",
            "meta[property='og:image']",
            "meta[property='og:description']",
            "script[type='application/ld+json']",
        ];
        assert(strs(texts@) =~= an_detail_selectors());
        let sels = match compile_all(&texts) {
            Ok(v) => v,
            Err(e) => return Err(e),
        };
        let page = parse_document(page_html);
        let doc = &page;
        let none: &[&str] = &[];
        let content: &[&str] = &["content"];
        let href: &[&str] = &["href"];
        proof {
            assert(strs(none@) =~= Seq::<Seq<char>>::empty());
            assert(strs(content@) =~= seq!["content"@]);
            assert(strs(href@) =~= seq!["href"@]);
            assert(sels@[0].text() == an_detail_selectors()[0]);
            assert(sels@[1].text() == an_detail_selectors()[1]);
            assert(sels@[2].text() == an_detail_selectors()[2]);
            assert(sels@[3].text() == an_detail_selectors()[3]);
            assert(sels@[4].text() == an_detail_selectors()[4]);
            assert(sels@[5].text() == an_detail_selectors()[5]);
        }
        let script_snaps = all_of(doc, &sels[5], none);
        let ghost sv = snap_views(script_snaps@);
        let mut scripts: Vec<String> = Vec::new();
        let mut i: usize = 0;
        while i < script_snaps.len()
            invariant
                i <= script_snaps.len(),
                sv == snap_views(script_snaps@),
                scripts@.len() == i,
                forall|k: int| 0 <= k < i ==> (#[trigger] scripts@[k])@ == stext(sv[k]),
            decreases script_snaps.len() - i,
        {
            scripts.push(string_of(&script_snaps[i].text()));
            i += 1;
        }
        assert(sviews(scripts@) =~= an_scripts(page_html@));
        let chapter_links = opt_all_of(
            doc,
            "ol.chapter-group__list li.chapter-group__list-item a.chapter-group__list-item-link",
            href,
        );
        let raw = AnDetailsRaw {
            og_title: first_of(doc, &sels[0], content),
            author_meta: first_of(doc, &sels[1], content),
            author_link: first_of(doc, &sels[2], none),
            og_image: first_of(doc, &sels[3], content),
            og_description: first_of(doc, &sels[4], content),
            chapter_links,
        };
        assert(raw@ == an_details_raw(page_html@));
        Ok((raw, scripts))
    }

    /// Chapter text of a chapter page: the inner HTML of `#chapter-content`
    /// with script, style and ins blocks removed, trimmed (see
    /// [`first_clean`](crate::content::first_clean)); `None` when the selector
    /// does not parse or nothing matches.
    pub fn get_chapter_content(page_html: &str) -> (r: Option<String>)
        ensures
            selector_parse_error("#chapter-content"@) is Some ==> r is None,
            selector_parse_error("#chapter-content"@) is None ==> crate::text::os(r)
                == crate::content::first_clean(page_html@, "#chapter-content"@, basic_tags()),
    {
        let tags = basic_tag_list();
        match select_clean(page_html, "#chapter-content", &tags) {
            Ok(c) => c,
            Err(_) => None,
        }
    }
}

/// Every chapter URL of a novel is absolute when the site's base is: it
/// starts with `"http"`.
pub proof fn law_an_chapters_absolute(base: Seq<char>, scripts: Seq<Option<JsonValue>>, links: Option<Seq<SnapView>>)
    requires
        starts_with(base, "http"@),
    ensures
        forall|i: int|
            0 <= i < an_chapters(base, scripts, links).len() ==> starts_with(
                #[trigger] an_chapters(base, scripts, links)[i].url,
                "http"@,
            ),
{
    let cs = an_chapters(base, scripts, links);
    assert forall|i: int| 0 <= i < cs.len() implies starts_with(#[trigger] cs[i].url, "http"@) by {
        if an_ld_chapters(scripts).len() > 0 {
            crate::urls::lemma_abs_http_starts(base, an_ld_chapters(scripts)[i].url);
        } else {
            match links {
                Some(ls) => crate::urls::lemma_abs_http_starts(base, or_empty(sattr(ls[i], "href"@))),
                None => {},
            }
        }
    }
}

} // verus!
