//! The NovelBins source: card lists, and chapter tabs loaded by AJAX.
use vstd::prelude::*;
use crate::clean::{clean_html, clean_html_exec};
use crate::content::{basic_tag_list, basic_tags};
use crate::dom::{compile_all, compile_selector, first_selector_error, inner_html, parse_document, select_all, selector_parse_error};
use crate::fetch::{get_request, get_spec, lit, post_request, post_spec, with_header, Request, RequestView};
use crate::json::{get_str, get_str_exec, JsonValue};
use crate::models::{ChapterDto, ChapterView, ListingDto, ListingView, NovelDto, SearchResultDto, SearchResultView};
use crate::snap::{all_of, first_in, first_of, osnap, sattr, sel_ok, select_first, select_snaps, snap_views, strs, ttext, Snap, SnapView};
use crate::sort::{stable_sort, stable_sorted, SortKey};
use crate::text::{char_is_digit, chars_of, concat2, contains, contains_exec, dec, dec_exec, find, find_exec, is_digit, lemma_find, opt_string, or_empty, os, ov, parse_i32, parse_i32_exec, push_all, replace, replace_exec, slice_exec, str_eq, string_of, trim, trim_end_char, trim_end_char_exec, trim_exec};
use crate::urls::{abs_http_concat, abs_http_concat_exec};
use crate::words::{lemma_split_char_nonempty, split_char, split_char_exec};

verus! {

/// The empty source struct; its methods take the site's base URL.
#[derive(Debug, Clone, Copy)]
pub struct NovelBinsSource;

// ---------------------------------------------------------------------------
// Card lists
// ---------------------------------------------------------------------------
/// One novel card: its name heading, its avatar link (with `href`) and its
/// avatar block (with `style`).
pub struct NbCard {
    pub name: Option<Snap>,
    pub link: Option<Snap>,
    pub avatar: Option<Snap>,
}

pub struct NbCardView {
    pub name: Option<SnapView>,
    pub link: Option<SnapView>,
    pub avatar: Option<SnapView>,
}

impl View for NbCard {
    type V = NbCardView;

    open spec fn view(&self) -> NbCardView {
        NbCardView { name: osnap(self.name), link: osnap(self.link), avatar: osnap(self.avatar) }
    }
}

pub open spec fn nb_cards_view(v: Seq<NbCard>) -> Seq<NbCardView> {
    v.map_values(|c: NbCard| c@)
}

/// What lies between `open` (at its first occurrence) and the next `close`.
pub open spec fn between(s: Seq<char>, open: Seq<char>, close: Seq<char>) -> Option<Option<Seq<char>>> {
    match find(s, open) {
        Some(st) => {
            let rest = s.subrange(st + open.len(), s.len() as int);
            match find(rest, close) {
                Some(e) => Some(Some(rest.subrange(0, e))),
                None => Some(None),
            }
        },
        None => None,
    }
}

/// The image of a card's `style` in search results: inside `url('...')`.
pub open spec fn nb_style_url_search(style: Seq<char>) -> Option<Seq<char>> {
    match between(style, "url('"@, "')"@) {
        Some(r) => r,
        None => None,
    }
}

/// The image of a card's `style` on listing pages: inside `url('...')`,
/// else `url("...")`, else `url(...)`.
pub open spec fn nb_style_url_listing(style: Seq<char>) -> Option<Seq<char>> {
    match between(style, "url('"@, "')"@) {
        Some(r) => r,
        None => match between(style, "url(\""@, "\")"@) {
            Some(r) => r,
            None => match between(style, "url("@, ")"@) {
                Some(r) => r,
                None => None,
            },
        },
    }
}

/// The result of a card: kept when its trimmed name and its URL are nonempty.
pub open spec fn nb_card_entry(base: Seq<char>, listing: bool, c: NbCardView) -> Option<SearchResultView> {
    let title = match c.name {
        Some(n) => ttext(n),
        None => Seq::empty(),
    };
    let url = match c.link {
        Some(a) => match sattr(a, "href"@) {
            Some(h) => abs_http_concat(base, h),
            None => Seq::empty(),
        },
        None => Seq::empty(),
    };
    let cover_url = match c.avatar {
        Some(d) => match sattr(d, "style"@) {
            Some(st) => if listing {
                nb_style_url_listing(st)
            } else {
                nb_style_url_search(st)
            },
            None => None,
        },
        None => None,
    };
    if title.len() > 0 && url.len() > 0 {
        Some(SearchResultView { url, title, cover_url, author: None })
    } else {
        None
    }
}

pub open spec fn nb_cards(base: Seq<char>, listing: bool, cards: Seq<NbCardView>) -> Seq<SearchResultView> {
    crate::text::filter_some(cards.map_values(|c: NbCardView| nb_card_entry(base, listing, c)))
}

/// Selectors of a card list: cards, names, avatar links, avatar blocks.
pub open spec fn nb_card_selectors() -> Seq<Seq<char>> {
    seq![".mt-card-item"@, "h3.mt-card-name"@, ".mt-card-avatar a"@, ".mt-card-avatar"@]
}

/// The cards of a list page under `n`: for each card, its first name
/// element, its first avatar link (with its `href`) and its first avatar
/// (with its `style`).
pub open spec fn nb_cards_of(n: crate::dom::NodeRef) -> Seq<NbCardView> {
    let sels = nb_card_selectors();
    Seq::new(
        crate::dom::count_in(n, sels[0]),
        |i: int|
            NbCardView {
                name: select_first(crate::dom::child(n, sels[0], i), sels[1], Seq::empty()),
                link: select_first(crate::dom::child(n, sels[0], i), sels[2], seq!["href"@]),
                avatar: select_first(crate::dom::child(n, sels[0], i), sels[3], seq!["style"@]),
            },
    )
}

pub open spec fn nb_search_url(base: Seq<char>, query: Seq<char>) -> Seq<char> {
    base + "/search-results/?query="@ + replace(query, " "@, "+"@)
}

pub open spec fn nb_listing_path(listing_id: Seq<char>) -> Seq<char> {
    if listing_id == "latest"@ {
        "novel/newchapters"@
    } else if listing_id == "ongoing"@ {
        "novel/ongoing"@
    } else if listing_id == "female"@ {
        "novel/female"@
    } else if listing_id == "male"@ {
        "novel/male"@
    } else {
        "novel"@
    }
}

pub open spec fn nb_listing_url(base: Seq<char>, listing_id: Seq<char>, page: i32) -> Seq<char> {
    trim_end_char(base, '/') + "/"@ + nb_listing_path(listing_id) + "/?page="@ + dec(page as int)
}

pub open spec fn nb_listings() -> Seq<ListingView> {
    seq![
        ListingView { id: "popular"@, name: "Popular Novels"@ },
        ListingView { id: "latest"@, name: "Latest Release"@ },
        ListingView { id: "ongoing"@, name: "Ongoing Novels"@ },
        ListingView { id: "female"@, name: "Female Lead"@ },
        ListingView { id: "male"@, name: "Male Lead"@ },
    ]
}

fn between_exec(s: &Vec<char>, open: &Vec<char>, close: &Vec<char>) -> (r: Option<Option<Vec<char>>>)
    ensures
        match r {
            Some(Some(v)) => between(s@, open@, close@) == Some(Some(v@)),
            Some(None) => between(s@, open@, close@) == Some(None::<Seq<char>>),
            None => between(s@, open@, close@) is None,
        },
{
    match find_exec(s, open) {
        Some(st) => {
            let n = s.len();
            proof {
                lemma_find(s@, open@);
            }
            let rest = slice_exec(s, st + open.len(), n);
            match find_exec(&rest, close) {
                Some(e) => {
                    proof {
                        lemma_find(rest@, close@);
                    }
                    Some(Some(slice_exec(&rest, 0, e)))
                },
                None => Some(None),
            }
        },
        None => None,
    }
}

fn nb_style_url_exec(style: &Vec<char>, listing: bool) -> (r: Option<Vec<char>>)
    ensures
        ov(r) == if listing {
            nb_style_url_listing(style@)
        } else {
            nb_style_url_search(style@)
        },
{
    match between_exec(style, &lit("url('"), &lit("')")) {
        Some(r) => return r,
        None => {},
    }
    if !listing {
        return None;
    }
    match between_exec(style, &lit("url(\""), &lit("\")")) {
        Some(r) => return r,
        None => {},
    }
    match between_exec(style, &lit("url("), &lit(")")) {
        Some(r) => r,
        None => None,
    }
}

fn nb_card_entry_exec(base: &Vec<char>, listing: bool, c: &NbCard) -> (r: Option<SearchResultDto>)
    ensures
        r.deep_view() == nb_card_entry(base@, listing, c@),
{
    let title = match &c.name {
        Some(n) => n.trimmed(),
        None => Vec::new(),
    };
    let url = match &c.link {
        Some(a) => match a.get_attr("href") {
            Some(h) => abs_http_concat_exec(base, &h),
            None => Vec::new(),
        },
        None => Vec::new(),
    };
    let cover_url = match &c.avatar {
        Some(d) => match d.get_attr("style") {
            Some(st) => nb_style_url_exec(&st, listing),
            None => None,
        },
        None => None,
    };
    if title.len() > 0 && url.len() > 0 {
        Some(
            SearchResultDto {
                url: string_of(&url),
                title: string_of(&title),
                cover_url: opt_string(cover_url),
                author: None,
            },
        )
    } else {
        None
    }
}

impl NovelBinsSource {
    /// The results of a list of cards (see [`nb_cards`]); `listing` selects
    /// the listing pages' reading of cover images.
    pub fn collect_cards(base_url: &str, listing: bool, cards: &Vec<NbCard>) -> (r: Vec<SearchResultDto>)
        ensures
            r.deep_view() == nb_cards(base_url@, listing, nb_cards_view(cards@)),
    {
        let base = chars_of(base_url);
        let ghost mapped = nb_cards_view(cards@).map_values(
            |c: NbCardView| nb_card_entry(base@, listing, c),
        );
        let mut r: Vec<SearchResultDto> = Vec::new();
        let mut i: usize = 0;
        while i < cards.len()
            invariant
                i <= cards.len(),
                base@ == base_url@,
                mapped == nb_cards_view(cards@).map_values(
                    |c: NbCardView| nb_card_entry(base@, listing, c),
                ),
                r.deep_view() == crate::text::filter_some(mapped.take(i as int)),
            decreases cards.len() - i,
        {
            proof {
                crate::text::lemma_filter_some_step(mapped, i as int);
            }
            let e = nb_card_entry_exec(&base, listing, &cards[i]);
            match e {
                Some(x) => {
                    let ghost before = r.deep_view();
                    r.push(x);
                    assert(r.deep_view() =~= before.push(x.deep_view()));
                },
                None => {},
            }
            i += 1;
        }
        assert(mapped.take(cards.len() as int) =~= mapped);
        r
    }

    /// Reads a page of cards (search results when `listing` is false). An
    /// invalid selector is an error (the first such one).
    pub fn parse_cards(page_html: &str, base_url: &str, listing: bool) -> (r: Result<Vec<SearchResultDto>, String>)
        ensures
            match r {
                Err(e) => first_selector_error(nb_card_selectors()) == Some(e@),
                Ok(v) => first_selector_error(nb_card_selectors()) is None && v.deep_view() == nb_cards(
                    base_url@,
                    listing,
                    nb_cards_of(crate::dom::root(page_html@, false)),
                ),
            },
    {
        let texts = [".mt-card-item", "h3.mt-card-name", ".mt-card-avatar a", ".mt-card-avatar"];
        assert(strs(texts@) =~= nb_card_selectors());
        let sels = match compile_all(&texts) {
            Ok(v) => v,
            Err(e) => return Err(e),
        };
        let doc = crate::dom::parse_document(page_html);
        let ghost pn = crate::dom::page_node(&doc);
        let none: &[&str] = &[];
        let href: &[&str] = &["href"];
        let style: &[&str] = &["style"];
        proof {
            assert(strs(none@) =~= Seq::<Seq<char>>::empty());
            assert(strs(href@) =~= seq!["href"@]);
            assert(strs(style@) =~= seq!["style"@]);
            assert(sels@[0].text() == nb_card_selectors()[0]);
            assert(sels@[1].text() == nb_card_selectors()[1]);
            assert(sels@[2].text() == nb_card_selectors()[2]);
            assert(sels@[3].text() == nb_card_selectors()[3]);
        }
        let items = select_all(&doc, &sels[0]);
        let ghost want = nb_cards_of(pn);
        let mut cards: Vec<NbCard> = Vec::new();
        let mut i: usize = 0;
        while i < items.len()
            invariant
                i <= items@.len(),
                sels@.len() == 4,
                items@.len() == want.len(),
                want == nb_cards_of(pn),
                forall|k: int| 0 <= k < 4 ==> (#[trigger] sels@[k]).text() == nb_card_selectors()[k],
                strs(none@) == Seq::<Seq<char>>::empty(),
                strs(href@) == seq!["href"@],
                strs(style@) == seq!["style"@],
                forall|k: int| 0 <= k < items@.len() ==> (#[trigger] items@[k]).node() == crate::dom::child(pn, nb_card_selectors()[0], k),
                cards@.len() == i,
                forall|k: int| 0 <= k < i ==> (#[trigger] cards@[k])@ == want[k],
            decreases items@.len() - i,
        {
            proof {
                assert(sels@[1].text() == nb_card_selectors()[1]);
                assert(sels@[2].text() == nb_card_selectors()[2]);
                assert(sels@[3].text() == nb_card_selectors()[3]);
            }
            cards.push(
                NbCard {
                    name: first_in(&items[i], &sels[1], none),
                    link: first_in(&items[i], &sels[2], href),
                    avatar: first_in(&items[i], &sels[3], style),
                },
            );
            i += 1;
        }
        assert(nb_cards_view(cards@) =~= want);
        Ok(Self::collect_cards(base_url, listing, &cards))
    }

    /// The search request (see [`nb_search_url`]).
    pub fn search(base_url: &str, query: &str) -> (r: Request)
        ensures
            r@ == get_spec(nb_search_url(base_url@, query@)),
    {
        proof {
            reveal_strlit(" ");
        }
        let mut u = chars_of(base_url);
        push_all(&mut u, &lit("/search-results/?query="));
        push_all(&mut u, &replace_exec(&chars_of(query), &lit(" "), &lit("+")));
        get_request(&u)
    }

    /// The listings of the site.
    pub fn get_listings() -> (r: Vec<ListingDto>)
        ensures
            r.deep_view() == nb_listings(),
    {
        let r = vec![
            crate::models::listing("popular", "Popular Novels"),
            crate::models::listing("latest", "Latest Release"),
            crate::models::listing("ongoing", "Ongoing Novels"),
            crate::models::listing("female", "Female Lead"),
            crate::models::listing("male", "Male Lead"),
        ];
        assert(r.deep_view() =~= nb_listings());
        r
    }

    /// The request for a listing page (see [`nb_listing_url`]).
    pub fn get_listing_novels(base_url: &str, listing_id: &str, page: i32) -> (r: Request)
        ensures
            r@ == get_spec(nb_listing_url(base_url@, listing_id@, page)),
    {
        let id = chars_of(listing_id);
        let path = if str_eq("latest", &id) {
            lit("novel/newchapters")
        } else if str_eq("ongoing", &id) {
            lit("novel/ongoing")
        } else if str_eq("female", &id) {
            lit("novel/female")
        } else if str_eq("male", &id) {
            lit("novel/male")
        } else {
            lit("novel")
        };
        let mut u = trim_end_char_exec(&chars_of(base_url), '/');
        push_all(&mut u, &lit("/"));
        push_all(&mut u, &path);
        push_all(&mut u, &lit("/?page="));
        push_all(&mut u, &dec_exec(page as i64));
        get_request(&u)
    }
}

// ---------------------------------------------------------------------------
// Novel page and chapter tabs
// ---------------------------------------------------------------------------
/// What was read of a novel page. `bookmark` and `list_links` are `None`
/// when their (optional) selectors do not parse.
pub struct NbDetailsRaw {
    pub title: Option<Snap>,
    pub paragraphs: Vec<Snap>,
    pub cover: Option<Snap>,
    pub bookmark: Option<Snap>,
    pub tabs: Vec<Snap>,
    pub list_links: Option<Vec<Snap>>,
}

pub struct NbDetailsRawView {
    pub title: Option<SnapView>,
    pub paragraphs: Seq<SnapView>,
    pub cover: Option<SnapView>,
    pub bookmark: Option<SnapView>,
    pub tabs: Seq<SnapView>,
    pub list_links: Option<Seq<SnapView>>,
}

impl View for NbDetailsRaw {
    type V = NbDetailsRawView;

    open spec fn view(&self) -> NbDetailsRawView {
        NbDetailsRawView {
            title: osnap(self.title),
            paragraphs: snap_views(self.paragraphs@),
            cover: osnap(self.cover),
            bookmark: osnap(self.bookmark),
            tabs: snap_views(self.tabs@),
            list_links: crate::madara_details::osnaps(self.list_links),
        }
    }
}

/// Author: from the last info paragraph that contains `"Author:"`, with that
/// label removed, trimmed.
pub open spec fn nb_author(ps: Seq<SnapView>) -> Option<Seq<char>>
    decreases ps.len(),
{
    if ps.len() == 0 {
        None
    } else {
        let t = ttext(ps.last());
        if contains(t, "Author:"@) {
            Some(trim(replace(t, "Author:"@, Seq::empty())))
        } else {
            nb_author(ps.drop_last())
        }
    }
}

/// The last path segment of the novel URL (trailing slashes ignored).
pub open spec fn nb_permalink(novel_url: Seq<char>) -> Seq<char> {
    split_char(trim_end_char(novel_url, '/'), '/').last()
}

/// The novel id: the permalink's last `-`-separated part when all digits,
/// else what the bookmark link writes between its first two `'`.
pub open spec fn nb_novel_id(permalink: Seq<char>, bookmark: Option<SnapView>) -> Seq<char> {
    let last = split_char(permalink, '-').last();
    if crate::text::all_digits(last) && last.len() > 0 {
        last
    } else {
        match bookmark {
            Some(b) => match sattr(b, "href"@) {
                Some(h) => match between(h, "'"@, "'"@) {
                    Some(Some(x)) => x,
                    _ => Seq::empty(),
                },
                None => Seq::empty(),
            },
            None => Seq::empty(),
        }
    }
}

/// The chapters of a page without tabs: its chapter links, numbered from 1.
pub open spec fn nb_list_chapters(base: Seq<char>, links: Option<Seq<SnapView>>) -> Seq<ChapterView> {
    match links {
        Some(ls) => ls.map(
            |i: int, a: SnapView|
                ChapterView {
                    url: abs_http_concat(base, or_empty(sattr(a, "href"@))),
                    title: ttext(a),
                    index: (i + 1) as i32,
                    release_date: None,
                    scanlation: None,
                },
        ),
        None => Seq::empty(),
    }
}

/// A tab's index: its `href` without `#`.
pub open spec fn nb_tab_index(tab: SnapView) -> Seq<char> {
    replace(or_empty(sattr(tab, "href"@)), "#"@, Seq::empty())
}

/// Where the reading of a novel stands.
pub struct NbFetch {
    pub novel_url: String,
    pub title: String,
    pub author: Option<String>,
    pub cover_url: Option<String>,
    pub description: Option<String>,
    pub permalink: String,
    pub novel_id: String,
    /// The tab indices to load.
    pub tabs: Vec<String>,
    /// How many of them have been asked for.
    pub next: usize,
    /// Chapters gathered so far, unsorted.
    pub chapters: Vec<ChapterDto>,
}

pub struct NbFetchView {
    pub novel_url: Seq<char>,
    pub title: Seq<char>,
    pub author: Option<Seq<char>>,
    pub cover_url: Option<Seq<char>>,
    pub description: Option<Seq<char>>,
    pub permalink: Seq<char>,
    pub novel_id: Seq<char>,
    pub tabs: Seq<Seq<char>>,
    pub next: nat,
    pub chapters: Seq<ChapterView>,
}

impl View for NbFetch {
    type V = NbFetchView;

    open spec fn view(&self) -> NbFetchView {
        NbFetchView {
            novel_url: self.novel_url@,
            title: self.title@,
            author: os(self.author),
            cover_url: os(self.cover_url),
            description: os(self.description),
            permalink: self.permalink@,
            novel_id: self.novel_id@,
            tabs: crate::text::sviews(self.tabs@),
            next: self.next as nat,
            chapters: self.chapters.deep_view(),
        }
    }
}

/// What the host is asked to do next.
pub enum NbStep {
    /// Perform this request and hand its result to [`NovelBinsSource::on_tab`].
    Fetch(Request),
    /// The novel is complete.
    Done(NovelDto),
}

/// The state after reading the novel page.
pub open spec fn nb_start(base: Seq<char>, novel_url: Seq<char>, raw: NbDetailsRawView) -> NbFetchView {
    let permalink = nb_permalink(novel_url);
    NbFetchView {
        novel_url,
        title: match raw.title {
            Some(t) => ttext(t),
            None => Seq::empty(),
        },
        author: nb_author(raw.paragraphs),
        cover_url: match raw.cover {
            Some(img) => match sattr(img, "src"@) {
                Some(s) => Some(abs_http_concat(base, s)),
                None => None,
            },
            None => None,
        },
        description: if raw.paragraphs.len() >= 8 {
            Some(ttext(raw.paragraphs[7]))
        } else {
            None
        },
        permalink,
        novel_id: nb_novel_id(permalink, raw.bookmark),
        tabs: raw.tabs.map_values(|t: SnapView| nb_tab_index(t)),
        next: 0,
        chapters: if raw.tabs.len() == 0 {
            nb_list_chapters(base, raw.list_links)
        } else {
            Seq::empty()
        },
    }
}

/// The AJAX request for a chapter tab.
pub open spec fn nb_tab_request(base: Seq<char>, novel_url: Seq<char>, novel_id: Seq<char>, tab: Seq<char>) -> RequestView {
    RequestView {
        headers: seq![
            ("X-Requested-With"@, "XMLHttpRequest"@),
            ("Referer"@, novel_url),
            ("Origin"@, base),
            ("Content-Type"@, "application/x-www-form-urlencoded; charset=UTF-8"@),
        ],
        ..post_spec(base + "/ajax/"@, "action=get_chapters&id="@ + novel_id + "&tab="@ + tab)
    }
}

/// The chapters of a tab response, when `start` chapters were gathered
/// before: numbered by their `chapter` text, else by their position overall.
pub open spec fn nb_tab_chapters(base: Seq<char>, permalink: Seq<char>, start: nat, items: Seq<JsonValue>) -> Seq<ChapterView> {
    items.map(
        |i: int, item: JsonValue|
            {
                let chap = or_empty(get_str(item, "chapter"@));
                ChapterView {
                    url: base + "/novel/"@ + permalink + "/chapter/"@ + chap + "/"@,
                    title: or_empty(get_str(item, "title"@)),
                    index: match parse_i32(chap) {
                        Some(n) => n,
                        None => (start + i + 1) as i32,
                    },
                    release_date: None,
                    scanlation: None,
                }
            },
    )
}

/// `step` follows state `f`: the next tab's request, or the finished novel
/// with its chapters sorted stably by index.
pub open spec fn nb_step_ok(base: Seq<char>, f: NbFetchView, step: NbStep) -> bool {
    match step {
        NbStep::Fetch(r) => f.next < f.tabs.len() && r@ == nb_tab_request(
            base,
            f.novel_url,
            f.novel_id,
            f.tabs[f.next as int],
        ),
        NbStep::Done(n) => {
            let v = n.deep_view();
            &&& f.next >= f.tabs.len()
            &&& v.url == f.novel_url
            &&& v.title == f.title
            &&& v.author == f.author
            &&& v.cover_url == f.cover_url
            &&& v.description == f.description
            &&& v.status is None
            &&& v.genres.len() == 0
            &&& stable_sorted(SortKey::Index, f.chapters, v.chapters)
            &&& n.extra@ == Map::<String, String>::empty()
        },
    }
}

/// What is read of the novel page parsed from `src`.
pub open spec fn nb_details_raw(src: Seq<char>) -> NbDetailsRawView {
    let pn = crate::dom::root(src, false);
    let sels = nb_detail_selectors();
    let bookmark = "a[href^='javascript:bookmark']"@;
    let list = ".chapters .mt-card-item h3.mt-card-name a"@;
    NbDetailsRawView {
        title: select_first(pn, sels[0], Seq::empty()),
        paragraphs: select_snaps(pn, sels[1], Seq::empty()),
        cover: select_first(pn, sels[2], seq!["src"@]),
        bookmark: if sel_ok(bookmark) {
            select_first(pn, bookmark, seq!["href"@])
        } else {
            None
        },
        tabs: select_snaps(pn, "a.ch[data-toggle='tab']"@, seq!["href"@]),
        list_links: if sel_ok(list) {
            Some(select_snaps(pn, list, seq!["href"@]))
        } else {
            None
        },
    }
}

/// Selectors of a novel page that must parse: title, info paragraphs, cover.
pub open spec fn nb_detail_selectors() -> Seq<Seq<char>> {
    seq![".novel-short-info h1"@, ".novel-short-info p"@, "img.novel-photo"@]
}

fn clone_opt(o: &Option<String>) -> (r: Option<String>)
    ensures
        os(r) == os(*o),
{
    match o {
        Some(s) => Some(s.clone()),
        None => None,
    }
}

fn nb_author_exec(ps: &Vec<Snap>) -> (r: Option<Vec<char>>)
    ensures
        ov(r) == nb_author(snap_views(ps@)),
{
    let ghost views = snap_views(ps@);
    let mut i: usize = ps.len();
    assert(views.take(ps.len() as int) =~= views);
    while i > 0
        invariant
            i <= ps.len(),
            views == snap_views(ps@),
            nb_author(views) == nb_author(views.take(i as int)),
        decreases i,
    {
        let t = ps[i - 1].trimmed();
        proof {
            let tk = views.take(i as int);
            assert(tk.drop_last() =~= views.take(i - 1));
            assert(tk.last() == ps@[i - 1]@);
        }
        if contains_exec(&t, &lit("Author:")) {
            proof {
                reveal_strlit("Author:");
            }
            let empty: Vec<char> = Vec::new();
            assert(empty@ =~= Seq::<char>::empty());
            return Some(trim_exec(&replace_exec(&t, &lit("Author:"), &empty)));
        }
        i -= 1;
    }
    assert(views.take(0) =~= Seq::<SnapView>::empty());
    None
}

fn all_digits_exec(s: &Vec<char>) -> (b: bool)
    ensures
        b == crate::text::all_digits(s@),
{
    let mut i: usize = 0;
    while i < s.len()
        invariant
            i <= s.len(),
            forall|j: int| 0 <= j < i ==> is_digit(s@[j]),
        decreases s.len() - i,
    {
        if !char_is_digit(s[i]) {
            return false;
        }
        i += 1;
    }
    true
}

fn last_piece(s: &Vec<char>, c: char) -> (r: Vec<char>)
    ensures
        r@ == split_char(s@, c).last(),
{
    let parts = split_char_exec(s, c);
    proof {
        lemma_split_char_nonempty(s@, c);
    }
    let n = parts.len();
    parts[n - 1].clone()
}

fn nb_tab_index_exec(tab: &Snap) -> (r: Vec<char>)
    ensures
        r@ == nb_tab_index(tab@),
{
    let h = match tab.get_attr("href") {
        Some(h) => h,
        None => Vec::new(),
    };
    proof {
        reveal_strlit("#");
    }
    let empty: Vec<char> = Vec::new();
    assert(empty@ =~= Seq::<char>::empty());
    assert(h@ == or_empty(sattr(tab@, "href"@)));
    replace_exec(&h, &lit("#"), &empty)
}

impl NovelBinsSource {
    /// The next step after state `f` (see [`nb_step_ok`]).
    fn advance(base_url: &str, f: &NbFetch) -> (step: NbStep)
        ensures
            nb_step_ok(base_url@, f@, step),
    {
        if f.next < f.tabs.len() {
            let base = chars_of(base_url);
            let mut body = lit("action=get_chapters&id=");
            push_all(&mut body, &chars_of(f.novel_id.as_str()));
            push_all(&mut body, &lit("&tab="));
            push_all(&mut body, &chars_of(f.tabs[f.next].as_str()));
            let r = post_request(&concat2(&base, &lit("/ajax/")), &body);
            let r = with_header(r, "X-Requested-With", &lit("XMLHttpRequest"));
            let r = with_header(r, "Referer", &chars_of(f.novel_url.as_str()));
            let r = with_header(r, "Origin", &base);
            let r = with_header(r, "Content-Type", &lit("application/x-www-form-urlencoded; charset=UTF-8"));
            assert(r@.headers =~= nb_tab_request(base@, f@.novel_url, f@.novel_id, f@.tabs[f@.next as int]).headers);
            NbStep::Fetch(r)
        } else {
            let mut chapters: Vec<ChapterDto> = Vec::new();
            let mut i: usize = 0;
            while i < f.chapters.len()
                invariant
                    i <= f.chapters.len(),
                    chapters@.len() == i,
                    forall|k: int| 0 <= k < i ==> #[trigger] chapters@[k].deep_view() == f.chapters@[k].deep_view(),
                decreases f.chapters.len() - i,
            {
                let c = &f.chapters[i];
                chapters.push(
                    ChapterDto {
                        url: c.url.clone(),
                        title: c.title.clone(),
                        index: c.index,
                        release_date: clone_opt(&c.release_date),
                        scanlation: clone_opt(&c.scanlation),
                    },
                );
                i += 1;
            }
            assert(chapters.deep_view() =~= f.chapters.deep_view());
            NbStep::Done(
                NovelDto {
                    url: f.novel_url.clone(),
                    title: f.title.clone(),
                    author: clone_opt(&f.author),
                    cover_url: clone_opt(&f.cover_url),
                    description: clone_opt(&f.description),
                    status: None,
                    genres: Vec::new(),
                    chapters: stable_sort(SortKey::Index, chapters),
                    extra: std::collections::HashMap::new(),
                },
            )
        }
    }

    /// What the library makes of a read novel page: the state (see
    /// [`nb_start`]) and the first step.
    pub fn assemble_details(base_url: &str, novel_url: &str, raw: &NbDetailsRaw) -> (r: (NbFetch, NbStep))
        ensures
            r.0@ == nb_start(base_url@, novel_url@, raw@),
            nb_step_ok(base_url@, r.0@, r.1),
    {
        let base = chars_of(base_url);
        let url = chars_of(novel_url);
        let permalink = last_piece(&trim_end_char_exec(&url, '/'), '/');
        let last = last_piece(&permalink, '-');
        let novel_id = if all_digits_exec(&last) && last.len() > 0 {
            last
        } else {
            match &raw.bookmark {
                Some(b) => match b.get_attr("href") {
                    Some(h) => match between_exec(&h, &lit("'"), &lit("'")) {
                        Some(Some(x)) => x,
                        _ => Vec::new(),
                    },
                    None => Vec::new(),
                },
                None => Vec::new(),
            }
        };
        let title = match &raw.title {
            Some(t) => t.trimmed(),
            None => Vec::new(),
        };
        let cover_url = match &raw.cover {
            Some(img) => match img.get_attr("src") {
                Some(s) => Some(abs_http_concat_exec(&base, &s)),
                None => None,
            },
            None => None,
        };
        let description = if raw.paragraphs.len() >= 8 {
            Some(raw.paragraphs[7].trimmed())
        } else {
            None
        };
        let mut tabs: Vec<String> = Vec::new();
        let mut i: usize = 0;
        while i < raw.tabs.len()
            invariant
                i <= raw.tabs.len(),
                tabs@.len() == i,
                forall|k: int| 0 <= k < i ==> #[trigger] tabs@[k]@ == nb_tab_index(raw.tabs@[k]@),
            decreases raw.tabs.len() - i,
        {
            tabs.push(string_of(&nb_tab_index_exec(&raw.tabs[i])));
            i += 1;
        }
        let mut chapters: Vec<ChapterDto> = Vec::new();
        if raw.tabs.len() == 0 {
            match &raw.list_links {
                Some(ls) => {
                    let mut j: usize = 0;
                    while j < ls.len()
                        invariant
                            j <= ls.len(),
                            chapters@.len() == j,
                            forall|k: int| 0 <= k < j ==> #[trigger] chapters@[k].deep_view()
                                == nb_list_chapters(base@, Some(snap_views(ls@)))[k],
                        decreases ls.len() - j,
                    {
                        let a = &ls[j];
                        let href = match a.get_attr("href") {
                            Some(h) => h,
                            None => Vec::new(),
                        };
                        chapters.push(
                            ChapterDto {
                                url: string_of(&abs_http_concat_exec(&base, &href)),
                                title: string_of(&a.trimmed()),
                                index: #[verifier::truncate] ((j + 1) as i32),
                                release_date: None,
                                scanlation: None,
                            },
                        );
                        j += 1;
                    }
                },
                None => {},
            }
        }
        let f = NbFetch {
            novel_url: String::from_str(novel_url),
            title: string_of(&title),
            author: opt_string(nb_author_exec(&raw.paragraphs)),
            cover_url: opt_string(cover_url),
            description: opt_string(description),
            permalink: string_of(&permalink),
            novel_id: string_of(&novel_id),
            tabs,
            next: 0,
            chapters,
        };
        proof {
            assert(f@.tabs =~= raw@.tabs.map_values(|t: SnapView| nb_tab_index(t)));
            assert(f@.chapters =~= nb_start(base_url@, novel_url@, raw@).chapters);
        }
        let step = Self::advance(base_url, &f);
        (f, step)
    }

    /// The response of the tab that was asked for last (`None`: the request
    /// failed or its body is not a JSON array, and it adds nothing). When
    /// every tab was already read, the state stays as it is.
    /// The text of the tab that was asked for last (`None`: the request
    /// failed), read as a JSON array and handed to [`Self::on_tab`].
    pub fn on_tab_body(base_url: &str, f: NbFetch, body: Option<String>) -> (r: (NbFetch, NbStep))
        ensures
            f@.next >= f@.tabs.len() ==> r.0@ == f@,
            f@.next < f@.tabs.len() ==> r.0@ == (NbFetchView {
                chapters: f@.chapters + match crate::json::opt_json_array(body) {
                    Some(v) => nb_tab_chapters(base_url@, f@.permalink, f@.chapters.len(), v),
                    None => Seq::empty(),
                },
                next: f@.next + 1,
                ..f@
            }),
            nb_step_ok(base_url@, r.0@, r.1),
    {
        let items = match &body {
            Some(b) => crate::json::parse_json_array(b.as_str()),
            None => None,
        };
        Self::on_tab(base_url, f, items)
    }

    pub fn on_tab(base_url: &str, f: NbFetch, items: Option<Vec<JsonValue>>) -> (r: (NbFetch, NbStep))
        ensures
            f@.next >= f@.tabs.len() ==> r.0@ == f@,
            f@.next < f@.tabs.len() ==> r.0@ == (NbFetchView {
                chapters: f@.chapters + match items {
                    Some(v) => nb_tab_chapters(base_url@, f@.permalink, f@.chapters.len(), v@),
                    None => Seq::empty(),
                },
                next: f@.next + 1,
                ..f@
            }),
            nb_step_ok(base_url@, r.0@, r.1),
    {
        if f.next >= f.tabs.len() {
            let step = Self::advance(base_url, &f);
            return (f, step);
        }
        let mut f = f;
        let ghost old_f = f@;
        assert(old_f.next < old_f.tabs.len());
        let base = chars_of(base_url);
        let permalink = chars_of(f.permalink.as_str());
        let start = f.chapters.len();
        match &items {
            Some(v) => {
                let mut i: usize = 0;
                while i < v.len()
                    invariant
                        i <= v.len(),
                        start == old_f.chapters.len(),
                        base@ == base_url@,
                        permalink@ == old_f.permalink,
                        f@ == (NbFetchView { chapters: f@.chapters, ..old_f }),
                        f.chapters.deep_view() == old_f.chapters + nb_tab_chapters(base@, permalink@, start as nat, v@).take(i as int),
                    decreases v.len() - i,
                {
                    let item = &v[i];
                    let chap = match get_str_exec(item, "chapter") {
                        Some(c) => c,
                        None => Vec::new(),
                    };
                    let title = match get_str_exec(item, "title") {
                        Some(t) => t,
                        None => Vec::new(),
                    };
                    let index = match parse_i32_exec(&chap) {
                        Some(n) => n,
                        None => #[verifier::truncate] ((start as u128 + i as u128 + 1) as i32),
                    };
                    let mut u = concat2(&base, &lit("/novel/"));
                    push_all(&mut u, &permalink);
                    push_all(&mut u, &lit("/chapter/"));
                    push_all(&mut u, &chap);
                    push_all(&mut u, &lit("/"));
                    let ch = ChapterDto {
                        url: string_of(&u),
                        title: string_of(&title),
                        index,
                        release_date: None,
                        scanlation: None,
                    };
                    assert(ch.deep_view() == nb_tab_chapters(base@, permalink@, start as nat, v@)[i as int]);
                    let ghost before = f.chapters.deep_view();
                    f.chapters.push(ch);
                    assert(f.chapters.deep_view() =~= before.push(ch.deep_view()));
                    assert(nb_tab_chapters(base@, permalink@, start as nat, v@).take(i + 1) =~= nb_tab_chapters(
                        base@,
                        permalink@,
                        start as nat,
                        v@,
                    ).take(i as int).push(ch.deep_view()));
                    i += 1;
                }
                assert(nb_tab_chapters(base@, permalink@, start as nat, v@).take(v.len() as int) =~= nb_tab_chapters(
                    base@,
                    permalink@,
                    start as nat,
                    v@,
                ));
            },
            None => {
                assert(f.chapters.deep_view() =~= old_f.chapters + Seq::<ChapterView>::empty());
            },
        }
        let ntabs = f.tabs.len();
        assert(f.next < ntabs);
        f.next = f.next + 1;
        let step = Self::advance(base_url, &f);
        (f, step)
    }

    /// Reads a novel page. An invalid title, paragraph, cover or tab selector
    /// is an error (the first such one).
    pub fn get_novel_details(page_html: &str, base_url: &str, novel_url: &str) -> (r: Result<(NbFetch, NbStep), String>)
        ensures
            first_selector_error(nb_detail_selectors()) is Some ==> r is Err && Some(r->Err_0@)
                == first_selector_error(nb_detail_selectors()),
            first_selector_error(nb_detail_selectors()) is None ==> (selector_parse_error(
                "a.ch[data-toggle='tab']"@,
            ) is Some <==> r is Err),
            first_selector_error(nb_detail_selectors()) is None && r is Err ==> selector_parse_error(
                "a.ch[data-toggle='tab']"@,
            ) == Some(r->Err_0@),
            r is Ok ==> r->Ok_0.0@ == nb_start(base_url@, novel_url@, nb_details_raw(page_html@)) && nb_step_ok(
                base_url@,
                r->Ok_0.0@,
                r->Ok_0.1,
            ),
    {
        let texts = [".novel-short-info h1", ".novel-short-info p", "img.novel-photo"];
        assert(strs(texts@) =~= nb_detail_selectors());
        let sels = match compile_all(&texts) {
            Ok(v) => v,
            Err(e) => return Err(e),
        };
        let tab_sel = match compile_selector("a.ch[data-toggle='tab']") {
            Ok(s) => s,
            Err(e) => return Err(e),
        };
        let page = parse_document(page_html);
        let doc = &page;
        let none: &[&str] = &[];
        let href: &[&str] = &["href"];
        let src: &[&str] = &["src"];
        proof {
            assert(strs(none@) =~= Seq::<Seq<char>>::empty());
            assert(strs(href@) =~= seq!["href"@]);
            assert(strs(src@) =~= seq!["src"@]);
            assert(sels@[0].text() == nb_detail_selectors()[0]);
            assert(sels@[1].text() == nb_detail_selectors()[1]);
            assert(sels@[2].text() == nb_detail_selectors()[2]);
        }
        let bookmark = match crate::snap::opt_first_of(doc, "a[href^='javascript:bookmark']", href) {
            Some(b) => b,
            None => None,
        };
        let list_links = crate::snap::opt_all_of(doc, ".chapters .mt-card-item h3.mt-card-name a", href);
        let raw = NbDetailsRaw {
            title: first_of(doc, &sels[0], none),
            paragraphs: all_of(doc, &sels[1], none),
            cover: first_of(doc, &sels[2], src),
            bookmark,
            tabs: all_of(doc, &tab_sel, href),
            list_links,
        };
        assert(raw@ == nb_details_raw(page_html@));
        Ok(Self::assemble_details(base_url, novel_url, &raw))
    }
}

// ---------------------------------------------------------------------------
// Chapter pages
// ---------------------------------------------------------------------------
/// Selectors tried in turn for the chapter text.
pub open spec fn nb_content_selectors() -> Seq<Seq<char>> {
    seq![".reader"@, "#chr-content"@, "#chapter-content"@]
}

/// The candidate chapter texts of a page: the inner HTML of the first match
/// of each content selector, in order.
pub open spec fn nb_cands(src: Seq<char>) -> Seq<Option<Seq<char>>> {
    nb_content_selectors().map_values(|s: Seq<char>| crate::content::page_inner(src, s))
}

/// The first candidate present.
pub open spec fn first_some(cands: Seq<Option<Seq<char>>>) -> Option<Seq<char>>
    decreases cands.len(),
{
    if cands.len() == 0 {
        None
    } else {
        match cands[0] {
            Some(c) => Some(c),
            None => first_some(cands.subrange(1, cands.len() as int)),
        }
    }
}

impl NovelBinsSource {
    /// Chapter text of a chapter page: the inner HTML of the first element of
    /// the first content selector that parses and matches, with script, style
    /// and ins blocks removed, trimmed.
    pub fn get_chapter_content(page_html: &str) -> (r: Option<String>)
        ensures
            os(r) == match first_some(nb_cands(page_html@)) {
                Some(c) => Some(clean_html(c, basic_tags())),
                None => None,
            },
    {
        let doc = parse_document(page_html);
        let texts = [".reader", "#chr-content", "#chapter-content"];
        assert(strs(texts@) =~= nb_content_selectors());
        let ghost cands = nb_cands(page_html@);
        let mut i: usize = 0;
        while i < 3
            invariant
                i <= 3,
                texts@.len() == 3,
                strs(texts@) == nb_content_selectors(),
                cands == nb_cands(page_html@),
                cands.len() == 3,
                doc.src() == page_html@ && !doc.is_fragment(),
                forall|k: int| 0 <= k < i ==> cands[k] is None,
            decreases 3 - i,
        {
            assert(nb_content_selectors()[i as int] == texts@[i as int]@);
            match compile_selector(texts[i]) {
                Ok(sel) => {
                    let found = select_all(&doc, &sel);
                    if found.len() > 0 {
                        let inner = inner_html(&found[0]);
                        let tags = basic_tag_list();
                        let r = clean_html_exec(inner.as_str(), &tags);
                        proof {
                            assert(found@[0].node().path =~= seq![(texts@[i as int]@, 0int)]);
                            assert(cands[i as int] == Some(inner@));
                            lemma_first_some(cands, i as int);
                        }
                        return Some(r);
                    }
                },
                Err(_) => {},
            }
            i += 1;
        }
        proof {
            lemma_first_none(cands);
        }
        None
    }
}

proof fn lemma_first_some(c: Seq<Option<Seq<char>>>, i: int)
    requires
        0 <= i < c.len(),
        forall|k: int| 0 <= k < i ==> c[k] is None,
        c[i] is Some,
    ensures
        first_some(c) == c[i],
    decreases i,
{
    if i > 0 {
        let t = c.subrange(1, c.len() as int);
        assert forall|k: int| 0 <= k < i - 1 implies t[k] is None by {
            assert(t[k] == c[k + 1]);
        }
        lemma_first_some(t, i - 1);
    }
}

proof fn lemma_first_none(c: Seq<Option<Seq<char>>>)
    requires
        forall|k: int| 0 <= k < c.len() ==> c[k] is None,
    ensures
        first_some(c) is None,
    decreases c.len(),
{
    if c.len() > 0 {
        let t = c.subrange(1, c.len() as int);
        assert forall|k: int| 0 <= k < t.len() implies t[k] is None by {
            assert(t[k] == c[k + 1]);
        }
        lemma_first_none(t);
    }
}

/// Every result of a card list has a nonempty title and URL.
pub proof fn law_nb_cards_nonempty(base: Seq<char>, listing: bool, cards: Seq<NbCardView>)
    ensures
        forall|k: int|
            0 <= k < nb_cards(base, listing, cards).len() ==> (#[trigger] nb_cards(base, listing, cards)[k]).title.len()
                > 0 && nb_cards(base, listing, cards)[k].url.len() > 0,
    decreases cards.len(),
{
    let mapped = cards.map_values(|c: NbCardView| nb_card_entry(base, listing, c));
    lemma_filter_some_nonempty(mapped);
}

proof fn lemma_filter_some_nonempty(s: Seq<Option<SearchResultView>>)
    requires
        forall|k: int| 0 <= k < s.len() ==> (#[trigger] s[k] matches Some(r) ==> r.title.len() > 0 && r.url.len() > 0),
    ensures
        forall|k: int|
            0 <= k < crate::text::filter_some(s).len() ==> (#[trigger] crate::text::filter_some(s)[k]).title.len() > 0
                && crate::text::filter_some(s)[k].url.len() > 0,
    decreases s.len(),
{
    if s.len() > 0 {
        let t = s.subrange(0, s.len() - 1);
        assert forall|k: int| 0 <= k < t.len() implies (#[trigger] t[k] matches Some(r) ==> r.title.len() > 0 && r.url.len() > 0) by {
            assert(t[k] == s[k]);
        }
        lemma_filter_some_nonempty(t);
        let p = crate::text::filter_some(t);
        let cur = crate::text::filter_some(s);
        assert forall|k: int| 0 <= k < cur.len() implies (#[trigger] cur[k]).title.len() > 0 && cur[k].url.len() > 0 by {
            if k < p.len() {
                assert(cur[k] == p[k]);
            }
        }
    }
}

} // verus!
