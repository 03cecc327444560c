//! The Anna's Archive source: e-book search results and book pages with
//! download mirrors.
use vstd::prelude::*;
use crate::dom::{child, compile_all, count_in, first_selector_error, page_node, parse_document, root, select_all, NodeRef};
use crate::fetch::{get_request, get_spec, lit, Request};
use crate::models::{NovelDto, NovelView, SearchResultDto, SearchResultView};
use crate::snap::{all_of, first_in, first_of, node_snap, osnap, sattr, select_first, select_snaps, snap_views, strs, ttext, Snap, SnapView};
use crate::text::{chars_of, concat2, contains, contains_exec, contains_text, dec, dec_exec, find, find_exec, join, join_exec, lead_count, lemma_lead_count, opt_string, push_all, replace, replace_exec, slice_exec, string_of, strings_of, trim, trim_exec, vviews};
use crate::urls::{abs_http_concat, abs_http_concat_exec};

verus! {

/// The empty source struct; its methods take the site's base URL.
#[derive(Debug, Clone, Copy)]
pub struct AnnaSArchiveSource;

pub open spec fn not_sep_pred() -> spec_fn(char) -> bool {
    |c: char| c != '?' && c != '/'
}

/// The MD5 hash of a book link: what follows its first `/md5/`, up to the
/// next `?` or `/` (empty without `/md5/`).
pub open spec fn aa_hash(href: Seq<char>) -> Seq<char> {
    match find(href, "/md5/"@) {
        Some(i) => {
            let rest = href.subrange(i + 5, href.len() as int);
            rest.subrange(0, lead_count(rest, not_sep_pred()) as int)
        },
        None => Seq::empty(),
    }
}

pub open spec fn aa_search_url(base: Seq<char>, query: Seq<char>, page: i32) -> Seq<char> {
    base + "/search?q="@ + replace(query, " "@, "+"@) + "&ext=epub&page="@ + dec(page as int)
}

/// One book link of a search page: the link (with `href`, and its text
/// nodes), its first heading, image (with `src`) and author element.
pub struct AaLink {
    pub link: Snap,
    pub heading: Option<Snap>,
    pub img: Option<Snap>,
    pub author: Option<Snap>,
}

pub struct AaLinkView {
    pub link: SnapView,
    pub heading: Option<SnapView>,
    pub img: Option<SnapView>,
    pub author: Option<SnapView>,
}

impl View for AaLink {
    type V = AaLinkView;

    open spec fn view(&self) -> AaLinkView {
        AaLinkView { link: self.link@, heading: osnap(self.heading), img: osnap(self.img), author: osnap(self.author) }
    }
}

pub open spec fn aa_links_view(v: Seq<AaLink>) -> Seq<AaLinkView> {
    v.map_values(|l: AaLink| l@)
}

/// The hashes met so far, and the results kept.
pub struct AaAcc {
    pub seen: Seq<Seq<char>>,
    pub out: Seq<SearchResultView>,
}

/// A nonempty trimmed text.
pub open spec fn nonempty(t: Seq<char>) -> Option<Seq<char>> {
    if t.len() > 0 {
        Some(t)
    } else {
        None
    }
}

/// One book link: skipped without an `href` containing `/md5/`, with an
/// empty hash, or when its hash was met before; otherwise the hash is
/// remembered, and the book is kept when it has a title (its heading's
/// text, else the link's text nodes joined by spaces, trimmed).
pub open spec fn aa_step(base: Seq<char>, acc: AaAcc, l: AaLinkView) -> AaAcc {
    match sattr(l.link, "href"@) {
        None => acc,
        Some(href) => {
            let hash = aa_hash(href);
            if !contains(href, "/md5/"@) || hash.len() == 0 || acc.seen.contains(hash) {
                acc
            } else {
                let seen = acc.seen.push(hash);
                let heading = match l.heading {
                    Some(h) => nonempty(ttext(h)),
                    None => None,
                };
                let title = match heading {
                    Some(t) => t,
                    None => trim(join(l.link.texts, " "@)),
                };
                if title.len() == 0 {
                    AaAcc { seen, out: acc.out }
                } else {
                    AaAcc {
                        seen,
                        out: acc.out.push(
                            SearchResultView {
                                url: abs_http_concat(base, href),
                                title,
                                cover_url: match l.img {
                                    Some(img) => match sattr(img, "src"@) {
                                        Some(s) => Some(abs_http_concat(base, s)),
                                        None => None,
                                    },
                                    None => None,
                                },
                                author: match l.author {
                                    Some(a) => nonempty(ttext(a)),
                                    None => None,
                                },
                            },
                        ),
                    }
                }
            }
        },
    }
}

pub open spec fn aa_acc(base: Seq<char>, links: Seq<AaLinkView>) -> AaAcc
    decreases links.len(),
{
    if links.len() == 0 {
        AaAcc { seen: Seq::empty(), out: Seq::empty() }
    } else {
        aa_step(base, aa_acc(base, links.drop_last()), links.last())
    }
}

/// The books of a search page.
pub open spec fn aa_results(base: Seq<char>, links: Seq<AaLinkView>) -> Seq<SearchResultView> {
    aa_acc(base, links).out
}

/// Selectors of a search page: book links, headings, images, authors.
pub open spec fn aa_search_selectors() -> Seq<Seq<char>> {
    seq!["a[href*='/md5/']"@, "h3"@, "img"@, ".italic, div.truncate"@]
}

/// The book links of a search page under `n`: each link to a book, with its
/// `href`, its first heading, image (with `src`) and author element.
pub open spec fn aa_links_of(n: NodeRef) -> Seq<AaLinkView> {
    let sels = aa_search_selectors();
    Seq::new(
        count_in(n, sels[0]),
        |i: int|
            AaLinkView {
                link: node_snap(child(n, sels[0], i), seq!["href"@]),
                heading: select_first(child(n, sels[0], i), sels[1], Seq::empty()),
                img: select_first(child(n, sels[0], i), sels[2], seq!["src"@]),
                author: select_first(child(n, sels[0], i), sels[3], Seq::empty()),
            },
    )
}

// ---------------------------------------------------------------------------
// Book page
// ---------------------------------------------------------------------------
/// What was read of a book page: the first heading, author element, cover
/// image (with `src`) and description element, and every link (with `href`).
pub struct AaDetailsRaw {
    pub heading: Option<Snap>,
    pub author: Option<Snap>,
    pub cover: Option<Snap>,
    pub description: Option<Snap>,
    pub links: Vec<Snap>,
}

pub struct AaDetailsRawView {
    pub heading: Option<SnapView>,
    pub author: Option<SnapView>,
    pub cover: Option<SnapView>,
    pub description: Option<SnapView>,
    pub links: Seq<SnapView>,
}

impl View for AaDetailsRaw {
    type V = AaDetailsRawView;

    open spec fn view(&self) -> AaDetailsRawView {
        AaDetailsRawView {
            heading: osnap(self.heading),
            author: osnap(self.author),
            cover: osnap(self.cover),
            description: osnap(self.description),
            links: snap_views(self.links@),
        }
    }
}

/// A link to a download mirror.
pub open spec fn is_mirror(href: Seq<char>) -> bool {
    contains(href, "ipfs"@) || contains(href, "libgen"@) || contains(href, "/slow_download/"@)
        || contains(href, "/fast_download/"@) || contains(href, "cloudflare-ipfs.com"@) || contains(
        href,
        "gateway.pinata.cloud"@,
    )
}

/// The download mirrors of a book page: the absolute URLs of its mirror
/// links, each once, in order.
pub open spec fn aa_mirrors(base: Seq<char>, links: Seq<SnapView>) -> Seq<Seq<char>>
    decreases links.len(),
{
    if links.len() == 0 {
        Seq::empty()
    } else {
        let prev = aa_mirrors(base, links.drop_last());
        match sattr(links.last(), "href"@) {
            Some(h) => if is_mirror(h) && !prev.contains(abs_http_concat(base, h)) {
                prev.push(abs_http_concat(base, h))
            } else {
                prev
            },
            None => prev,
        }
    }
}

/// The extra entries of a book: its id, and its mirrors joined by `;` when
/// it has any.
pub open spec fn aa_extra(hash: Seq<char>, mirrors: Seq<Seq<char>>) -> Seq<(Seq<char>, Seq<char>)> {
    let id = seq![("bookId"@, "aa_"@ + hash)];
    if mirrors.len() > 0 {
        id.push(("mirrors"@, join(mirrors, ";"@)))
    } else {
        id
    }
}

/// What a book page gives: a completed e-book without chapters (the host
/// reads the e-book from the mirrors).
pub open spec fn aa_novel(base: Seq<char>, novel_url: Seq<char>, raw: AaDetailsRawView) -> NovelView {
    let hash = aa_hash(novel_url);
    NovelView {
        url: novel_url,
        title: match raw.heading {
            Some(h) if ttext(h).len() > 0 => ttext(h),
            _ => "Book "@ + hash,
        },
        author: match raw.author {
            Some(a) => nonempty(ttext(a)),
            None => None,
        },
        cover_url: match raw.cover {
            Some(img) => match sattr(img, "src"@) {
                Some(s) => Some(abs_http_concat(base, s)),
                None => None,
            },
            None => None,
        },
        description: match raw.description {
            Some(d) => nonempty(trim(join(d.texts, "\n"@))),
            None => None,
        },
        status: Some("Completed"@),
        genres: seq!["E-Book"@],
        chapters: Seq::empty(),
    }
}

/// What is read of the book page parsed from `src`.
pub open spec fn aa_details_raw(src: Seq<char>) -> AaDetailsRawView {
    let pn = root(src, false);
    let sels = aa_detail_selectors();
    AaDetailsRawView {
        heading: select_first(pn, sels[0], Seq::empty()),
        author: select_first(pn, sels[1], Seq::empty()),
        cover: select_first(pn, sels[2], seq!["src"@]),
        description: select_first(pn, sels[3], Seq::empty()),
        links: select_snaps(pn, sels[4], seq!["href"@]),
    }
}

/// Selectors of a book page, in the order they are compiled.
pub open spec fn aa_detail_selectors() -> Seq<Seq<char>> {
    seq![
        "h1"@,
        "div.italic, .author, span.italic"@,
        "img[src*='/covers/'], div.cover img, img"@,
        ".js-md5-top-box-description, div.mb-4.text-base, .description"@,
        "a[href]"@,
    ]
}

// ---------------------------------------------------------------------------
// Implementation
// ---------------------------------------------------------------------------
fn aa_hash_exec(href: &Vec<char>) -> (r: Vec<char>)
    ensures
        r@ == aa_hash(href@),
{
    match find_exec(href, &lit("/md5/")) {
        Some(i) => {
            let n = href.len();
            proof {
                crate::text::lemma_find(href@, "/md5/"@);
                reveal_strlit("/md5/");
            }
            let rest = slice_exec(href, i + 5, n);
            let mut k: usize = 0;
            while k < rest.len() && rest[k] != '?' && rest[k] != '/'
                invariant
                    k <= rest.len(),
                    forall|j: int| 0 <= j < k ==> rest@[j] != '?' && rest@[j] != '/',
                decreases rest.len() - k,
            {
                k += 1;
            }
            proof {
                lemma_lead_count(rest@, not_sep_pred(), k as int);
            }
            slice_exec(&rest, 0, k)
        },
        None => Vec::new(),
    }
}

fn is_mirror_exec(h: &Vec<char>) -> (b: bool)
    ensures
        b == is_mirror(h@),
{
    contains_exec(h, &lit("ipfs")) || contains_exec(h, &lit("libgen")) || contains_exec(
        h,
        &lit("/slow_download/"),
    ) || contains_exec(h, &lit("/fast_download/")) || contains_exec(h, &lit("cloudflare-ipfs.com"))
        || contains_exec(h, &lit("gateway.pinata.cloud"))
}

impl AnnaSArchiveSource {
    /// The search request (see [`aa_search_url`]); e-books are always asked for.
    pub fn search(base_url: &str, query: &str, page: i32) -> (r: Request)
        ensures
            r@ == get_spec(aa_search_url(base_url@, query@, page)),
    {
        proof {
            reveal_strlit(" ");
        }
        let mut u = chars_of(base_url);
        push_all(&mut u, &lit("/search?q="));
        push_all(&mut u, &replace_exec(&chars_of(query), &lit(" "), &lit("+")));
        push_all(&mut u, &lit("&ext=epub&page="));
        push_all(&mut u, &dec_exec(page as i64));
        get_request(&u)
    }

    /// The books of a search page (see [`aa_results`]).
    pub fn collect_results(base_url: &str, links: &Vec<AaLink>) -> (r: Vec<SearchResultDto>)
        ensures
            r.deep_view() == aa_results(base_url@, aa_links_view(links@)),
    {
        let base = chars_of(base_url);
        let ghost views = aa_links_view(links@);
        let mut seen: Vec<Vec<char>> = Vec::new();
        let mut out: Vec<SearchResultDto> = Vec::new();
        let mut i: usize = 0;
        proof {
            assert(views.take(0) =~= Seq::<AaLinkView>::empty());
            assert(vviews(seen@) =~= Seq::<Seq<char>>::empty());
            assert(out.deep_view() =~= Seq::<SearchResultView>::empty());
        }
        while i < links.len()
            invariant
                i <= links.len(),
                base@ == base_url@,
                views == aa_links_view(links@),
                vviews(seen@) == aa_acc(base@, views.take(i as int)).seen,
                out.deep_view() == aa_acc(base@, views.take(i as int)).out,
            decreases links.len() - i,
        {
            proof {
                let t = views.take(i + 1);
                assert(t.drop_last() =~= views.take(i as int));
                assert(t.last() == links@[i as int]@);
            }
            let l = &links[i];
            match l.link.get_attr("href") {
                None => {},
                Some(href) => {
                    let hash = aa_hash_exec(&href);
                    if contains_exec(&href, &lit("/md5/")) && hash.len() > 0 && !contains_text(&seen, &hash) {
                        let ghost before = vviews(seen@);
                        seen.push(hash);
                        assert(vviews(seen@) =~= before.push(aa_hash(href@)));
                        let heading = match &l.heading {
                            Some(h) => {
                                let t = h.trimmed();
                                if t.len() > 0 {
                                    Some(t)
                                } else {
                                    None
                                }
                            },
                            None => None,
                        };
                        let title = match heading {
                            Some(t) => t,
                            None => trim_exec(&join_exec(&l.link.texts, &lit(" "))),
                        };
                        if title.len() > 0 {
                            let cover_url = match &l.img {
                                Some(img) => match img.get_attr("src") {
                                    Some(s) => Some(abs_http_concat_exec(&base, &s)),
                                    None => None,
                                },
                                None => None,
                            };
                            let author = match &l.author {
                                Some(a) => {
                                    let t = a.trimmed();
                                    if t.len() > 0 {
                                        Some(t)
                                    } else {
                                        None
                                    }
                                },
                                None => None,
                            };
                            let e = SearchResultDto {
                                url: string_of(&abs_http_concat_exec(&base, &href)),
                                title: string_of(&title),
                                cover_url: opt_string(cover_url),
                                author: opt_string(author),
                            };
                            let ghost ob = out.deep_view();
                            out.push(e);
                            assert(out.deep_view() =~= ob.push(e.deep_view()));
                        }
                    }
                },
            }
            i += 1;
        }
        assert(views.take(links.len() as int) =~= views);
        out
    }

    /// Reads a search page. An invalid selector is an error (the first such
    /// one).
    pub fn parse_search(page_html: &str, base_url: &str) -> (r: Result<Vec<SearchResultDto>, String>)
        ensures
            match r {
                Err(e) => first_selector_error(aa_search_selectors()) == Some(e@),
                Ok(v) => first_selector_error(aa_search_selectors()) is None && v.deep_view() == aa_results(
                    base_url@,
                    aa_links_of(root(page_html@, false)),
                ),
            },
    {
        let texts = ["a[href*='/md5/']", "h3", "img", ".italic, div.truncate"];
        assert(strs(texts@) =~= aa_search_selectors());
        let sels = match compile_all(&texts) {
            Ok(v) => v,
            Err(e) => return Err(e),
        };
        let page = parse_document(page_html);
        let doc = &page;
        let ghost pn = page_node(doc);
        let ghost want = aa_links_of(pn);
        let none: &[&str] = &[];
        let href: &[&str] = &["href"];
        let src: &[&str] = &["src"];
        proof {
            assert(strs(none@) =~= Seq::<Seq<char>>::empty());
            assert(strs(href@) =~= seq!["href"@]);
            assert(strs(src@) =~= seq!["src"@]);
            assert(sels@[0].text() == aa_search_selectors()[0]);
        }
        let found = select_all(doc, &sels[0]);
        let mut links: Vec<AaLink> = Vec::new();
        let mut i: usize = 0;
        while i < found.len()
            invariant
                i <= found@.len(),
                sels@.len() == 4,
                found@.len() == want.len(),
                want == aa_links_of(pn),
                forall|k: int| 0 <= k < 4 ==> (#[trigger] sels@[k]).text() == aa_search_selectors()[k],
                strs(none@) == Seq::<Seq<char>>::empty(),
                strs(href@) == seq!["href"@],
                strs(src@) == seq!["src"@],
                forall|k: int| 0 <= k < found@.len() ==> (#[trigger] found@[k]).node() == child(pn, aa_search_selectors()[0], k),
                links@.len() == i,
                forall|k: int| 0 <= k < i ==> (#[trigger] links@[k])@ == want[k],
            decreases found@.len() - i,
        {
            proof {
                assert(sels@[1].text() == aa_search_selectors()[1]);
                assert(sels@[2].text() == aa_search_selectors()[2]);
                assert(sels@[3].text() == aa_search_selectors()[3]);
            }
            let el = &found[i];
            links.push(
                AaLink {
                    link: crate::snap::snap_of(el, href),
                    heading: first_in(el, &sels[1], none),
                    img: first_in(el, &sels[2], src),
                    author: first_in(el, &sels[3], none),
                },
            );
            i += 1;
        }
        assert(links@.map_values(|l: AaLink| l@) =~= want);
        Ok(Self::collect_results(base_url, &links))
    }

    /// The download mirrors of a book page (see [`aa_mirrors`]).
    pub fn mirrors(base_url: &str, links: &Vec<Snap>) -> (r: Vec<String>)
        ensures
            crate::text::sviews(r@) == aa_mirrors(base_url@, snap_views(links@)),
    {
        let base = chars_of(base_url);
        let ghost views = snap_views(links@);
        let mut ms: Vec<Vec<char>> = Vec::new();
        let mut i: usize = 0;
        assert(views.take(0) =~= Seq::<SnapView>::empty());
        assert(vviews(ms@) =~= Seq::<Seq<char>>::empty());
        while i < links.len()
            invariant
                i <= links.len(),
                base@ == base_url@,
                views == snap_views(links@),
                vviews(ms@) == aa_mirrors(base@, views.take(i as int)),
            decreases links.len() - i,
        {
            proof {
                let t = views.take(i + 1);
                assert(t.drop_last() =~= views.take(i as int));
                assert(t.last() == links@[i as int]@);
            }
            match links[i].get_attr("href") {
                Some(h) => {
                    if is_mirror_exec(&h) {
                        let full = abs_http_concat_exec(&base, &h);
                        if !contains_text(&ms, &full) {
                            let ghost before = vviews(ms@);
                            ms.push(full);
                            assert(vviews(ms@) =~= before.push(abs_http_concat(base@, h@)));
                        }
                    }
                },
                None => {},
            }
            i += 1;
        }
        assert(views.take(links.len() as int) =~= views);
        strings_of(&ms)
    }

    /// The extra entries of a book (see [`aa_extra`]).
    pub fn extra_entries(novel_url: &str, mirrors: &Vec<String>) -> (r: Vec<(String, String)>)
        ensures
            r@.map_values(|p: (String, String)| (p.0@, p.1@)) == aa_extra(
                aa_hash(novel_url@),
                crate::text::sviews(mirrors@),
            ),
    {
        let hash = aa_hash_exec(&chars_of(novel_url));
        let mut r: Vec<(String, String)> = Vec::new();
        r.push((String::from_str("bookId"), string_of(&concat2(&lit("aa_"), &hash))));
        if mirrors.len() > 0 {
            let mut ms: Vec<Vec<char>> = Vec::new();
            let mut i: usize = 0;
            while i < mirrors.len()
                invariant
                    i <= mirrors.len(),
                    ms@.len() == i,
                    forall|k: int| 0 <= k < i ==> #[trigger] ms@[k]@ == mirrors@[k]@,
                decreases mirrors.len() - i,
            {
                ms.push(chars_of(mirrors[i].as_str()));
                i += 1;
            }
            assert(vviews(ms@) =~= crate::text::sviews(mirrors@));
            r.push((String::from_str("mirrors"), string_of(&join_exec(&ms, &lit(";")))));
        }
        assert(r@.map_values(|p: (String, String)| (p.0@, p.1@)) =~= aa_extra(
            aa_hash(novel_url@),
            crate::text::sviews(mirrors@),
        ));
        r
    }

    /// The book (see [`aa_novel`]); its `extra` map holds the entries of
    /// [`Self::extra_entries`].
    pub fn assemble_details(base_url: &str, novel_url: &str, raw: &AaDetailsRaw) -> (n: NovelDto)
        ensures
            n.deep_view() == aa_novel(base_url@, novel_url@, raw@),
            crate::models::extra_view(n.extra) == crate::models::pairs_map(
                aa_extra(aa_hash(novel_url@), aa_mirrors(base_url@, raw@.links)),
            ),
    {
        let base = chars_of(base_url);
        let hash = aa_hash_exec(&chars_of(novel_url));
        let title = match &raw.heading {
            Some(h) => {
                let t = h.trimmed();
                if t.len() > 0 {
                    t
                } else {
                    concat2(&lit("Book "), &hash)
                }
            },
            None => concat2(&lit("Book "), &hash),
        };
        let author = match &raw.author {
            Some(a) => {
                let t = a.trimmed();
                if t.len() > 0 {
                    Some(t)
                } else {
                    None
                }
            },
            None => None,
        };
        let cover_url = match &raw.cover {
            Some(img) => match img.get_attr("src") {
                Some(s) => Some(abs_http_concat_exec(&base, &s)),
                None => None,
            },
            None => None,
        };
        let description = match &raw.description {
            Some(d) => {
                let t = trim_exec(&join_exec(&d.texts, &lit("\n")));
                if t.len() > 0 {
                    Some(t)
                } else {
                    None
                }
            },
            None => None,
        };
        let mirrors = Self::mirrors(base_url, &raw.links);
        let entries = Self::extra_entries(novel_url, &mirrors);
        proof {
            reveal_strlit("bookId");
            reveal_strlit("mirrors");
            let ev = entries@.map_values(|p: (String, String)| (p.0@, p.1@));
            let ex = aa_extra(aa_hash(novel_url@), crate::text::sviews(mirrors@));
            assert(ev == ex);
            assert(ex.len() <= 2);
            assert(ex[0].0 == "bookId"@);
            assert(ex.len() == 2 ==> ex[1].0 == "mirrors"@);
            assert forall|i: int, j: int| 0 <= i < j < entries@.len() implies entries@[i].0@ != entries@[j].0@ by {
                assert(ev[i].0 == entries@[i].0@);
                assert(ev[j].0 == entries@[j].0@);
                assert(i == 0 && j == 1);
                assert("bookId"@[0] != "mirrors"@[0]);
            }
        }
        let extra = crate::models::map_of_pairs(entries);
        let n = NovelDto {
            url: String::from_str(novel_url),
            title: string_of(&title),
            author: opt_string(author),
            cover_url: opt_string(cover_url),
            description: opt_string(description),
            status: Some(String::from_str("Completed")),
            genres: vec![String::from_str("E-Book")],
            chapters: Vec::new(),
            extra,
        };
        assert(n.genres.deep_view() =~= seq!["E-Book"@]);
        assert(n.chapters.deep_view() =~= Seq::<crate::models::ChapterView>::empty());
        n
    }

    /// Reads a book page. An invalid selector is an error (the first such one).
    pub fn get_novel_details(page_html: &str, base_url: &str, novel_url: &str) -> (r: Result<NovelDto, String>)
        ensures
            match r {
                Err(e) => first_selector_error(aa_detail_selectors()) == Some(e@),
                Ok(n) => first_selector_error(aa_detail_selectors()) is None && n.deep_view() == aa_novel(
                    base_url@,
                    novel_url@,
                    aa_details_raw(page_html@),
                ) && crate::models::extra_view(n.extra) == crate::models::pairs_map(
                    aa_extra(aa_hash(novel_url@), aa_mirrors(base_url@, aa_details_raw(page_html@).links)),
                ),
            },
    {
        let texts = [
            "h1",
            "div.italic, .author, span.italic",
            "img[src*='/covers/'], div.cover img, img",
            ".js-md5-top-box-description, div.mb-4.text-base, .description",
            "a[href]",
        ];
        assert(strs(texts@) =~= aa_detail_selectors());
        let sels = match compile_all(&texts) {
            Ok(v) => v,
            Err(e) => return Err(e),
        };
        let page = parse_document(page_html);
        let doc = &page;
        let none: &[&str] = &[];
        let href: &[&str] = &["href"];
        let src: &[&str] = &["src"];
        proof {
            assert(strs(none@) =~= Seq::<Seq<char>>::empty());
            assert(strs(href@) =~= seq!["href"@]);
            assert(strs(src@) =~= seq!["src"@]);
            assert(sels@[0].text() == aa_detail_selectors()[0]);
            assert(sels@[1].text() == aa_detail_selectors()[1]);
            assert(sels@[2].text() == aa_detail_selectors()[2]);
            assert(sels@[3].text() == aa_detail_selectors()[3]);
            assert(sels@[4].text() == aa_detail_selectors()[4]);
        }
        let raw = AaDetailsRaw {
            heading: first_of(doc, &sels[0], none),
            author: first_of(doc, &sels[1], none),
            cover: first_of(doc, &sels[2], src),
            description: first_of(doc, &sels[3], none),
            links: all_of(doc, &sels[4], href),
        };
        assert(raw@ == aa_details_raw(page_html@));
        Ok(Self::assemble_details(base_url, novel_url, &raw))
    }

    /// Chapter text: none, as the host reads the e-book itself.
    pub fn get_chapter_content() -> (r: Option<String>)
        ensures
            r is None,
    {
        None
    }
}

/// The download mirrors of a book page are pairwise distinct.
pub proof fn law_aa_mirrors_distinct(base: Seq<char>, links: Seq<SnapView>)
    ensures
        forall|i: int, j: int|
            0 <= i < j < aa_mirrors(base, links).len() ==> aa_mirrors(base, links)[i] != aa_mirrors(
                base,
                links,
            )[j],
    decreases links.len(),
{
    if links.len() > 0 {
        law_aa_mirrors_distinct(base, links.drop_last());
        let prev = aa_mirrors(base, links.drop_last());
        let cur = aa_mirrors(base, links);
        if cur.len() > prev.len() {
            assert forall|i: int, j: int| 0 <= i < j < cur.len() implies cur[i] != cur[j] by {
                assert(cur[i] == prev[i]);
                if j < prev.len() {
                    assert(cur[j] == prev[j]);
                }
            }
        }
    }
}

/// The books of a search page come from pairwise distinct hashes: the
/// hashes met are pairwise distinct, and there are at least as many as
/// books kept.
pub proof fn law_aa_hashes_distinct(base: Seq<char>, links: Seq<AaLinkView>)
    ensures
        forall|i: int, j: int|
            0 <= i < j < aa_acc(base, links).seen.len() ==> aa_acc(base, links).seen[i] != aa_acc(
                base,
                links,
            ).seen[j],
        aa_acc(base, links).out.len() <= aa_acc(base, links).seen.len(),
    decreases links.len(),
{
    if links.len() > 0 {
        law_aa_hashes_distinct(base, links.drop_last());
        let prev = aa_acc(base, links.drop_last());
        let cur = aa_acc(base, links);
        if cur.seen.len() > prev.seen.len() {
            assert forall|i: int, j: int| 0 <= i < j < cur.seen.len() implies cur.seen[i] != cur.seen[j] by {
                assert(cur.seen[i] == prev.seen[i]);
                if j < prev.seen.len() {
                    assert(cur.seen[j] == prev.seen[j]);
                }
            }
        }
    }
}

} // verus!
