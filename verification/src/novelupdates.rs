//! The NovelUpdates source: an aggregator whose chapters link to the
//! translators' own sites.
use vstd::prelude::*;
use crate::clean::{clean_html, clean_html_exec};
use crate::content::{aggregator_tag_list, aggregator_tags};
use crate::dom::{child, compile_all, compile_selector, count_in, first_selector_error, inner_html, page_node, parse_document, parse_fragment, root, select_all, selector_parse_error, NodeRef};
use crate::fetch::{get_request, get_spec, lit, post_request, post_spec, with_header, Request, RequestView};
use crate::madara_details::{nonempty_texts, nonempty_texts_exec};
use crate::models::{ChapterDto, ChapterView, ListingDto, ListingView, NovelDto, NovelView, SearchResultDto, SearchResultView};
use crate::snap::{all_of, first_attr, first_attr_exec, first_in, first_of, node_snap, opt_first_of, osnap, sattr, sel_ok, select_first, select_snaps, snap_of, snap_views, stext, strs, ttext, Snap, SnapView};
use crate::text::{is_ws, char_is_digit, chars_of, concat2, contains, contains_exec, contains_text, dec, dec_exec, digit_pred, digit_prefix, digit_prefix_exec, filter_some, find, find_exec, is_digit, join, join_exec, lead_count, lemma_filter_some_step, lemma_find, lemma_lead_count, lemma_lead_le, lowercase, lowercase_exec, opt_string, os, ov, parse_i32, parse_i32_exec, push_all, replace, replace_exec, slice_exec, starts_with, starts_with_exec, str_eq, string_of, strings_of, sviews, trim, trim_exec, trim_start, trim_start_exec, vviews};
use crate::urls::{abs_http_concat, abs_http_concat_exec};
use crate::words::{byte_pos, byte_pos_exec, lemma_utf8_len_bound, char_uppercase, split_char, split_char_exec, lemma_split_char_nonempty, uppercase_of, utf8_len, utf8_len_exec, words, words_exec};

verus! {

// ---------------------------------------------------------------------------
// Chapter titles and numbers
// ---------------------------------------------------------------------------
/// Inserts `label` before the number that follows the first `letter` of `s`.
/// The letter is found in the lowercased text, at byte offset `b`; the text
/// of `s` from byte `b + 1` on, with leading whitespace removed, must start
/// with a digit, and then `s` up to byte `b`, `label` and that text are
/// joined (the letter and the whitespace after it are dropped). Offsets are
/// taken in bytes on `s` as they were found in the lowercased text; where
/// one does not fall on a character boundary of `s`, the text is left as it
/// is.
pub open spec fn nu_mark(s: Seq<char>, letter: char, label: Seq<char>) -> Seq<char> {
    let lower = lowercase(s);
    match find(lower, seq![letter]) {
        Some(pos) => {
            let b = utf8_len(lower.take(pos)) as int;
            match byte_pos(s, b + 1) {
                Some(k1) => {
                    let after = trim_start(s.subrange(k1, s.len() as int));
                    if after.len() > 0 && is_digit(after[0]) {
                        match byte_pos(s, b) {
                            Some(k0) => s.take(k0) + label + after,
                            None => s,
                        }
                    } else {
                        s
                    }
                },
                None => s,
            }
        },
        None => s,
    }
}

/// `"part"`, `"Part"`, `"ss"` and `"SS"` set apart by spaces, in that order.
pub open spec fn nu_spread(p: Seq<char>) -> Seq<char> {
    replace(
        replace(replace(replace(p, "part"@, " Part "@), "Part"@, " Part "@), "ss"@, " SS "@),
        "SS"@,
        " SS "@,
    )
}

/// `w.eq_ignore_ascii_case("ss")`.
pub open spec fn is_ss(w: Seq<char>) -> bool {
    w.len() == 2 && (w[0] == 's' || w[0] == 'S') && (w[1] == 's' || w[1] == 'S')
}

/// A word with its first character uppercased; any spelling of `ss` becomes `SS`.
pub open spec fn cap_word(w: Seq<char>) -> Seq<char> {
    if is_ss(w) {
        "SS"@
    } else if w.len() == 0 {
        Seq::empty()
    } else {
        char_uppercase(w[0]) + w.subrange(1, w.len() as int)
    }
}

pub open spec fn cap_words(ws: Seq<Seq<char>>) -> Seq<Seq<char>> {
    ws.map_values(|w: Seq<char>| cap_word(w))
}

/// A readable chapter title from a NovelUpdates release name such as
/// `"v2c13 part1"`: `"v"` and `"c"` before a number become `"Volume "` and
/// `" Chapter "` (unless the name already starts with "chapter" or "volume",
/// in any case), "part" and "ss" are set apart, and every word is
/// capitalised. An empty result gives `"Chapter"`.
pub open spec fn nu_title(raw: Seq<char>) -> Seq<char> {
    let t = trim(raw);
    if t.len() == 0 {
        "Chapter"@
    } else {
        let lower = lowercase(t);
        let processed = if starts_with(lower, "chapter"@) || starts_with(lower, "volume"@) {
            t
        } else {
            nu_mark(nu_mark(t, 'v', "Volume "@), 'c', " Chapter "@)
        };
        let cap = join(cap_words(words(nu_spread(processed))), " "@);
        if cap.len() == 0 {
            "Chapter"@
        } else {
            cap
        }
    }
}

pub open spec fn not_digit_pred() -> spec_fn(char) -> bool {
    |c: char| !is_digit(c)
}

/// The first run of ASCII digits in `s` (empty when there is none).
pub open spec fn first_digit_run(s: Seq<char>) -> Seq<char> {
    digit_prefix(s.subrange(lead_count(s, not_digit_pred()) as int, s.len() as int))
}

/// The chapter number of a release name: the number right after its first
/// `c` (whitespace allowed between), else its first run of digits, else
/// `fallback`; a number that does not fit in `i32` does not count.
pub open spec fn nu_number(raw: Seq<char>, fallback: i32) -> i32 {
    let lower = lowercase(raw);
    let after_c = match find(lower, seq!['c']) {
        Some(p) => parse_i32(digit_prefix(trim_start(lower.subrange(p + 1, lower.len() as int)))),
        None => None,
    };
    match after_c {
        Some(n) => n,
        None => match parse_i32(first_digit_run(lower)) {
            Some(n) => n,
            None => fallback,
        },
    }
}

fn nu_mark_exec(s: &Vec<char>, letter: char, label: &str) -> (r: Vec<char>)
    ensures
        r@ == nu_mark(s@, letter, label@),
{
    let lower = lowercase_exec(s);
    let mut pat: Vec<char> = Vec::new();
    pat.push(letter);
    assert(pat@ =~= seq![letter]);
    match find_exec(&lower, &pat) {
        Some(pos) => {
            proof {
                lemma_find(lower@, pat@);
            }
            let head = slice_exec(&lower, 0, pos);
            assert(head@ =~= lower@.take(pos as int));
            let b = utf8_len_exec(&head);
            proof {
                lemma_utf8_len_bound(head@);
            }
            match byte_pos_exec(s, b + 1) {
                Some(k1) => {
                    let after = trim_start_exec(&slice_exec(s, k1, s.len()));
                    if after.len() > 0 && char_is_digit(after[0]) {
                        match byte_pos_exec(s, b) {
                            Some(k0) => {
                                let front = slice_exec(s, 0, k0);
                                assert(front@ =~= s@.take(k0 as int));
                                let h = concat2(&front, &chars_of(label));
                                concat2(&h, &after)
                            },
                            None => s.clone(),
                        }
                    } else {
                        s.clone()
                    }
                },
                None => s.clone(),
            }
        },
        None => s.clone(),
    }
}

fn nu_spread_exec(p: &Vec<char>) -> (r: Vec<char>)
    ensures
        r@ == nu_spread(p@),
{
    proof {
        reveal_strlit("part");
        reveal_strlit("Part");
        reveal_strlit("ss");
        reveal_strlit("SS");
    }
    let a = replace_exec(p, &lit("part"), &lit(" Part "));
    let b = replace_exec(&a, &lit("Part"), &lit(" Part "));
    let c = replace_exec(&b, &lit("ss"), &lit(" SS "));
    replace_exec(&c, &lit("SS"), &lit(" SS "))
}

fn cap_word_exec(w: &Vec<char>) -> (r: Vec<char>)
    ensures
        r@ == cap_word(w@),
{
    if w.len() == 2 && (w[0] == 's' || w[0] == 'S') && (w[1] == 's' || w[1] == 'S') {
        lit("SS")
    } else if w.len() == 0 {
        Vec::new()
    } else {
        let first = uppercase_of(w[0]);
        concat2(&first, &slice_exec(w, 1, w.len()))
    }
}

/// See [`nu_title`].
pub fn format_chapter_title(raw: &str) -> (r: String)
    ensures
        r@ == nu_title(raw@),
{
    string_of(&nu_title_exec(&chars_of(raw)))
}

/// See [`nu_title`].
pub fn nu_title_exec(raw: &Vec<char>) -> (r: Vec<char>)
    ensures
        r@ == nu_title(raw@),
{
    let t = trim_exec(raw);
    if t.len() == 0 {
        return lit("Chapter");
    }
    let lower = lowercase_exec(&t);
    let processed = if starts_with_exec(&lower, &lit("chapter")) || starts_with_exec(
        &lower,
        &lit("volume"),
    ) {
        t
    } else {
        let v = nu_mark_exec(&t, 'v', "Volume ");
        nu_mark_exec(&v, 'c', " Chapter ")
    };
    let ws = words_exec(&nu_spread_exec(&processed));
    let ghost expected = cap_words(words(nu_spread(processed@)));
    let mut caps: Vec<Vec<char>> = Vec::new();
    let mut i: usize = 0;
    while i < ws.len()
        invariant
            i <= ws@.len(),
            ws@.len() == words(nu_spread(processed@)).len(),
            forall|k: int| 0 <= k < ws@.len() ==> #[trigger] ws@[k]@ == words(nu_spread(processed@))[k],
            expected == cap_words(words(nu_spread(processed@))),
            caps@.len() == i,
            forall|k: int| 0 <= k < i ==> #[trigger] caps@[k]@ == expected[k],
        decreases ws@.len() - i,
    {
        let c = cap_word_exec(&ws[i]);
        caps.push(c);
        i += 1;
    }
    assert(vviews(caps@) =~= expected);
    let cap = join_exec(&caps, &lit(" "));
    if cap.len() == 0 {
        lit("Chapter")
    } else {
        cap
    }
}

fn first_digit_run_exec(s: &Vec<char>) -> (r: Vec<char>)
    ensures
        r@ == first_digit_run(s@),
{
    let mut i: usize = 0;
    while i < s.len() && !char_is_digit(s[i])
        invariant
            i <= s.len(),
            forall|j: int| 0 <= j < i ==> !is_digit(s@[j]),
        decreases s.len() - i,
    {
        i += 1;
    }
    proof {
        lemma_lead_count(s@, not_digit_pred(), i as int);
    }
    digit_prefix_exec(&slice_exec(s, i, s.len()))
}

/// See [`nu_number`].
pub fn extract_chapter_number(raw: &str, fallback: i32) -> (n: i32)
    ensures
        n == nu_number(raw@, fallback),
{
    nu_number_exec(&chars_of(raw), fallback)
}

/// See [`nu_number`].
pub fn nu_number_exec(raw: &Vec<char>, fallback: i32) -> (n: i32)
    ensures
        n == nu_number(raw@, fallback),
{
    let lower = lowercase_exec(raw);
    let mut pat: Vec<char> = Vec::new();
    pat.push('c');
    assert(pat@ =~= seq!['c']);
    let after_c = match find_exec(&lower, &pat) {
        Some(p) => {
            let n = lower.len();
            proof {
                lemma_find(lower@, pat@);
            }
            let rest = trim_start_exec(&slice_exec(&lower, p + 1, n));
            parse_i32_exec(&digit_prefix_exec(&rest))
        },
        None => None,
    };
    match after_c {
        Some(n) => n,
        None => match parse_i32_exec(&first_digit_run_exec(&lower)) {
            Some(n) => n,
            None => fallback,
        },
    }
}

// ---------------------------------------------------------------------------
// Novel lists
// ---------------------------------------------------------------------------
/// One result box of a search or ranking page: its first title link
/// (with `href`) and its first image (with the cover attributes).
pub struct NuRow {
    pub link: Option<Snap>,
    pub cover: Option<Snap>,
}

pub struct NuRowView {
    pub link: Option<SnapView>,
    pub cover: Option<SnapView>,
}

impl View for NuRow {
    type V = NuRowView;

    open spec fn view(&self) -> NuRowView {
        NuRowView { link: osnap(self.link), cover: osnap(self.cover) }
    }
}

pub open spec fn nu_rows_view(v: Seq<NuRow>) -> Seq<NuRowView> {
    v.map_values(|r: NuRow| r@)
}

/// Attributes that may hold a cover image, in the order they are tried.
pub open spec fn nu_cover_attrs() -> Seq<Seq<char>> {
    seq!["src"@, "data-src"@, "data-original"@, "data-cfsrc"@]
}

pub open spec fn nu_cover(base: Seq<char>, c: Option<SnapView>) -> Option<Seq<char>> {
    match c {
        Some(img) => match first_attr(img, nu_cover_attrs()) {
            Some(s) => Some(abs_http_concat(base, s)),
            None => None,
        },
        None => None,
    }
}

/// The URLs met so far, and the results kept.
pub struct NuListAcc {
    pub seen: Seq<Seq<char>>,
    pub out: Seq<SearchResultView>,
}

/// One result box: skipped without a link or `href`, or when its URL was met
/// before; otherwise its URL is remembered, and it is kept when its title and
/// URL are nonempty.
pub open spec fn nu_list_step(base: Seq<char>, acc: NuListAcc, row: NuRowView) -> NuListAcc {
    match row.link {
        None => acc,
        Some(l) => match sattr(l, "href"@) {
            None => acc,
            Some(href) => {
                let url = abs_http_concat(base, href);
                if acc.seen.contains(url) {
                    acc
                } else {
                    let title = ttext(l);
                    let seen = acc.seen.push(url);
                    if title.len() > 0 && url.len() > 0 {
                        NuListAcc {
                            seen,
                            out: acc.out.push(
                                SearchResultView {
                                    url,
                                    title,
                                    cover_url: nu_cover(base, row.cover),
                                    author: None,
                                },
                            ),
                        }
                    } else {
                        NuListAcc { seen, out: acc.out }
                    }
                }
            },
        },
    }
}

pub open spec fn nu_list_acc(base: Seq<char>, rows: Seq<NuRowView>) -> NuListAcc
    decreases rows.len(),
{
    if rows.len() == 0 {
        NuListAcc { seen: Seq::empty(), out: Seq::empty() }
    } else {
        nu_list_step(base, nu_list_acc(base, rows.drop_last()), rows.last())
    }
}

/// The novels of a list page.
pub open spec fn nu_list(base: Seq<char>, rows: Seq<NuRowView>) -> Seq<SearchResultView> {
    nu_list_acc(base, rows).out
}

/// Every kept URL was remembered, and the kept URLs are pairwise distinct.
proof fn lemma_nu_list_acc(base: Seq<char>, rows: Seq<NuRowView>)
    ensures
        forall|k: int|
            0 <= k < nu_list_acc(base, rows).out.len() ==> nu_list_acc(base, rows).seen.contains(
                #[trigger] nu_list_acc(base, rows).out[k].url,
            ),
        forall|i: int, j: int|
            0 <= i < j < nu_list_acc(base, rows).out.len() ==> nu_list_acc(base, rows).out[i].url
                != nu_list_acc(base, rows).out[j].url,
    decreases rows.len(),
{
    if rows.len() > 0 {
        let prev = nu_list_acc(base, rows.drop_last());
        lemma_nu_list_acc(base, rows.drop_last());
        let cur = nu_list_acc(base, rows);
        assert forall|k: int| 0 <= k < cur.out.len() implies cur.seen.contains(
            #[trigger] cur.out[k].url,
        ) by {
            if k < prev.out.len() {
                assert(cur.out[k] == prev.out[k]);
                assert(prev.seen.contains(prev.out[k].url));
                let w = choose|w: int| 0 <= w < prev.seen.len() && prev.seen[w] == prev.out[k].url;
                if cur.seen != prev.seen {
                    assert(cur.seen[w] == prev.seen[w]);
                }
            } else {
                assert(cur.seen.last() == cur.out[k].url);
            }
        }
    }
}

/// The novels of a list page have pairwise distinct URLs.
pub proof fn law_nu_list_distinct_urls(base: Seq<char>, rows: Seq<NuRowView>)
    ensures
        forall|i: int, j: int|
            0 <= i < j < nu_list(base, rows).len() ==> nu_list(base, rows)[i].url != nu_list(
                base,
                rows,
            )[j].url,
{
    lemma_nu_list_acc(base, rows);
}

/// The empty source struct; its methods take the site's base URL.
#[derive(Debug, Clone, Copy)]
pub struct NovelUpdatesSource;

fn nu_cover_exec(base: &Vec<char>, c: &Option<Snap>) -> (r: Option<Vec<char>>)
    ensures
        ov(r) == nu_cover(base@, osnap(*c)),
{
    match c {
        Some(img) => {
            let names = ["src", "data-src", "data-original", "data-cfsrc"];
            assert(strs(names@) =~= nu_cover_attrs());
            match first_attr_exec(img, &names) {
                Some(s) => Some(abs_http_concat_exec(base, &s)),
                None => None,
            }
        },
        None => None,
    }
}

impl NovelUpdatesSource {
    /// The novels of a list page (see [`nu_list`]).
    pub fn collect_novel_list(base_url: &str, rows: &Vec<NuRow>) -> (r: Vec<SearchResultDto>)
        ensures
            r.deep_view() == nu_list(base_url@, nu_rows_view(rows@)),
    {
        let base = chars_of(base_url);
        let ghost views = nu_rows_view(rows@);
        let mut seen: Vec<Vec<char>> = Vec::new();
        let mut out: Vec<SearchResultDto> = Vec::new();
        let mut i: usize = 0;
        proof {
            assert(views.take(0) =~= Seq::<NuRowView>::empty());
            assert(vviews(seen@) =~= Seq::<Seq<char>>::empty());
            assert(out.deep_view() =~= Seq::<SearchResultView>::empty());
        }
        while i < rows.len()
            invariant
                i <= rows.len(),
                base@ == base_url@,
                views == nu_rows_view(rows@),
                vviews(seen@) == nu_list_acc(base@, views.take(i as int)).seen,
                out.deep_view() == nu_list_acc(base@, views.take(i as int)).out,
            decreases rows.len() - i,
        {
            proof {
                let t = views.take(i + 1);
                assert(t.drop_last() =~= views.take(i as int));
                assert(t.last() == rows@[i as int]@);
            }
            let row = &rows[i];
            match &row.link {
                None => {},
                Some(l) => match l.get_attr("href") {
                    None => {},
                    Some(href) => {
                        let url = abs_http_concat_exec(&base, &href);
                        if !contains_text(&seen, &url) {
                            let title = l.trimmed();
                            let ghost before = vviews(seen@);
                            seen.push(url.clone());
                            assert(vviews(seen@) =~= before.push(url@));
                            if title.len() > 0 && url.len() > 0 {
                                let cover = nu_cover_exec(&base, &row.cover);
                                let ghost out_before = out.deep_view();
                                let item = SearchResultDto {
                                    url: string_of(&url),
                                    title: string_of(&title),
                                    cover_url: opt_string(cover),
                                    author: None,
                                };
                                out.push(item);
                                assert(out.deep_view() =~= out_before.push(item.deep_view()));
                            }
                        }
                    },
                },
            }
            i += 1;
        }
        assert(views.take(rows.len() as int) =~= views);
        out
    }

    /// Reads a search or ranking page. An invalid item, title or cover
    /// selector is an error (the first such one).
    pub fn parse_novel_list(page_html: &str, base_url: &str) -> (r: Result<Vec<SearchResultDto>, String>)
        ensures
            match r {
                Err(e) => first_selector_error(nu_list_selectors()) == Some(e@),
                Ok(v) => first_selector_error(nu_list_selectors()) is None && v.deep_view() == nu_list(
                    base_url@,
                    nu_rows(root(page_html@, false)),
                ),
            },
    {
        let texts = [
            "div.search_main_box_nu, div.w-blog-entry",
            ".search_title > a, .w-blog-entry-title a, h2 a",
            ".search_img_nu img, .w-blog-entry-thumbnail img, img",
        ];
        assert(strs(texts@) =~= nu_list_selectors());
        let sels = match compile_all(&texts) {
            Ok(v) => v,
            Err(e) => return Err(e),
        };
        let page = parse_document(page_html);
        let doc = &page;
        let ghost pn = page_node(doc);
        let ghost want = nu_rows(pn);
        let href: &[&str] = &["href"];
        let img: &[&str] = &["src", "data-src", "data-original", "data-cfsrc"];
        proof {
            assert(strs(href@) =~= seq!["href"@]);
            assert(strs(img@) =~= nu_cover_attrs());
            assert(sels@[0].text() == nu_list_selectors()[0]);
        }
        let items = select_all(doc, &sels[0]);
        let mut rows: Vec<NuRow> = Vec::new();
        let mut i: usize = 0;
        while i < items.len()
            invariant
                i <= items@.len(),
                sels@.len() == 3,
                items@.len() == want.len(),
                want == nu_rows(pn),
                forall|k: int| 0 <= k < 3 ==> (#[trigger] sels@[k]).text() == nu_list_selectors()[k],
                strs(href@) == seq!["href"@],
                strs(img@) == nu_cover_attrs(),
                forall|k: int| 0 <= k < items@.len() ==> (#[trigger] items@[k]).node() == child(pn, nu_list_selectors()[0], k),
                rows@.len() == i,
                forall|k: int| 0 <= k < i ==> (#[trigger] rows@[k])@ == want[k],
            decreases items@.len() - i,
        {
            proof {
                assert(sels@[1].text() == nu_list_selectors()[1]);
                assert(sels@[2].text() == nu_list_selectors()[2]);
            }
            rows.push(
                NuRow {
                    link: first_in(&items[i], &sels[1], href),
                    cover: first_in(&items[i], &sels[2], img),
                },
            );
            i += 1;
        }
        assert(nu_rows_view(rows@) =~= want);
        Ok(Self::collect_novel_list(base_url, &rows))
    }
}

/// The rows of a list page under `n`: for each row, its first title link
/// (with its `href`) and its first image.
pub open spec fn nu_rows(n: NodeRef) -> Seq<NuRowView> {
    let sels = nu_list_selectors();
    Seq::new(
        count_in(n, sels[0]),
        |i: int|
            NuRowView {
                link: select_first(child(n, sels[0], i), sels[1], seq!["href"@]),
                cover: select_first(child(n, sels[0], i), sels[2], nu_cover_attrs()),
            },
    )
}

/// Selectors of a list page: result boxes, title links, cover images.
pub open spec fn nu_list_selectors() -> Seq<Seq<char>> {
    seq![
        "div.search_main_box_nu, div.w-blog-entry"@,
        ".search_title > a, .w-blog-entry-title a, h2 a"@,
        ".search_img_nu img, .w-blog-entry-thumbnail img, img"@,
    ]
}

// ---------------------------------------------------------------------------
// Chapter lists
// ---------------------------------------------------------------------------
/// One entry of the chapter list: its links (with `href`), in order, and
/// the entry itself (for its text).
pub struct NuChapterRow {
    pub links: Vec<Snap>,
    pub item: Snap,
}

pub struct NuChapterRowView {
    pub links: Seq<SnapView>,
    pub item: SnapView,
}

/// The rows of a chapter-list response under `n`: each `li.sp_li_chp`
/// element, with its links (and their `href`).
pub open spec fn nu_chapter_rows(n: NodeRef) -> Seq<NuChapterRowView> {
    Seq::new(
        count_in(n, "li.sp_li_chp"@),
        |i: int|
            NuChapterRowView {
                links: select_snaps(child(n, "li.sp_li_chp"@, i), "a"@, seq!["href"@]),
                item: node_snap(child(n, "li.sp_li_chp"@, i), Seq::empty()),
            },
    )
}

impl View for NuChapterRow {
    type V = NuChapterRowView;

    open spec fn view(&self) -> NuChapterRowView {
        NuChapterRowView { links: snap_views(self.links@), item: self.item@ }
    }
}

pub open spec fn nu_chapter_rows_view(v: Seq<NuChapterRow>) -> Seq<NuChapterRowView> {
    v.map_values(|r: NuChapterRow| r@)
}

/// The link leads through the aggregator's redirect (`/extnu/`).
pub open spec fn has_extnu(a: SnapView) -> bool {
    match sattr(a, "href"@) {
        Some(h) => contains(h, "/extnu/"@),
        None => false,
    }
}

/// Position of the first redirect link.
pub open spec fn extnu_index(links: Seq<SnapView>) -> Option<int>
    decreases links.len(),
{
    if links.len() == 0 {
        None
    } else {
        match extnu_index(links.drop_last()) {
            Some(k) => Some(k),
            None => if has_extnu(links.last()) {
                Some(links.len() - 1)
            } else {
                None
            },
        }
    }
}

/// The chapter link of an entry: the first redirect link, else the second
/// link, else the first.
pub open spec fn nu_pick(links: Seq<SnapView>) -> int {
    match extnu_index(links) {
        Some(k) => k,
        None => if links.len() >= 2 {
            1
        } else {
            0
        },
    }
}

/// Absolute chapter URL: `//` links get `https:`, rooted links the base,
/// `http://` and `https://` links stay, other links get the base and a slash.
pub open spec fn nu_chapter_url(base: Seq<char>, href: Seq<char>) -> Seq<char> {
    if starts_with(href, "//"@) {
        "https:"@ + href
    } else if starts_with(href, "/"@) {
        base + href
    } else if starts_with(href, "http://"@) || starts_with(href, "https://"@) {
        href
    } else {
        base + "/"@ + href
    }
}

/// A chapter before numbering: URL, title, release name, translator group.
pub struct NuRawChapter {
    pub url: Seq<char>,
    pub title: Seq<char>,
    pub raw_name: Seq<char>,
    pub scanlation: Option<Seq<char>>,
}

/// The chapter of an entry: none without links, or when the chapter link
/// has no `href` or an empty one (trimmed). The release name is the link's
/// text, else the entry's; the group is the first link's text when the
/// chapter link is another one.
pub open spec fn nu_raw_chapter(base: Seq<char>, row: NuChapterRowView) -> Option<NuRawChapter> {
    if row.links.len() == 0 {
        None
    } else {
        let k = nu_pick(row.links);
        let a = row.links[k];
        match sattr(a, "href"@) {
            None => None,
            Some(h) => {
                let href = trim(h);
                if href.len() == 0 {
                    None
                } else {
                    let link_text = ttext(a);
                    let raw_name = if link_text.len() > 0 {
                        link_text
                    } else {
                        ttext(row.item)
                    };
                    let scanlation = if row.links.len() >= 2 && k != 0 {
                        let g = ttext(row.links[0]);
                        if g.len() > 0 {
                            Some(g)
                        } else {
                            None
                        }
                    } else {
                        None
                    };
                    Some(
                        NuRawChapter {
                            url: nu_chapter_url(base, href),
                            title: nu_title(raw_name),
                            raw_name,
                            scanlation,
                        },
                    )
                }
            },
        }
    }
}

/// Chapter `i` of the oldest-first list: numbered from its release name,
/// else `i + 1`.
pub open spec fn nu_numbered(i: int, c: NuRawChapter) -> ChapterView {
    ChapterView {
        url: c.url,
        title: c.title,
        index: nu_number(c.raw_name, (i + 1) as i32),
        release_date: None,
        scanlation: c.scanlation,
    }
}

pub open spec fn nu_raw_chapters(base: Seq<char>, rows: Seq<NuChapterRowView>) -> Seq<NuRawChapter> {
    filter_some(rows.map_values(|r: NuChapterRowView| nu_raw_chapter(base, r)))
}

/// The chapters of the chapter list: the site lists them newest first, so
/// they are reversed before numbering.
pub open spec fn nu_chapters(base: Seq<char>, rows: Seq<NuChapterRowView>) -> Seq<ChapterView> {
    nu_raw_chapters(base, rows).reverse().map(|i: int, c: NuRawChapter| nu_numbered(i, c))
}

/// Exec form of [`NuRawChapter`].
pub struct NuChapterParts {
    pub url: Vec<char>,
    pub title: Vec<char>,
    pub raw_name: Vec<char>,
    pub scanlation: Option<Vec<char>>,
}

impl View for NuChapterParts {
    type V = NuRawChapter;

    open spec fn view(&self) -> NuRawChapter {
        NuRawChapter {
            url: self.url@,
            title: self.title@,
            raw_name: self.raw_name@,
            scanlation: ov(self.scanlation),
        }
    }
}

pub open spec fn parts_view(v: Seq<NuChapterParts>) -> Seq<NuRawChapter> {
    v.map_values(|p: NuChapterParts| p@)
}

fn has_extnu_exec(a: &Snap) -> (b: bool)
    ensures
        b == has_extnu(a@),
{
    match a.get_attr("href") {
        Some(h) => contains_exec(&h, &lit("/extnu/")),
        None => false,
    }
}

fn nu_pick_exec(links: &Vec<Snap>) -> (k: usize)
    requires
        links@.len() > 0,
    ensures
        k == nu_pick(snap_views(links@)),
        k < links@.len(),
{
    let ghost views = snap_views(links@);
    let mut i: usize = 0;
    assert(views.take(0) =~= Seq::<SnapView>::empty());
    while i < links.len()
        invariant
            i <= links@.len(),
            views == snap_views(links@),
            extnu_index(views.take(i as int)) is None,
        decreases links@.len() - i,
    {
        proof {
            let t = views.take(i + 1);
            assert(t.drop_last() =~= views.take(i as int));
            assert(t.last() == links@[i as int]@);
        }
        if has_extnu_exec(&links[i]) {
            proof {
                lemma_extnu_prefix(views, i as int + 1);
            }
            return i;
        }
        i += 1;
    }
    assert(views.take(links.len() as int) =~= views);
    if links.len() >= 2 {
        1
    } else {
        0
    }
}

/// A redirect link found in a prefix is the first one of the whole list.
proof fn lemma_extnu_prefix(links: Seq<SnapView>, n: int)
    requires
        0 <= n <= links.len(),
        extnu_index(links.take(n)) is Some,
    ensures
        extnu_index(links) == extnu_index(links.take(n)),
    decreases links.len() - n,
{
    if n < links.len() {
        let t = links.take(n + 1);
        assert(t.drop_last() =~= links.take(n));
        lemma_extnu_prefix(links, n + 1);
    } else {
        assert(links.take(n) =~= links);
    }
}

fn nu_chapter_url_exec(base: &Vec<char>, href: &Vec<char>) -> (r: Vec<char>)
    ensures
        r@ == nu_chapter_url(base@, href@),
{
    if starts_with_exec(href, &lit("//")) {
        concat2(&lit("https:"), href)
    } else if starts_with_exec(href, &lit("/")) {
        concat2(base, href)
    } else if starts_with_exec(href, &lit("http://")) || starts_with_exec(href, &lit("https://")) {
        href.clone()
    } else {
        let mut u = base.clone();
        u.push('/');
        proof {
            reveal_strlit("/");
        }
        concat2(&u, href)
    }
}

fn nu_raw_chapter_exec(base: &Vec<char>, row: &NuChapterRow) -> (r: Option<NuChapterParts>)
    ensures
        match r {
            Some(p) => nu_raw_chapter(base@, row@) == Some(p@),
            None => nu_raw_chapter(base@, row@) is None,
        },
{
    if row.links.len() == 0 {
        return None;
    }
    let k = nu_pick_exec(&row.links);
    let a = &row.links[k];
    assert(snap_views(row.links@)[k as int] == a@);
    match a.get_attr("href") {
        None => None,
        Some(h) => {
            let href = trim_exec(&h);
            if href.len() == 0 {
                None
            } else {
                let link_text = a.trimmed();
                let raw_name = if link_text.len() > 0 {
                    link_text
                } else {
                    row.item.trimmed()
                };
                let scanlation = if row.links.len() >= 2 && k != 0 {
                    let g = row.links[0].trimmed();
                    assert(snap_views(row.links@)[0] == row.links@[0]@);
                    if g.len() > 0 {
                        Some(g)
                    } else {
                        None
                    }
                } else {
                    None
                };
                let title = nu_title_exec(&raw_name);
                Some(
                    NuChapterParts {
                        url: nu_chapter_url_exec(base, &href),
                        title,
                        raw_name,
                        scanlation,
                    },
                )
            }
        },
    }
}

impl NovelUpdatesSource {
    /// The chapters of the chapter list (see [`nu_chapters`]).
    pub fn assemble_chapters(base_url: &str, rows: &Vec<NuChapterRow>) -> (r: Vec<ChapterDto>)
        ensures
            r.deep_view() == nu_chapters(base_url@, nu_chapter_rows_view(rows@)),
    {
        let base = chars_of(base_url);
        let ghost mapped = nu_chapter_rows_view(rows@).map_values(
            |r: NuChapterRowView| nu_raw_chapter(base@, r),
        );
        let mut raws: Vec<NuChapterParts> = Vec::new();
        let mut i: usize = 0;
        while i < rows.len()
            invariant
                i <= rows.len(),
                base@ == base_url@,
                mapped == nu_chapter_rows_view(rows@).map_values(
                    |r: NuChapterRowView| nu_raw_chapter(base@, r),
                ),
                parts_view(raws@) == filter_some(mapped.take(i as int)),
            decreases rows.len() - i,
        {
            proof {
                lemma_filter_some_step(mapped, i as int);
            }
            let c = nu_raw_chapter_exec(&base, &rows[i]);
            match c {
                Some(x) => {
                    let ghost before = parts_view(raws@);
                    raws.push(x);
                    assert(parts_view(raws@) =~= before.push(x@));
                },
                None => {},
            }
            i += 1;
        }
        assert(mapped.take(rows.len() as int) =~= mapped);
        let ghost rev = parts_view(raws@).reverse();
        let n = raws.len();
        let mut out: Vec<ChapterDto> = Vec::new();
        let mut j: usize = 0;
        while j < n
            invariant
                j <= n,
                n == raws@.len(),
                rev == parts_view(raws@).reverse(),
                out@.len() == j,
                forall|k: int| 0 <= k < j ==> #[trigger] out@[k].deep_view() == nu_numbered(k, rev[k]),
            decreases n - j,
        {
            let p = &raws[n - 1 - j];
            assert(rev[j as int] == p@);
            let index = nu_number_exec(&p.raw_name, #[verifier::truncate] ((j + 1) as i32));
            let sc = match &p.scanlation {
                Some(g) => Some(string_of(g)),
                None => None,
            };
            out.push(
                ChapterDto {
                    url: string_of(&p.url),
                    title: string_of(&p.title),
                    index,
                    release_date: None,
                    scanlation: sc,
                },
            );
            j += 1;
        }
        assert(out.deep_view() =~= nu_chapters(base_url@, nu_chapter_rows_view(rows@)));
        out
    }

    /// Reads the chapter-list HTML that the site's AJAX call returns. When
    /// either selector does not parse, there are no chapters.
    pub fn parse_chapters(html: &str, base_url: &str) -> (r: Vec<ChapterDto>)
        ensures
            (selector_parse_error("li.sp_li_chp"@) is Some || selector_parse_error("a"@) is Some)
                ==> r@.len() == 0,
            (selector_parse_error("li.sp_li_chp"@) is None && selector_parse_error("a"@) is None)
                ==> r.deep_view() == nu_chapters(base_url@, nu_chapter_rows(root(html@, true))),
    {
        let li_sel = match compile_selector("li.sp_li_chp") {
            Ok(s) => s,
            Err(_) => return Vec::new(),
        };
        let a_sel = match compile_selector("a") {
            Ok(s) => s,
            Err(_) => return Vec::new(),
        };
        let doc = parse_fragment(html);
        let ghost pn = page_node(&doc);
        let ghost want = nu_chapter_rows(pn);
        let none: &[&str] = &[];
        let href: &[&str] = &["href"];
        proof {
            assert(strs(none@) =~= Seq::<Seq<char>>::empty());
            assert(strs(href@) =~= seq!["href"@]);
        }
        let items = select_all(&doc, &li_sel);
        let mut rows: Vec<NuChapterRow> = Vec::new();
        let mut i: usize = 0;
        while i < items.len()
            invariant
                i <= items@.len(),
                items@.len() == want.len(),
                want == nu_chapter_rows(pn),
                li_sel.text() == "li.sp_li_chp"@,
                a_sel.text() == "a"@,
                strs(none@) == Seq::<Seq<char>>::empty(),
                strs(href@) == seq!["href"@],
                forall|k: int| 0 <= k < items@.len() ==> (#[trigger] items@[k]).node() == child(pn, li_sel.text(), k),
                rows@.len() == i,
                forall|k: int| 0 <= k < i ==> (#[trigger] rows@[k])@ == want[k],
            decreases items@.len() - i,
        {
            rows.push(
                NuChapterRow {
                    links: crate::snap::all_in(&items[i], &a_sel, href),
                    item: snap_of(&items[i], none),
                },
            );
            i += 1;
        }
        assert(rows@.map_values(|r: NuChapterRow| r@) =~= want);
        Self::assemble_chapters(base_url, &rows)
    }
}

// ---------------------------------------------------------------------------
// Novel page
// ---------------------------------------------------------------------------
/// What was read of a novel page (the first matching element of each
/// selector, all authors and genres).
pub struct NuDetailsRaw {
    pub title: Option<Snap>,
    pub cover: Option<Snap>,
    pub novel_type: Option<Snap>,
    pub description: Option<Snap>,
    pub authors: Vec<Snap>,
    pub genres: Vec<Snap>,
    pub status: Option<Snap>,
    pub post_id: Option<Snap>,
}

pub struct NuDetailsRawView {
    pub title: Option<SnapView>,
    pub cover: Option<SnapView>,
    pub novel_type: Option<SnapView>,
    pub description: Option<SnapView>,
    pub authors: Seq<SnapView>,
    pub genres: Seq<SnapView>,
    pub status: Option<SnapView>,
    pub post_id: Option<SnapView>,
}

impl View for NuDetailsRaw {
    type V = NuDetailsRawView;

    open spec fn view(&self) -> NuDetailsRawView {
        NuDetailsRawView {
            title: osnap(self.title),
            cover: osnap(self.cover),
            novel_type: osnap(self.novel_type),
            description: osnap(self.description),
            authors: snap_views(self.authors@),
            genres: snap_views(self.genres@),
            status: osnap(self.status),
            post_id: osnap(self.post_id),
        }
    }
}

/// What the library makes of a novel page.
pub struct NuDetails {
    pub title: String,
    pub author: Option<String>,
    pub cover_url: Option<String>,
    pub description: Option<String>,
    pub genres: Vec<String>,
    pub status: Option<String>,
    pub post_id: String,
}

pub struct NuDetailsView {
    pub title: Seq<char>,
    pub author: Option<Seq<char>>,
    pub cover_url: Option<Seq<char>>,
    pub description: Option<Seq<char>>,
    pub genres: Seq<Seq<char>>,
    pub status: Option<Seq<char>>,
    pub post_id: Seq<char>,
}

impl View for NuDetails {
    type V = NuDetailsView;

    open spec fn view(&self) -> NuDetailsView {
        NuDetailsView {
            title: self.title@,
            author: os(self.author),
            cover_url: os(self.cover_url),
            description: os(self.description),
            genres: sviews(self.genres@),
            status: os(self.status),
            post_id: self.post_id@,
        }
    }
}

/// The message given when a novel page has no post id.
pub open spec fn nu_missing_post_id() -> Seq<char> {
    "Could not find 'mypostid' on NovelUpdates. Please open the novel in Webview once to authenticate/bypass protection."@
}

/// Description: the description element's text nodes joined by newlines and
/// trimmed; a nonempty novel type is added as `"Type: ..."` after a blank
/// line, or alone when there is no description element.
pub open spec fn nu_description(desc: Option<SnapView>, novel_type: Option<SnapView>) -> Option<Seq<char>> {
    let d = match desc {
        Some(e) => Some(trim(join(e.texts, "\n"@))),
        None => None,
    };
    let nt = match novel_type {
        Some(t) => if ttext(t).len() > 0 {
            Some(ttext(t))
        } else {
            None
        },
        None => None,
    };
    match nt {
        Some(t) => match d {
            Some(x) => Some(x + "\n\nType: "@ + t),
            None => Some("Type: "@ + t),
        },
        None => d,
    }
}

/// Status: `"Ongoing"` when the status text says so, else `"Completed"`.
pub open spec fn nu_status(st: Option<SnapView>) -> Option<Seq<char>> {
    match st {
        Some(e) => Some(
            if contains(stext(e), "Ongoing"@) {
                "Ongoing"@
            } else {
                "Completed"@
            },
        ),
        None => None,
    }
}

/// Authors: the nonempty trimmed author texts joined by `", "`, if any.
pub open spec fn nu_authors(els: Seq<SnapView>) -> Option<Seq<char>> {
    if nonempty_texts(els).len() == 0 {
        None
    } else {
        Some(join(nonempty_texts(els), ", "@))
    }
}

/// What a read novel page gives: an error when it has no post id (the
/// `value` of `input#mypostid`).
pub open spec fn nu_details(base: Seq<char>, raw: NuDetailsRawView) -> Result<NuDetailsView, Seq<char>> {
    let post_id = match raw.post_id {
        Some(e) => sattr(e, "value"@),
        None => None,
    };
    match post_id {
        None => Err(nu_missing_post_id()),
        Some(id) => Ok(
            NuDetailsView {
                title: match raw.title {
                    Some(t) => ttext(t),
                    None => "Untitled"@,
                },
                author: nu_authors(raw.authors),
                cover_url: match raw.cover {
                    Some(img) => match sattr(img, "src"@) {
                        Some(s) => Some(abs_http_concat(base, s)),
                        None => None,
                    },
                    None => None,
                },
                description: nu_description(raw.description, raw.novel_type),
                genres: nonempty_texts(raw.genres),
                status: nu_status(raw.status),
                post_id: id,
            },
        ),
    }
}

pub open spec fn nu_details_view(r: Result<NuDetails, String>) -> Result<NuDetailsView, Seq<char>> {
    match r {
        Ok(d) => Ok(d@),
        Err(e) => Err(e@),
    }
}

/// Selectors of a novel page that must parse, in the order they are compiled:
/// title, description, cover, authors, genres, status.
/// What is read of the novel page parsed from `src`.
pub open spec fn nu_details_raw(src: Seq<char>) -> NuDetailsRawView {
    let pn = root(src, false);
    let sels = nu_detail_selectors();
    NuDetailsRawView {
        title: select_first(pn, sels[0], Seq::empty()),
        cover: select_first(pn, sels[2], seq!["src"@]),
        novel_type: if sel_ok("#showtype"@) {
            select_first(pn, "#showtype"@, Seq::empty())
        } else {
            None
        },
        description: select_first(pn, sels[1], Seq::empty()),
        authors: select_snaps(pn, sels[3], Seq::empty()),
        genres: select_snaps(pn, sels[4], Seq::empty()),
        status: select_first(pn, sels[5], Seq::empty()),
        post_id: select_first(pn, "input#mypostid"@, seq!["value"@]),
    }
}

pub open spec fn nu_detail_selectors() -> Seq<Seq<char>> {
    seq![".seriestitlenu"@, "#editdescription"@, ".wpb_wrapper img"@, "#authtag"@, "#seriesgenre a"@, "#editstatus"@]
}

/// The chapter-list request: a form POST to `{base}/wp-admin/admin-ajax.php`
/// asking for the chapters of the post, with the novel page as `Referer`.
pub open spec fn nu_chapters_request(base: Seq<char>, novel_url: Seq<char>, post_id: Seq<char>) -> RequestView {
    RequestView {
        headers: seq![
            ("Content-Type"@, "application/x-www-form-urlencoded"@),
            ("Referer"@, novel_url),
        ],
        ..post_spec(
            base + "/wp-admin/admin-ajax.php"@,
            "action=nd_getchapters&mygrr=0&mypostid="@ + post_id,
        )
    }
}

fn nu_description_exec(desc: &Option<Snap>, novel_type: &Option<Snap>) -> (r: Option<Vec<char>>)
    ensures
        ov(r) == nu_description(osnap(*desc), osnap(*novel_type)),
{
    let d = match desc {
        Some(e) => Some(trim_exec(&join_exec(&e.texts, &lit("\n")))),
        None => None,
    };
    let nt = match novel_type {
        Some(t) => {
            let x = t.trimmed();
            if x.len() > 0 {
                Some(x)
            } else {
                None
            }
        },
        None => None,
    };
    match nt {
        Some(t) => match d {
            Some(x) => Some(concat2(&concat2(&x, &lit("\n\nType: ")), &t)),
            None => Some(concat2(&lit("Type: "), &t)),
        },
        None => d,
    }
}

impl NovelUpdatesSource {
    /// What the library makes of a read novel page (see [`nu_details`]).
    pub fn assemble_details(base_url: &str, raw: &NuDetailsRaw) -> (r: Result<NuDetails, String>)
        ensures
            nu_details_view(r) == nu_details(base_url@, raw@),
    {
        let base = chars_of(base_url);
        let post_id = match &raw.post_id {
            Some(e) => e.get_attr("value"),
            None => None,
        };
        let id = match post_id {
            None => {
                return Err(
                    String::from_str(
                        "Could not find 'mypostid' on NovelUpdates. Please open the novel in Webview once to authenticate/bypass protection.",
                    ),
                )
            },
            Some(v) => v,
        };
        let title = match &raw.title {
            Some(t) => t.trimmed(),
            None => lit("Untitled"),
        };
        let authors = nonempty_texts_exec(&raw.authors);
        let author = if authors.len() == 0 {
            None
        } else {
            Some(join_exec(&authors, &lit(", ")))
        };
        let cover_url = match &raw.cover {
            Some(img) => match img.get_attr("src") {
                Some(s) => Some(abs_http_concat_exec(&base, &s)),
                None => None,
            },
            None => None,
        };
        let status = match &raw.status {
            Some(e) => Some(
                if contains_exec(&e.text(), &lit("Ongoing")) {
                    lit("Ongoing")
                } else {
                    lit("Completed")
                },
            ),
            None => None,
        };
        let genres = nonempty_texts_exec(&raw.genres);
        Ok(
            NuDetails {
                title: string_of(&title),
                author: opt_string(author),
                cover_url: opt_string(cover_url),
                description: opt_string(nu_description_exec(&raw.description, &raw.novel_type)),
                genres: strings_of(&genres),
                status: opt_string(status),
                post_id: string_of(&id),
            },
        )
    }

    /// Reads a novel page. An invalid title, description, cover, author,
    /// genre, status or post-id selector is an error (the first such one); a
    /// novel type selector that does not parse is skipped.
    pub fn get_novel_details(page_html: &str, base_url: &str) -> (r: Result<NuDetails, String>)
        ensures
            first_selector_error(nu_detail_selectors()) is Some ==> r == Err::<NuDetails, String>(
                r->Err_0,
            ) && Some(r->Err_0@) == first_selector_error(nu_detail_selectors()),
            first_selector_error(nu_detail_selectors()) is None ==> (
            selector_parse_error("input#mypostid"@) is Some ==> r is Err && Some(r->Err_0@)
                == selector_parse_error("input#mypostid"@)),
            first_selector_error(nu_detail_selectors()) is None && selector_parse_error(
                "input#mypostid"@,
            ) is None ==> nu_details_view(r) == nu_details(base_url@, nu_details_raw(page_html@)),
    {
        let texts = [
            ".seriestitlenu",
            "#editdescription",
            ".wpb_wrapper img",
            "#authtag",
            "#seriesgenre a",
            "#editstatus",
        ];
        assert(strs(texts@) =~= nu_detail_selectors());
        let sels = match compile_all(&texts) {
            Ok(v) => v,
            Err(e) => return Err(e),
        };
        let id_sel = match compile_selector("input#mypostid") {
            Ok(s) => s,
            Err(e) => return Err(e),
        };
        let page = parse_document(page_html);
        let doc = &page;
        let none: &[&str] = &[];
        let src: &[&str] = &["src"];
        let value: &[&str] = &["value"];
        proof {
            assert(strs(none@) =~= Seq::<Seq<char>>::empty());
            assert(strs(src@) =~= seq!["src"@]);
            assert(strs(value@) =~= seq!["value"@]);
            assert(sels@[0].text() == nu_detail_selectors()[0]);
            assert(sels@[1].text() == nu_detail_selectors()[1]);
            assert(sels@[2].text() == nu_detail_selectors()[2]);
            assert(sels@[3].text() == nu_detail_selectors()[3]);
            assert(sels@[4].text() == nu_detail_selectors()[4]);
            assert(sels@[5].text() == nu_detail_selectors()[5]);
        }
        let novel_type = match opt_first_of(doc, "#showtype", none) {
            Some(t) => t,
            None => None,
        };
        let raw = NuDetailsRaw {
            title: first_of(doc, &sels[0], none),
            cover: first_of(doc, &sels[2], src),
            novel_type,
            description: first_of(doc, &sels[1], none),
            authors: all_of(doc, &sels[3], none),
            genres: all_of(doc, &sels[4], none),
            status: first_of(doc, &sels[5], none),
            post_id: first_of(doc, &id_sel, value),
        };
        assert(raw@ == nu_details_raw(page_html@));
        Self::assemble_details(base_url, &raw)
    }

    /// The chapter-list request of a novel (see [`nu_chapters_request`]).
    pub fn chapters_request(base_url: &str, novel_url: &str, post_id: &str) -> (r: Request)
        ensures
            r@ == nu_chapters_request(base_url@, novel_url@, post_id@),
    {
        let url = concat2(&chars_of(base_url), &lit("/wp-admin/admin-ajax.php"));
        let body = concat2(&lit("action=nd_getchapters&mygrr=0&mypostid="), &chars_of(post_id));
        let r = post_request(&url, &body);
        let r = with_header(r, "Content-Type", &lit("application/x-www-form-urlencoded"));
        let r = with_header(r, "Referer", &chars_of(novel_url));
        assert(r@.headers =~= nu_chapters_request(base_url@, novel_url@, post_id@).headers);
        r
    }

    /// The novel: the page's details with the given chapters.
    pub fn finish_details(novel_url: &str, d: NuDetails, chapters: Vec<ChapterDto>) -> (n: NovelDto)
        ensures
            n.deep_view() == (NovelView {
                url: novel_url@,
                title: d@.title,
                author: d@.author,
                cover_url: d@.cover_url,
                description: d@.description,
                status: d@.status,
                genres: d@.genres,
                chapters: chapters.deep_view(),
            }),
            n.extra@ == Map::<String, String>::empty(),
    {
        let n = NovelDto {
            url: String::from_str(novel_url),
            title: d.title,
            author: d.author,
            cover_url: d.cover_url,
            description: d.description,
            status: d.status,
            genres: d.genres,
            chapters,
            extra: std::collections::HashMap::new(),
        };
        assert(n.genres.deep_view() =~= d@.genres);
        n
    }
}

// ---------------------------------------------------------------------------
// Chapter pages
// ---------------------------------------------------------------------------
/// Selectors tried in turn for the chapter text on translator sites.
pub open spec fn nu_content_selectors() -> Seq<Seq<char>> {
    seq![
        ".chapter__content"@,
        ".entry-content"@,
        ".text_story"@,
        ".post-content"@,
        ".contenta"@,
        ".single_post"@,
        ".main-content"@,
        ".reader-content"@,
        "#chapter-content"@,
        ".chapter-text"@,
        ".content-wrapper"@,
        "#content"@,
        "#the-content"@,
        "article.post"@,
        ".chp_raw"@,
        ".post-body"@,
        ".content-post"@,
        ".halChap--kontenInner"@,
        "[data-tag='post-card']"@,
        "[data-reader-article='true']"@,
        "[data-reader-article]"@,
    ]
}

/// The text of the page's first `title` element, when there is one.
pub open spec fn nu_page_title(src: Seq<char>) -> Option<Seq<char>> {
    if sel_ok("title"@) {
        match select_first(root(src, false), "title"@, Seq::empty()) {
            Some(t) => Some(stext(t)),
            None => None,
        }
    } else {
        None
    }
}

/// The candidate chapter texts of a translator's page: the inner HTML of the
/// first match of each content selector, in order.
pub open spec fn nu_page_cands(src: Seq<char>) -> Seq<Option<Seq<char>>> {
    nu_content_selectors().map_values(|s: Seq<char>| crate::content::page_inner(src, s))
}

/// The page title shows a bot check (Cloudflare, captcha...).
pub open spec fn nu_blocked(title: Option<Seq<char>>) -> bool {
    match title {
        Some(t) => {
            let l = lowercase(t);
            contains(l, "just a moment"@) || contains(l, "bot verification"@) || contains(
                l,
                "attention required"@,
            ) || contains(l, "captcha"@) || contains(l, "un instant"@)
        },
        None => false,
    }
}

pub open spec fn nu_blocked_message() -> Seq<char> {
    "Cloudflare/Captcha detected. Please open in Webview to verify."@
}

/// Chapter HTML counts when, trimmed, it is longer than 50 bytes.
pub open spec fn long_enough(c: Seq<char>) -> bool {
    utf8_len(trim(c)) > 50
}

/// The first candidate that counts.
pub open spec fn nu_first_long(cands: Seq<Option<Seq<char>>>) -> Option<Seq<char>>
    decreases cands.len(),
{
    if cands.len() == 0 {
        None
    } else {
        match cands[0] {
            Some(c) if long_enough(c) => Some(c),
            _ => nu_first_long(cands.subrange(1, cands.len() as int)),
        }
    }
}

/// Chapter text of a translator's page, given the text of its `<title>`,
/// the inner HTML of the first element of each content selector, and that of
/// the first `article`, `main` or `body`: a bot check is an error; else the
/// first candidate that counts, else the fallback when it counts, with
/// script, style, ins, noscript, header, footer and nav blocks removed.
pub open spec fn nu_content(
    title: Option<Seq<char>>,
    cands: Seq<Option<Seq<char>>>,
    fallback: Option<Seq<char>>,
) -> Result<Option<Seq<char>>, Seq<char>> {
    if nu_blocked(title) {
        Err(nu_blocked_message())
    } else {
        let m = match nu_first_long(cands) {
            Some(c) => Some(c),
            None => match fallback {
                Some(f) => if long_enough(f) {
                    Some(f)
                } else {
                    None
                },
                None => None,
            },
        };
        match m {
            Some(c) => Ok(Some(clean_html(c, aggregator_tags()))),
            None => Ok(None),
        }
    }
}

pub open spec fn content_view(r: Result<Option<String>, String>) -> Result<Option<Seq<char>>, Seq<char>> {
    match r {
        Ok(Some(c)) => Ok(Some(c@)),
        Ok(None) => Ok(None),
        Err(e) => Err(e@),
    }
}

pub open spec fn ovs(v: Seq<Option<Vec<char>>>) -> Seq<Option<Seq<char>>> {
    v.map_values(|o: Option<Vec<char>>| ov(o))
}

fn long_enough_exec(c: &Vec<char>) -> (b: bool)
    ensures
        b == long_enough(c@),
{
    utf8_len_exec(&trim_exec(c)) > 50
}

fn nu_blocked_exec(title: &Option<Vec<char>>) -> (b: bool)
    ensures
        b == nu_blocked(ov(*title)),
{
    match title {
        Some(t) => {
            let l = lowercase_exec(t);
            contains_exec(&l, &lit("just a moment")) || contains_exec(&l, &lit("bot verification"))
                || contains_exec(&l, &lit("attention required")) || contains_exec(
                &l,
                &lit("captcha"),
            ) || contains_exec(&l, &lit("un instant"))
        },
        None => false,
    }
}

impl NovelUpdatesSource {
    /// See [`nu_content`].
    pub fn decide_content(
        title: &Option<Vec<char>>,
        cands: &Vec<Option<Vec<char>>>,
        fallback: &Option<Vec<char>>,
    ) -> (r: Result<Option<String>, String>)
        ensures
            content_view(r) == nu_content(ov(*title), ovs(cands@), ov(*fallback)),
    {
        if nu_blocked_exec(title) {
            return Err(String::from_str("Cloudflare/Captcha detected. Please open in Webview to verify."));
        }
        let ghost all = ovs(cands@);
        assert(all.subrange(0, all.len() as int) =~= all);
        let mut i: usize = 0;
        while i < cands.len()
            invariant
                i <= cands.len(),
                all == ovs(cands@),
                !nu_blocked(ov(*title)),
                nu_first_long(all) == nu_first_long(all.subrange(i as int, all.len() as int)),
            decreases cands.len() - i,
        {
            let ghost rest = all.subrange(i as int, all.len() as int);
            assert(rest[0] == ov(cands@[i as int]));
            assert(rest.subrange(1, rest.len() as int) =~= all.subrange(i + 1, all.len() as int));
            match &cands[i] {
                Some(c) => {
                    if long_enough_exec(c) {
                        let tags = aggregator_tag_list();
                        assert(nu_first_long(rest) == Some(c@));
                        let cs = string_of(c);
                        return Ok(Some(clean_html_exec(cs.as_str(), &tags)));
                    }
                },
                None => {},
            }
            i += 1;
        }
        match fallback {
            Some(f) => {
                if long_enough_exec(f) {
                    let tags = aggregator_tag_list();
                    Ok(Some(clean_html_exec(string_of(f).as_str(), &tags)))
                } else {
                    Ok(None)
                }
            },
            None => Ok(None),
        }
    }

    /// Chapter text of a translator's page (see [`nu_content`]). A selector
    /// that does not parse gives no candidate.
    pub fn get_chapter_content(page_html: &str) -> (r: Result<Option<String>, String>)
        ensures
            content_view(r) == nu_content(
                nu_page_title(page_html@),
                nu_page_cands(page_html@),
                crate::content::page_inner(page_html@, "article, main, body"@),
            ),
    {
        let doc = parse_document(page_html);
        let none: &[&str] = &[];
        proof {
            assert(strs(none@) =~= Seq::<Seq<char>>::empty());
        }
        let title = match compile_selector("title") {
            Ok(sel) => match first_of(&doc, &sel, none) {
                Some(t) => Some(t.text()),
                None => None,
            },
            Err(_) => None,
        };
        let texts = [
            ".chapter__content",
            ".entry-content",
            ".text_story",
            ".post-content",
            ".contenta",
            ".single_post",
            ".main-content",
            ".reader-content",
            "#chapter-content",
            ".chapter-text",
            ".content-wrapper",
            "#content",
            "#the-content",
            "article.post",
            ".chp_raw",
            ".post-body",
            ".content-post",
            ".halChap--kontenInner",
            "[data-tag='post-card']",
            "[data-reader-article='true']",
            "[data-reader-article]",
        ];
        assert(strs(texts@) =~= nu_content_selectors());
        let mut cands: Vec<Option<Vec<char>>> = Vec::new();
        let mut i: usize = 0;
        while i < texts.len()
            invariant
                i <= texts@.len(),
                strs(texts@) == nu_content_selectors(),
                cands@.len() == i,
                doc.src() == page_html@ && !doc.is_fragment(),
                forall|k: int| 0 <= k < i ==> ov(#[trigger] cands@[k]) == nu_page_cands(page_html@)[k],
            decreases texts@.len() - i,
        {
            assert(nu_content_selectors()[i as int] == texts@[i as int]@);
            let c = match compile_selector(texts[i]) {
                Ok(sel) => {
                    let found = select_all(&doc, &sel);
                    if found.len() > 0 {
                        assert(found@[0].node().path =~= seq![(texts@[i as int]@, 0int)]);
                        Some(chars_of(inner_html(&found[0]).as_str()))
                    } else {
                        None
                    }
                },
                Err(_) => None,
            };
            cands.push(c);
            i += 1;
        }
        let fallback = match compile_selector("article, main, body") {
            Ok(sel) => {
                let found = select_all(&doc, &sel);
                if found.len() > 0 {
                    assert(found@[0].node().path =~= seq![("article, main, body"@, 0int)]);
                    Some(chars_of(inner_html(&found[0]).as_str()))
                } else {
                    None
                }
            },
            Err(_) => None,
        };
        assert(ovs(cands@) =~= nu_page_cands(page_html@));
        let r = Self::decide_content(&title, &cands, &fallback);
        r
    }
}

// ---------------------------------------------------------------------------
// Search and listings
// ---------------------------------------------------------------------------
/// The last of the longest pieces, by UTF-8 length (`max_by_key(len)`).
pub open spec fn longest_piece(parts: Seq<Seq<char>>) -> Seq<char>
    decreases parts.len(),
{
    if parts.len() == 0 {
        Seq::empty()
    } else if parts.len() == 1 {
        parts[0]
    } else {
        let b = longest_piece(parts.drop_last());
        if utf8_len(parts.last()) >= utf8_len(b) {
            parts.last()
        } else {
            b
        }
    }
}

/// Curly single quotes replaced by `'`.
pub open spec fn plain_quotes(s: Seq<char>) -> Seq<char> {
    s.map_values(|c: char| if c == '\u{2018}' || c == '\u{2019}' { '\'' } else { c })
}

/// The search terms: the longest `*`-separated piece of the query, curly
/// quotes made plain, its words joined by `+`.
pub open spec fn nu_query(q: Seq<char>) -> Seq<char> {
    join(words(plain_quotes(longest_piece(split_char(q, '*')))), "+"@)
}

pub open spec fn nu_search_url(base: Seq<char>, q: Seq<char>, page: i32) -> Seq<char> {
    base + "/series-finder/?sf=1&sh="@ + nu_query(q) + "&sort=srank&order=asc&pg="@ + dec(page as int)
}

pub open spec fn nu_listing_url(base: Seq<char>, listing_id: Seq<char>, page: i32) -> Seq<char> {
    if listing_id == "popular"@ {
        base + "/series-ranking/?rank=popular&pg="@ + dec(page as int)
    } else if listing_id == "popmonth"@ {
        base + "/series-ranking/?rank=popmonth&pg="@ + dec(page as int)
    } else {
        base + "/series-finder/?sf=1&sort=sdate&order=desc&pg="@ + dec(page as int)
    }
}

pub open spec fn nu_listings() -> Seq<ListingView> {
    seq![
        ListingView { id: "popular"@, name: "Popular (All)"@ },
        ListingView { id: "popmonth"@, name: "Popular (Month)"@ },
        ListingView { id: "latest"@, name: "Latest Releases"@ },
    ]
}

fn nu_query_exec(q: &Vec<char>) -> (r: Vec<char>)
    ensures
        r@ == nu_query(q@),
{
    let parts = split_char_exec(q, '*');
    let ghost ps = split_char(q@, '*');
    proof {
        lemma_split_char_nonempty(q@, '*');
        assert(ps.take(1).len() == 1);
    }
    let mut best: usize = 0;
    let mut best_len = utf8_len_exec(&parts[0]);
    let mut i: usize = 1;
    proof {
        assert(longest_piece(ps.take(1)) == ps.take(1)[0]);
    }
    while i < parts.len()
        invariant
            1 <= i <= parts@.len(),
            parts@.len() == ps.len(),
            forall|k: int| 0 <= k < parts@.len() ==> #[trigger] parts@[k]@ == ps[k],
            best < i,
            longest_piece(ps.take(i as int)) == ps[best as int],
            best_len == utf8_len(ps[best as int]),
        decreases parts@.len() - i,
    {
        proof {
            let t = ps.take(i + 1);
            assert(t.drop_last() =~= ps.take(i as int));
            assert(t.last() == ps[i as int]);
        }
        let l = utf8_len_exec(&parts[i]);
        if l >= best_len {
            best = i;
            best_len = l;
        }
        i += 1;
    }
    assert(ps.take(parts@.len() as int) =~= ps);
    let piece = &parts[best];
    let mut plain: Vec<char> = Vec::new();
    let mut j: usize = 0;
    while j < piece.len()
        invariant
            j <= piece@.len(),
            plain@ == plain_quotes(piece@).take(j as int),
        decreases piece@.len() - j,
    {
        let c = piece[j];
        plain.push(if c == '\u{2018}' || c == '\u{2019}' { '\'' } else { c });
        assert(plain@ =~= plain_quotes(piece@).take(j + 1));
        j += 1;
    }
    assert(plain_quotes(piece@).take(piece@.len() as int) =~= plain_quotes(piece@));
    let ws = words_exec(&plain);
    assert(vviews(ws@) =~= words(plain@));
    join_exec(&ws, &lit("+"))
}

impl NovelUpdatesSource {
    /// The search request (see [`nu_search_url`]).
    pub fn search(base_url: &str, query: &str, page: i32) -> (r: Request)
        ensures
            r@ == get_spec(nu_search_url(base_url@, query@, page)),
    {
        let mut u = chars_of(base_url);
        push_all(&mut u, &lit("/series-finder/?sf=1&sh="));
        push_all(&mut u, &nu_query_exec(&chars_of(query)));
        push_all(&mut u, &lit("&sort=srank&order=asc&pg="));
        push_all(&mut u, &dec_exec(page as i64));
        get_request(&u)
    }

    /// The listings of the site.
    pub fn get_listings() -> (r: Vec<ListingDto>)
        ensures
            r.deep_view() == nu_listings(),
    {
        let r = vec![
            crate::models::listing("popular", "Popular (All)"),
            crate::models::listing("popmonth", "Popular (Month)"),
            crate::models::listing("latest", "Latest Releases"),
        ];
        assert(r.deep_view() =~= nu_listings());
        r
    }

    /// The request for a listing page (see [`nu_listing_url`]).
    pub fn get_listing_novels(base_url: &str, listing_id: &str, page: i32) -> (r: Request)
        ensures
            r@ == get_spec(nu_listing_url(base_url@, listing_id@, page)),
    {
        let id = chars_of(listing_id);
        let mut u = chars_of(base_url);
        if str_eq("popular", &id) {
            push_all(&mut u, &lit("/series-ranking/?rank=popular&pg="));
        } else if str_eq("popmonth", &id) {
            push_all(&mut u, &lit("/series-ranking/?rank=popmonth&pg="));
        } else {
            push_all(&mut u, &lit("/series-finder/?sf=1&sort=sdate&order=desc&pg="));
        }
        push_all(&mut u, &dec_exec(page as i64));
        get_request(&u)
    }
}

// ---------------------------------------------------------------------------
// Laws
// ---------------------------------------------------------------------------
/// A formatted chapter title is never empty.
pub proof fn law_nu_title_nonempty(raw: Seq<char>)
    ensures
        nu_title(raw).len() > 0,
{
    reveal_strlit("Chapter");
}

/// A text without leading, trailing or doubled whitespace.
pub open spec fn single_spaced(t: Seq<char>) -> bool {
    &&& t.len() > 0 ==> !is_ws(t[0]) && !is_ws(t[t.len() - 1])
    &&& forall|i: int| 0 <= i < t.len() - 1 ==> !(is_ws(#[trigger] t[i]) && is_ws(t[i + 1]))
}

/// A nonempty text without whitespace.
pub open spec fn solid(w: Seq<char>) -> bool {
    w.len() > 0 && forall|j: int| 0 <= j < w.len() ==> !is_ws(#[trigger] w[j])
}

proof fn lemma_words_solid(s: Seq<char>)
    ensures
        forall|k: int| 0 <= k < words(s).len() ==> solid(#[trigger] words(s)[k]),
    decreases s.len(),
{
    if s.len() > 0 {
        let t = s.drop_last();
        lemma_words_solid(t);
        let w = words(t);
        let c = s.last();
        if !is_ws(c) {
            if s.len() >= 2 && !is_ws(s[s.len() - 2]) && w.len() > 0 {
                let nw = w.last().push(c);
                assert(solid(w.last()));
                assert forall|j: int| 0 <= j < nw.len() implies !is_ws(#[trigger] nw[j]) by {
                    if j < w.last().len() {
                        assert(nw[j] == w.last()[j]);
                    }
                }
                assert forall|k: int| 0 <= k < words(s).len() implies solid(#[trigger] words(s)[k]) by {
                    if k < w.len() - 1 {
                        assert(words(s)[k] == w[k]);
                    }
                }
            } else {
                assert(solid(seq![c]));
                assert forall|k: int| 0 <= k < words(s).len() implies solid(#[trigger] words(s)[k]) by {
                    if k < w.len() {
                        assert(words(s)[k] == w[k]);
                    }
                }
            }
        }
    }
}

proof fn lemma_join_single_spaced(ps: Seq<Seq<char>>)
    requires
        forall|k: int| 0 <= k < ps.len() ==> solid(#[trigger] ps[k]),
    ensures
        single_spaced(join(ps, " "@)),
        ps.len() > 0 ==> join(ps, " "@).len() > 0,
    decreases ps.len(),
{
    reveal_strlit(" ");
    if ps.len() == 1 {
        assert(solid(ps[0]));
    } else if ps.len() > 1 {
        let pre = ps.subrange(0, ps.len() - 1);
        assert forall|k: int| 0 <= k < pre.len() implies solid(#[trigger] pre[k]) by {
            assert(pre[k] == ps[k]);
        }
        lemma_join_single_spaced(pre);
        let a = join(pre, " "@);
        let p = ps[ps.len() - 1];
        assert(solid(p));
        let t = a + " "@ + p;
        assert(t == join(ps, " "@));
        assert forall|i: int| 0 <= i < t.len() - 1 implies !(is_ws(#[trigger] t[i]) && is_ws(t[i + 1])) by {
            if i < a.len() - 1 {
                assert(t[i] == a[i] && t[i + 1] == a[i + 1]);
            } else if i == a.len() - 1 {
                assert(t[i] == a[a.len() - 1]);
            } else if i == a.len() {
                assert(t[i + 1] == p[0]);
            } else {
                assert(t[i] == p[i - a.len() - 1]);
            }
        }
        assert(t[0] == a[0]);
        assert(t[t.len() - 1] == p[p.len() - 1]);
    }
}

/// A formatted chapter title has no leading, trailing or doubled whitespace,
/// whenever uppercasing a character that is not whitespace gives one or more
/// characters none of which is whitespace (as Unicode's uppercase mappings
/// do).
pub proof fn law_nu_title_single_spaced(raw: Seq<char>)
    requires
        forall|c: char| !is_ws(c) ==> solid(#[trigger] char_uppercase(c)),
    ensures
        single_spaced(nu_title(raw)),
{
    reveal_strlit("Chapter");
    reveal_strlit("SS");
    let t = trim(raw);
    if t.len() > 0 {
        let lower = lowercase(t);
        let processed = if starts_with(lower, "chapter"@) || starts_with(lower, "volume"@) {
            t
        } else {
            nu_mark(nu_mark(t, 'v', "Volume "@), 'c', " Chapter "@)
        };
        let ws = words(nu_spread(processed));
        lemma_words_solid(nu_spread(processed));
        let cs = cap_words(ws);
        assert forall|k: int| 0 <= k < cs.len() implies solid(#[trigger] cs[k]) by {
            let w = ws[k];
            assert(solid(w));
            assert(cs[k] == cap_word(w));
            if !is_ss(w) {
                let u = char_uppercase(w[0]);
                assert(solid(u));
                let r = u + w.subrange(1, w.len() as int);
                assert(cs[k] == r);
                assert forall|j: int| 0 <= j < r.len() implies !is_ws(#[trigger] r[j]) by {
                    if j >= u.len() {
                        assert(r[j] == w[j - u.len() + 1]);
                    }
                }
            }
        }
        lemma_join_single_spaced(cs);
    }
}

/// A release name whose lowercase form holds no digit is numbered by the
/// fallback.
pub proof fn law_nu_number_without_digits(raw: Seq<char>, fallback: i32)
    requires
        forall|i: int| 0 <= i < lowercase(raw).len() ==> !is_digit(#[trigger] lowercase(raw)[i]),
    ensures
        nu_number(raw, fallback) == fallback,
{
    let lower = lowercase(raw);
    match find(lower, seq!['c']) {
        Some(p) => {
            lemma_find(lower, seq!['c']);
            let t = trim_start(lower.subrange(p + 1, lower.len() as int));
            crate::text::lemma_lead_le(lower.subrange(p + 1, lower.len() as int), crate::text::ws_pred());
            if t.len() > 0 {
                assert(t[0] == lower[p + 1 + lead_count(lower.subrange(p + 1, lower.len() as int), crate::text::ws_pred())]);
            }
            lemma_lead_le(t, digit_pred());
            assert(digit_prefix(t).len() == 0);
        },
        None => {},
    }
    lemma_lead_le(lower, not_digit_pred());
    let rest = lower.subrange(lead_count(lower, not_digit_pred()) as int, lower.len() as int);
    if rest.len() > 0 {
        assert(rest[0] == lower[lead_count(lower, not_digit_pred()) as int]);
    }
    lemma_lead_le(rest, digit_pred());
    assert(first_digit_run(lower).len() == 0);
}

/// Every novel of a list page has a nonempty title and URL.
pub proof fn law_nu_list_entries_nonempty(base: Seq<char>, rows: Seq<NuRowView>)
    ensures
        forall|k: int|
            0 <= k < nu_list(base, rows).len() ==> (#[trigger] nu_list(base, rows)[k]).title.len() > 0
                && nu_list(base, rows)[k].url.len() > 0,
    decreases rows.len(),
{
    if rows.len() > 0 {
        law_nu_list_entries_nonempty(base, rows.drop_last());
        let prev = nu_list(base, rows.drop_last());
        let cur = nu_list(base, rows);
        assert forall|k: int| 0 <= k < cur.len() implies (#[trigger] cur[k]).title.len() > 0
            && cur[k].url.len() > 0 by {
            if k < prev.len() {
                assert(cur[k] == prev[k]);
            }
        }
    }
}

/// The site lists chapters newest first; the chapters come out oldest first:
/// chapter `i` is the entry `i` places from the end of the list.
pub proof fn law_nu_chapters_oldest_first(base: Seq<char>, rows: Seq<NuChapterRowView>)
    ensures
        nu_chapters(base, rows).len() == nu_raw_chapters(base, rows).len(),
        forall|i: int|
            0 <= i < nu_chapters(base, rows).len() ==> (#[trigger] nu_chapters(base, rows)[i]).url
                == nu_raw_chapters(base, rows)[nu_raw_chapters(base, rows).len() - 1 - i].url,
{
}

/// The status of a read novel page: none without a status element;
/// "Ongoing" when the element's text mentions "Ongoing"; "Completed"
/// otherwise; so two pages whose status texts differ in mentioning
/// "Ongoing" get different statuses.
pub proof fn law_nu_status(base: Seq<char>, raw: NuDetailsRawView)
    requires
        nu_details(base, raw) is Ok,
    ensures
        ({
            let st = nu_details(base, raw)->Ok_0.status;
            match raw.status {
                None => st is None,
                Some(e) => {
                    &&& contains(stext(e), "Ongoing"@) ==> st == Some("Ongoing"@)
                    &&& !contains(stext(e), "Ongoing"@) ==> st == Some("Completed"@)
                },
            }
        }),
        "Ongoing"@ != "Completed"@,
{
    reveal_strlit("Ongoing");
    reveal_strlit("Completed");
    assert("Ongoing"@.len() != "Completed"@.len());
}

/// The cover of a list result is the first of the cover image's `src`,
/// `data-src`, `data-original` and `data-cfsrc` attributes that it has,
/// made absolute; `src` comes first.
pub proof fn law_nu_cover_order(base: Seq<char>, img: SnapView)
    ensures
        sattr(img, "src"@) matches Some(s) ==> nu_cover(base, Some(img)) == Some(abs_http_concat(base, s)),
        sattr(img, "src"@) is None ==> (sattr(img, "data-src"@) matches Some(s) ==> nu_cover(base, Some(img)) == Some(
            abs_http_concat(base, s),
        )),
        sattr(img, "src"@) is None && sattr(img, "data-src"@) is None ==> (sattr(img, "data-original"@) matches Some(s)
            ==> nu_cover(base, Some(img)) == Some(abs_http_concat(base, s))),
        sattr(img, "src"@) is None && sattr(img, "data-src"@) is None && sattr(img, "data-original"@) is None ==> (
        nu_cover(base, Some(img)) == match sattr(img, "data-cfsrc"@) {
            Some(s) => Some(abs_http_concat(base, s)),
            None => None,
        }),
        nu_cover(base, None) is None,
{
    let names = nu_cover_attrs();
    let t1 = names.subrange(1, 4);
    let t2 = t1.subrange(1, 3);
    let t3 = t2.subrange(1, 2);
    let t4 = t3.subrange(1, 1);
    assert(t1 =~= seq!["data-src"@, "data-original"@, "data-cfsrc"@]);
    assert(t2 =~= seq!["data-original"@, "data-cfsrc"@]);
    assert(t3 =~= seq!["data-cfsrc"@]);
    assert(t4 =~= Seq::<Seq<char>>::empty());
    assert(first_attr(img, t4) is None);
    assert(first_attr(img, t3) == sattr(img, "data-cfsrc"@));
    assert(first_attr(img, t2) == match sattr(img, "data-original"@) {
        Some(v) => Some(v),
        None => first_attr(img, t3),
    });
    assert(first_attr(img, t1) == match sattr(img, "data-src"@) {
        Some(v) => Some(v),
        None => first_attr(img, t2),
    });
    assert(first_attr(img, names) == match sattr(img, "src"@) {
        Some(v) => Some(v),
        None => first_attr(img, t1),
    });
}

/// A translator's page that is not a bot check, none of whose content
/// blocks holds more than 50 bytes of trimmed text, gives its first
/// `article`, `main` or `body` block, cleaned, when that block holds more
/// than 50 bytes of trimmed text; and nothing when it does not.
pub proof fn law_nu_content_fallback(title: Option<Seq<char>>, cands: Seq<Option<Seq<char>>>, f: Seq<char>)
    requires
        !nu_blocked(title),
        forall|k: int| 0 <= k < cands.len() ==> (#[trigger] cands[k] matches Some(c) ==> utf8_len(trim(c)) <= 50),
    ensures
        utf8_len(trim(f)) > 50 ==> nu_content(title, cands, Some(f)) == Ok::<Option<Seq<char>>, Seq<char>>(
            Some(clean_html(f, aggregator_tags())),
        ),
        utf8_len(trim(f)) <= 50 ==> nu_content(title, cands, Some(f)) == Ok::<Option<Seq<char>>, Seq<char>>(None),
        nu_content(title, cands, None) == Ok::<Option<Seq<char>>, Seq<char>>(None),
{
    lemma_no_long_candidate(cands);
}

proof fn lemma_no_long_candidate(cands: Seq<Option<Seq<char>>>)
    requires
        forall|k: int| 0 <= k < cands.len() ==> (#[trigger] cands[k] matches Some(c) ==> utf8_len(trim(c)) <= 50),
    ensures
        nu_first_long(cands) is None,
    decreases cands.len(),
{
    if cands.len() > 0 {
        let t = cands.subrange(1, cands.len() as int);
        assert forall|k: int| 0 <= k < t.len() implies (#[trigger] t[k] matches Some(c) ==> utf8_len(trim(c)) <= 50) by {
            assert(t[k] == cands[k + 1]);
        }
        lemma_no_long_candidate(t);
        assert(cands[0] matches Some(c) ==> utf8_len(trim(c)) <= 50);
    }
}

/// A translator's page that is not a bot check gives the first content
/// block that holds more than 50 bytes of trimmed text, cleaned, whatever
/// its fallback block is.
pub proof fn law_nu_content_first_long(
    title: Option<Seq<char>>,
    cands: Seq<Option<Seq<char>>>,
    fallback: Option<Seq<char>>,
    i: int,
)
    requires
        !nu_blocked(title),
        0 <= i < cands.len(),
        cands[i] matches Some(c) && utf8_len(trim(c)) > 50,
        forall|k: int| 0 <= k < i ==> (#[trigger] cands[k] matches Some(c) ==> utf8_len(trim(c)) <= 50),
    ensures
        nu_content(title, cands, fallback) == Ok::<Option<Seq<char>>, Seq<char>>(
            Some(clean_html(cands[i]->Some_0, aggregator_tags())),
        ),
{
    lemma_first_long_at(cands, i);
}

proof fn lemma_first_long_at(cands: Seq<Option<Seq<char>>>, i: int)
    requires
        0 <= i < cands.len(),
        cands[i] matches Some(c) && utf8_len(trim(c)) > 50,
        forall|k: int| 0 <= k < i ==> (#[trigger] cands[k] matches Some(c) ==> utf8_len(trim(c)) <= 50),
    ensures
        nu_first_long(cands) == cands[i],
    decreases i,
{
    if i > 0 {
        let t = cands.subrange(1, cands.len() as int);
        assert forall|k: int| 0 <= k < i - 1 implies (#[trigger] t[k] matches Some(c) ==> utf8_len(trim(c)) <= 50) by {
            assert(t[k] == cands[k + 1]);
        }
        assert(t[i - 1] == cands[i]);
        lemma_first_long_at(t, i - 1);
        assert(cands[0] matches Some(c) ==> utf8_len(trim(c)) <= 50);
    }
}

/// A page whose lowercased title mentions a bot check ("just a moment",
/// "bot verification", "attention required", "captcha" or "un instant") is
/// an error asking to open the page in the web view, whatever it holds; a
/// page without a title is never taken for one.
pub proof fn law_nu_content_bot_check(title: Option<Seq<char>>, cands: Seq<Option<Seq<char>>>, fallback: Option<Seq<char>>)
    ensures
        (title matches Some(t) && {
            let l = lowercase(t);
            contains(l, "just a moment"@) || contains(l, "bot verification"@) || contains(l, "attention required"@)
                || contains(l, "captcha"@) || contains(l, "un instant"@)
        }) ==> nu_content(title, cands, fallback) == Err::<Option<Seq<char>>, Seq<char>>(
            "Cloudflare/Captcha detected. Please open in Webview to verify."@,
        ),
        title is None ==> nu_content(title, cands, fallback) is Ok,
{
}

} // verus!
