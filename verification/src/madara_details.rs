//! Novel details of a Madara site: what the novel page says of the novel.
use vstd::prelude::*;
use crate::madara::{detail_cover_attrs, MadaraEngine};
use crate::snap::{first_attr, first_attr_exec, nonempty_text, nonempty_text_exec, osnap, snap_views, strs, ttext, Snap, SnapView};
use crate::text::{
    chars_of, contains, contains_exec, digit_prefix, digit_prefix_exec, filter_some, find,
    find_exec, join, join_exec, lemma_filter_some_step, lemma_find, lowercase, lowercase_exec,
    opt_string, os, ov, push_unique, push_unique_exec, slice_exec, strings_of, sviews, vviews,
};
use crate::urls::abs_scheme_join;

verus! {

/// One `.post-content_item` block of a novel page: its `h5` label, its
/// summary content, and the links inside that content (`None` when the link
/// selector could not be used).
pub struct MadaraMetaItem {
    pub label: Option<Snap>,
    pub content: Option<Snap>,
    pub anchors: Option<Vec<Snap>>,
}

pub struct MadaraMetaView {
    pub label: Option<SnapView>,
    pub content: Option<SnapView>,
    pub anchors: Option<Seq<SnapView>>,
}

pub open spec fn osnaps(o: Option<Vec<Snap>>) -> Option<Seq<SnapView>> {
    match o {
        Some(v) => Some(snap_views(v@)),
        None => None,
    }
}

pub open spec fn oosnap(o: Option<Option<Snap>>) -> Option<Option<SnapView>> {
    match o {
        Some(x) => Some(osnap(x)),
        None => None,
    }
}

impl View for MadaraMetaItem {
    type V = MadaraMetaView;

    open spec fn view(&self) -> MadaraMetaView {
        MadaraMetaView {
            label: osnap(self.label),
            content: osnap(self.content),
            anchors: osnaps(self.anchors),
        }
    }
}

pub open spec fn meta_views(v: Seq<MadaraMetaItem>) -> Seq<MadaraMetaView> {
    v.map_values(|m: MadaraMetaItem| m@)
}

/// What was read of a novel page. An outer `None` marks a selector that
/// could not be used; an inner `None` marks a selector that matched nothing.
pub struct MadaraDetailsRaw {
    pub title: Option<Snap>,
    pub cover: Option<Snap>,
    pub meta: Option<Vec<MadaraMetaItem>>,
    pub author_fallback: Option<Option<Snap>>,
    pub status_fallback: Option<Option<Snap>>,
    pub genre_fallback: Option<Vec<Snap>>,
    pub description: Option<Option<Snap>>,
    pub paragraphs: Option<Vec<Snap>>,
    pub id_element: Option<Option<Snap>>,
    pub page_html: Vec<char>,
}

pub struct MadaraDetailsRawView {
    pub title: Option<SnapView>,
    pub cover: Option<SnapView>,
    pub meta: Option<Seq<MadaraMetaView>>,
    pub author_fallback: Option<Option<SnapView>>,
    pub status_fallback: Option<Option<SnapView>>,
    pub genre_fallback: Option<Seq<SnapView>>,
    pub description: Option<Option<SnapView>>,
    pub paragraphs: Option<Seq<SnapView>>,
    pub id_element: Option<Option<SnapView>>,
    pub page_html: Seq<char>,
}

impl View for MadaraDetailsRaw {
    type V = MadaraDetailsRawView;

    open spec fn view(&self) -> MadaraDetailsRawView {
        MadaraDetailsRawView {
            title: osnap(self.title),
            cover: osnap(self.cover),
            meta: match self.meta {
                Some(v) => Some(meta_views(v@)),
                None => None,
            },
            author_fallback: oosnap(self.author_fallback),
            status_fallback: oosnap(self.status_fallback),
            genre_fallback: osnaps(self.genre_fallback),
            description: oosnap(self.description),
            paragraphs: osnaps(self.paragraphs),
            id_element: oosnap(self.id_element),
            page_html: self.page_html@,
        }
    }
}

/// What the library makes of a novel page.
pub struct MadaraDetails {
    pub title: String,
    pub cover_url: Option<String>,
    pub author: Option<String>,
    pub status: Option<String>,
    pub genres: Vec<String>,
    pub description: Option<String>,
    pub novel_id: String,
}

pub struct MadaraDetailsView {
    pub title: Seq<char>,
    pub cover_url: Option<Seq<char>>,
    pub author: Option<Seq<char>>,
    pub status: Option<Seq<char>>,
    pub genres: Seq<Seq<char>>,
    pub description: Option<Seq<char>>,
    pub novel_id: Seq<char>,
}

impl View for MadaraDetails {
    type V = MadaraDetailsView;

    open spec fn view(&self) -> MadaraDetailsView {
        MadaraDetailsView {
            title: self.title@,
            cover_url: os(self.cover_url),
            author: os(self.author),
            status: os(self.status),
            genres: sviews(self.genres@),
            description: os(self.description),
            novel_id: self.novel_id@,
        }
    }
}

// ---------------------------------------------------------------------------
// Specification
// ---------------------------------------------------------------------------
pub open spec fn is_author_label(l: Seq<char>) -> bool {
    contains(l, "author"@) || contains(l, "autor"@) || contains(l, "المؤلف"@)
}

pub open spec fn is_status_label(l: Seq<char>) -> bool {
    contains(l, "status"@) || contains(l, "estado"@) || contains(l, "durum"@)
}

pub open spec fn is_genre_label(l: Seq<char>) -> bool {
    contains(l, "genre"@) || contains(l, "género"@) || contains(l, "kategori"@) || contains(
        l,
        "التصنيفات"@,
    )
}

/// Adds the trimmed text of each element, skipping empty and repeated ones.
pub open spec fn add_genres(gs: Seq<Seq<char>>, els: Seq<SnapView>) -> Seq<Seq<char>>
    decreases els.len(),
{
    if els.len() == 0 {
        gs
    } else {
        push_unique(add_genres(gs, els.subrange(0, els.len() - 1)), ttext(els[els.len() - 1]))
    }
}

/// Author, status and genres gathered from the labelled blocks so far.
pub struct MetaAcc {
    pub author: Option<Seq<char>>,
    pub status: Option<Seq<char>>,
    pub genres: Seq<Seq<char>>,
}

/// The lowercased, trimmed label of a block; empty without a label.
pub open spec fn item_label(it: MadaraMetaView) -> Seq<char> {
    match it.label {
        Some(h) => lowercase(ttext(h)),
        None => Seq::empty(),
    }
}

/// One labelled block: an author or status block sets that field when its
/// text is nonempty (a later block wins); a genre block adds its links.
pub open spec fn meta_step(acc: MetaAcc, it: MadaraMetaView) -> MetaAcc {
    let label = item_label(it);
    match it.content {
        None => acc,
        Some(c) => {
            let text = ttext(c);
            if is_author_label(label) {
                if text.len() > 0 {
                    MetaAcc { author: Some(text), ..acc }
                } else {
                    acc
                }
            } else if is_status_label(label) {
                if text.len() > 0 {
                    MetaAcc { status: Some(text), ..acc }
                } else {
                    acc
                }
            } else if is_genre_label(label) {
                match it.anchors {
                    Some(a) => MetaAcc { genres: add_genres(acc.genres, a), ..acc },
                    None => acc,
                }
            } else {
                acc
            }
        },
    }
}

pub open spec fn meta_fold(items: Seq<MadaraMetaView>) -> MetaAcc
    decreases items.len(),
{
    if items.len() == 0 {
        MetaAcc { author: None, status: None, genres: Seq::empty() }
    } else {
        meta_step(meta_fold(items.subrange(0, items.len() - 1)), items[items.len() - 1])
    }
}

/// Markers after which a Madara page writes the novel id.
pub open spec fn id_patterns() -> Seq<Seq<char>> {
    seq!["rating-post-id\" value=\""@, "data-id=\""@, "post_id=\""@, "post-id=\""@]
}

/// The digits after the first occurrence of the first marker whose first
/// occurrence is followed by digits; empty when there is none.
pub open spec fn id_from_patterns(html: Seq<char>, pats: Seq<Seq<char>>) -> Seq<char>
    decreases pats.len(),
{
    if pats.len() == 0 {
        Seq::empty()
    } else {
        let rest = pats.subrange(1, pats.len() as int);
        match find(html, pats[0]) {
            Some(i) => {
                let d = digit_prefix(html.subrange(i + pats[0].len(), html.len() as int));
                if d.len() > 0 {
                    d
                } else {
                    id_from_patterns(html, rest)
                }
            },
            None => id_from_patterns(html, rest),
        }
    }
}

/// Novel id for the chapter AJAX call: the `value` (else `data-id`) of the
/// first id element, else the digits found after a marker in the page.
pub open spec fn madara_novel_id(el: Option<Option<SnapView>>, html: Seq<char>) -> Seq<char> {
    let from_el = match el {
        Some(Some(e)) => match first_attr(e, seq!["value"@, "data-id"@]) {
            Some(v) => v,
            None => Seq::empty(),
        },
        _ => Seq::empty(),
    };
    if from_el.len() > 0 {
        from_el
    } else {
        id_from_patterns(html, id_patterns())
    }
}

/// The nonempty trimmed texts of `ps`, in order.
pub open spec fn nonempty_texts(ps: Seq<SnapView>) -> Seq<Seq<char>> {
    filter_some(
        ps.map_values(
            |p: SnapView|
                if ttext(p).len() > 0 {
                    Some(ttext(p))
                } else {
                    None
                },
        ),
    )
}

/// Description: the nonempty paragraphs joined by blank lines, or else the
/// element's whole text; `None` when that is empty or there is no element.
pub open spec fn madara_description(
    desc: Option<Option<SnapView>>,
    paragraphs: Option<Seq<SnapView>>,
) -> Option<Seq<char>> {
    match desc {
        Some(Some(el)) => {
            let t = match paragraphs {
                Some(ps) => if nonempty_texts(ps).len() > 0 {
                    join(nonempty_texts(ps), "\n\n"@)
                } else {
                    ttext(el)
                },
                None => ttext(el),
            };
            if t.len() > 0 {
                Some(t)
            } else {
                None
            }
        },
        _ => None,
    }
}

/// The fallback text of a selector when the labelled blocks gave none.
pub open spec fn fallback_text(found: Option<Option<SnapView>>) -> Option<Seq<char>> {
    match found {
        Some(o) => nonempty_text(o),
        None => None,
    }
}

/// What the library makes of a novel page (see the field comments of
/// [`MadaraDetails`]).
pub open spec fn madara_details(base: Seq<char>, use_new: bool, raw: MadaraDetailsRawView) -> MadaraDetailsView {
    let acc = match raw.meta {
        Some(items) => meta_fold(items),
        None => MetaAcc { author: None, status: None, genres: Seq::empty() },
    };
    MadaraDetailsView {
        title: match raw.title {
            Some(t) => ttext(t),
            None => Seq::empty(),
        },
        cover_url: match raw.cover {
            Some(img) => match first_attr(img, detail_cover_attrs()) {
                Some(s) => Some(abs_scheme_join(base, s)),
                None => None,
            },
            None => None,
        },
        author: if acc.author is Some {
            acc.author
        } else {
            fallback_text(raw.author_fallback)
        },
        status: if acc.status is Some {
            acc.status
        } else {
            fallback_text(raw.status_fallback)
        },
        genres: if acc.genres.len() > 0 {
            acc.genres
        } else {
            match raw.genre_fallback {
                Some(els) => add_genres(Seq::empty(), els),
                None => Seq::empty(),
            }
        },
        description: madara_description(raw.description, raw.paragraphs),
        novel_id: if use_new {
            Seq::empty()
        } else {
            madara_novel_id(raw.id_element, raw.page_html)
        },
    }
}

// ---------------------------------------------------------------------------
// Implementation
// ---------------------------------------------------------------------------
/// Adds the trimmed texts of `els` to `gs` (see [`add_genres`]).
pub fn add_genres_exec(gs: &mut Vec<Vec<char>>, els: &Vec<Snap>)
    ensures
        vviews(final(gs)@) == add_genres(vviews(old(gs)@), snap_views(els@)),
{
    let ghost start = vviews(gs@);
    let ghost all = snap_views(els@);
    let mut i: usize = 0;
    while i < els.len()
        invariant
            i <= els.len(),
            all == snap_views(els@),
            vviews(gs@) == add_genres(start, all.take(i as int)),
        decreases els.len() - i,
    {
        let t = els[i].trimmed();
        proof {
            let nt = all.take(i + 1);
            assert(nt.subrange(0, nt.len() - 1) =~= all.take(i as int));
            assert(nt[nt.len() - 1] == els@[i as int]@);
        }
        push_unique_exec(gs, t);
        i += 1;
    }
    assert(all.take(els.len() as int) =~= all);
}

fn is_author_label_exec(l: &Vec<char>) -> (b: bool)
    ensures
        b == is_author_label(l@),
{
    contains_exec(l, &chars_of("author")) || contains_exec(l, &chars_of("autor"))
        || contains_exec(l, &chars_of("المؤلف"))
}

fn is_status_label_exec(l: &Vec<char>) -> (b: bool)
    ensures
        b == is_status_label(l@),
{
    contains_exec(l, &chars_of("status")) || contains_exec(l, &chars_of("estado"))
        || contains_exec(l, &chars_of("durum"))
}

fn is_genre_label_exec(l: &Vec<char>) -> (b: bool)
    ensures
        b == is_genre_label(l@),
{
    contains_exec(l, &chars_of("genre")) || contains_exec(l, &chars_of("género"))
        || contains_exec(l, &chars_of("kategori")) || contains_exec(l, &chars_of("التصنيفات"))
}

/// Author, status and genres from the labelled blocks (see [`meta_fold`]).
pub fn meta_fold_exec(items: &Vec<MadaraMetaItem>) -> (r: (
    Option<Vec<char>>,
    Option<Vec<char>>,
    Vec<Vec<char>>,
))
    ensures
        ({
            let acc = meta_fold(meta_views(items@));
            ov(r.0) == acc.author && ov(r.1) == acc.status && vviews(r.2@) == acc.genres
        }),
{
    let ghost all = meta_views(items@);
    let mut author: Option<Vec<char>> = None;
    let mut status: Option<Vec<char>> = None;
    let mut genres: Vec<Vec<char>> = Vec::new();
    let mut i: usize = 0;
    assert(vviews(genres@) =~= Seq::<Seq<char>>::empty());
    while i < items.len()
        invariant
            i <= items.len(),
            all == meta_views(items@),
            ({
                let acc = meta_fold(all.take(i as int));
                ov(author) == acc.author && ov(status) == acc.status && vviews(genres@)
                    == acc.genres
            }),
        decreases items.len() - i,
    {
        proof {
            let nt = all.take(i + 1);
            assert(nt.subrange(0, nt.len() - 1) =~= all.take(i as int));
            assert(nt[nt.len() - 1] == items@[i as int]@);
        }
        let it = &items[i];
        let label = match &it.label {
            Some(h) => lowercase_exec(&h.trimmed()),
            None => Vec::new(),
        };
        assert(label@ == item_label(it@));
        match &it.content {
            None => {},
            Some(c) => {
                let text = c.trimmed();
                if is_author_label_exec(&label) {
                    if text.len() > 0 {
                        author = Some(text);
                    }
                } else if is_status_label_exec(&label) {
                    if text.len() > 0 {
                        status = Some(text);
                    }
                } else if is_genre_label_exec(&label) {
                    match &it.anchors {
                        Some(a) => add_genres_exec(&mut genres, a),
                        None => {},
                    }
                }
            },
        }
        i += 1;
    }
    assert(all.take(items.len() as int) =~= all);
    (author, status, genres)
}

/// The novel id written after a marker of `pats` (see [`id_from_patterns`]).
pub fn id_from_patterns_exec(html: &Vec<char>, pats: &Vec<Vec<char>>) -> (r: Vec<char>)
    ensures
        r@ == id_from_patterns(html@, vviews(pats@)),
{
    let ghost all = vviews(pats@);
    assert(all.subrange(0, all.len() as int) =~= all);
    let mut i: usize = 0;
    while i < pats.len()
        invariant
            i <= pats.len(),
            all == vviews(pats@),
            id_from_patterns(html@, all) == id_from_patterns(
                html@,
                all.subrange(i as int, all.len() as int),
            ),
        decreases pats.len() - i,
    {
        let ghost rest = all.subrange(i as int, all.len() as int);
        assert(rest[0] == pats@[i as int]@);
        assert(rest.subrange(1, rest.len() as int) =~= all.subrange(i + 1, all.len() as int));
        match find_exec(html, &pats[i]) {
            Some(p) => {
                proof {
                    lemma_find(html@, pats[i as int]@);
                }
                let plen = pats[i].len();
                let hlen = html.len();
                assert(p + plen <= hlen);
                let after = slice_exec(html, p + plen, hlen);
                let d = digit_prefix_exec(&after);
                if d.len() > 0 {
                    return d;
                }
            },
            None => {},
        }
        i += 1;
    }
    Vec::new()
}

/// The nonempty trimmed texts of `ps` (see [`nonempty_texts`]).
pub fn nonempty_texts_exec(ps: &Vec<Snap>) -> (r: Vec<Vec<char>>)
    ensures
        vviews(r@) == nonempty_texts(snap_views(ps@)),
{
    let ghost mapped = snap_views(ps@).map_values(
        |p: SnapView|
            if ttext(p).len() > 0 {
                Some(ttext(p))
            } else {
                None
            },
    );
    let mut r: Vec<Vec<char>> = Vec::new();
    let mut i: usize = 0;
    while i < ps.len()
        invariant
            i <= ps.len(),
            mapped == snap_views(ps@).map_values(
                |p: SnapView|
                    if ttext(p).len() > 0 {
                        Some(ttext(p))
                    } else {
                        None
                    },
            ),
            vviews(r@) == filter_some(mapped.take(i as int)),
        decreases ps.len() - i,
    {
        proof {
            lemma_filter_some_step(mapped, i as int);
            assert(mapped[i as int] == (if ttext(ps@[i as int]@).len() > 0 {
                Some(ttext(ps@[i as int]@))
            } else {
                None
            }));
        }
        let t = ps[i].trimmed();
        if t.len() > 0 {
            let ghost before = vviews(r@);
            r.push(t);
            assert(vviews(r@) =~= before.push(ttext(ps@[i as int]@)));
        }
        i += 1;
    }
    assert(mapped.take(ps.len() as int) =~= mapped);
    r
}

impl MadaraEngine {
    /// What the library makes of a read novel page (see [`madara_details`]).
    pub fn assemble_details(&self, raw: &MadaraDetailsRaw) -> (d: MadaraDetails)
        ensures
            d@ == madara_details(self.base_url@, self.use_new_chapter_endpoint, raw@),
    {
        let (mut author, mut status, mut genres) = match &raw.meta {
            Some(items) => meta_fold_exec(items),
            None => {
                let g: Vec<Vec<char>> = Vec::new();
                assert(vviews(g@) =~= Seq::<Seq<char>>::empty());
                (None, None, g)
            },
        };
        if author.is_none() {
            author = match &raw.author_fallback {
                Some(o) => nonempty_text_exec(o),
                None => None,
            };
        }
        if status.is_none() {
            status = match &raw.status_fallback {
                Some(o) => nonempty_text_exec(o),
                None => None,
            };
        }
        if genres.len() == 0 {
            match &raw.genre_fallback {
                Some(els) => {
                    assert(vviews(genres@) =~= Seq::<Seq<char>>::empty());
                    add_genres_exec(&mut genres, els);
                },
                None => {},
            }
        }
        let title = match &raw.title {
            Some(t) => t.trimmed(),
            None => Vec::new(),
        };
        let cover_url = match &raw.cover {
            Some(img) => {
                let names = ["data-lazy-src", "data-src", "src"];
                assert(strs(names@) =~= detail_cover_attrs());
                match first_attr_exec(img, &names) {
                    Some(s) => Some(self.abs_url(&s)),
                    None => None,
                }
            },
            None => None,
        };
        let description = match &raw.description {
            Some(Some(el)) => {
                let t = match &raw.paragraphs {
                    Some(ps) => {
                        let texts = nonempty_texts_exec(ps);
                        if texts.len() > 0 {
                            join_exec(&texts, &chars_of("\n\n"))
                        } else {
                            el.trimmed()
                        }
                    },
                    None => el.trimmed(),
                };
                if t.len() > 0 {
                    Some(t)
                } else {
                    None
                }
            },
            _ => None,
        };
        let novel_id = if self.use_new_chapter_endpoint {
            Vec::new()
        } else {
            let from_el = match &raw.id_element {
                Some(Some(e)) => {
                    let names = ["value", "data-id"];
                    assert(strs(names@) =~= seq!["value"@, "data-id"@]);
                    match first_attr_exec(e, &names) {
                        Some(v) => v,
                        None => Vec::new(),
                    }
                },
                _ => Vec::new(),
            };
            if from_el.len() > 0 {
                from_el
            } else {
                let pats = vec![
                    chars_of("rating-post-id\" value=\""),
                    chars_of("data-id=\""),
                    chars_of("post_id=\""),
                    chars_of("post-id=\""),
                ];
                assert(vviews(pats@) =~= id_patterns());
                id_from_patterns_exec(&raw.page_html, &pats)
            }
        };
        let ghost spec_d = madara_details(self.base_url@, self.use_new_chapter_endpoint, raw@);
        assert(title@ == spec_d.title);
        assert(ov(cover_url) == spec_d.cover_url);
        assert(ov(author) == spec_d.author);
        assert(ov(status) == spec_d.status);
        assert(vviews(genres@) == spec_d.genres);
        assert(ov(description) == spec_d.description);
        assert(novel_id@ == spec_d.novel_id);
        MadaraDetails {
            title: crate::text::string_of(&title),
            cover_url: opt_string(cover_url),
            author: opt_string(author),
            status: opt_string(status),
            genres: strings_of(&genres),
            description: opt_string(description),
            novel_id: crate::text::string_of(&novel_id),
        }
    }
}

/// Genres gathered from a list of elements are nonempty and pairwise
/// distinct, when those gathered before were.
pub proof fn law_add_genres_distinct(gs: Seq<Seq<char>>, els: Seq<SnapView>)
    requires
        forall|k: int| 0 <= k < gs.len() ==> (#[trigger] gs[k]).len() > 0,
        forall|i: int, j: int| 0 <= i < j < gs.len() ==> gs[i] != gs[j],
    ensures
        forall|k: int| 0 <= k < add_genres(gs, els).len() ==> (#[trigger] add_genres(gs, els)[k]).len() > 0,
        forall|i: int, j: int|
            0 <= i < j < add_genres(gs, els).len() ==> add_genres(gs, els)[i] != add_genres(gs, els)[j],
    decreases els.len(),
{
    if els.len() > 0 {
        let rest = els.subrange(0, els.len() - 1);
        law_add_genres_distinct(gs, rest);
        let prev = add_genres(gs, rest);
        let cur = add_genres(gs, els);
        if cur.len() > prev.len() {
            assert forall|i: int, j: int| 0 <= i < j < cur.len() implies cur[i] != cur[j] by {
                assert(cur[i] == prev[i]);
                if j < prev.len() {
                    assert(cur[j] == prev[j]);
                }
            }
            assert forall|k: int| 0 <= k < cur.len() implies (#[trigger] cur[k]).len() > 0 by {
                if k < prev.len() {
                    assert(cur[k] == prev[k]);
                }
            }
        }
    }
}

/// A genre list as the library gives it: each genre nonempty and trimmed,
/// none twice.
pub open spec fn clean_genre_list(gs: Seq<Seq<char>>) -> bool {
    &&& forall|k: int| 0 <= k < gs.len() ==> (#[trigger] gs[k]).len() > 0 && gs[k] == crate::text::trim(gs[k])
    &&& forall|i: int, j: int| 0 <= i < j < gs.len() ==> gs[i] != gs[j]
}

proof fn lemma_add_genres_clean(gs: Seq<Seq<char>>, els: Seq<SnapView>)
    requires
        clean_genre_list(gs),
    ensures
        clean_genre_list(add_genres(gs, els)),
    decreases els.len(),
{
    law_add_genres_distinct(gs, els);
    if els.len() > 0 {
        let rest = els.subrange(0, els.len() - 1);
        lemma_add_genres_clean(gs, rest);
        let prev = add_genres(gs, rest);
        let cur = add_genres(gs, els);
        let g = ttext(els[els.len() - 1]);
        crate::text::lemma_trim_idempotent(crate::snap::stext(els[els.len() - 1]));
        assert forall|k: int| 0 <= k < cur.len() implies (#[trigger] cur[k]).len() > 0 && cur[k] == crate::text::trim(cur[k]) by {
            if k < prev.len() {
                assert(cur[k] == prev[k]);
            } else {
                assert(cur[k] == g);
            }
        }
    }
}

proof fn lemma_meta_fold_clean(items: Seq<MadaraMetaView>)
    ensures
        clean_genre_list(meta_fold(items).genres),
    decreases items.len(),
{
    if items.len() > 0 {
        let rest = items.subrange(0, items.len() - 1);
        lemma_meta_fold_clean(rest);
        let it = items[items.len() - 1];
        match it.anchors {
            Some(a) => lemma_add_genres_clean(meta_fold(rest).genres, a),
            None => {},
        }
    }
}

/// The genres of a novel page are nonempty, trimmed and distinct, whatever
/// the page holds.
pub proof fn law_madara_genres_clean(base: Seq<char>, use_new: bool, raw: MadaraDetailsRawView)
    ensures
        clean_genre_list(madara_details(base, use_new, raw).genres),
{
    match raw.meta {
        Some(items) => lemma_meta_fold_clean(items),
        None => {},
    }
    match raw.genre_fallback {
        Some(els) => lemma_add_genres_clean(Seq::empty(), els),
        None => {},
    }
}

} // verus!
