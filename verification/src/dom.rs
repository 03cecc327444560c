//! Access to parsed HTML through the `scraper` crate.
//!
//! Parsing and CSS selection are done by `scraper`. What they give is named
//! over the page's text: an element is reached from the page by a path of
//! selections (the `i`-th match of a selector, then the `j`-th match of
//! another selector among its descendants, ...), and the number of matches,
//! the text, the attributes and the inner HTML of an element are functions of
//! the page's text, whether it was parsed as a fragment, and that path.
use vstd::prelude::*;
use scraper::{ElementRef, Html, Selector};
use crate::snap::strs;
use crate::text::{chars_of, os, sviews, vviews};

verus! {

#[verifier::external_type_specification]
#[verifier::external_body]
pub struct ExHtml(scraper::Html);

#[verifier::external_type_specification]
#[verifier::external_body]
pub struct ExSelector(scraper::Selector);

#[verifier::external_type_specification]
#[verifier::external_body]
pub struct ExElementRef<'a>(scraper::ElementRef<'a>);

/// A parsed page: the tree `scraper` built and the text it was built from.
pub struct Page {
    doc: Html,
    text: String,
    fragment: bool,
}

impl Page {
    /// The text the page was parsed from.
    pub closed spec fn src(&self) -> Seq<char> {
        self.text@
    }

    /// Whether the text was parsed as a fragment rather than a document.
    pub closed spec fn is_fragment(&self) -> bool {
        self.fragment
    }
}

/// A compiled CSS selector and its text.
pub struct Sel {
    sel: Selector,
    text: String,
}

impl Sel {
    /// The text the selector was compiled from.
    pub closed spec fn text(&self) -> Seq<char> {
        self.text@
    }
}

/// An element of a page, reached by `path` (see [`NodeRef`]).
pub struct Elem<'a> {
    el: ElementRef<'a>,
    page: &'a Page,
    path: Vec<(String, usize)>,
}

/// Where an element stands: the page's text, whether it was parsed as a
/// fragment, and the selections that reach it from the page.
pub struct NodeRef {
    pub src: Seq<char>,
    pub fragment: bool,
    pub path: Seq<(Seq<char>, int)>,
}

impl<'a> Elem<'a> {
    pub closed spec fn node(&self) -> NodeRef {
        NodeRef {
            src: self.page.src(),
            fragment: self.page.is_fragment(),
            path: self.path@.map_values(|p: (String, usize)| (p.0@, p.1 as int)),
        }
    }
}

/// The page itself, before any selection.
pub open spec fn root(src: Seq<char>, fragment: bool) -> NodeRef {
    NodeRef { src, fragment, path: Seq::empty() }
}

/// The node of a parsed page.
pub open spec fn page_node(p: &Page) -> NodeRef {
    root(p.src(), p.is_fragment())
}

/// The `i`-th match of `sel` under `n`.
pub open spec fn child(n: NodeRef, sel: Seq<char>, i: int) -> NodeRef {
    NodeRef { path: n.path.push((sel, i)), ..n }
}

/// How many elements `scraper::Html::select` yields for selector `sel` on
/// the page parsed from `src` (as a fragment when `fragment`).
pub uninterp spec fn doc_matches(src: Seq<char>, fragment: bool, sel: Seq<char>) -> nat;

/// How many elements `scraper::ElementRef::select` yields for selector `sel`
/// on the element reached by `path` in the page parsed from `src`.
pub uninterp spec fn elem_matches(src: Seq<char>, fragment: bool, path: Seq<(Seq<char>, int)>, sel: Seq<char>) -> nat;

/// What `scraper::ElementRef::text` yields for the element reached by `path`.
pub uninterp spec fn elem_text(src: Seq<char>, fragment: bool, path: Seq<(Seq<char>, int)>) -> Seq<Seq<char>>;

/// What `scraper::ElementRef::attr` gives for attribute `name` of the element
/// reached by `path`.
pub uninterp spec fn elem_attr(src: Seq<char>, fragment: bool, path: Seq<(Seq<char>, int)>, name: Seq<char>) -> Option<Seq<char>>;

/// What `scraper::ElementRef::inner_html` gives for the element reached by
/// `path`.
pub uninterp spec fn elem_inner_html(src: Seq<char>, fragment: bool, path: Seq<(Seq<char>, int)>) -> Seq<char>;

/// What `scraper::Html::html` gives for the page parsed from `src`.
pub uninterp spec fn doc_html(src: Seq<char>, fragment: bool) -> Seq<char>;

/// The number of matches of `sel` under `n`.
pub open spec fn count_in(n: NodeRef, sel: Seq<char>) -> nat {
    if n.path.len() == 0 {
        doc_matches(n.src, n.fragment, sel)
    } else {
        elem_matches(n.src, n.fragment, n.path, sel)
    }
}

/// What `scraper::Selector::parse` reports for a selector text: `None` when
/// it parses, or the error message (the `Display` of the error) when it does not.
pub uninterp spec fn selector_parse_error(text: Seq<char>) -> Option<Seq<char>>;

/// Calls `scraper::Selector::parse`. Parsing depends on the selector text
/// alone; the contract ties success, and the error message, to that text.
#[verifier::external_body]
pub(crate) fn compile_selector(text: &str) -> (r: Result<Sel, String>)
    ensures
        match r {
            Ok(s) => selector_parse_error(text@) is None && s.text() == text@,
            Err(e) => selector_parse_error(text@) == Some(e@),
        },
{
    match Selector::parse(text) {
        Ok(sel) => Ok(Sel { sel, text: text.to_string() }),
        Err(e) => Err(e.to_string()),
    }
}

/// The error of the first selector of `sels` that does not parse, if any.
pub open spec fn first_selector_error(sels: Seq<Seq<char>>) -> Option<Seq<char>>
    decreases sels.len(),
{
    if sels.len() == 0 {
        None
    } else {
        match selector_parse_error(sels[0]) {
            Some(e) => Some(e),
            None => first_selector_error(sels.subrange(1, sels.len() as int)),
        }
    }
}

/// The first selector error of `sels` is that of the first selector that
/// does not parse.
pub proof fn lemma_first_selector_error_at(sels: Seq<Seq<char>>, k: int)
    requires
        0 <= k < sels.len(),
        forall|j: int| 0 <= j < k ==> selector_parse_error(#[trigger] sels[j]) is None,
        selector_parse_error(sels[k]) is Some,
    ensures
        first_selector_error(sels) == selector_parse_error(sels[k]),
    decreases k,
{
    if k > 0 {
        let t = sels.subrange(1, sels.len() as int);
        assert(selector_parse_error(sels[0]) is None);
        assert forall|j: int| 0 <= j < k - 1 implies selector_parse_error(#[trigger] t[j]) is None by {
            assert(t[j] == sels[j + 1]);
        }
        assert(t[k - 1] == sels[k]);
        lemma_first_selector_error_at(t, k - 1);
    }
}

/// When every selector of `sels` parses, there is no first error.
pub proof fn lemma_first_selector_error_none(sels: Seq<Seq<char>>)
    requires
        forall|j: int| 0 <= j < sels.len() ==> selector_parse_error(#[trigger] sels[j]) is None,
    ensures
        first_selector_error(sels) is None,
    decreases sels.len(),
{
    if sels.len() > 0 {
        let t = sels.subrange(1, sels.len() as int);
        assert(selector_parse_error(sels[0]) is None);
        assert forall|j: int| 0 <= j < t.len() implies selector_parse_error(#[trigger] t[j]) is None by {
            assert(t[j] == sels[j + 1]);
        }
        lemma_first_selector_error_none(t);
    }
}

/// Compiles every selector of `texts`, in order, stopping at the first error.
pub fn compile_all(texts: &[&str]) -> (r: Result<Vec<Sel>, String>)
    ensures
        match r {
            Ok(v) => v@.len() == texts@.len() && first_selector_error(strs(texts@)) is None
                && forall|i: int| 0 <= i < v@.len() ==> (#[trigger] v@[i]).text() == texts@[i]@,
            Err(e) => first_selector_error(strs(texts@)) == Some(e@),
        },
{
    let ghost all = strs(texts@);
    assert(all.subrange(0, all.len() as int) =~= all);
    let mut v: Vec<Sel> = Vec::new();
    let mut i: usize = 0;
    while i < texts.len()
        invariant
            i <= texts@.len(),
            v@.len() == i,
            forall|j: int| 0 <= j < i ==> (#[trigger] v@[j]).text() == texts@[j]@,
            all == strs(texts@),
            first_selector_error(all) == first_selector_error(all.subrange(i as int, all.len() as int)),
        decreases texts@.len() - i,
    {
        let ghost rest = all.subrange(i as int, all.len() as int);
        assert(rest[0] == texts@[i as int]@);
        assert(rest.subrange(1, rest.len() as int) =~= all.subrange(i + 1, all.len() as int));
        match compile_selector(texts[i]) {
            Ok(s) => v.push(s),
            Err(e) => return Err(e),
        }
        i += 1;
    }
    Ok(v)
}

/// Calls `scraper::Html::parse_document` and keeps the text beside the tree.
#[verifier::external_body]
pub(crate) fn parse_document(html: &str) -> (r: Page)
    ensures
        r.src() == html@,
        !r.is_fragment(),
{
    Page { doc: Html::parse_document(html), text: html.to_string(), fragment: false }
}

/// Calls `scraper::Html::parse_fragment` and keeps the text beside the tree.
#[verifier::external_body]
pub(crate) fn parse_fragment(html: &str) -> (r: Page)
    ensures
        r.src() == html@,
        r.is_fragment(),
{
    Page { doc: Html::parse_fragment(html), text: html.to_string(), fragment: true }
}

/// Calls `scraper::Html::select`: the elements of the page that match `sel`,
/// in the order the tree yields them, the `i`-th one reached by the path `[(sel, i)]`.
#[verifier::external_body]
pub(crate) fn select_all<'a>(page: &'a Page, sel: &Sel) -> (r: Vec<Elem<'a>>)
    ensures
        r@.len() == doc_matches(page.src(), page.is_fragment(), sel.text()),
        forall|i: int| 0 <= i < r@.len() ==> (#[trigger] r@[i]).node() == child(page_node(page), sel.text(), i),
{
    let mut out: Vec<Elem<'a>> = Vec::new();
    for (i, el) in page.doc.select(&sel.sel).enumerate() {
        out.push(Elem { el, page, path: vec![(sel.text.clone(), i)] });
    }
    out
}

/// Calls `scraper::ElementRef::select`: the descendants of `el` that match
/// `sel`, in the order the tree yields them, the `i`-th one reached by `el`'s path followed
/// by `(sel, i)`.
#[verifier::external_body]
pub(crate) fn select_in<'a>(el: &Elem<'a>, sel: &Sel) -> (r: Vec<Elem<'a>>)
    ensures
        r@.len() == elem_matches(el.node().src, el.node().fragment, el.node().path, sel.text()),
        forall|i: int| 0 <= i < r@.len() ==> (#[trigger] r@[i]).node() == child(el.node(), sel.text(), i),
{
    let mut out: Vec<Elem<'a>> = Vec::new();
    for (i, found) in el.el.select(&sel.sel).enumerate() {
        let mut path = el.path.clone();
        path.push((sel.text.clone(), i));
        out.push(Elem { el: found, page: el.page, path });
    }
    out
}

/// Calls `scraper::ElementRef::text`: the text nodes under `el`, in order.
#[verifier::external_body]
pub(crate) fn text_nodes(el: &Elem) -> (r: Vec<String>)
    ensures
        sviews(r@) == elem_text(el.node().src, el.node().fragment, el.node().path),
{
    let mut out: Vec<String> = Vec::new();
    for t in el.el.text() {
        out.push(t.to_string());
    }
    out
}

/// Calls `scraper::ElementRef::attr`.
#[verifier::external_body]
pub(crate) fn attr(el: &Elem, name: &str) -> (r: Option<String>)
    ensures
        os(r) == elem_attr(el.node().src, el.node().fragment, el.node().path, name@),
{
    match el.el.attr(name) {
        Some(v) => Some(v.to_string()),
        None => None,
    }
}

/// Calls `scraper::ElementRef::inner_html`.
#[verifier::external_body]
pub(crate) fn inner_html(el: &Elem) -> (r: String)
    ensures
        r@ == elem_inner_html(el.node().src, el.node().fragment, el.node().path),
{
    el.el.inner_html()
}

/// Calls `scraper::Html::html`, the serialised page.
#[verifier::external_body]
pub(crate) fn document_html(page: &Page) -> (r: String)
    ensures
        r@ == doc_html(page.src(), page.is_fragment()),
{
    page.doc.html()
}

// ---------------------------------------------------------------------------
// Verified helpers over the calls above
// ---------------------------------------------------------------------------
/// Converts a vector of strings to their characters.
pub fn strings_to_chars(v: &Vec<String>) -> (r: Vec<Vec<char>>)
    ensures
        vviews(r@) == sviews(v@),
{
    let mut r: Vec<Vec<char>> = Vec::new();
    let mut i: usize = 0;
    while i < v.len()
        invariant
            i <= v.len(),
            r@.len() == i,
            forall|j: int| 0 <= j < i ==> r@[j]@ == v@[j]@,
        decreases v.len() - i,
    {
        let c = chars_of(v[i].as_str());
        r.push(c);
        i += 1;
    }
    assert(vviews(r@) =~= sviews(v@));
    r
}

} // verus!
