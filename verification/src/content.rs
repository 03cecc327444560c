//! Extraction of chapter text from a chapter page.
use vstd::prelude::*;
use crate::clean::{clean_html, clean_html_exec, tag_list};
use crate::text::{os, vviews};
use crate::dom::{compile_selector, doc_matches, elem_inner_html, inner_html, parse_document, select_all, selector_parse_error};

verus! {

/// Tags whose blocks the template engines remove from chapter text.
pub open spec fn engine_tags() -> Seq<Seq<char>> {
    seq!["script"@, "style"@, "ins"@, "iframe"@, "button"@, "noscript"@]
}

/// Tags whose blocks the smaller sources remove from chapter text.
pub open spec fn basic_tags() -> Seq<Seq<char>> {
    seq!["script"@, "style"@, "ins"@, "iframe"@]
}

/// Tags whose blocks the NovelUpdates source removes from chapter text.
pub open spec fn aggregator_tags() -> Seq<Seq<char>> {
    seq!["script"@, "style"@, "ins"@, "iframe"@, "noscript"@, "header"@, "footer"@, "nav"@]
}

/// The engines' tag list as character vectors.
pub fn engine_tag_list() -> (r: Vec<Vec<char>>)
    ensures
        vviews(r@) == engine_tags(),
{
    let r = tag_list(&["script", "style", "ins", "iframe", "button", "noscript"]);
    assert(vviews(r@) =~= engine_tags());
    r
}

/// The smaller sources' tag list as character vectors.
pub fn basic_tag_list() -> (r: Vec<Vec<char>>)
    ensures
        vviews(r@) == basic_tags(),
{
    let r = tag_list(&["script", "style", "ins", "iframe"]);
    assert(vviews(r@) =~= basic_tags());
    r
}

/// The NovelUpdates tag list as character vectors.
pub fn aggregator_tag_list() -> (r: Vec<Vec<char>>)
    ensures
        vviews(r@) == aggregator_tags(),
{
    let r = tag_list(&["script", "style", "ins", "iframe", "noscript", "header", "footer", "nav"]);
    assert(vviews(r@) =~= aggregator_tags());
    r
}

/// The inner HTML of the first element of the page parsed from `src` that
/// matches `sel`; `None` when the selector does not parse or nothing matches.
pub open spec fn page_inner(src: Seq<char>, sel: Seq<char>) -> Option<Seq<char>> {
    if selector_parse_error(sel) is None && doc_matches(src, false, sel) > 0 {
        Some(elem_inner_html(src, false, seq![(sel, 0int)]))
    } else {
        None
    }
}

/// The chapter text of the page parsed from `src` for selector `sel`: the
/// inner HTML of the first element matching it, cleaned of the blocks of
/// `tags` and trimmed; `None` when nothing matches.
pub open spec fn first_clean(src: Seq<char>, sel: Seq<char>, tags: Seq<Seq<char>>) -> Option<Seq<char>> {
    if doc_matches(src, false, sel) > 0 {
        Some(clean_html(elem_inner_html(src, false, seq![(sel, 0int)]), tags))
    } else {
        None
    }
}

/// Chapter text of a page (see [`first_clean`]). An invalid selector is an
/// error carrying the selector parser's message.
pub fn select_clean(page_html: &str, selector: &str, tags: &Vec<Vec<char>>) -> (r: Result<
    Option<String>,
    String,
>)
    ensures
        match r {
            Err(e) => selector_parse_error(selector@) == Some(e@),
            Ok(o) => selector_parse_error(selector@) is None && os(o) == first_clean(
                page_html@,
                selector@,
                vviews(tags@),
            ),
        },
{
    let doc = parse_document(page_html);
    let sel = match compile_selector(selector) {
        Ok(s) => s,
        Err(e) => return Err(e),
    };
    let found = select_all(&doc, &sel);
    if found.len() == 0 {
        return Ok(None);
    }
    let inner = inner_html(&found[0]);
    assert(found@[0].node().path =~= seq![(selector@, 0int)]);
    Ok(Some(clean_html_exec(inner.as_str(), tags)))
}

/// Chapter text is missing exactly when nothing on the page matches the
/// selector; when present it is trimmed.
pub proof fn law_first_clean(src: Seq<char>, sel: Seq<char>, tags: Seq<Seq<char>>)
    ensures
        first_clean(src, sel, tags) is None <==> doc_matches(src, false, sel) == 0,
        first_clean(src, sel, tags) matches Some(c) ==> c == crate::text::trim(c),
{
    if doc_matches(src, false, sel) > 0 {
        crate::text::lemma_trim_idempotent(crate::clean::strip_tags(elem_inner_html(src, false, seq![(sel, 0int)]), tags));
    }
}

} // verus!
