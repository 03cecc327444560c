//! Removal of unwanted blocks (scripts, styles, ads...) from chapter HTML.
use vstd::prelude::*;
use crate::text::{
    chars_of, concat2, find_from, find_from_exec, lemma_find_from, matches_at,
    matches_at_exec, slice_exec, string_of, trim, trim_exec, vviews,
};

verus! {

/// `"<" + tag`: the start of an element with that name.
pub open spec fn open_pat(tag: Seq<char>) -> Seq<char> {
    seq!['<'] + tag
}

/// `"</" + tag + ">"`: the end tag of an element with that name.
pub open spec fn close_pat(tag: Seq<char>) -> Seq<char> {
    seq!['<', '/'] + tag + seq!['>']
}

/// A `tag` block starts at position `i`: the text `<tag` occurs there
/// (whatever follows it, as in `<tag>`, `<tag class=..>` or `<tag/>`).
pub open spec fn tag_start_at(c: Seq<char>, tag: Seq<char>, i: int) -> bool {
    matches_at(c, open_pat(tag), i)
}

/// The first start of a `tag` element at or after position `i`.
pub open spec fn find_tag_from(c: Seq<char>, tag: Seq<char>, i: int) -> Option<int>
    decreases c.len() + 1 - i,
{
    if i < 0 || i >= c.len() {
        None
    } else if tag_start_at(c, tag, i) {
        Some(i)
    } else {
        find_tag_from(c, tag, i + 1)
    }
}

/// The first start of a `tag` element.
pub open spec fn find_tag(c: Seq<char>, tag: Seq<char>) -> Option<int> {
    find_tag_from(c, tag, 0)
}

pub proof fn lemma_find_tag_from(c: Seq<char>, tag: Seq<char>, i: int)
    requires
        0 <= i,
    ensures
        match find_tag_from(c, tag, i) {
            Some(j) => i <= j < c.len() && tag_start_at(c, tag, j) && forall|k: int|
                i <= k < j ==> !tag_start_at(c, tag, k),
            None => forall|k: int| i <= k ==> !tag_start_at(c, tag, k),
        },
    decreases c.len() + 1 - i,
{
    if i >= c.len() {
        assert forall|k: int| i <= k implies !tag_start_at(c, tag, k) by {}
    } else if !tag_start_at(c, tag, i) {
        lemma_find_tag_from(c, tag, i + 1);
    }
}

/// Repeatedly removes, from the first start of a `tag` element to the end of
/// the first `</tag>` after it, until no such start is left or the first one
/// has no `</tag>` after it.
pub open spec fn strip_blocks(c: Seq<char>, tag: Seq<char>) -> Seq<char>
    decreases c.len(),
{
    match find_tag(c, tag) {
        None => c,
        Some(s) => match find_from(c, close_pat(tag), s) {
            None => c,
            Some(e) => {
                proof {
                    lemma_find_tag_from(c, tag, 0);
                    lemma_find_from(c, close_pat(tag), s);
                }
                strip_blocks(
                    c.subrange(0, s) + c.subrange(e + close_pat(tag).len(), c.len() as int),
                    tag,
                )
            },
        },
    }
}

/// Applies [`strip_blocks`] for each tag name in turn.
pub open spec fn strip_tags(c: Seq<char>, tags: Seq<Seq<char>>) -> Seq<char>
    decreases tags.len(),
{
    if tags.len() == 0 {
        c
    } else {
        strip_tags(strip_blocks(c, tags[0]), tags.subrange(1, tags.len() as int))
    }
}

/// What the content cleaner returns: the blocks of each tag removed, then
/// the result trimmed.
pub open spec fn clean_html(c: Seq<char>, tags: Seq<Seq<char>>) -> Seq<char> {
    trim(strip_tags(c, tags))
}

/// No complete `tag` element is left: the first start of one, if any, has no
/// `</tag>` after it.
pub open spec fn no_block(c: Seq<char>, tag: Seq<char>) -> bool {
    match find_tag(c, tag) {
        None => true,
        Some(s) => find_from(c, close_pat(tag), s) is None,
    }
}

/// After [`strip_blocks`] no block of that kind is left, and nothing was added.
pub proof fn lemma_strip_blocks(c: Seq<char>, tag: Seq<char>)
    ensures
        no_block(strip_blocks(c, tag), tag),
        strip_blocks(c, tag).len() <= c.len(),
    decreases c.len(),
{
    match find_tag(c, tag) {
        None => {},
        Some(s) => match find_from(c, close_pat(tag), s) {
            None => {},
            Some(e) => {
                lemma_find_tag_from(c, tag, 0);
                lemma_find_from(c, close_pat(tag), s);
                lemma_strip_blocks(
                    c.subrange(0, s) + c.subrange(e + close_pat(tag).len(), c.len() as int),
                    tag,
                );
            },
        },
    }
}

/// Law of the content cleaner: once the blocks of a tag are removed, the
/// first start of a `tag` element left, if any, is not followed by a
/// `</tag>` (so no complete block of that tag remains), and the text never
/// grows.
pub proof fn law_strip_leaves_no_block(c: Seq<char>, tag: Seq<char>)
    ensures
        no_block(strip_blocks(c, tag), tag),
        strip_blocks(c, tag).len() <= c.len(),
{
    lemma_strip_blocks(c, tag);
}

fn tag_start_exec(c: &Vec<char>, open: &Vec<char>, tag: Ghost<Seq<char>>, i: usize) -> (b: bool)
    requires
        open@ == open_pat(tag@),
    ensures
        b == tag_start_at(c@, tag@, i as int),
{
    let n = c.len();
    if open.len() > n || i > n - open.len() {
        return false;
    }
    matches_at_exec(c, open, i)
}

fn find_tag_exec(c: &Vec<char>, open: &Vec<char>, tag: Ghost<Seq<char>>) -> (r: Option<usize>)
    requires
        open@ == open_pat(tag@),
    ensures
        match r {
            Some(j) => find_tag(c@, tag@) == Some(j as int),
            None => find_tag(c@, tag@) is None,
        },
{
    let mut i: usize = 0;
    while i < c.len()
        invariant
            i <= c.len(),
            open@ == open_pat(tag@),
            find_tag(c@, tag@) == find_tag_from(c@, tag@, i as int),
        decreases c.len() - i,
    {
        if tag_start_exec(c, open, tag, i) {
            return Some(i);
        }
        i += 1;
    }
    None
}

/// Removes every block of a `tag` element (see [`strip_blocks`]); `open` is
/// `<tag` and `close` is `</tag>`.
fn strip_blocks_exec(c: &Vec<char>, open: &Vec<char>, close: &Vec<char>, tag: Ghost<Seq<char>>) -> (r: Vec<char>)
    requires
        open@ == open_pat(tag@),
        close@ == close_pat(tag@),
    ensures
        r@ == strip_blocks(c@, tag@),
{
    let mut cur = c.clone();
    assert(cur@ =~= c@);
    loop
        invariant
            open@ == open_pat(tag@),
            close@ == close_pat(tag@),
            strip_blocks(cur@, tag@) == strip_blocks(c@, tag@),
        decreases cur.len(),
    {
        match find_tag_exec(&cur, open, tag) {
            None => return cur,
            Some(s) => match find_from_exec(&cur, close, s) {
                None => return cur,
                Some(e) => {
                    proof {
                        lemma_find_tag_from(cur@, tag@, 0);
                        lemma_find_from(cur@, close@, s as int);
                    }
                    let head = slice_exec(&cur, 0, s);
                    let tail = slice_exec(&cur, e + close.len(), cur.len());
                    cur = concat2(&head, &tail);
                },
            },
        }
    }
}

/// Removes the blocks of each tag of `tags` in turn.
pub fn strip_tags_exec(c: &Vec<char>, tags: &Vec<Vec<char>>) -> (r: Vec<char>)
    ensures
        r@ == strip_tags(c@, vviews(tags@)),
{
    let ghost all = vviews(tags@);
    let mut cur = c.clone();
    assert(cur@ =~= c@);
    assert(all.subrange(0, all.len() as int) =~= all);
    let mut i: usize = 0;
    while i < tags.len()
        invariant
            i <= tags.len(),
            all == vviews(tags@),
            strip_tags(cur@, all.subrange(i as int, all.len() as int)) == strip_tags(c@, all),
        decreases tags.len() - i,
    {
        let mut open: Vec<char> = Vec::new();
        open.push('<');
        let open = concat2(&open, &tags[i]);
        let mut close: Vec<char> = Vec::new();
        close.push('<');
        close.push('/');
        let mut close = concat2(&close, &tags[i]);
        close.push('>');
        proof {
            let rest = all.subrange(i as int, all.len() as int);
            assert(rest[0] == tags@[i as int]@);
            assert(open@ =~= open_pat(rest[0]));
            assert(close@ =~= close_pat(rest[0]));
            assert(rest.subrange(1, rest.len() as int) =~= all.subrange(i + 1, all.len() as int));
        }
        cur = strip_blocks_exec(&cur, &open, &close, Ghost(all[i as int]));
        i += 1;
    }
    proof {
        assert(all.subrange(tags.len() as int, all.len() as int).len() == 0);
    }
    cur
}

/// Cleans chapter HTML: removes the blocks of each tag, then trims.
pub fn clean_html_exec(c: &str, tags: &Vec<Vec<char>>) -> (r: String)
    ensures
        r@ == clean_html(c@, vviews(tags@)),
{
    let v = chars_of(c);
    let s = strip_tags_exec(&v, tags);
    let t = trim_exec(&s);
    string_of(&t)
}

/// Character vectors of each tag name.
pub fn tag_list(names: &[&str]) -> (r: Vec<Vec<char>>)
    ensures
        r@.len() == names@.len(),
        forall|i: int| 0 <= i < names@.len() ==> r@[i]@ == names@[i]@,
{
    let mut r: Vec<Vec<char>> = Vec::new();
    let mut i: usize = 0;
    while i < names.len()
        invariant
            i <= names@.len(),
            r@.len() == i,
            forall|j: int| 0 <= j < i ==> r@[j]@ == names@[j]@,
        decreases names@.len() - i,
    {
        r.push(chars_of(names[i]));
        i += 1;
    }
    r
}

} // verus!
