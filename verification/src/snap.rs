//! Plain snapshots of HTML elements: the text and the attributes that the
//! scrapers read. The scrapers' decisions are verified over these values.
use vstd::prelude::*;
use crate::dom::{attr, child, compile_selector, selector_parse_error, count_in, elem_attr, elem_text, page_node, select_all, select_in, text_nodes, strings_to_chars, Elem, NodeRef, Page, Sel};
use crate::text::{chars_of, concat_all, join_exec, ov, str_eq, trim, trim_exec, vviews};

verus! {

/// What a scraper read of one element: its text nodes, and the value of each
/// attribute it asked for (`None` when the element has no such attribute).
pub struct Snap {
    pub texts: Vec<Vec<char>>,
    pub attrs: Vec<(Vec<char>, Option<Vec<char>>)>,
}

/// Mathematical value of a [`Snap`].
pub struct SnapView {
    pub texts: Seq<Seq<char>>,
    pub attrs: Seq<(Seq<char>, Option<Seq<char>>)>,
}

pub open spec fn attr_pair_view(p: (Vec<char>, Option<Vec<char>>)) -> (Seq<char>, Option<Seq<char>>) {
    (
        p.0@,
        match p.1 {
            Some(v) => Some(v@),
            None => None,
        },
    )
}

impl View for Snap {
    type V = SnapView;

    open spec fn view(&self) -> SnapView {
        SnapView {
            texts: vviews(self.texts@),
            attrs: self.attrs@.map_values(|p: (Vec<char>, Option<Vec<char>>)| attr_pair_view(p)),
        }
    }
}

/// Views of a sequence of snapshots.
pub open spec fn snap_views(v: Seq<Snap>) -> Seq<SnapView> {
    v.map_values(|s: Snap| s@)
}

/// Views of an optional snapshot.
pub open spec fn osnap(o: Option<Snap>) -> Option<SnapView> {
    match o {
        Some(s) => Some(s@),
        None => None,
    }
}

/// Value of attribute `name`: the first recorded pair with that name.
pub open spec fn attr_of(attrs: Seq<(Seq<char>, Option<Seq<char>>)>, name: Seq<char>) -> Option<
    Seq<char>,
>
    decreases attrs.len(),
{
    if attrs.len() == 0 {
        None
    } else if attrs[0].0 == name {
        attrs[0].1
    } else {
        attr_of(attrs.subrange(1, attrs.len() as int), name)
    }
}

/// The value of attribute `name` of a snapshot.
pub open spec fn sattr(s: SnapView, name: Seq<char>) -> Option<Seq<char>> {
    attr_of(s.attrs, name)
}

/// The text of a snapshot (its text nodes concatenated).
pub open spec fn stext(s: SnapView) -> Seq<char> {
    concat_all(s.texts)
}

/// The trimmed text of a snapshot.
pub open spec fn ttext(s: SnapView) -> Seq<char> {
    trim(stext(s))
}

/// The first of the attributes `names` that the snapshot has (`or_else` chain).
pub open spec fn first_attr(s: SnapView, names: Seq<Seq<char>>) -> Option<Seq<char>>
    decreases names.len(),
{
    if names.len() == 0 {
        None
    } else {
        match sattr(s, names[0]) {
            Some(v) => Some(v),
            None => first_attr(s, names.subrange(1, names.len() as int)),
        }
    }
}

impl Snap {
    /// The value of attribute `name`.
    pub fn get_attr(&self, name: &str) -> (r: Option<Vec<char>>)
        ensures
            match r {
                Some(v) => sattr(self@, name@) == Some(v@),
                None => sattr(self@, name@) is None,
            },
    {
        let ghost all = self@.attrs;
        assert(all.subrange(0, all.len() as int) =~= all);
        let mut i: usize = 0;
        while i < self.attrs.len()
            invariant
                i <= self.attrs.len(),
                all == self@.attrs,
                attr_of(all, name@) == attr_of(all.subrange(i as int, all.len() as int), name@),
            decreases self.attrs.len() - i,
        {
            let ghost rest = all.subrange(i as int, all.len() as int);
            assert(rest[0] == attr_pair_view(self.attrs@[i as int]));
            assert(rest.subrange(1, rest.len() as int) =~= all.subrange(i + 1, all.len() as int));
            if str_eq(name, &self.attrs[i].0) {
                return match &self.attrs[i].1 {
                    Some(v) => Some(v.clone()),
                    None => None,
                };
            }
            i += 1;
        }
        None
    }

    /// The text of the snapshot.
    pub fn text(&self) -> (r: Vec<char>)
        ensures
            r@ == stext(self@),
    {
        let sep: Vec<char> = Vec::new();
        assert(sep@ =~= Seq::<char>::empty());
        join_exec(&self.texts, &sep)
    }

    /// The trimmed text of the snapshot.
    pub fn trimmed(&self) -> (r: Vec<char>)
        ensures
            r@ == ttext(self@),
    {
        let t = self.text();
        trim_exec(&t)
    }
}

/// Views of string literals.
pub open spec fn strs(v: Seq<&str>) -> Seq<Seq<char>> {
    v.map_values(|s: &str| s@)
}

/// The first of the attributes `names` that `s` has.
pub fn first_attr_exec(s: &Snap, names: &[&str]) -> (r: Option<Vec<char>>)
    ensures
        ov(r) == first_attr(s@, strs(names@)),
{
    let ghost all = strs(names@);
    assert(all.subrange(0, all.len() as int) =~= all);
    let mut i: usize = 0;
    while i < names.len()
        invariant
            i <= names@.len(),
            all == strs(names@),
            first_attr(s@, all) == first_attr(s@, all.subrange(i as int, all.len() as int)),
        decreases names@.len() - i,
    {
        let ghost rest = all.subrange(i as int, all.len() as int);
        assert(rest[0] == names@[i as int]@);
        assert(rest.subrange(1, rest.len() as int) =~= all.subrange(i + 1, all.len() as int));
        match s.get_attr(names[i]) {
            Some(v) => return Some(v),
            None => {},
        }
        i += 1;
    }
    None
}

/// The trimmed text of an optional snapshot, when nonempty.
pub open spec fn nonempty_text(o: Option<SnapView>) -> Option<Seq<char>> {
    match o {
        Some(s) => if ttext(s).len() > 0 {
            Some(ttext(s))
        } else {
            None
        },
        None => None,
    }
}

pub fn nonempty_text_exec(o: &Option<Snap>) -> (r: Option<Vec<char>>)
    ensures
        ov(r) == nonempty_text(osnap(*o)),
{
    match o {
        Some(s) => {
            let t = s.trimmed();
            if t.len() > 0 {
                Some(t)
            } else {
                None
            }
        },
        None => None,
    }
}

/// What a snapshot of the element at `n` holds when it records `names`.
pub open spec fn node_snap(n: NodeRef, names: Seq<Seq<char>>) -> SnapView {
    SnapView {
        texts: elem_text(n.src, n.fragment, n.path),
        attrs: names.map_values(|nm: Seq<char>| (nm, elem_attr(n.src, n.fragment, n.path, nm))),
    }
}

/// Snapshots of every match of `sel` under `n`, in document order.
pub open spec fn select_snaps(n: NodeRef, sel: Seq<char>, names: Seq<Seq<char>>) -> Seq<SnapView> {
    Seq::new(count_in(n, sel), |i: int| node_snap(child(n, sel, i), names))
}

/// Snapshot of the first match of `sel` under `n`, if any.
pub open spec fn select_first(n: NodeRef, sel: Seq<char>, names: Seq<Seq<char>>) -> Option<SnapView> {
    if count_in(n, sel) > 0 {
        Some(node_snap(child(n, sel, 0), names))
    } else {
        None
    }
}

/// Reads the text nodes of `el` and the attributes `names`.
pub fn snap_of(el: &Elem, names: &[&str]) -> (r: Snap)
    ensures
        r@ == node_snap(el.node(), strs(names@)),
{
    let texts = strings_to_chars(&text_nodes(el));
    let mut attrs: Vec<(Vec<char>, Option<Vec<char>>)> = Vec::new();
    let mut i: usize = 0;
    while i < names.len()
        invariant
            i <= names@.len(),
            attrs@.len() == i,
            forall|j: int| 0 <= j < i ==> #[trigger] attr_pair_view(attrs@[j]) == (
                names@[j]@,
                elem_attr(el.node().src, el.node().fragment, el.node().path, names@[j]@),
            ),
        decreases names@.len() - i,
    {
        let v = match attr(el, names[i]) {
            Some(s) => Some(chars_of(s.as_str())),
            None => None,
        };
        attrs.push((chars_of(names[i]), v));
        i += 1;
    }
    let r = Snap { texts, attrs };
    assert(r@.attrs =~= node_snap(el.node(), strs(names@)).attrs);
    r
}

/// Reads the first element of `els`, if any.
pub fn snap_first(els: &Vec<Elem>, names: &[&str]) -> (r: Option<Snap>)
    ensures
        r is Some <==> els@.len() > 0,
        els@.len() > 0 ==> osnap(r) == Some(node_snap(els@[0].node(), strs(names@))),
{
    if els.len() == 0 {
        None
    } else {
        Some(snap_of(&els[0], names))
    }
}

/// Reads every element of `els`.
pub fn snap_all(els: &Vec<Elem>, names: &[&str]) -> (r: Vec<Snap>)
    ensures
        r@.len() == els@.len(),
        forall|i: int| 0 <= i < els@.len() ==> (#[trigger] r@[i])@ == node_snap(els@[i].node(), strs(names@)),
{
    let mut r: Vec<Snap> = Vec::new();
    let mut i: usize = 0;
    while i < els.len()
        invariant
            i <= els@.len(),
            r@.len() == i,
            forall|j: int| 0 <= j < i ==> (#[trigger] r@[j])@ == node_snap(els@[j].node(), strs(names@)),
        decreases els@.len() - i,
    {
        r.push(snap_of(&els[i], names));
        i += 1;
    }
    r
}

/// Snapshot of the first match of `sel` under `el`.
pub fn first_in(el: &Elem, sel: &Sel, names: &[&str]) -> (r: Option<Snap>)
    requires
        el.node().path.len() > 0,
    ensures
        osnap(r) == select_first(el.node(), sel.text(), strs(names@)),
{
    snap_first(&select_in(el, sel), names)
}

/// Snapshots of every match of `sel` under `el`.
pub fn all_in(el: &Elem, sel: &Sel, names: &[&str]) -> (r: Vec<Snap>)
    requires
        el.node().path.len() > 0,
    ensures
        snap_views(r@) == select_snaps(el.node(), sel.text(), strs(names@)),
{
    let r = snap_all(&select_in(el, sel), names);
    assert(snap_views(r@) =~= select_snaps(el.node(), sel.text(), strs(names@)));
    r
}

/// Snapshot of the first match of `sel` in the page.
pub fn first_of(page: &Page, sel: &Sel, names: &[&str]) -> (r: Option<Snap>)
    ensures
        osnap(r) == select_first(page_node(page), sel.text(), strs(names@)),
{
    snap_first(&select_all(page, sel), names)
}

/// Snapshots of every match of `sel` in the page.
pub fn all_of(page: &Page, sel: &Sel, names: &[&str]) -> (r: Vec<Snap>)
    ensures
        snap_views(r@) == select_snaps(page_node(page), sel.text(), strs(names@)),
{
    let r = snap_all(&select_all(page, sel), names);
    assert(snap_views(r@) =~= select_snaps(page_node(page), sel.text(), strs(names@)));
    r
}

/// Whether a selector text parses.
pub open spec fn sel_ok(text: Seq<char>) -> bool {
    selector_parse_error(text) is None
}

/// Views of an optional vector of snapshots.
pub open spec fn osnap_views(o: Option<Vec<Snap>>) -> Option<Seq<SnapView>> {
    match o {
        Some(v) => Some(snap_views(v@)),
        None => None,
    }
}

/// Views of an optional optional snapshot.
pub open spec fn oosnap_view(o: Option<Option<Snap>>) -> Option<Option<SnapView>> {
    match o {
        Some(x) => Some(osnap(x)),
        None => None,
    }
}

/// Snapshot of the first match of selector `text` in the page; `None` when
/// the selector does not parse.
pub fn opt_first_of(page: &Page, text: &str, names: &[&str]) -> (r: Option<Option<Snap>>)
    ensures
        oosnap_view(r) == if sel_ok(text@) {
            Some(select_first(page_node(page), text@, strs(names@)))
        } else {
            None
        },
{
    match compile_selector(text) {
        Ok(s) => Some(first_of(page, &s, names)),
        Err(_) => None,
    }
}

/// Snapshots of every match of selector `text` in the page; `None` when the
/// selector does not parse.
pub fn opt_all_of(page: &Page, text: &str, names: &[&str]) -> (r: Option<Vec<Snap>>)
    ensures
        osnap_views(r) == if sel_ok(text@) {
            Some(select_snaps(page_node(page), text@, strs(names@)))
        } else {
            None
        },
{
    match compile_selector(text) {
        Ok(s) => Some(all_of(page, &s, names)),
        Err(_) => None,
    }
}

/// Snapshots of every match of selector `text` under `el`; `None` when the
/// selector does not parse.
pub fn opt_all_in(el: &Elem, text: &str, names: &[&str]) -> (r: Option<Vec<Snap>>)
    requires
        el.node().path.len() > 0,
    ensures
        osnap_views(r) == if sel_ok(text@) {
            Some(select_snaps(el.node(), text@, strs(names@)))
        } else {
            None
        },
{
    match compile_selector(text) {
        Ok(s) => Some(all_in(el, &s, names)),
        Err(_) => None,
    }
}

} // verus!
