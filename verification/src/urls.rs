//! Making links absolute and joining URL parts.
use vstd::prelude::*;
use crate::text::{
    chars_of, concat2, eq_pred, is_ws, lemma_lead_le, lemma_trail_le, starts_with, starts_with_exec,
    trail_count, trim, trim_end_char, trim_end_char_exec, trim_exec, trim_start_char,
    trim_start_char_exec,
};

verus! {

/// `base` without its trailing slashes, a slash, then `path` without its
/// leading slashes: `format!("{}/{}", base.trim_end_matches('/'), path.trim_start_matches('/'))`.
pub open spec fn join_path(base: Seq<char>, path: Seq<char>) -> Seq<char> {
    trim_end_char(base, '/') + seq!['/'] + trim_start_char(path, '/')
}

pub fn join_path_exec(base: &Vec<char>, path: &Vec<char>) -> (r: Vec<char>)
    ensures
        r@ == join_path(base@, path@),
{
    let mut b = trim_end_char_exec(base, '/');
    b.push('/');
    let p = trim_start_char_exec(path, '/');
    concat2(&b, &p)
}

/// Whether a link needs a slash between the base and itself: it is not
/// empty, does not start with `/`, and the base does not end with one.
pub open spec fn needs_slash(base: Seq<char>, href: Seq<char>) -> bool {
    href.len() > 0 && href[0] != '/' && !(base.len() > 0 && base[base.len() - 1] == '/')
}

/// Absolute form of a link: the link itself when it starts with `"http"`,
/// otherwise the base followed by the link (with a slash between them when
/// neither has one there).
pub open spec fn abs_http_concat(base: Seq<char>, href: Seq<char>) -> Seq<char> {
    if starts_with(href, "http"@) {
        href
    } else if needs_slash(base, href) {
        base + seq!['/'] + href
    } else {
        base + href
    }
}

pub fn abs_http_concat_exec(base: &Vec<char>, href: &Vec<char>) -> (r: Vec<char>)
    ensures
        r@ == abs_http_concat(base@, href@),
{
    if starts_with_exec(href, &chars_of("http")) {
        href.clone()
    } else if href.len() > 0 && href[0] != '/' && !(base.len() > 0 && base[base.len() - 1] == '/') {
        let mut b = base.clone();
        b.push('/');
        assert(b@ =~= base@ + seq!['/']);
        concat2(&b, href)
    } else {
        concat2(base, href)
    }
}

/// Absolute form of a link: the link itself when it starts with `"http"`,
/// otherwise the base and the link joined by [`join_path`].
pub open spec fn abs_http_join(base: Seq<char>, href: Seq<char>) -> Seq<char> {
    if starts_with(href, "http"@) {
        href
    } else {
        join_path(base, href)
    }
}

pub fn abs_http_join_exec(base: &Vec<char>, href: &Vec<char>) -> (r: Vec<char>)
    ensures
        r@ == abs_http_join(base@, href@),
{
    if starts_with_exec(href, &chars_of("http")) {
        href.clone()
    } else {
        join_path_exec(base, href)
    }
}

/// Absolute form of a link after trimming it: kept when it starts with
/// `"http://"` or `"https://"`, otherwise joined to the base by [`join_path`].
pub open spec fn abs_scheme_join(base: Seq<char>, href: Seq<char>) -> Seq<char> {
    let h = trim(href);
    if starts_with(h, "http://"@) || starts_with(h, "https://"@) {
        h
    } else {
        join_path(base, h)
    }
}

pub fn abs_scheme_join_exec(base: &Vec<char>, href: &Vec<char>) -> (r: Vec<char>)
    ensures
        r@ == abs_scheme_join(base@, href@),
{
    let h = trim_exec(href);
    if starts_with_exec(&h, &chars_of("http://")) || starts_with_exec(&h, &chars_of("https://")) {
        h
    } else {
        join_path_exec(base, &h)
    }
}

/// A root-relative link (starting with `/`) prefixed with the base; any other
/// link kept as it is.
pub open spec fn abs_rooted(base: Seq<char>, href: Seq<char>) -> Seq<char> {
    if href.len() > 0 && href[0] == '/' {
        base + href
    } else {
        href
    }
}

pub fn abs_rooted_exec(base: &Vec<char>, href: &Vec<char>) -> (r: Vec<char>)
    ensures
        r@ == abs_rooted(base@, href@),
{
    if href.len() > 0 && href[0] == '/' {
        concat2(base, href)
    } else {
        href.clone()
    }
}

/// Making a link absolute twice changes nothing, when the base itself starts
/// with `"http"`.
pub proof fn law_abs_http_concat_idempotent(base: Seq<char>, href: Seq<char>)
    requires
        starts_with(base, "http"@),
    ensures
        abs_http_concat(base, abs_http_concat(base, href)) == abs_http_concat(base, href),
{
    if !starts_with(href, "http"@) {
        reveal_strlit("http");
        assert((base + href).subrange(0, 4) =~= base.subrange(0, 4));
        assert((base + seq!['/'] + href).subrange(0, 4) =~= base.subrange(0, 4));
    }
}

/// Joining a link to the base twice changes nothing, when the base itself
/// starts with `"http"`.
pub proof fn law_abs_http_join_idempotent(base: Seq<char>, href: Seq<char>)
    requires
        starts_with(base, "http"@),
    ensures
        abs_http_join(base, abs_http_join(base, href)) == abs_http_join(base, href),
{
    if !starts_with(href, "http"@) {
        reveal_strlit("http");
        let t = trail_count(base, eq_pred('/'));
        lemma_trail_le(base, eq_pred('/'));
        if t > base.len() - 4 {
            assert(eq_pred('/')(base[3]));
            assert(base.subrange(0, 4)[3] == 'p');
        }
        let j = join_path(base, href);
        assert(j.subrange(0, 4) =~= base.subrange(0, 4));
    }
}

/// Making a link absolute twice (trimmed, kept when it has a scheme, else
/// joined to the base) changes nothing, when the base without its trailing
/// slashes starts with `"http://"` or `"https://"`.
pub proof fn law_abs_scheme_join_idempotent(base: Seq<char>, href: Seq<char>)
    requires
        starts_with(trim_end_char(base, '/'), "http://"@) || starts_with(trim_end_char(base, '/'), "https://"@),
    ensures
        abs_scheme_join(base, abs_scheme_join(base, href)) == abs_scheme_join(base, href),
{
    reveal_strlit("http://");
    reveal_strlit("https://");
    let h = trim(href);
    crate::text::lemma_trim_idempotent(href);
    if !(starts_with(h, "http://"@) || starts_with(h, "https://"@)) {
        let b = trim_end_char(base, '/');
        let rest = trim_start_char(h, '/');
        let x = join_path(base, h);
        assert(x == b + seq!['/'] + rest);
        // The scheme of the base stays at the front of the joined link.
        if starts_with(b, "http://"@) {
            assert(x.subrange(0, 7) =~= b.subrange(0, 7));
            assert(b.subrange(0, 7)[0] == b[0]);
        } else {
            assert(x.subrange(0, 8) =~= b.subrange(0, 8));
            assert(b.subrange(0, 8)[0] == b[0]);
        }
        assert(x[0] == b[0]);
        assert(b[0] == 'h');
        // The joined link starts and ends with a character that is not
        // whitespace, so trimming keeps it.
        crate::text::lemma_lead_le(h, crate::text::ws_pred());
        crate::text::lemma_trail_le(crate::text::trim_start(h), crate::text::ws_pred());
        lemma_lead_le(h, crate::text::eq_pred('/'));
        assert(!is_ws(x[0]));
        if rest.len() > 0 {
            assert(x[x.len() - 1] == rest[rest.len() - 1]);
            assert(rest[rest.len() - 1] == h[h.len() - 1]);
        } else {
            assert(x[x.len() - 1] == '/');
        }
        crate::text::lemma_lead_count(x, crate::text::ws_pred(), 0);
        assert(crate::text::trim_start(x) =~= x);
        crate::text::lemma_trail_count(x, crate::text::ws_pred(), 0);
        assert(crate::text::trim_end(x) =~= x);
    }
}

/// A link made absolute against a base that starts with `"http"` starts
/// with `"http"`, whether it is concatenated or joined to the base.
pub proof fn lemma_abs_http_starts(base: Seq<char>, href: Seq<char>)
    requires
        starts_with(base, "http"@),
    ensures
        starts_with(abs_http_concat(base, href), "http"@),
        starts_with(abs_http_join(base, href), "http"@),
{
    reveal_strlit("http");
    if !starts_with(href, "http"@) {
        assert((base + href).subrange(0, 4) =~= base.subrange(0, 4));
        assert((base + seq!['/'] + href).subrange(0, 4) =~= base.subrange(0, 4));
        let t = trail_count(base, eq_pred('/'));
        lemma_trail_le(base, eq_pred('/'));
        if t > base.len() - 4 {
            assert(eq_pred('/')(base[3]));
            assert(base.subrange(0, 4)[3] == 'p');
        }
        assert(join_path(base, href).subrange(0, 4) =~= base.subrange(0, 4));
    }
}

/// A base that starts with `"http"` still does without its trailing slashes.
pub proof fn lemma_trimmed_base_http(base: Seq<char>)
    requires
        starts_with(base, "http"@),
    ensures
        starts_with(trim_end_char(base, '/'), "http"@),
{
    reveal_strlit("http");
    let t = trail_count(base, eq_pred('/'));
    lemma_trail_le(base, eq_pred('/'));
    if t > base.len() - 4 {
        assert(eq_pred('/')(base[3]));
        assert(base.subrange(0, 4)[3] == 'p');
    }
    assert(trim_end_char(base, '/').subrange(0, 4) =~= base.subrange(0, 4));
}

/// A link made absolute with [`abs_scheme_join`] against a base that starts
/// with `"http"` starts with `"http"`.
pub proof fn lemma_abs_scheme_join_http(base: Seq<char>, href: Seq<char>)
    requires
        starts_with(base, "http"@),
    ensures
        starts_with(abs_scheme_join(base, href), "http"@),
{
    reveal_strlit("http");
    reveal_strlit("http://");
    reveal_strlit("https://");
    let h = trim(href);
    if starts_with(h, "http://"@) {
        assert(h.subrange(0, 4) =~= h.subrange(0, 7).subrange(0, 4));
        assert("http://"@.subrange(0, 4) =~= "http"@);
    } else if starts_with(h, "https://"@) {
        assert(h.subrange(0, 4) =~= h.subrange(0, 8).subrange(0, 4));
        assert("https://"@.subrange(0, 4) =~= "http"@);
    } else {
        lemma_trimmed_base_http(base);
        let b = trim_end_char(base, '/');
        assert(join_path(base, h).subrange(0, 4) =~= b.subrange(0, 4));
    }
}

} // verus!
