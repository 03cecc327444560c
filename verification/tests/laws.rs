use bunori_extensions::clean::{clean_html_exec, tag_list};
use bunori_extensions::madara_details::add_genres_exec;
use bunori_extensions::models::ChapterDto;
use bunori_extensions::snap::Snap;
use bunori_extensions::sort::{stable_sort, SortKey};
use bunori_extensions::text::chars_of;
use bunori_extensions::urls::{abs_http_concat_exec, abs_http_join_exec};

fn ch(index: i32, title: &str, scan: Option<&str>) -> ChapterDto {
    ChapterDto {
        url: format!("u/{}", title),
        title: title.to_string(),
        index,
        release_date: None,
        scanlation: scan.map(|s| s.to_string()),
    }
}

#[test]
fn stable_sort_keeps_equal_keys_in_order() {
    let v = vec![ch(3, "c", None), ch(1, "a1", None), ch(2, "b", None), ch(1, "a2", None)];
    let r = stable_sort(SortKey::Index, v);
    let titles: Vec<&str> = r.iter().map(|c| c.title.as_str()).collect();
    assert_eq!(titles, vec!["a1", "a2", "b", "c"]);
}

#[test]
fn stable_sort_by_group_puts_none_first() {
    let v = vec![ch(1, "x", Some("Zed")), ch(1, "y", None), ch(1, "z", Some("Amy")), ch(0, "w", Some("Amy"))];
    let r = stable_sort(SortKey::IndexThenScanlation, v);
    let titles: Vec<&str> = r.iter().map(|c| c.title.as_str()).collect();
    assert_eq!(titles, vec!["w", "y", "z", "x"]);
    assert_eq!(r.len(), 4);
}

#[test]
fn stable_sort_is_a_permutation() {
    let v = vec![ch(2, "b", None), ch(2, "b", None), ch(1, "a", None)];
    let r = stable_sort(SortKey::Index, v);
    let titles: Vec<&str> = r.iter().map(|c| c.title.as_str()).collect();
    assert_eq!(titles, vec!["a", "b", "b"]);
}

#[test]
fn cleaning_leaves_no_complete_block() {
    let tags = tag_list(&["script", "style"]);
    let c = clean_html_exec("  <p>a</p><script>x</script><p>b</p><style>.s{}</style><script>unclosed ", &tags);
    assert_eq!(c, "<p>a</p><p>b</p><script>unclosed");
    let twice = clean_html_exec(&c, &tags);
    assert_eq!(twice, c);
}

#[test]
fn absolute_links_are_stable() {
    let base = chars_of("https://site.example");
    let once = abs_http_concat_exec(&base, &chars_of("/p/1"));
    let twice = abs_http_concat_exec(&base, &once);
    assert_eq!(once, twice);
    assert_eq!(once.iter().collect::<String>(), "https://site.example/p/1");
}

#[test]
fn genres_are_nonempty_and_distinct() {
    let snap = |t: &str| Snap { texts: vec![chars_of(t)], attrs: vec![] };
    let mut gs: Vec<Vec<char>> = Vec::new();
    add_genres_exec(&mut gs, &vec![snap(" Action "), snap(""), snap("Action"), snap("Drama")]);
    let got: Vec<String> = gs.iter().map(|g| g.iter().collect()).collect();
    assert_eq!(got, vec!["Action", "Drama"]);
}

#[test]
fn joined_links_are_stable() {
    let base = chars_of("https://site.example/");
    let once = abs_http_join_exec(&base, &chars_of("p/1"));
    let twice = abs_http_join_exec(&base, &once);
    assert_eq!(once, twice);
    assert_eq!(once.iter().collect::<String>(), "https://site.example/p/1");
}

#[test]
fn blocks_start_at_any_tag_prefix() {
    let tags = tag_list(&["nav", "ins"]);
    assert_eq!(clean_html_exec("<p>a</p><nav-menu>x</nav><p>b</p>", &tags), "<p>a</p><p>b</p>");
    assert_eq!(clean_html_exec("<p>a</p><ins/>ad</ins><input value=\"1\"><p>b</p>", &tags), "<p>a</p><input value=\"1\"><p>b</p>");
}

#[test]
fn concatenated_links_get_a_slash_only_when_missing() {
    let s = |b: &str, h: &str| abs_http_concat_exec(&chars_of(b), &chars_of(h)).iter().collect::<String>();
    assert_eq!(s("https://a.example", "/p/1"), "https://a.example/p/1");
    assert_eq!(s("https://a.example", "p/1"), "https://a.example/p/1");
    assert_eq!(s("https://a.example/", "/p/1"), "https://a.example//p/1");
    assert_eq!(s("https://a.example", ""), "https://a.example");
    assert_eq!(s("https://a.example", "https://b/x"), "https://b/x");
}
