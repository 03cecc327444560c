use bunori_extensions::fetch::Method;
use bunori_extensions::json::JsonValue;
use bunori_extensions::madara::MadaraEngine;
use bunori_extensions::madara_chapters::MadaraFetch;
use bunori_extensions::novelfire::{NovelFireEngine, NovelFireFetch};
use bunori_extensions::readnovelfull::ReadNovelFullEngine;

fn object(members: Vec<(&str, JsonValue)>) -> JsonValue {
    JsonValue::Object(members.into_iter().map(|(k, v)| (k.to_string(), v)).collect())
}

fn text(s: &str) -> JsonValue {
    JsonValue::Str(s.to_string())
}

#[test]
fn madara_list_reads_titles_and_lazy_covers() {
    let e = MadaraEngine::new("https://madara.example".to_string());
    let page = r##"<html><body>
      <div class="page-item-detail"><div class="post-title"><a href="/novel/one/"> One </a></div><img data-src="/c1.jpg" src="/placeholder.gif"></div>
      <div class="page-item-detail"><div class="post-title"><a href="#">Skip</a></div></div>
      <div class="page-item-detail"><div class="post-title"><a href="https://other.example/two"> Two</a></div></div>
    </body></html>"##;
    let r = e.parse_novel_list(page);
    assert_eq!(r.len(), 2);
    assert_eq!(r[0].url, "https://madara.example/novel/one/");
    assert_eq!(r[0].title, "One");
    assert_eq!(r[0].cover_url.as_deref(), Some("https://madara.example/c1.jpg"));
    assert_eq!(r[1].url, "https://other.example/two");
}

#[test]
fn madara_chapter_fetch_starts_by_endpoint() {
    let e = MadaraEngine::new("https://madara.example".to_string());
    let page = r#"<html><body><div class="post-title"><h1>Title</h1></div><div id="manga-chapters-holder" data-id="55"></div></body></html>"#;
    let doc = page;
    let d = e.get_novel_details(&doc).unwrap();
    assert_eq!(d.title, "Title");
    let (state, req) = e.fetch_start("https://madara.example/novel/x/", &d);
    if d.novel_id.is_empty() {
        assert!(matches!(state, MadaraFetch::Done { .. }));
        assert!(req.is_none());
    } else {
        assert!(matches!(state, MadaraFetch::AdminAjax));
        let req = req.unwrap();
        assert!(matches!(req.method, Method::Post));
        assert_eq!(req.url, "https://madara.example/wp-admin/admin-ajax.php");
        assert_eq!(req.body, format!("action=manga_get_chapters&manga={}", d.novel_id));
    }
    let mut e2 = MadaraEngine::new("https://madara.example".to_string());
    e2.use_new_chapter_endpoint = true;
    let (state, req) = e2.fetch_start("https://madara.example/novel/x/", &d);
    assert!(matches!(state, MadaraFetch::FirstPage));
    assert_eq!(req.unwrap().url, "https://madara.example/novel/x/ajax/chapters/");
}

#[test]
fn madara_invalid_title_selector_is_an_error() {
    let mut e = MadaraEngine::new("https://madara.example".to_string());
    e.detail_title_selector = "[[".to_string();
    let doc = "<html></html>";
    let err = e.get_novel_details(&doc).err().unwrap();
    assert!(!err.is_empty());
    assert_ne!(err, "[[");
}

#[test]
fn readnovelfull_list_rows() {
    let e = ReadNovelFullEngine::new("https://rnf.example".to_string());
    let page = r#"<html><body><div class="list-novel"><div class="row">
      <h3 class="novel-title"><a href="/n/a.html">A novel</a></h3><img class="cover" src="/a.jpg"><span class="author"> Auth </span>
    </div></div></body></html>"#;
    let r = e.parse_novel_list(page);
    assert_eq!(r.len(), 1);
    assert_eq!(r[0].url, "https://rnf.example/n/a.html");
    assert_eq!(r[0].title, "A novel");
    assert_eq!(r[0].cover_url.as_deref(), Some("https://rnf.example/a.jpg"));
    assert_eq!(r[0].author.as_deref(), Some("Auth"));
    assert_eq!(
        e.search("x y", 2).url,
        "https://rnf.example/search?keyword=x+y&page=2"
    );
}

#[test]
fn novelfire_search_results_from_json() {
    let e = NovelFireEngine::new("https://novelfire.example".to_string());
    let json = object(vec![(
        "data",
        JsonValue::Array(vec![
            object(vec![("title", text("Alpha")), ("slug", text("alpha")), ("image", text("/a.jpg"))]),
            object(vec![("title", text("")), ("slug", text("beta"))]),
            object(vec![("title", text("Gamma")), ("slug", text("https://x/g"))]),
        ]),
    )]);
    let r = e.search_results(Some(json));
    assert_eq!(r.len(), 2);
    assert_eq!(r[0].url, "https://novelfire.example/novel/alpha");
    assert_eq!(r[0].cover_url.as_deref(), Some("https://novelfire.example/a.jpg"));
    assert_eq!(r[1].url, "https://x/g");
    assert_eq!(r[1].cover_url, None);
    assert!(e.search_results(None).is_empty());
}

#[test]
fn novelfire_invalid_content_selector_is_an_error() {
    let mut e = NovelFireEngine::new("https://novelfire.example".to_string());
    e.chapter_content_selector = "[[".to_string();
    assert!(e.get_chapter_content("<html></html>").is_err());
    let e = NovelFireEngine::new("https://novelfire.example".to_string());
    assert_eq!(
        e.get_chapter_content("<html><body><div id=\"chapter-content\"> <p>x</p><iframe>ad</iframe> </div></body></html>").unwrap().as_deref(),
        Some("<p>x</p>")
    );
}

#[test]
fn madara_content_keeps_input_and_drops_ins() {
    let e = MadaraEngine::new("https://m.site".to_string());
    let page = "<html><body><div class='reading-content'><p>A</p><input type='hidden'><p>B</p><ins>ad</ins></div></body></html>";
    assert_eq!(
        e.get_chapter_content(page).unwrap().as_deref(),
        Some("<p>A</p><input type=\"hidden\"><p>B</p>")
    );
    assert_eq!(e.get_chapter_content("<html><body><p>none</p></body></html>").unwrap(), None);
}

#[test]
fn readnovelfull_relative_links_get_a_slash() {
    let e = ReadNovelFullEngine::new("https://rnf.com".to_string());
    let page = "<html><body><div class='list-novel'><div class='row'><h3 class='novel-title'><a href='novel/abc.html'>ABC</a></h3></div></div></body></html>";
    let r = e.parse_novel_list(page);
    assert_eq!(r.len(), 1);
    assert_eq!(r[0].url, "https://rnf.com/novel/abc.html");
}

#[test]
fn readnovelfull_options_numbered_from_one() {
    let e = ReadNovelFullEngine::new("https://r.com".to_string());
    let ajax = "<select><option value='0'>Select</option><option value='/c-1.html'>C1</option><option value='/c-2.html'>C2</option></select>";
    let r = e.ajax_chapters(ajax);
    assert_eq!(r.len(), 2);
    assert_eq!(r[0].url, "https://r.com/c-1.html");
    assert_eq!(r[0].title, "C1");
    assert_eq!(r[0].index, 1);
    assert_eq!(r[1].url, "https://r.com/c-2.html");
    assert_eq!(r[1].index, 2);
}

#[test]
fn madara_genres_are_trimmed_and_distinct() {
    let e = MadaraEngine::new("https://m.site".to_string());
    let page = r#"<html><body><div class="post-title"><h1>T</h1></div>
      <div class="post-content_item"><h5>Genre(s)</h5><div class="summary-content"><a> Action </a><a>Action</a><a> </a><a>Drama</a></div></div>
    </body></html>"#;
    let d = e.get_novel_details(page).unwrap();
    assert_eq!(d.genres, vec!["Action".to_string(), "Drama".to_string()]);
}

#[test]
fn madara_chapters_oldest_first_numbered_from_one() {
    let e = MadaraEngine::new("https://m.site".to_string());
    let d = e.get_novel_details("<html><body><div class='post-title'><h1>T</h1></div></body></html>").unwrap();
    let chapters = "<ul><li class='wp-manga-chapter'><a href='/n/c-2/'>Chapter 2</a></li><li class='wp-manga-chapter premium-block'><a href='/n/c-1/'>Chapter 1</a></li><li class='wp-manga-chapter'><a href='#'>x</a></li></ul>";
    let n = e.finish_details("https://m.site/n/", d, "<html></html>", chapters);
    assert_eq!(n.chapters.len(), 2);
    assert_eq!(n.chapters[0].index, 1);
    assert_eq!(n.chapters[0].url, "https://m.site/n/c-1/");
    assert_eq!(n.chapters[0].title, "🔒 Chapter 1");
    assert_eq!(n.chapters[1].index, 2);
    assert_eq!(n.chapters[1].url, "https://m.site/n/c-2/");
}

#[test]
fn readnovelfull_bad_selector_error_is_the_parser_message() {
    let mut e = ReadNovelFullEngine::new("https://r.com".to_string());
    e.chapter_content_selector = "[[".to_string();
    let expected = e.get_chapter_content("<html></html>").err().unwrap();
    let mut d = ReadNovelFullEngine::new("https://r.com".to_string());
    d.detail_author_selector = "[[".to_string();
    assert_eq!(d.get_novel_details("<html></html>").err().unwrap(), expected);
    let mut f = NovelFireEngine::new("https://nf.com".to_string());
    f.list_cover_selector = "[[".to_string();
    assert_eq!(f.parse_listing("<html></html>").err().unwrap(), expected);
}

#[test]
fn novelfire_search_body_is_read_as_json() {
    let e = NovelFireEngine::new("https://novelfire.example".to_string());
    let body = r#"{"data":[{"title":"Alpha","slug":"alpha","image":"/a.jpg"},{"title":"","slug":"beta"}]}"#;
    let r = e.search_body(body);
    assert_eq!(r.len(), 1);
    assert_eq!(r[0].url, "https://novelfire.example/novel/alpha");
    assert_eq!(r[0].cover_url.as_deref(), Some("https://novelfire.example/a.jpg"));
    assert!(e.search_body("not json").is_empty());
    assert_eq!(e.details_url("https://novelfire.example/book/x//"), "https://novelfire.example/book/x");
}

#[test]
fn novelfire_ajax_body_that_is_not_json_falls_back_to_the_list() {
    let e = NovelFireEngine::new("https://novelfire.example".to_string());
    let (state, next) = e.on_ajax_body("https://novelfire.example/book/x/", Some("<html>".to_string()));
    assert!(matches!(state, NovelFireFetch::List));
    assert!(next.is_some());
    let (state, _) = e.on_ajax_body("https://novelfire.example/book/x/", None);
    assert!(matches!(state, NovelFireFetch::List));
}
