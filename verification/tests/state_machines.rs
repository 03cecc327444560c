use bunori_extensions::fetch::Method;
use bunori_extensions::json::JsonValue;
use bunori_extensions::novelarchive::{
    NaChapterContent, NaChapterResponse, NaNovelDetail, NaSearchNovel, NaSourceChapter, NaSourceItem, NaStep,
    NovelArchiveSource,
};
use bunori_extensions::novelbuddy::{NbyChapterItem, NbyManga, NbySearchItem, NovelBuddySource};

const BASE: &str = "https://novelarchive.example";

fn detail(names: Vec<&str>, total: Option<JsonValue>, sources: Vec<NaSourceItem>) -> NaNovelDetail {
    NaNovelDetail {
        title: Some("T".to_string()),
        author: None,
        cover_url: Some("/c.png".to_string()),
        description: None,
        chapter_names: names.into_iter().map(|s| s.to_string()).collect(),
        total_chapters: total,
        sources,
    }
}

fn source(id: &str, label: Option<&str>, name: Option<&str>) -> NaSourceItem {
    NaSourceItem { id: id.to_string(), label: label.map(|s| s.to_string()), name: name.map(|s| s.to_string()) }
}

#[test]
fn novelarchive_first_step() {
    let (id, req) = NovelArchiveSource::get_novel_details(BASE, "https://novelarchive.example/novel?id=abc").unwrap();
    assert_eq!(id, "abc");
    assert_eq!(req.url, "https://novelarchive.example/api/novels/abc");
    assert_eq!(
        NovelArchiveSource::get_novel_details(BASE, "https://novelarchive.example/x").err().unwrap(),
        "Could not extract novel ID from https://novelarchive.example/x"
    );
}

#[test]
fn novelarchive_missing_novel_is_an_error() {
    let r = NovelArchiveSource::on_detail(BASE, "NA", "u", "abc", None);
    assert_eq!(r.err().unwrap(), "Missing 'novel' object in response");
}

#[test]
fn novelarchive_sources_read_in_turn_then_sorted() {
    let d = detail(
        vec!["", "Two"],
        None,
        vec![source(" s1 ", None, Some("Src")), source("s1", Some("dup"), None), source("  ", None, None)],
    );
    let (f, step) = NovelArchiveSource::on_detail(BASE, "NA", "https://novelarchive.example/novel?id=abc", "abc", Some(d)).unwrap();
    assert_eq!(f.title, "T");
    assert_eq!(f.cover_url.as_deref(), Some("https://novelarchive.example/c.png"));
    assert_eq!(f.chapters.len(), 2);
    assert_eq!(f.chapters[0].title, "Chapter 1");
    assert_eq!(f.chapters[0].url, "https://novelarchive.example/api/novels/abc/chapters/1");
    assert_eq!(f.chapters[1].title, "Two");
    assert_eq!(f.sources, vec![("s1".to_string(), "Src".to_string())]);
    let req = match step {
        NaStep::Fetch(r) => r,
        NaStep::Done(_) => panic!("expected a source request"),
    };
    assert_eq!(req.url, "https://novelarchive.example/api/novels/abc/sources/s1/chapters");
    let chapters = vec![
        NaSourceChapter { number: Some(1), chapter_number: None, index: None, title: Some("One".to_string()), name: None, url: None },
        NaSourceChapter { number: None, chapter_number: None, index: None, title: None, name: None, url: Some("/r/2".to_string()) },
    ];
    let (f, step) = NovelArchiveSource::on_source_chapters(BASE, f, Some(chapters));
    assert_eq!(f.next, 1);
    let n = match step {
        NaStep::Done(n) => n,
        NaStep::Fetch(_) => panic!("expected the novel"),
    };
    let got: Vec<(i32, String, Option<String>)> =
        n.chapters.iter().map(|c| (c.index, c.title.clone(), c.scanlation.clone())).collect();
    assert_eq!(
        got,
        vec![
            (1, "Chapter 1".to_string(), Some("NA".to_string())),
            (1, "One".to_string(), Some("Src".to_string())),
            (2, "Two".to_string(), Some("NA".to_string())),
            (2, "Chapter 2".to_string(), Some("Src".to_string())),
        ]
    );
    assert_eq!(n.chapters[1].url, "https://novelarchive.example/api/novels/abc/sources/s1/chapters/1");
    assert_eq!(n.chapters[3].url, "https://novelarchive.example/r/2");
}

#[test]
fn novelarchive_asks_for_sources_when_none_listed() {
    let d = detail(vec![], Some(JsonValue::Str("3".to_string())), vec![]);
    let (f, step) = NovelArchiveSource::on_detail(BASE, "NA", "u", "abc", Some(d)).unwrap();
    assert_eq!(f.chapters.len(), 3);
    assert_eq!(f.chapters[2].title, "Chapter 3");
    let req = match step {
        NaStep::Fetch(r) => r,
        NaStep::Done(_) => panic!("expected the sources request"),
    };
    assert_eq!(req.url, "https://novelarchive.example/api/novels/abc/sources");
    assert!(f.awaiting_sources);
    let (f, step) = NovelArchiveSource::on_sources(BASE, f, None);
    assert!(!f.awaiting_sources);
    assert!(f.sources.is_empty());
    assert!(matches!(step, NaStep::Done(_)));
}

#[test]
fn novelarchive_chapters_after_last_source_change_nothing() {
    let d = detail(vec![], Some(JsonValue::Number(Some(1))), vec![]);
    let (f, _) = NovelArchiveSource::on_detail(BASE, "NA", "u", "abc", Some(d)).unwrap();
    let (f, _) = NovelArchiveSource::on_sources(BASE, f, None);
    let (f, step) = NovelArchiveSource::on_source_chapters(BASE, f, Some(Vec::new()));
    assert_eq!(f.next, 0);
    assert_eq!(f.chapters.len(), 1);
    match step {
        NaStep::Done(n) => assert_eq!(n.chapters.len(), 1),
        NaStep::Fetch(_) => panic!("nothing is left to fetch"),
    }
}

#[test]
fn novelbuddy_api_content_comes_first() {
    let r = NovelBuddySource::after_api("https://novelbuddy.me/c/1?id=2", Some("  Text ".to_string()));
    assert_eq!(r.ok().as_deref(), Some("Text"));
    let r = NovelBuddySource::after_api("https://novelbuddy.me/c/1?id=2", None);
    let req = r.err().unwrap();
    assert_eq!(req.url, "https://novelbuddy.me/c/1");
    assert!(matches!(req.method, Method::Get));
}

#[test]
fn novelarchive_total_from_number() {
    let d = detail(vec![], Some(JsonValue::Number(Some(2))), vec![]);
    let (f, _) = NovelArchiveSource::on_detail(BASE, "NA", "u", "abc", Some(d)).unwrap();
    assert_eq!(f.chapters.len(), 2);
    let d = detail(vec![], Some(JsonValue::Str("x".to_string())), vec![]);
    let (f, _) = NovelArchiveSource::on_detail(BASE, "NA", "u", "abc", Some(d)).unwrap();
    assert_eq!(f.chapters.len(), 0);
}

#[test]
fn novelarchive_search_results() {
    let novels = vec![NaSearchNovel {
        id: "n1".to_string(),
        title: "Novel".to_string(),
        author: Some("A".to_string()),
        cover_url: None,
        novel_image: Some("/i.png".to_string()),
        image_url: Some("https://ignored".to_string()),
    }];
    let r = NovelArchiveSource::search_results(BASE, &novels);
    assert_eq!(r[0].url, "https://novelarchive.example/novel?id=n1");
    assert_eq!(r[0].cover_url.as_deref(), Some("https://novelarchive.example/i.png"));
}

#[test]
fn novelarchive_result_links_give_back_their_id() {
    let novels = vec![NaSearchNovel {
        id: "65f0c0ffee0000000000abcd".to_string(),
        title: "Novel".to_string(),
        author: None,
        cover_url: None,
        novel_image: None,
        image_url: None,
    }];
    let r = NovelArchiveSource::search_results(BASE, &novels);
    assert_eq!(NovelArchiveSource::extract_id(&r[0].url).as_deref(), Some("65f0c0ffee0000000000abcd"));
}

#[test]
fn novelarchive_content_from_html_or_text() {
    let resp = NaChapterResponse {
        chapter: Some(NaChapterContent { content_html: Some("<img src=\"/a.png\"><img src='/b.png'>".to_string()), content: None }),
        content_html: None,
        content: None,
    };
    assert_eq!(
        NovelArchiveSource::get_chapter_content(BASE, &resp).as_deref(),
        Some("<img src=\"https://novelarchive.example/a.png\"><img src='https://novelarchive.example/b.png'>")
    );
    let resp = NaChapterResponse { chapter: None, content_html: None, content: Some(" one \n\n  two\n".to_string()) };
    assert_eq!(NovelArchiveSource::get_chapter_content(BASE, &resp).as_deref(), Some("<p>one</p>\n<p>two</p>"));
    let resp = NaChapterResponse { chapter: None, content_html: None, content: None };
    assert_eq!(NovelArchiveSource::get_chapter_content(BASE, &resp), None);
}

#[test]
fn novelbuddy_details_and_chapters() {
    let manga = NbyManga {
        id: "m1".to_string(),
        name: Some("  Name ".to_string()),
        cover: Some("https://img/c.jpg".to_string()),
        status: Some("Dropped".to_string()),
        summary: Some("<p>Hi</p><p>there</p>".to_string()),
        authors: Some(vec![Some("A".to_string()), None, Some("B".to_string())]),
        genres: Some(vec![Some("G".to_string()), None]),
    };
    let (d, req) = NovelBuddySource::manga_details(&Some(manga)).unwrap();
    assert_eq!(req.url, "https://api.novelbuddy.me/titles/m1/chapters");
    assert!(matches!(req.method, Method::Get));
    assert_eq!(d.title, "Name");
    assert_eq!(d.author.as_deref(), Some("A, B"));
    assert_eq!(d.status.as_deref(), Some("Cancelled"));
    assert_eq!(d.description.as_deref(), Some("Hi\nthere"));
    assert_eq!(d.genres, vec!["G".to_string()]);
    let items = vec![
        NbyChapterItem { id: "c2".to_string(), name: None, url: Some("/novel/x/c2".to_string()), number_text: Some("2".to_string()), updated_at: None },
        NbyChapterItem { id: "c1".to_string(), name: Some(" First ".to_string()), url: Some("novel/x/c1".to_string()), number_text: None, updated_at: Some("2024".to_string()) },
    ];
    let n = NovelBuddySource::finish_details("https://novelbuddy.me", "https://novelbuddy.me/novel/x", d, &Some(items));
    assert_eq!(n.chapters.len(), 2);
    assert_eq!(n.chapters[0].title, "First");
    assert_eq!(n.chapters[0].index, 1);
    assert_eq!(n.chapters[0].url, "https://novelbuddy.me/novel/x/c1?id=m1&chapterId=c1");
    assert_eq!(n.chapters[0].release_date.as_deref(), Some("2024"));
    assert_eq!(n.chapters[1].title, "Chapter 2");
    assert_eq!(n.chapters[1].index, 2);
    assert_eq!(n.chapters[1].url, "https://novelbuddy.me/novel/x/c2?id=m1&chapterId=c2");
    assert_eq!(
        NovelBuddySource::manga_details(&None).err().unwrap(),
        "Could not find initialManga in pageProps"
    );
}

#[test]
fn novelbuddy_status_names() {
    let m = |s: &str| NbyManga {
        id: "i".to_string(),
        name: None,
        cover: None,
        status: Some(s.to_string()),
        summary: None,
        authors: None,
        genres: None,
    };
    let st = |s: &str| NovelBuddySource::manga_details(&Some(m(s))).unwrap().0.status.unwrap();
    assert_eq!(st("ONGOING"), "Ongoing");
    assert_eq!(st("completed"), "Completed");
    assert_eq!(st("Hiatus"), "On Hiatus");
    assert_eq!(st("cancelled"), "Cancelled");
    assert_eq!(st("Weird"), "Weird");
}

#[test]
fn novelbuddy_search_results_skip_incomplete() {
    let items = vec![
        NbySearchItem { name: Some(" A ".to_string()), url: Some("/novel/a".to_string()), cover: None },
        NbySearchItem { name: None, url: Some("/novel/b".to_string()), cover: None },
        NbySearchItem { name: Some("C".to_string()), url: Some("https://x/c".to_string()), cover: Some("k".to_string()) },
    ];
    let r = NovelBuddySource::search_results("https://novelbuddy.me", &Some(items));
    assert_eq!(r.len(), 2);
    assert_eq!(r[0].url, "https://novelbuddy.me/novel/a");
    assert_eq!(r[0].title, "A");
    assert_eq!(r[1].url, "https://x/c");
    assert_eq!(r[1].cover_url.as_deref(), Some("https://novelbuddy.me/k"));
    assert!(NovelBuddySource::search_results("b", &None).is_empty());
}

#[test]
fn novelbuddy_relative_detail_cover_is_absolute() {
    let manga = NbyManga {
        id: "m2".to_string(),
        name: Some("N".to_string()),
        cover: Some("covers/m2.jpg".to_string()),
        status: None,
        summary: None,
        authors: None,
        genres: None,
    };
    let (d, _) = NovelBuddySource::manga_details(&Some(manga)).unwrap();
    let n = NovelBuddySource::finish_details("https://novelbuddy.me", "https://novelbuddy.me/novel/n", d, &None);
    assert_eq!(n.cover_url.as_deref(), Some("https://novelbuddy.me/covers/m2.jpg"));
}
