use bunori_extensions::annasarchive::AnnaSArchiveSource;
use bunori_extensions::asianovel::AsiaNovelSource;
use bunori_extensions::json::JsonValue;
use bunori_extensions::novelbins::{NbStep, NovelBinsSource};
use bunori_extensions::novelbuddy::NovelBuddySource;
use bunori_extensions::novelupdates::NovelUpdatesSource;

const NU: &str = "https://www.novelupdates.com";

#[test]
fn novelupdates_list_drops_repeated_urls() {
    let html = r#"<html><body>
      <div class="search_main_box_nu"><div class="search_title"><a href="/series/a/">Alpha</a></div>
        <div class="search_img_nu"><img data-src="/img/a.jpg"></div></div>
      <div class="search_main_box_nu"><div class="search_title"><a href="/series/a/">Alpha again</a></div></div>
      <div class="search_main_box_nu"><div class="search_title"><a href="https://other.example/b">  Beta </a></div></div>
      <div class="search_main_box_nu"><div class="search_title"><a href="/series/c/">  </a></div></div>
    </body></html>"#;
    let doc = html;
    let r = NovelUpdatesSource::parse_novel_list(&doc, NU).unwrap();
    assert_eq!(r.len(), 2);
    assert_eq!(r[0].url, "https://www.novelupdates.com/series/a/");
    assert_eq!(r[0].title, "Alpha");
    assert_eq!(r[0].cover_url.as_deref(), Some("https://www.novelupdates.com/img/a.jpg"));
    assert_eq!(r[1].url, "https://other.example/b");
    assert_eq!(r[1].title, "Beta");
    assert_eq!(r[1].cover_url, None);
}

#[test]
fn novelupdates_chapters_oldest_first_with_groups() {
    let html = r#"<ul>
      <li class="sp_li_chp"><a href="//www.novelupdates.com/group/x/">GroupX</a> <a href="//www.novelupdates.com/extnu/123/">c2</a></li>
      <li class="sp_li_chp"><a href="//www.novelupdates.com/group/x/">GroupX</a> <a href="//www.novelupdates.com/extnu/122/">c1</a></li>
      <li class="sp_li_chp"><a href="/extnu/121/">prologue</a></li>
      <li class="sp_li_chp"><span>no link</span></li>
    </ul>"#;
    let cs = NovelUpdatesSource::parse_chapters(html, NU);
    assert_eq!(cs.len(), 3);
    assert_eq!(cs[0].url, "https://www.novelupdates.com/extnu/121/");
    assert_eq!(cs[0].title, "Prologue");
    assert_eq!(cs[0].index, 1);
    assert_eq!(cs[0].scanlation, None);
    assert_eq!(cs[1].url, "https://www.novelupdates.com/extnu/122/");
    assert_eq!(cs[1].title, "Chapter 1");
    assert_eq!(cs[1].index, 1);
    assert_eq!(cs[1].scanlation.as_deref(), Some("GroupX"));
    assert_eq!(cs[2].title, "Chapter 2");
    assert_eq!(cs[2].index, 2);
}

#[test]
fn novelupdates_details_need_post_id() {
    let page = r#"<html><body><div class="seriestitlenu">My Novel</div></body></html>"#;
    let doc = page;
    let r = NovelUpdatesSource::get_novel_details(&doc, NU);
    assert_eq!(
        r.err().unwrap(),
        "Could not find 'mypostid' on NovelUpdates. Please open the novel in Webview once to authenticate/bypass protection."
    );
}

#[test]
fn novelupdates_details_fields() {
    let page = r#"<html><body>
      <div class="seriestitlenu"> My Novel </div>
      <div class="wpb_wrapper"><img src="/cover.jpg"></div>
      <div id="showtype"> Web Novel </div>
      <div id="editdescription"><p>First.</p><p>Second.</p></div>
      <a id="authtag"> A1 </a><a id="authtag"></a><a id="authtag">A2</a>
      <div id="seriesgenre"><a>Action</a><a> </a><a>Drama</a></div>
      <div id="editstatus">12 Chapters (Ongoing)</div>
      <input id="mypostid" value="777">
    </body></html>"#;
    let doc = page;
    let d = NovelUpdatesSource::get_novel_details(&doc, NU).unwrap();
    assert_eq!(d.title, "My Novel");
    assert_eq!(d.cover_url.as_deref(), Some("https://www.novelupdates.com/cover.jpg"));
    assert_eq!(d.description.as_deref(), Some("First.\nSecond.\n\nType: Web Novel"));
    assert_eq!(d.author.as_deref(), Some("A1, A2"));
    assert_eq!(d.genres, vec!["Action".to_string(), "Drama".to_string()]);
    assert_eq!(d.status.as_deref(), Some("Ongoing"));
    assert_eq!(d.post_id, "777");
    let n = NovelUpdatesSource::finish_details("https://www.novelupdates.com/series/x/", d, Vec::new());
    assert_eq!(n.title, "My Novel");
    assert!(n.chapters.is_empty());
}

#[test]
fn novelupdates_content_detects_bot_check() {
    let page = "<html><head><title>Just a moment...</title></head><body><div class=\"entry-content\">x</div></body></html>";
    assert_eq!(
        NovelUpdatesSource::get_chapter_content(page).err().unwrap(),
        "Cloudflare/Captcha detected. Please open in Webview to verify."
    );
}

#[test]
fn novelupdates_content_picks_long_enough_block() {
    let long = "This paragraph is certainly longer than fifty bytes of text.";
    let page = format!(
        "<html><head><title>Chapter</title></head><body><div class=\"chapter__content\">short</div><div class=\"entry-content\"><p>{}</p><script>ads()</script><nav>menu</nav></div></body></html>",
        long
    );
    let c = NovelUpdatesSource::get_chapter_content(&page).unwrap().unwrap();
    assert_eq!(c, format!("<p>{}</p>", long));
    let tiny = "<html><body><p>tiny</p></body></html>";
    assert_eq!(NovelUpdatesSource::get_chapter_content(tiny).unwrap(), None);
}

#[test]
fn novelbins_cards_read_style_images() {
    let page = r#"<html><body>
      <div class="mt-card-item"><div class="mt-card-avatar" style="background:url('https://img.example/a.png')"><a href="/novel/a">x</a></div><h3 class="mt-card-name"> A </h3></div>
      <div class="mt-card-item"><div class="mt-card-avatar" style="background:url(&quot;/b.png&quot;)"><a href="/novel/b">x</a></div><h3 class="mt-card-name">B</h3></div>
      <div class="mt-card-item"><h3 class="mt-card-name">No link</h3></div>
    </body></html>"#;
    let doc = page;
    let search = NovelBinsSource::parse_cards(&doc, "https://nb.example", false).unwrap();
    assert_eq!(search.len(), 2);
    assert_eq!(search[0].url, "https://nb.example/novel/a");
    assert_eq!(search[0].title, "A");
    assert_eq!(search[0].cover_url.as_deref(), Some("https://img.example/a.png"));
    assert_eq!(search[1].cover_url, None);
    let listing = NovelBinsSource::parse_cards(&doc, "https://nb.example", true).unwrap();
    assert_eq!(listing[1].cover_url.as_deref(), Some("/b.png"));
}

fn obj(members: Vec<(&str, JsonValue)>) -> JsonValue {
    JsonValue::Object(members.into_iter().map(|(k, v)| (k.to_string(), v)).collect())
}

fn st(s: &str) -> JsonValue {
    JsonValue::Str(s.to_string())
}

#[test]
fn novelbins_tabs_then_sorted_chapters() {
    let page = r##"<html><body>
      <div class="novel-short-info"><h1> The Book </h1><p>Author: Someone</p><p>x</p></div>
      <img class="novel-photo" src="/c.jpg">
      <a class="ch" data-toggle="tab" href="#1">1</a>
    </body></html>"##;
    let doc = page;
    let base = "https://nb.example";
    let (f, step) = NovelBinsSource::get_novel_details(&doc, base, "https://nb.example/novel/the-book-123/").unwrap();
    assert_eq!(f.title, "The Book");
    assert_eq!(f.author.as_deref(), Some("Someone"));
    assert_eq!(f.cover_url.as_deref(), Some("https://nb.example/c.jpg"));
    assert_eq!(f.permalink, "the-book-123");
    assert_eq!(f.novel_id, "123");
    let req = match step {
        NbStep::Fetch(r) => r,
        NbStep::Done(_) => panic!("expected a tab request"),
    };
    assert_eq!(req.url, "https://nb.example/ajax/");
    assert_eq!(req.body, "action=get_chapters&id=123&tab=1");
    let items = vec![
        obj(vec![("chapter", st("2")), ("title", st("Two"))]),
        obj(vec![("chapter", st("x")), ("title", st("Extra"))]),
        obj(vec![("chapter", st("1")), ("title", st("One"))]),
    ];
    let (f, step) = NovelBinsSource::on_tab(base, f, Some(items));
    assert_eq!(f.next, 1);
    let n = match step {
        NbStep::Done(n) => n,
        NbStep::Fetch(_) => panic!("expected the novel"),
    };
    let idx: Vec<i32> = n.chapters.iter().map(|c| c.index).collect();
    assert_eq!(idx, vec![1, 2, 2]);
    assert_eq!(n.chapters[0].title, "One");
    // Equal indices keep their order: "Two" came before "Extra".
    assert_eq!(n.chapters[1].title, "Two");
    assert_eq!(n.chapters[2].title, "Extra");
    assert_eq!(n.chapters[1].url, "https://nb.example/novel/the-book-123/chapter/2/");
}

#[test]
fn novelbins_content_strips_scripts() {
    let page = "<html><body><div id=\"chr-content\"> <p>Hi</p><script>x()</script> </div></body></html>";
    assert_eq!(NovelBinsSource::get_chapter_content(page).as_deref(), Some("<p>Hi</p>"));
    assert_eq!(NovelBinsSource::get_chapter_content("<html><body></body></html>"), None);
}

#[test]
fn asianovel_cards_drop_repeated_urls() {
    let page = r#"<html><body><ul id="list-of-stories">
      <li class="card"><h3 class="card__title"><a href="/story/a">A</a></h3><img src="/a.jpg"><div class="card__by-author"><a> Ann </a></div></li>
      <li class="card"><h3 class="card__title"><a href="https://www.asianovel.net/story/a">A copy</a></h3></li>
      <li class="card"><h3 class="card__title"><a href="/story/b"> </a></h3></li>
    </ul></body></html>"#;
    let doc = page;
    let r = AsiaNovelSource::parse_cards(&doc, "https://www.asianovel.net").unwrap();
    assert_eq!(r.len(), 1);
    assert_eq!(r[0].url, "https://www.asianovel.net/story/a");
    assert_eq!(r[0].cover_url.as_deref(), Some("https://www.asianovel.net/a.jpg"));
    assert_eq!(r[0].author.as_deref(), Some("Ann"));
}

#[test]
fn asianovel_chapters_from_structured_data() {
    let page = r#"<html><head>
      <meta property="og:title" content="Great Story - Asianovel - read">
      <meta property="article:author" content="">
      <meta property="og:image" content="https://img/x.jpg">
      </head><body><header class="story__headline"><em class="story__author"><a> Writer </a></em></header>
      <script type="application/ld+json">{}</script></body></html>"#;
    let doc = page;
    let (raw, scripts) = AsiaNovelSource::get_novel_details(&doc).unwrap();
    assert_eq!(scripts.len(), 1);
    let list = obj(vec![
        ("@type", st("ItemList")),
        ("name", st("Chapters")),
        (
            "itemListElement",
            JsonValue::Array(vec![
                obj(vec![("url", st("https://x/2")), ("position", JsonValue::Number(Some(2)))]),
                obj(vec![("url", st("https://x/1")), ("position", JsonValue::Number(Some(1))), ("name", st("Start"))]),
                obj(vec![("position", JsonValue::Number(Some(3)))]),
            ]),
        ),
    ]);
    let parsed = vec![Some(obj(vec![("@graph", JsonValue::Array(vec![list]))]))];
    let n = AsiaNovelSource::assemble_details("https://www.asianovel.net", "https://www.asianovel.net/story/g", &raw, &parsed);
    assert_eq!(n.title, "Great Story");
    assert_eq!(n.author.as_deref(), Some("Writer"));
    assert_eq!(n.cover_url.as_deref(), Some("https://img/x.jpg"));
    assert_eq!(n.chapters.len(), 2);
    assert_eq!(n.chapters[0].title, "Start");
    assert_eq!(n.chapters[1].title, "Chapter 2");
    assert_eq!(n.chapters[1].url, "https://x/2");
}

#[test]
fn annasarchive_search_dedups_by_hash() {
    let page = r#"<html><body>
      <a href="/md5/abc123?x=1"><h3> Book One </h3><img src="/covers/1.jpg"><div class="italic">Auth</div></a>
      <a href="/md5/abc123/other">dup</a>
      <a href="/md5/def456">Second   book</a>
    </body></html>"#;
    let doc = page;
    let r = AnnaSArchiveSource::parse_search(&doc, "https://annas-archive.org").unwrap();
    assert_eq!(r.len(), 2);
    assert_eq!(r[0].url, "https://annas-archive.org/md5/abc123?x=1");
    assert_eq!(r[0].title, "Book One");
    assert_eq!(r[0].cover_url.as_deref(), Some("https://annas-archive.org/covers/1.jpg"));
    assert_eq!(r[0].author.as_deref(), Some("Auth"));
    assert_eq!(r[1].title, "Second   book");
}

#[test]
fn annasarchive_book_page() {
    let page = r#"<html><body><h1>  </h1>
      <a href="https://libgen.example/get/1">m1</a><a href="/slow_download/abc/0">m2</a><a href="https://libgen.example/get/1">m1 again</a><a href="/other">no</a>
    </body></html>"#;
    let doc = page;
    let n = AnnaSArchiveSource::get_novel_details(&doc, "https://annas-archive.org", "https://annas-archive.org/md5/ff00").unwrap();
    assert_eq!(n.title, "Book ff00");
    assert_eq!(n.status.as_deref(), Some("Completed"));
    assert_eq!(n.genres, vec!["E-Book".to_string()]);
    assert_eq!(n.extra.get("bookId").map(|s| s.as_str()), Some("aa_ff00"));
    assert_eq!(
        n.extra.get("mirrors").map(|s| s.as_str()),
        Some("https://libgen.example/get/1;https://annas-archive.org/slow_download/abc/0")
    );
}

#[test]
fn novelbuddy_next_data_script() {
    let html = r#"<html><script id="__NEXT_DATA__" type="application/json">{"a":1}</script></html>"#;
    assert_eq!(NovelBuddySource::next_data(html).unwrap().as_deref(), Some("{\"a\":1}"));
    assert_eq!(
        NovelBuddySource::get_novel_details("https://novelbuddy.me/novel/x", "<html></html>").err().unwrap(),
        "Could not find __NEXT_DATA__ script in https://novelbuddy.me/novel/x"
    );
}

#[test]
fn novelbuddy_page_content_fallbacks() {
    let page = "<html><body><div class=\"content-inner\"> Body Find authorized novels in Webnovel ad</div></body></html>";
    assert_eq!(NovelBuddySource::page_content("u", page, None).unwrap(), "Body");
    assert_eq!(NovelBuddySource::page_content("u", page, Some("  Next ".to_string())).unwrap(), "Next");
    assert_eq!(
        NovelBuddySource::page_content("https://c", "<html></html>", None).err().unwrap(),
        "Could not extract chapter content for https://c"
    );
}

#[test]
fn novelupdates_content_strips_iframes() {
    let long = "This paragraph is certainly longer than fifty bytes of text.";
    let page = format!(
        "<html><head><title>Chapter</title></head><body><div class=\"entry-content\"><p>{}</p><iframe src=\"x\">ad</iframe></div></body></html>",
        long
    );
    let c = NovelUpdatesSource::get_chapter_content(&page).unwrap().unwrap();
    assert_eq!(c, format!("<p>{}</p>", long));
}

#[test]
fn asianovel_relative_chapter_urls_are_absolute() {
    let list = obj(vec![
        ("@type", st("ItemList")),
        ("name", st("Chapters")),
        (
            "itemListElement",
            JsonValue::Array(vec![obj(vec![("url", st("/story/g/chapter-1")), ("position", JsonValue::Number(Some(1)))])]),
        ),
    ]);
    let parsed = vec![Some(obj(vec![("@graph", JsonValue::Array(vec![list]))]))];
    let r = AsiaNovelSource::collect_chapters("https://www.asianovel.net", &parsed, &None);
    assert_eq!(r.len(), 1);
    assert_eq!(r[0].url, "https://www.asianovel.net/story/g/chapter-1");
    assert_eq!(r[0].index, 1);
}

#[test]
fn novelbins_tab_body_is_read_as_json_array() {
    let page = r##"<html><body>
      <div class="novel-short-info"><h1>B</h1></div>
      <a class="ch" data-toggle="tab" href="#1">1</a>
    </body></html>"##;
    let base = "https://nb.example";
    let (f, _) = NovelBinsSource::get_novel_details(page, base, "https://nb.example/novel/b-9/").unwrap();
    let body = r#"[{"chapter":"2","title":"Two"},{"chapter":"1","title":"One"}]"#.to_string();
    let (f, step) = NovelBinsSource::on_tab_body(base, f, Some(body));
    assert_eq!(f.chapters.len(), 2);
    let n = match step {
        NbStep::Done(n) => n,
        NbStep::Fetch(_) => panic!("expected the novel"),
    };
    assert_eq!(n.chapters[0].title, "One");
    assert_eq!(n.chapters[0].index, 1);
    let (f2, _) = NovelBinsSource::get_novel_details(page, base, "https://nb.example/novel/b-9/").unwrap();
    let (f2, _) = NovelBinsSource::on_tab_body(base, f2, Some("{}".to_string()));
    assert!(f2.chapters.is_empty());
}

#[test]
fn asianovel_novel_from_page_and_scripts() {
    let page = r#"<html><head>
      <meta property="og:title" content="Tale - Asianovel">
      <meta property="og:image" content="/cover.jpg">
      </head><body>
      <script type="application/ld+json">{"@graph":[{"@type":"ItemList","name":"Chapters","itemListElement":[{"url":"/story/t/2","position":2},{"url":"https://www.asianovel.net/story/t/1","position":1,"name":"Start"}]}]}</script>
      <script type="application/ld+json">not json</script>
      </body></html>"#;
    let n = AsiaNovelSource::novel_details(page, "https://www.asianovel.net", "https://www.asianovel.net/story/t").unwrap();
    assert_eq!(n.title, "Tale");
    assert_eq!(n.cover_url.as_deref(), Some("https://www.asianovel.net/cover.jpg"));
    assert_eq!(n.chapters.len(), 2);
    assert_eq!(n.chapters[0].title, "Start");
    assert_eq!(n.chapters[1].url, "https://www.asianovel.net/story/t/2");
    assert_eq!(n.chapters[1].index, 2);
}

#[test]
fn novelbins_content_strips_iframes() {
    let page = "<html><body><div id=\"chr-content\"><p>Hi</p><iframe src=\"ad\"></iframe></div></body></html>";
    assert_eq!(NovelBinsSource::get_chapter_content(page).as_deref(), Some("<p>Hi</p>"));
}
