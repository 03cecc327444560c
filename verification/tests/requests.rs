use bunori_extensions::annasarchive::AnnaSArchiveSource;
use bunori_extensions::asianovel::AsiaNovelSource;
use bunori_extensions::fetch::Method;
use bunori_extensions::madara::MadaraEngine;
use bunori_extensions::novelarchive::NovelArchiveSource;
use bunori_extensions::novelbins::NovelBinsSource;
use bunori_extensions::novelbuddy::NovelBuddySource;
use bunori_extensions::novelfire::NovelFireEngine;
use bunori_extensions::novelupdates::NovelUpdatesSource;
use bunori_extensions::readnovelfull::ReadNovelFullEngine;
use bunori_extensions::sources::{ReadNovelFullSource, WuxiaWorldSiteSource};

const NU: &str = "https://www.novelupdates.com";

#[test]
fn novelupdates_search_uses_longest_piece() {
    let r = NovelUpdatesSource::search(NU, "abc*the longest  bar", 2);
    assert!(matches!(r.method, Method::Get));
    assert_eq!(
        r.url,
        "https://www.novelupdates.com/series-finder/?sf=1&sh=the+longest+bar&sort=srank&order=asc&pg=2"
    );
    assert!(r.headers.is_empty());
}

#[test]
fn novelupdates_search_ties_take_last_and_plain_quotes() {
    let r = NovelUpdatesSource::search(NU, "ab*cd", 1);
    assert!(r.url.contains("&sh=cd&"));
    let r = NovelUpdatesSource::search(NU, "it\u{2019}s here", 1);
    assert!(r.url.contains("&sh=it's+here&"));
}

#[test]
fn novelupdates_search_counts_bytes() {
    // "éé" is 4 bytes, "abc" is 3: the accented piece is the longer one.
    let r = NovelUpdatesSource::search(NU, "éé*abc", 1);
    assert!(r.url.contains("&sh=éé&"));
}

#[test]
fn novelupdates_listings() {
    let ls = NovelUpdatesSource::get_listings();
    let ids: Vec<&str> = ls.iter().map(|l| l.id.as_str()).collect();
    assert_eq!(ids, vec!["popular", "popmonth", "latest"]);
    assert_eq!(ls[1].name, "Popular (Month)");
    assert_eq!(
        NovelUpdatesSource::get_listing_novels(NU, "popmonth", 3).url,
        "https://www.novelupdates.com/series-ranking/?rank=popmonth&pg=3"
    );
    assert_eq!(
        NovelUpdatesSource::get_listing_novels(NU, "latest", 1).url,
        "https://www.novelupdates.com/series-finder/?sf=1&sort=sdate&order=desc&pg=1"
    );
}

#[test]
fn novelupdates_chapters_request_is_a_form_post() {
    let r = NovelUpdatesSource::chapters_request(NU, "https://www.novelupdates.com/series/x/", "4242");
    assert!(matches!(r.method, Method::Post));
    assert_eq!(r.url, "https://www.novelupdates.com/wp-admin/admin-ajax.php");
    assert_eq!(r.body, "action=nd_getchapters&mygrr=0&mypostid=4242");
    assert_eq!(
        r.headers,
        vec![
            ("Content-Type".to_string(), "application/x-www-form-urlencoded".to_string()),
            ("Referer".to_string(), "https://www.novelupdates.com/series/x/".to_string()),
        ]
    );
}

#[test]
fn novelarchive_requests() {
    let base = "https://novelarchive.example";
    assert_eq!(
        NovelArchiveSource::search(base, "red moon").url,
        "https://novelarchive.example/api/novels?search=red+moon&fuzzy=1"
    );
    let ex = "adult,smut,mature,erotica,ecchi,hentai,explicit,sexual+content,nsfw,r-18,lewd,pornographic";
    assert_eq!(
        NovelArchiveSource::get_listing_novels(base, "genre_fantasy", 2).url,
        format!("https://novelarchive.example/api/novels?genres_include=fantasy&genres_exclude={}&page=2&per_page=24", ex)
    );
    assert_eq!(
        NovelArchiveSource::get_listing_novels(base, "top-rated", 1).url,
        format!("https://novelarchive.example/api/novels?sort=rating&genres_exclude={}&page=1&per_page=24", ex)
    );
    assert_eq!(
        NovelArchiveSource::get_listing_novels(base, "anything", 1).url,
        format!("https://novelarchive.example/api/novels?sort=popular&genres_exclude={}&page=1&per_page=24", ex)
    );
    assert_eq!(NovelArchiveSource::get_listings().len(), 4);
}

#[test]
fn novelbins_requests() {
    let base = "https://novelbin.example/";
    assert_eq!(
        NovelBinsSource::search("https://novelbin.example", "a b").url,
        "https://novelbin.example/search-results/?query=a+b"
    );
    assert_eq!(
        NovelBinsSource::get_listing_novels(base, "latest", 2).url,
        "https://novelbin.example/novel/newchapters/?page=2"
    );
    assert_eq!(
        NovelBinsSource::get_listing_novels(base, "popular", 1).url,
        "https://novelbin.example/novel/?page=1"
    );
    assert_eq!(NovelBinsSource::get_listings()[3].name, "Female Lead");
}

#[test]
fn novelbuddy_requests() {
    assert_eq!(
        NovelBuddySource::search("the hero", 3).url,
        "https://api.novelbuddy.me/titles/search?limit=24&page=3&q=the%20hero"
    );
    assert_eq!(
        NovelBuddySource::get_listing_novels("rating", 2).url,
        "https://api.novelbuddy.me/titles/search?sort=rating&page=2&limit=24"
    );
    assert_eq!(
        NovelBuddySource::get_listing_novels("unknown", 2).url,
        "https://api.novelbuddy.me/titles/search?sort=views&page=2&limit=24"
    );
    let r = NovelBuddySource::content_api_request("https://novelbuddy.me/novel/x/chapter-1?id=N1&chapterId=C9").unwrap();
    assert_eq!(r.url, "https://api.novelbuddy.me/titles/N1/chapters/C9");
    assert!(NovelBuddySource::content_api_request("https://novelbuddy.me/novel/x/chapter-1?id=N1").is_none());
    assert_eq!(
        NovelBuddySource::page_url("https://novelbuddy.me/novel/x/chapter-1?id=N1&chapterId=C9"),
        "https://novelbuddy.me/novel/x/chapter-1"
    );
}

#[test]
fn asianovel_requests_carry_user_agent() {
    let base = "https://www.asianovel.net/";
    let r = AsiaNovelSource::get_listing_novels(base, "genre_action", 1);
    assert_eq!(r.url, "https://www.asianovel.net/genre/action/");
    assert_eq!(r.headers.len(), 1);
    assert_eq!(r.headers[0].0, "User-Agent");
    assert_eq!(
        AsiaNovelSource::get_listing_novels(base, "genre_action", 3).url,
        "https://www.asianovel.net/genre/action/page/3/"
    );
    assert_eq!(
        AsiaNovelSource::get_listing_novels(base, "az", 2).url,
        "https://www.asianovel.net/stories/page/2/?orderby=title&order=asc"
    );
    assert_eq!(
        AsiaNovelSource::get_listing_novels(base, "updated", 0).url,
        "https://www.asianovel.net/stories/?orderby=modified&order=desc"
    );
    assert_eq!(
        AsiaNovelSource::search("https://www.asianovel.net", "x y").url,
        "https://www.asianovel.net/?s=x+y&post_type=fcn_story&sentence=0&orderby=modified&order=desc"
    );
    assert_eq!(AsiaNovelSource::default_headers()[0].0, "User-Agent");
}

#[test]
fn annasarchive_search_asks_for_epubs() {
    assert_eq!(
        AnnaSArchiveSource::search("https://annas-archive.org", "dune messiah", 2).url,
        "https://annas-archive.org/search?q=dune+messiah&ext=epub&page=2"
    );
    assert!(AnnaSArchiveSource::get_chapter_content().is_none());
}

#[test]
fn madara_engine_urls() {
    let e = MadaraEngine::new("https://madara.example/".to_string());
    assert_eq!(e.search("two words", 2).url, "https://madara.example/page/2/?s=two+words&post_type=wp-manga");
    assert_eq!(
        e.get_listing_novels("new", 1).url,
        "https://madara.example/page/1/?s=&post_type=wp-manga&m_orderby=new-manga"
    );
    assert_eq!(e.get_listings().len(), 3);
}

#[test]
fn wuxiaworldsite_uses_new_endpoint() {
    let e = WuxiaWorldSiteSource::engine("https://wuxiaworld.site".to_string());
    assert!(e.use_new_chapter_endpoint);
    assert_eq!(e.base_url, "https://wuxiaworld.site");
    assert_eq!(e.chapter_link_selector, "a");
}

#[test]
fn readnovelfull_source_configuration() {
    let e = ReadNovelFullSource::engine("https://readnovelfull.com".to_string());
    assert_eq!(e.search_path, "novel-list/search");
    assert_eq!(e.chapter_endpoint, "ajax/chapter-archive");
    let ids: Vec<&str> = e.listings.iter().map(|l| l.id.as_str()).collect();
    assert_eq!(ids, vec!["novel-list/latest-release-novel", "novel-list/hot-novel", "novel-list/completed-novel"]);
    let d = ReadNovelFullEngine::new("https://x.example".to_string());
    assert_eq!(d.search_path, "search");
}

#[test]
fn novelfire_engine_urls() {
    let e = NovelFireEngine::new("https://novelfire.example".to_string());
    assert_eq!(
        e.search("a b").url,
        "https://novelfire.example/ajax/searchLive?keyword=a%20b&type=title"
    );
    assert_eq!(
        e.get_listing_novels("completed", 4).url,
        "https://novelfire.example/genre-all/sort-popular/status-completed/all-novel?page=4"
    );
}
