//! Sources that are configurations of a template engine.
use vstd::prelude::*;
use crate::madara::{madara_default_listings, madara_default_selectors, MadaraEngine};
use crate::models::{ListingDto, ListingView};
use crate::readnovelfull::{rnf_default_selectors, ReadNovelFullEngine};

verus! {

/// The ReadNovelFull site itself.
#[derive(Debug, Clone, Copy)]
pub struct ReadNovelFullSource;

/// The listings of the ReadNovelFull site.
pub open spec fn readnovelfull_listings() -> Seq<ListingView> {
    seq![
        ListingView { id: "novel-list/latest-release-novel"@, name: "Latest Release"@ },
        ListingView { id: "novel-list/hot-novel"@, name: "Hot Novels"@ },
        ListingView { id: "novel-list/completed-novel"@, name: "Completed Novels"@ },
    ]
}

impl ReadNovelFullSource {
    /// The engine for the site at `base_url`: the default selectors, with its
    /// own search path, chapter endpoint and listings.
    pub fn engine(base_url: String) -> (e: ReadNovelFullEngine)
        ensures
            e.base_url@ == base_url@,
            e.search_path@ == "novel-list/search"@,
            e.chapter_endpoint@ == "ajax/chapter-archive"@,
            rnf_default_selectors(e),
            e.listings.deep_view() == readnovelfull_listings(),
    {
        let mut engine = ReadNovelFullEngine::new(base_url);
        engine.search_path = String::from_str("novel-list/search");
        engine.chapter_endpoint = String::from_str("ajax/chapter-archive");
        engine.listings = vec![
            ListingDto {
                id: String::from_str("novel-list/latest-release-novel"),
                name: String::from_str("Latest Release"),
            },
            ListingDto { id: String::from_str("novel-list/hot-novel"), name: String::from_str("Hot Novels") },
            ListingDto {
                id: String::from_str("novel-list/completed-novel"),
                name: String::from_str("Completed Novels"),
            },
        ];
        assert(engine.listings.deep_view() =~= readnovelfull_listings());
        engine
    }
}

/// The WuxiaWorld.site source.
#[derive(Debug, Clone, Copy)]
pub struct WuxiaWorldSiteSource;

impl WuxiaWorldSiteSource {
    /// The engine for the site at `base_url`: the Madara defaults, with the
    /// newer chapter endpoint.
    pub fn engine(base_url: String) -> (e: MadaraEngine)
        ensures
            e.base_url@ == base_url@,
            e.use_new_chapter_endpoint,
            madara_default_selectors(e),
            e.listings.deep_view() == madara_default_listings(),
    {
        let mut engine = MadaraEngine::new(base_url);
        engine.use_new_chapter_endpoint = true;
        engine
    }
}

} // verus!
