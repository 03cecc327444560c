# bunori_extensions

Novel sources for the Bunori reader, written in Verus: the scraping and
the API logic of each source is verified, while the host application does
the networking.

## Layout

- `src/` — the verified library.
  - `text.rs`, `words.rs`, `urls.rs`, `clean.rs`, `sort.rs`: text
    primitives (trimming, searching, replacing, joining, integer parsing,
    word splitting, UTF-8 lengths), link resolution, removal of unwanted
    blocks from chapter HTML, and a stable sort of chapter lists.
  - `dom.rs`, `snap.rs`: access to parsed HTML through `scraper`, whose
    selections, texts and attributes are named over the page's text, and
    the plain snapshots (texts and attributes) that the scrapers reason
    about; every reader states what it returns as a function of the page.
  - `fetch.rs`, `json.rs`, `models.rs`: the requests a source asks the host
    to perform, JSON values, and the data exchanged with the host.
  - `madara*.rs`, `readnovelfull.rs`, `novelfire.rs`: the three site
    templates (Madara, ReadNovelFull, NovelFire).
  - `sources.rs`, `novelupdates.rs`, `novelarchive.rs`, `novelbins.rs`,
    `novelbuddy.rs`, `asianovel.rs`, `annasarchive.rs`: the sources.
- `tests/` — tests on concrete pages, API records and requests.
- `app/` — the host side: performing requests, serde forms of the data,
  and the `Source` trait through which the host drives every source.

Every operation that needs the network is split in two: the library
computes the request to make, the host performs it, and the library reads
the answer. Multi-step reads (chapter tabs, external chapter sources,
paginated chapter lists) are state machines whose every step is verified.
