use bunori_extensions::novelarchive::NovelArchiveSource;
use bunori_extensions::novelbuddy::NovelBuddySource;
use bunori_extensions::novelupdates::{extract_chapter_number, format_chapter_title};
use bunori_extensions::text::chars_of;
use bunori_extensions::words::{split_char_exec, utf8_len_exec, words_exec};

fn s(v: &Vec<char>) -> String {
    v.iter().collect()
}

#[test]
fn title_volume_and_chapter_markers() {
    assert_eq!(format_chapter_title("v2c13 part1"), "Volume 2 Chapter 13 Part 1");
}

#[test]
fn title_already_named_chapter_is_capitalised() {
    assert_eq!(format_chapter_title("chapter 5"), "Chapter 5");
    assert_eq!(format_chapter_title("volume 1 the start"), "Volume 1 The Start");
}

#[test]
fn title_empty_gives_chapter() {
    assert_eq!(format_chapter_title(""), "Chapter");
    assert_eq!(format_chapter_title("   "), "Chapter");
}

#[test]
fn title_side_story_marker() {
    assert_eq!(format_chapter_title("c12ss"), "Chapter 12 SS");
    assert_eq!(format_chapter_title("extra ss"), "Extra SS");
}

#[test]
fn title_without_markers() {
    assert_eq!(format_chapter_title("prologue"), "Prologue");
}

#[test]
fn title_letter_without_number_stays() {
    assert_eq!(format_chapter_title("cover art"), "Cover Art");
}

#[test]
fn number_after_c() {
    assert_eq!(extract_chapter_number("c15", 3), 15);
    assert_eq!(extract_chapter_number("v2c13 part1", 1), 13);
}

#[test]
fn number_from_first_digits() {
    assert_eq!(extract_chapter_number("Chapter 7", 1), 7);
    assert_eq!(extract_chapter_number("v3 part 9", 1), 3);
}

#[test]
fn number_fallback_without_digits() {
    assert_eq!(extract_chapter_number("prologue", 4), 4);
}

#[test]
fn number_too_large_falls_back() {
    assert_eq!(extract_chapter_number("c99999999999", 2), 2);
}

#[test]
fn clean_content_drops_promotion() {
    assert_eq!(
        NovelBuddySource::clean_content("  Some text. Find authorized novels in Webnovel, faster"),
        "Some text."
    );
    assert_eq!(NovelBuddySource::clean_content("  plain  "), "plain");
}

#[test]
fn clean_content_twice_is_once() {
    let once = NovelBuddySource::clean_content(" A\n Find authorized novels in Webnovel Find authorized novels in Webnovel ");
    assert_eq!(once, "A");
    assert_eq!(NovelBuddySource::clean_content(&once), once);
}

#[test]
fn novel_archive_ids() {
    assert_eq!(
        NovelArchiveSource::extract_id("https://novelarchive.example/novel?id=abc&x=1"),
        Some("abc".to_string())
    );
    assert_eq!(
        NovelArchiveSource::extract_id("https://novelarchive.example/novel?id=xyz"),
        Some("xyz".to_string())
    );
    assert_eq!(
        NovelArchiveSource::extract_id("https://novelarchive.example/novels/0123456789abcdef01234567"),
        Some("0123456789abcdef01234567".to_string())
    );
    assert_eq!(NovelArchiveSource::extract_id("https://novelarchive.example/novels/short"), None);
}

#[test]
fn lowercase_decides_title_markers() {
    // The markers are found in the lowercased name, in any case.
    assert_eq!(format_chapter_title("V2C3"), "Volume 2 Chapter 3");
    assert_eq!(extract_chapter_number("Vol 4 C21", 1), 21);
}

#[test]
fn uppercase_capitalises_words() {
    assert_eq!(format_chapter_title("épilogue final"), "Épilogue Final");
    assert_eq!(format_chapter_title("ßeta"), "SSeta");
}

#[test]
fn utf8_length_counts_bytes() {
    assert_eq!(utf8_len_exec(&chars_of("aé€😀")), 1 + 2 + 3 + 4);
}

#[test]
fn words_split_on_whitespace() {
    let w = words_exec(&chars_of("  one\ttwo \u{a0}three  "));
    let got: Vec<String> = w.iter().map(s).collect();
    assert_eq!(got, vec!["one", "two", "three"]);
}

#[test]
fn split_char_keeps_empty_pieces() {
    let w = split_char_exec(&chars_of("a**b*"), '*');
    let got: Vec<String> = w.iter().map(s).collect();
    assert_eq!(got, vec!["a", "", "b", ""]);
}

#[test]
fn title_markers_follow_byte_offsets() {
    // The lowercase of the first letter is longer in UTF-8 than the letter,
    // so the byte after the found `c` lies past the end of the name.
    assert_eq!(format_chapter_title("Ⱥc1"), "Ⱥc1");
    assert_eq!(format_chapter_title("éc1"), "É Chapter 1");
}

#[test]
fn titles_are_single_spaced() {
    let t = format_chapter_title("  v2   c3 part1  ss ");
    assert_eq!(t, "Volume 2 Chapter 3 Part 1 SS");
    assert!(!t.contains("  "));
    assert_eq!(t, t.trim());
}
