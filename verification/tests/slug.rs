use transcribe::slug::{std_ascii_classes_hold, url_to_slug, url_to_slug_with};
use transcribe::transcript::url_transcript_file_name;

#[test]
fn slug_of_youtube_watch_url() {
    assert_eq!(
        url_to_slug("https://www.youtube.com/watch?v=dQw4w9WgXcQ"),
        "youtube-com-watch-v-dQw4w9WgXcQ"
    );
}

#[test]
fn slug_drops_http_scheme_and_trailing_dashes() {
    assert_eq!(url_to_slug("http://example.com/"), "example-com");
    assert_eq!(url_to_slug("http://example.com/???"), "example-com");
}

#[test]
fn slug_strips_repeated_prefixes_in_order() {
    assert_eq!(url_to_slug("https://https://x.org"), "x-org");
    assert_eq!(url_to_slug("http://https://a"), "https---a");
    assert_eq!(url_to_slug("https://www.www.b23.tv/abc"), "b23-tv-abc");
}

#[test]
fn slug_falls_back_to_video() {
    assert_eq!(url_to_slug(""), "video");
    assert_eq!(url_to_slug("https://"), "video");
    assert_eq!(url_to_slug("https://www./?#"), "video");
}

#[test]
fn slug_keeps_underscores_dashes_and_unicode_letters() {
    assert_eq!(url_to_slug("www.-_-"), "-_");
    assert_eq!(url_to_slug("https://例え.jp/動画"), "例え-jp-動画");
    assert_eq!(url_to_slug("https://a b\tc"), "a-b-c");
}

#[test]
fn slug_is_cut_to_eighty_characters() {
    let long = format!("https://{}", "a".repeat(100));
    assert_eq!(url_to_slug(&long), "a".repeat(80));
    let edge = format!("{}/b", "a".repeat(79));
    assert_eq!(url_to_slug(&edge), "a".repeat(79));
    let multi = format!("https://{}", "é".repeat(90));
    assert_eq!(url_to_slug(&multi).chars().count(), 80);
}

#[test]
fn slug_is_idempotent() {
    let urls = [
        "https://www.youtube.com/watch?v=dQw4w9WgXcQ",
        "http://example.com/",
        "",
        "https://www.bilibili.com/video/BV1xx411c7mD?p=2",
        "www.-_-",
        "https://例え.jp/動画",
        "video",
    ];
    for u in urls {
        let s = url_to_slug(u);
        assert_eq!(url_to_slug(&s), s);
        assert!(!s.is_empty() && s.chars().count() <= 80 && !s.ends_with('-'));
    }
}

#[test]
fn std_classifies_the_ascii_characters_the_slug_law_needs() {
    for c in ['v', 'i', 'd', 'e', 'o'] {
        assert!(c.is_alphanumeric());
    }
    for c in [':', '/', '.'] {
        assert!(!c.is_alphanumeric());
    }
}

#[test]
fn url_transcript_file_name_is_slug_dot_txt() {
    assert_eq!(
        url_transcript_file_name("https://www.youtube.com/watch?v=abc"),
        "youtube-com-watch-v-abc.txt"
    );
    assert_eq!(url_transcript_file_name("https://"), "video.txt");
}

#[test]
fn slug_with_given_classes() {
    assert_eq!(url_to_slug_with("ab", &vec![true, true]), "ab");
    assert_eq!(url_to_slug_with("a:b", &vec![true, true, true]), "a:b");
    assert_eq!(url_to_slug_with("ab", &vec![false, true]), "-b");
    assert_eq!(url_to_slug_with("https://xy", &vec![false; 10]), "video");
    assert_eq!(url_to_slug_with("https://x_", &vec![false; 10]), "-_");
}

#[test]
fn ascii_check_holds_for_std() {
    assert!(std_ascii_classes_hold());
}
