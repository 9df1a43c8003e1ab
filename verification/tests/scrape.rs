use transcribe::scrape::{scrape_http_error, scrape_result};

#[test]
fn article_with_title() {
    let r = scrape_result(Some("T".to_string()), Some("# md".to_string()), "https://x".to_string()).unwrap();
    assert_eq!((r.title.as_str(), r.markdown.as_str(), r.url.as_str()), ("T", "# md", "https://x"));
}

#[test]
fn article_without_title_is_untitled() {
    let r = scrape_result(None, Some("body".to_string()), "u".to_string()).unwrap();
    assert_eq!(r.title, "Untitled");
}

#[test]
fn article_without_markdown_is_an_error() {
    let r = scrape_result(Some("T".to_string()), None, "u".to_string());
    assert_eq!(r.unwrap_err(), "No markdown in response");
}

#[test]
fn http_error_text() {
    assert_eq!(scrape_http_error("401 Unauthorized", "{\"e\":1}"), "HTTP 401 Unauthorized: {\"e\":1}");
}
