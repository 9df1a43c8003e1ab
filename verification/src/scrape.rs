//! The article that a scrape of a web page yields.
use vstd::prelude::*;
use crate::text::append;

verus! {

/// A scraped article: its title, its content as Markdown, and its URL.
#[derive(Debug, PartialEq, Eq)]
pub struct ScrapeResult {
    pub title: String,
    pub markdown: String,
    pub url: String,
}

/// Builds the article from what the scraping service answered: its title
/// (`Untitled` where the answer has none) and its Markdown, which must be
/// there.
pub fn scrape_result(title: Option<String>, markdown: Option<String>, url: String) -> (r: Result<
    ScrapeResult,
    String,
>)
    ensures
        match r {
            Ok(a) => {
                &&& markdown.is_some()
                &&& a.markdown@ == markdown.unwrap()@
                &&& a.title@ == (match title {
                    Some(t) => t@,
                    None => "Untitled"@,
                })
                &&& a.url@ == url@
            },
            Err(m) => markdown.is_none() && m@ == "No markdown in response"@,
        },
{
    let markdown = match markdown {
        Some(m) => m,
        None => {
            return Err("No markdown in response".to_owned());
        },
    };
    let title = match title {
        Some(t) => t,
        None => "Untitled".to_owned(),
    };
    Ok(ScrapeResult { title, markdown, url })
}

/// The error given when the scraping service answers with an unsuccessful
/// status: the status as the HTTP client writes it and the body.
pub fn scrape_http_error(status: &str, body: &str) -> (m: String)
    ensures
        m@ == "HTTP "@ + status@ + ": "@ + body@,
{
    let mut m = "HTTP ".to_owned();
    append(&mut m, status);
    append(&mut m, ": ");
    append(&mut m, body);
    m
}

} // verus!
