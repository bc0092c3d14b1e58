//! The resolver for micro-blog links, through a search mirror.
use vstd::prelude::*;

use crate::http::{text_pair, Body, BodyView, HttpRequest, Method, RequestView, FIREFOX_AGENT};
use crate::patterns::{group, group_of, regex_captures, Catalog, DOWNLOAD_LINK_PATTERN};
use crate::resolver::{failure, url_result_is, FailureView, ResolveError, ResolveFailure};
use crate::weburl::{parsed_url, WebUrl};

verus! {

pub const TWITTER_ENDPOINT: &'static str = "https://savetwitter.net/api/ajaxSearch";

pub const TWITTER_REFERER: &'static str = "https://savetwitter.net/";

/// The POST that searches the mirror for `url`.
pub open spec fn search_post(url: Seq<char>) -> RequestView {
    RequestView {
        method: Method::Post,
        url: TWITTER_ENDPOINT@,
        headers: seq![("Referer"@, TWITTER_REFERER@), ("User-Agent"@, FIREFOX_AGENT@)],
        body: BodyView::Form(seq![("q"@, url), ("lang"@, "en"@)]),
    }
}

/// The first link in the mirror's answer, parsed. The answer may be the HTML
/// fragment itself or a JSON envelope that holds it: the pattern allows the
/// escaped quotes of the latter.
pub open spec fn twitter_result(body: Seq<char>) -> Result<Seq<char>, FailureView> {
    match group_of(regex_captures(DOWNLOAD_LINK_PATTERN@, body), 1) {
        None => Err((ResolveError::NoLink, body)),
        Some(link) => match parsed_url(link) {
            Some(u) => Ok(u),
            None => Err((ResolveError::BadUrl, link)),
        },
    }
}

/// Resolves micro-blog links.
pub struct TwitterUrlResolver {}

impl TwitterUrlResolver {
    pub fn new() -> (r: TwitterUrlResolver) {
        TwitterUrlResolver {  }
    }

    /// The POST that searches the mirror for `url`.
    pub fn search_request(&self, url: &str) -> (r: HttpRequest)
        ensures
            r@ == search_post(url@),
    {
        let mut headers: Vec<(String, String)> = Vec::new();
        headers.push(text_pair("Referer", TWITTER_REFERER));
        headers.push(text_pair("User-Agent", FIREFOX_AGENT));
        let mut form: Vec<(String, String)> = Vec::new();
        form.push(text_pair("q", url));
        form.push(text_pair("lang", "en"));
        assert(headers.deep_view() =~= search_post(url@).headers);
        assert(form.deep_view() =~= seq![("q"@, url@), ("lang"@, "en"@)]);
        HttpRequest {
            method: Method::Post,
            url: TWITTER_ENDPOINT.to_owned(),
            headers,
            body: Body::Form(form),
        }
    }

    /// The media URL in the mirror's answer, as `twitter_result` says.
    pub fn resolve_reply(&self, catalog: &Catalog, body: &str) -> (r: Result<WebUrl, ResolveFailure>)
        requires
            catalog.wf(),
        ensures
            url_result_is(r, twitter_result(body@)),
    {
        let caps = catalog.download_link.captures(body);
        let link = match group(&caps, 1) {
            Some(l) => l,
            None => {
                return Err(failure(ResolveError::NoLink, body));
            },
        };
        match WebUrl::parse(link.as_str()) {
            Some(u) => Ok(u),
            None => Err(failure(ResolveError::BadUrl, link.as_str())),
        }
    }
}

} // verus!
