//! The resolver for short videos of the video platform, through its helper site.
use vstd::prelude::*;

use crate::http::{get, get_request, text_pair, Body, BodyView, HttpRequest, Method, RequestView, CHROME_AGENT};
use crate::patterns::{group, group_of, regex_captures, Catalog, CSRF_PATTERN, JSON_PATTERN, SESSION_PATTERN};
use crate::resolver::{bare, failure, text_result_is, FailureView, ResolveError, ResolveFailure};

verus! {

/// The helper site's landing page, which sets the session and holds the CSRF token.
pub const SHORTS_LANDING: &'static str = "https://shortsmate.com/en/";

/// Where the helper site takes the form.
pub const SHORTS_DOWNLOAD: &'static str = "https://shortsmate.com/en/download";

/// One entry of the helper site's media list.
pub struct Media {
    pub format_note: String,
    pub url: Option<String>,
}

/// How much a format is preferred: lower first.
pub open spec fn rank(note: Seq<char>) -> nat {
    if note == "1080p"@ {
        0
    } else if note == "720p"@ {
        1
    } else {
        2
    }
}

/// The index of the first entry of the lowest rank; the list is not empty.
pub open spec fn best_index(list: Seq<Media>) -> int
    decreases list.len(),
{
    if list.len() <= 1 {
        0
    } else {
        let b = best_index(list.drop_last());
        if rank(list.last().format_note@) < rank(list[b].format_note@) {
            list.len() - 1
        } else {
            b
        }
    }
}

/// The link of the preferred entry of a media list.
pub open spec fn preferred_url(list: Seq<Media>) -> Result<Seq<char>, FailureView> {
    if list.len() == 0 {
        Err(bare(ResolveError::NoMedia))
    } else {
        match list[best_index(list)].url {
            Some(u) => Ok(u@),
            None => Err(bare(ResolveError::NoMedia)),
        }
    }
}

/// The session cookie in the landing page's `Set-Cookie` header.
pub open spec fn cookie_of(set_cookie: Option<Seq<char>>) -> Result<Seq<char>, FailureView> {
    match set_cookie {
        None => Err(bare(ResolveError::NoCookie)),
        Some(h) => match group_of(regex_captures(SESSION_PATTERN@, h), 1) {
            Some(c) => Ok(c),
            None => Err((ResolveError::NoCookie, h)),
        },
    }
}

/// The POST of the form that asks for `url`.
pub open spec fn download_post(csrf: Seq<char>, cookie: Seq<char>, url: Seq<char>) -> RequestView {
    RequestView {
        method: Method::Post,
        url: SHORTS_DOWNLOAD@,
        headers: seq![
            ("User-Agent"@, CHROME_AGENT@),
            ("Referer"@, SHORTS_DOWNLOAD@),
            ("Cookie"@, cookie),
        ],
        body: BodyView::Form(seq![("csrf_token"@, csrf), ("url"@, url)]),
    }
}

/// The media lists in the helper site's answer, as a JSON array of two lists.
pub open spec fn media_json_of(html: Seq<char>) -> Result<Seq<char>, FailureView> {
    match group_of(regex_captures(JSON_PATTERN@, html), 1) {
        Some(j) => Ok(seq!['['] + j + seq![']']),
        None => Err((ResolveError::NoMediaList, html)),
    }
}

/// Resolves links of the video platform's shorts.
pub struct ShortsUrlResolver {}

impl ShortsUrlResolver {
    pub fn new() -> (r: ShortsUrlResolver) {
        ShortsUrlResolver {  }
    }

    /// The GET of the landing page.
    pub fn landing_request(&self) -> (r: HttpRequest)
        ensures
            r@ == get_request(SHORTS_LANDING@),
    {
        get(SHORTS_LANDING)
    }

    /// The CSRF token on the landing page.
    pub fn get_csrf(&self, catalog: &Catalog, html: &str) -> (r: Result<String, ResolveFailure>)
        requires
            catalog.wf(),
        ensures
            text_result_is(
                r,
                match group_of(regex_captures(CSRF_PATTERN@, html@), 1) {
                    Some(t) => Ok(t),
                    None => Err((ResolveError::NoCsrf, html@)),
                },
            ),
    {
        let caps = catalog.csrf.captures(html);
        match group(&caps, 1) {
            Some(t) => Ok(t),
            None => Err(failure(ResolveError::NoCsrf, html)),
        }
    }

    /// The POST of the form that asks for `url`.
    pub fn download_request(&self, csrf: &str, cookie: &str, url: &str) -> (r: HttpRequest)
        ensures
            r@ == download_post(csrf@, cookie@, url@),
    {
        let mut headers: Vec<(String, String)> = Vec::new();
        headers.push(text_pair("User-Agent", CHROME_AGENT));
        headers.push(text_pair("Referer", SHORTS_DOWNLOAD));
        headers.push(text_pair("Cookie", cookie));
        let mut form: Vec<(String, String)> = Vec::new();
        form.push(text_pair("csrf_token", csrf));
        form.push(text_pair("url", url));
        assert(headers.deep_view() =~= download_post(csrf@, cookie@, url@).headers);
        assert(form.deep_view() =~= seq![("csrf_token"@, csrf@), ("url"@, url@)]);
        HttpRequest {
            method: Method::Post,
            url: SHORTS_DOWNLOAD.to_owned(),
            headers,
            body: Body::Form(form),
        }
    }

    /// The media lists in the answer, framed as one JSON array.
    pub fn media_json(&self, catalog: &Catalog, html: &str) -> (r: Result<String, ResolveFailure>)
        requires
            catalog.wf(),
        ensures
            text_result_is(r, media_json_of(html@)),
    {
        let caps = catalog.json.captures(html);
        match group(&caps, 1) {
            Some(j) => {
                let mut framed = String::new();
                crate::text::push_str_chars(&mut framed, &vec!['[']);
                crate::text::push_str_chars(&mut framed, &crate::text::chars_of(j.as_str()));
                crate::text::push_str_chars(&mut framed, &vec![']']);
                assert(framed@ =~= seq!['['] + j@ + seq![']']);
                Ok(framed)
            },
            None => Err(failure(ResolveError::NoMediaList, html)),
        }
    }
}

/// The session cookie in a `Set-Cookie` header, as `cookie_of` says.
pub fn get_cookie(catalog: &Catalog, set_cookie: &Option<String>) -> (r: Result<String, ResolveFailure>)
    requires
        catalog.wf(),
    ensures
        text_result_is(r, cookie_of(set_cookie.deep_view())),
{
    let header = match set_cookie {
        Some(h) => h,
        None => {
            return Err(no_media_or_cookie(ResolveError::NoCookie));
        },
    };
    let caps = catalog.session.captures(header.as_str());
    match group(&caps, 1) {
        Some(c) => Ok(c),
        None => Err(failure(ResolveError::NoCookie, header.as_str())),
    }
}

/// The link of the first entry of the most preferred format: `1080p`, then
/// `720p`, then any other.
pub fn get_media_url(list: &Vec<Media>) -> (r: Result<String, ResolveFailure>)
    ensures
        text_result_is(r, preferred_url(list@)),
{
    if list.len() == 0 {
        return Err(no_media_or_cookie(ResolveError::NoMedia));
    }
    let mut best: usize = 0;
    let mut best_rank: u8 = rank_of(&list[0].format_note);
    let mut i: usize = 1;
    assert(list@.subrange(0, 1).len() == 1);
    while i < list.len()
        invariant
            1 <= i <= list@.len(),
            best < i,
            best as int == best_index(list@.subrange(0, i as int)),
            best_rank == rank(list@[best as int].format_note@),
        decreases list@.len() - i,
    {
        let ghost prefix = list@.subrange(0, i + 1);
        assert(prefix.drop_last() =~= list@.subrange(0, i as int));
        assert(prefix.last() == list@[i as int]);
        assert(prefix[best as int] == list@[best as int]);
        let k = rank_of(&list[i].format_note);
        if k < best_rank {
            best = i;
            best_rank = k;
        }
        i += 1;
    }
    assert(list@.subrange(0, list@.len() as int) =~= list@);
    match &list[best].url {
        Some(u) => Ok(u.clone()),
        None => Err(no_media_or_cookie(ResolveError::NoMedia)),
    }
}

fn no_media_or_cookie(kind: ResolveError) -> (r: ResolveFailure)
    ensures
        r@ == bare(kind),
{
    let f = failure(kind, "");
    proof {
        reveal_strlit("");
    }
    assert(f.fragment@ =~= Seq::<char>::empty());
    f
}

fn rank_of(note: &String) -> (r: u8)
    ensures
        r == rank(note@),
{
    let a = "1080p".to_owned();
    let b = "720p".to_owned();
    if *note == a {
        0
    } else if *note == b {
        1
    } else {
        2
    }
}

} // verus!
