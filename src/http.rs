//! The outbound HTTP requests that the resolvers ask for, as plain values.
use vstd::prelude::*;

verus! {

/// Desktop Chrome, as the short-video mirrors expect it.
pub const CHROME_AGENT: &'static str = "Mozilla/5.0 (Macintosh; Intel Mac OS X 10_15_7) AppleWebKit/537.36 (KHTML, like Gecko) Chrome/119.0.0.0 Safari/537.36";

/// Desktop Firefox, as the micro-blog mirror expects it.
pub const FIREFOX_AGENT: &'static str = "Mozilla/5.0 (Macintosh; Intel Mac OS X 10.15; rv:122.0) Gecko/20100101 Firefox/122.0";

#[derive(Debug, Clone, Copy, PartialEq, Eq, Structural)]
pub enum Method {
    Get,
    Post,
}

/// What a request carries.
pub enum Body {
    Empty,
    /// A multipart/form-data body, already framed.
    Multipart(String),
    /// Name/value pairs, sent form-encoded.
    Form(Vec<(String, String)>),
}

pub enum BodyView {
    Empty,
    Multipart(Seq<char>),
    Form(Seq<(Seq<char>, Seq<char>)>),
}

impl View for Body {
    type V = BodyView;

    open spec fn view(&self) -> BodyView {
        match self {
            Body::Empty => BodyView::Empty,
            Body::Multipart(s) => BodyView::Multipart(s@),
            Body::Form(pairs) => BodyView::Form(pairs.deep_view()),
        }
    }
}

/// One request for the caller to perform.
pub struct HttpRequest {
    pub method: Method,
    pub url: String,
    pub headers: Vec<(String, String)>,
    pub body: Body,
}

pub struct RequestView {
    pub method: Method,
    pub url: Seq<char>,
    pub headers: Seq<(Seq<char>, Seq<char>)>,
    pub body: BodyView,
}

impl View for HttpRequest {
    type V = RequestView;

    open spec fn view(&self) -> RequestView {
        RequestView {
            method: self.method,
            url: self.url@,
            headers: self.headers.deep_view(),
            body: self.body@,
        }
    }
}

/// What came back for a request: the `Set-Cookie` header, if any, and the body.
pub struct HttpReply {
    pub set_cookie: Option<String>,
    pub body: String,
}

pub struct ReplyView {
    pub set_cookie: Option<Seq<char>>,
    pub body: Seq<char>,
}

impl View for HttpReply {
    type V = ReplyView;

    open spec fn view(&self) -> ReplyView {
        ReplyView { set_cookie: self.set_cookie.deep_view(), body: self.body@ }
    }
}

/// A plain GET of `url`.
pub open spec fn get_request(url: Seq<char>) -> RequestView {
    RequestView { method: Method::Get, url, headers: seq![], body: BodyView::Empty }
}

/// A name/value pair of texts.
pub fn text_pair(name: &str, value: &str) -> (r: (String, String))
    ensures
        r.deep_view() == (name@, value@),
{
    (name.to_owned(), value.to_owned())
}

/// A plain GET of `url`.
pub fn get(url: &str) -> (r: HttpRequest)
    ensures
        r@ == get_request(url@),
{
    let headers: Vec<(String, String)> = Vec::new();
    assert(headers.deep_view() =~= seq![]);
    HttpRequest { method: Method::Get, url: url.to_owned(), headers, body: Body::Empty }
}

} // verus!
