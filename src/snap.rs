//! The resolver shared by the two mirrors that answer with a packed page.
use vstd::prelude::*;

use crate::decoder::{decode, decoded, parse_radix_u32, parse_radix_usize, radix_value};
use crate::http::{get, get_request, text_pair, Body, HttpRequest, Method, RequestView, CHROME_AGENT};
use crate::patterns::{
    group, group_of, regex_captures, Catalog, DECODER_ARGS_PATTERN, TOKEN_PATTERN,
    VIDEO_URL_PATTERN,
};
use crate::platform::Platform;
use crate::resolver::{failure, text_result_is, url_result_is, FailureView, ResolveError, ResolveFailure};
use crate::text::{chars_of, decimal, decimal_string};
use crate::weburl::{parsed_url, WebUrl};
use vstd::string::StringExecFns;

verus! {

/// The landing page that hands out the first mirror's token.
pub const SNAPTIK_LANDING: &'static str = "https://snaptik.app/en";

pub const SNAPTIK_ENDPOINT: &'static str = "https://snaptik.app/abc2.php";

pub const SNAPTIK_REFERER: &'static str = "https://snaptik.app/";

pub const SNAPINSTA_ENDPOINT: &'static str = "https://snapinsta.app/action2.php";

pub const SNAPINSTA_REFERER: &'static str = "https://snapinsta.app/";

/// The content type of the posted form, with its boundary.
pub const MULTIPART_TYPE: &'static str = "multipart/form-data; boundary=----WebKitFormBoundary214sQgEtL6ZBo4uE";

/// The posted form up to the link.
pub const MULTIPART_HEAD: &'static str = "------WebKitFormBoundary214sQgEtL6ZBo4uE\r\nContent-Disposition: form-data; name=\"url\"\r\n\r\n";

/// The posted form between the link and the token.
pub const MULTIPART_MIDDLE: &'static str = "\r\n------WebKitFormBoundary214sQgEtL6ZBo4uE\r\nContent-Disposition: form-data; name=\"lang\"\r\n\r\nen\r\n------WebKitFormBoundary214sQgEtL6ZBo4uE\r\nContent-Disposition: form-data; name=\"token\"\r\n\r\n";

/// The posted form after the token.
pub const MULTIPART_TAIL: &'static str = "\r\n------WebKitFormBoundary214sQgEtL6ZBo4uE--\r\n";

/// The form that asks a mirror for `url`.
pub open spec fn multipart_body(url: Seq<char>, token: Seq<char>) -> Seq<char> {
    MULTIPART_HEAD@ + url + MULTIPART_MIDDLE@ + token + MULTIPART_TAIL@
}

pub open spec fn endpoint_of(p: Platform) -> Option<Seq<char>> {
    match p {
        Platform::TikTok => Some(SNAPTIK_ENDPOINT@),
        Platform::Instagram => Some(SNAPINSTA_ENDPOINT@),
        _ => None,
    }
}

pub open spec fn referer_of(p: Platform) -> Option<Seq<char>> {
    match p {
        Platform::TikTok => Some(SNAPTIK_REFERER@),
        Platform::Instagram => Some(SNAPINSTA_REFERER@),
        _ => None,
    }
}

/// The POST that asks the mirror of `p` for `url`, with `token`.
pub open spec fn snap_post(p: Platform, url: Seq<char>, token: Seq<char>) -> Option<RequestView> {
    match (endpoint_of(p), referer_of(p)) {
        (Some(endpoint), Some(referer)) => {
            let body = multipart_body(url, token);
            Some(
                RequestView {
                    method: Method::Post,
                    url: endpoint,
                    headers: seq![
                        ("referer"@, referer),
                        ("user-agent"@, CHROME_AGENT@),
                        ("content-type"@, MULTIPART_TYPE@),
                        ("content-length"@, decimal(vstd::utf8::encode_utf8(body).len())),
                    ],
                    body: crate::http::BodyView::Multipart(body),
                },
            )
        },
        _ => None,
    }
}

/// The arguments of the unpacking call: the packed text, an unused number, the
/// alphabet, the offset, the radix and another unused number.
pub struct DecoderArgs {
    pub h: String,
    pub u: usize,
    pub n: String,
    pub t: u32,
    pub e: u32,
    pub r: usize,
}

/// A decimal number no greater than `max`.
pub open spec fn number_of(g: Option<Seq<char>>, max: nat) -> Option<nat> {
    match g {
        Some(s) => radix_value(s, 10, max),
        None => None,
    }
}

/// The six arguments in a match of the unpacking call, where each group took
/// part, the offset and radix fit in 32 bits and the unused numbers in `usize`.
pub open spec fn decoder_args_of(caps: Option<Seq<Option<Seq<char>>>>) -> Option<
    (Seq<char>, nat, Seq<char>, nat, nat, nat),
> {
    match (
        group_of(caps, 1),
        number_of(group_of(caps, 2), usize::MAX as nat),
        group_of(caps, 3),
        number_of(group_of(caps, 4), u32::MAX as nat),
        number_of(group_of(caps, 5), u32::MAX as nat),
        number_of(group_of(caps, 6), usize::MAX as nat),
    ) {
        (Some(h), Some(u), Some(n), Some(t), Some(e), Some(r)) => Some((h, u, n, t, e, r)),
        _ => None,
    }
}

fn number(caps: &Option<Vec<Option<String>>>, k: usize) -> (r: Option<u32>)
    ensures
        match number_of(group_of(caps.deep_view(), k as int), u32::MAX as nat) {
            Some(v) => r == Some(v as u32),
            None => r is None,
        },
{
    let g = group(caps, k)?;
    let cs = chars_of(g.as_str());
    parse_radix_u32(&cs, 10)
}

fn wide_number(caps: &Option<Vec<Option<String>>>, k: usize) -> (r: Option<usize>)
    ensures
        match number_of(group_of(caps.deep_view(), k as int), usize::MAX as nat) {
            Some(v) => r == Some(v as usize),
            None => r is None,
        },
{
    let g = group(caps, k)?;
    let cs = chars_of(g.as_str());
    parse_radix_usize(&cs, 10)
}

/// The arguments of the unpacking call, as `decoder_args_of` says.
pub fn decoder_args(caps: &Option<Vec<Option<String>>>) -> (r: Option<DecoderArgs>)
    ensures
        match decoder_args_of(caps.deep_view()) {
            Some(a) => r matches Some(d) && d.h@ == a.0 && d.u == a.1 && d.n@ == a.2 && d.t
                == a.3 && d.e == a.4 && d.r == a.5,
            None => r is None,
        },
{
    let h = group(caps, 1);
    let u = wide_number(caps, 2);
    let n = group(caps, 3);
    let t = number(caps, 4);
    let e = number(caps, 5);
    let r = wide_number(caps, 6);
    match (h, u, n, t, e, r) {
        (Some(h), Some(u), Some(n), Some(t), Some(e), Some(r)) => Some(
            DecoderArgs { h, u, n, t, e, r },
        ),
        _ => None,
    }
}

/// The media URL that a mirror's answer leads to: the unpacking call's
/// arguments, the unpacked text, the link in it, and that link parsed.
/// A failure carries the answer where no call is found or it cannot be unpacked,
/// the unpacked text where it holds no link, and the link where it is no URL.
pub open spec fn snap_result(body: Seq<char>) -> Result<Seq<char>, FailureView> {
    match decoder_args_of(regex_captures(DECODER_ARGS_PATTERN@, body)) {
        None => Err((ResolveError::NoDecoderArgs, body)),
        Some(a) => match decoded(a.0, a.2, a.3 as u32, a.4) {
            None => Err((ResolveError::CannotDecode, body)),
            Some(text) => match group_of(regex_captures(VIDEO_URL_PATTERN@, text), 1) {
                None => Err((ResolveError::NoLink, text)),
                Some(link) => match parsed_url(link) {
                    Some(u) => Ok(u),
                    None => Err((ResolveError::BadUrl, link)),
                },
            },
        },
    }
}

/// The token that the mirror of `p` needs: the one on the first mirror's landing
/// page `html`, failing with that page where there is none; empty for the other
/// mirror, which needs no landing page.
pub open spec fn token_of(p: Platform, html: Seq<char>) -> Result<Seq<char>, FailureView> {
    if p != Platform::TikTok {
        Ok(Seq::empty())
    } else {
        match group_of(regex_captures(TOKEN_PATTERN@, html), 1) {
            Some(t) => Ok(t),
            None => Err((ResolveError::NoToken, html)),
        }
    }
}

/// Resolves links of the two mirrors that share this protocol.
pub struct SnapUrlResolver {
    pub platform: Platform,
}

impl SnapUrlResolver {
    pub fn new(platform: Platform) -> (r: SnapUrlResolver)
        ensures
            r.platform == platform,
    {
        SnapUrlResolver { platform }
    }

    /// Only the first mirror hands out a token first.
    pub fn needs_token(&self) -> (r: bool)
        ensures
            r == (self.platform == Platform::TikTok),
    {
        self.platform == Platform::TikTok
    }

    /// The GET of the landing page that holds the token.
    pub fn token_request(&self) -> (r: HttpRequest)
        ensures
            r@ == get_request(SNAPTIK_LANDING@),
    {
        get(SNAPTIK_LANDING)
    }

    /// The token to post, as `token_of` says: read from the landing page where
    /// the mirror needs one (`html` is then that page), else empty.
    pub fn get_token(&self, catalog: &Catalog, html: &str) -> (r: Result<String, ResolveFailure>)
        requires
            catalog.wf(),
        ensures
            text_result_is(r, token_of(self.platform, html@)),
            self.platform != Platform::TikTok ==> (r matches Ok(t) && t@.len() == 0),
    {
        if !self.needs_token() {
            let t = String::new();
            assert(t@ =~= Seq::<char>::empty());
            return Ok(t);
        }
        let caps = catalog.token.captures(html);
        match group(&caps, 1) {
            Some(t) => Ok(t),
            None => Err(failure(ResolveError::NoToken, html)),
        }
    }

    /// The form that asks for `url`.
    pub fn get_multipart_content(&self, url: &str, token: &str) -> (r: String)
        ensures
            r@ == multipart_body(url@, token@),
    {
        MULTIPART_HEAD.to_owned().concat(url).concat(MULTIPART_MIDDLE).concat(token).concat(
            MULTIPART_TAIL,
        )
    }

    pub fn get_endpoint(&self) -> (r: Result<&'static str, ResolveError>)
        ensures
            match endpoint_of(self.platform) {
                Some(e) => r matches Ok(s) && s@ == e,
                None => r == Err::<&'static str, ResolveError>(ResolveError::Unsupported),
            },
    {
        match self.platform {
            Platform::TikTok => Ok(SNAPTIK_ENDPOINT),
            Platform::Instagram => Ok(SNAPINSTA_ENDPOINT),
            _ => Err(ResolveError::Unsupported),
        }
    }

    pub fn get_referer(&self) -> (r: Result<&'static str, ResolveError>)
        ensures
            match referer_of(self.platform) {
                Some(e) => r matches Ok(s) && s@ == e,
                None => r == Err::<&'static str, ResolveError>(ResolveError::Unsupported),
            },
    {
        match self.platform {
            Platform::TikTok => Ok(SNAPTIK_REFERER),
            Platform::Instagram => Ok(SNAPINSTA_REFERER),
            _ => Err(ResolveError::Unsupported),
        }
    }

    /// The POST that asks the mirror for `url`.
    pub fn post_request(&self, url: &str, token: &str) -> (r: Result<HttpRequest, ResolveError>)
        ensures
            match snap_post(self.platform, url@, token@) {
                Some(v) => r matches Ok(q) && q@ == v,
                None => r matches Err(e) && e == ResolveError::Unsupported,
            },
    {
        let body = self.get_multipart_content(url, token);
        let endpoint = self.get_endpoint()?;
        let referer = self.get_referer()?;
        let length = decimal_string(body.as_str().as_bytes().len());
        let mut headers: Vec<(String, String)> = Vec::new();
        headers.push(text_pair("referer", referer));
        headers.push(text_pair("user-agent", CHROME_AGENT));
        headers.push(text_pair("content-type", MULTIPART_TYPE));
        headers.push((String::from_str("content-length"), length));
        let ghost hv = headers.deep_view();
        assert(hv =~= seq![
            ("referer"@, referer@),
            ("user-agent"@, CHROME_AGENT@),
            ("content-type"@, MULTIPART_TYPE@),
            ("content-length"@, decimal(vstd::utf8::encode_utf8(body@).len())),
        ]);
        Ok(HttpRequest { method: Method::Post, url: endpoint.to_owned(), headers, body: Body::Multipart(body) })
    }

    /// The media URL in the mirror's answer, as `snap_result` says.
    pub fn resolve_reply(&self, catalog: &Catalog, body: &str) -> (r: Result<WebUrl, ResolveFailure>)
        requires
            catalog.wf(),
        ensures
            url_result_is(r, snap_result(body@)),
    {
        let caps = catalog.decoder_args.captures(body);
        let args = match decoder_args(&caps) {
            Some(a) => a,
            None => {
                return Err(failure(ResolveError::NoDecoderArgs, body));
            },
        };
        let text = match decode(args.h.as_str(), args.u, args.n.as_str(), args.t, args.e as usize, args.r) {
            Some(s) => s,
            None => {
                return Err(failure(ResolveError::CannotDecode, body));
            },
        };
        let caps = catalog.video_url.captures(text.as_str());
        let link = match group(&caps, 1) {
            Some(l) => l,
            None => {
                return Err(failure(ResolveError::NoLink, text.as_str()));
            },
        };
        match WebUrl::parse(link.as_str()) {
            Some(u) => Ok(u),
            None => Err(failure(ResolveError::BadUrl, link.as_str())),
        }
    }
}

} // verus!
