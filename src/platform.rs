//! Which site a link points to.
use vstd::prelude::*;

use crate::text::chars_of;
use crate::weburl::{ends_with, ends_with_chars, url_host, WebUrl};

verus! {

/// The sites whose links the bot resolves.
#[derive(Debug, Clone, Copy, PartialEq, Eq, Structural)]
pub enum Platform {
    TikTok,
    Instagram,
    Shorts,
    Twitter,
}

/// Why a link cannot be classified.
#[derive(Debug, Clone, Copy, PartialEq, Eq, Structural)]
pub enum PlatformError {
    /// The URL has no host.
    NoHost,
    /// No supported site has this host.
    Unsupported,
}

/// The site of a host, first rule first: a suffix `tiktok.com`, `instagram.com`,
/// `youtube.com` or `twitter.com`, or the host `x.com`. Letter case counts.
pub open spec fn classify(host: Seq<char>) -> Option<Platform> {
    if ends_with(host, "tiktok.com"@) {
        Some(Platform::TikTok)
    } else if ends_with(host, "instagram.com"@) {
        Some(Platform::Instagram)
    } else if ends_with(host, "youtube.com"@) {
        Some(Platform::Shorts)
    } else if ends_with(host, "twitter.com"@) || host == "x.com"@ {
        Some(Platform::Twitter)
    } else {
        None
    }
}

pub open spec fn platform_for(host: Option<Seq<char>>) -> Result<Platform, PlatformError> {
    match host {
        None => Err(PlatformError::NoHost),
        Some(h) => match classify(h) {
            Some(p) => Ok(p),
            None => Err(PlatformError::Unsupported),
        },
    }
}

fn has_suffix(host: &Vec<char>, suffix: &str) -> (r: bool)
    ensures
        r == ends_with(host@, suffix@),
{
    let s = chars_of(suffix);
    ends_with_chars(host, &s)
}

impl Platform {
    /// The site of a URL's host, as `platform_for` says.
    pub fn from_host(host: &Option<String>) -> (r: Result<Platform, PlatformError>)
        ensures
            r == platform_for(host.deep_view()),
    {
        let h = match host {
            Some(h) => chars_of(h.as_str()),
            None => {
                return Err(PlatformError::NoHost);
            },
        };
        if has_suffix(&h, "tiktok.com") {
            Ok(Platform::TikTok)
        } else if has_suffix(&h, "instagram.com") {
            Ok(Platform::Instagram)
        } else if has_suffix(&h, "youtube.com") {
            Ok(Platform::Shorts)
        } else if has_suffix(&h, "twitter.com") || (h.len() == 5 && has_suffix(&h, "x.com")) {
            proof {
                reveal_strlit("x.com");
                if h@.len() == 5 && ends_with(h@, "x.com"@) {
                    assert(h@.subrange(0, 5) =~= h@);
                }
            }
            Ok(Platform::Twitter)
        } else {
            proof {
                reveal_strlit("x.com");
                if h@ == "x.com"@ {
                    assert(h@.subrange(0, h@.len() as int) =~= h@);
                }
            }
            Err(PlatformError::Unsupported)
        }
    }

    /// The site of a URL.
    pub fn new(url: &WebUrl) -> (r: Result<Platform, PlatformError>)
        ensures
            r == platform_for(url_host(url@)),
    {
        let host = url.host_str();
        Platform::from_host(&host)
    }
}

} // verus!
