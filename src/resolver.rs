//! Turning a page link into a direct media link, one request at a time.
use vstd::prelude::*;

use crate::http::{get_request, HttpReply, HttpRequest, ReplyView, RequestView};
use crate::patterns::{group_of, regex_captures, Catalog, CSRF_PATTERN};
use crate::platform::Platform;
use crate::shorts::{
    cookie_of, download_post, get_cookie, get_media_url, media_json_of, preferred_url, Media,
    ShortsUrlResolver, SHORTS_LANDING,
};
use crate::snap::{snap_post, snap_result, token_of, SnapUrlResolver, SNAPTIK_LANDING};
use crate::twitter::{search_post, twitter_result, TwitterUrlResolver};
use crate::weburl::{parsed_url, WebUrl};

verus! {

/// Why a link could not be resolved.
#[derive(Debug, Clone, Copy, PartialEq, Eq, Structural)]
pub enum ResolveError {
    /// The platform has no resolver of this kind.
    Unsupported,
    /// A request failed, or its answer could not be read.
    Transport,
    /// The landing page holds no token.
    NoToken,
    /// No session cookie came back.
    NoCookie,
    /// The landing page holds no CSRF token.
    NoCsrf,
    /// The answer holds no unpacking call with usable arguments.
    NoDecoderArgs,
    /// The packed text cannot be unpacked.
    CannotDecode,
    /// No media link was found.
    NoLink,
    /// The media link is no URL.
    BadUrl,
    /// The answer holds no media list.
    NoMediaList,
    /// The media list is empty, or its preferred entry has no link.
    NoMedia,
}

/// A failed resolution: why, and the text that could not be used (the page,
/// header or unpacked text), for diagnosis.
#[derive(Debug)]
pub struct ResolveFailure {
    pub kind: ResolveError,
    pub fragment: String,
}

/// A failure's view: its kind and its fragment.
pub type FailureView = (ResolveError, Seq<char>);

impl View for ResolveFailure {
    type V = FailureView;

    open spec fn view(&self) -> FailureView {
        (self.kind, self.fragment@)
    }
}

/// A failure of the given kind, with the text that could not be used.
pub fn failure(kind: ResolveError, fragment: &str) -> (r: ResolveFailure)
    ensures
        r@ == (kind, fragment@),
{
    ResolveFailure { kind, fragment: fragment.to_owned() }
}

/// A failure with nothing to show.
pub open spec fn bare(kind: ResolveError) -> FailureView {
    (kind, Seq::empty())
}

/// `r` is the URL, or the failure, that `s` gives.
pub open spec fn url_result_is(r: Result<WebUrl, ResolveFailure>, s: Result<Seq<char>, FailureView>) -> bool {
    match s {
        Ok(u) => r matches Ok(w) && w@ == u,
        Err(e) => r matches Err(f) && f@ == e,
    }
}

/// `r` is the text, or the failure, that `s` gives.
pub open spec fn text_result_is(r: Result<String, ResolveFailure>, s: Result<Seq<char>, FailureView>) -> bool {
    match s {
        Ok(t) => r matches Ok(w) && w@ == t,
        Err(e) => r matches Err(f) && f@ == e,
    }
}

/// Where a resolution stands: what its last request was.
#[derive(Debug, Clone, Copy, PartialEq, Eq, Structural)]
pub enum Stage {
    /// The first mirror's landing page was asked for, for its token.
    Token,
    /// A packed answer was asked for.
    Packed,
    /// The helper site's landing page was asked for.
    Landing,
    /// The helper site was sent the form.
    Download,
    /// The media lists were handed out to be read.
    Media,
    /// The search mirror was asked.
    Search,
    /// The resolution is over.
    Over,
}

/// What comes back to a resolution.
pub enum ResolveEvent {
    Reply(HttpReply),
    /// The first media list read from the JSON that was handed out.
    Media(Vec<Media>),
    /// The request failed, or the JSON could not be read.
    Failed,
}

pub enum EventView {
    Reply(ReplyView),
    Media(Seq<Media>),
    Failed,
}

impl View for ResolveEvent {
    type V = EventView;

    open spec fn view(&self) -> EventView {
        match self {
            ResolveEvent::Reply(r) => EventView::Reply(r@),
            ResolveEvent::Media(list) => EventView::Media(list@),
            ResolveEvent::Failed => EventView::Failed,
        }
    }
}

/// What a resolution asks for next.
pub enum ResolveStep {
    Fetch(HttpRequest),
    /// Read this JSON array of two media lists, and hand back the first.
    ParseMedia(String),
    Done(Result<WebUrl, ResolveFailure>),
}

pub enum StepView {
    Fetch(RequestView),
    ParseMedia(Seq<char>),
    Done(Result<Seq<char>, FailureView>),
}

impl View for ResolveStep {
    type V = StepView;

    open spec fn view(&self) -> StepView {
        match self {
            ResolveStep::Fetch(q) => StepView::Fetch(q@),
            ResolveStep::ParseMedia(j) => StepView::ParseMedia(j@),
            ResolveStep::Done(Ok(u)) => StepView::Done(Ok(u@)),
            ResolveStep::Done(Err(f)) => StepView::Done(Err(f@)),
        }
    }
}

/// The first request for `input` on platform `p`, and the stage it leads to.
pub open spec fn first_step(p: Platform, input: Seq<char>) -> (Stage, StepView) {
    match p {
        Platform::TikTok => (Stage::Token, StepView::Fetch(get_request(SNAPTIK_LANDING@))),
        Platform::Instagram => match snap_post(p, input, seq![]) {
            Some(q) => (Stage::Packed, StepView::Fetch(q)),
            None => (Stage::Over, StepView::Done(Err(bare(ResolveError::Unsupported)))),
        },
        Platform::Shorts => (Stage::Landing, StepView::Fetch(get_request(SHORTS_LANDING@))),
        Platform::Twitter => (Stage::Search, StepView::Fetch(search_post(input))),
    }
}

pub open spec fn finished(r: Result<Seq<char>, FailureView>) -> (Stage, StepView) {
    (Stage::Over, StepView::Done(r))
}

/// The step after the helper site's landing page came back.
pub open spec fn after_landing(input: Seq<char>, reply: ReplyView) -> (Stage, StepView) {
    match cookie_of(reply.set_cookie) {
        Err(e) => finished(Err(e)),
        Ok(cookie) => match group_of(regex_captures(CSRF_PATTERN@, reply.body), 1) {
            None => finished(Err((ResolveError::NoCsrf, reply.body))),
            Some(csrf) => (Stage::Download, StepView::Fetch(download_post(csrf, cookie, input))),
        },
    }
}

/// The media URL of a media list.
pub open spec fn media_result(list: Seq<Media>) -> Result<Seq<char>, FailureView> {
    match preferred_url(list) {
        Err(e) => Err(e),
        Ok(link) => match parsed_url(link) {
            Some(u) => Ok(u),
            None => Err((ResolveError::BadUrl, link)),
        },
    }
}

/// The next stage and step of a resolution for `input` on `p`, at `stage`, on `ev`.
pub open spec fn next_step(p: Platform, input: Seq<char>, stage: Stage, ev: EventView) -> (
    Stage,
    StepView,
) {
    match (stage, ev) {
        (Stage::Token, EventView::Reply(reply)) => match token_of(p, reply.body) {
            Err(e) => finished(Err(e)),
            Ok(token) => match snap_post(p, input, token) {
                Some(q) => (Stage::Packed, StepView::Fetch(q)),
                None => finished(Err(bare(ResolveError::Unsupported))),
            },
        },
        (Stage::Packed, EventView::Reply(reply)) => finished(snap_result(reply.body)),
        (Stage::Landing, EventView::Reply(reply)) => after_landing(input, reply),
        (Stage::Download, EventView::Reply(reply)) => match media_json_of(reply.body) {
            Err(e) => finished(Err(e)),
            Ok(json) => (Stage::Media, StepView::ParseMedia(json)),
        },
        (Stage::Media, EventView::Media(list)) => finished(media_result(list)),
        (Stage::Search, EventView::Reply(reply)) => finished(twitter_result(reply.body)),
        _ => finished(Err(bare(ResolveError::Transport))),
    }
}

/// One link being resolved on one platform.
pub struct Resolution {
    pub platform: Platform,
    pub input: String,
    pub stage: Stage,
}

fn done(r: Result<WebUrl, ResolveFailure>) -> (s: ResolveStep)
    ensures
        s == ResolveStep::Done(r),
{
    ResolveStep::Done(r)
}

impl Resolution {
    /// Starts resolving `input` on `platform`: the first request.
    pub fn start(platform: Platform, input: &str) -> (r: (Resolution, ResolveStep))
        ensures
            r.0.platform == platform,
            r.0.input@ == input@,
            (r.0.stage, r.1@) == first_step(platform, input@),
    {
        let (stage, step) = match platform {
            Platform::TikTok => (Stage::Token, ResolveStep::Fetch(SnapUrlResolver::new(platform).token_request())),
            Platform::Instagram => match SnapUrlResolver::new(platform).post_request(input, "") {
                Ok(q) => (Stage::Packed, ResolveStep::Fetch(q)),
                Err(e) => (Stage::Over, done(Err(failure(e, "")))),
            },
            Platform::Shorts => (Stage::Landing, ResolveStep::Fetch(ShortsUrlResolver::new().landing_request())),
            Platform::Twitter => (Stage::Search, ResolveStep::Fetch(TwitterUrlResolver::new().search_request(input))),
        };
        proof {
            reveal_strlit("");
            assert(""@ =~= Seq::<char>::empty());
        }
        (Resolution { platform, input: input.to_owned(), stage }, step)
    }

    /// Takes what came back and says what to do next.
    pub fn advance(&mut self, catalog: &Catalog, ev: ResolveEvent) -> (r: ResolveStep)
        requires
            catalog.wf(),
        ensures
            final(self).platform == old(self).platform,
            final(self).input@ == old(self).input@,
            (final(self).stage, r@) == next_step(old(self).platform, old(self).input@, old(self).stage, ev@),
    {
        proof {
            reveal_strlit("");
            assert(""@ =~= Seq::<char>::empty());
        }
        let stage = self.stage;
        self.stage = Stage::Over;
        match (stage, ev) {
            (Stage::Token, ResolveEvent::Reply(reply)) => {
                let snap = SnapUrlResolver::new(self.platform);
                match snap.get_token(catalog, reply.body.as_str()) {
                    Err(e) => done(Err(e)),
                    Ok(token) => match snap.post_request(self.input.as_str(), token.as_str()) {
                        Ok(q) => {
                            self.stage = Stage::Packed;
                            ResolveStep::Fetch(q)
                        },
                        Err(e) => done(Err(failure(e, ""))),
                    },
                }
            },
            (Stage::Packed, ResolveEvent::Reply(reply)) => {
                done(SnapUrlResolver::new(self.platform).resolve_reply(catalog, reply.body.as_str()))
            },
            (Stage::Landing, ResolveEvent::Reply(reply)) => {
                let shorts = ShortsUrlResolver::new();
                let cookie = match get_cookie(catalog, &reply.set_cookie) {
                    Ok(c) => c,
                    Err(e) => {
                        return done(Err(e));
                    },
                };
                match shorts.get_csrf(catalog, reply.body.as_str()) {
                    Ok(csrf) => {
                        self.stage = Stage::Download;
                        ResolveStep::Fetch(shorts.download_request(csrf.as_str(), cookie.as_str(), self.input.as_str()))
                    },
                    Err(e) => done(Err(e)),
                }
            },
            (Stage::Download, ResolveEvent::Reply(reply)) => {
                match ShortsUrlResolver::new().media_json(catalog, reply.body.as_str()) {
                    Ok(json) => {
                        self.stage = Stage::Media;
                        ResolveStep::ParseMedia(json)
                    },
                    Err(e) => done(Err(e)),
                }
            },
            (Stage::Media, ResolveEvent::Media(list)) => {
                match get_media_url(&list) {
                    Err(e) => done(Err(e)),
                    Ok(link) => match WebUrl::parse(link.as_str()) {
                        Some(u) => done(Ok(u)),
                        None => done(Err(failure(ResolveError::BadUrl, link.as_str()))),
                    },
                }
            },
            (Stage::Search, ResolveEvent::Reply(reply)) => {
                done(TwitterUrlResolver::new().resolve_reply(catalog, reply.body.as_str()))
            },
            _ => done(Err(failure(ResolveError::Transport, ""))),
        }
    }
}

} // verus!
