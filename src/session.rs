//! One webhook invocation, as a state machine: the caller performs each action
//! and hands back what came of it.
use vstd::prelude::*;

use crate::http::{HttpReply, HttpRequest, ReplyView, RequestView};
use crate::patterns::Catalog;
use crate::platform::{platform_for, Platform};
use crate::resolver::{
    first_step, next_step, EventView, FailureView, ResolveEvent, ResolveFailure,
    ResolveStep, Resolution, Stage, StepView,
};
use crate::shorts::Media;
use crate::telegram::{
    ChatType, DeleteMessage, EditMessageText, LinkPreviewOptions, Message, SendMessage, SendVideo,
    Update,
};
use crate::weburl::{
    has_dl, keeps_pair, normalize_url, normalized_url, scrub_query, scrubbed, url_host, url_query,
    url_with_query, url_without_query, WebUrl,
};

verus! {

/// The text that calls the bot in a group, in reply to a message with a link.
pub const MENTION: &'static str = "@SnapTikRsBot";

pub const START_COMMAND: &'static str = "/start";

pub const GREETING: &'static str = "👋 Send me a TikTok, Instagram, YouTube Shorts or Twitter link and I will reply with the video.";

pub const PROCESSING: &'static str = "⏱️  Processing...";

pub const NOT_SUPPORTED: &'static str = "❌ Only TikTok, Instagram or Shorts links are accepted.";

pub const CANNOT_PROCESS: &'static str = "❌ Cannot process video.";

pub const TOO_LARGE: &'static str = "❌ Video is too large to send it.";

/// The chat platform's description of a video it would not take by URL.
pub const TOO_LARGE_SIGNATURE: &'static str = "Bad Request: wrong file identifier/HTTP URL specified";

/// A message the bot will work on: where it came from, what to reply to, its text.
pub struct Incoming {
    pub chat_id: i64,
    pub message_id: Option<isize>,
    pub text: String,
}

/// The chat, the message to reply to and the text that an update asks the bot to
/// work on: a message with a chat and a non-empty text; outside private chats,
/// only the mention in reply to a message, which then gives its id and text.
pub open spec fn admitted(u: &Update) -> Option<(i64, Option<isize>, Seq<char>)> {
    match &u.message {
        None => None,
        Some(m) => match (m.chat, &m.text) {
            (Some(chat), Some(t)) => if t@.len() == 0 {
                None
            } else if chat.chat_type == ChatType::Private {
                Some((chat.id, m.message_id, t@))
            } else if t@ != MENTION@ {
                None
            } else {
                match &m.reply_to_message {
                    Some(replied) => match &replied.text {
                        Some(rt) => Some((chat.id, replied.message_id, rt@)),
                        None => None,
                    },
                    None => None,
                }
            },
            _ => None,
        },
    }
}

/// What the bot works on in an update, as `admitted` says.
pub fn incoming_of(update: &Update) -> (r: Option<Incoming>)
    ensures
        match admitted(update) {
            Some(v) => r matches Some(i) && (i.chat_id, i.message_id, i.text@) == v,
            None => r is None,
        },
{
    let m = match &update.message {
        Some(m) => m,
        None => {
            return None;
        },
    };
    let (chat, text) = match (m.chat, &m.text) {
        (Some(chat), Some(t)) => (chat, t),
        _ => {
            return None;
        },
    };
    if text.as_str().is_empty() {
        return None;
    }
    if chat.chat_type == ChatType::Private {
        return Some(Incoming { chat_id: chat.id, message_id: m.message_id, text: text.clone() });
    }
    let mention = MENTION.to_owned();
    if !(*text == mention) {
        return None;
    }
    match &m.reply_to_message {
        Some(replied) => match &replied.text {
            Some(rt) => Some(
                Incoming { chat_id: chat.id, message_id: replied.message_id, text: rt.clone() },
            ),
            None => None,
        },
        None => None,
    }
}

#[derive(Debug, Clone, Copy, PartialEq, Eq, Structural)]
pub enum Phase {
    /// The greeting was sent.
    Greeting,
    /// The placeholder was sent.
    Placeholder,
    /// The cache was asked.
    Lookup,
    /// A resolver's request is out.
    Resolving,
    /// The resolved video was sent.
    Delivering,
    /// The cached video was sent.
    CachedDelivery,
    /// The placeholder is being deleted.
    Cleanup,
    /// The media id is being cached.
    Remember,
    /// The placeholder was edited to tell of a failure.
    Reporting,
    Finished,
}

/// What the caller does next.
pub enum Action {
    SendMessage(SendMessage),
    EditMessage(EditMessageText),
    DeleteMessage(DeleteMessage),
    SendVideo(SendVideo),
    /// Look the key up in the cache, if one is bound.
    LookupCache(String),
    /// Cache the media id under the key.
    StoreCache(String, String),
    Fetch(HttpRequest),
    /// Read this JSON array of two media lists; hand back the first.
    ParseMedia(String),
    /// Acknowledge the webhook.
    Finish,
}

pub enum ActionView {
    SendMessage { chat_id: i64, text: Seq<char>, reply_to: Option<isize>, preview: Option<Option<bool>> },
    EditMessage { chat_id: i64, message_id: Option<isize>, text: Seq<char> },
    DeleteMessage { chat_id: i64, message_id: isize },
    SendVideo { chat_id: i64, video: Seq<char>, reply_to: Option<isize>, caption: Option<Seq<char>> },
    LookupCache(Seq<char>),
    StoreCache(Seq<char>, Seq<char>),
    Fetch(RequestView),
    ParseMedia(Seq<char>),
    Finish,
}

impl View for Action {
    type V = ActionView;

    open spec fn view(&self) -> ActionView {
        match self {
            Action::SendMessage(m) => ActionView::SendMessage {
                chat_id: m.chat_id,
                text: m.text@,
                reply_to: m.reply_to_message_id,
                preview: match &m.link_preview_options {
                    Some(o) => Some(o.is_disabled),
                    None => None,
                },
            },
            Action::EditMessage(m) => ActionView::EditMessage {
                chat_id: m.chat_id,
                message_id: m.message_id,
                text: m.text@,
            },
            Action::DeleteMessage(m) => ActionView::DeleteMessage {
                chat_id: m.chat_id,
                message_id: m.message_id,
            },
            Action::SendVideo(v) => ActionView::SendVideo {
                chat_id: v.chat_id,
                video: v.video@,
                reply_to: v.reply_to_message_id,
                caption: v.caption.deep_view(),
            },
            Action::LookupCache(k) => ActionView::LookupCache(k@),
            Action::StoreCache(k, f) => ActionView::StoreCache(k@, f@),
            Action::Fetch(q) => ActionView::Fetch(q@),
            Action::ParseMedia(j) => ActionView::ParseMedia(j@),
            Action::Finish => ActionView::Finish,
        }
    }
}

/// What came of the last action.
pub enum Event {
    /// A message call succeeded with this message.
    Sent(Message),
    /// A call failed, with the platform's description.
    Failed(String),
    /// What the cache holds for the key; none on a miss, an error, or no cache.
    Cached(Option<String>),
    Reply(HttpReply),
    Media(Vec<Media>),
    /// An edit, delete or store was attempted.
    Done,
}

pub enum SessionEvent {
    Sent { message_id: Option<isize>, file_id: Option<Seq<char>> },
    Failed(Seq<char>),
    Cached(Option<Seq<char>>),
    Reply(ReplyView),
    Media(Seq<Media>),
    Done,
}

impl View for Event {
    type V = SessionEvent;

    open spec fn view(&self) -> SessionEvent {
        match self {
            Event::Sent(m) => SessionEvent::Sent {
                message_id: m.message_id,
                file_id: match &m.video {
                    Some(v) => Some(v.file_id@),
                    None => None,
                },
            },
            Event::Failed(d) => SessionEvent::Failed(d@),
            Event::Cached(c) => SessionEvent::Cached(c.deep_view()),
            Event::Reply(r) => SessionEvent::Reply(r@),
            Event::Media(l) => SessionEvent::Media(l@),
            Event::Done => SessionEvent::Done,
        }
    }
}

/// One invocation's state.
pub struct Session {
    pub chat_id: i64,
    pub reply_to: Option<isize>,
    pub text: String,
    pub cache_bound: bool,
    pub placeholder: Option<isize>,
    pub key: Option<WebUrl>,
    pub resolution: Option<Resolution>,
    pub media_id: Option<String>,
    /// Why the resolver failed, with the text it could not use, for the log.
    pub failure: Option<ResolveFailure>,
    pub phase: Phase,
}

pub struct SessionView {
    pub chat_id: i64,
    pub reply_to: Option<isize>,
    pub text: Seq<char>,
    pub cache_bound: bool,
    pub placeholder: Option<isize>,
    pub key: Option<Seq<char>>,
    pub resolution: Option<(Platform, Seq<char>, Stage)>,
    pub media_id: Option<Seq<char>>,
    pub failure: Option<FailureView>,
    pub phase: Phase,
}

impl View for Session {
    type V = SessionView;

    open spec fn view(&self) -> SessionView {
        SessionView {
            chat_id: self.chat_id,
            reply_to: self.reply_to,
            text: self.text@,
            cache_bound: self.cache_bound,
            placeholder: self.placeholder,
            key: match &self.key {
                Some(k) => Some(k@),
                None => None,
            },
            resolution: match &self.resolution {
                Some(r) => Some((r.platform, r.input@, r.stage)),
                None => None,
            },
            media_id: self.media_id.deep_view(),
            failure: match &self.failure {
                Some(f) => Some(f@),
                None => None,
            },
            phase: self.phase,
        }
    }
}

pub open spec fn finish(s: SessionView) -> (SessionView, ActionView) {
    (SessionView { phase: Phase::Finished, ..s }, ActionView::Finish)
}

/// Edit the placeholder to tell of a failure.
pub open spec fn report(s: SessionView, text: Seq<char>) -> (SessionView, ActionView) {
    (
        SessionView { phase: Phase::Reporting, ..s },
        ActionView::EditMessage { chat_id: s.chat_id, message_id: s.placeholder, text },
    )
}

/// Cache the media id, where there is a cache, a key and an id.
pub open spec fn remember(s: SessionView) -> (SessionView, ActionView) {
    match (s.cache_bound, s.key, s.media_id) {
        (true, Some(k), Some(f)) => (
            SessionView { phase: Phase::Remember, ..s },
            ActionView::StoreCache(k, f),
        ),
        _ => finish(s),
    }
}

/// Delete the placeholder, where its id is known; else go on.
pub open spec fn cleanup(s: SessionView) -> (SessionView, ActionView) {
    match s.placeholder {
        Some(id) => (
            SessionView { phase: Phase::Cleanup, ..s },
            ActionView::DeleteMessage { chat_id: s.chat_id, message_id: id },
        ),
        None => remember(s),
    }
}

/// Act on what the resolver asks for.
pub open spec fn on_step(s: SessionView, step: StepView) -> (SessionView, ActionView) {
    match step {
        StepView::Fetch(q) => (SessionView { phase: Phase::Resolving, ..s }, ActionView::Fetch(q)),
        StepView::ParseMedia(j) => (
            SessionView { phase: Phase::Resolving, ..s },
            ActionView::ParseMedia(j),
        ),
        StepView::Done(Err(f)) => report(SessionView { failure: Some(f), ..s }, CANNOT_PROCESS@),
        StepView::Done(Ok(u)) => (
            SessionView { phase: Phase::Delivering, ..s },
            ActionView::SendVideo {
                chat_id: s.chat_id,
                video: scrubbed(u),
                reply_to: s.reply_to,
                caption: Some(s.text),
            },
        ),
    }
}

/// Classify the key's host and start its resolver.
pub open spec fn dispatch(s: SessionView) -> (SessionView, ActionView) {
    match s.key {
        None => report(s, NOT_SUPPORTED@),
        Some(k) => match platform_for(url_host(k)) {
            Err(_) => report(s, NOT_SUPPORTED@),
            Ok(p) => {
                let (stage, step) = first_step(p, k);
                on_step(SessionView { resolution: Some((p, k, stage)), ..s }, step)
            },
        },
    }
}

/// Work on the text once the placeholder is out: parse and normalize it, reject
/// an unsupported site, then ask the cache, if any, or go on to the resolver.
pub open spec fn begin(s: SessionView) -> (SessionView, ActionView) {
    match normalized_url(s.text) {
        None => report(s, NOT_SUPPORTED@),
        Some(k) => {
            let s1 = SessionView { key: Some(k), ..s };
            if platform_for(url_host(k)) is Err {
                report(s1, NOT_SUPPORTED@)
            } else if s.cache_bound {
                (SessionView { phase: Phase::Lookup, ..s1 }, ActionView::LookupCache(k))
            } else {
                dispatch(s1)
            }
        },
    }
}

/// What a resolver gets of an event.
pub open spec fn resolver_event(e: SessionEvent) -> EventView {
    match e {
        SessionEvent::Reply(r) => EventView::Reply(r),
        SessionEvent::Media(l) => EventView::Media(l),
        _ => EventView::Failed,
    }
}

/// The next state and action of a session.
pub open spec fn session_next(s: SessionView, e: SessionEvent) -> (SessionView, ActionView) {
    match s.phase {
        Phase::Placeholder => match e {
            SessionEvent::Sent { message_id, .. } => begin(
                SessionView { placeholder: message_id, ..s },
            ),
            _ => finish(s),
        },
        Phase::Lookup => match e {
            SessionEvent::Cached(Some(f)) => (
                SessionView { phase: Phase::CachedDelivery, ..s },
                ActionView::SendVideo {
                    chat_id: s.chat_id,
                    video: f,
                    reply_to: s.reply_to,
                    caption: Some(s.text),
                },
            ),
            _ => dispatch(s),
        },
        Phase::Resolving => match s.resolution {
            Some((p, input, stage)) => {
                let (stage2, step) = next_step(p, input, stage, resolver_event(e));
                on_step(SessionView { resolution: Some((p, input, stage2)), ..s }, step)
            },
            None => finish(s),
        },
        Phase::Delivering => match e {
            SessionEvent::Sent { file_id, .. } => cleanup(SessionView { media_id: file_id, ..s }),
            SessionEvent::Failed(d) => report(
                s,
                if d == TOO_LARGE_SIGNATURE@ {
                    TOO_LARGE@
                } else {
                    CANNOT_PROCESS@
                },
            ),
            _ => report(s, CANNOT_PROCESS@),
        },
        Phase::CachedDelivery => cleanup(SessionView { media_id: None, ..s }),
        Phase::Cleanup => remember(s),
        _ => finish(s),
    }
}

/// The state and first action for a message: the greeting for the start
/// command, else the placeholder in reply to the message.
pub open spec fn session_start(chat_id: i64, message_id: Option<isize>, text: Seq<char>, cache_bound: bool) -> (SessionView, ActionView) {
    let s = SessionView {
        chat_id,
        reply_to: message_id,
        text,
        cache_bound,
        placeholder: None,
        key: None,
        resolution: None,
        media_id: None,
        failure: None,
        phase: Phase::Placeholder,
    };
    if text == START_COMMAND@ {
        (
            SessionView { phase: Phase::Greeting, ..s },
            ActionView::SendMessage { chat_id, text: GREETING@, reply_to: None, preview: Some(Some(true)) },
        )
    } else {
        (s, ActionView::SendMessage { chat_id, text: PROCESSING@, reply_to: message_id, preview: None })
    }
}

fn edit(s: &Session, text: &str) -> (r: Action)
    ensures
        r@ == (ActionView::EditMessage { chat_id: s.chat_id, message_id: s.placeholder, text: text@ }),
{
    Action::EditMessage(EditMessageText { chat_id: s.chat_id, message_id: s.placeholder, text: text.to_owned() })
}

impl Session {
    /// Starts work on a message, as `session_start` says.
    pub fn new(incoming: Incoming, cache_bound: bool) -> (r: (Session, Action))
        ensures
            (r.0@, r.1@) == session_start(incoming.chat_id, incoming.message_id, incoming.text@, cache_bound),
    {
        let start = START_COMMAND.to_owned();
        let is_start = incoming.text == start;
        let chat_id = incoming.chat_id;
        let message_id = incoming.message_id;
        let s = Session {
            chat_id,
            reply_to: message_id,
            text: incoming.text,
            cache_bound,
            placeholder: None,
            key: None,
            resolution: None,
            media_id: None,
            failure: None,
            phase: if is_start { Phase::Greeting } else { Phase::Placeholder },
        };
        let action = if is_start {
            Action::SendMessage(SendMessage {
                chat_id,
                text: GREETING.to_owned(),
                reply_to_message_id: None,
                link_preview_options: Some(LinkPreviewOptions { is_disabled: Some(true) }),
            })
        } else {
            Action::SendMessage(SendMessage {
                chat_id,
                text: PROCESSING.to_owned(),
                reply_to_message_id: message_id,
                link_preview_options: None,
            })
        };
        (s, action)
    }

    fn finish(&mut self) -> (r: Action)
        ensures
            (final(self)@, r@) == finish(old(self)@),
    {
        self.phase = Phase::Finished;
        Action::Finish
    }

    fn report(&mut self, text: &str) -> (r: Action)
        ensures
            (final(self)@, r@) == report(old(self)@, text@),
    {
        self.phase = Phase::Reporting;
        edit(self, text)
    }

    fn remember(&mut self) -> (r: Action)
        ensures
            (final(self)@, r@) == remember(old(self)@),
    {
        if self.cache_bound {
            match (&self.key, &self.media_id) {
                (Some(k), Some(f)) => {
                    let action = Action::StoreCache(k.as_str().to_owned(), f.clone());
                    self.phase = Phase::Remember;
                    return action;
                },
                _ => {},
            }
        }
        self.finish()
    }

    fn cleanup(&mut self) -> (r: Action)
        ensures
            (final(self)@, r@) == cleanup(old(self)@),
    {
        match self.placeholder {
            Some(id) => {
                self.phase = Phase::Cleanup;
                Action::DeleteMessage(DeleteMessage { chat_id: self.chat_id, message_id: id })
            },
            None => self.remember(),
        }
    }

    fn on_step(&mut self, step: ResolveStep) -> (r: Action)
        ensures
            (final(self)@, r@) == on_step(old(self)@, step@),
            final(self).phase == Phase::Delivering ==> (r matches Action::SendVideo(v) && !has_dl(
                url_query(v.video@),
            )),
    {
        match step {
            ResolveStep::Fetch(q) => {
                self.phase = Phase::Resolving;
                Action::Fetch(q)
            },
            ResolveStep::ParseMedia(j) => {
                self.phase = Phase::Resolving;
                Action::ParseMedia(j)
            },
            ResolveStep::Done(Err(f)) => {
                self.failure = Some(f);
                self.report(CANNOT_PROCESS)
            },
            ResolveStep::Done(Ok(u)) => {
                let target = scrub_query(u);
                self.phase = Phase::Delivering;
                Action::SendVideo(SendVideo {
                    chat_id: self.chat_id,
                    video: target.as_str().to_owned(),
                    reply_to_message_id: self.reply_to,
                    caption: Some(self.text.clone()),
                })
            },
        }
    }

    fn dispatch(&mut self) -> (r: Action)
        ensures
            (final(self)@, r@) == dispatch(old(self)@),
            final(self).phase == Phase::Delivering ==> (r matches Action::SendVideo(v) && !has_dl(
                url_query(v.video@),
            )),
    {
        let (platform, input) = match &self.key {
            None => {
                return self.report(NOT_SUPPORTED);
            },
            Some(k) => match Platform::new(k) {
                Err(_) => {
                    return self.report(NOT_SUPPORTED);
                },
                Ok(p) => (p, k.as_str().to_owned()),
            },
        };
        let (resolution, step) = Resolution::start(platform, input.as_str());
        self.resolution = Some(resolution);
        self.on_step(step)
    }

    fn begin(&mut self) -> (r: Action)
        ensures
            (final(self)@, r@) == begin(old(self)@),
            final(self).phase == Phase::Delivering ==> (r matches Action::SendVideo(v) && !has_dl(
                url_query(v.video@),
            )),
    {
        match normalize_url(self.text.as_str()) {
            None => self.report(NOT_SUPPORTED),
            Some(k) => {
                let key = k.as_str().to_owned();
                let supported = Platform::new(&k).is_ok();
                self.key = Some(k);
                if !supported {
                    self.report(NOT_SUPPORTED)
                } else if self.cache_bound {
                    self.phase = Phase::Lookup;
                    Action::LookupCache(key)
                } else {
                    self.dispatch()
                }
            },
        }
    }

    /// Takes what came of the last action and says what to do next, as
    /// `session_next` says. A video sent by URL after resolving has no query pair
    /// named `dl`.
    pub fn step(&mut self, catalog: &Catalog, ev: Event) -> (r: Action)
        requires
            catalog.wf(),
        ensures
            (final(self)@, r@) == session_next(old(self)@, ev@),
            final(self).phase == Phase::Delivering ==> (r matches Action::SendVideo(v) && !has_dl(
                url_query(v.video@),
            )),
    {
        match self.phase {
            Phase::Placeholder => match ev {
                Event::Sent(m) => {
                    self.placeholder = m.message_id;
                    self.begin()
                },
                _ => self.finish(),
            },
            Phase::Lookup => match ev {
                Event::Cached(Some(f)) => {
                    self.phase = Phase::CachedDelivery;
                    Action::SendVideo(SendVideo {
                        chat_id: self.chat_id,
                        video: f,
                        reply_to_message_id: self.reply_to,
                        caption: Some(self.text.clone()),
                    })
                },
                _ => self.dispatch(),
            },
            Phase::Resolving => {
                let rev = match ev {
                    Event::Reply(r) => ResolveEvent::Reply(r),
                    Event::Media(l) => ResolveEvent::Media(l),
                    _ => ResolveEvent::Failed,
                };
                match &mut self.resolution {
                    Some(res) => {
                        let step = res.advance(catalog, rev);
                        self.on_step(step)
                    },
                    None => self.finish(),
                }
            },
            Phase::Delivering => match ev {
                Event::Sent(m) => {
                    self.media_id = match m.video {
                        Some(v) => Some(v.file_id),
                        None => None,
                    };
                    self.cleanup()
                },
                Event::Failed(d) => {
                    let signature = TOO_LARGE_SIGNATURE.to_owned();
                    if d == signature {
                        self.report(TOO_LARGE)
                    } else {
                        self.report(CANNOT_PROCESS)
                    }
                },
                _ => self.report(CANNOT_PROCESS),
            },
            Phase::CachedDelivery => {
                self.media_id = None;
                self.cleanup()
            },
            Phase::Cleanup => self.remember(),
            _ => self.finish(),
        }
    }
}

} // verus!
verus! {

/// A session's key, once it has one, is the normalized URL of its text.
pub open spec fn keyed(s: SessionView) -> bool {
    s.key is Some ==> s.key == normalized_url(s.text)
}

/// The cache key and every resolver's input are the message text parsed as a URL
/// and rebuilt with a path that ends in `/`.
pub proof fn key_and_input_are_normalized(s: SessionView, e: SessionEvent)
    requires
        keyed(s),
        s.resolution matches Some((_, input, _)) ==> s.key == Some(input),
    ensures
        keyed(session_next(s, e).0),
        session_next(s, e).0.resolution matches Some((_, input, _)) ==> session_next(s, e).0.key
            == Some(input),
        session_next(s, e).1 matches ActionView::LookupCache(k) ==> normalized_url(s.text) == Some(
            k,
        ),
        session_next(s, e).0.key matches Some(k) ==> exists|u: Seq<char>|
            #[trigger] crate::weburl::parsed_url(s.text) == Some(u) && k == crate::weburl::url_with_path(
                u,
                crate::weburl::normalized_path(crate::weburl::url_path(u)),
            ),
        forall|p: Seq<char>| #[trigger] crate::weburl::normalized_path(p).last() == '/',
{
    let (s2, a) = session_next(s, e);
    if let Some(k) = s2.key {
        let u = crate::weburl::parsed_url(s.text)->0;
        assert(crate::weburl::parsed_url(s.text) == Some(u));
    }
}

/// A session starts with no key and no resolution.
pub proof fn start_is_keyed(chat_id: i64, message_id: Option<isize>, text: Seq<char>, cache_bound: bool)
    ensures
        keyed(session_start(chat_id, message_id, text, cache_bound).0),
        session_start(chat_id, message_id, text, cache_bound).0.resolution is None,
{
}

/// With a cache bound, a delivery that the platform answers with a media id ends
/// by storing that id under the session's key; a later message with the same
/// text looks up that same key, and when the cache gives the id back, the video
/// is sent by that id at once, without any resolver request.
pub proof fn cache_round_trip(
    s: SessionView,
    message_id: Option<isize>,
    file_id: Seq<char>,
    chat_id: i64,
    later_id: Option<isize>,
    placeholder: Option<isize>,
)
    requires
        s.phase == Phase::Delivering,
        s.cache_bound,
        keyed(s),
        s.key matches Some(k) && platform_for(url_host(k)) is Ok,
        s.text != START_COMMAND@,
    ensures
        ({
            let (s1, a1) = session_next(s, SessionEvent::Sent { message_id, file_id: Some(file_id) });
            let (s2, a2) = match a1 {
                ActionView::DeleteMessage { .. } => session_next(s1, SessionEvent::Done),
                _ => (s1, a1),
            };
            a2 == ActionView::StoreCache(normalized_url(s.text)->0, file_id)
        }),
        ({
            let (t0, _) = session_start(chat_id, later_id, s.text, true);
            let (t1, b1) = session_next(t0, SessionEvent::Sent { message_id: placeholder, file_id: None });
            let (t2, b2) = session_next(t1, SessionEvent::Cached(Some(file_id)));
            &&& b1 == ActionView::LookupCache(normalized_url(s.text)->0)
            &&& b2 == (ActionView::SendVideo { chat_id, video: file_id, reply_to: later_id, caption: Some(s.text) })
            &&& t2.phase == Phase::CachedDelivery
            &&& t2.resolution is None
        }),
{
}

/// A URL handed to the chat platform keeps the resolved URL where that has no
/// query pair named `dl`, and then has none; it has no query pairs where only
/// `dl` pairs were there; else the query written into it holds no pair named `dl`.
pub proof fn scrubbed_has_no_dl(u: Seq<char>)
    ensures
        ({
            let q = url_query(u);
            let kept = q.filter(|p: (Seq<char>, Seq<char>)| keeps_pair(p));
            &&& !has_dl(q) ==> scrubbed(u) == u && forall|i: int|
                0 <= i < url_query(scrubbed(u)).len() ==> (#[trigger] url_query(scrubbed(u))[i]).0
                    != "dl"@
            &&& has_dl(q) && kept.len() == 0 ==> scrubbed(u) == url_without_query(u)
            &&& has_dl(q) && kept.len() > 0 ==> scrubbed(u) == url_with_query(u, kept)
            &&& forall|i: int| 0 <= i < kept.len() ==> (#[trigger] kept[i]).0 != "dl"@
        }),
{
    let kept = url_query(u).filter(|p: (Seq<char>, Seq<char>)| keeps_pair(p));
    assert forall|i: int| 0 <= i < kept.len() implies (#[trigger] kept[i]).0 != "dl"@ by {
        url_query(u).lemma_filter_pred(|p: (Seq<char>, Seq<char>)| keeps_pair(p), i);
    }
}

/// Every video that a session sends after resolving is the resolved URL scrubbed
/// of `dl`.
pub proof fn resolved_video_is_scrubbed(s: SessionView, e: SessionEvent)
    requires
        s.phase == Phase::Resolving,
    ensures
        session_next(s, e).1 matches ActionView::SendVideo { video, .. } ==> exists|u: Seq<char>|
            #[trigger] scrubbed(u) == video,
{
    if let ActionView::SendVideo { video, .. } = session_next(s, e).1 {
        let (p, input, stage) = s.resolution->0;
        let (stage2, step) = next_step(p, input, stage, resolver_event(e));
        let u = step->Done_0->Ok_0;
        assert(scrubbed(u) == video);
    }
}

/// Outside a private chat, the bot works only on the mention, in reply to a
/// message.
pub proof fn group_needs_mention_and_reply(u: &Update)
    requires
        u.message matches Some(m) && m.chat matches Some(c) && c.chat_type != ChatType::Private,
    ensures
        admitted(u) is Some ==> ({
            let m = u.message->0;
            &&& m.text matches Some(t) && t@ == MENTION@
            &&& m.reply_to_message is Some
        }),
{
}

} // verus!
verus! {

/// How many more requests a resolution can make at most.
pub open spec fn stage_rank(stage: Stage) -> nat {
    match stage {
        Stage::Landing => 3,
        Stage::Token | Stage::Download => 2,
        Stage::Packed | Stage::Media | Stage::Search => 1,
        Stage::Over => 0,
    }
}

/// A bound on the steps a session has left before it finishes.
pub open spec fn steps_left(s: SessionView) -> nat {
    match s.phase {
        Phase::Finished => 0,
        Phase::Greeting | Phase::Reporting | Phase::Remember => 1,
        Phase::Cleanup => 2,
        Phase::Delivering | Phase::CachedDelivery => 3,
        Phase::Resolving => match s.resolution {
            Some((_, _, stage)) => 4 + stage_rank(stage),
            None => 4,
        },
        Phase::Lookup => 8,
        Phase::Placeholder => 9,
    }
}

/// The state after a session has taken the events in order.
pub open spec fn run(s: SessionView, events: Seq<SessionEvent>) -> SessionView
    decreases events.len(),
{
    if events.len() == 0 {
        s
    } else {
        run(session_next(s, events[0]).0, events.drop_first())
    }
}

/// Each step of an unfinished session brings it closer to its end; a finished
/// session stays finished and only acknowledges.
pub proof fn session_progress(s: SessionView, e: SessionEvent)
    ensures
        s.phase != Phase::Finished ==> steps_left(session_next(s, e).0) < steps_left(s),
        s.phase == Phase::Finished ==> session_next(s, e).0.phase == Phase::Finished
            && session_next(s, e).1 == ActionView::Finish,
        session_next(s, e).0.phase == Phase::Finished <==> session_next(s, e).1 == ActionView::Finish,
{
}

/// Whatever comes back, a session finishes, and the webhook is acknowledged,
/// after at most `steps_left` events: nine from the start.
pub proof fn session_ends(s: SessionView, events: Seq<SessionEvent>)
    requires
        events.len() >= steps_left(s),
    ensures
        run(s, events).phase == Phase::Finished,
    decreases events.len(),
{
    if events.len() > 0 {
        session_progress(s, events[0]);
        session_ends(session_next(s, events[0]).0, events.drop_first());
    }
}

/// A session starts at most nine steps from its end.
pub proof fn start_steps_left(chat_id: i64, message_id: Option<isize>, text: Seq<char>, cache_bound: bool)
    ensures
        steps_left(session_start(chat_id, message_id, text, cache_bound).0) <= 9,
{
}

} // verus!
verus! {

/// A failed delivery edits the placeholder once, to the too-large text exactly
/// when the platform gave that description, else to the cannot-process text;
/// then the session finishes, with no deletion and nothing cached.
pub proof fn delivery_failure_is_reported(s: SessionView, description: Seq<char>, e: SessionEvent)
    requires
        s.phase == Phase::Delivering,
    ensures
        ({
            let (s1, a1) = session_next(s, SessionEvent::Failed(description));
            &&& a1 == (ActionView::EditMessage {
                chat_id: s.chat_id,
                message_id: s.placeholder,
                text: if description == TOO_LARGE_SIGNATURE@ {
                    TOO_LARGE@
                } else {
                    CANNOT_PROCESS@
                },
            })
            &&& session_next(s1, e).1 == ActionView::Finish
        }),
{
}

/// A resolver that fails makes the session edit the placeholder to the
/// cannot-process text, keep the failure for the log, and finish next, with no
/// video sent.
pub proof fn resolver_failure_is_reported(s: SessionView, e: SessionEvent, e2: SessionEvent)
    requires
        s.phase == Phase::Resolving,
        s.resolution matches Some((p, input, stage)) && next_step(p, input, stage, resolver_event(e)).1 is Done
            && next_step(p, input, stage, resolver_event(e)).1->Done_0 is Err,
    ensures
        ({
            let (s1, a1) = session_next(s, e);
            let (p, input, stage) = s.resolution->0;
            &&& a1 == (ActionView::EditMessage {
                chat_id: s.chat_id,
                message_id: s.placeholder,
                text: CANNOT_PROCESS@,
            })
            &&& s1.failure == Some(next_step(p, input, stage, resolver_event(e)).1->Done_0->Err_0)
            &&& session_next(s1, e2).1 == ActionView::Finish
        }),
{
}

/// A link of the first short-video platform, not cached: the placeholder, the
/// cache lookup of the normalized link, the landing page, the form with its token,
/// the video scrubbed of `dl`, the placeholder's deletion, and the media id cached
/// under that link, in this order.
pub proof fn first_platform_cache_miss(
    chat_id: i64,
    message_id: Option<isize>,
    text: Seq<char>,
    placeholder: isize,
    landing: ReplyView,
    packed: ReplyView,
    sent_id: Option<isize>,
    file_id: Seq<char>,
)
    requires
        text != START_COMMAND@,
        normalized_url(text) is Some,
        platform_for(url_host(normalized_url(text)->0)) == Ok::<Platform, crate::platform::PlatformError>(
            Platform::TikTok,
        ),
        crate::snap::token_of(Platform::TikTok, landing.body) is Ok,
        crate::snap::snap_result(packed.body) is Ok,
    ensures
        ({
            let k = normalized_url(text)->0;
            let token = crate::snap::token_of(Platform::TikTok, landing.body)->Ok_0;
            let u = crate::snap::snap_result(packed.body)->Ok_0;
            let (s0, a0) = session_start(chat_id, message_id, text, true);
            let (s1, a1) = session_next(s0, SessionEvent::Sent { message_id: Some(placeholder), file_id: None });
            let (s2, a2) = session_next(s1, SessionEvent::Cached(None));
            let (s3, a3) = session_next(s2, SessionEvent::Reply(landing));
            let (s4, a4) = session_next(s3, SessionEvent::Reply(packed));
            let (s5, a5) = session_next(s4, SessionEvent::Sent { message_id: sent_id, file_id: Some(file_id) });
            let (s6, a6) = session_next(s5, SessionEvent::Done);
            let (s7, a7) = session_next(s6, SessionEvent::Done);
            &&& a0 == (ActionView::SendMessage { chat_id, text: PROCESSING@, reply_to: message_id, preview: None })
            &&& a1 == ActionView::LookupCache(k)
            &&& a2 == ActionView::Fetch(crate::http::get_request(crate::snap::SNAPTIK_LANDING@))
            &&& a3 == ActionView::Fetch(crate::snap::snap_post(Platform::TikTok, k, token)->0)
            &&& a4 == (ActionView::SendVideo { chat_id, video: scrubbed(u), reply_to: message_id, caption: Some(text) })
            &&& a5 == (ActionView::DeleteMessage { chat_id, message_id: placeholder })
            &&& a6 == ActionView::StoreCache(k, file_id)
            &&& a7 == ActionView::Finish
        }),
{
}

/// A micro-blog link, not cached: the search mirror is asked for the normalized
/// link, and the link found in its answer, scrubbed of `dl`, is sent.
pub proof fn micro_blog_link(
    chat_id: i64,
    message_id: Option<isize>,
    text: Seq<char>,
    cache_bound: bool,
    placeholder: isize,
    reply: ReplyView,
)
    requires
        text != START_COMMAND@,
        normalized_url(text) is Some,
        platform_for(url_host(normalized_url(text)->0)) == Ok::<Platform, crate::platform::PlatformError>(
            Platform::Twitter,
        ),
        crate::twitter::twitter_result(reply.body) is Ok,
    ensures
        ({
            let k = normalized_url(text)->0;
            let u = crate::twitter::twitter_result(reply.body)->Ok_0;
            let (s0, _) = session_start(chat_id, message_id, text, cache_bound);
            let (s1, a1) = session_next(s0, SessionEvent::Sent { message_id: Some(placeholder), file_id: None });
            let (s2, a2) = if cache_bound {
                session_next(s1, SessionEvent::Cached(None))
            } else {
                (s1, a1)
            };
            let (s3, a3) = session_next(s2, SessionEvent::Reply(reply));
            &&& cache_bound ==> a1 == ActionView::LookupCache(k)
            &&& a2 == ActionView::Fetch(crate::twitter::search_post(k))
            &&& a3 == (ActionView::SendVideo { chat_id, video: scrubbed(u), reply_to: message_id, caption: Some(text) })
        }),
{
}

} // verus!
