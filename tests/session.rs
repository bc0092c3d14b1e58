use snaptik_bot::http::{Body, HttpReply, Method};
use snaptik_bot::patterns::Catalog;
use snaptik_bot::resolver::ResolveError;
use snaptik_bot::session::{
    incoming_of, Action, Event, Incoming, Phase, Session, CANNOT_PROCESS, GREETING, MENTION,
    NOT_SUPPORTED, PROCESSING, TOO_LARGE, TOO_LARGE_SIGNATURE,
};
use snaptik_bot::telegram::{Chat, ChatType, Message, Response, Update, Video};

fn message(id: Option<isize>, chat: Option<Chat>, text: Option<&str>, reply: Option<Message>) -> Message {
    Message {
        message_id: id,
        chat,
        text: text.map(|t| t.to_string()),
        reply_to_message: reply.map(Box::new),
        video: None,
    }
}

fn private_update(text: &str) -> Update {
    Update {
        update_id: 1,
        message: Some(message(Some(5), Some(Chat { id: 7, chat_type: ChatType::Private }), Some(text), None)),
    }
}

fn sent(id: isize, file_id: Option<&str>) -> Event {
    Event::Sent(Message {
        message_id: Some(id),
        chat: None,
        text: None,
        reply_to_message: None,
        video: file_id.map(|f| Video { file_id: f.to_string() }),
    })
}

fn pack(text: &str, n: &str, t: u32, e: u32) -> String {
    let alphabet: Vec<char> = n.chars().collect();
    let mut out = String::new();
    for ch in text.chars() {
        let mut v = ch as u32 + t;
        let mut digits = Vec::new();
        loop {
            digits.push(alphabet[(v % e) as usize]);
            v /= e;
            if v == 0 {
                break;
            }
        }
        digits.reverse();
        out.extend(digits);
        out.push(alphabet[e as usize]);
    }
    out
}

fn start(text: &str, cache: bool) -> (Session, Action) {
    let incoming = incoming_of(&private_update(text)).unwrap();
    Session::new(incoming, cache)
}

fn expect_placeholder(a: Action) {
    match a {
        Action::SendMessage(m) => {
            assert_eq!(m.chat_id, 7);
            assert_eq!(m.text, PROCESSING);
            assert_eq!(m.reply_to_message_id, Some(5));
            assert!(m.link_preview_options.is_none());
        },
        _ => panic!("expected the placeholder"),
    }
}

fn expect_edit(a: Action, text: &str) {
    match a {
        Action::EditMessage(m) => {
            assert_eq!(m.chat_id, 7);
            assert_eq!(m.message_id, Some(100));
            assert_eq!(m.text, text);
        },
        _ => panic!("expected an edit of the placeholder"),
    }
}

fn expect_delete(a: Action) {
    match a {
        Action::DeleteMessage(m) => {
            assert_eq!(m.chat_id, 7);
            assert_eq!(m.message_id, 100);
        },
        _ => panic!("expected the placeholder's deletion"),
    }
}

#[test]
fn start_command_sends_greeting() {
    let cat = Catalog::new().unwrap();
    let (mut s, a) = start("/start", true);
    match a {
        Action::SendMessage(m) => {
            assert_eq!(m.chat_id, 7);
            assert_eq!(m.text, GREETING);
            assert_eq!(m.reply_to_message_id, None);
            assert_eq!(m.link_preview_options.unwrap().is_disabled, Some(true));
        },
        _ => panic!("expected the greeting"),
    }
    assert!(matches!(s.step(&cat, sent(9, None)), Action::Finish));
    assert_eq!(s.phase, Phase::Finished);
}

#[test]
fn tiktok_link_cache_miss() {
    let cat = Catalog::new().unwrap();
    let (mut s, a) = start("https://vm.tiktok.com/ZABC/", true);
    expect_placeholder(a);
    match s.step(&cat, sent(100, None)) {
        Action::LookupCache(k) => assert_eq!(k, "https://vm.tiktok.com/ZABC/"),
        _ => panic!("expected a cache lookup"),
    }
    match s.step(&cat, Event::Cached(None)) {
        Action::Fetch(q) => {
            assert_eq!(q.method, Method::Get);
            assert_eq!(q.url, "https://snaptik.app/en");
        },
        _ => panic!("expected the token request"),
    }
    let landing = "<form><input name=\"token\" value=\"TOK9\" type=\"hidden\"></form>";
    match s.step(&cat, Event::Reply(HttpReply { set_cookie: None, body: landing.to_string() })) {
        Action::Fetch(q) => {
            assert_eq!(q.method, Method::Post);
            assert_eq!(q.url, "https://snaptik.app/abc2.php");
            match q.body {
                Body::Multipart(b) => {
                    assert!(b.contains("TOK9"));
                    assert!(b.contains("https://vm.tiktok.com/ZABC/"));
                },
                _ => panic!("expected a multipart body"),
            }
        },
        _ => panic!("expected the packed request"),
    }
    let inner = "<a href=\"https://d.rapidcdn.app/v?dl=1&a=2\">Download</a>";
    let page = format!("(\"{}\",5,\"abcdefghij\",11,8,3)", pack(inner, "abcdefghij", 11, 8));
    match s.step(&cat, Event::Reply(HttpReply { set_cookie: None, body: page })) {
        Action::SendVideo(v) => {
            assert_eq!(v.chat_id, 7);
            assert_eq!(v.video, "https://d.rapidcdn.app/v?a=2");
            assert!(!v.video.contains("dl="));
            assert_eq!(v.reply_to_message_id, Some(5));
            assert_eq!(v.caption, Some("https://vm.tiktok.com/ZABC/".to_string()));
        },
        _ => panic!("expected the video"),
    }
    expect_delete(s.step(&cat, sent(101, Some("F1"))));
    match s.step(&cat, Event::Done) {
        Action::StoreCache(k, f) => {
            assert_eq!(k, "https://vm.tiktok.com/ZABC/");
            assert_eq!(f, "F1");
        },
        _ => panic!("expected the cache insert"),
    }
    assert!(matches!(s.step(&cat, Event::Done), Action::Finish));
}

#[test]
fn tiktok_link_cache_hit() {
    let cat = Catalog::new().unwrap();
    let (mut s, a) = start("https://vm.tiktok.com/ZABC/", true);
    expect_placeholder(a);
    assert!(matches!(s.step(&cat, sent(100, None)), Action::LookupCache(_)));
    match s.step(&cat, Event::Cached(Some("BAAC".to_string()))) {
        Action::SendVideo(v) => {
            assert_eq!(v.video, "BAAC");
            assert_eq!(v.caption, Some("https://vm.tiktok.com/ZABC/".to_string()));
        },
        _ => panic!("expected the cached video"),
    }
    expect_delete(s.step(&cat, sent(101, Some("BAAC"))));
    assert!(matches!(s.step(&cat, Event::Done), Action::Finish));
    assert!(s.resolution.is_none());
}

#[test]
fn unsupported_link_is_rejected() {
    let cat = Catalog::new().unwrap();
    let (mut s, a) = start("https://example.com/foo", true);
    expect_placeholder(a);
    expect_edit(s.step(&cat, sent(100, None)), NOT_SUPPORTED);
    assert_eq!(NOT_SUPPORTED, "❌ Only TikTok, Instagram or Shorts links are accepted.");
    assert!(s.resolution.is_none());
    assert!(matches!(s.step(&cat, Event::Done), Action::Finish));
}

#[test]
fn text_that_is_no_link_is_rejected() {
    let cat = Catalog::new().unwrap();
    let (mut s, _) = start("hello there", false);
    expect_edit(s.step(&cat, sent(100, None)), NOT_SUPPORTED);
}

#[test]
fn twitter_link_routes_to_search_mirror() {
    let cat = Catalog::new().unwrap();
    let (mut s, a) = start("https://twitter.com/x/status/1", false);
    expect_placeholder(a);
    match s.step(&cat, sent(100, None)) {
        Action::Fetch(q) => {
            assert_eq!(q.url, "https://savetwitter.net/api/ajaxSearch");
            match q.body {
                Body::Form(f) => assert_eq!(f[0].1, "https://twitter.com/x/status/1/"),
                _ => panic!("expected a form"),
            }
        },
        _ => panic!("expected the search request"),
    }
    let json = "{\"status\":\"ok\",\"data\":\"<a href=\\\"https://cdn.example/v.mp4\\\">\"}";
    match s.step(&cat, Event::Reply(HttpReply { set_cookie: None, body: json.to_string() })) {
        Action::SendVideo(v) => assert_eq!(v.video, "https://cdn.example/v.mp4"),
        _ => panic!("expected the video"),
    }
}

#[test]
fn too_large_video_is_reported() {
    let cat = Catalog::new().unwrap();
    let (mut s, _) = start("https://twitter.com/x/status/1", true);
    assert!(matches!(s.step(&cat, sent(100, None)), Action::LookupCache(_)));
    assert!(matches!(s.step(&cat, Event::Cached(None)), Action::Fetch(_)));
    let html = "<a href=\"https://cdn.example/v.mp4\">";
    assert!(matches!(
        s.step(&cat, Event::Reply(HttpReply { set_cookie: None, body: html.to_string() })),
        Action::SendVideo(_)
    ));
    expect_edit(s.step(&cat, Event::Failed(TOO_LARGE_SIGNATURE.to_string())), TOO_LARGE);
    assert_eq!(TOO_LARGE, "❌ Video is too large to send it.");
    assert!(matches!(s.step(&cat, Event::Done), Action::Finish));
    assert!(s.media_id.is_none());
}

#[test]
fn other_delivery_failure_is_reported() {
    let cat = Catalog::new().unwrap();
    let (mut s, _) = start("https://x.com/x/status/1", false);
    assert!(matches!(s.step(&cat, sent(100, None)), Action::Fetch(_)));
    let html = "<a href=\"https://cdn.example/v.mp4\">";
    assert!(matches!(
        s.step(&cat, Event::Reply(HttpReply { set_cookie: None, body: html.to_string() })),
        Action::SendVideo(_)
    ));
    expect_edit(s.step(&cat, Event::Failed("Bad Request: something".to_string())), CANNOT_PROCESS);
}

#[test]
fn resolver_failure_is_reported() {
    let cat = Catalog::new().unwrap();
    let (mut s, _) = start("https://www.instagram.com/reel/x", false);
    match s.step(&cat, sent(100, None)) {
        Action::Fetch(q) => assert_eq!(q.url, "https://snapinsta.app/action2.php"),
        _ => panic!("expected the packed request"),
    }
    expect_edit(s.step(&cat, Event::Failed("timeout".to_string())), CANNOT_PROCESS);
    assert_eq!(s.failure.as_ref().map(|f| f.kind), Some(ResolveError::Transport));
    assert!(matches!(s.step(&cat, Event::Done), Action::Finish));
}

#[test]
fn unreadable_page_is_kept_for_the_log() {
    let cat = Catalog::new().unwrap();
    let (mut s, _) = start("https://x.com/x/status/1", false);
    assert!(matches!(s.step(&cat, sent(100, None)), Action::Fetch(_)));
    let body = "<p>rate limited</p>";
    expect_edit(
        s.step(&cat, Event::Reply(HttpReply { set_cookie: None, body: body.to_string() })),
        CANNOT_PROCESS,
    );
    let f = s.failure.as_ref().unwrap();
    assert_eq!((f.kind, f.fragment.as_str()), (ResolveError::NoLink, body));
}

#[test]
fn every_session_finishes_within_nine_steps() {
    let cat = Catalog::new().unwrap();
    let (mut s, _) = start("https://vm.tiktok.com/ZABC/", true);
    let mut steps = 0;
    loop {
        let a = s.step(&cat, Event::Failed("down".to_string()));
        steps += 1;
        if matches!(a, Action::Finish) {
            break;
        }
        assert!(steps < 9);
    }
    assert_eq!(s.phase, Phase::Finished);
}

#[test]
fn placeholder_failure_finishes() {
    let cat = Catalog::new().unwrap();
    let (mut s, _) = start("https://vm.tiktok.com/ZABC/", true);
    assert!(matches!(s.step(&cat, Event::Failed("no".to_string())), Action::Finish));
}

#[test]
fn delivery_without_media_id_stores_nothing() {
    let cat = Catalog::new().unwrap();
    let (mut s, _) = start("https://x.com/x/status/1", true);
    assert!(matches!(s.step(&cat, sent(100, None)), Action::LookupCache(_)));
    assert!(matches!(s.step(&cat, Event::Cached(None)), Action::Fetch(_)));
    let html = "<a href=\"https://cdn.example/v.mp4\">";
    assert!(matches!(
        s.step(&cat, Event::Reply(HttpReply { set_cookie: None, body: html.to_string() })),
        Action::SendVideo(_)
    ));
    expect_delete(s.step(&cat, sent(101, None)));
    assert!(matches!(s.step(&cat, Event::Done), Action::Finish));
}

#[test]
fn group_chat_needs_mention_in_reply() {
    let group = Some(Chat { id: 7, chat_type: ChatType::Group });
    let link = message(Some(3), group, Some("https://vm.tiktok.com/ZABC/"), None);
    let plain = Update { update_id: 1, message: Some(message(Some(4), group, Some("https://vm.tiktok.com/ZABC/"), None)) };
    assert!(incoming_of(&plain).is_none());
    let bare_mention = Update { update_id: 2, message: Some(message(Some(4), group, Some(MENTION), None)) };
    assert!(incoming_of(&bare_mention).is_none());
    let other_reply = Update {
        update_id: 3,
        message: Some(message(Some(4), group, Some("look"), Some(message(Some(3), group, Some("x"), None)))),
    };
    assert!(incoming_of(&other_reply).is_none());
    let mention = Update { update_id: 4, message: Some(message(Some(4), group, Some(MENTION), Some(link))) };
    let Incoming { chat_id, message_id, text } = incoming_of(&mention).unwrap();
    assert_eq!((chat_id, message_id, text.as_str()), (7, Some(3), "https://vm.tiktok.com/ZABC/"));
}

#[test]
fn updates_without_work_are_skipped() {
    assert!(incoming_of(&Update { update_id: 1, message: None }).is_none());
    let no_chat = Update { update_id: 1, message: Some(message(Some(1), None, Some("hi"), None)) };
    assert!(incoming_of(&no_chat).is_none());
    let chat = Some(Chat { id: 7, chat_type: ChatType::Private });
    let no_text = Update { update_id: 1, message: Some(message(Some(1), chat, None, None)) };
    assert!(incoming_of(&no_text).is_none());
    let empty = Update { update_id: 1, message: Some(message(Some(1), chat, Some(""), None)) };
    assert!(incoming_of(&empty).is_none());
}

#[test]
fn response_envelope() {
    let ok: Response<u8> = Response::Success { result: 3 };
    assert_eq!(ok.into_result(), Ok(3));
    let err: Response<u8> = Response::Failure { error_code: 400, description: "Bad".to_string() };
    assert_eq!(err.into_result(), Err("Bad".to_string()));
}
