use snaptik_bot::http::{Body, Method};
use snaptik_bot::patterns::{group, Catalog, TOKEN_PATTERN};
use snaptik_bot::platform::{Platform, PlatformError};
use snaptik_bot::resolver::{ResolveError, ResolveEvent, ResolveFailure, ResolveStep, Resolution, Stage};
use snaptik_bot::shorts::{get_cookie, get_media_url, Media, ShortsUrlResolver};
use snaptik_bot::snap::{decoder_args, SnapUrlResolver, MULTIPART_TYPE};
use snaptik_bot::twitter::TwitterUrlResolver;
use snaptik_bot::weburl::{normalize_path, normalize_url, scrub_query, without_dl, WebUrl};
use snaptik_bot::http::HttpReply;

fn pack(text: &str, n: &str, t: u32, e: u32) -> String {
    let alphabet: Vec<char> = n.chars().collect();
    let mut out = String::new();
    for ch in text.chars() {
        let mut v = ch as u32 + t;
        let mut digits = Vec::new();
        loop {
            digits.push(alphabet[(v % e) as usize]);
            v /= e;
            if v == 0 {
                break;
            }
        }
        digits.reverse();
        out.extend(digits);
        out.push(alphabet[e as usize]);
    }
    out
}

fn packed_page(inner: &str) -> String {
    let packed = pack(inner, "abcdefghij", 23, 6);
    format!("var x = 1; eval(function(h,u,n,t,e,r){{}}(\"{}\",31,\"abcdefghij\",23,6,12))", packed)
}

fn host(s: &str) -> Option<String> {
    Some(s.to_string())
}

#[test]
fn classify_hosts() {
    assert_eq!(Platform::from_host(&host("vm.tiktok.com")), Ok(Platform::TikTok));
    assert_eq!(Platform::from_host(&host("www.instagram.com")), Ok(Platform::Instagram));
    assert_eq!(Platform::from_host(&host("youtube.com")), Ok(Platform::Shorts));
    assert_eq!(Platform::from_host(&host("mobile.twitter.com")), Ok(Platform::Twitter));
    assert_eq!(Platform::from_host(&host("x.com")), Ok(Platform::Twitter));
}

#[test]
fn classify_rejects() {
    assert_eq!(Platform::from_host(&None), Err(PlatformError::NoHost));
    assert_eq!(Platform::from_host(&host("example.com")), Err(PlatformError::Unsupported));
    assert_eq!(Platform::from_host(&host("netflix.com")), Err(PlatformError::Unsupported));
    assert_eq!(Platform::from_host(&host("www.x.com")), Err(PlatformError::Unsupported));
}

#[test]
fn classify_is_case_sensitive() {
    assert_eq!(Platform::from_host(&host("TIKTOK.COM")), Err(PlatformError::Unsupported));
    // The URL parser lower-cases the host of an https URL first.
    let u = WebUrl::parse("https://TIKTOK.COM/@a/video/1").unwrap();
    assert_eq!(u.host_str(), Some("tiktok.com".to_string()));
    assert_eq!(Platform::new(&u), Ok(Platform::TikTok));
}

#[test]
fn classify_url_without_host() {
    let u = WebUrl::parse("data:text/plain,hi").unwrap();
    assert_eq!(Platform::new(&u), Err(PlatformError::NoHost));
}

#[test]
fn normalize_adds_slash() {
    assert_eq!(normalize_path("/ZABC"), "/ZABC/");
    assert_eq!(normalize_path("/ZABC/"), "/ZABC/");
    assert_eq!(normalize_path(""), "/");
    let u = normalize_url("https://vm.tiktok.com/ZABC").unwrap();
    assert_eq!(u.as_str(), "https://vm.tiktok.com/ZABC/");
    assert_eq!(u.path(), "/ZABC/");
    let u = normalize_url("https://vm.tiktok.com/ZABC?x=1").unwrap();
    assert_eq!(u.as_str(), "https://vm.tiktok.com/ZABC/?x=1");
    assert!(normalize_url("not a link").is_none());
}

#[test]
fn scrub_removes_dl() {
    let u = WebUrl::parse("https://d.rapidcdn.app/v?dl=1&a=2&b=x+y").unwrap();
    assert_eq!(u.query_pairs().len(), 3);
    assert_eq!(scrub_query(u).as_str(), "https://d.rapidcdn.app/v?a=2&b=x+y");
    let u = WebUrl::parse("https://cdn.example/v.mp4?dl=1").unwrap();
    assert_eq!(scrub_query(u).as_str(), "https://cdn.example/v.mp4");
    let u = WebUrl::parse("https://cdn.example/v.mp4").unwrap();
    assert_eq!(scrub_query(u).as_str(), "https://cdn.example/v.mp4");
    let u = WebUrl::parse("https://cdn.example/v.mp4?a=1").unwrap();
    assert_eq!(scrub_query(u).as_str(), "https://cdn.example/v.mp4?a=1");
}

#[test]
fn without_dl_keeps_order() {
    let pairs = vec![
        ("b".to_string(), "1".to_string()),
        ("dl".to_string(), "2".to_string()),
        ("a".to_string(), "3".to_string()),
        ("dl".to_string(), "4".to_string()),
        ("dlx".to_string(), "5".to_string()),
    ];
    let kept = without_dl(&pairs);
    assert_eq!(
        kept,
        vec![
            ("b".to_string(), "1".to_string()),
            ("a".to_string(), "3".to_string()),
            ("dlx".to_string(), "5".to_string()),
        ]
    );
}

#[test]
fn catalog_compiles_and_captures() {
    let cat = Catalog::new().unwrap();
    let caps = cat.token.captures("<input name=\"token\" value=\"T1\" type=\"hidden\">");
    assert_eq!(group(&caps, 1), Some("T1".to_string()));
    assert_eq!(group(&caps, 2), None);
    assert_eq!(group(&cat.token.captures("nothing"), 1), None);
    assert!(TOKEN_PATTERN.contains("token"));
}

#[test]
fn snap_token() {
    let cat = Catalog::new().unwrap();
    let r = SnapUrlResolver::new(Platform::TikTok);
    assert!(r.needs_token());
    assert!(!SnapUrlResolver::new(Platform::Instagram).needs_token());
    assert_eq!(
        r.get_token(&cat, "<form><input name=\"token\" value=\"abc123\" type=\"hidden\"></form>").map_err(|f| f.kind),
        Ok("abc123".to_string())
    );
    let f = r.get_token(&cat, "<html></html>").unwrap_err();
    assert_eq!(f.kind, ResolveError::NoToken);
    assert_eq!(f.fragment, "<html></html>");
    let b = SnapUrlResolver::new(Platform::Instagram);
    assert_eq!(b.get_token(&cat, "<html></html>").map_err(|f| f.kind), Ok(String::new()));
    let q = r.token_request();
    assert_eq!(q.method, Method::Get);
    assert_eq!(q.url, "https://snaptik.app/en");
}

#[test]
fn snap_endpoints() {
    let a = SnapUrlResolver::new(Platform::TikTok);
    let b = SnapUrlResolver::new(Platform::Instagram);
    let c = SnapUrlResolver::new(Platform::Shorts);
    assert_eq!(a.get_endpoint(), Ok("https://snaptik.app/abc2.php"));
    assert_eq!(a.get_referer(), Ok("https://snaptik.app/"));
    assert_eq!(b.get_endpoint(), Ok("https://snapinsta.app/action2.php"));
    assert_eq!(b.get_referer(), Ok("https://snapinsta.app/"));
    assert_eq!(c.get_endpoint(), Err(ResolveError::Unsupported));
    assert_eq!(c.get_referer(), Err(ResolveError::Unsupported));
    assert!(c.post_request("https://youtube.com/", "").is_err());
}

#[test]
fn snap_multipart_and_post() {
    let a = SnapUrlResolver::new(Platform::TikTok);
    let body = a.get_multipart_content("https://vm.tiktok.com/ZABC/", "TOK");
    assert!(body.starts_with("------WebKitFormBoundary214sQgEtL6ZBo4uE\r\n"));
    assert!(body.contains("name=\"url\"\r\n\r\nhttps://vm.tiktok.com/ZABC/\r\n"));
    assert!(body.contains("name=\"token\"\r\n\r\nTOK\r\n"));
    assert!(body.ends_with("------WebKitFormBoundary214sQgEtL6ZBo4uE--\r\n"));
    let q = a.post_request("https://vm.tiktok.com/ZABC/", "TOK").unwrap();
    assert_eq!(q.method, Method::Post);
    assert_eq!(q.url, "https://snaptik.app/abc2.php");
    assert_eq!(q.headers[0], ("referer".to_string(), "https://snaptik.app/".to_string()));
    assert_eq!(q.headers[2], ("content-type".to_string(), MULTIPART_TYPE.to_string()));
    assert_eq!(q.headers[3], ("content-length".to_string(), body.len().to_string()));
    match q.body {
        Body::Multipart(b) => assert_eq!(b, body),
        _ => panic!("expected a multipart body"),
    }
}

#[test]
fn snap_resolves_packed_page() {
    let cat = Catalog::new().unwrap();
    let page = packed_page("<a class=\"btn\" href=\"https://d.rapidcdn.app/v?token=z&dl=1\">Download</a>");
    let r = SnapUrlResolver::new(Platform::TikTok);
    let u = r.resolve_reply(&cat, &page).unwrap();
    assert_eq!(u.as_str(), "https://d.rapidcdn.app/v?token=z&dl=1");
}

#[test]
fn snap_reply_errors() {
    let cat = Catalog::new().unwrap();
    let r = SnapUrlResolver::new(Platform::Instagram);
    let f = r.resolve_reply(&cat, "no call here").unwrap_err();
    assert_eq!((f.kind, f.fragment.as_str()), (ResolveError::NoDecoderArgs, "no call here"));
    let bad = "(\"cda\",1,\"abcdefghij\",0,5,1)";
    let f = r.resolve_reply(&cat, bad).unwrap_err();
    assert_eq!((f.kind, f.fragment.as_str()), (ResolveError::CannotDecode, bad));
    let page = packed_page("<a href=\"https://elsewhere.example/v\">x</a>");
    let f = r.resolve_reply(&cat, &page).unwrap_err();
    assert_eq!(
        (f.kind, f.fragment.as_str()),
        (ResolveError::NoLink, "<a href=\"https://elsewhere.example/v\">x</a>")
    );
    let big = "(\"cdaf\",1,\"abcdefghij\",99999999999,5,1)";
    assert!(matches!(
        r.resolve_reply(&cat, big),
        Err(ResolveFailure { kind: ResolveError::NoDecoderArgs, .. })
    ));
}

#[test]
fn decoder_args_from_match() {
    let cat = Catalog::new().unwrap();
    let caps = cat.decoder_args.captures("x(\"hh\",12,\"nn\",3,4,56)y");
    let a = decoder_args(&caps).unwrap();
    assert_eq!((a.h.as_str(), a.u, a.n.as_str(), a.t, a.e, a.r), ("hh", 12, "nn", 3, 4, 56));
    let caps = cat.decoder_args.captures("(\"hh\",99999999999,\"nn\",3,4,88888888888)");
    let a = decoder_args(&caps).unwrap();
    assert_eq!((a.u, a.r), (99999999999, 88888888888));
    assert!(decoder_args(&None).is_none());
}

#[test]
fn shorts_cookie_and_csrf() {
    let cat = Catalog::new().unwrap();
    assert_eq!(
        get_cookie(&cat, &Some("session=abc.def; Path=/; HttpOnly".to_string())).map_err(|f| f.kind),
        Ok("session=abc.def;".to_string())
    );
    let f = get_cookie(&cat, &None).unwrap_err();
    assert_eq!((f.kind, f.fragment.as_str()), (ResolveError::NoCookie, ""));
    let f = get_cookie(&cat, &Some("other=1".to_string())).unwrap_err();
    assert_eq!((f.kind, f.fragment.as_str()), (ResolveError::NoCookie, "other=1"));
    let s = ShortsUrlResolver::new();
    assert_eq!(
        s.get_csrf(&cat, "<input type=\"hidden\" name=\"csrf_token\" value=\"C5\" />").map_err(|f| f.kind),
        Ok("C5".to_string())
    );
    let f = s.get_csrf(&cat, "<p>none</p>").unwrap_err();
    assert_eq!((f.kind, f.fragment.as_str()), (ResolveError::NoCsrf, "<p>none</p>"));
    assert_eq!(s.landing_request().url, "https://shortsmate.com/en/");
}

#[test]
fn shorts_download_request() {
    let s = ShortsUrlResolver::new();
    let q = s.download_request("C5", "session=abc;", "https://youtube.com/shorts/x/");
    assert_eq!(q.method, Method::Post);
    assert_eq!(q.url, "https://shortsmate.com/en/download");
    assert_eq!(q.headers[2], ("Cookie".to_string(), "session=abc;".to_string()));
    match q.body {
        Body::Form(f) => assert_eq!(
            f,
            vec![
                ("csrf_token".to_string(), "C5".to_string()),
                ("url".to_string(), "https://youtube.com/shorts/x/".to_string()),
            ]
        ),
        _ => panic!("expected a form"),
    }
}

#[test]
fn shorts_media_json() {
    let cat = Catalog::new().unwrap();
    let s = ShortsUrlResolver::new();
    let html = "<script>set_listener(\"k\", [{\"format_note\":\"720p\",\"url\":\"u\"}], [], \"a\")</script>";
    assert_eq!(
        s.media_json(&cat, html).map_err(|f| f.kind),
        Ok("[[{\"format_note\":\"720p\",\"url\":\"u\"}], []]".to_string())
    );
    let f = s.media_json(&cat, "<p></p>").unwrap_err();
    assert_eq!((f.kind, f.fragment.as_str()), (ResolveError::NoMediaList, "<p></p>"));
}

fn media(note: &str, url: Option<&str>) -> Media {
    Media { format_note: note.to_string(), url: url.map(|u| u.to_string()) }
}

#[test]
fn shorts_prefers_formats() {
    let list = vec![
        media("360p", Some("u1")),
        media("720p", Some("u2")),
        media("1080p", Some("u3")),
        media("1080p", Some("u4")),
    ];
    assert_eq!(get_media_url(&list).map_err(|f| f.kind), Ok("u3".to_string()));
    let list = vec![media("360p", Some("u1")), media("720p", Some("u2")), media("480p", Some("u5"))];
    assert_eq!(get_media_url(&list).map_err(|f| f.kind), Ok("u2".to_string()));
    let list = vec![media("360p", Some("u1")), media("480p", Some("u5"))];
    assert_eq!(get_media_url(&list).map_err(|f| f.kind), Ok("u1".to_string()));
}

#[test]
fn shorts_media_errors() {
    assert_eq!(get_media_url(&vec![]).map_err(|f| f.kind), Err(ResolveError::NoMedia));
    assert_eq!(
        get_media_url(&vec![media("1080p", None), media("360p", Some("u"))]).map_err(|f| f.kind),
        Err(ResolveError::NoMedia)
    );
}

#[test]
fn twitter_request_and_reply() {
    let cat = Catalog::new().unwrap();
    let t = TwitterUrlResolver::new();
    let q = t.search_request("https://twitter.com/x/status/1/");
    assert_eq!(q.url, "https://savetwitter.net/api/ajaxSearch");
    match q.body {
        Body::Form(f) => assert_eq!(
            f,
            vec![
                ("q".to_string(), "https://twitter.com/x/status/1/".to_string()),
                ("lang".to_string(), "en".to_string()),
            ]
        ),
        _ => panic!("expected a form"),
    }
    let json = "{\"status\":\"ok\",\"data\":\"<div><a class=\\\"b\\\" href=\\\"https://cdn.example/v.mp4\\\">Get</a></div>\"}";
    assert_eq!(t.resolve_reply(&cat, json).unwrap().as_str(), "https://cdn.example/v.mp4");
    let html = "<a class=\"b\" href=\"https://cdn.example/w.mp4\">Get</a>";
    assert_eq!(t.resolve_reply(&cat, html).unwrap().as_str(), "https://cdn.example/w.mp4");
    let f = t.resolve_reply(&cat, "nothing").unwrap_err();
    assert_eq!((f.kind, f.fragment.as_str()), (ResolveError::NoLink, "nothing"));
    let f = t.resolve_reply(&cat, "<a x href=\"no url\">").unwrap_err();
    assert_eq!((f.kind, f.fragment.as_str()), (ResolveError::BadUrl, "no url"));
}

#[test]
fn resolution_shorts_flow() {
    let cat = Catalog::new().unwrap();
    let (mut r, step) = Resolution::start(Platform::Shorts, "https://youtube.com/shorts/x/");
    assert_eq!(r.stage, Stage::Landing);
    assert!(matches!(step, ResolveStep::Fetch(ref q) if q.url == "https://shortsmate.com/en/"));
    let step = r.advance(
        &cat,
        ResolveEvent::Reply(HttpReply {
            set_cookie: Some("session=s1; Path=/".to_string()),
            body: "<input type=\"hidden\" name=\"csrf_token\" value=\"C\" />".to_string(),
        }),
    );
    assert!(matches!(step, ResolveStep::Fetch(ref q) if q.url == "https://shortsmate.com/en/download"));
    let step = r.advance(
        &cat,
        ResolveEvent::Reply(HttpReply {
            set_cookie: None,
            body: "set_listener(1, [{\"format_note\":\"720p\",\"url\":\"https://v.example/a\"}], [], \"a\")".to_string(),
        }),
    );
    assert!(matches!(step, ResolveStep::ParseMedia(_)));
    let step = r.advance(&cat, ResolveEvent::Media(vec![media("720p", Some("https://v.example/a"))]));
    match step {
        ResolveStep::Done(Ok(u)) => assert_eq!(u.as_str(), "https://v.example/a"),
        _ => panic!("expected a URL"),
    }
    assert_eq!(r.stage, Stage::Over);
}

#[test]
fn resolution_failures() {
    let cat = Catalog::new().unwrap();
    let (mut r, _) = Resolution::start(Platform::Shorts, "https://youtube.com/shorts/x/");
    let step = r.advance(
        &cat,
        ResolveEvent::Reply(HttpReply { set_cookie: None, body: String::new() }),
    );
    assert!(matches!(step, ResolveStep::Done(Err(ResolveFailure { kind: ResolveError::NoCookie, .. }))));
    let (mut r, _) = Resolution::start(Platform::Twitter, "https://x.com/a/status/2/");
    assert_eq!(r.stage, Stage::Search);
    let step = r.advance(&cat, ResolveEvent::Failed);
    assert!(matches!(step, ResolveStep::Done(Err(ResolveFailure { kind: ResolveError::Transport, .. }))));
    let (r, step) = Resolution::start(Platform::Instagram, "https://www.instagram.com/reel/x/");
    assert_eq!(r.stage, Stage::Packed);
    assert!(matches!(step, ResolveStep::Fetch(ref q) if q.url == "https://snapinsta.app/action2.php"));
}
