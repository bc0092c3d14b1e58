//! The regular expressions that scrape the mirror sites' pages, compiled once.
use vstd::prelude::*;

verus! {

#[verifier::external_type_specification]
#[verifier::external_body]
pub struct ExRegex(regex::Regex);

/// What `regex::Regex::captures` finds for a pattern in a text: none where the
/// pattern does not match; else, for each group, group 0 first, the text it
/// matched where it took part in the match.
pub uninterp spec fn regex_captures(pattern: Seq<char>, text: Seq<char>) -> Option<
    Seq<Option<Seq<char>>>,
>;

/// Whether `regex::Regex::new` accepts a pattern.
pub uninterp spec fn regex_compiles(pattern: Seq<char>) -> bool;

/// A token input on the landing page of the first short-video mirror.
pub const TOKEN_PATTERN: &'static str = r#"<input name="token" value="(.+?)" .+?>"#;

/// The six arguments of the unpacking call embedded in a mirror's answer.
pub const DECODER_ARGS_PATTERN: &'static str = r#"\("(.+?)",(\d+),"(.+?)",(\d+),(\d+),(\d+)\)"#;

/// A link to one of the mirrors' media hosts inside the unpacked text.
pub const VIDEO_URL_PATTERN: &'static str =
    r#"href=\\?"(https://(.*?\.)?(snaptik\.app|snapinsta\.app|rapidcdn\.app)/.*?)\\?""#;

/// The hidden CSRF input on the landing page of the shorts mirror.
pub const CSRF_PATTERN: &'static str = r#"<input.+?name="csrf_token".+?value="(.+)".+?>"#;

/// The JSON list handed to `set_listener` in the shorts mirror's answer.
pub const JSON_PATTERN: &'static str = r#"(?s)set_listener\(.+?(\[.+\]).+?"a""#;

/// The session cookie in a `Set-Cookie` header.
pub const SESSION_PATTERN: &'static str = r#"(session=.+?;)"#;

/// The first link of the micro-blog mirror's answer.
pub const DOWNLOAD_LINK_PATTERN: &'static str = r#"<a.+?href=\\?"(.+?)\\?""#;

/// A compiled regular expression, with the text it was compiled from. Only
/// `compile` builds one, so `re` is always `source` compiled.
pub struct Pattern {
    source: String,
    re: regex::Regex,
}

impl Pattern {
    pub closed spec fn source(&self) -> Seq<char> {
        self.source@
    }

    /// Relies on regex::Regex::new: compiles `source`, or fails where it is no
    /// valid pattern.
    #[verifier::external_body]
    pub fn compile(source: &str) -> (r: Option<Pattern>)
        ensures
            r is Some <==> regex_compiles(source@),
            r matches Some(p) ==> p.source() == source@,
    {
        regex::Regex::new(source).ok().map(|re| Pattern { source: source.to_string(), re })
    }

    /// Relies on regex::Regex::captures: the groups of the first match in `text`.
    #[verifier::external_body]
    pub fn captures(&self, text: &str) -> (r: Option<Vec<Option<String>>>)
        ensures
            r.deep_view() == regex_captures(self.source(), text@),
    {
        self.re.captures(text).map(
            |c| c.iter().map(|m| m.map(|m| m.as_str().to_string())).collect(),
        )
    }
}

/// Group `k` of a match, where there is a match and that group took part in it.
pub open spec fn group_of(caps: Option<Seq<Option<Seq<char>>>>, k: int) -> Option<Seq<char>> {
    match caps {
        Some(groups) => if 0 <= k < groups.len() {
            groups[k]
        } else {
            None
        },
        None => None,
    }
}

/// The text of group `k` of a match, as `group_of` says.
pub fn group(caps: &Option<Vec<Option<String>>>, k: usize) -> (r: Option<String>)
    ensures
        r.deep_view() == group_of(caps.deep_view(), k as int),
{
    match caps {
        Some(groups) => if k < groups.len() {
            match &groups[k] {
                Some(s) => Some(s.clone()),
                None => None,
            }
        } else {
            None
        },
        None => None,
    }
}

/// Whether every pattern of the catalog compiles.
pub open spec fn all_compile() -> bool {
    &&& regex_compiles(TOKEN_PATTERN@)
    &&& regex_compiles(DECODER_ARGS_PATTERN@)
    &&& regex_compiles(VIDEO_URL_PATTERN@)
    &&& regex_compiles(CSRF_PATTERN@)
    &&& regex_compiles(JSON_PATTERN@)
    &&& regex_compiles(SESSION_PATTERN@)
    &&& regex_compiles(DOWNLOAD_LINK_PATTERN@)
}

/// Every pattern that the resolvers use, each compiled once.
pub struct Catalog {
    pub token: Pattern,
    pub decoder_args: Pattern,
    pub video_url: Pattern,
    pub csrf: Pattern,
    pub json: Pattern,
    pub session: Pattern,
    pub download_link: Pattern,
}

impl Catalog {
    /// Each pattern was compiled from its source above.
    pub open spec fn wf(&self) -> bool {
        &&& self.token.source() == TOKEN_PATTERN@
        &&& self.decoder_args.source() == DECODER_ARGS_PATTERN@
        &&& self.video_url.source() == VIDEO_URL_PATTERN@
        &&& self.csrf.source() == CSRF_PATTERN@
        &&& self.json.source() == JSON_PATTERN@
        &&& self.session.source() == SESSION_PATTERN@
        &&& self.download_link.source() == DOWNLOAD_LINK_PATTERN@
    }

    /// Compiles every pattern; `None` exactly where one does not compile.
    pub fn new() -> (r: Option<Catalog>)
        ensures
            r is Some <==> all_compile(),
            r matches Some(c) ==> c.wf(),
    {
        let token = Pattern::compile(TOKEN_PATTERN)?;
        let decoder_args = Pattern::compile(DECODER_ARGS_PATTERN)?;
        let video_url = Pattern::compile(VIDEO_URL_PATTERN)?;
        let csrf = Pattern::compile(CSRF_PATTERN)?;
        let json = Pattern::compile(JSON_PATTERN)?;
        let session = Pattern::compile(SESSION_PATTERN)?;
        let download_link = Pattern::compile(DOWNLOAD_LINK_PATTERN)?;
        Some(Catalog { token, decoder_args, video_url, csrf, json, session, download_link })
    }
}

} // verus!
