//! Parsed URLs, kept with their serialization as the url crate writes it.
use vstd::prelude::*;

use crate::text::chars_of;

verus! {

#[verifier::external_type_specification]
#[verifier::external_body]
pub struct ExUrl(url::Url);

/// The serialization of what `url::Url::parse` makes of a text; none where it
/// is no absolute URL.
pub uninterp spec fn parsed_url(s: Seq<char>) -> Option<Seq<char>>;

/// What `url::Url::host_str` gives for the URL serialized as `u`.
pub uninterp spec fn url_host(u: Seq<char>) -> Option<Seq<char>>;

/// What `url::Url::path` gives for the URL serialized as `u`.
pub uninterp spec fn url_path(u: Seq<char>) -> Seq<char>;

/// The name/value pairs that `url::Url::query_pairs` decodes from the URL
/// serialized as `u`.
pub uninterp spec fn url_query(u: Seq<char>) -> Seq<(Seq<char>, Seq<char>)>;

/// The serialization after `url::Url::set_path` with `path`.
pub uninterp spec fn url_with_path(u: Seq<char>, path: Seq<char>) -> Seq<char>;

/// The serialization after the query of `u` is cleared and `pairs` are written
/// into it through `url::Url::query_pairs_mut`.
pub uninterp spec fn url_with_query(u: Seq<char>, pairs: Seq<(Seq<char>, Seq<char>)>) -> Seq<
    char,
>;

/// The serialization after `url::Url::set_query` with no query.
pub uninterp spec fn url_without_query(u: Seq<char>) -> Seq<char>;

/// An absolute URL; its view is its serialization. Only the url crate's calls
/// below build one, so `text` is always `inner`'s serialization.
#[derive(Debug)]
pub struct WebUrl {
    inner: url::Url,
    text: String,
}

impl View for WebUrl {
    type V = Seq<char>;

    closed spec fn view(&self) -> Seq<char> {
        self.text@
    }
}

impl WebUrl {
    /// Relies on url::Url::parse: the URL that `s` spells, if any.
    #[verifier::external_body]
    pub fn parse(s: &str) -> (r: Option<WebUrl>)
        ensures
            match parsed_url(s@) {
                Some(t) => r matches Some(u) && u@ == t,
                None => r is None,
            },
    {
        url::Url::parse(s).ok().map(|u| WebUrl { text: u.as_str().to_string(), inner: u })
    }

    /// The serialization.
    pub fn as_str(&self) -> (r: &str)
        ensures
            r@ == self@,
    {
        self.text.as_str()
    }

    /// Relies on url::Url::host_str: the host, where the URL has one.
    #[verifier::external_body]
    pub fn host_str(&self) -> (r: Option<String>)
        ensures
            r.deep_view() == url_host(self@),
    {
        self.inner.host_str().map(|h| h.to_string())
    }

    /// Relies on url::Url::path: the path.
    #[verifier::external_body]
    pub fn path(&self) -> (r: String)
        ensures
            r@ == url_path(self@),
    {
        self.inner.path().to_string()
    }

    /// Relies on url::Url::query_pairs: the decoded query pairs, in order.
    #[verifier::external_body]
    pub fn query_pairs(&self) -> (r: Vec<(String, String)>)
        ensures
            r.deep_view() == url_query(self@),
    {
        self.inner.query_pairs().map(|(k, v)| (k.into_owned(), v.into_owned())).collect()
    }

    /// Relies on url::Url::set_path: this URL with its path replaced.
    #[verifier::external_body]
    pub fn with_path(&self, path: &str) -> (r: WebUrl)
        ensures
            r@ == url_with_path(self@, path@),
    {
        let mut u = self.inner.clone();
        u.set_path(path);
        WebUrl { text: u.as_str().to_string(), inner: u }
    }

    /// Relies on url::Url::set_query: this URL with no query, which then has no
    /// query pairs.
    #[verifier::external_body]
    pub fn without_query(&self) -> (r: WebUrl)
        ensures
            r@ == url_without_query(self@),
            url_query(r@) == Seq::<(Seq<char>, Seq<char>)>::empty(),
    {
        let mut u = self.inner.clone();
        u.set_query(None);
        WebUrl { text: u.as_str().to_string(), inner: u }
    }

    /// Relies on url::Url::query_pairs_mut: this URL with its query replaced by
    /// `pairs`, form-encoded, so that `query_pairs` reads back the same pairs.
    #[verifier::external_body]
    pub fn with_query_pairs(&self, pairs: &Vec<(String, String)>) -> (r: WebUrl)
        ensures
            r@ == url_with_query(self@, pairs.deep_view()),
            url_query(r@) == pairs.deep_view(),
    {
        let mut u = self.inner.clone();
        u.query_pairs_mut().clear().extend_pairs(pairs.iter());
        WebUrl { text: u.as_str().to_string(), inner: u }
    }
}

pub open spec fn ends_with(s: Seq<char>, suffix: Seq<char>) -> bool {
    s.len() >= suffix.len() && s.subrange(s.len() - suffix.len(), s.len() as int) == suffix
}

/// Whether `s` ends with `suffix`.
pub fn ends_with_chars(s: &Vec<char>, suffix: &Vec<char>) -> (r: bool)
    ensures
        r == ends_with(s@, suffix@),
{
    if s.len() < suffix.len() {
        return false;
    }
    let off = s.len() - suffix.len();
    let mut k: usize = 0;
    while k < suffix.len()
        invariant
            off + suffix@.len() == s@.len(),
            s@.len() == s.len(),
            k <= suffix@.len(),
            forall|j: int| 0 <= j < k ==> s@[off + j] == suffix@[j],
        decreases suffix@.len() - k,
    {
        if s[off + k] != suffix[k] {
            assert(s@.subrange(off as int, s@.len() as int)[k as int] != suffix@[k as int]);
            return false;
        }
        k += 1;
    }
    assert(s@.subrange(off as int, s@.len() as int) =~= suffix@);
    true
}

/// The path of a cache key and of a resolver's input: ends with `/`.
pub open spec fn normalized_path(path: Seq<char>) -> Seq<char> {
    if path.len() > 0 && path.last() == '/' {
        path
    } else {
        path.push('/')
    }
}

/// `path`, with a `/` added where it does not end with one.
pub fn normalize_path(path: &str) -> (r: String)
    ensures
        r@ == normalized_path(path@),
        r@.len() > 0 && r@.last() == '/',
{
    let mut cs = chars_of(path);
    if cs.len() == 0 || cs[cs.len() - 1] != '/' {
        cs.push('/');
    }
    crate::text::string_of(&cs)
}

/// The URL that a message text names, with its path ending in `/`: the cache key
/// and the resolvers' input.
pub open spec fn normalized_url(text: Seq<char>) -> Option<Seq<char>> {
    match parsed_url(text) {
        Some(u) => Some(url_with_path(u, normalized_path(url_path(u)))),
        None => None,
    }
}

/// Parses a message text as a URL and makes its path end in `/`; `None` where the
/// text is no URL.
pub fn normalize_url(text: &str) -> (r: Option<WebUrl>)
    ensures
        match normalized_url(text@) {
            Some(t) => r matches Some(u) && u@ == t,
            None => r is None,
        },
{
    let u = WebUrl::parse(text)?;
    let path = u.path();
    let p = normalize_path(path.as_str());
    Some(u.with_path(p.as_str()))
}

/// Whether `pair` is kept when the `dl` parameter is taken out of a query.
pub open spec fn keeps_pair(pair: (Seq<char>, Seq<char>)) -> bool {
    pair.0 != "dl"@
}

/// The query pairs without those named `dl`, order kept.
pub fn without_dl(pairs: &Vec<(String, String)>) -> (r: Vec<(String, String)>)
    ensures
        r.deep_view() == pairs.deep_view().filter(|p: (Seq<char>, Seq<char>)| keeps_pair(p)),
{
    let dl = "dl".to_owned();
    let mut out: Vec<(String, String)> = Vec::new();
    let mut i: usize = 0;
    while i < pairs.len()
        invariant
            i <= pairs@.len(),
            dl@ == "dl"@,
            out.deep_view() == pairs.deep_view().subrange(0, i as int).filter(
                |p: (Seq<char>, Seq<char>)| keeps_pair(p),
            ),
        decreases pairs@.len() - i,
    {
        let ghost before = pairs.deep_view().subrange(0, i as int);
        assert(pairs.deep_view().subrange(0, i + 1).drop_last() =~= before);
        let (k, v) = &pairs[i];
        assert(pairs.deep_view()[i as int] == (k@, v@));
        if !(*k == dl) {
            out.push((k.clone(), v.clone()));
        }
        i += 1;
        reveal(Seq::filter);
        assert(out.deep_view() =~= pairs.deep_view().subrange(0, i as int).filter(
            |p: (Seq<char>, Seq<char>)| keeps_pair(p),
        ));
    }
    assert(pairs.deep_view().subrange(0, pairs@.len() as int) =~= pairs.deep_view());
    out
}

/// Whether a pair is named `dl`.
pub open spec fn has_dl(pairs: Seq<(Seq<char>, Seq<char>)>) -> bool {
    exists|i: int| 0 <= i < pairs.len() && (#[trigger] pairs[i]).0 == "dl"@
}

/// The URL handed to the chat platform for a resolved `u`: unchanged where no
/// query pair is named `dl`; else without those pairs, and without a query where
/// none is left.
pub open spec fn scrubbed(u: Seq<char>) -> Seq<char> {
    let q = url_query(u);
    let kept = q.filter(|p: (Seq<char>, Seq<char>)| keeps_pair(p));
    if !has_dl(q) {
        u
    } else if kept.len() == 0 {
        url_without_query(u)
    } else {
        url_with_query(u, kept)
    }
}

proof fn lemma_filter_keeps_all(q: Seq<(Seq<char>, Seq<char>)>)
    requires
        !has_dl(q),
    ensures
        q.filter(|p: (Seq<char>, Seq<char>)| keeps_pair(p)) == q,
    decreases q.len(),
{
    reveal(Seq::filter);
    if q.len() > 0 {
        let init = q.drop_last();
        assert forall|i: int| 0 <= i < init.len() implies (#[trigger] init[i]).0 != "dl"@ by {
            assert(init[i] == q[i]);
        }
        lemma_filter_keeps_all(init);
        assert(q.last() == q[q.len() - 1]);
        assert(init.push(q.last()) =~= q);
    }
}

proof fn lemma_filter_drops_dl(q: Seq<(Seq<char>, Seq<char>)>)
    ensures
        !has_dl(q.filter(|p: (Seq<char>, Seq<char>)| keeps_pair(p))),
{
    let kept = q.filter(|p: (Seq<char>, Seq<char>)| keeps_pair(p));
    assert forall|i: int| 0 <= i < kept.len() implies (#[trigger] kept[i]).0 != "dl"@ by {
        q.lemma_filter_pred(|p: (Seq<char>, Seq<char>)| keeps_pair(p), i);
    }
}

/// Whether a pair is named `dl`, as `has_dl` says.
pub fn any_dl(pairs: &Vec<(String, String)>) -> (r: bool)
    ensures
        r == has_dl(pairs.deep_view()),
{
    let dl = "dl".to_owned();
    let mut i: usize = 0;
    while i < pairs.len()
        invariant
            i <= pairs@.len(),
            dl@ == "dl"@,
            forall|j: int| 0 <= j < i ==> (#[trigger] pairs.deep_view()[j]).0 != "dl"@,
        decreases pairs@.len() - i,
    {
        let (k, _) = &pairs[i];
        assert(pairs.deep_view()[i as int].0 == k@);
        if *k == dl {
            return true;
        }
        i += 1;
    }
    false
}

/// The URL handed to the chat platform, as `scrubbed` says.
pub fn scrub_query(u: WebUrl) -> (r: WebUrl)
    ensures
        r@ == scrubbed(u@),
        url_query(r@) == url_query(u@).filter(|p: (Seq<char>, Seq<char>)| keeps_pair(p)),
        !has_dl(url_query(r@)),
{
    proof {
        lemma_filter_drops_dl(url_query(u@));
    }
    let pairs = u.query_pairs();
    if !any_dl(&pairs) {
        proof {
            lemma_filter_keeps_all(url_query(u@));
        }
        return u;
    }
    let kept = without_dl(&pairs);
    if kept.len() == 0 {
        let r = u.without_query();
        assert(url_query(r@) =~= kept.deep_view());
        r
    } else {
        u.with_query_pairs(&kept)
    }
}

} // verus!
