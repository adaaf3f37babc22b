//! The URI that a provider is configured by, taken apart.
use vstd::prelude::*;

use crate::text::{decimal, joined, opt_view, pairs_view, same};

verus! {

/// The parts of a provider URI that the configuration reads.
#[derive(Debug, Clone)]
pub struct ProviderUrl {
    /// The scheme, in lower case and without the colon.
    pub scheme: String,
    /// The user name in front of the host, percent-encoded, and empty where there
    /// is none.
    pub username: String,
    /// The host, percent-encoded, where the URI has one.
    pub host: Option<String>,
    /// The port, where the URI gives one.
    pub port: Option<u16>,
    /// The path, percent-encoded, with its leading slash.
    pub path: String,
    /// The decoded query parameters, in the order of the URI.
    pub query: Vec<(String, String)>,
}

/// The mathematical content of a `ProviderUrl`.
pub struct UrlView {
    pub scheme: Seq<char>,
    pub username: Seq<char>,
    pub host: Option<Seq<char>>,
    pub port: Option<u16>,
    pub path: Seq<char>,
    pub query: Seq<(Seq<char>, Seq<char>)>,
}

impl View for ProviderUrl {
    type V = UrlView;

    open spec fn view(&self) -> UrlView {
        UrlView {
            scheme: self.scheme@,
            username: self.username@,
            host: opt_view(self.host),
            port: self.port,
            path: self.path@,
            query: pairs_view(self.query@),
        }
    }
}

/// What `url::Url::parse` makes of a text: the parts of the URL, or the text of
/// the error.
pub uninterp spec fn url_of(text: Seq<char>) -> Result<UrlView, Seq<char>>;

/// The view of what a text has been parsed to.
pub open spec fn parsed_view(parsed: Result<ProviderUrl, String>) -> Result<UrlView, Seq<char>> {
    match parsed {
        Ok(url) => Ok(url@),
        Err(reason) => Err(reason@),
    }
}

/// Whether a character is an ASCII letter, a digit, a hyphen or an underscore.
pub open spec fn is_word_char(c: char) -> bool {
    'a' <= c <= 'z' || 'A' <= c <= 'Z' || '0' <= c <= '9' || c == '-' || c == '_'
}

/// Whether a text is made of letters, digits, hyphens and underscores.
pub open spec fn is_word(text: Seq<char>) -> bool {
    0 < text.len() && forall|i: int| 0 <= i < text.len() ==> is_word_char(#[trigger] text[i])
}

/// Whether a host is made of lower-case letters, digits, hyphens and dots: a DNS
/// name or an IPv4 address.
pub open spec fn is_plain_host(host: Seq<char>) -> bool {
    &&& 0 < host.len()
    &&& forall|i: int|
        0 <= i < host.len() ==> {
            ||| 'a' <= #[trigger] host[i] <= 'z'
            ||| '0' <= host[i] <= '9'
            ||| host[i] == '-'
            ||| host[i] == '.'
        }
}

/// Whether a path is empty, or begins with a slash and is made of slashes,
/// letters, digits, hyphens and underscores.
pub open spec fn is_plain_path(path: Seq<char>) -> bool {
    &&& 0 < path.len() ==> path[0] == '/'
    &&& forall|i: int| 0 <= i < path.len() ==> is_word_char(#[trigger] path[i]) || path[i] == '/'
}

/// Whether the parts of a URL are ones that are written as they are: nothing in
/// them is encoded, changed in case, or taken for a separator.
pub open spec fn is_plain(url: UrlView) -> bool {
    &&& url.scheme == "vault"@
    &&& url.username.len() == 0
    &&& url.host is Some && is_plain_host(url.host->0)
    &&& is_plain_path(url.path)
    &&& forall|i: int|
        0 <= i < url.query.len() ==> is_word(#[trigger] url.query[i].0) && is_word(url.query[i].1)
}

/// A host, with the port behind it where there is one.
pub open spec fn authority(host: Seq<char>, port: Option<u16>) -> Seq<char> {
    match port {
        Some(port) => host + ":"@ + decimal(port as nat),
        None => host,
    }
}

/// Query parameters, each as text.
pub open spec fn parameter_texts(query: Seq<(Seq<char>, Seq<char>)>) -> Seq<Seq<char>> {
    query.map_values(|parameter: (Seq<char>, Seq<char>)| parameter.0 + "="@ + parameter.1)
}

/// Query parameters behind a question mark; nothing where there are none.
pub open spec fn query_text(query: Seq<(Seq<char>, Seq<char>)>) -> Seq<char> {
    if query.len() > 0 {
        "?"@ + joined(parameter_texts(query), "&"@)
    } else {
        seq![]
    }
}

/// The text of a URL with plain parts.
pub open spec fn plain_text(url: UrlView) -> Seq<char> {
    url.scheme + "://"@ + authority(url.host->0, url.port) + url.path + query_text(url.query)
}

/// Whether a parser has given back the very parts that a text is put together
/// from, if the text is that of a URL with plain parts and of a length that a
/// parser can count.
pub open spec fn taken_apart(text: Seq<char>, parsed: Result<UrlView, Seq<char>>) -> bool {
    forall|url: UrlView|
        is_plain(url) && #[trigger] plain_text(url) == text && text.len() <= 0x7fff_ffff ==> parsed
            == Ok::<UrlView, Seq<char>>(url)
}

/// Parses a URL with `url::Url::parse`. The parts are what the accessors
/// `scheme`, `username`, `host_str`, `port` and `path` of the parsed URL give,
/// and the pairs of `query_pairs`; the error is the text of the parser's own.
/// All of them depend on the given text alone. A text that is put together from
/// plain parts is taken apart into these: `vault` is not one of the schemes with
/// rules of their own, so that the host is kept as it is and no port is the
/// default one, and none of the characters in the parts is encoded or decoded.
#[verifier::external_body]
fn parse_url(text: &str) -> (parsed: Result<ProviderUrl, String>)
    ensures
        url_of(text@) == parsed_view(parsed),
        taken_apart(text@, parsed_view(parsed)),
{
    let url = url::Url::parse(text).map_err(|e| e.to_string())?;
    Ok(ProviderUrl {
        scheme: url.scheme().to_string(),
        username: url.username().to_string(),
        host: url.host_str().map(|host| host.to_string()),
        port: url.port(),
        path: url.path().to_string(),
        query: url.query_pairs().into_owned().collect(),
    })
}

/// The value of the first query parameter named `key`.
pub open spec fn lookup(query: Seq<(Seq<char>, Seq<char>)>, key: Seq<char>) -> Option<Seq<char>>
    decreases query.len(),
{
    if query.len() == 0 {
        None
    } else if query[0].0 == key {
        Some(query[0].1)
    } else {
        lookup(query.drop_first(), key)
    }
}

impl ProviderUrl {
    /// Takes a URI apart. The error is the text of the URL parser's own error.
    pub fn parse(text: &str) -> (parsed: Result<Self, String>)
        ensures
            url_of(text@) == parsed_view(parsed),
            taken_apart(text@, parsed_view(parsed)),
    {
        parse_url(text)
    }

    /// The value of the first query parameter named `key`.
    pub fn query_value(&self, key: &str) -> (value: Option<String>)
        ensures
            opt_view(value) == lookup(self@.query, key@),
    {
        let mut i: usize = 0;
        proof {
            assert(self@.query.skip(0) =~= self@.query);
        }
        while i < self.query.len()
            invariant
                i <= self.query.len(),
                lookup(self@.query, key@) == lookup(self@.query.skip(i as int), key@),
            decreases self.query.len() - i,
        {
            if same(self.query[i].0.as_str(), key) {
                return Some(self.query[i].1.clone());
            }
            proof {
                assert(self@.query.skip(i as int).drop_first() =~= self@.query.skip(i + 1));
            }
            i = i + 1;
        }
        None
    }
}

} // verus!
