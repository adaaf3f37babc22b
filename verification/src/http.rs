//! HTTP requests, with the header types of `reqwest`.
use reqwest::header::{HeaderMap, HeaderValue};
use vstd::prelude::*;
use vstd::utf8::encode_utf8;

use crate::json::{json_view, JsonView};
use crate::text::{decimal, pairs_view};

verus! {

/// `reqwest::header::HeaderValue`, the bytes of one header value.
#[verifier::external_type_specification]
#[verifier::external_body]
pub struct ExHeaderValue(reqwest::header::HeaderValue);

/// `reqwest::header::HeaderMap`, a collection of headers.
#[verifier::external_type_specification]
#[verifier::external_body]
#[verifier::reject_recursive_types(T)]
pub struct ExHeaderMap<T>(reqwest::header::HeaderMap<T>);

/// The bytes that a header value holds.
pub uninterp spec fn header_bytes(value: reqwest::header::HeaderValue) -> Seq<u8>;

/// What a collection of headers holds: for each name, in lower case, its values
/// in order.
pub uninterp spec fn header_values(
    headers: reqwest::header::HeaderMap<reqwest::header::HeaderValue>,
) -> Map<Seq<char>, Seq<Seq<u8>>>;

/// The reason phrase with which `http::StatusCode` displays a status code.
pub uninterp spec fn http_reason(status: int) -> Seq<char>;

/// A collection without headers.
pub open spec fn no_headers() -> Map<Seq<char>, Seq<Seq<u8>>> {
    Map::empty()
}

/// A letter in lower case, any other character as it is.
pub open spec fn lower(c: char) -> char {
    if 'A' <= c <= 'Z' {
        (c as int + 32) as char
    } else {
        c
    }
}

/// A header name as a collection of headers keeps it: in lower case.
pub open spec fn header_name(name: Seq<char>) -> Seq<char> {
    name.map_values(|c: char| lower(c))
}

/// Whether a name is made of letters, digits and hyphens, and is of a length
/// that every header may have.
pub open spec fn plain_header_name(name: Seq<char>) -> bool {
    &&& 0 < name.len() <= 64
    &&& forall|i: int|
        0 <= i < name.len() ==> {
            ||| 'a' <= #[trigger] name[i] <= 'z'
            ||| 'A' <= name[i] <= 'Z'
            ||| '0' <= name[i] <= '9'
            ||| name[i] == '-'
        }
}

/// Whether a text may stand in a header: it has no control character but tabs.
pub open spec fn header_text(text: Seq<char>) -> bool {
    forall|i: int|
        0 <= i < encode_utf8(text).len() ==> {
            ||| #[trigger] encode_utf8(text)[i] == 9
            ||| encode_utf8(text)[i] >= 32 && encode_utf8(text)[i] != 127
        }
}

/// Makes a header value with `HeaderValue::from_str`. It holds the UTF-8 bytes
/// of the text; where one of them is a control byte other than a tab there is no
/// value, and the text of the error is always the same.
#[verifier::external_body]
pub(crate) fn header_value(text: &str) -> (value: Result<HeaderValue, String>)
    ensures
        match value {
            Ok(value) => header_text(text@) && header_bytes(value) == encode_utf8(text@),
            Err(reason) => !header_text(text@) && reason@ == "failed to parse header value"@,
        },
{
    HeaderValue::from_str(text).map_err(|e| e.to_string())
}

/// Makes a collection with `HeaderMap::new`: it holds no header.
#[verifier::external_body]
pub(crate) fn headers_new() -> (headers: HeaderMap<HeaderValue>)
    ensures
        header_values(headers) == no_headers(),
{
    HeaderMap::new()
}

/// Sets a header with `HeaderMap::insert`: the value takes the place of every
/// value under that name, and the other headers stay. A collection of this size
/// has room for one more, and such a name is a valid one.
#[verifier::external_body]
pub(crate) fn headers_insert(
    headers: &mut HeaderMap<HeaderValue>,
    name: &'static str,
    value: HeaderValue,
)
    requires
        plain_header_name(name@),
        header_values(*old(headers)).dom().finite(),
        header_values(*old(headers)).dom().len() < 16,
    ensures
        header_values(*final(headers)) == header_values(*old(headers)).insert(
            header_name(name@),
            seq![header_bytes(value)],
        ),
{
    headers.insert(name, value);
}

/// Copies a collection with the `clone` of `HeaderMap`: the copy holds the same
/// headers.
#[verifier::external_body]
pub(crate) fn headers_clone(headers: &HeaderMap<HeaderValue>) -> (copy: HeaderMap<HeaderValue>)
    ensures
        header_values(copy) == header_values(*headers),
{
    headers.clone()
}

/// Displays a status code with `reqwest::StatusCode`: the number, a space and
/// the reason phrase, which depends on the number alone.
#[verifier::external_body]
pub(crate) fn status_text(status: u16) -> (text: String)
    requires
        100 <= status <= 999,
    ensures
        text@ == decimal(status as nat) + " "@ + http_reason(status as int),
{
    reqwest::StatusCode::from_u16(status).unwrap().to_string()
}

/// Whether a status code reports success.
pub open spec fn is_success(status: u16) -> bool {
    200 <= status < 300
}

/// The method of a request.
#[derive(Debug, Clone, Copy, PartialEq, Eq, Structural)]
pub enum HttpMethod {
    Get,
    Post,
}

/// A request that is to be sent.
pub struct HttpRequest {
    /// The method.
    pub method: HttpMethod,
    /// The URL.
    pub url: String,
    /// Headers that have been checked.
    pub headers: HeaderMap<HeaderValue>,
    /// Headers that the client has yet to check, as names and values.
    pub extra_headers: Vec<(String, String)>,
    /// Parameters that are to be appended to the query of the URL.
    pub query: Vec<(String, String)>,
    /// The JSON document to send.
    pub body: Option<serde_json::Value>,
}

/// The mathematical content of an `HttpRequest`.
#[verifier::ext_equal]
pub struct RequestView {
    pub method: HttpMethod,
    pub url: Seq<char>,
    pub headers: Map<Seq<char>, Seq<Seq<u8>>>,
    pub extra_headers: Seq<(Seq<char>, Seq<char>)>,
    pub query: Seq<(Seq<char>, Seq<char>)>,
    pub body: Option<JsonView>,
}

impl View for HttpRequest {
    type V = RequestView;

    open spec fn view(&self) -> RequestView {
        RequestView {
            method: self.method,
            url: self.url@,
            headers: header_values(self.headers),
            extra_headers: pairs_view(self.extra_headers@),
            query: pairs_view(self.query@),
            body: match self.body {
                Some(body) => Some(json_view(body)),
                None => None,
            },
        }
    }
}

} // verus!
