//! What an HTTP request for an operation is made of: its method, the URL of
//! the operation under the session's base URL, its body and the type of the
//! grids it carries.
use vstd::prelude::*;
use crate::text::{str_eq, to_owned_string};

verus! {

/// Whether `c` may stand in an HTTP method: a token character of RFC 9110,
/// an ASCII letter or digit or one of `!#$%&'*+-.^_`|~`.
pub open spec fn method_char(c: char) -> bool {
    ('0' <= c <= '9') || ('A' <= c <= 'Z') || ('a' <= c <= 'z') || c == '!' || ('#' <= c <= '\'') || c == '*'
        || c == '+' || c == '-' || c == '.' || c == '^' || c == '_' || c == '`' || c == '|' || c == '~'
}

/// Whether `m` is an HTTP method: a non-empty run of method characters.
pub open spec fn http_method_valid(m: Seq<char>) -> bool {
    m.len() > 0 && forall|i: int| 0 <= i < m.len() ==> #[trigger] method_char(m[i])
}

/// `reqwest::Method::from_str` (`http::Method::from_bytes`), asking only
/// whether it succeeds: by the source it refuses the empty text and any byte
/// outside its table of method characters, and takes every other text.
#[verifier::external_body]
fn method_is_valid(m: &str) -> (r: bool)
    ensures
        r == http_method_valid(m@),
{
    <reqwest::Method as core::str::FromStr>::from_str(m).is_ok()
}

/// The serialization of the URL that `op` names relative to the URL that
/// `base` parses as, where both parse.
pub uninterp spec fn url_join_of(base: Seq<char>, op: Seq<char>) -> Option<Seq<char>>;

/// `url::Url::parse(base)` and then `Url::join(op)`, handing back the joined
/// URL's text. The claim is that the outcome depends on the two texts alone
/// (`url_join_of`).
#[verifier::external_body]
fn url_join(base: &str, op: &str) -> (r: Result<String, url::ParseError>)
    ensures
        (r is Ok) == (url_join_of(base@, op@) is Some),
        r matches Ok(u) ==> url_join_of(base@, op@) == Some(u@),
{
    match url::Url::parse(base) {
        Ok(b) => match b.join(op) {
            Ok(u) => Ok(u.as_str().to_string()),
            Err(e) => Err(e),
        },
        Err(e) => Err(e),
    }
}

/// The format in which grids are sent and asked for.
#[derive(Clone, Copy, Debug, PartialEq, Eq, Structural)]
pub enum GridFormat {
    Zinc,
    Json,
}

impl GridFormat {
    /// The content type of the format.
    pub open spec fn content_type_spec(self) -> Seq<char> {
        match self {
            GridFormat::Zinc => "text/zinc"@,
            GridFormat::Json => "application/json"@,
        }
    }

    /// The content type of the format: `text/zinc` or `application/json`.
    pub fn content_type(&self) -> (r: &'static str)
        ensures
            r@ == self.content_type_spec(),
    {
        match self {
            GridFormat::Zinc => "text/zinc",
            GridFormat::Json => "application/json",
        }
    }
}

/// Whether a request with the method `m` carries a body: `PUT`, `POST` and
/// `PATCH` do.
pub open spec fn sends_body(m: Seq<char>) -> bool {
    m == "PUT"@ || m == "POST"@ || m == "PATCH"@
}

/// Why the request for an operation could not be made.
#[derive(Debug)]
pub enum RequestErr {
    /// The method is not an HTTP method.
    InvalidMethod,
    /// The operation's name does not resolve under the base URL.
    Uri(url::ParseError),
    /// A `PUT`, `POST` or `PATCH` operation has no body.
    MissingBody,
}

/// What a request is made of.
#[derive(Debug)]
pub struct RequestPlan {
    /// The HTTP method.
    pub method: String,
    /// The URL of the operation.
    pub url: String,
    /// The body, for the methods that carry one.
    pub body: Option<String>,
    /// The type of the grids it carries.
    pub content_type: String,
}

/// Whether an optional string holds the characters of an optional text.
pub open spec fn holds_text(a: Option<String>, b: Option<Seq<char>>) -> bool {
    match (a, b) {
        (Some(x), Some(y)) => x@ == y,
        (None, None) => true,
        _ => false,
    }
}

/// The body that a request with the method `m` sends of `body`: all of it
/// for `PUT`, `POST` and `PATCH`, none for other methods.
pub open spec fn sent_body(m: Seq<char>, body: Option<String>) -> Option<Seq<char>> {
    if sends_body(m) {
        match body {
            Some(x) => Some(x@),
            None => None,
        }
    } else {
        None
    }
}

/// The request for the operation `op` with the method `method` and the body
/// `body` under the session's base URL `base`: the method must be an HTTP
/// method, then `op` must resolve under `base`, then a `PUT`, `POST` or
/// `PATCH` must have a body; other methods send none. The content type is
/// that of `format`.
pub fn plan_request(base: &str, method: &str, op: &str, body: Option<String>, format: GridFormat) -> (r: Result<RequestPlan, RequestErr>)
    ensures
        !http_method_valid(method@) ==> r matches Err(RequestErr::InvalidMethod),
        http_method_valid(method@) && url_join_of(base@, op@) is None ==> r matches Err(RequestErr::Uri(_)),
        http_method_valid(method@) && url_join_of(base@, op@) is Some && sends_body(method@) && body is None
            ==> r matches Err(RequestErr::MissingBody),
        r is Ok <==> (http_method_valid(method@) && url_join_of(base@, op@) is Some && (sends_body(method@)
            ==> body is Some)),
        r matches Ok(p) ==> p.method@ == method@ && Some(p.url@) == url_join_of(base@, op@) && holds_text(
            p.body,
            sent_body(method@, body),
        ) && p.content_type@ == format.content_type_spec(),
{
    if !method_is_valid(method) {
        return Err(RequestErr::InvalidMethod);
    }
    let url = match url_join(base, op) {
        Ok(u) => u,
        Err(e) => {
            return Err(RequestErr::Uri(e));
        },
    };
    let with_body = str_eq(method, "PUT") || str_eq(method, "POST") || str_eq(method, "PATCH");
    let body = if with_body {
        match body {
            Some(b) => Some(b),
            None => {
                return Err(RequestErr::MissingBody);
            },
        }
    } else {
        None
    };
    Ok(RequestPlan {
        method: to_owned_string(method),
        url,
        body,
        content_type: to_owned_string(format.content_type()),
    })
}

} // verus!
