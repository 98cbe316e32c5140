//! The base URL of a session: the server's URL with a path that ends in `/`,
//! so that the names of operations resolve under it.
use vstd::prelude::*;
use crate::text::{str_chars, to_owned_string};
use crate::h_uri::{url_serialization, url_parse};

verus! {

/// The path that `url::Url::parse` gives the text `input` (`Url::path`), where
/// it accepts the text.
pub uninterp spec fn url_path_of(input: Seq<char>) -> Option<Seq<char>>;

/// The serialization of the URL that `url::Url::parse` gives the text `input`
/// after an empty segment is pushed onto its path, where the URL has path
/// segments.
pub uninterp spec fn url_with_slash_of(input: Seq<char>) -> Option<Seq<char>>;

/// `url::Url::parse` and then `Url::path`. The claim is that the path is had
/// exactly where the URL parses, and depends on the text alone
/// (`url_path_of`).
#[verifier::external_body]
fn url_path(input: &str) -> (r: Option<String>)
    ensures
        (r is Some) == (url_serialization(input@) is Some),
        r matches Some(p) ==> url_path_of(input@) == Some(p@),
{
    match url::Url::parse(input) {
        Ok(u) => Some(u.path().to_string()),
        Err(_) => None,
    }
}

/// `url::Url::parse`, then `Url::path_segments_mut` and `push("")`, then the
/// URL's text. `None` where the text does not parse or the URL cannot have
/// path segments (`path_segments_mut` refuses). The claim is that the result
/// depends on the text alone (`url_with_slash_of`) and needs the text to parse.
#[verifier::external_body]
fn url_with_slash(input: &str) -> (r: Option<String>)
    ensures
        r is Some ==> url_serialization(input@) is Some,
        r matches Some(s) ==> url_with_slash_of(input@) == Some(s@),
        r is None ==> url_with_slash_of(input@) is None,
{
    let mut u = match url::Url::parse(input) {
        Ok(u) => u,
        Err(_) => return None,
    };
    match u.path_segments_mut() {
        Ok(mut segments) => {
            segments.push("");
        },
        Err(_) => return None,
    }
    Some(u.to_string())
}

/// Why a session URL could not be made.
#[derive(Debug)]
pub enum SessionUrlErr {
    /// The URL parser refused the text.
    Uri(url::ParseError),
    /// The URL cannot have path segments, so no `/` can be added.
    CannotBeABase,
}

/// Whether `s` ends with `/`.
pub open spec fn ends_with_slash(s: Seq<char>) -> bool {
    s.len() > 0 && s.last() == '/'
}

/// The base URL of a session for the text `uri`: the URL as it parses where
/// its path already ends with `/`; else the URL with an empty segment pushed
/// onto its path; `None` where the text does not parse or no segment can be
/// pushed.
pub open spec fn session_url_of(uri: Seq<char>) -> Option<Seq<char>> {
    match url_serialization(uri) {
        None => None,
        Some(s) => match url_path_of(uri) {
            Some(p) => if ends_with_slash(p) { Some(s) } else { url_with_slash_of(uri) },
            None => url_with_slash_of(uri),
        },
    }
}

/// The base URL of a session for the text `uri` (see `session_url_of`); the
/// parser's error where it refuses the text, and `CannotBeABase` where no
/// segment can be pushed.
pub fn session_url(uri: &str) -> (r: Result<String, SessionUrlErr>)
    ensures
        match session_url_of(uri@) {
            Some(s) => r matches Ok(t) && t@ == s,
            None => r is Err,
        },
        r matches Err(SessionUrlErr::Uri(_)) <==> url_serialization(uri@) is None,
{
    let ser = match url_parse(uri) {
        Ok(s) => s,
        Err(e) => {
            return Err(SessionUrlErr::Uri(e));
        },
    };
    let path = match url_path(uri) {
        Some(p) => p,
        None => {
            return Err(SessionUrlErr::CannotBeABase);
        },
    };
    let cs = str_chars(path.as_str());
    let n = cs.len();
    if n > 0 && cs[n - 1] == '/' {
        return Ok(ser);
    }
    match url_with_slash(uri) {
        Some(s) => Ok(s),
        None => Err(SessionUrlErr::CannotBeABase),
    }
}

/// The number of operations that a session's channel holds where no other
/// number is given.
pub const DEFAULT_CHANNEL_CAPACITY: usize = 10000;

/// The number of operations that a session's channel holds: `buffer` where
/// given, else `DEFAULT_CHANNEL_CAPACITY`.
pub fn channel_capacity(buffer: Option<usize>) -> (r: usize)
    ensures
        r == match buffer {
            Some(b) => b,
            None => DEFAULT_CHANNEL_CAPACITY,
        },
{
    match buffer {
        Some(b) => b,
        None => DEFAULT_CHANNEL_CAPACITY,
    }
}

/// What a session does before it goes on: sign in, or send.
#[derive(Clone, Copy, Debug, PartialEq, Eq, Structural)]
pub enum SessionStep {
    SignIn,
    Send,
}

/// What a session does when it opens and before each operation: it signs in
/// unless it holds a token.
pub fn next_step(has_token: bool) -> (r: SessionStep)
    ensures
        r == (if has_token { SessionStep::Send } else { SessionStep::SignIn }),
{
    if has_token {
        SessionStep::Send
    } else {
        SessionStep::SignIn
    }
}

} // verus!
