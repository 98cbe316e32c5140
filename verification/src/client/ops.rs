//! The Haystack HTTP operations: their names, methods and request bodies,
//! and the channel each answer comes back on.
use vstd::prelude::*;
use crate::text::{push_str, push_char, push_decimal, decimal, to_owned_string};
use crate::io::parse::zinc::grid_err;
use crate::io::parse::grids::{grid_err as grid_err_rule, err_meta};
use crate::io::parse::grammar::entries_free;
use crate::h_number::NumTrait;

verus! {

/// A string that is either borrowed or owned.
#[derive(Debug)]
pub enum FStr<'a> {
    Str(&'a str),
    String(String),
}

/// Whether `c` has the Unicode `White_Space` property.
pub open spec fn is_white_space(c: char) -> bool {
    c == '\t' || c == '\n' || c == '\x0B' || c == '\x0C' || c == '\r' || c == ' ' || c == '\u{85}' || c == '\u{A0}'
        || c == '\u{1680}' || ('\u{2000}' <= c <= '\u{200A}') || c == '\u{2028}' || c == '\u{2029}' || c
        == '\u{202F}' || c == '\u{205F}' || c == '\u{3000}'
}

/// Whether `c` is white space (see `is_white_space`), as `char::is_whitespace`
/// tells it.
fn char_is_whitespace(c: char) -> (r: bool)
    ensures
        r == is_white_space(c),
{
    c == '\t' || c == '\n' || c == '\x0B' || c == '\x0C' || c == '\r' || c == ' ' || c == '\u{85}' || c == '\u{A0}'
        || c == '\u{1680}' || ('\u{2000}' <= c && c <= '\u{200A}') || c == '\u{2028}' || c == '\u{2029}' || c
        == '\u{202F}' || c == '\u{205F}' || c == '\u{3000}'
}

/// The words of `s`: its longest runs of characters that are not white
/// space, in order (as `str::split_whitespace` gives them).
pub open spec fn words(s: Seq<char>) -> Seq<Seq<char>>
    decreases s.len(),
{
    if s.len() == 0 {
        seq![]
    } else if is_white_space(s.last()) {
        words(s.drop_last())
    } else {
        let w = words(s.drop_last());
        if s.len() >= 2 && !is_white_space(s[s.len() - 2]) && w.len() > 0 {
            w.update(w.len() - 1, w.last().push(s.last()))
        } else {
            w.push(seq![s.last()])
        }
    }
}

/// The words of `s` (see `words`).
pub fn split_words(s: &str) -> (r: Vec<String>)
    ensures
        r@.len() == words(s@).len(),
        forall|i: int| 0 <= i < r@.len() ==> (#[trigger] r@[i])@ == words(s@)[i],
{
    let cs = crate::text::str_chars(s);
    let mut out: Vec<String> = Vec::new();
    let mut i: usize = 0;
    while i < cs.len()
        invariant
            cs@ == s@,
            i <= cs@.len(),
            out@.len() == words(cs@.take(i as int)).len(),
            forall|j: int| 0 <= j < out@.len() ==> (#[trigger] out@[j])@ == words(cs@.take(i as int))[j],
        decreases cs@.len() - i,
    {
        let c = cs[i];
        let ws = char_is_whitespace(c);
        let ghost t = cs@.take(i + 1);
        proof {
            assert(t.drop_last() == cs@.take(i as int));
            assert(t.last() == c);
            if i >= 1 {
                assert(t[t.len() - 2] == cs@[i - 1]);
            }
        }
        if !ws {
            let joins = i >= 1 && !char_is_whitespace(cs[i - 1]) && out.len() > 0;
            if joins {
                let last = out.len() - 1;
                let mut w = out.remove(last);
                push_char(&mut w, c);
                out.push(w);
                proof {
                    let old_w = words(cs@.take(i as int));
                    assert forall|j: int| 0 <= j < out@.len() implies (#[trigger] out@[j])@ == words(t)[j] by {
                        if j < last {
                        } else {
                            assert(words(t)[j] == old_w.last().push(c));
                        }
                    }
                }
            } else {
                let mut w = String::new();
                push_char(&mut w, c);
                out.push(w);
                proof {
                    assert(w@ == seq![c]);
                }
            }
        }
        i = i + 1;
    }
    assert(cs@.take(cs@.len() as int) == cs@);
    out
}

impl<'a> FStr<'a> {
    /// The characters of the string.
    pub open spec fn view(&self) -> Seq<char> {
        match self {
            FStr::Str(s) => s@,
            FStr::String(s) => s@,
        }
    }

    /// The string as a slice.
    pub fn as_str(&self) -> (r: &str)
        ensures
            r@ == self@,
    {
        match self {
            FStr::Str(s) => s,
            FStr::String(s) => s.as_str(),
        }
    }

    /// The words of the string (see `words`).
    pub fn split(&self) -> (r: Vec<String>)
        ensures
            r@.len() == words(self@).len(),
            forall|i: int| 0 <= i < r@.len() ==> (#[trigger] r@[i])@ == words(self@)[i],
    {
        split_words(self.as_str())
    }

    /// A string with the same characters, borrowed where this one is.
    pub fn copy(&self) -> (r: FStr<'a>)
        ensures
            r@ == self@,
    {
        match self {
            FStr::Str(s) => FStr::Str(s),
            FStr::String(s) => FStr::String(to_owned_string(s.as_str())),
        }
    }

    /// The characters of the string (its display text).
    pub fn to_string(&self) -> (r: String)
        ensures
            r@ == self@,
    {
        to_owned_string(self.as_str())
    }
}

/// The Haystack operations.
pub enum Haystack {
    About,
    Close,
    Defs,
    Filetypes,
    HisRead,
    HisWrite,
    InvokeAction,
    Libs,
    Nav,
    Ops,
    PointWrite,
    Read,
    WatchPoll,
    WatchSub,
    WatchUnsub,
}

/// An operation to request: its name, its HTTP method and its body, if any.
pub struct RestOp {
    pub op: FStr<'static>,
    pub method: FStr<'static>,
    pub body: Option<FStr<'static>>,
}

/// The text of an optional body.
pub open spec fn body_text(b: Option<FStr<'static>>) -> Option<Seq<char>> {
    match b {
        Some(f) => Some(f@),
        None => None,
    }
}

/// The body of a `read` request: a grid with columns `filter` and `limit`
/// and one row.
pub open spec fn read_body(filter: Seq<char>, limit: Option<usize>) -> Seq<char> {
    "ver:\"3.0\"\nfilter,limit\n"@ + seq!['"'] + filter + seq!['"', ','] + match limit {
        Some(l) => decimal(l as nat),
        None => seq![],
    } + seq!['\n']
}

impl Haystack {
    /// `about`: a `GET` without body.
    pub fn about() -> (r: RestOp)
        ensures
            r.op@ == "about"@,
            r.method@ == "GET"@,
            r.body is None,
    {
        RestOp { op: FStr::Str("about"), method: FStr::Str("GET"), body: None }
    }

    /// `ops`: a `GET` without body.
    pub fn ops() -> (r: RestOp)
        ensures
            r.op@ == "ops"@,
            r.method@ == "GET"@,
            r.body is None,
    {
        RestOp { op: FStr::Str("ops"), method: FStr::Str("GET"), body: None }
    }

    /// `close`: a `POST` of an empty grid.
    pub fn close() -> (r: RestOp)
        ensures
            r.op@ == "close"@,
            r.method@ == "POST"@,
            body_text(r.body) == Some("ver:\"3.0\"\nempty"@),
    {
        RestOp { op: FStr::Str("close"), method: FStr::Str("POST"), body: Some(FStr::Str("ver:\"3.0\"\nempty")) }
    }

    /// `formats`: a `GET` without body.
    pub fn formats() -> (r: RestOp)
        ensures
            r.op@ == "formats"@,
            r.method@ == "GET"@,
            r.body is None,
    {
        RestOp { op: FStr::Str("formats"), method: FStr::Str("GET"), body: None }
    }

    /// `read`: a `POST` of a grid holding the filter and the limit (see `read_body`).
    pub fn read(filter: FStr, limit: Option<usize>) -> (r: Result<RestOp, anyhow::Error>)
        ensures
            r matches Ok(op) && op.op@ == "read"@ && op.method@ == "POST"@ && body_text(op.body) == Some(
                read_body(filter@, limit),
            ),
    {
        let mut grid = String::new();
        push_str(&mut grid, "ver:\"3.0\"\nfilter,limit\n");
        push_char(&mut grid, '"');
        push_str(&mut grid, filter.as_str());
        push_char(&mut grid, '"');
        push_char(&mut grid, ',');
        match limit {
            Some(l) => push_decimal(&mut grid, l as u64),
            None => {},
        }
        push_char(&mut grid, '\n');
        proof {
            let lim = match limit {
                Some(l) => decimal(l as nat),
                None => Seq::<char>::empty(),
            };
            assert(grid@ == "ver:\"3.0\"\nfilter,limit\n"@ + seq!['"'] + filter@ + seq!['"', ','] + lim + seq!['\n']);
        }
        Ok(RestOp { op: FStr::Str("read"), method: FStr::Str("POST"), body: Some(FStr::String(grid)) })
    }
}


/// The sending half of a channel for one value (`tokio::sync::oneshot::Sender`).
#[verifier::external_type_specification]
#[verifier::external_body]
#[verifier::reject_recursive_types(T)]
pub struct ExOneshotSender<T>(tokio::sync::oneshot::Sender<T>);

/// The receiving half of a channel for one value (`tokio::sync::oneshot::Receiver`).
#[verifier::external_type_specification]
#[verifier::external_body]
#[verifier::reject_recursive_types(T)]
pub struct ExOneshotReceiver<T>(tokio::sync::oneshot::Receiver<T>);

/// The error of receiving on a channel whose sender is gone
/// (`tokio::sync::oneshot::error::RecvError`).
#[verifier::external_type_specification]
#[verifier::external_body]
pub struct ExOneshotRecvError(tokio::sync::oneshot::error::RecvError);

/// `tokio::sync::oneshot::channel`: a new channel for one answer. Nothing is
/// stated of the halves, which Verus sees as opaque.
#[verifier::external_body]
fn response_channel() -> (r: (tokio::sync::oneshot::Sender<HaystackResponse>, tokio::sync::oneshot::Receiver<HaystackResponse>)) {
    tokio::sync::oneshot::channel()
}

/// An operation to send to a session, with the channel its answer comes back on.
#[derive(Debug)]
pub struct HaystackOpTxRx {
    pub op: FStr<'static>,
    pub method: FStr<'static>,
    pub body: Option<FStr<'static>>,
    pub resp_tx: tokio::sync::oneshot::Sender<HaystackResponse>,
}

/// The body of a request for definitions, libraries, operations or file
/// types: a grid with a `filter` column and a `limit` column as given, or a
/// `limit` column, or none.
pub open spec fn filter_limit_body(filter: Option<Seq<char>>, limit: Option<usize>) -> Seq<char> {
    "ver:\"3.0\"\n"@ + match filter {
        Some(f) => "filter"@ + (if limit is Some { ",limit"@ } else { seq![] }) + seq!['\n', '"'] + f + seq!['"']
            + match limit {
            Some(l) => seq![','] + decimal(l as nat),
            None => seq![],
        },
        None => (if limit is Some { "limit"@ } else { "empty"@ }) + match limit {
            Some(l) => seq!['\n'] + decimal(l as nat),
            None => seq![],
        },
    } + seq!['\n']
}

/// Whenever a limit is given, the request body is a grid whose column line
/// (the line after the version line) ends with a `limit` column and whose row
/// line ends with the limit in decimal; a filter, where given, comes first on
/// both lines.
pub proof fn law_limit_is_sent(filter: Option<Seq<char>>, l: usize)
    ensures
        exists|cols: Seq<char>, row: Seq<char>| !cols.contains('\n') && (#[trigger] filter_limit_body(filter, Some(l)))
            == "ver:\"3.0\"\n"@ + cols + "limit\n"@ + row + decimal(l as nat) + seq!['\n'],
{
    let b = filter_limit_body(filter, Some(l));
    match filter {
        Some(f) => {
            let cols = "filter,"@;
            let row = seq!['"'] + f + seq!['"', ','];
            assert(!cols.contains('\n')) by {
                reveal_strlit("filter,");
                assert(cols.len() == 7);
                assert forall|i: int| 0 <= i < cols.len() implies cols[i] != '\n' by {}
            }
            reveal_strlit("filter");
            reveal_strlit("filter,");
            reveal_strlit(",limit");
            reveal_strlit("limit\n");
            assert(b =~= "ver:\"3.0\"\n"@ + cols + "limit\n"@ + row + decimal(l as nat) + seq!['\n']);
        },
        None => {
            let cols = Seq::<char>::empty();
            let row = Seq::<char>::empty();
            reveal_strlit("limit");
            reveal_strlit("limit\n");
            assert(b =~= "ver:\"3.0\"\n"@ + cols + "limit\n"@ + row + decimal(l as nat) + seq!['\n']);
        },
    }
}

/// The ids, each followed by a line feed.
pub open spec fn id_lines(ids: Seq<Seq<char>>) -> Seq<char>
    decreases ids.len(),
{
    if ids.len() == 0 {
        seq![]
    } else {
        id_lines(ids.drop_last()) + ids.last() + seq!['\n']
    }
}

/// The characters of string slices.
pub open spec fn texts(ids: Seq<&str>) -> Seq<Seq<char>> {
    ids.map_values(|s: &str| s@)
}

/// Writes each id followed by a line feed.
fn push_id_lines(buf: &mut String, ids: &Vec<&str>)
    ensures
        final(buf)@ == old(buf)@ + id_lines(texts(ids@)),
{
    let ghost start = buf@;
    let mut i: usize = 0;
    while i < ids.len()
        invariant
            i <= ids@.len(),
            buf@ == start + id_lines(texts(ids@.take(i as int))),
        decreases ids@.len() - i,
    {
        push_str(buf, ids[i]);
        push_char(buf, '\n');
        proof {
            let t = texts(ids@.take(i + 1));
            assert(t.drop_last() == texts(ids@.take(i as int)));
            assert(t.last() == ids@[i as int]@);
        }
        i = i + 1;
    }
    assert(ids@.take(ids@.len() as int) == ids@);
}

/// Writes the body of a request with an optional filter and limit (see `filter_limit_body`).
fn filter_limit_payload(filter: Option<FStr>, limit: Option<usize>) -> (r: String)
    ensures
        r@ == filter_limit_body(match filter {
            Some(f) => Some(f@),
            None => None,
        }, limit),
{
    let mut payload = String::new();
    push_str(&mut payload, "ver:\"3.0\"\n");
    let ghost head = payload@;
    match filter {
        Some(f) => {
            push_str(&mut payload, "filter");
            if limit.is_some() {
                push_str(&mut payload, ",limit");
            }
            push_char(&mut payload, '\n');
            push_char(&mut payload, '"');
            push_str(&mut payload, f.as_str());
            push_char(&mut payload, '"');
            match limit {
                Some(l) => {
                    push_char(&mut payload, ',');
                    push_decimal(&mut payload, l as u64);
                },
                None => {},
            }
        },
        None => {
            if limit.is_some() {
                push_str(&mut payload, "limit");
            } else {
                push_str(&mut payload, "empty");
            }
            match limit {
                Some(l) => {
                    push_char(&mut payload, '\n');
                    push_decimal(&mut payload, l as u64);
                },
                None => {},
            }
        },
    }
    push_char(&mut payload, '\n');
    payload
}

impl HaystackOpTxRx {
    /// An operation `op` with `method` and `body`, and the receiver of its answer.
    pub fn new(op: FStr<'static>, method: FStr<'static>, body: Option<FStr<'static>>) -> (r: (Self, tokio::sync::oneshot::Receiver<HaystackResponse>))
        ensures
            r.0.op@ == op@,
            r.0.method@ == method@,
            body_text(r.0.body) == body_text(body),
    {
        let (resp_tx, resp_rx) = response_channel();
        (HaystackOpTxRx { op, method, body, resp_tx }, resp_rx)
    }

    /// The name of the operation.
    pub fn priv_op(&self) -> (r: FStr<'static>)
        ensures
            r@ == self.op@,
    {
        self.op.copy()
    }

    /// The HTTP method of the operation.
    pub fn priv_method(&self) -> (r: FStr<'static>)
        ensures
            r@ == self.method@,
    {
        self.method.copy()
    }

    /// The body of the operation, if any.
    pub fn priv_body(&self) -> (r: Option<FStr<'static>>)
        ensures
            body_text(r) == body_text(self.body),
    {
        match &self.body {
            Some(x) => Some(x.copy()),
            None => None,
        }
    }

    /// `about`: a `GET` without body.
    pub fn about() -> (r: (Self, tokio::sync::oneshot::Receiver<HaystackResponse>))
        ensures
            r.0.op@ == "about"@,
            r.0.method@ == "GET"@,
            r.0.body is None,
    {
        HaystackOpTxRx::new(FStr::Str("about"), FStr::Str("GET"), None)
    }

    /// `ops`: a `POST` of a grid with the filter and the limit (see `filter_limit_body`).
    pub fn ops(filter: Option<FStr>, limit: Option<usize>) -> (r: Result<(Self, tokio::sync::oneshot::Receiver<HaystackResponse>), anyhow::Error>)
        ensures
            r matches Ok((op, _)) && op.op@ == "ops"@ && op.method@ == "POST"@ && body_text(op.body) == Some(
                filter_limit_body(match filter {
                    Some(f) => Some(f@),
                    None => None,
                }, limit),
            ),
    {
        let payload = filter_limit_payload(filter, limit);
        Ok(HaystackOpTxRx::new(FStr::Str("ops"), FStr::Str("POST"), Some(FStr::String(payload))))
    }

    /// `close`: a `POST` of an empty grid.
    pub fn close() -> (r: (Self, tokio::sync::oneshot::Receiver<HaystackResponse>))
        ensures
            r.0.op@ == "close"@,
            r.0.method@ == "POST"@,
            body_text(r.0.body) == Some("ver:\"3.0\"\nempty\n"@),
    {
        HaystackOpTxRx::new(FStr::Str("close"), FStr::Str("POST"), Some(FStr::Str("ver:\"3.0\"\nempty\n")))
    }

    /// `defs`: a `POST` of a grid with the filter and the limit (see `filter_limit_body`).
    pub fn defs(filter: Option<FStr>, limit: Option<usize>) -> (r: Result<(Self, tokio::sync::oneshot::Receiver<HaystackResponse>), anyhow::Error>)
        ensures
            r matches Ok((op, _)) && op.op@ == "defs"@ && op.method@ == "POST"@ && body_text(op.body) == Some(
                filter_limit_body(match filter {
                    Some(f) => Some(f@),
                    None => None,
                }, limit),
            ),
    {
        let payload = filter_limit_payload(filter, limit);
        Ok(HaystackOpTxRx::new(FStr::Str("defs"), FStr::Str("POST"), Some(FStr::String(payload))))
    }

    /// `libs`: a `POST` of a grid with the filter and the limit (see `filter_limit_body`).
    pub fn libs(filter: Option<FStr>, limit: Option<usize>) -> (r: Result<(Self, tokio::sync::oneshot::Receiver<HaystackResponse>), anyhow::Error>)
        ensures
            r matches Ok((op, _)) && op.op@ == "libs"@ && op.method@ == "POST"@ && body_text(op.body) == Some(
                filter_limit_body(match filter {
                    Some(f) => Some(f@),
                    None => None,
                }, limit),
            ),
    {
        let payload = filter_limit_payload(filter, limit);
        Ok(HaystackOpTxRx::new(FStr::Str("libs"), FStr::Str("POST"), Some(FStr::String(payload))))
    }

    /// `filetypes`: a `POST` of a grid with the filter and the limit (see `filter_limit_body`).
    pub fn filetypes(filter: Option<FStr>, limit: Option<usize>) -> (r: Result<(Self, tokio::sync::oneshot::Receiver<HaystackResponse>), anyhow::Error>)
        ensures
            r matches Ok((op, _)) && op.op@ == "filetypes"@ && op.method@ == "POST"@ && body_text(op.body) == Some(
                filter_limit_body(match filter {
                    Some(f) => Some(f@),
                    None => None,
                }, limit),
            ),
    {
        let payload = filter_limit_payload(filter, limit);
        Ok(HaystackOpTxRx::new(FStr::Str("filetypes"), FStr::Str("POST"), Some(FStr::String(payload))))
    }

    /// `read` by filter: a `POST` of a grid with the filter and the limit (see `read_body`).
    pub fn read(filter: FStr, limit: Option<usize>) -> (r: Result<(Self, tokio::sync::oneshot::Receiver<HaystackResponse>), anyhow::Error>)
        ensures
            r matches Ok((op, _)) && op.op@ == "read"@ && op.method@ == "POST"@ && body_text(op.body) == Some(
                read_body(filter@, limit),
            ),
    {
        match Haystack::read(filter, limit) {
            Ok(rest) => {
                let RestOp { op, method, body } = rest;
                Ok(HaystackOpTxRx::new(op, method, body))
            },
            Err(e) => Err(e),
        }
    }

    /// `read` by ids: a `POST` of a grid with an `id` column and a row per id.
    pub fn read_by_ids(ids: Vec<&str>) -> (r: Result<(Self, tokio::sync::oneshot::Receiver<HaystackResponse>), anyhow::Error>)
        ensures
            r matches Ok((op, _)) && op.op@ == "read"@ && op.method@ == "POST"@ && body_text(op.body) == Some(
                "ver:\"3.0\"\nid\n"@ + id_lines(texts(ids@)),
            ),
    {
        let mut grid = String::new();
        push_str(&mut grid, "ver:\"3.0\"\nid\n");
        push_id_lines(&mut grid, &ids);
        Ok(HaystackOpTxRx::new(FStr::Str("read"), FStr::Str("POST"), Some(FStr::String(grid))))
    }

    /// `nav`: a `POST` of a grid with a `navId` column and a row of the
    /// node, if one is given.
    pub fn nav(nav: Option<&str>) -> (r: Result<(Self, tokio::sync::oneshot::Receiver<HaystackResponse>), &'static str>)
        ensures
            r matches Ok((op, _)) && op.op@ == "nav"@ && op.method@ == "POST"@ && body_text(op.body) == Some(
                "ver:\"3.0\"\nnavId\n"@ + match nav {
                    Some(n) => n@ + seq!['\n'],
                    None => seq![],
                },
            ),
    {
        let mut grid = String::new();
        push_str(&mut grid, "ver:\"3.0\"\nnavId\n");
        match nav {
            Some(n) => {
                push_str(&mut grid, n);
                push_char(&mut grid, '\n');
            },
            None => {},
        }
        Ok(HaystackOpTxRx::new(FStr::Str("nav"), FStr::Str("POST"), Some(FStr::String(grid))))
    }
}


impl HaystackOpTxRx {
    /// `watchSub`: a `POST` of a grid whose metadata holds the watch id, the
    /// display text and the lease as given, with an `id` column and a row per
    /// id; refused where neither an id nor a display text is given.
    pub fn watch_sub(dis: Option<&str>, id: Option<&str>, lease: Option<&str>, ids: Option<Vec<&str>>) -> (r: Result<(Self, tokio::sync::oneshot::Receiver<HaystackResponse>), &'static str>)
        ensures
            (dis is None && id is None) ==> (r matches Err(e) && e@ == "If ID is omitted, a display name must be provided"@),
            !(dis is None && id is None) ==> (r matches Ok((op, _)) && op.op@ == "watchSub"@ && op.method@ == "POST"@
                && body_text(op.body) == Some(
                "ver:\"3.0\""@ + match id {
                    Some(s) => " watchId:\""@ + s@ + seq!['"'],
                    None => seq![],
                } + match dis {
                    Some(s) => " watchDis:\""@ + s@ + seq!['"'],
                    None => seq![],
                } + match lease {
                    Some(s) => " lease:"@ + s@,
                    None => seq![],
                } + "\nid\n"@ + match ids {
                    Some(v) => id_lines(texts(v@)),
                    None => seq![],
                },
            )),
    {
        if dis.is_none() && id.is_none() {
            return Err("If ID is omitted, a display name must be provided");
        }
        let mut grid = String::new();
        push_str(&mut grid, "ver:\"3.0\"");
        let ghost g0 = grid@;
        match id {
            Some(s) => {
                push_str(&mut grid, " watchId:\"");
                push_str(&mut grid, s);
                push_char(&mut grid, '"');
            },
            None => {},
        }
        let ghost g1 = grid@;
        match dis {
            Some(s) => {
                push_str(&mut grid, " watchDis:\"");
                push_str(&mut grid, s);
                push_char(&mut grid, '"');
            },
            None => {},
        }
        let ghost g2 = grid@;
        match lease {
            Some(s) => {
                push_str(&mut grid, " lease:");
                push_str(&mut grid, s);
            },
            None => {},
        }
        let ghost g3 = grid@;
        push_str(&mut grid, "\nid\n");
        match &ids {
            Some(v) => push_id_lines(&mut grid, v),
            None => {},
        }
        Ok(HaystackOpTxRx::new(FStr::Str("watchSub"), FStr::Str("POST"), Some(FStr::String(grid))))
    }

    /// `watchUnsub`: a `POST` of a grid whose metadata holds the watch id and
    /// `close` if asked, with an `id` column and a row per id.
    pub fn watch_unsub(watch_id: &str, ids: Option<Vec<&str>>, close: bool) -> (r: Result<(Self, tokio::sync::oneshot::Receiver<HaystackResponse>), &'static str>)
        ensures
            r matches Ok((op, _)) && op.op@ == "watchUnsub"@ && op.method@ == "POST"@ && body_text(op.body) == Some(
                "ver:\"3.0\" watchId:\""@ + watch_id@ + seq!['"'] + (if close { " close"@ } else { seq![] })
                    + "\nid\n"@ + match ids {
                    Some(v) => id_lines(texts(v@)),
                    None => seq![],
                },
            ),
    {
        let mut grid = String::new();
        push_str(&mut grid, "ver:\"3.0\" watchId:\"");
        push_str(&mut grid, watch_id);
        push_char(&mut grid, '"');
        if close {
            push_str(&mut grid, " close");
        }
        push_str(&mut grid, "\nid\n");
        match &ids {
            Some(v) => push_id_lines(&mut grid, v),
            None => {},
        }
        Ok(HaystackOpTxRx::new(FStr::Str("watchUnsub"), FStr::Str("POST"), Some(FStr::String(grid))))
    }

    /// `watchPoll`: a `POST` of an empty grid whose metadata holds the watch
    /// id and `refresh` if asked.
    pub fn watch_poll(watch_id: &str, refresh: bool) -> (r: Result<(Self, tokio::sync::oneshot::Receiver<HaystackResponse>), &'static str>)
        ensures
            r matches Ok((op, _)) && op.op@ == "watchPoll"@ && op.method@ == "POST"@ && body_text(op.body) == Some(
                "ver:\"3.0\" watchId:\""@ + watch_id@ + seq!['"'] + (if refresh { " refresh"@ } else { seq![] })
                    + "\nempty\n"@,
            ),
    {
        let mut grid = String::new();
        push_str(&mut grid, "ver:\"3.0\" watchId:\"");
        push_str(&mut grid, watch_id);
        push_char(&mut grid, '"');
        if refresh {
            push_str(&mut grid, " refresh");
        }
        push_str(&mut grid, "\nempty\n");
        Ok(HaystackOpTxRx::new(FStr::Str("watchPoll"), FStr::Str("POST"), Some(FStr::String(grid))))
    }

    /// `hisRead` of one point: a `POST` of a grid with columns `id` and
    /// `range` and one row.
    pub fn his_read(id: &str, date_range: &str) -> (r: Result<(Self, tokio::sync::oneshot::Receiver<HaystackResponse>), &'static str>)
        ensures
            r matches Ok((op, _)) && op.op@ == "hisRead"@ && op.method@ == "POST"@ && body_text(op.body) == Some(
                "ver:\"3.0\"\nid,range\n"@ + id@ + seq![',', '"'] + date_range@ + seq!['"'],
            ),
    {
        let mut grid = String::new();
        push_str(&mut grid, "ver:\"3.0\"\nid,range\n");
        push_str(&mut grid, id);
        push_char(&mut grid, ',');
        push_char(&mut grid, '"');
        push_str(&mut grid, date_range);
        push_char(&mut grid, '"');
        Ok(HaystackOpTxRx::new(FStr::Str("hisRead"), FStr::Str("POST"), Some(FStr::String(grid))))
    }

    /// `hisRead` of several points: a `POST` of a grid whose metadata holds
    /// the range and the time zone if given, with an `id` column and a row per id.
    pub fn his_read_multi(ids: Vec<&str>, date_range: &str, timezone: Option<&str>) -> (r: Result<(Self, tokio::sync::oneshot::Receiver<HaystackResponse>), &'static str>)
        ensures
            r matches Ok((op, _)) && op.op@ == "hisRead"@ && op.method@ == "POST"@ && body_text(op.body) == Some(
                "ver:\"3.0\" range:\""@ + date_range@ + seq!['"'] + match timezone {
                    Some(tz) => " tz:\""@ + tz@ + seq!['"'],
                    None => seq![],
                } + "\nid\n"@ + id_lines(texts(ids@)),
            ),
    {
        let mut grid = String::new();
        push_str(&mut grid, "ver:\"3.0\" range:\"");
        push_str(&mut grid, date_range);
        push_char(&mut grid, '"');
        match timezone {
            Some(tz) => {
                push_str(&mut grid, " tz:\"");
                push_str(&mut grid, tz);
                push_char(&mut grid, '"');
            },
            None => {},
        }
        push_str(&mut grid, "\nid\n");
        push_id_lines(&mut grid, &ids);
        Ok(HaystackOpTxRx::new(FStr::Str("hisRead"), FStr::Str("POST"), Some(FStr::String(grid))))
    }

    /// `hisWrite`: a `POST` of the given history grid.
    pub fn his_write(his: &str) -> (r: Result<(Self, tokio::sync::oneshot::Receiver<HaystackResponse>), &'static str>)
        ensures
            r matches Ok((op, _)) && op.op@ == "hisWrite"@ && op.method@ == "POST"@ && body_text(op.body) == Some(his@),
    {
        let grid = to_owned_string(his);
        Ok(HaystackOpTxRx::new(FStr::Str("hisWrite"), FStr::Str("POST"), Some(FStr::String(grid))))
    }
}

/// The answer of a server to an operation: the text of its body.
#[derive(Debug)]
pub enum HaystackResponse {
    Raw(String),
}

/// The message that an error displays.
pub uninterp spec fn error_message(e: anyhow::Error) -> Seq<char>;

/// `anyhow::Error::msg`: an error that displays `text` as its message.
/// Nothing more of the error is stated.
#[verifier::external_body]
fn error_with_message(text: String) -> (r: anyhow::Error)
    ensures
        error_message(r) == text@,
{
    anyhow::Error::msg(text)
}

impl HaystackResponse {
    /// The text of the body.
    pub open spec fn view(&self) -> Seq<char> {
        match self {
            HaystackResponse::Raw(b) => b@,
        }
    }

    /// The text of the body.
    pub fn get_raw(self) -> (r: String)
        ensures
            r@ == self@,
    {
        let HaystackResponse::Raw(body) = self;
        body
    }

    /// The answer as a result: an error, whose message is the body, where the
    /// body reads as an error grid (see `grid_err`), else the answer itself
    /// (also where the numeric type refuses a number of the grid's metadata;
    /// where the metadata holds no number, an error grid is always an error).
    pub fn as_result<T: NumTrait + core::str::FromStr>(self) -> (r: Result<HaystackResponse, anyhow::Error>)
        ensures
            r is Err ==> grid_err_rule(self@, 0) is Some,
            r matches Err(e) ==> error_message(e) == self@,
            r matches Ok(x) ==> x@ == self@,
            grid_err_rule(self@, 0) is None ==> r is Ok,
            grid_err_rule(self@, 0) is Some && entries_free(err_meta(self@, 0)) ==> r is Err,
    {
        let HaystackResponse::Raw(body) = self;
        match grid_err::<T>(body.as_str()) {
            Ok(_) => Err(error_with_message(body)),
            Err(e) => {
                match e {
                    crate::io::parse::values::ParseErr::BadNumber => Ok(HaystackResponse::Raw(body)),
                    crate::io::parse::values::ParseErr::NoMatch => Ok(HaystackResponse::Raw(body)),
                }
            },
        }
    }

    /// The answer as text: `<HaystackResponse`, the body, `>` on lines of their own.
    pub fn to_string(&self) -> (r: String)
        ensures
            r@ == "<HaystackResponse\n"@ + self@ + "\n>"@,
    {
        let HaystackResponse::Raw(body) = self;
        let mut out = String::new();
        push_str(&mut out, "<HaystackResponse\n");
        push_str(&mut out, body.as_str());
        push_str(&mut out, "\n>");
        out
    }
}

} // verus!
