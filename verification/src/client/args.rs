//! The command line: which operation a subcommand asks for, built from the
//! values given for its arguments.
use vstd::prelude::*;
use crate::text::str_eq;
use crate::client::ops::{FStr, HaystackOpTxRx, HaystackResponse, words, split_words, body_text, filter_limit_body,
    read_body, id_lines, texts};

verus! {

/// `std::io::stdin().is_terminal()` (the `IsTerminal` trait). Nothing is
/// stated: it depends on how the program was started.
#[verifier::external_body]
fn stdin_is_terminal() -> (r: bool) {
    is_terminal::IsTerminal::is_terminal(&std::io::stdin())
}

/// `std::io::stdout().is_terminal()`. Nothing is stated.
#[verifier::external_body]
fn stdout_is_terminal() -> (r: bool) {
    is_terminal::IsTerminal::is_terminal(&std::io::stdout())
}

/// `std::io::stderr().is_terminal()`. Nothing is stated.
#[verifier::external_body]
fn stderr_is_terminal() -> (r: bool) {
    is_terminal::IsTerminal::is_terminal(&std::io::stderr())
}

/// Which of the standard streams are terminals.
pub struct IsTTY {
    pub stdin: bool,
    pub stdout: bool,
    pub stderr: bool,
}

impl IsTTY {
    /// Whether each standard stream of this process is a terminal.
    pub fn new() -> (r: Self) {
        IsTTY { stdin: stdin_is_terminal(), stdout: stdout_is_terminal(), stderr: stderr_is_terminal() }
    }

    /// Whether all three streams are terminals.
    pub fn all(&self) -> (r: bool)
        ensures
            r == (self.stdin && self.stdout && self.stderr),
    {
        self.stdin && self.stdout && self.stderr
    }

    /// Whether any of the three streams is a terminal.
    pub fn any(&self) -> (r: bool)
        ensures
            r == (self.stdin || self.stdout || self.stderr),
    {
        self.stdin || self.stdout || self.stderr
    }
}

/// The values given for the arguments of a subcommand, and what standard
/// input holds where it was read for ids.
pub struct OpArgs {
    pub filter: Option<String>,
    pub limit: Option<usize>,
    pub range: Option<String>,
    pub ids: Option<Vec<String>>,
    pub timezone: Option<String>,
    pub data: Option<String>,
    pub nav: Option<String>,
    pub create: Option<String>,
    pub watch_id: Option<String>,
    pub lease: Option<String>,
    pub close: Option<bool>,
    pub refresh: Option<bool>,
    pub stdin_is_tty: bool,
    pub stdin: Option<String>,
}

/// Why no operation could be built.
#[derive(Debug, PartialEq, Eq, Structural, Clone, Copy)]
pub enum ArgsErr {
    /// `hisRead` without a range.
    MissingRange,
    /// `hisRead` without ids, neither given nor on standard input.
    MissingIds,
    /// `hisWrite` without data.
    MissingHisData,
    /// `read` without a filter or ids.
    MissingFilterOrIds,
    /// `watchPoll` or `watchUnsub` without a watch id.
    MissingWatchId,
    /// `watchSub` without a watch id or a display text.
    MissingWatchDis,
    /// Standard input could not be read for ids.
    StdinUnreadable,
    /// No such subcommand.
    Unsupported,
}

impl ArgsErr {
    /// The message of the error.
    pub open spec fn message(&self) -> Seq<char> {
        match self {
            ArgsErr::MissingRange => "hisRead op must have range"@,
            ArgsErr::MissingIds => "hisRead op must have ids"@,
            ArgsErr::MissingHisData => "His data not provided"@,
            ArgsErr::MissingFilterOrIds => "Read op must have filter or ids"@,
            ArgsErr::MissingWatchId => "watchId not provided"@,
            ArgsErr::MissingWatchDis => "If ID is omitted, a display name must be provided"@,
            ArgsErr::StdinUnreadable => "Failed to read from stdin"@,
            ArgsErr::Unsupported => "Subcommand either not supported or doesn't exist"@,
        }
    }

    /// The message of the error (its display text).
    pub fn to_string(&self) -> (r: String)
        ensures
            r@ == self.message(),
    {
        let s = match self {
            ArgsErr::MissingRange => "hisRead op must have range",
            ArgsErr::MissingIds => "hisRead op must have ids",
            ArgsErr::MissingHisData => "His data not provided",
            ArgsErr::MissingFilterOrIds => "Read op must have filter or ids",
            ArgsErr::MissingWatchId => "watchId not provided",
            ArgsErr::MissingWatchDis => "If ID is omitted, a display name must be provided",
            ArgsErr::StdinUnreadable => "Failed to read from stdin",
            ArgsErr::Unsupported => "Subcommand either not supported or doesn't exist",
        };
        crate::text::to_owned_string(s)
    }

    /// The message of the error raised for the subcommand `cmd`: for an
    /// unknown subcommand it names it, `Subcommand "cmd" either not supported
    /// or doesn't exist`; else the message of the error.
    pub open spec fn message_for(&self, cmd: Seq<char>) -> Seq<char> {
        match self {
            ArgsErr::Unsupported => "Subcommand \""@ + cmd + "\" either not supported or doesn't exist"@,
            _ => self.message(),
        }
    }

    /// The message of the error raised for the subcommand `cmd` (see
    /// `message_for`).
    pub fn to_string_for(&self, cmd: &str) -> (r: String)
        ensures
            r@ == self.message_for(cmd@),
    {
        match self {
            ArgsErr::Unsupported => {
                let mut out = crate::text::to_owned_string("Subcommand \"");
                crate::text::push_str(&mut out, cmd);
                crate::text::push_str(&mut out, "\" either not supported or doesn't exist");
                out
            },
            _ => self.to_string(),
        }
    }
}

/// The characters of an optional string.
pub open spec fn opt_view(s: Option<String>) -> Option<Seq<char>> {
    match s {
        Some(x) => Some(x@),
        None => None,
    }
}

/// The characters of strings.
pub open spec fn views(v: Seq<String>) -> Seq<Seq<char>> {
    v.map_values(|s: String| s@)
}

/// The ids for `hisRead`: those given, else the words of standard input
/// where it is not a terminal.
pub open spec fn his_read_ids(a: OpArgs) -> Result<Seq<Seq<char>>, ArgsErr> {
    match a.ids {
        Some(v) => Ok(views(v@)),
        None => if a.stdin_is_tty {
            Err(ArgsErr::MissingIds)
        } else {
            match a.stdin {
                Some(t) => Ok(words(t@)),
                None => Err(ArgsErr::StdinUnreadable),
            }
        },
    }
}

/// The request that the subcommand `cmd` with arguments `a` makes: the
/// operation's name, method and body, or why there is none.
pub open spec fn request(cmd: Seq<char>, a: OpArgs) -> Result<(Seq<char>, Seq<char>, Option<Seq<char>>), ArgsErr> {
    if cmd == "authInfo"@ || cmd == "about"@ {
        Ok(("about"@, "GET"@, None))
    } else if cmd == "defs"@ || cmd == "libs"@ || cmd == "ops"@ || cmd == "filetypes"@ {
        Ok((cmd, "POST"@, Some(filter_limit_body(opt_view(a.filter), a.limit))))
    } else if cmd == "nav"@ {
        Ok(("nav"@, "POST"@, Some("ver:\"3.0\"\nnavId\n"@ + match a.nav {
            Some(n) => n@ + seq!['\n'],
            None => seq![],
        })))
    } else if cmd == "read"@ {
        match (a.filter, a.ids) {
            (Some(f), _) => Ok(("read"@, "POST"@, Some(read_body(f@, a.limit)))),
            (None, Some(ids)) => Ok(("read"@, "POST"@, Some("ver:\"3.0\"\nid\n"@ + id_lines(views(ids@))))),
            (None, None) => Err(ArgsErr::MissingFilterOrIds),
        }
    } else if cmd == "hisRead"@ {
        match a.range {
            None => Err(ArgsErr::MissingRange),
            Some(range) => match his_read_ids(a) {
                Err(e) => Err(e),
                Ok(ids) => if ids.len() == 0 {
                    Err(ArgsErr::MissingIds)
                } else if ids.len() == 1 {
                    Ok(("hisRead"@, "POST"@, Some("ver:\"3.0\"\nid,range\n"@ + ids[0] + seq![',', '"'] + range@ + seq!['"'])))
                } else {
                    Ok(("hisRead"@, "POST"@, Some("ver:\"3.0\" range:\""@ + range@ + seq!['"'] + match a.timezone {
                        Some(tz) => " tz:\""@ + tz@ + seq!['"'],
                        None => seq![],
                    } + "\nid\n"@ + id_lines(ids))))
                },
            },
        }
    } else if cmd == "watchSub"@ {
        if a.create is None && a.watch_id is None {
            Err(ArgsErr::MissingWatchDis)
        } else {
            Ok(("watchSub"@, "POST"@, Some("ver:\"3.0\""@ + match a.watch_id {
                Some(s) => " watchId:\""@ + s@ + seq!['"'],
                None => seq![],
            } + match a.create {
                Some(s) => " watchDis:\""@ + s@ + seq!['"'],
                None => seq![],
            } + match a.lease {
                Some(s) => " lease:"@ + s@,
                None => seq![],
            } + "\nid\n"@ + match a.ids {
                Some(v) => id_lines(views(v@)),
                None => seq![],
            })))
        }
    } else if cmd == "watchUnsub"@ {
        match a.watch_id {
            None => Err(ArgsErr::MissingWatchId),
            Some(w) => Ok(("watchUnsub"@, "POST"@, Some("ver:\"3.0\" watchId:\""@ + w@ + seq!['"'] + (if a.close
                == Some(true) {
                " close"@
            } else {
                seq![]
            }) + "\nid\n"@ + match a.ids {
                Some(v) => id_lines(views(v@)),
                None => seq![],
            }))),
        }
    } else if cmd == "watchPoll"@ {
        match a.watch_id {
            None => Err(ArgsErr::MissingWatchId),
            Some(w) => Ok(("watchPoll"@, "POST"@, Some("ver:\"3.0\" watchId:\""@ + w@ + seq!['"'] + (if a.refresh
                == Some(true) {
                " refresh"@
            } else {
                seq![]
            }) + "\nempty\n"@))),
        }
    } else if cmd == "hisWrite"@ {
        match a.data {
            None => Err(ArgsErr::MissingHisData),
            Some(d) => Ok(("hisWrite"@, "POST"@, Some(d@))),
        }
    } else {
        Err(ArgsErr::Unsupported)
    }
}

/// Whether the operation `op` is the request `q`.
pub open spec fn is_request(op: HaystackOpTxRx, q: (Seq<char>, Seq<char>, Option<Seq<char>>)) -> bool {
    op.op@ == q.0 && op.method@ == q.1 && body_text(op.body) == q.2
}

/// Whether `r` answers the request `q`: the operation it asks for, or the
/// same error.
pub open spec fn answers_request(r: Result<(HaystackOpTxRx, tokio::sync::oneshot::Receiver<HaystackResponse>), ArgsErr>, q: Result<(Seq<char>, Seq<char>, Option<Seq<char>>), ArgsErr>) -> bool {
    match q {
        Ok(x) => r matches Ok((op, _)) && is_request(op, x),
        Err(e) => r matches Err(f) && f == e,
    }
}

/// The names of the subcommands differ from each other, by length or by
/// their first character.
proof fn lemma_command_names()
    ensures
        "authInfo"@.len() == 8 && "authInfo"@[0] == 'a',
        "about"@.len() == 5 && "about"@[0] == 'a',
        "defs"@.len() == 4 && "defs"@[0] == 'd',
        "libs"@.len() == 4 && "libs"@[0] == 'l',
        "ops"@.len() == 3 && "ops"@[0] == 'o',
        "filetypes"@.len() == 9 && "filetypes"@[0] == 'f',
        "nav"@.len() == 3 && "nav"@[0] == 'n',
        "read"@.len() == 4 && "read"@[0] == 'r',
        "hisRead"@.len() == 7 && "hisRead"@[0] == 'h',
        "watchSub"@.len() == 8 && "watchSub"@[0] == 'w',
        "watchUnsub"@.len() == 10 && "watchUnsub"@[0] == 'w',
        "watchPoll"@.len() == 9 && "watchPoll"@[0] == 'w',
        "hisWrite"@.len() == 8 && "hisWrite"@[0] == 'h',
{
    reveal_strlit("authInfo");
    reveal_strlit("about");
    reveal_strlit("defs");
    reveal_strlit("libs");
    reveal_strlit("ops");
    reveal_strlit("filetypes");
    reveal_strlit("nav");
    reveal_strlit("read");
    reveal_strlit("hisRead");
    reveal_strlit("watchSub");
    reveal_strlit("watchUnsub");
    reveal_strlit("watchPoll");
    reveal_strlit("hisWrite");
}

/// Borrowed slices of strings.
fn as_strs(v: &Vec<String>) -> (r: Vec<&str>)
    ensures
        texts(r@) == views(v@),
{
    let mut out: Vec<&str> = Vec::new();
    let mut i: usize = 0;
    while i < v.len()
        invariant
            i <= v@.len(),
            texts(out@) == views(v@.take(i as int)),
        decreases v@.len() - i,
    {
        out.push(v[i].as_str());
        proof {
            assert(texts(out@) == texts(out@.drop_last()).push(v@[i as int]@));
            assert(views(v@.take(i + 1)) == views(v@.take(i as int)).push(v@[i as int]@));
        }
        i = i + 1;
    }
    assert(v@.take(v@.len() as int) == v@);
    out
}

/// The optional string as a slice.
fn opt_str(s: &Option<String>) -> (r: Option<&str>)
    ensures
        match r {
            Some(x) => opt_view(*s) == Some(x@),
            None => s is None,
        },
{
    match s {
        Some(x) => Some(x.as_str()),
        None => None,
    }
}

/// The operation of `hisRead`: one point with `his_read`, several with
/// `his_read_multi` (see `request`).
pub fn match_his_read(a: &OpArgs) -> (r: Result<(HaystackOpTxRx, tokio::sync::oneshot::Receiver<HaystackResponse>), ArgsErr>)
    ensures
        answers_request(r, request("hisRead"@, *a)),
{
    proof {
        lemma_command_names();
    }
    let range = match &a.range {
        Some(r) => r.as_str(),
        None => {
            return Err(ArgsErr::MissingRange);
        },
    };
    let ids: Vec<String> = match &a.ids {
        Some(v) => {
            let mut out: Vec<String> = Vec::new();
            let mut i: usize = 0;
            while i < v.len()
                invariant
                    i <= v@.len(),
                    views(out@) == views(v@.take(i as int)),
                decreases v@.len() - i,
            {
                out.push(v[i].clone());
                proof {
                    assert(views(out@) == views(out@.drop_last()).push(v@[i as int]@));
                    assert(views(v@.take(i + 1)) == views(v@.take(i as int)).push(v@[i as int]@));
                }
                i = i + 1;
            }
            assert(v@.take(v@.len() as int) == v@);
            out
        },
        None => {
            if a.stdin_is_tty {
                return Err(ArgsErr::MissingIds);
            }
            match &a.stdin {
                Some(t) => {
                    let w = split_words(t.as_str());
                    assert(views(w@) == words(t@));
                    w
                },
                None => {
                    return Err(ArgsErr::StdinUnreadable);
                },
            }
        },
    };
    if ids.len() == 0 {
        return Err(ArgsErr::MissingIds);
    }
    if ids.len() == 1 {
        match HaystackOpTxRx::his_read(ids[0].as_str(), range) {
            Ok(x) => Ok(x),
            Err(_) => Err(ArgsErr::Unsupported),
        }
    } else {
        let tz = opt_str(&a.timezone);
        let strs = as_strs(&ids);
        match HaystackOpTxRx::his_read_multi(strs, range, tz) {
            Ok(x) => Ok(x),
            Err(_) => Err(ArgsErr::Unsupported),
        }
    }
}


/// The operation of `read`: by filter where one is given, else by ids (see `request`).
pub fn match_read(a: &OpArgs) -> (r: Result<(HaystackOpTxRx, tokio::sync::oneshot::Receiver<HaystackResponse>), ArgsErr>)
    ensures
        answers_request(r, request("read"@, *a)),
{
    proof {
        lemma_command_names();
    }
    match &a.filter {
        Some(f) => match HaystackOpTxRx::read(FStr::Str(f.as_str()), a.limit) {
            Ok(x) => Ok(x),
            Err(_) => Err(ArgsErr::Unsupported),
        },
        None => match &a.ids {
            Some(ids) => match HaystackOpTxRx::read_by_ids(as_strs(ids)) {
                Ok(x) => Ok(x),
                Err(_) => Err(ArgsErr::Unsupported),
            },
            None => Err(ArgsErr::MissingFilterOrIds),
        },
    }
}

/// The operation of `nav` (see `request`).
pub fn match_nav(a: &OpArgs) -> (r: Result<(HaystackOpTxRx, tokio::sync::oneshot::Receiver<HaystackResponse>), ArgsErr>)
    ensures
        answers_request(r, request("nav"@, *a)),
{
    proof {
        lemma_command_names();
    }
    match HaystackOpTxRx::nav(opt_str(&a.nav)) {
        Ok(x) => Ok(x),
        Err(_) => Err(ArgsErr::Unsupported),
    }
}

/// The operation of `watchSub` (see `request`).
pub fn match_watch_sub(a: &OpArgs) -> (r: Result<(HaystackOpTxRx, tokio::sync::oneshot::Receiver<HaystackResponse>), ArgsErr>)
    ensures
        answers_request(r, request("watchSub"@, *a)),
{
    proof {
        lemma_command_names();
    }
    let ids = match &a.ids {
        Some(v) => Some(as_strs(v)),
        None => None,
    };
    match HaystackOpTxRx::watch_sub(opt_str(&a.create), opt_str(&a.watch_id), opt_str(&a.lease), ids) {
        Ok(x) => Ok(x),
        Err(_) => Err(ArgsErr::MissingWatchDis),
    }
}

/// The operation of `watchUnsub` (see `request`).
pub fn match_watch_unsub(a: &OpArgs) -> (r: Result<(HaystackOpTxRx, tokio::sync::oneshot::Receiver<HaystackResponse>), ArgsErr>)
    ensures
        answers_request(r, request("watchUnsub"@, *a)),
{
    proof {
        lemma_command_names();
    }
    let w = match &a.watch_id {
        Some(w) => w.as_str(),
        None => {
            return Err(ArgsErr::MissingWatchId);
        },
    };
    let close = match a.close {
        Some(c) => c,
        None => false,
    };
    let ids = match &a.ids {
        Some(v) => Some(as_strs(v)),
        None => None,
    };
    match HaystackOpTxRx::watch_unsub(w, ids, close) {
        Ok(x) => Ok(x),
        Err(_) => Err(ArgsErr::Unsupported),
    }
}

/// The operation of `watchPoll` (see `request`).
pub fn match_watch_poll(a: &OpArgs) -> (r: Result<(HaystackOpTxRx, tokio::sync::oneshot::Receiver<HaystackResponse>), ArgsErr>)
    ensures
        answers_request(r, request("watchPoll"@, *a)),
{
    proof {
        lemma_command_names();
    }
    let w = match &a.watch_id {
        Some(w) => w.as_str(),
        None => {
            return Err(ArgsErr::MissingWatchId);
        },
    };
    let refresh = match a.refresh {
        Some(c) => c,
        None => false,
    };
    match HaystackOpTxRx::watch_poll(w, refresh) {
        Ok(x) => Ok(x),
        Err(_) => Err(ArgsErr::Unsupported),
    }
}

/// The operation of `hisWrite` (see `request`).
pub fn match_his_write(a: &OpArgs) -> (r: Result<(HaystackOpTxRx, tokio::sync::oneshot::Receiver<HaystackResponse>), ArgsErr>)
    ensures
        answers_request(r, request("hisWrite"@, *a)),
{
    proof {
        lemma_command_names();
    }
    match &a.data {
        Some(d) => match HaystackOpTxRx::his_write(d.as_str()) {
            Ok(x) => Ok(x),
            Err(_) => Err(ArgsErr::Unsupported),
        },
        None => Err(ArgsErr::MissingHisData),
    }
}

/// The operation of `filetypes` (see `request`).
pub fn match_filetypes(a: &OpArgs) -> (r: Result<(HaystackOpTxRx, tokio::sync::oneshot::Receiver<HaystackResponse>), ArgsErr>)
    ensures
        answers_request(r, request("filetypes"@, *a)),
{
    proof {
        lemma_command_names();
    }
    let filter = match &a.filter {
        Some(f) => Some(FStr::Str(f.as_str())),
        None => None,
    };
    match HaystackOpTxRx::filetypes(filter, a.limit) {
        Ok(x) => Ok(x),
        Err(_) => Err(ArgsErr::Unsupported),
    }
}

/// The operation of `about` (see `request`).
fn match_about(a: &OpArgs) -> (r: Result<(HaystackOpTxRx, tokio::sync::oneshot::Receiver<HaystackResponse>), ArgsErr>)
    ensures
        answers_request(r, request("about"@, *a)),
{
    proof {
        lemma_command_names();
    }
    Ok(HaystackOpTxRx::about())
}

/// The operation of `authInfo`, which asks for `about` (see `request`).
fn match_auth(a: &OpArgs) -> (r: Result<(HaystackOpTxRx, tokio::sync::oneshot::Receiver<HaystackResponse>), ArgsErr>)
    ensures
        answers_request(r, request("authInfo"@, *a)),
{
    proof {
        lemma_command_names();
    }
    Ok(HaystackOpTxRx::about())
}

/// The operation of `ops` (see `request`).
fn match_ops(a: &OpArgs) -> (r: Result<(HaystackOpTxRx, tokio::sync::oneshot::Receiver<HaystackResponse>), ArgsErr>)
    ensures
        answers_request(r, request("ops"@, *a)),
{
    proof {
        lemma_command_names();
    }
    let filter = match &a.filter {
        Some(f) => Some(FStr::Str(f.as_str())),
        None => None,
    };
    match HaystackOpTxRx::ops(filter, a.limit) {
        Ok(x) => Ok(x),
        Err(_) => Err(ArgsErr::Unsupported),
    }
}

/// The operation of `defs` (see `request`).
fn match_defs(a: &OpArgs) -> (r: Result<(HaystackOpTxRx, tokio::sync::oneshot::Receiver<HaystackResponse>), ArgsErr>)
    ensures
        answers_request(r, request("defs"@, *a)),
{
    proof {
        lemma_command_names();
    }
    let filter = match &a.filter {
        Some(f) => Some(FStr::Str(f.as_str())),
        None => None,
    };
    match HaystackOpTxRx::defs(filter, a.limit) {
        Ok(x) => Ok(x),
        Err(_) => Err(ArgsErr::Unsupported),
    }
}

/// The operation of `libs` (see `request`).
fn match_libs(a: &OpArgs) -> (r: Result<(HaystackOpTxRx, tokio::sync::oneshot::Receiver<HaystackResponse>), ArgsErr>)
    ensures
        answers_request(r, request("libs"@, *a)),
{
    proof {
        lemma_command_names();
    }
    let filter = match &a.filter {
        Some(f) => Some(FStr::Str(f.as_str())),
        None => None,
    };
    match HaystackOpTxRx::libs(filter, a.limit) {
        Ok(x) => Ok(x),
        Err(_) => Err(ArgsErr::Unsupported),
    }
}

/// The operation that the subcommand `cmd` asks for with arguments `a`
/// (see `request`): `authInfo` and `about` ask for `about`; `defs`, `libs`,
/// `ops` and `filetypes` for their operation with a filter and a limit; the
/// others as their `match_` function builds them.
pub fn get_haystack_op(cmd: &str, a: &OpArgs) -> (r: Result<(HaystackOpTxRx, tokio::sync::oneshot::Receiver<HaystackResponse>), ArgsErr>)
    ensures
        answers_request(r, request(cmd@, *a)),
{
    proof {
        lemma_command_names();
    }
    if str_eq(cmd, "authInfo") {
        match_auth(a)
    } else if str_eq(cmd, "about") {
        match_about(a)
    } else if str_eq(cmd, "defs") {
        match_defs(a)
    } else if str_eq(cmd, "libs") {
        match_libs(a)
    } else if str_eq(cmd, "ops") {
        match_ops(a)
    } else if str_eq(cmd, "filetypes") {
        match_filetypes(a)
    } else if str_eq(cmd, "nav") {
        match_nav(a)
    } else if str_eq(cmd, "read") {
        match_read(a)
    } else if str_eq(cmd, "hisRead") {
        match_his_read(a)
    } else if str_eq(cmd, "watchSub") {
        match_watch_sub(a)
    } else if str_eq(cmd, "watchUnsub") {
        match_watch_unsub(a)
    } else if str_eq(cmd, "watchPoll") {
        match_watch_poll(a)
    } else if str_eq(cmd, "hisWrite") {
        match_his_write(a)
    } else {
        Err(ArgsErr::Unsupported)
    }
}

} // verus!
