//! Where to connect and as whom: the destination given on the command line
//! or in the environment, and the entries of the configuration file.
use vstd::prelude::*;
use vstd::string::StrSliceExecFns;
use crate::text::{str_chars, chars_slice_string, to_owned_string, str_eq, push_str};
use crate::h_uri::{url_serialization, url_parse};
use crate::client::args::opt_view;

verus! {

/// What `url::Host::parse` makes of `input`, as the host's text, or `None`
/// where it refuses the text.
pub uninterp spec fn host_serialization(input: Seq<char>) -> Option<Seq<char>>;

/// `url::Host::parse`, handing back the host's text (its `Display`). The
/// claim is that the outcome depends on the text alone (`host_serialization`).
#[verifier::external_body]
fn parse_host(input: &str) -> (r: Result<String, url::ParseError>)
    ensures
        (r is Ok) == (host_serialization(input@) is Some),
        r matches Ok(s) ==> host_serialization(input@) == Some(s@),
{
    match url::Host::parse(input) {
        Ok(h) => Ok(h.to_string()),
        Err(e) => Err(e),
    }
}

/// A server to connect to: a URL; a host, with a user name if one was given
/// as `user@host`; or everything that the environment holds.
#[derive(Clone, Debug)]
#[allow(inconsistent_fields)]
pub enum Destination {
    Url(String),
    Host { username: Option<String>, host: String },
    Env { url: String, username: String, password: String, accept_invalid_certs: bool, auth_info: Option<String> },
}

/// The position of the first `@` in `s`, if any.
pub open spec fn first_at_sign(s: Seq<char>) -> Option<int> {
    if exists|i: int| 0 <= i < s.len() && s[i] == '@' {
        Some(choose|i: int| 0 <= i < s.len() && s[i] == '@' && forall|j: int| 0 <= j < i ==> s[j] != '@')
    } else {
        None
    }
}

/// How `input` reads as a destination: a URL the URL parser accepts; else,
/// with exactly one `@`, the user name before it and the host after it;
/// with none, a host; else nothing.
pub open spec fn destination_of(input: Seq<char>) -> Option<(Option<Seq<char>>, Seq<char>, bool)> {
    match url_serialization(input) {
        Some(u) => Some((None, u, true)),
        None => match first_at_sign(input) {
            Some(i) => {
                let rest = input.skip(i + 1);
                if first_at_sign(rest) is None && host_serialization(rest) is Some {
                    Some((Some(input.take(i)), host_serialization(rest).unwrap(), false))
                } else {
                    None
                }
            },
            None => match host_serialization(input) {
                Some(h) => Some((None, h, false)),
                None => None,
            },
        },
    }
}

/// `first_at_sign` is `i` where `s[i]` is the first `@` of `s`.
proof fn lemma_first_at_sign(s: Seq<char>, i: int)
    requires
        0 <= i < s.len(),
        s[i] == '@',
        forall|j: int| 0 <= j < i ==> s[j] != '@',
    ensures
        first_at_sign(s) == Some(i),
{
    let c = choose|k: int| 0 <= k < s.len() && s[k] == '@' && forall|j: int| 0 <= j < k ==> s[j] != '@';
    assert(0 <= c < s.len() && s[c] == '@' && forall|j: int| 0 <= j < c ==> s[j] != '@');
    if c < i {
        assert(s[c] != '@');
    } else if c > i {
        assert(s[i] != '@');
    }
}

/// The position of the first `@` of `cs`, if any.
fn find_at_sign(cs: &Vec<char>) -> (r: Option<usize>)
    ensures
        r matches Some(k) ==> k < cs@.len() && first_at_sign(cs@) == Some(k as int),
        r is None ==> first_at_sign(cs@) is None,
{
    let mut i: usize = 0;
    while i < cs.len()
        invariant
            i <= cs@.len(),
            forall|j: int| 0 <= j < i ==> cs@[j] != '@',
        decreases cs@.len() - i,
    {
        if cs[i] == '@' {
            proof {
                lemma_first_at_sign(cs@, i as int);
            }
            return Some(i);
        }
        i = i + 1;
    }
    None
}

/// The destination of a `user@host` or `host` text (see `destination_of`,
/// after its URL case).
fn host_destination(input: &str) -> (r: Option<Destination>)
    ensures
        url_serialization(input@) is None ==> match destination_of(input@) {
            Some((user, text, true)) => false,
            Some((user, text, false)) => r matches Some(Destination::Host { username, host }) && host@ == text
                && opt_view(username) == user,
            None => r is None,
        },
{
    let cs = str_chars(input);
    match find_at_sign(&cs) {
        Some(i) => {
            let user = chars_slice_string(&cs, 0, i);
            let rest = input.substring_char(i + 1, cs.len());
            assert(rest@ == input@.skip(i + 1));
            let rcs = str_chars(rest);
            let ghost j = i as int;
            assert(first_at_sign(input@) == Some(j));
            if find_at_sign(&rcs).is_none() {
                assert(first_at_sign(input@.skip(j + 1)) is None);
                match parse_host(rest) {
                    Ok(h) => {
                        assert(user@ == input@.take(j));
                        return Some(Destination::Host { username: Some(user), host: h });
                    },
                    Err(_) => {
                        assert(host_serialization(input@.skip(j + 1)) is None);
                    },
                }
            } else {
                assert(first_at_sign(input@.skip(j + 1)) is Some);
            }
            None
        },
        None => match parse_host(input) {
            Ok(h) => Some(Destination::Host { username: None, host: h }),
            Err(_) => None,
        },
    }
}

/// The destination that `input` names (see `destination_of`); else the
/// message `Invalid destination format: ` and the input.
pub fn parse_destination(input: &str) -> (r: Result<Destination, String>)
    ensures
        match destination_of(input@) {
            Some((user, text, true)) => r matches Ok(Destination::Url(u)) && u@ == text,
            Some((user, text, false)) => r matches Ok(Destination::Host { username, host }) && host@ == text
                && opt_view(username) == user,
            None => r matches Err(m) && m@ == "Invalid destination format: "@ + input@,
        },
{
    match url_parse(input) {
        Ok(u) => {
            return Ok(Destination::Url(u));
        },
        Err(_) => {},
    }
    match host_destination(input) {
        Some(d) => Ok(d),
        None => {
            let mut m = String::new();
            push_str(&mut m, "Invalid destination format: ");
            push_str(&mut m, input);
            Err(m)
        },
    }
}

/// An entry of the configuration file: each field as the file gives it.
#[derive(Clone, Debug)]
pub struct ConfigEntry {
    pub name: Option<String>,
    pub username: Option<String>,
    pub password: Option<String>,
    pub accept_invalid_certs: Option<bool>,
    pub url: Option<String>,
}

/// How to connect: as whom, to which URL, and whether to accept invalid
/// certificates.
#[derive(Clone, Debug)]
pub struct ConnInfo {
    pub username: String,
    pub password: String,
    pub url: String,
    pub accept_invalid_certs: bool,
    pub bearer: Option<String>,
}

/// Why no connection could be resolved.
#[derive(Debug)]
pub enum CredErr {
    UsernameNotProvided,
    PasswordNotProvided,
    AcceptInvalidCertsArgUnresolved,
    HostNotInConfig,
    UsernameUnresolved,
    AcceptInvalidCertsUnresolved,
    UrlNotInConfig,
    UrlInvalid(url::ParseError),
    DestinationNotProvided,
    NoConfigFile,
}

impl CredErr {
    /// The message of the error.
    pub open spec fn message(&self) -> Seq<char> {
        match self {
            CredErr::UsernameNotProvided => "Username not provided"@,
            CredErr::PasswordNotProvided => "Password not provided"@,
            CredErr::AcceptInvalidCertsArgUnresolved => "Should never happen. Unable to resolve for 'arg_accept_invalid_certs'"@,
            CredErr::HostNotInConfig => "Failed to find host in config file"@,
            CredErr::UsernameUnresolved => "Unable to resolve for username"@,
            CredErr::AcceptInvalidCertsUnresolved => "Should never happen. Unable to resolve for 'accept_invalid_certs'"@,
            CredErr::UrlNotInConfig => "Failed to get URL from config file"@,
            CredErr::UrlInvalid(_) => "Failed to parse URL from config file"@,
            CredErr::DestinationNotProvided => "Destination not provided"@,
            CredErr::NoConfigFile => "Config file does not exist!"@,
        }
    }

    /// The message of the error (its display text).
    pub fn to_string(&self) -> (r: String)
        ensures
            r@ == self.message(),
    {
        let s = match self {
            CredErr::UsernameNotProvided => "Username not provided",
            CredErr::PasswordNotProvided => "Password not provided",
            CredErr::AcceptInvalidCertsArgUnresolved => "Should never happen. Unable to resolve for 'arg_accept_invalid_certs'",
            CredErr::HostNotInConfig => "Failed to find host in config file",
            CredErr::UsernameUnresolved => "Unable to resolve for username",
            CredErr::AcceptInvalidCertsUnresolved => "Should never happen. Unable to resolve for 'accept_invalid_certs'",
            CredErr::UrlNotInConfig => "Failed to get URL from config file",
            CredErr::UrlInvalid(_) => "Failed to parse URL from config file",
            CredErr::DestinationNotProvided => "Destination not provided",
            CredErr::NoConfigFile => "Config file does not exist!",
        };
        to_owned_string(s)
    }
}

/// The position of the first entry named `host`, if any.
pub open spec fn entry_index(es: Seq<ConfigEntry>, host: Seq<char>) -> Option<int> {
    if exists|i: int| 0 <= i < es.len() && opt_view(es[i].name) == Some(host) {
        Some(choose|i: int| 0 <= i < es.len() && opt_view(es[i].name) == Some(host) && forall|j: int| 0 <= j < i ==> opt_view(es[j].name) != Some(host))
    } else {
        None
    }
}

/// Whether the entries before the first one named `host` (all entries where
/// none is) each have a name: the search reads each entry's name and stops
/// at the first that does not have one.
pub open spec fn names_readable(es: Seq<ConfigEntry>, host: Seq<char>) -> bool {
    forall|i: int| 0 <= i < es.len() && (forall|j: int| 0 <= j < i ==> opt_view(es[j].name) != Some(host)) ==> #[trigger] es[i].name is Some
}

/// The first of two options that holds a value.
pub open spec fn or_else<A>(a: Option<A>, b: Option<A>) -> Option<A> {
    if a is Some { a } else { b }
}

/// The kinds of `CredErr`, without their payloads.
pub enum CredFail {
    UsernameNotProvided,
    PasswordNotProvided,
    AcceptInvalidCertsArgUnresolved,
    HostNotInConfig,
    UsernameUnresolved,
    AcceptInvalidCertsUnresolved,
    UrlNotInConfig,
    UrlInvalid,
    DestinationNotProvided,
    NoConfigFile,
}

/// Whether the error `e` is of the kind `f`.
pub open spec fn fails_with(e: CredErr, f: CredFail) -> bool {
    match (e, f) {
        (CredErr::UsernameNotProvided, CredFail::UsernameNotProvided) => true,
        (CredErr::PasswordNotProvided, CredFail::PasswordNotProvided) => true,
        (CredErr::AcceptInvalidCertsArgUnresolved, CredFail::AcceptInvalidCertsArgUnresolved) => true,
        (CredErr::HostNotInConfig, CredFail::HostNotInConfig) => true,
        (CredErr::UsernameUnresolved, CredFail::UsernameUnresolved) => true,
        (CredErr::AcceptInvalidCertsUnresolved, CredFail::AcceptInvalidCertsUnresolved) => true,
        (CredErr::UrlNotInConfig, CredFail::UrlNotInConfig) => true,
        (CredErr::UrlInvalid(_), CredFail::UrlInvalid) => true,
        (CredErr::DestinationNotProvided, CredFail::DestinationNotProvided) => true,
        (CredErr::NoConfigFile, CredFail::NoConfigFile) => true,
        _ => false,
    }
}

/// The connection for a URL destination: the user name, password and
/// certificate choice given on the command line, each required in turn.
pub open spec fn url_credentials(url: Seq<char>, user: Option<Seq<char>>, pass: Option<Seq<char>>, accept: Option<bool>) -> Result<(Seq<char>, Seq<char>, Seq<char>, bool), CredFail> {
    match (user, pass, accept) {
        (None, _, _) => Err(CredFail::UsernameNotProvided),
        (Some(_), None, _) => Err(CredFail::PasswordNotProvided),
        (Some(_), Some(_), None) => Err(CredFail::AcceptInvalidCertsArgUnresolved),
        (Some(u), Some(p), Some(a)) => Ok((u, p, url, a)),
    }
}

/// The connection for a host destination: the first entry named `host`,
/// with the user name given on the command line, else in the destination,
/// else in the entry; the password and certificate choice given on the
/// command line, else in the entry; and the entry's URL, which must parse.
pub open spec fn host_credentials(es: Seq<ConfigEntry>, host_user: Option<Seq<char>>, host: Seq<char>, user: Option<Seq<char>>, pass: Option<Seq<char>>, accept: Option<bool>) -> Result<(Seq<char>, Seq<char>, Seq<char>, bool), CredFail> {
    match entry_index(es, host) {
        None => Err(CredFail::HostNotInConfig),
        Some(i) => entry_credentials(es[i], host_user, user, pass, accept),
    }
}

/// The connection that the entry `e` gives (see `host_credentials`).
pub open spec fn entry_credentials(e: ConfigEntry, host_user: Option<Seq<char>>, user: Option<Seq<char>>, pass: Option<Seq<char>>, accept: Option<bool>) -> Result<(Seq<char>, Seq<char>, Seq<char>, bool), CredFail> {
    match or_else(user, or_else(host_user, opt_view(e.username))) {
        None => Err(CredFail::UsernameUnresolved),
        Some(un) => match or_else(pass, opt_view(e.password)) {
            None => Err(CredFail::PasswordNotProvided),
            Some(pw) => match or_else(accept, e.accept_invalid_certs) {
                None => Err(CredFail::AcceptInvalidCertsUnresolved),
                Some(a) => match e.url {
                    None => Err(CredFail::UrlNotInConfig),
                    Some(us) => match url_serialization(us@) {
                        None => Err(CredFail::UrlInvalid),
                        Some(u) => Ok((un, pw, u, a)),
                    },
                },
            },
        },
    }
}

/// The connection that the arguments, the configuration file and the
/// environment resolve to: user name, password, URL and certificate choice.
/// The destination on the command line goes before that of the environment.
/// With a configuration file, a host is looked up by name there, and each
/// value given on the command line goes before what the destination and the
/// entry hold; without one, only a URL destination resolves.
pub open spec fn credentials(dest: Option<Destination>, user: Option<Seq<char>>, pass: Option<Seq<char>>, accept: Option<bool>, config: Option<Seq<ConfigEntry>>) -> Result<(Seq<char>, Seq<char>, Seq<char>, bool), CredFail> {
    match config {
        Some(es) => match dest {
            None => Err(CredFail::DestinationNotProvided),
            Some(Destination::Url(u)) => url_credentials(u@, user, pass, accept),
            Some(Destination::Host { username: host_user, host }) => host_credentials(es, opt_view(host_user), host@, user, pass, accept),
            Some(Destination::Env { url, username, password, accept_invalid_certs, .. }) => Ok((
                or_else(user, Some(username@)).unwrap(),
                or_else(pass, Some(password@)).unwrap(),
                url@,
                or_else(accept, Some(accept_invalid_certs)).unwrap(),
            )),
        },
        None => match dest {
            None => Err(CredFail::DestinationNotProvided),
            Some(Destination::Url(u)) => url_credentials(u@, user, pass, accept),
            Some(_) => Err(CredFail::NoConfigFile),
        },
    }
}

/// The first of two optional strings that holds a value, copied.
fn first_of(a: &Option<String>, b: &Option<String>) -> (r: Option<String>)
    ensures
        opt_view(r) == or_else(opt_view(*a), opt_view(*b)),
{
    match a {
        Some(x) => Some(to_owned_string(x.as_str())),
        None => match b {
            Some(y) => Some(to_owned_string(y.as_str())),
            None => None,
        },
    }
}

/// The position of the first entry named `host` (see `entry_index`).
fn find_entry(es: &Vec<ConfigEntry>, host: &str) -> (r: Option<usize>)
    requires
        names_readable(es@, host@),
    ensures
        r matches Some(k) ==> k < es@.len() && entry_index(es@, host@) == Some(k as int),
        r is None ==> entry_index(es@, host@) is None,
{
    let mut i: usize = 0;
    while i < es.len()
        invariant
            i <= es@.len(),
            names_readable(es@, host@),
            forall|j: int| 0 <= j < i ==> opt_view(es@[j].name) != Some(host@),
        decreases es@.len() - i,
    {
        assert(es@[i as int].name is Some);
        let found = match &es[i].name {
            Some(n) => str_eq(n.as_str(), host),
            None => false,
        };
        if found {
            proof {
                let c = choose|k: int| 0 <= k < es@.len() && opt_view(es@[k].name) == Some(host@) && forall|j: int|
                    0 <= j < k ==> opt_view(es@[j].name) != Some(host@);
                assert(opt_view(es@[i as int].name) == Some(host@));
                if c < i {
                } else if c > i {
                }
            }
            return Some(i);
        }
        i = i + 1;
    }
    None
}

/// Whether `r` is the connection `c`, or fails as `c` does.
pub open spec fn resolves(r: Result<ConnInfo, CredErr>, c: Result<(Seq<char>, Seq<char>, Seq<char>, bool), CredFail>) -> bool {
    match c {
        Ok((u, p, url, a)) => r matches Ok(ci) && ci.username@ == u && ci.password@ == p && ci.url@ == url
            && ci.accept_invalid_certs == a && ci.bearer is None,
        Err(f) => r matches Err(e) && fails_with(e, f),
    }
}

/// The connection for a URL destination (see `url_credentials`).
fn url_conn(url: &String, user: &Option<String>, pass: &Option<String>, accept: Option<bool>) -> (r: Result<ConnInfo, CredErr>)
    ensures
        resolves(r, url_credentials(url@, opt_view(*user), opt_view(*pass), accept)),
{
    let username = match user {
        Some(u) => to_owned_string(u.as_str()),
        None => {
            return Err(CredErr::UsernameNotProvided);
        },
    };
    let password = match pass {
        Some(p) => to_owned_string(p.as_str()),
        None => {
            return Err(CredErr::PasswordNotProvided);
        },
    };
    let accept_invalid_certs = match accept {
        Some(a) => a,
        None => {
            return Err(CredErr::AcceptInvalidCertsArgUnresolved);
        },
    };
    Ok(ConnInfo { username, password, url: to_owned_string(url.as_str()), accept_invalid_certs, bearer: None })
}

/// The connection that the entry `e` gives (see `entry_credentials`).
fn entry_conn(e: &ConfigEntry, host_user: &Option<String>, user: &Option<String>, pass: &Option<String>, accept: Option<bool>) -> (r: Result<ConnInfo, CredErr>)
    ensures
        resolves(r, entry_credentials(*e, opt_view(*host_user), opt_view(*user), opt_view(*pass), accept)),
{
    let u2 = first_of(host_user, &e.username);
    let username = match first_of(user, &u2) {
        Some(u) => u,
        None => {
            return Err(CredErr::UsernameUnresolved);
        },
    };
    let password = match first_of(pass, &e.password) {
        Some(p) => p,
        None => {
            return Err(CredErr::PasswordNotProvided);
        },
    };
    let accept_invalid_certs = match accept {
        Some(a) => a,
        None => match e.accept_invalid_certs {
            Some(a) => a,
            None => {
                return Err(CredErr::AcceptInvalidCertsUnresolved);
            },
        },
    };
    let url_str = match &e.url {
        Some(s) => s.as_str(),
        None => {
            return Err(CredErr::UrlNotInConfig);
        },
    };
    match url_parse(url_str) {
        Ok(url) => Ok(ConnInfo { username, password, url, accept_invalid_certs, bearer: None }),
        Err(err) => Err(CredErr::UrlInvalid(err)),
    }
}

/// The connection for a host destination (see `host_credentials`).
fn host_conn(es: &Vec<ConfigEntry>, host_user: &Option<String>, host: &String, user: &Option<String>, pass: &Option<String>, accept: Option<bool>) -> (r: Result<ConnInfo, CredErr>)
    requires
        names_readable(es@, host@),
    ensures
        resolves(r, host_credentials(es@, opt_view(*host_user), host@, opt_view(*user), opt_view(*pass), accept)),
{
    match find_entry(es, host.as_str()) {
        Some(i) => entry_conn(&es[i], host_user, user, pass, accept),
        None => Err(CredErr::HostNotInConfig),
    }
}

/// The connection that the destination given on the command line (else the
/// one of the environment), the user name, password and certificate choice
/// given on the command line, and the entries of the configuration file, if
/// there is one, resolve to (see `credentials`).
pub fn get_credentials(arg_destination: Option<Destination>, arg_user: Option<String>, arg_pass: Option<String>, arg_accept_invalid_certs: Option<bool>, config: Option<Vec<ConfigEntry>>, env_dest: Option<Destination>) -> (r: Result<ConnInfo, CredErr>)
    requires
        config matches Some(es) ==> (or_else(arg_destination, env_dest) matches Some(Destination::Host { host, .. })
            ==> names_readable(es@, host@)),
    ensures
        resolves(r, credentials(or_else(arg_destination, env_dest), opt_view(arg_user), opt_view(arg_pass), arg_accept_invalid_certs, match config {
            Some(es) => Some(es@),
            None => None,
        })),
{
    let destination = match arg_destination {
        Some(d) => Some(d),
        None => env_dest,
    };
    match config {
        Some(es) => match destination {
            None => Err(CredErr::DestinationNotProvided),
            Some(Destination::Url(u)) => url_conn(&u, &arg_user, &arg_pass, arg_accept_invalid_certs),
            Some(Destination::Host { username: host_user, host }) => host_conn(&es, &host_user, &host, &arg_user, &arg_pass, arg_accept_invalid_certs),
            Some(Destination::Env { url, username, password, accept_invalid_certs, .. }) => {
                let un = match arg_user {
                    Some(u) => u,
                    None => username,
                };
                let pw = match arg_pass {
                    Some(p) => p,
                    None => password,
                };
                let a = match arg_accept_invalid_certs {
                    Some(a) => a,
                    None => accept_invalid_certs,
                };
                Ok(ConnInfo { username: un, password: pw, url, accept_invalid_certs: a, bearer: None })
            },
        },
        None => match destination {
            None => Err(CredErr::DestinationNotProvided),
            Some(Destination::Url(u)) => url_conn(&u, &arg_user, &arg_pass, arg_accept_invalid_certs),
            Some(_) => Err(CredErr::NoConfigFile),
        },
    }
}

} // verus!
