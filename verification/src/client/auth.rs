//! Signing in to a Haystack server with SCRAM-SHA-256 over HTTP headers: the
//! header texts the client sends, the parameters it reads from the server's
//! headers, and the three steps of the handshake. Each step takes what the
//! server answered to the previous request and gives the header of the next.
use vstd::prelude::*;
use crate::text::{push_str, str_chars, chars_slice_string, str_eq};
use crate::io::parse::lex::{at, char_at, tag, char_is, run_end, scan, Class, lemma_run_end};
use crate::io::parse::grammar::{run1, span};
use crate::io::parse::read::read_run1;

verus! {

/// The first state of a SCRAM handshake after the first client message
/// (`scram::client::ServerFirst`).
#[verifier::external_type_specification]
#[verifier::external_body]
pub struct ExServerFirst<'a>(scram::client::ServerFirst<'a>);

/// The last state of a SCRAM handshake (`scram::client::ServerFinal`).
#[verifier::external_type_specification]
#[verifier::external_body]
pub struct ExServerFinal(scram::client::ServerFinal);

/// The error of a SCRAM step (`scram::Error`).
#[verifier::external_type_specification]
#[verifier::external_body]
pub struct ExScramError(scram::Error);

/// The error of base64 decoding (`base64::DecodeError`).
#[verifier::external_type_specification]
#[verifier::external_body]
pub struct ExDecodeError(base64::DecodeError);

/// The character of the URL-safe base64 alphabet for the six bits `v`.
pub open spec fn b64_char(v: int) -> char {
    if v < 26 {
        (('A' as int) + v) as char
    } else if v < 52 {
        (('a' as int) + v - 26) as char
    } else if v < 62 {
        (('0' as int) + v - 52) as char
    } else if v == 62 {
        '-'
    } else {
        '_'
    }
}

/// The URL-safe base64 encoding of `b` without padding: each three bytes
/// become four characters, and a last one or two bytes two or three.
pub open spec fn b64url(b: Seq<u8>) -> Seq<char>
    decreases b.len(),
{
    if b.len() == 0 {
        seq![]
    } else if b.len() == 1 {
        seq![b64_char(b[0] as int / 4), b64_char((b[0] as int % 4) * 16)]
    } else if b.len() == 2 {
        seq![
            b64_char(b[0] as int / 4),
            b64_char((b[0] as int % 4) * 16 + b[1] as int / 16),
            b64_char((b[1] as int % 16) * 4),
        ]
    } else {
        seq![
            b64_char(b[0] as int / 4),
            b64_char((b[0] as int % 4) * 16 + b[1] as int / 16),
            b64_char((b[1] as int % 16) * 4 + b[2] as int / 64),
            b64_char(b[2] as int % 64),
        ] + b64url(b.skip(3))
    }
}

/// What `base64::decode_config` with the URL-safe, unpadded configuration
/// makes of `text`: the bytes, or `None` where it refuses the text.
pub uninterp spec fn b64url_decoding(text: Seq<char>) -> Option<Seq<u8>>;

/// `base64::encode_config(bytes, base64::URL_SAFE_NO_PAD)`: the URL-safe
/// base64 encoding without padding, as RFC 4648 defines it (`b64url`). The
/// function panics only where the length of the encoding overflows a
/// `usize`, which needs more than `isize::MAX` input bytes, more than a
/// slice can hold.
#[verifier::external_body]
fn b64url_encode(bytes: &[u8]) -> (r: String)
    ensures
        r@ == b64url(bytes@),
{
    base64::encode_config(bytes, base64::URL_SAFE_NO_PAD)
}

/// `base64::decode_config(text, base64::URL_SAFE_NO_PAD)`. The claim is that
/// the outcome depends on the text alone (`b64url_decoding`), and that the
/// encoding of any bytes (`b64url`) decodes to those bytes. Which other texts
/// it accepts (it also takes `=` padding in the last block, under rules of
/// its own) is not stated.
#[verifier::external_body]
fn b64url_decode(text: &str) -> (r: Result<Vec<u8>, base64::DecodeError>)
    ensures
        (r is Ok) == (b64url_decoding(text@) is Some),
        r matches Ok(v) ==> b64url_decoding(text@) == Some(v@),
        r is Err ==> forall|b: Seq<u8>| text@ != #[trigger] b64url(b),
        r matches Ok(v) ==> forall|b: Seq<u8>| text@ == #[trigger] b64url(b) ==> v@ == b,
{
    base64::decode_config(text, base64::URL_SAFE_NO_PAD)
}

/// The error of `String::from_utf8` (`std::string::FromUtf8Error`).
#[verifier::external_type_specification]
#[verifier::external_body]
pub struct ExFromUtf8Error(std::string::FromUtf8Error);

/// `String::from_utf8`: the text the bytes encode in UTF-8, where they are
/// valid UTF-8, else its error.
#[verifier::external_body]
fn utf8_string(bytes: Vec<u8>) -> (r: Result<String, std::string::FromUtf8Error>)
    ensures
        (r is Ok) == vstd::utf8::valid_utf8(bytes@),
        r matches Ok(s) ==> s@ == vstd::utf8::decode_utf8(bytes@),
{
    String::from_utf8(bytes)
}

/// The `Debug` text of the `Utf8Error` inside an error of `String::from_utf8`.
pub uninterp spec fn utf8_error_debug(e: std::string::FromUtf8Error) -> Seq<char>;

/// `format!("{:?}", e.utf8_error())`: the `Debug` text of the `Utf8Error`
/// (where the valid text ends and how long the bad sequence is), which
/// depends on the error alone (`utf8_error_debug`).
#[verifier::external_body]
fn utf8_error_text(e: &std::string::FromUtf8Error) -> (r: String)
    ensures
        r@ == utf8_error_debug(*e),
{
    format!("{:?}", e.utf8_error())
}

/// The base64 text of the GS2 header that a handshake state was made with
/// (the header opens the final client message).
pub uninterp spec fn scram_gs2_b64(state: scram::client::ServerFirst<'_>) -> Seq<char>;

/// The password that a handshake state was made with, from which it computes
/// its proof.
pub uninterp spec fn scram_state_password(state: scram::client::ServerFirst<'_>) -> Seq<char>;

/// `ScramClient::new(username, password, None).client_first()`: a new
/// handshake and its first message. By the crate's source the message is
/// `n,,n=`, the username as given, `,r=` and a random nonce of 24 characters,
/// and the state keeps the password, the first message without its GS2
/// header, and the GS2 header `n,,`,
/// whose base64 text is `biws`.
#[verifier::external_body]
fn scram_client_first<'a>(username: &'a str, password: &'a str) -> (r: (scram::client::ServerFirst<'a>, String))
    ensures
        r.1@.len() == username@.len() + 32,
        r.1@.take(username@.len() + 8int) == "n,,n="@ + username@ + ",r="@,
        scram_gs2_b64(r.0) == "biws"@,
        scram_state_password(r.0) == password@,
{
    scram::ScramClient::new(username, password, None).client_first()
}

/// Whether a part of a server message is shorter than two bytes: empty, or
/// one ASCII character.
pub open spec fn short_part(t: Seq<char>) -> bool {
    t.len() == 0 || (t.len() == 1 && (t[0] as u32) < 128)
}

/// Where the part of `s` that starts at `p` ends: at the next comma, or at
/// the end of `s`.
pub open spec fn part_end(s: Seq<char>, p: int) -> int
    decreases s.len() - p,
{
    if 0 <= p < s.len() && s[p] != ',' {
        part_end(s, p + 1)
    } else {
        p
    }
}

/// Whether `t` starts with the characters `a` and `b`.
pub open spec fn starts_with2(t: Seq<char>, a: char, b: char) -> bool {
    t.len() >= 2 && t[0] == a && t[1] == b
}

/// Whether the handshake reads the server's first message without fault.
/// The crate takes the first two bytes of the first part (between commas)
/// where the message has two bytes or more; of the second where the first
/// starts with `r=`; and of the third where the second starts with `s=`
/// (and its salt decodes, which this test does not ask).
pub open spec fn server_first_readable(s: Seq<char>) -> bool {
    let e0 = part_end(s, 0);
    let e1 = part_end(s, e0 + 1);
    let p0 = s.subrange(0, e0);
    let p1 = s.subrange(e0 + 1, e1);
    let p2 = s.subrange(e1 + 1, part_end(s, e1 + 1));
    &&& s.len() >= 2 ==> !short_part(p0)
    &&& starts_with2(p0, 'r', '=') && e0 < s.len() ==> !short_part(p1)
    &&& starts_with2(p0, 'r', '=') && e0 < s.len() && starts_with2(p1, 's', '=') && e1 < s.len() ==> !short_part(p2)
}

/// The server's nonce in its first message: the first part after `r=`.
pub open spec fn server_nonce(s: Seq<char>) -> Seq<char> {
    s.subrange(2, part_end(s, 0))
}

/// Whether the handshake in `state` accepts the server's first message `msg`.
pub uninterp spec fn scram_first_accepts(state: scram::client::ServerFirst<'_>, msg: Seq<char>) -> bool;

/// The base64 text of the client's proof that the handshake in `state`
/// computes from the server's first message `msg`.
pub uninterp spec fn scram_client_proof(state: scram::client::ServerFirst<'_>, msg: Seq<char>) -> Seq<char>;

/// The last state that the handshake in `state` reaches on the server's first
/// message `msg` (it holds the server signature to expect).
pub uninterp spec fn scram_final_state(state: scram::client::ServerFirst<'_>, msg: Seq<char>) -> scram::client::ServerFinal;

/// `ServerFirst::handle_server_first` and then `ClientFinal::client_final`:
/// the last state and the final client message. By the crate's source that
/// message is `c=`, the base64 of the state's GS2 header, `,r=`, the server's
/// nonce, `,p=` and the base64 of a 32-byte proof (44 characters). The claim
/// is that whether the server's message is accepted, the proof and the last
/// state depend on the state and the message alone (`scram_first_accepts`,
/// `scram_client_proof`, `scram_final_state`); how the proof is computed from
/// the password, the salt and the nonces is not stated.
#[verifier::external_body]
fn scram_client_final(state: scram::client::ServerFirst<'_>, message: &str) -> (r: Result<(scram::client::ServerFinal, String), scram::Error>)
    requires
        server_first_readable(message@),
    ensures
        (r is Ok) == scram_first_accepts(state, message@),
        r is Ok ==> scram_client_proof(state, message@).len() == 44,
        r matches Ok((f, m)) ==> f == scram_final_state(state, message@) && m@ == "c="@ + scram_gs2_b64(state)
            + ",r="@ + server_nonce(message@) + ",p="@ + scram_client_proof(state, message@),
{
    match state.handle_server_first(message) {
        Ok(c) => Ok(c.client_final()),
        Err(e) => Err(e),
    }
}

/// Whether the handshake reads the server's final message without fault: the
/// crate takes the text up to byte 2, so that byte must start a character.
pub open spec fn server_final_readable(s: Seq<char>) -> bool {
    &&& !(s.len() >= 2 && (s[0] as u32) < 128 && (s[1] as u32) >= 128)
    &&& !(s.len() >= 1 && (s[0] as u32) >= 0x800)
}

/// Whether the handshake in `state` accepts the server's final message `msg`.
pub uninterp spec fn scram_final_accepts(state: scram::client::ServerFinal, msg: Seq<char>) -> bool;

/// `ServerFinal::handle_server_final`: whether the server's final message
/// proves the server. The claim is that the outcome depends on the state and
/// the message alone (`scram_final_accepts`).
#[verifier::external_body]
fn scram_server_final(state: scram::client::ServerFinal, message: &str) -> (r: Result<(), scram::Error>)
    requires
        server_final_readable(message@),
    ensures
        (r is Ok) == scram_final_accepts(state, message@),
{
    state.handle_server_final(message)
}

/// Where the part of `cs` that starts at `p` ends (see `part_end`).
fn part_end_at(cs: &Vec<char>, p: usize) -> (r: usize)
    requires
        p <= cs@.len(),
    ensures
        r as int == part_end(cs@, p as int),
        p <= r <= cs@.len(),
{
    let mut i = p;
    while i < cs.len() && cs[i] != ','
        invariant
            p <= i <= cs@.len(),
            part_end(cs@, i as int) == part_end(cs@, p as int),
        decreases cs@.len() - i,
    {
        i = i + 1;
    }
    i
}

/// Whether the characters of `cs` from `from` to `to` are a short part.
fn is_short(cs: &Vec<char>, from: usize, to: usize) -> (r: bool)
    requires
        from <= to <= cs@.len(),
    ensures
        r == short_part(cs@.subrange(from as int, to as int)),
{
    to - from == 0 || (to - from == 1 && (cs[from] as u32) < 128)
}

/// Whether the handshake reads the server's first message `m` without fault
/// (see `server_first_readable`).
pub fn first_message_readable(m: &str) -> (r: bool)
    ensures
        r == server_first_readable(m@),
{
    let cs = str_chars(m);
    let n = cs.len();
    let e0 = part_end_at(&cs, 0);
    if n >= 2 && is_short(&cs, 0, e0) {
        return false;
    }
    let rq = e0 >= 2 && cs[0] == 'r' && cs[1] == '=';
    proof {
        assert(rq == starts_with2(cs@.subrange(0, e0 as int), 'r', '='));
    }
    if rq && e0 < n {
        let e1 = part_end_at(&cs, e0 + 1);
        if is_short(&cs, e0 + 1, e1) {
            return false;
        }
        let sq = e1 - (e0 + 1) >= 2 && cs[e0 + 1] == 's' && cs[e0 + 2] == '=';
        proof {
            assert(sq == starts_with2(cs@.subrange(e0 + 1, e1 as int), 's', '='));
        }
        if sq && e1 < n {
            let e2 = part_end_at(&cs, e1 + 1);
            if is_short(&cs, e1 + 1, e2) {
                return false;
            }
        }
    }
    true
}

/// Whether the handshake reads the server's final message `m` without fault
/// (see `server_final_readable`).
pub fn final_message_readable(m: &str) -> (r: bool)
    ensures
        r == server_final_readable(m@),
{
    let cs = str_chars(m);
    let n = cs.len();
    if n >= 2 && (cs[0] as u32) < 128 && (cs[1] as u32) >= 128 {
        return false;
    }
    if n >= 1 && (cs[0] as u32) >= 0x800 {
        return false;
    }
    true
}

/// Why signing in failed.
#[derive(Debug)]
pub enum AuthErr {
    /// The answer has no `www-authenticate` header.
    MissingAuthenticate,
    /// The answer has no `authentication-info` header.
    MissingAuthenticationInfo,
    /// A header does not read as a list of parameters.
    BadHeader,
    /// The server does not offer SHA-256.
    HashNotSupported,
    /// The server's answer has no `data` parameter.
    MissingData,
    /// The `data` parameter (kept as given) is not base64.
    Decode(base64::DecodeError, String),
    /// The `data` parameter does not decode to UTF-8 text.
    NotText(std::string::FromUtf8Error),
    /// A step of the SCRAM handshake failed.
    Scram(scram::Error),
    /// The server's last answer has no `authToken` parameter.
    MissingToken,
}

/// The `Debug` text of a base64 decoding error.
pub uninterp spec fn decode_error_debug(e: base64::DecodeError) -> Seq<char>;

/// `format!("{:?}", e)` on a `base64::DecodeError`: its derived `Debug`
/// text, which depends on the error alone (`decode_error_debug`).
#[verifier::external_body]
fn decode_error_text(e: &base64::DecodeError) -> (r: String)
    ensures
        r@ == decode_error_debug(*e),
{
    format!("{:?}", e)
}

/// The `Debug` text of a SCRAM error.
pub uninterp spec fn scram_error_debug(e: scram::Error) -> Seq<char>;

/// `format!("{:?}", e)` on a `scram::Error`: its derived `Debug` text, which
/// depends on the error alone (`scram_error_debug`).
#[verifier::external_body]
fn scram_error_text(e: &scram::Error) -> (r: String)
    ensures
        r@ == scram_error_debug(*e),
{
    format!("{:?}", e)
}

/// The upper-case hexadecimal digit for `d < 16`.
pub open spec fn upper_hex_char(d: int) -> char {
    if d < 10 {
        crate::text::digit_char(d as nat)
    } else if d == 10 {
        'A'
    } else if d == 11 {
        'B'
    } else if d == 12 {
        'C'
    } else if d == 13 {
        'D'
    } else if d == 14 {
        'E'
    } else {
        'F'
    }
}

/// A byte as two upper-case hexadecimal digits.
pub open spec fn byte_hex(b: u8) -> Seq<char> {
    seq![upper_hex_char(b as int / 16), upper_hex_char(b as int % 16)]
}

/// The bytes as two-digit upper-case hexadecimal numbers separated by `, `.
pub open spec fn byte_hex_items(bs: Seq<u8>) -> Seq<char>
    decreases bs.len(),
{
    if bs.len() == 0 {
        seq![]
    } else if bs.len() == 1 {
        byte_hex(bs[0])
    } else {
        byte_hex_items(bs.drop_last()) + ", "@ + byte_hex(bs.last())
    }
}

/// The bytes written as `{:02X?}` writes a byte slice: `[`, the items of
/// `byte_hex_items`, `]`.
pub open spec fn byte_hex_list(bs: Seq<u8>) -> Seq<char> {
    "["@ + byte_hex_items(bs) + "]"@
}

/// The upper-case hexadecimal digit for `d`.
fn upper_hex_digit(d: u8) -> (r: char)
    requires
        d < 16,
    ensures
        r == upper_hex_char(d as int),
{
    if d == 0 { '0' }
    else if d == 1 { '1' }
    else if d == 2 { '2' }
    else if d == 3 { '3' }
    else if d == 4 { '4' }
    else if d == 5 { '5' }
    else if d == 6 { '6' }
    else if d == 7 { '7' }
    else if d == 8 { '8' }
    else if d == 9 { '9' }
    else if d == 10 { 'A' }
    else if d == 11 { 'B' }
    else if d == 12 { 'C' }
    else if d == 13 { 'D' }
    else if d == 14 { 'E' }
    else { 'F' }
}

/// Appends `byte_hex_list` of the bytes.
fn push_byte_hex_list(buf: &mut String, bytes: &[u8])
    ensures
        final(buf)@ == old(buf)@ + byte_hex_list(bytes@),
{
    let ghost start = buf@;
    push_str(buf, "[");
    let n = bytes.len();
    let mut i: usize = 0;
    while i < n
        invariant
            i <= n,
            n == bytes@.len(),
            buf@ == start + "["@ + byte_hex_items(bytes@.take(i as int)),
        decreases n - i,
    {
        let ghost before = buf@;
        if i > 0 {
            push_str(buf, ", ");
        }
        let b = bytes[i];
        crate::text::push_char(buf, upper_hex_digit(b / 16));
        crate::text::push_char(buf, upper_hex_digit(b % 16));
        proof {
            let t = bytes@.take(i + 1);
            assert(t.drop_last() =~= bytes@.take(i as int));
            assert(t.last() == b);
            if i > 0 {
                assert(buf@ =~= before + ", "@ + byte_hex(b));
            } else {
                assert(buf@ =~= before + byte_hex(b));
                assert(bytes@.take(0) =~= Seq::<u8>::empty());
            }
        }
        i = i + 1;
    }
    push_str(buf, "]");
    proof {
        assert(bytes@.take(n as int) =~= bytes@);
    }
}

impl AuthErr {
    /// The message of the error.
    pub open spec fn message(&self) -> Seq<char> {
        match self {
            AuthErr::MissingAuthenticate => "Server response missing \"www-authenticate\""@,
            AuthErr::MissingAuthenticationInfo => "Server response missing \"authentication-info\""@,
            AuthErr::BadHeader => "Server response holds an invalid authentication header"@,
            AuthErr::HashNotSupported => "SCRAM: SHA-256 not supported"@,
            AuthErr::MissingData => "\"data\" missing from server response"@,
            AuthErr::Decode(e, p) => "SCRAM decode: "@ + decode_error_debug(*e) + ", payload: "@ + byte_hex_list(
                vstd::utf8::encode_utf8(p@),
            ),
            AuthErr::NotText(e) => "SCRAM bytes to str: "@ + utf8_error_debug(*e),
            AuthErr::Scram(e) => "SCRAM state: "@ + scram_error_debug(*e),
            AuthErr::MissingToken => "\"authToken\" missing from server response"@,
        }
    }

    /// The message of the error (its display text).
    pub fn to_string(&self) -> (r: String)
        ensures
            r@ == self.message(),
    {
        let s = match self {
            AuthErr::MissingAuthenticate => "Server response missing \"www-authenticate\"",
            AuthErr::MissingAuthenticationInfo => "Server response missing \"authentication-info\"",
            AuthErr::BadHeader => "Server response holds an invalid authentication header",
            AuthErr::HashNotSupported => "SCRAM: SHA-256 not supported",
            AuthErr::MissingData => "\"data\" missing from server response",
            AuthErr::Decode(e, p) => {
                let mut out = crate::text::to_owned_string("SCRAM decode: ");
                let t = decode_error_text(e);
                push_str(&mut out, t.as_str());
                push_str(&mut out, ", payload: ");
                push_byte_hex_list(&mut out, p.as_str().as_bytes());
                return out;
            },
            AuthErr::NotText(e) => {
                let mut out = crate::text::to_owned_string("SCRAM bytes to str: ");
                let t = utf8_error_text(e);
                push_str(&mut out, t.as_str());
                return out;
            },
            AuthErr::Scram(e) => {
                let mut out = crate::text::to_owned_string("SCRAM state: ");
                let t = scram_error_text(e);
                push_str(&mut out, t.as_str());
                return out;
            },
            AuthErr::MissingToken => "\"authToken\" missing from server response",
        };
        crate::text::to_owned_string(s)
    }
}

/// A parameter `name=value` at `p`: a name of ASCII letters and digits, `=`,
/// and a value that runs to the next comma or the end.
pub open spec fn param_at(s: Seq<char>, p: int) -> Option<((Seq<char>, Seq<char>), int)> {
    match run1(s, p, Class::Alnum) {
        Some(e) => if char_at(s, e, '=') {
            let v = run_end(s, e + 1, Class::NotComma);
            Some(((span(s, p, e), span(s, e + 1, v)), v))
        } else {
            None
        },
        None => None,
    }
}

/// The parameters after those in `acc`, each after a comma and spaces, as far
/// as they go.
pub open spec fn params_rest(s: Seq<char>, p: int, acc: Seq<(Seq<char>, Seq<char>)>) -> Seq<(Seq<char>, Seq<char>)>
    decreases s.len() - p,
{
    if char_at(s, p, ',') {
        let q = run_end(s, p + 1, Class::Space);
        match param_at(s, q) {
            Some((it, e)) => if p < e <= s.len() { params_rest(s, e, acc.push(it)) } else { acc },
            None => acc,
        }
    } else {
        acc
    }
}

/// The parameters at `p`, at least one (what follows them is ignored).
pub open spec fn params_at(s: Seq<char>, p: int) -> Option<Seq<(Seq<char>, Seq<char>)>> {
    match param_at(s, p) {
        Some((it, e)) => if p < e <= s.len() { Some(params_rest(s, e, seq![it])) } else { None },
        None => None,
    }
}

/// The parameters of a header: after `SCRAM` or `scram` and spaces where
/// `scheme` holds, else from the start.
pub open spec fn header_params(s: Seq<char>, scheme: bool) -> Option<Seq<(Seq<char>, Seq<char>)>> {
    if scheme {
        if at(s, 0, "SCRAM"@) || at(s, 0, "scram"@) {
            match run1(s, 5, Class::Space) {
                Some(p) => params_at(s, p),
                None => None,
            }
        } else {
            None
        }
    } else {
        params_at(s, 0)
    }
}

/// The value of the last parameter named `k`, if any.
pub open spec fn param_value(ps: Seq<(Seq<char>, Seq<char>)>, k: Seq<char>) -> Option<Seq<char>>
    decreases ps.len(),
{
    if ps.len() == 0 {
        None
    } else if ps.last().0 == k {
        Some(ps.last().1)
    } else {
        param_value(ps.drop_last(), k)
    }
}

/// Whether the parameters read, `out`, are the stated ones `ps`.
pub open spec fn params_model(out: Seq<(String, String)>, ps: Seq<(Seq<char>, Seq<char>)>) -> bool {
    out.len() == ps.len() && forall|j: int| #![trigger out[j]] 0 <= j < out.len() ==> out[j].0@ == ps[j].0 && out[j].1@ == ps[j].1
}

/// The parameter at `p` (see `param_at`).
fn read_param(cs: &Vec<char>, p: usize) -> (r: Option<((String, String), usize)>)
    requires
        p <= cs@.len(),
    ensures
        match param_at(cs@, p as int) {
            Some(((k, v), e)) => r matches Some(((a, b), f)) && a@ == k && b@ == v && f == e && p < f <= cs@.len(),
            None => r is None,
        },
{
    let n = cs.len();
    match read_run1(cs, p, Class::Alnum) {
        Some(e) => {
            if char_is(cs, e, '=') {
                let v = scan(cs, e + 1, Class::NotComma);
                Some(((chars_slice_string(cs, p, e), chars_slice_string(cs, e + 1, v)), v))
            } else {
                None
            }
        },
        None => None,
    }
}

/// The parameters of a header (see `header_params`).
pub fn parse_params(header: &str, scheme: bool) -> (r: Option<Vec<(String, String)>>)
    ensures
        match header_params(header@, scheme) {
            Some(ps) => r matches Some(out) && params_model(out@, ps),
            None => r is None,
        },
{
    let cs = str_chars(header);
    let n = cs.len();
    let mut p: usize = 0;
    proof {
        reveal_strlit("SCRAM");
        reveal_strlit("scram");
    }
    if scheme {
        if !(tag(&cs, 0, "SCRAM") || tag(&cs, 0, "scram")) {
            return None;
        }
        match read_run1(&cs, 5, Class::Space) {
            Some(q) => {
                p = q;
            },
            None => {
                return None;
            },
        }
    }
    match read_param(&cs, p) {
        None => None,
        Some((it, e)) => {
            let ghost first = param_at(cs@, p as int).unwrap().0;
            let ghost mut ps = seq![first];
            let mut out: Vec<(String, String)> = Vec::new();
            out.push(it);
            let mut q = e;
            let mut more = true;
            assert(params_model(out@, ps)) by {
                assert(out@[0] == it);
            }
            while more
                invariant
                    n == cs@.len(),
                    p < e <= q <= cs@.len(),
                    params_rest(cs@, q as int, ps) == params_rest(cs@, e as int, seq![first]),
                    params_model(out@, ps),
                    !more ==> params_rest(cs@, q as int, ps) == ps,
                decreases cs@.len() - q + if more { 1int } else { 0int },
            {
                if char_is(&cs, q, ',') {
                    let q2 = scan(&cs, q + 1, Class::Space);
                    match read_param(&cs, q2) {
                        Some((it2, e2)) => {
                            let ghost m2 = param_at(cs@, q2 as int).unwrap().0;
                            proof {
                                assert(params_rest(cs@, q as int, ps) == params_rest(cs@, e2 as int, ps.push(m2)));
                                assert forall|j: int| 0 <= j < out@.len() + 1 implies #[trigger] out@.push(it2)[j].0@
                                    == ps.push(m2)[j].0 && out@.push(it2)[j].1@ == ps.push(m2)[j].1 by {
                                    if j < out@.len() {
                                        assert(out@.push(it2)[j] == out@[j]);
                                        assert(ps.push(m2)[j] == ps[j]);
                                    }
                                }
                            }
                            out.push(it2);
                            proof {
                                ps = ps.push(m2);
                            }
                            q = e2;
                        },
                        None => {
                            more = false;
                        },
                    }
                } else {
                    more = false;
                }
            }
            Some(out)
        },
    }
}

/// The value of the last parameter named `key`, if any (see `param_value`).
pub fn param<'p>(params: &'p Vec<(String, String)>, key: &str) -> (r: Option<&'p String>)
    ensures
        forall|ps: Seq<(Seq<char>, Seq<char>)>| params_model(params@, ps) ==> match param_value(ps, key@) {
            Some(v) => r matches Some(x) && x@ == v,
            None => r is None,
        },
{
    let mut i = params.len();
    assert forall|ps: Seq<(Seq<char>, Seq<char>)>| params_model(params@, ps) implies param_value(ps, key@)
        == param_value(ps.take(i as int), key@) by {
        assert(ps.take(i as int) == ps);
    }
    while i > 0
        invariant
            i <= params@.len(),
            forall|ps: Seq<(Seq<char>, Seq<char>)>| params_model(params@, ps) ==> param_value(ps, key@) == param_value(
                ps.take(i as int),
                key@,
            ),
        decreases i,
    {
        if str_eq(params[i - 1].0.as_str(), key) {
            proof {
                assert forall|ps: Seq<(Seq<char>, Seq<char>)>| params_model(params@, ps) implies param_value(
                    ps.take(i as int),
                    key@,
                ) == Some(params@[i - 1].1@) by {
                    assert(ps.take(i as int).last() == ps[i - 1]);
                    assert(params@[i - 1].0@ == ps[i - 1].0);
                }
            }
            return Some(&params[i - 1].1);
        }
        proof {
            assert forall|ps: Seq<(Seq<char>, Seq<char>)>| params_model(params@, ps) implies param_value(
                ps.take(i as int),
                key@,
            ) == param_value(ps.take(i - 1), key@) by {
                assert(ps.take(i as int).last() == ps[i - 1]);
                assert(params@[i - 1].0@ == ps[i - 1].0);
                assert(ps.take(i as int).drop_last() == ps.take(i - 1));
            }
        }
        i = i - 1;
    }
    proof {
        assert forall|ps: Seq<(Seq<char>, Seq<char>)>| params_model(params@, ps) implies param_value(ps.take(0), key@)
            is None by {
            assert(ps.take(0).len() == 0);
        }
    }
    None
}

/// The header that opens the handshake: `HELLO username=` and the base64 of
/// the username.
pub fn hello_header(username: &str) -> (r: String)
    ensures
        r@ == "HELLO username="@ + b64url(vstd::utf8::encode_utf8(username@)),
{
    let mut out = String::new();
    push_str(&mut out, "HELLO username=");
    let bytes = username.as_bytes();
    let enc = b64url_encode(bytes);
    push_str(&mut out, enc.as_str());
    out
}

/// The header that carries a client message: `SCRAM handshakeToken=`, the
/// server's token and `, data=` where the server gave a token, else `SCRAM
/// data=`; then the base64 of the message.
pub open spec fn scram_header_text(token: Option<Seq<char>>, message: Seq<char>) -> Seq<char> {
    match token {
        Some(t) => "SCRAM handshakeToken="@ + t + ", data="@ + b64url(vstd::utf8::encode_utf8(message)),
        None => "SCRAM data="@ + b64url(vstd::utf8::encode_utf8(message)),
    }
}

/// The header that carries `message` (see `scram_header_text`), with the
/// server's `handshakeToken` from `params` if it gave one.
pub fn scram_header(params: &Vec<(String, String)>, message: &str) -> (r: String)
    ensures
        forall|ps: Seq<(Seq<char>, Seq<char>)>| params_model(params@, ps) ==> r@ == scram_header_text(
            param_value(ps, "handshakeToken"@),
            message@,
        ),
{
    let bytes = message.as_bytes();
    let enc = b64url_encode(bytes);
    let mut out = String::new();
    match param(params, "handshakeToken") {
        Some(t) => {
            push_str(&mut out, "SCRAM handshakeToken=");
            push_str(&mut out, t.as_str());
            push_str(&mut out, ", data=");
            push_str(&mut out, enc.as_str());
        },
        None => {
            push_str(&mut out, "SCRAM data=");
            push_str(&mut out, enc.as_str());
        },
    }
    out
}

/// The server message a `data` parameter carries: base64 of UTF-8 text.
pub open spec fn server_message(params: Seq<(Seq<char>, Seq<char>)>) -> Option<Seq<char>> {
    match param_value(params, "data"@) {
        Some(d) => match b64url_decoding(d) {
            Some(bytes) => if vstd::utf8::valid_utf8(bytes) { Some(vstd::utf8::decode_utf8(bytes)) } else { None },
            None => None,
        },
        None => None,
    }
}

/// The server message that the `data` parameter carries (see `server_message`).
pub fn data_message(params: &Vec<(String, String)>) -> (r: Result<String, AuthErr>)
    ensures
        forall|ps: Seq<(Seq<char>, Seq<char>)>| params_model(params@, ps) ==> match r {
            Ok(m) => server_message(ps) == Some(m@),
            Err(AuthErr::MissingData) => param_value(ps, "data"@) is None,
            Err(AuthErr::Decode(_, p)) => param_value(ps, "data"@) matches Some(d) && b64url_decoding(d) is None
                && p@ == d,
            Err(AuthErr::NotText(_)) => param_value(ps, "data"@) matches Some(d) && b64url_decoding(d) matches Some(
                b,
            ) && !vstd::utf8::valid_utf8(b),
            Err(_) => false,
        },
{
    let data = match param(params, "data") {
        Some(d) => d,
        None => {
            return Err(AuthErr::MissingData);
        },
    };
    let bytes = match b64url_decode(data.as_str()) {
        Ok(b) => b,
        Err(e) => {
            return Err(AuthErr::Decode(e, crate::text::to_owned_string(data.as_str())));
        },
    };
    match utf8_string(bytes) {
        Ok(s) => Ok(s),
        Err(e) => Err(AuthErr::NotText(e)),
    }
}

/// Whether the parameters offer SHA-256: a `hash` parameter whose last value
/// is `SHA-256`.
pub open spec fn offers_sha256(params: Seq<(Seq<char>, Seq<char>)>) -> bool {
    param_value(params, "hash"@) == Some("SHA-256"@)
}

/// The first step: from the server's answer to `HELLO` (its
/// `www-authenticate` header), a new handshake and the header of the first
/// client message. Fails where the header is missing or does not read,
/// where the server does not offer SHA-256, and nowhere else.
pub fn auth_first<'a>(username: &'a str, password: &'a str, www_authenticate: Option<&str>) -> (r: Result<(scram::client::ServerFirst<'a>, String), AuthErr>)
    ensures
        www_authenticate is None ==> r matches Err(AuthErr::MissingAuthenticate),
        www_authenticate matches Some(h) ==> match header_params(h@, true) {
            None => r matches Err(AuthErr::BadHeader),
            Some(ps) => if offers_sha256(ps) {
                r matches Ok((st, header)) && scram_state_password(st) == password@ && scram_gs2_b64(st) == "biws"@ && exists|m: Seq<char>| m.len() == username@.len() + 32 && m.take(
                    username@.len() + 8int,
                ) == "n,,n="@ + username@ + ",r="@ && #[trigger] scram_header_text(
                    param_value(ps, "handshakeToken"@),
                    m,
                ) == header@
            } else {
                r matches Err(AuthErr::HashNotSupported)
            },
        },
{
    let h = match www_authenticate {
        Some(h) => h,
        None => {
            return Err(AuthErr::MissingAuthenticate);
        },
    };
    let params = match parse_params(h, true) {
        Some(ps) => ps,
        None => {
            return Err(AuthErr::BadHeader);
        },
    };
    let ok = match param(&params, "hash") {
        Some(v) => str_eq(v.as_str(), "SHA-256"),
        None => false,
    };
    if !ok {
        return Err(AuthErr::HashNotSupported);
    }
    let (state, first) = scram_client_first(username, password);
    proof {
        reveal_strlit("n,,n=");
        reveal_strlit(",r=");
    }
    let header = scram_header(&params, first.as_str());
    Ok((state, header))
}


/// The second step: from the server's answer to the first client message
/// (its `www-authenticate` header), the handshake's last state and the header
/// of the final client message. Fails where the header is missing or does
/// not read, where it carries no server message or one that the handshake
/// cannot read, and where the handshake refuses the server message.
pub fn auth_final(state: scram::client::ServerFirst<'_>, www_authenticate: Option<&str>) -> (r: Result<(scram::client::ServerFinal, String), AuthErr>)
    ensures
        www_authenticate is None ==> r matches Err(AuthErr::MissingAuthenticate),
        www_authenticate matches Some(h) ==> match header_params(h@, true) {
            None => r matches Err(AuthErr::BadHeader),
            Some(ps) => match server_message(ps) {
                None => r matches Err(e) && (e is MissingData || e is Decode || e is NotText),
                Some(msg) => if !server_first_readable(msg) {
                    r matches Err(AuthErr::BadHeader)
                } else {
                    &&& (r is Ok) == scram_first_accepts(state, msg)
                    &&& (r is Err ==> r matches Err(AuthErr::Scram(_)))
                    &&& (r is Ok ==> scram_client_proof(state, msg).len() == 44)
                    &&& (r matches Ok((f, header)) ==> f == scram_final_state(state, msg) && header@
                        == scram_header_text(
                        param_value(ps, "handshakeToken"@),
                        "c="@ + scram_gs2_b64(state) + ",r="@ + server_nonce(msg) + ",p="@
                            + scram_client_proof(state, msg),
                    ))
                },
            },
        },
        r matches Err(e) ==> !(e is MissingAuthenticationInfo) && !(e is HashNotSupported) && !(e is MissingToken),
{
    let h = match www_authenticate {
        Some(h) => h,
        None => {
            return Err(AuthErr::MissingAuthenticate);
        },
    };
    let params = match parse_params(h, true) {
        Some(ps) => ps,
        None => {
            return Err(AuthErr::BadHeader);
        },
    };
    let message = match data_message(&params) {
        Ok(m) => m,
        Err(e) => {
            return Err(e);
        },
    };
    if !first_message_readable(message.as_str()) {
        return Err(AuthErr::BadHeader);
    }
    match scram_client_final(state, message.as_str()) {
        Ok((server_final, final_message)) => {
            let header = scram_header(&params, final_message.as_str());
            Ok((server_final, header))
        },
        Err(e) => Err(AuthErr::Scram(e)),
    }
}

/// The header that carries the session's token: `BEARER authToken=` and the token.
pub open spec fn bearer_text(token: Seq<char>) -> Seq<char> {
    "BEARER authToken="@ + token
}

/// The last step: from the server's answer to the final client message (its
/// `authentication-info` header, parameters without a scheme), the header
/// that carries the session's token. Fails where the header is missing or
/// does not read, where it carries no server message or one that the
/// handshake cannot read, where the handshake does not accept the server's
/// proof, and where no token is given.
pub fn auth_done(state: scram::client::ServerFinal, authentication_info: Option<&str>) -> (r: Result<String, AuthErr>)
    ensures
        authentication_info is None ==> r matches Err(AuthErr::MissingAuthenticationInfo),
        authentication_info matches Some(h) ==> match header_params(h@, false) {
            None => r matches Err(AuthErr::BadHeader),
            Some(ps) => match server_message(ps) {
                None => r matches Err(e) && (e is MissingData || e is Decode || e is NotText),
                Some(msg) => if !server_final_readable(msg) {
                    r matches Err(AuthErr::BadHeader)
                } else if !scram_final_accepts(state, msg) {
                    r matches Err(AuthErr::Scram(_))
                } else {
                    match param_value(ps, "authToken"@) {
                        Some(t) => r matches Ok(b) && b@ == bearer_text(t),
                        None => r matches Err(AuthErr::MissingToken),
                    }
                },
            },
        },
{
    let h = match authentication_info {
        Some(h) => h,
        None => {
            return Err(AuthErr::MissingAuthenticationInfo);
        },
    };
    let params = match parse_params(h, false) {
        Some(ps) => ps,
        None => {
            return Err(AuthErr::BadHeader);
        },
    };
    let message = match data_message(&params) {
        Ok(m) => m,
        Err(e) => {
            return Err(e);
        },
    };
    if !final_message_readable(message.as_str()) {
        return Err(AuthErr::BadHeader);
    }
    match scram_server_final(state, message.as_str()) {
        Ok(()) => {},
        Err(e) => {
            return Err(AuthErr::Scram(e));
        },
    }
    match param(&params, "authToken") {
        Some(t) => {
            let mut out = String::new();
            push_str(&mut out, "BEARER authToken=");
            push_str(&mut out, t.as_str());
            Ok(out)
        },
        None => Err(AuthErr::MissingToken),
    }
}

/// The end of the input: succeeds, giving the input back twice, only on the
/// empty text.
pub fn eof(input: &str) -> (r: Result<(&str, &str), crate::io::parse::values::ParseErr>)
    ensures
        (r is Ok) == (input@.len() == 0),
        r matches Ok((a, b)) ==> a@ == input@ && b@ == input@,
        r matches Err(e) ==> e == crate::io::parse::values::ParseErr::NoMatch,
{
    if str_chars(input).len() == 0 {
        Ok((input, input))
    } else {
        Err(crate::io::parse::values::ParseErr::NoMatch)
    }
}

} // verus!
