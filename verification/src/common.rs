//! Character escaping shared by the Zinc, Trio and JSON writers, the text
//! constants holder `Txt`, and the character classes of the Zinc grammar.
use vstd::prelude::*;
use vstd::string::*;
use crate::text::{push_char, push_hex_padded, str_chars, pad_left, hex};

verus! {

/// A piece of text that is either borrowed or owned.
#[derive(Debug, PartialEq)]
pub enum Txt<'a> {
    Const(&'a str),
    Owned(String),
}

impl<'a> Txt<'a> {
    /// The characters of the text.
    pub open spec fn view(&self) -> Seq<char> {
        match self {
            Txt::Const(s) => s@,
            Txt::Owned(s) => s@,
        }
    }

    /// The UTF-8 bytes of the text.
    pub open spec fn bytes(&self) -> Seq<u8> {
        vstd::utf8::encode_utf8(self@)
    }

    /// The text as a string slice.
    pub fn as_str(&self) -> (r: &str)
        ensures
            r@ == self@,
            r.spec_bytes() == self.bytes(),
    {
        match self {
            Txt::Const(s) => s,
            Txt::Owned(s) => s.as_str(),
        }
    }

    /// The text as a new `String` (its display text).
    pub fn to_string(&self) -> (r: String)
        ensures
            r@ == self@,
    {
        crate::text::to_owned_string(self.as_str())
    }

    /// The characters of the text, in order.
    pub fn chars(&self) -> (r: Vec<char>)
        ensures
            r@ == self@,
    {
        str_chars(self.as_str())
    }

    /// The length of the text in bytes (as `str::len`).
    pub fn len(&self) -> (r: usize)
        ensures
            r == self.bytes().len() as usize,
    {
        self.as_str().len()
    }

    /// The byte offset of the first occurrence of `pat`, if any (as `str::find`).
    pub fn find(&self, pat: &str) -> (r: Option<usize>)
        ensures
            r == first_occurrence(self.bytes(), pat.spec_bytes()),
    {
        str_find(self.as_str(), pat)
    }
}

/// Whether `pat` occurs in `s` starting at byte `i`.
pub open spec fn occurs_at(s: Seq<u8>, pat: Seq<u8>, i: int) -> bool {
    0 <= i && i + pat.len() <= s.len() && s.subrange(i, i + pat.len()) == pat
}

/// The smallest byte index at which `pat` occurs in `s`, if it occurs at all.
pub open spec fn first_occurrence(s: Seq<u8>, pat: Seq<u8>) -> Option<usize> {
    if exists|i: int| occurs_at(s, pat, i) {
        let i = choose|i: int| occurs_at(s, pat, i) && forall|j: int| 0 <= j < i ==> !occurs_at(s, pat, j);
        Some(i as usize)
    } else {
        None
    }
}

/// Whether the bytes of `sb` from `i` on start with the bytes of `pb`.
fn bytes_match_at(sb: &[u8], pb: &[u8], i: usize) -> (r: bool)
    requires
        i + pb@.len() <= sb@.len(),
    ensures
        r == occurs_at(sb@, pb@, i as int),
{
    let m = pb.len();
    let n = sb.len();
    let mut k: usize = 0;
    while k < m
        invariant
            k <= m,
            m == pb@.len(),
            n == sb@.len(),
            i + m <= n,
            forall|t: int| 0 <= t < k ==> sb@[i + t] == pb@[t],
        decreases m - k,
    {
        if sb[i + k] != pb[k] {
            proof {
                assert(sb@.subrange(i as int, i + m)[k as int] != pb@[k as int]);
            }
            return false;
        }
        k = k + 1;
    }
    proof {
        assert(sb@.subrange(i as int, i + m) =~= pb@);
    }
    true
}

/// The first occurrence of `pat` in `s` is at `i` where it occurs at `i` and
/// nowhere before.
proof fn lemma_first_occurrence(s: Seq<u8>, pat: Seq<u8>, i: int)
    requires
        occurs_at(s, pat, i),
        forall|j: int| 0 <= j < i ==> !occurs_at(s, pat, j),
    ensures
        first_occurrence(s, pat) == Some(i as usize),
{
    let c = choose|c: int| occurs_at(s, pat, c) && forall|j: int| 0 <= j < c ==> !occurs_at(s, pat, j);
    assert(occurs_at(s, pat, c) && forall|j: int| 0 <= j < c ==> !occurs_at(s, pat, j));
    if c < i {
        assert(!occurs_at(s, pat, c));
    }
    if i < c {
        assert(!occurs_at(s, pat, i));
    }
}

/// The byte index of the first occurrence of `pat` in `s`, as `str::find`
/// gives it for a string pattern.
fn str_find(s: &str, pat: &str) -> (r: Option<usize>)
    ensures
        r == first_occurrence(s.spec_bytes(), pat.spec_bytes()),
{
    let sb = s.as_bytes();
    let pb = pat.as_bytes();
    let n = sb.len();
    let m = pb.len();
    if m > n {
        proof {
            assert(!exists|i: int| occurs_at(sb@, pb@, i));
        }
        return None;
    }
    let mut i: usize = 0;
    loop
        invariant
            i <= n - m,
            n == sb@.len(),
            m == pb@.len(),
            sb@ == s.spec_bytes(),
            pb@ == pat.spec_bytes(),
            forall|j: int| 0 <= j < i ==> !occurs_at(sb@, pb@, j),
        decreases n - m - i,
    {
        if bytes_match_at(sb, pb, i) {
            proof {
                lemma_first_occurrence(sb@, pb@, i as int);
            }
            return Some(i);
        }
        if i == n - m {
            proof {
                assert forall|j: int| !occurs_at(sb@, pb@, j) by {
                    if 0 <= j < i {
                    }
                }
            }
            return None;
        }
        i = i + 1;
    }
}

/// The four-or-more digit lower-case hexadecimal code of a character, as
/// written after `\u` by the escaping functions.
pub open spec fn hex4(c: char) -> Seq<char> {
    pad_left(hex(c as nat), 4, '0')
}

/// The Zinc escape of one character of a string literal.
pub open spec fn zinc_escape_char(c: char) -> Seq<char> {
    if c < ' ' || c == '"' || c == '\\' || c == '$' {
        if c == '\x08' { seq!['\\', 'b'] }
        else if c == '\x0C' { seq!['\\', 'f'] }
        else if c == '\n' { seq!['\\', 'n'] }
        else if c == '\r' { seq!['\\', 'r'] }
        else if c == '\t' { seq!['\\', 't'] }
        else if c == '\\' || c == '"' || c == '$' { seq!['\\', c] }
        else { seq!['\\', 'u'] + hex4(c) }
    } else {
        seq![c]
    }
}

/// The escape of one character used by the JSON writer, which leaves
/// non-ASCII characters as they are.
pub open spec fn plain_escape_char(c: char) -> Seq<char> {
    if c < ' ' || c == '"' || c == '\\' {
        if c == '\n' { seq!['\\', 'n'] }
        else if c == '\r' { seq!['\\', 'r'] }
        else if c == '\t' { seq!['\\', 't'] }
        else if c == '"' { seq!['\\', '"'] }
        else if c == '\\' { seq!['\\', '\\'] }
        else { seq!['\\', 'u'] + hex4(c) }
    } else {
        seq![c]
    }
}

/// Like `plain_escape_char`, but also escapes every character above U+007F.
pub open spec fn unicode_escape_char(c: char) -> Seq<char> {
    if c < ' ' || c == '"' || c == '\\' {
        plain_escape_char(c)
    } else if c > '\x7F' {
        seq!['\\', 'u'] + hex4(c)
    } else {
        seq![c]
    }
}

/// The Zinc escape of a whole string.
pub open spec fn zinc_escaped(s: Seq<char>) -> Seq<char>
    decreases s.len(),
{
    if s.len() == 0 { seq![] } else { zinc_escaped(s.drop_last()) + zinc_escape_char(s.last()) }
}

/// The JSON-writer escape of a whole string.
pub open spec fn plain_escaped(s: Seq<char>) -> Seq<char>
    decreases s.len(),
{
    if s.len() == 0 { seq![] } else { plain_escaped(s.drop_last()) + plain_escape_char(s.last()) }
}

fn push_unicode_escape(c: char, buf: &mut String)
    ensures
        final(buf)@ == old(buf)@ + seq!['\\', 'u'] + hex4(c),
{
    push_char(buf, '\\');
    push_char(buf, 'u');
    let code: u32 = c as u32;
    push_hex_padded(buf, code as u64, 4);
}

/// Writes the Zinc escape of `c` to `buf`.
pub fn zinc_escape_str(c: char, buf: &mut String) -> (r: core::fmt::Result)
    ensures
        r is Ok,
        final(buf)@ == old(buf)@ + zinc_escape_char(c),
{
    if c < ' ' || c == '"' || c == '\\' || c == '$' {
        if c == '\x08' {
            push_char(buf, '\\');
            push_char(buf, 'b');
        } else if c == '\x0C' {
            push_char(buf, '\\');
            push_char(buf, 'f');
        } else if c == '\n' {
            push_char(buf, '\\');
            push_char(buf, 'n');
        } else if c == '\r' {
            push_char(buf, '\\');
            push_char(buf, 'r');
        } else if c == '\t' {
            push_char(buf, '\\');
            push_char(buf, 't');
        } else if c == '\\' || c == '"' || c == '$' {
            push_char(buf, '\\');
            push_char(buf, c);
        } else {
            push_unicode_escape(c, buf);
        }
    } else {
        push_char(buf, c);
    }
    Ok(())
}

/// Writes the JSON-writer escape of `c` to `buf`; non-ASCII characters are kept.
pub fn escape_str_no_escape_unicode(c: char, buf: &mut String) -> (r: core::fmt::Result)
    ensures
        r is Ok,
        final(buf)@ == old(buf)@ + plain_escape_char(c),
{
    if c < ' ' || c == '"' || c == '\\' {
        if c == '\n' {
            push_char(buf, '\\');
            push_char(buf, 'n');
        } else if c == '\r' {
            push_char(buf, '\\');
            push_char(buf, 'r');
        } else if c == '\t' {
            push_char(buf, '\\');
            push_char(buf, 't');
        } else if c == '"' {
            push_char(buf, '\\');
            push_char(buf, '"');
        } else if c == '\\' {
            push_char(buf, '\\');
            push_char(buf, '\\');
        } else {
            push_unicode_escape(c, buf);
        }
    } else {
        push_char(buf, c);
    }
    Ok(())
}

/// Writes the escape of `c` to `buf`, escaping every character above U+007F.
pub fn escape_str_escape_unicode(c: char, buf: &mut String) -> (r: core::fmt::Result)
    ensures
        r is Ok,
        final(buf)@ == old(buf)@ + unicode_escape_char(c),
{
    if c < ' ' || c == '"' || c == '\\' {
        escape_str_no_escape_unicode(c, buf)
    } else {
        if c > '\x7F' {
            push_unicode_escape(c, buf);
        } else {
            push_char(buf, c);
        }
        Ok(())
    }
}

/// Writes the Zinc escape of every character of `s` to `buf`.
pub fn zinc_escape_all(s: &str, buf: &mut String)
    ensures
        final(buf)@ == old(buf)@ + zinc_escaped(s@),
{
    let cs = str_chars(s);
    let ghost start = buf@;
    let mut i: usize = 0;
    while i < cs.len()
        invariant
            i <= cs.len(),
            cs@ == s@,
            buf@ == start + zinc_escaped(cs@.take(i as int)),
        decreases cs.len() - i,
    {
        let _ = zinc_escape_str(cs[i], buf);
        assert(cs@.take(i + 1).drop_last() == cs@.take(i as int));
        i = i + 1;
    }
    assert(cs@.take(cs.len() as int) == cs@);
}

/// Writes the JSON-writer escape of every character of `s` to `buf`.
pub fn plain_escape_all(s: &str, buf: &mut String)
    ensures
        final(buf)@ == old(buf)@ + plain_escaped(s@),
{
    let cs = str_chars(s);
    let ghost start = buf@;
    let mut i: usize = 0;
    while i < cs.len()
        invariant
            i <= cs.len(),
            cs@ == s@,
            buf@ == start + plain_escaped(cs@.take(i as int)),
        decreases cs.len() - i,
    {
        let _ = escape_str_no_escape_unicode(cs[i], buf);
        assert(cs@.take(i + 1).drop_last() == cs@.take(i as int));
        i = i + 1;
    }
    assert(cs@.take(cs.len() as int) == cs@);
}

/// Whether `c` may appear unescaped inside a literal delimited by `ex`.
pub open spec fn is_unicode_char(ex: char, c: char) -> bool {
    c >= ' ' && c != '\\' && c != ex
}

/// The predicate on characters that may appear unescaped inside a literal
/// delimited by `ex`: printable, not a backslash and not `ex` itself.
pub fn unicode_char(ex: char) -> (f: impl Fn(char) -> bool)
    ensures
        forall|c: char| #[trigger] f.requires((c,)),
        forall|c: char, b: bool| f.ensures((c,), b) ==> b == is_unicode_char(ex, c),
{
    move |c: char| -> (b: bool)
        ensures
            b == is_unicode_char(ex, c),
        { c >= ' ' && c != '\\' && c != ex }
}

/// Whether `c` may appear in the unit of a Zinc number.
pub open spec fn is_unit_char(c: char) -> bool {
    ('a' <= c <= 'z') || ('A' <= c <= 'Z') || c >= '\u{80}' || c == '%' || c == '_' || c == '/'
        || c == '$'
}

} // verus!
