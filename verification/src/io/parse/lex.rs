//! Scanning characters: the lexical pieces of the Zinc grammar, over a text
//! held as a vector of characters and a position in it.
use vstd::prelude::*;
use crate::text::str_chars;
use crate::common::is_unicode_char;

verus! {

/// Whether the characters `t` stand in `s` at position `p`.
pub open spec fn at(s: Seq<char>, p: int, t: Seq<char>) -> bool {
    0 <= p && p + t.len() <= s.len() && s.subrange(p, p + t.len()) == t
}

/// Whether `s` holds the character `c` at position `p`.
pub open spec fn char_at(s: Seq<char>, p: int, c: char) -> bool {
    0 <= p < s.len() && s[p] == c
}

/// Whether the characters `t` stand in `s` at position `p`.
pub fn tag(cs: &Vec<char>, p: usize, t: &str) -> (r: bool)
    ensures
        r == at(cs@, p as int, t@),
{
    let tc = str_chars(t);
    if tc.len() > cs.len() || p > cs.len() - tc.len() {
        return false;
    }
    let n = cs.len();
    let mut i: usize = 0;
    while i < tc.len()
        invariant
            n == cs@.len(),
            tc@ == t@,
            p + tc@.len() <= cs@.len(),
            i <= tc@.len(),
            forall|j: int| 0 <= j < i ==> cs@[p + j] == tc@[j],
        decreases tc@.len() - i,
    {
        if cs[p + i] != tc[i] {
            assert(cs@.subrange(p as int, p + tc@.len())[i as int] != t@[i as int]);
            return false;
        }
        i = i + 1;
    }
    assert(cs@.subrange(p as int, p + tc@.len()) == t@);
    true
}

/// Whether `s` holds the character `c` at position `p`.
pub fn char_is(cs: &Vec<char>, p: usize, c: char) -> (r: bool)
    ensures
        r == char_at(cs@, p as int, c),
{
    p < cs.len() && cs[p] == c
}

/// The classes of characters that the grammar scans runs of.
#[derive(Clone, Copy, PartialEq, Eq, Structural, Debug)]
pub enum Class {
    /// `0`-`9`.
    Digit,
    /// `a`-`z`.
    Lower,
    /// ASCII letters and digits, and `_`.
    Word,
    /// The characters of a reference: ASCII letters and digits, `_ : - . ~`.
    RefChar,
    /// A space or a tab.
    Space,
    /// The characters of a unit (see `is_unit_char`).
    Unit,
    /// `A`-`Z`.
    Upper,
    /// The characters after the first of a time zone name: those whose
    /// lowest byte is an ASCII letter or digit, and `/ - _ +`.
    TzTail,
    /// The characters that may stand unescaped in a string literal.
    StrPlain,
    /// The characters that may stand unescaped in a URI literal.
    UriPlain,
    /// A line feed.
    Newline,
    /// ASCII letters and digits.
    Alnum,
    /// Any character but a comma.
    NotComma,
}

/// Whether `c` is an ASCII digit.
pub open spec fn is_digit(c: char) -> bool {
    '0' <= c <= '9'
}

/// Whether `c` is an ASCII letter or digit.
pub open spec fn is_alnum(c: char) -> bool {
    ('a' <= c <= 'z') || ('A' <= c <= 'Z') || is_digit(c)
}

/// Whether the byte `b` is an ASCII letter or digit.
pub open spec fn is_alnum_byte(b: int) -> bool {
    (97 <= b <= 122) || (65 <= b <= 90) || (48 <= b <= 57)
}

/// Whether `c` belongs to the class `k`.
pub open spec fn in_class(k: Class, c: char) -> bool {
    match k {
        Class::Digit => is_digit(c),
        Class::Lower => 'a' <= c <= 'z',
        Class::Word => is_alnum(c) || c == '_',
        Class::RefChar => is_alnum(c) || c == '_' || c == ':' || c == '-' || c == '.' || c == '~',
        Class::Space => c == ' ' || c == '\t',
        Class::Unit => crate::common::is_unit_char(c),
        Class::Upper => 'A' <= c <= 'Z',
        Class::TzTail => is_alnum_byte((c as int) % 256) || c == '/' || c == '-' || c == '_' || c == '+',
        Class::StrPlain => is_unicode_char('"', c),
        Class::UriPlain => is_unicode_char('`', c),
        Class::Newline => c == '\n',
        Class::Alnum => is_alnum(c),
        Class::NotComma => c != ',',
    }
}

/// Whether `c` belongs to the class `k`.
pub fn class_has(k: Class, c: char) -> (r: bool)
    ensures
        r == in_class(k, c),
{
    match k {
        Class::Digit => '0' <= c && c <= '9',
        Class::Lower => 'a' <= c && c <= 'z',
        Class::Word => ('a' <= c && c <= 'z') || ('A' <= c && c <= 'Z') || ('0' <= c && c <= '9') || c == '_',
        Class::RefChar => ('a' <= c && c <= 'z') || ('A' <= c && c <= 'Z') || ('0' <= c && c <= '9') || c == '_'
            || c == ':' || c == '-' || c == '.' || c == '~',
        Class::Space => c == ' ' || c == '\t',
        Class::Unit => crate::io::parse::is_unit(c),
        Class::Upper => 'A' <= c && c <= 'Z',
        Class::TzTail => {
            let b: u32 = (c as u32) % 256;
            (97 <= b && b <= 122) || (65 <= b && b <= 90) || (48 <= b && b <= 57) || c == '/' || c == '-' || c
                == '_' || c == '+'
        },
        Class::StrPlain => c >= ' ' && c != '\\' && c != '"',
        Class::UriPlain => c >= ' ' && c != '\\' && c != '`',
        Class::Newline => c == '\n',
        Class::Alnum => ('a' <= c && c <= 'z') || ('A' <= c && c <= 'Z') || ('0' <= c && c <= '9'),
        Class::NotComma => c != ',',
    }
}

/// The end of the longest run of characters of class `k` in `s` from `p`.
pub open spec fn run_end(s: Seq<char>, p: int, k: Class) -> int
    decreases s.len() - p,
{
    if 0 <= p < s.len() && in_class(k, s[p]) {
        run_end(s, p + 1, k)
    } else {
        p
    }
}

/// The run ends no earlier than it starts and no later than the text; every
/// character in it is of the class, and the one after it, if any, is not.
pub proof fn lemma_run_end(s: Seq<char>, p: int, k: Class)
    requires
        0 <= p <= s.len(),
    ensures
        p <= run_end(s, p, k) <= s.len(),
        forall|j: int| p <= j < run_end(s, p, k) ==> in_class(k, #[trigger] s[j]),
        run_end(s, p, k) < s.len() ==> !in_class(k, s[run_end(s, p, k)]),
    decreases s.len() - p,
{
    if p < s.len() && in_class(k, s[p]) {
        lemma_run_end(s, p + 1, k);
    }
}

/// The end of the longest run of characters of class `k` from `p`.
pub fn scan(cs: &Vec<char>, p: usize, k: Class) -> (r: usize)
    requires
        p <= cs@.len(),
    ensures
        r == run_end(cs@, p as int, k),
        p <= r <= cs@.len(),
{
    let mut q = p;
    while q < cs.len() && class_has(k, cs[q])
        invariant
            p <= q <= cs@.len(),
            run_end(cs@, p as int, k) == run_end(cs@, q as int, k),
        decreases cs@.len() - q,
    {
        q = q + 1;
    }
    q
}

/// The value of a text of decimal digits.
pub open spec fn digits_val(t: Seq<char>) -> int
    decreases t.len(),
{
    if t.len() == 0 {
        0
    } else {
        digits_val(t.drop_last()) * 10 + (t.last() as int - '0' as int)
    }
}

/// Whether every character of `t` is a decimal digit.
pub open spec fn all_digits(t: Seq<char>) -> bool {
    forall|i: int| 0 <= i < t.len() ==> is_digit(#[trigger] t[i])
}

/// The value that `from_str_radix` in base 10 gives the text `t`: an optional
/// `+` (or `-` where `signed`), then at least one digit and nothing else.
/// Overflow is left to the caller.
pub open spec fn radix10(t: Seq<char>, signed: bool) -> Option<int> {
    if t.len() > 0 && t[0] == '+' {
        let d = t.drop_first();
        if d.len() > 0 && all_digits(d) { Some(digits_val(d)) } else { None }
    } else if signed && t.len() > 0 && t[0] == '-' {
        let d = t.drop_first();
        if d.len() > 0 && all_digits(d) { Some(-digits_val(d)) } else { None }
    } else if t.len() > 0 && all_digits(t) {
        Some(digits_val(t))
    } else {
        None
    }
}

/// The value of digits is not negative and grows with each digit.
pub proof fn lemma_digits_val_step(t: Seq<char>, k: int)
    requires
        0 <= k < t.len(),
        all_digits(t),
    ensures
        digits_val(t.take(k + 1)) == digits_val(t.take(k)) * 10 + (t[k] as int - '0' as int),
        digits_val(t.take(k)) >= 0,
    decreases k,
{
    assert(t.take(k + 1).drop_last() == t.take(k));
    if k > 0 {
        lemma_digits_val_step(t, k - 1);
    }
}

/// The value of the digits `cs[from..to]`, if it fits in a `u64`.
pub fn digits_value(cs: &Vec<char>, from: usize, to: usize) -> (r: Option<u64>)
    requires
        from <= to <= cs@.len(),
        all_digits(cs@.subrange(from as int, to as int)),
    ensures
        match r {
            Some(v) => v == digits_val(cs@.subrange(from as int, to as int)),
            None => digits_val(cs@.subrange(from as int, to as int)) > u64::MAX,
        },
{
    let ghost t = cs@.subrange(from as int, to as int);
    let mut acc: u64 = 0;
    let mut i = from;
    assert(t.take(0) == Seq::<char>::empty());
    while i < to
        invariant
            from <= i <= to <= cs@.len(),
            t == cs@.subrange(from as int, to as int),
            all_digits(t),
            acc == digits_val(t.take(i - from)),
        decreases to - i,
    {
        proof {
            lemma_digits_val_step(t, i - from);
            assert(t[i - from] == cs@[i as int]);
        }
        let d = (cs[i] as u32 - '0' as u32) as u64;
        if acc > (u64::MAX - d) / 10 {
            proof {
                assert(acc * 10 + d > u64::MAX) by (nonlinear_arith)
                    requires
                        acc > (u64::MAX - d) / 10,
                        d <= 9,
                ;
                lemma_digits_grow(t, i - from + 1);
            }
            return None;
        }
        acc = acc * 10 + d;
        i = i + 1;
    }
    assert(t.take(to - from) == t);
    Some(acc)
}

/// The value of the digits of a text is at least that of any prefix of them.
pub proof fn lemma_digits_grow(t: Seq<char>, k: int)
    requires
        0 <= k <= t.len(),
        all_digits(t),
    ensures
        digits_val(t.take(k)) <= digits_val(t),
    decreases t.len() - k,
{
    if k < t.len() {
        lemma_digits_val_step(t, k);
        lemma_digits_grow(t, k + 1);
    } else {
        assert(t.take(k) == t);
    }
}

/// The value `from_str_radix` in base 10 gives `cs[from..to]` as an `i32`
/// (`signed`) or a `u32`, if it accepts the text.
pub fn radix10_value(cs: &Vec<char>, from: usize, to: usize, signed: bool) -> (r: Option<i64>)
    requires
        from <= to <= cs@.len(),
    ensures
        match radix10(cs@.subrange(from as int, to as int), signed) {
            Some(v) => if (signed && i32::MIN <= v <= i32::MAX) || (!signed && 0 <= v <= u32::MAX) {
                r == Some(v as i64)
            } else {
                r is None
            },
            None => r is None,
        },
{
    let ghost t = cs@.subrange(from as int, to as int);
    if from == to {
        return None;
    }
    let mut start = from;
    let mut neg = false;
    if cs[from] == '+' {
        start = from + 1;
    } else if signed && cs[from] == '-' {
        start = from + 1;
        neg = true;
    }
    if start == to {
        return None;
    }
    let e = scan(cs, start, Class::Digit);
    proof {
        lemma_run_end(cs@, start as int, Class::Digit);
    }
    if e < to {
        proof {
            let d = cs@.subrange(start as int, to as int);
            assert(!is_digit(d[e - start]));
            if start > from {
                assert(t.drop_first() == d);
            } else {
                assert(t == d);
            }
        }
        return None;
    }
    let ghost d = cs@.subrange(start as int, to as int);
    assert(all_digits(d)) by {
        assert forall|i: int| 0 <= i < d.len() implies is_digit(#[trigger] d[i]) by {
            assert(d[i] == cs@[start + i]);
        }
    }
    proof {
        if start > from {
            assert(t.drop_first() == d);
        } else {
            assert(t == d);
        }
    }
    match digits_value(cs, start, to) {
        Some(v) => {
            if neg {
                if v <= 2147483648 {
                    Some(-(v as i64))
                } else {
                    None
                }
            } else if signed {
                if v <= 2147483647 {
                    Some(v as i64)
                } else {
                    None
                }
            } else {
                if v <= 4294967295 {
                    Some(v as i64)
                } else {
                    None
                }
            }
        },
        None => None,
    }
}

} // verus!
