//! Small building blocks for producing and reading text: appending to a
//! `String`, rendering integers in decimal and hexadecimal, and viewing a
//! `&str` as a vector of characters.
use vstd::prelude::*;
use vstd::string::*;

verus! {

/// Appends one character to `buf` (`String::push`).
#[verifier::external_body]
pub(crate) fn push_char(buf: &mut String, c: char)
    ensures
        final(buf)@ == old(buf)@.push(c),
{
    buf.push(c);
}

/// Appends a string slice to `buf`.
pub fn push_str(buf: &mut String, s: &str)
    ensures
        final(buf)@ == old(buf)@ + s@,
{
    buf.append(s);
}

/// Appends every character of `cs` to `buf`.
pub fn push_chars(buf: &mut String, cs: &Vec<char>)
    ensures
        final(buf)@ == old(buf)@ + cs@,
{
    let ghost start = buf@;
    let mut i: usize = 0;
    while i < cs.len()
        invariant
            i <= cs.len(),
            buf@ == start + cs@.take(i as int),
        decreases cs.len() - i,
    {
        push_char(buf, cs[i]);
        assert(cs@.take(i + 1) == cs@.take(i as int).push(cs@[i as int]));
        i = i + 1;
    }
    assert(cs@.take(cs.len() as int) == cs@);
}

/// Builds an owned `String` from a string slice.
pub fn to_owned_string(s: &str) -> (r: String)
    ensures
        r@ == s@,
{
    s.to_owned()
}

/// Whether two string slices hold the same characters.
pub fn str_eq(a: &str, b: &str) -> (r: bool)
    ensures
        r == (a@ == b@),
{
    let x = a.to_owned();
    let y = b.to_owned();
    x == y
}

/// Builds a `String` holding exactly the characters of `cs`.
pub fn string_from_chars(cs: &Vec<char>) -> (r: String)
    ensures
        r@ == cs@,
{
    let mut r = String::new();
    push_chars(&mut r, cs);
    r
}

/// The characters of a `&str`, as a vector.
pub fn str_chars(s: &str) -> (r: Vec<char>)
    ensures
        r@ == s@,
{
    broadcast use vstd::string::axiom_spec_iter;
    let mut r: Vec<char> = Vec::new();
    for c in it: s.chars()
        invariant
            r@ == it.seq().take(it.index() as int),
    {
        r.push(c);
    }
    r
}

/// The characters `cs[from..to]` as a new `String`.
pub fn chars_slice_string(cs: &Vec<char>, from: usize, to: usize) -> (r: String)
    requires
        from <= to <= cs.len(),
    ensures
        r@ == cs@.subrange(from as int, to as int),
{
    let mut r = String::new();
    let mut i = from;
    while i < to
        invariant
            from <= i <= to <= cs.len(),
            r@ == cs@.subrange(from as int, i as int),
        decreases to - i,
    {
        push_char(&mut r, cs[i]);
        assert(cs@.subrange(from as int, i + 1) == cs@.subrange(from as int, i as int).push(
            cs@[i as int],
        ));
        i = i + 1;
    }
    r
}

/// The decimal digit character for `d < 10`.
pub open spec fn digit_char(d: nat) -> char {
    if d == 0 { '0' }
    else if d == 1 { '1' }
    else if d == 2 { '2' }
    else if d == 3 { '3' }
    else if d == 4 { '4' }
    else if d == 5 { '5' }
    else if d == 6 { '6' }
    else if d == 7 { '7' }
    else if d == 8 { '8' }
    else { '9' }
}

/// The lower-case hexadecimal digit character for `d < 16`.
pub open spec fn hex_char(d: nat) -> char {
    if d < 10 { digit_char(d) }
    else if d == 10 { 'a' }
    else if d == 11 { 'b' }
    else if d == 12 { 'c' }
    else if d == 13 { 'd' }
    else if d == 14 { 'e' }
    else { 'f' }
}

/// Decimal rendering of a natural number without leading zeros ("0" for zero).
pub open spec fn decimal(n: nat) -> Seq<char>
    decreases n,
{
    if n < 10 {
        seq![digit_char(n)]
    } else {
        decimal(n / 10).push(digit_char(n % 10))
    }
}

/// Lower-case hexadecimal rendering of a natural number without leading zeros.
pub open spec fn hex(n: nat) -> Seq<char>
    decreases n,
{
    if n < 16 {
        seq![hex_char(n)]
    } else {
        hex(n / 16).push(hex_char(n % 16))
    }
}

/// `s` preceded by as many copies of `fill` as needed to reach `width` characters.
pub open spec fn pad_left(s: Seq<char>, width: nat, fill: char) -> Seq<char> {
    if s.len() >= width {
        s
    } else {
        Seq::new((width - s.len()) as nat, |_i: int| fill) + s
    }
}

/// Decimal rendering of a signed integer, with a leading '-' when negative.
pub open spec fn decimal_int(n: int) -> Seq<char> {
    if n < 0 {
        seq!['-'] + decimal((-n) as nat)
    } else {
        decimal(n as nat)
    }
}

fn digit_to_char(d: u64) -> (c: char)
    requires
        d < 16,
    ensures
        c == hex_char(d as nat),
{
    if d == 0 { '0' }
    else if d == 1 { '1' }
    else if d == 2 { '2' }
    else if d == 3 { '3' }
    else if d == 4 { '4' }
    else if d == 5 { '5' }
    else if d == 6 { '6' }
    else if d == 7 { '7' }
    else if d == 8 { '8' }
    else if d == 9 { '9' }
    else if d == 10 { 'a' }
    else if d == 11 { 'b' }
    else if d == 12 { 'c' }
    else if d == 13 { 'd' }
    else if d == 14 { 'e' }
    else { 'f' }
}

/// Renders `n` in base `base` (10 or 16) into a vector of digit characters.
fn digits_in_base(n: u64, base: u64) -> (r: Vec<char>)
    requires
        base == 10 || base == 16,
    ensures
        base == 10 ==> r@ == decimal(n as nat),
        base == 16 ==> r@ == hex(n as nat),
    decreases n,
{
    if n < base {
        let mut r: Vec<char> = Vec::new();
        r.push(digit_to_char(n));
        proof {
            if base == 10 {
                assert(r@ == seq![digit_char(n as nat)]);
            }
        }
        r
    } else {
        let mut r = digits_in_base(n / base, base);
        let d = n % base;
        r.push(digit_to_char(d));
        r
    }
}

/// Appends the decimal rendering of `n` to `buf`.
pub fn push_decimal(buf: &mut String, n: u64)
    ensures
        final(buf)@ == old(buf)@ + decimal(n as nat),
{
    let ds = digits_in_base(n, 10);
    push_chars(buf, &ds);
}

/// Appends the decimal rendering of `n`, left-padded with `fill` to `width` characters.
pub fn push_decimal_padded(buf: &mut String, n: u64, width: usize, fill: char)
    ensures
        final(buf)@ == old(buf)@ + pad_left(decimal(n as nat), width as nat, fill),
{
    let ds = digits_in_base(n, 10);
    let ghost start = buf@;
    if ds.len() < width {
        let k = width - ds.len();
        let mut i: usize = 0;
        while i < k
            invariant
                i <= k,
                buf@ == start + Seq::new(i as nat, |_j: int| fill),
            decreases k - i,
        {
            push_char(buf, fill);
            assert(Seq::new((i + 1) as nat, |_j: int| fill) == Seq::new(i as nat, |_j: int| fill).push(fill));
            i = i + 1;
        }
    }
    push_chars(buf, &ds);
    assert(buf@ == start + pad_left(decimal(n as nat), width as nat, fill));
}

/// Appends the lower-case hexadecimal rendering of `n`, left-padded with '0' to `width`.
pub fn push_hex_padded(buf: &mut String, n: u64, width: usize)
    ensures
        final(buf)@ == old(buf)@ + pad_left(hex(n as nat), width as nat, '0'),
{
    let ds = digits_in_base(n, 16);
    let ghost start = buf@;
    if ds.len() < width {
        let k = width - ds.len();
        let mut i: usize = 0;
        while i < k
            invariant
                i <= k,
                buf@ == start + Seq::new(i as nat, |_j: int| '0'),
            decreases k - i,
        {
            push_char(buf, '0');
            assert(Seq::new((i + 1) as nat, |_j: int| '0') == Seq::new(i as nat, |_j: int| '0').push('0'));
            i = i + 1;
        }
    }
    push_chars(buf, &ds);
    assert(buf@ == start + pad_left(hex(n as nat), width as nat, '0'));
}

/// Appends the decimal rendering of the signed `n` (with a leading '-' when
/// negative), left-padded with `fill` to `width` characters; the sign counts
/// towards the width and the fill goes before it.
pub fn push_int_padded(buf: &mut String, n: i64, width: usize, fill: char)
    ensures
        final(buf)@ == old(buf)@ + pad_left(decimal_int(n as int), width as nat, fill),
{
    let mut ds: Vec<char> = Vec::new();
    if n < 0 {
        ds.push('-');
        let m: u64 = if n == i64::MIN { 9223372036854775808u64 } else { (-n) as u64 };
        assert(m as int == -(n as int));
        let mut rest = digits_in_base(m, 10);
        ds.append(&mut rest);
    } else {
        ds = digits_in_base(n as u64, 10);
    }
    assert(ds@ == decimal_int(n as int));
    let ghost start = buf@;
    if ds.len() < width {
        let k = width - ds.len();
        let mut i: usize = 0;
        while i < k
            invariant
                i <= k,
                buf@ == start + Seq::new(i as nat, |_j: int| fill),
            decreases k - i,
        {
            push_char(buf, fill);
            assert(Seq::new((i + 1) as nat, |_j: int| fill) == Seq::new(i as nat, |_j: int| fill).push(fill));
            i = i + 1;
        }
    }
    push_chars(buf, &ds);
    assert(buf@ == start + pad_left(decimal_int(n as int), width as nat, fill));
}

} // verus!
