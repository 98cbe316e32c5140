//! What the Zinc reader gives back of the dates and times that the Zinc
//! writer wrote.
use vstd::prelude::*;
use crate::text::{decimal, decimal_int, digit_char, pad_left};
use crate::io::parse::lex::{at, char_at, is_digit, all_digits, digits_val, run_end, in_class, Class, radix10};
use crate::io::parse::grammar::{literal, date, time, datetime, field, span, reference, quoted, opt_nanos, run1, ZVal};
use crate::h_date::{HDate, date_zinc, valid_ymd};
use crate::h_time::{HTime, time_zinc, hms_zinc, valid_hmsn};

verus! {

/// Ten to the power `k`.
pub open spec fn ten_pow(k: nat) -> nat
    decreases k,
{
    if k == 0 {
        1
    } else {
        10 * ten_pow((k - 1) as nat)
    }
}

/// A digit character stands for its digit.
proof fn lemma_digit_char(d: nat)
    requires
        d < 10,
    ensures
        is_digit(digit_char(d)),
        digit_char(d) as int - '0' as int == d,
{
}

/// The decimal text of `n` is made of digits, at least one, and reads as `n`.
pub proof fn lemma_decimal_reads(n: nat)
    ensures
        decimal(n).len() >= 1,
        all_digits(decimal(n)),
        digits_val(decimal(n)) == n,
    decreases n,
{
    if n < 10 {
        lemma_digit_char(n);
        let s = decimal(n);
        assert(s.drop_last() =~= Seq::<char>::empty());
        assert(digits_val(s.drop_last()) == 0);
        assert(s.last() == digit_char(n));
    } else {
        lemma_decimal_reads(n / 10);
        lemma_digit_char(n % 10);
        let s = decimal(n / 10);
        let t = decimal(n);
        assert(t == s.push(digit_char(n % 10)));
        assert(t.drop_last() =~= s);
        assert(t.last() == digit_char(n % 10));
        assert(digits_val(t) == digits_val(s) * 10 + (digit_char(n % 10) as int - '0' as int));
        assert(n == (n / 10) * 10 + n % 10);
        assert forall|i: int| 0 <= i < t.len() implies is_digit(#[trigger] t[i]) by {
            if i < s.len() {
                assert(t[i] == s[i]);
            }
        }
    }
}

/// The decimal text of a number below `10^k` has at most `k` digits.
pub proof fn lemma_decimal_len(n: nat, k: nat)
    requires
        1 <= k,
        n < ten_pow(k),
    ensures
        decimal(n).len() <= k,
    decreases n,
{
    if n >= 10 {
        assert(k >= 2) by {
            if k == 1 {
                assert(ten_pow(1) == 10 * ten_pow(0));
            }
        }
        let k1 = (k - 1) as nat;
        assert(ten_pow(k) == 10 * ten_pow(k1));
        assert(n / 10 < ten_pow(k1)) by (nonlinear_arith)
            requires
                n < 10 * ten_pow(k1),
        ;
        lemma_decimal_len(n / 10, k1);
    }
}

/// Zeros read as nothing.
proof fn lemma_zeros_read(z: Seq<char>)
    requires
        forall|i: int| 0 <= i < z.len() ==> z[i] == '0',
    ensures
        all_digits(z),
        digits_val(z) == 0,
    decreases z.len(),
{
    if z.len() > 0 {
        lemma_zeros_read(z.drop_last());
    }
}

/// Leading zeros do not change what digits read as.
proof fn lemma_leading_zeros(z: Seq<char>, s: Seq<char>)
    requires
        forall|i: int| 0 <= i < z.len() ==> z[i] == '0',
        all_digits(s),
    ensures
        all_digits(z + s),
        digits_val(z + s) == digits_val(s),
    decreases s.len(),
{
    if s.len() == 0 {
        assert(z + s =~= z);
        lemma_zeros_read(z);
    } else {
        lemma_leading_zeros(z, s.drop_last());
        assert((z + s).drop_last() =~= z + s.drop_last());
        assert((z + s).last() == s.last());
        assert forall|i: int| 0 <= i < (z + s).len() implies is_digit(#[trigger] (z + s)[i]) by {
            if i < z.len() {
                assert((z + s)[i] == z[i]);
            } else {
                assert((z + s)[i] == s[i - z.len()]);
            }
        }
    }
}

/// The decimal text of `n`, padded with zeros on the left to `w`
/// characters, is made of digits and reads as `n`; it is `w` long where `n`
/// is below `10^w`.
pub proof fn lemma_padded_reads(n: nat, w: nat)
    ensures
        pad_left(decimal(n), w, '0').len() >= 1,
        all_digits(pad_left(decimal(n), w, '0')),
        digits_val(pad_left(decimal(n), w, '0')) == n,
        1 <= w && n < ten_pow(w) ==> pad_left(decimal(n), w, '0').len() == w,
{
    lemma_decimal_reads(n);
    let s = decimal(n);
    if s.len() < w {
        let z = Seq::new((w - s.len()) as nat, |_i: int| '0');
        assert(pad_left(s, w, '0') == z + s);
        lemma_leading_zeros(z, s);
    }
    if 1 <= w && n < ten_pow(w) {
        lemma_decimal_len(n, w);
    }
}

/// A run of characters of a class that stops before one that is not of it
/// (or at the end) ends there.
pub proof fn lemma_run_end_at(s: Seq<char>, p: int, q: int, k: Class)
    requires
        0 <= p <= q <= s.len(),
        forall|j: int| p <= j < q ==> in_class(k, #[trigger] s[j]),
        q < s.len() ==> !in_class(k, s[q]),
    ensures
        run_end(s, p, k) == q,
    decreases q - p,
{
    if p < q {
        lemma_run_end_at(s, p + 1, q, k);
    }
}

/// Two digits at `p` read as a field of the value they stand for.
proof fn lemma_field_two(t: Seq<char>, p: int, v: nat)
    requires
        v < 100,
        at(t, p, pad_left(decimal(v), 2, '0')),
    ensures
        field(t, p, 2, false) == Some(v as int),
        pad_left(decimal(v), 2, '0').len() == 2,
{
    assert(ten_pow(2) == 100) by {
        reveal_with_fuel(ten_pow, 3);
    }
    lemma_padded_reads(v, 2);
    let a = pad_left(decimal(v), 2, '0');
    assert(span(t, p, p + 2) == a);
    assert(is_digit(a[0]));
}

/// Four digits at `p` read as a signed field of the value they stand for.
proof fn lemma_field_four(t: Seq<char>, p: int, v: nat)
    requires
        v < 10000,
        at(t, p, pad_left(decimal(v), 4, '0')),
    ensures
        field(t, p, 4, true) == Some(v as int),
        pad_left(decimal(v), 4, '0').len() == 4,
{
    assert(ten_pow(4) == 10000) by {
        reveal_with_fuel(ten_pow, 5);
    }
    lemma_padded_reads(v, 4);
    let a = pad_left(decimal(v), 4, '0');
    assert(span(t, p, p + 4) == a);
    assert(is_digit(a[0]));
}

/// No rule before the date and time rules reads a value that starts with a digit.
pub(crate) proof fn lemma_digit_start(t: Seq<char>, p: int)
    requires
        0 <= p < t.len(),
        is_digit(t[p]),
    ensures
        !at(t, p, "NA"@),
        !char_at(t, p, 'N') && !char_at(t, p, 'M') && !char_at(t, p, 'R'),
        !char_at(t, p, 'T') && !char_at(t, p, 'F'),
        reference(t, p) is None,
        quoted(t, p, false) is None,
        quoted(t, p, true) is None,
{
    reveal_strlit("NA");
    if at(t, p, "NA"@) {
        assert(t.subrange(p, p + 2)[0] == t[p]);
    }
}

/// The Zinc text of a date of a year from 0 to 9999 at `p` is ten characters
/// and the date rule reads it back.
pub(crate) proof fn lemma_date_reads(t: Seq<char>, p: int, y: int, m: int, d: int)
    requires
        0 <= y <= 9999,
        valid_ymd(y, m, d),
        at(t, p, date_zinc(y, m, d)),
    ensures
        date_zinc(y, m, d).len() == 10,
        date(t, p) == Some((y, m, d, p + 10)),
        is_digit(t[p]),
        is_digit(date_zinc(y, m, d)[0]),
{
    let a = pad_left(decimal_int(y), 4, '0');
    let b = pad_left(decimal(m as nat), 2, '0');
    let c = pad_left(decimal(d as nat), 2, '0');
    let z = date_zinc(y, m, d);
    assert(decimal_int(y) == decimal(y as nat));
    lemma_padded_reads(y as nat, 4);
    lemma_padded_reads(m as nat, 2);
    lemma_padded_reads(d as nat, 2);
    assert(ten_pow(4) == 10000 && ten_pow(2) == 100) by {
        reveal_with_fuel(ten_pow, 5);
    }
    assert(z == a + seq!['-'] + b + seq!['-'] + c);
    assert(z.len() == 10);
    assert(t.subrange(p, p + 10) == z);
    assert(at(t, p, a)) by {
        assert(t.subrange(p, p + 4) =~= z.subrange(0, 4));
        assert(z.subrange(0, 4) =~= a);
    }
    assert(at(t, p + 5, b)) by {
        assert(t.subrange(p + 5, p + 7) =~= z.subrange(5, 7));
        assert(z.subrange(5, 7) =~= b);
    }
    assert(at(t, p + 8, c)) by {
        assert(t.subrange(p + 8, p + 10) =~= z.subrange(8, 10));
        assert(z.subrange(8, 10) =~= c);
    }
    assert(t[p + 4] == z[4] && t[p + 7] == z[7] && t[p] == z[0]);
    assert(z[0] == a[0]);
    lemma_field_four(t, p, y as nat);
    lemma_field_two(t, p + 5, m as nat);
    lemma_field_two(t, p + 8, d as nat);
}

/// The date rule reads a date at `p`, and the literal rule takes it as a
/// date where no `T` follows it.
pub(crate) proof fn lemma_date_literal(t: Seq<char>, p: int, y: int, m: int, d: int)
    requires
        0 <= y <= 9999,
        valid_ymd(y, m, d),
        at(t, p, date_zinc(y, m, d)),
        !char_at(t, p + date_zinc(y, m, d).len(), 'T'),
    ensures
        literal(t, p) == Some((ZVal::Date(y, m, d), p + 10)),
        date_zinc(y, m, d).len() == 10,
        is_digit(date_zinc(y, m, d)[0]),
{
    lemma_date_reads(t, p, y, m, d);
    lemma_digit_start(t, p);
    assert(datetime(t, p) is None);
}

/// Reading the Zinc text of a date gives back the date, for the years 0 to
/// 9999 that the text writes in four digits, whatever follows it but a `T`
/// (which would make it the start of a date-time).
pub proof fn law_zinc_date_roundtrip(x: HDate, rest: Seq<char>)
    requires
        valid_ymd(x.year_spec(), x.month_spec(), x.day_spec()),
        0 <= x.year_spec() <= 9999,
        rest.len() > 0 ==> rest[0] != 'T',
    ensures
        literal(x.zinc() + rest, 0) == Some((ZVal::Date(x.year_spec(), x.month_spec(), x.day_spec()), 10int)),
        x.zinc().len() == 10,
{
    let t = x.zinc() + rest;
    assert(t.subrange(0, x.zinc().len() as int) =~= x.zinc());
    lemma_date_reads(t, 0, x.year_spec(), x.month_spec(), x.day_spec());
    if t.len() > 10 {
        assert(t[10] == rest[0]);
    }
    lemma_date_literal(t, 0, x.year_spec(), x.month_spec(), x.day_spec());
}

/// The Zinc text of a time of day with a nanosecond at `p`, followed by no
/// digit, is read back by the time rule, and ends where the text ends.
pub(crate) proof fn lemma_time_reads(t: Seq<char>, p: int, h: int, m: int, sec: int, n: int)
    requires
        valid_hmsn(h, m, sec, n),
        n != 0,
        at(t, p, time_zinc(h, m, sec, n)),
        p + time_zinc(h, m, sec, n).len() < t.len() ==> !is_digit(t[p + time_zinc(h, m, sec, n).len()]),
    ensures
        time(t, p) == Some((h, m, sec, n, p + time_zinc(h, m, sec, n).len())),
        is_digit(t[p]),
        is_digit(time_zinc(h, m, sec, n)[0]),
        field(t, p, 4, true) is None,
{
    let a = pad_left(decimal(h as nat), 2, '0');
    let b = pad_left(decimal(m as nat), 2, '0');
    let c = pad_left(decimal(sec as nat), 2, '0');
    let f = pad_left(decimal(n as nat), 9, '0');
    let z = time_zinc(h, m, sec, n);
    lemma_padded_reads(h as nat, 2);
    lemma_padded_reads(m as nat, 2);
    lemma_padded_reads(sec as nat, 2);
    lemma_padded_reads(n as nat, 9);
    assert(ten_pow(2) == 100) by {
        reveal_with_fuel(ten_pow, 3);
    }
    assert(hms_zinc(h, m, sec) == a + seq![':'] + b + seq![':'] + c);
    assert(z == a + seq![':'] + b + seq![':'] + c + seq!['.'] + f);
    let q: int = 9 + f.len() as int;
    assert(z.len() == q);
    assert(t.subrange(p, p + q) == z);
    assert(at(t, p, a)) by {
        assert(t.subrange(p, p + 2) =~= z.subrange(0, 2));
        assert(z.subrange(0, 2) =~= a);
    }
    assert(at(t, p + 3, b)) by {
        assert(t.subrange(p + 3, p + 5) =~= z.subrange(3, 5));
        assert(z.subrange(3, 5) =~= b);
    }
    assert(at(t, p + 6, c)) by {
        assert(t.subrange(p + 6, p + 8) =~= z.subrange(6, 8));
        assert(z.subrange(6, 8) =~= c);
    }
    assert(span(t, p + 9, p + q) =~= f) by {
        assert(t.subrange(p + 9, p + q) =~= z.subrange(9, q));
        assert(z.subrange(9, q) =~= f);
    }
    assert(t[p + 2] == z[2] && t[p + 5] == z[5] && t[p + 8] == z[8] && t[p] == z[0] && t[p + 1] == z[1]);
    assert(z[0] == a[0] && z[1] == a[1]);
    lemma_field_two(t, p, h as nat);
    lemma_field_two(t, p + 3, m as nat);
    lemma_field_two(t, p + 6, sec as nat);
    assert forall|j: int| p + 9 <= j < p + q implies in_class(Class::Digit, #[trigger] t[j]) by {
        assert(t[j] == z[j - p]);
        assert(z[j - p] == f[j - p - 9]);
    }
    lemma_run_end_at(t, p + 9, p + q, Class::Digit);
    assert(run1(t, p + 9, Class::Digit) == Some(p + q));
    assert(opt_nanos(t, p + 9) == Some((n, p + q)));
    assert(field(t, p, 4, true) is None) by {
        let sp = span(t, p, p + 4);
        assert(sp[0] == t[p] && sp[2] == t[p + 2]);
        assert(!all_digits(sp));
    }
}

/// The literal rule takes the text of a time of day with a nanosecond at
/// `p`, followed by no digit, as that time.
pub(crate) proof fn lemma_time_literal(t: Seq<char>, p: int, h: int, m: int, sec: int, n: int)
    requires
        valid_hmsn(h, m, sec, n),
        n != 0,
        at(t, p, time_zinc(h, m, sec, n)),
        p + time_zinc(h, m, sec, n).len() < t.len() ==> !is_digit(t[p + time_zinc(h, m, sec, n).len()]),
    ensures
        literal(t, p) == Some((ZVal::Time(h, m, sec, n), p + time_zinc(h, m, sec, n).len())),
        is_digit(time_zinc(h, m, sec, n)[0]),
{
    lemma_time_reads(t, p, h, m, sec, n);
    lemma_digit_start(t, p);
    assert(datetime(t, p) is None);
    assert(date(t, p) is None);
}

/// Reading the Zinc text of a time of day gives back the time, for every time
/// whose nanosecond is not zero (the text of a whole second has no `.`,
/// which the reader asks for), whatever follows it but a digit (which would
/// continue the nanoseconds).
pub proof fn law_zinc_time_roundtrip(x: HTime, rest: Seq<char>)
    requires
        valid_hmsn(x.hour_spec(), x.minute_spec(), x.second_spec(), x.nano_spec()),
        x.nano_spec() != 0,
        rest.len() > 0 ==> !is_digit(rest[0]),
    ensures
        literal(x.zinc() + rest, 0) == Some((ZVal::Time(x.hour_spec(), x.minute_spec(), x.second_spec(), x.nano_spec()),
            x.zinc().len() as int)),
{
    let t = x.zinc() + rest;
    assert(t.subrange(0, x.zinc().len() as int) =~= x.zinc());
    if x.zinc().len() < t.len() {
        assert(t[x.zinc().len() as int] == rest[0]);
    }
    lemma_time_literal(t, 0, x.hour_spec(), x.minute_spec(), x.second_spec(), x.nano_spec());
}

} // verus!
