//! Decimal and hexadecimal numerals: printing and parsing.

use vstd::prelude::*;

use crate::text::{chars_of, Text};

verus! {

broadcast use vstd::string::group_string_axioms;

// ---------------------------------------------------------------------
// Printing
// ---------------------------------------------------------------------

/// The decimal digit of a number below ten.
pub open spec fn digit(d: int) -> char {
    if d == 0 {
        '0'
    } else if d == 1 {
        '1'
    } else if d == 2 {
        '2'
    } else if d == 3 {
        '3'
    } else if d == 4 {
        '4'
    } else if d == 5 {
        '5'
    } else if d == 6 {
        '6'
    } else if d == 7 {
        '7'
    } else if d == 8 {
        '8'
    } else {
        '9'
    }
}

/// The lower-case hexadecimal digit of a number below sixteen.
pub open spec fn hex_digit(d: int) -> char {
    if d < 10 {
        digit(d)
    } else if d == 10 {
        'a'
    } else if d == 11 {
        'b'
    } else if d == 12 {
        'c'
    } else if d == 13 {
        'd'
    } else if d == 14 {
        'e'
    } else {
        'f'
    }
}

/// The decimal numeral of `n`.
pub open spec fn dec(n: nat) -> Text
    decreases n,
{
    if n < 10 {
        seq![digit(n as int)]
    } else {
        dec(n / 10).push(digit((n % 10) as int))
    }
}

/// The decimal numeral of an integer.
pub open spec fn dec_int(n: int) -> Text {
    if n < 0 {
        seq!['-'] + dec((-n) as nat)
    } else {
        dec(n as nat)
    }
}

/// Two lower-case hexadecimal digits.
pub open spec fn hex2(b: int) -> Text {
    seq![hex_digit(b / 16), hex_digit(b % 16)]
}

/// A decimal numeral with a leading zero where it has one digit.
pub open spec fn dec2(n: nat) -> Text {
    if n < 10 {
        seq!['0', digit(n as int)]
    } else {
        dec(n)
    }
}

pub fn digit_char(d: u64) -> (r: char)
    requires
        d < 10,
    ensures
        r == digit(d as int),
{
    match d {
        0 => '0',
        1 => '1',
        2 => '2',
        3 => '3',
        4 => '4',
        5 => '5',
        6 => '6',
        7 => '7',
        8 => '8',
        _ => '9',
    }
}

pub fn hex_digit_char(d: u64) -> (r: char)
    requires
        d < 16,
    ensures
        r == hex_digit(d as int),
{
    if d < 10 {
        digit_char(d)
    } else {
        match d {
            10 => 'a',
            11 => 'b',
            12 => 'c',
            13 => 'd',
            14 => 'e',
            _ => 'f',
        }
    }
}

/// The decimal numeral of `n`.
pub fn dec_text(n: u64) -> (r: String)
    ensures
        r@ == dec(n as nat),
    decreases n,
{
    if n < 10 {
        let mut s = String::new();
        s.push(digit_char(n));
        assert(s@ =~= dec(n as nat));
        s
    } else {
        let mut s = dec_text(n / 10);
        s.push(digit_char(n % 10));
        s
    }
}

/// The decimal numeral of a signed number.
pub fn dec_i32_text(n: i32) -> (r: String)
    ensures
        r@ == dec_int(n as int),
{
    if n < 0 {
        let mut s = String::new();
        s.push('-');
        let m: i64 = n as i64;
        let d = dec_text((-m) as u64);
        s.append(d.as_str());
        assert(s@ =~= seq!['-'] + dec((-n) as nat));
        s
    } else {
        dec_text(n as u64)
    }
}

/// Two lower-case hexadecimal digits.
pub fn hex2_text(b: u32) -> (r: String)
    requires
        b < 256,
    ensures
        r@ == hex2(b as int),
{
    let mut s = String::new();
    s.push(hex_digit_char((b / 16) as u64));
    s.push(hex_digit_char((b % 16) as u64));
    assert(s@ =~= hex2(b as int));
    s
}

/// A decimal numeral with a leading zero where it has one digit.
pub fn dec2_text(n: u64) -> (r: String)
    ensures
        r@ == dec2(n as nat),
{
    if n < 10 {
        let mut s = String::new();
        s.push('0');
        s.push(digit_char(n));
        assert(s@ =~= dec2(n as nat));
        s
    } else {
        dec_text(n)
    }
}

/// A number of thousandths behind a decimal point, without zeros at the end;
/// nothing where there are none.
pub open spec fn thousandths(n: nat) -> Text {
    let a = digit((n / 100) as int);
    let b = digit((n / 10 % 10) as int);
    let c = digit((n % 10) as int);
    if n == 0 {
        seq![]
    } else if n % 100 == 0 {
        seq!['.', a]
    } else if n % 10 == 0 {
        seq!['.', a, b]
    } else {
        seq!['.', a, b, c]
    }
}

/// A time in the largest unit that it fills: seconds, else milliseconds; no time
/// is counted in nanoseconds.
pub open spec fn millis(ms: nat) -> Text {
    if ms == 0 {
        "0ns"@
    } else if ms < 1000 {
        dec(ms) + "ms"@
    } else {
        dec(ms / 1000) + thousandths(ms % 1000) + "s"@
    }
}

/// A time in the largest unit that it fills.
pub fn millis_text(ms: u64) -> (r: String)
    ensures
        r@ == millis(ms as nat),
{
    if ms == 0 {
        return "0ns".to_owned();
    }
    if ms < 1000 {
        let mut s = dec_text(ms);
        s.append("ms");
        return s;
    }
    let mut s = dec_text(ms / 1000);
    let n: u64 = ms % 1000;
    let ghost whole = s@;
    if n != 0 {
        s.push('.');
        s.push(digit_char(n / 100));
        if n % 100 != 0 {
            s.push(digit_char(n / 10 % 10));
            if n % 10 != 0 {
                s.push(digit_char(n % 10));
            }
        }
    }
    assert(s@ =~= whole + thousandths(n as nat));
    s.append("s");
    s
}

// ---------------------------------------------------------------------
// Parsing
// ---------------------------------------------------------------------

/// The value of a hexadecimal digit of either case.
pub open spec fn digit_value(c: char) -> Option<nat> {
    if '0' <= c <= '9' {
        Some((c as u32 - '0' as u32) as nat)
    } else if 'a' <= c <= 'f' {
        Some((c as u32 - 'a' as u32 + 10) as nat)
    } else if 'A' <= c <= 'F' {
        Some((c as u32 - 'A' as u32 + 10) as nat)
    } else {
        None
    }
}

/// Whether `c` is a digit of the base.
pub open spec fn is_digit(c: char, base: nat) -> bool {
    digit_value(c) matches Some(d) && d < base
}

/// The value of a run of digits.
pub open spec fn digits_value(s: Text, base: nat) -> nat
    decreases s.len(),
{
    if s.len() == 0 {
        0
    } else {
        digits_value(s.drop_last(), base) * base + digit_value(s.last()).unwrap_or(0)
    }
}

/// A numeral without its optional plus sign.
pub open spec fn unsigned_part(s: Text) -> Text {
    if s.len() > 0 && s[0] == '+' {
        s.drop_first()
    } else {
        s
    }
}

pub open spec fn all_digits(s: Text, base: nat) -> bool {
    &&& s.len() > 0
    &&& forall|i: int| 0 <= i < s.len() ==> is_digit(#[trigger] s[i], base)
}

/// What parsing `s` as an unsigned numeral of the base yields, where `max` is
/// the largest value of the type: an optional plus sign and at least one digit.
pub open spec fn parsed(s: Text, base: nat, max: nat) -> Option<nat> {
    let d = unsigned_part(s);
    if all_digits(d, base) && digits_value(d, base) <= max {
        Some(digits_value(d, base))
    } else {
        None
    }
}

pub fn digit_of(c: char) -> (r: Option<u64>)
    ensures
        match r {
            Some(d) => digit_value(c) == Some(d as nat) && d < 16,
            None => digit_value(c) is None,
        },
{
    let u: u32 = c as u32;
    if 48 <= u && u <= 57 {
        Some((u - 48) as u64)
    } else if 97 <= u && u <= 102 {
        Some((u - 87) as u64)
    } else if 65 <= u && u <= 70 {
        Some((u - 55) as u64)
    } else {
        None
    }
}

/// The value of a run of digits is at least that of each of its prefixes.
proof fn lemma_digits_value_mono(s: Text, base: nat, k: int)
    requires
        0 <= k <= s.len(),
        base >= 1,
    ensures
        digits_value(s.take(k), base) <= digits_value(s, base),
    decreases s.len(),
{
    if k == s.len() {
        assert(s.take(k) =~= s);
    } else {
        let t = s.drop_last();
        lemma_digits_value_mono(t, base, k);
        assert(t.take(k) =~= s.take(k));
        let v = digits_value(t, base);
        assert(v * base >= v) by (nonlinear_arith)
            requires
                base >= 1,
                v >= 0,
        ;
    }
}

/// Parses `cs[from..to]` as an unsigned numeral.
pub fn parse_range(cs: &Vec<char>, from: usize, to: usize, base: u64, max: u64) -> (r: Option<u64>)
    requires
        from <= to <= cs@.len(),
        2 <= base <= 16,
    ensures
        r is Some <==> parsed(cs@.subrange(from as int, to as int), base as nat, max as nat) is Some,
        r matches Some(v) ==> parsed(
            cs@.subrange(from as int, to as int),
            base as nat,
            max as nat,
        ) == Some(v as nat),
{
    let ghost whole = cs@.subrange(from as int, to as int);
    let start: usize = if from < to && cs[from] == '+' {
        from + 1
    } else {
        from
    };
    let ghost d = unsigned_part(whole);
    assert(d =~= cs@.subrange(start as int, to as int));
    if start == to {
        return None;
    }
    let mut i: usize = start;
    let mut acc: u64 = 0;
    assert(d.take(0) =~= Seq::<char>::empty());
    while i < to
        invariant
            start <= i <= to <= cs@.len(),
            start < to,
            2 <= base <= 16,
            d == cs@.subrange(start as int, to as int),
            whole == cs@.subrange(from as int, to as int),
            d == unsigned_part(whole),
            acc <= max,
            acc == digits_value(d.take(i - start), base as nat),
            forall|j: int| 0 <= j < i - start ==> is_digit(#[trigger] d[j], base as nat),
        decreases to - i,
    {
        let c = cs[i];
        assert(d[i - start] == c);
        let v = match digit_of(c) {
            Some(v) => v,
            None => {
                assert(!is_digit(d[i - start], base as nat));
                return None;
            },
        };
        if v >= base {
            assert(!is_digit(d[i - start], base as nat));
            return None;
        }
        proof {
            assert(d.take(i - start + 1).drop_last() =~= d.take(i - start));
            lemma_digits_value_mono(d, base as nat, i - start + 1);
            assert(acc * base <= 0xffff_ffff_ffff_ffff * 16) by (nonlinear_arith)
                requires
                    acc <= 0xffff_ffff_ffff_ffff,
                    base <= 16,
            ;
        }
        let wide: u128 = (acc as u128) * (base as u128) + (v as u128);
        if wide > max as u128 {
            return None;
        }
        acc = wide as u64;
        i = i + 1;
    }
    assert(d.take(to - start) =~= d);
    Some(acc)
}

/// Parses a whole string as an unsigned numeral.
pub fn parse_text(s: &str, base: u64, max: u64) -> (r: Option<u64>)
    requires
        2 <= base <= 16,
    ensures
        r is Some <==> parsed(s@, base as nat, max as nat) is Some,
        r matches Some(v) ==> parsed(s@, base as nat, max as nat) == Some(v as nat),
{
    let cs = chars_of(s);
    let n = cs.len();
    assert(cs@.subrange(0, n as int) =~= s@);
    parse_range(&cs, 0, n, base, max)
}

// ---------------------------------------------------------------------
// Laws
// ---------------------------------------------------------------------

/// The digit of a number below ten is a digit of that value.
proof fn lemma_digit_value(d: int)
    requires
        0 <= d < 10,
    ensures
        digit_value(digit(d)) == Some(d as nat),
        digit(d) != '+',
{
}

pub proof fn lemma_dec_digits(n: nat)
    ensures
        dec(n).len() > 0,
        all_digits(dec(n), 10),
        digits_value(dec(n), 10) == n,
        forall|i: int| 0 <= i < dec(n).len() ==> dec(n)[i] != '+',
    decreases n,
{
    if n < 10 {
        lemma_digit_value(n as int);
        let s = dec(n);
        assert(s.drop_last() =~= Seq::<char>::empty());
        assert(digits_value(s.drop_last(), 10) == 0);
    } else {
        lemma_dec_digits(n / 10);
        lemma_digit_value((n % 10) as int);
        let s = dec(n);
        assert(s.drop_last() =~= dec(n / 10));
        assert(s.last() == digit((n % 10) as int));
        assert forall|i: int| 0 <= i < s.len() implies is_digit(#[trigger] s[i], 10) && s[i]
            != '+' by {
            if i < s.len() - 1 {
                assert(s[i] == dec(n / 10)[i]);
            }
        }
    }
}

/// Parsing gives back the number that was printed.
pub proof fn law_parse_printed(n: nat, max: nat)
    requires
        n <= max,
    ensures
        parsed(dec(n), 10, max) == Some(n),
{
    lemma_dec_digits(n);
}

/// Different numbers have different decimal numerals.
pub proof fn law_dec_injective(m: nat, n: nat)
    requires
        dec(m) == dec(n),
    ensures
        m == n,
{
    lemma_dec_digits(m);
    lemma_dec_digits(n);
}

/// A digit is the character that stands as far behind zero as it is large; the
/// digits beyond nine are the first letters.
pub proof fn law_digits(d: u64, c: char, h: char)
    requires
        d < 10 ==> call_ensures(digit_char, (d,), c),
        d < 16,
        call_ensures(hex_digit_char, (d,), h),
    ensures
        d < 10 ==> c as u32 == '0' as u32 + d,
        d < 10 ==> h == c,
        10 <= d ==> h as u32 == 'a' as u32 + (d - 10),
{
}

pub proof fn lemma_hex2_value(b: int)
    requires
        0 <= b < 256,
    ensures
        parsed(hex2(b), 16, 255) == Some(b as nat),
{
    let z = hex2(b);
    let hi = hex_digit(b / 16);
    let lo = hex_digit(b % 16);
    assert(z.drop_last() =~= seq![hi]);
    assert(z.drop_last().drop_last() =~= Seq::<char>::empty());
    reveal_with_fuel(digits_value, 3);
    assert(digit_value(hi) == Some((b / 16) as nat));
    assert(digit_value(lo) == Some((b % 16) as nat));
    assert(digits_value(z, 16) == b);
    assert(all_digits(z, 16));
    assert(unsigned_part(z) == z);
}

/// A number that is printed is read again as the same number, whether it is
/// printed plainly, with two digits at least, or as two hexadecimal digits.
pub proof fn law_printed_is_read(
    n: u64,
    plain: String,
    s: &str,
    r: Option<u64>,
    two: String,
    t: &str,
    q: Option<u64>,
    b: u32,
    hex: String,
    u: &str,
    x: Option<u64>,
)
    requires
        call_ensures(dec_text, (n,), plain),
        s@ == plain@,
        call_ensures(parse_text, (s, 10, u64::MAX), r),
        call_ensures(dec2_text, (n,), two),
        t@ == two@,
        call_ensures(parse_text, (t, 10, u64::MAX), q),
        b < 256,
        call_ensures(hex2_text, (b,), hex),
        u@ == hex@,
        call_ensures(parse_text, (u, 16, 255), x),
    ensures
        r == Some(n),
        q == Some(n),
        two@.len() >= 2,
        x == Some(b as u64),
        hex@.len() == 2,
{
    law_parse_printed(n as nat, u64::MAX as nat);
    if n < 10 {
        let z = two@;
        assert(z.drop_last() =~= seq!['0']);
        assert(z.drop_last().drop_last() =~= Seq::<char>::empty());
        reveal_with_fuel(digits_value, 3);
        assert(digits_value(z, 10) == n);
        assert(all_digits(z, 10));
        assert(unsigned_part(z) == z);
    } else {
        lemma_dec_digits(n as nat);
        assert(dec(n as nat).len() >= 2);
    }
    lemma_hex2_value(b as int);
}

/// A negative number is printed with a sign before its amount.
pub proof fn law_sign_is_printed(n: i32, r: String)
    requires
        call_ensures(dec_i32_text, (n,), r),
    ensures
        n >= 0 ==> r@ == dec(n as nat),
        n < 0 ==> r@[0] == '-' && r@.drop_first() == dec((-n) as nat),
{
    if n < 0 {
        assert(r@.drop_first() =~= dec((-n) as nat));
    }
}

proof fn lemma_value_of_digits(s: Text, d: int)
    requires
        0 <= d < 10,
    ensures
        digits_value(s.push(digit(d)), 10) == digits_value(s, 10) * 10 + d,
        is_digit(digit(d), 10),
{
    assert(s.push(digit(d)).drop_last() =~= s);
    assert(digit_value(digit(d)) == Some(d as nat));
}

/// What a decimal fraction of some digits counts in thousandths.
pub open spec fn in_thousandths(d: Text) -> int {
    digits_value(d, 10) * (if d.len() == 1 {
        100int
    } else if d.len() == 2 {
        10int
    } else {
        1int
    })
}

proof fn lemma_thousandths(n: nat) -> (d: Text)
    requires
        0 < n < 1000,
    ensures
        thousandths(n) == seq!['.'] + d,
        all_digits(d, 10),
        d.len() <= 3,
        d.last() != '0',
        in_thousandths(d) == n,
{
    let a = (n / 100) as int;
    let b = (n / 10 % 10) as int;
    let c = (n % 10) as int;
    let e = Seq::<char>::empty();
    let d1 = e.push(digit(a));
    let d2 = d1.push(digit(b));
    let d3 = d2.push(digit(c));
    lemma_value_of_digits(e, a);
    lemma_value_of_digits(d1, b);
    lemma_value_of_digits(d2, c);
    assert(digits_value(e, 10) == 0);
    assert(n == 100 * a + 10 * b + c);
    if n % 100 == 0 {
        assert(thousandths(n) =~= seq!['.'] + d1);
        d1
    } else if n % 10 == 0 {
        assert(thousandths(n) =~= seq!['.'] + d2);
        d2
    } else {
        assert(thousandths(n) =~= seq!['.'] + d3);
        d3
    }
}

/// A time is printed as the number that it is: in milliseconds below a second,
/// else in seconds with the rest as a decimal fraction, which has no needless
/// zeros.
pub proof fn law_times_are_printed(ms: u64, r: String)
    requires
        call_ensures(millis_text, (ms,), r),
    ensures
        0 < ms < 1000 ==> r@ == dec(ms as nat) + "ms"@,
        ms >= 1000 && ms % 1000 == 0 ==> r@ == dec((ms / 1000) as nat) + "s"@,
        ms >= 1000 && ms % 1000 != 0 ==> exists|d: Text|
            all_digits(d, 10) && d.len() <= 3 && d.last() != '0' && r@ == dec((ms / 1000) as nat)
                + seq!['.'] + d + "s"@ && #[trigger] in_thousandths(d) == ms % 1000,
{
    let n = (ms % 1000) as nat;
    let whole = dec((ms / 1000) as nat);
    if ms >= 1000 && n == 0 {
        assert(whole + Seq::<char>::empty() =~= whole);
    }
    if ms >= 1000 && n != 0 {
        let d = lemma_thousandths(n);
        assert(r@ =~= whole + seq!['.'] + d + "s"@);
        assert(in_thousandths(d) == ms % 1000);
    }
}

} // verus!
