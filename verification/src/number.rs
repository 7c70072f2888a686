//! Decimal numbers as text: the digits of a number, the number of a run of
//! digits, and zero padding.

use vstd::prelude::*;
use crate::text::chars_of;

verus! {

/// Whether `c` is one of `0` to `9`.
pub open spec fn is_ascii_digit(c: char) -> bool {
    '0' <= c <= '9'
}

/// Whether every character of `s` is one of `0` to `9`.
pub open spec fn all_ascii_digits(s: Seq<char>) -> bool {
    forall|i: int| 0 <= i < s.len() ==> is_ascii_digit(#[trigger] s[i])
}

/// The character of the digit `d`.
pub open spec fn digit_char(d: nat) -> char
    recommends
        d < 10,
{
    if d == 0 {
        '0'
    } else if d == 1 {
        '1'
    } else if d == 2 {
        '2'
    } else if d == 3 {
        '3'
    } else if d == 4 {
        '4'
    } else if d == 5 {
        '5'
    } else if d == 6 {
        '6'
    } else if d == 7 {
        '7'
    } else if d == 8 {
        '8'
    } else {
        '9'
    }
}

/// The digit that `c` stands for.
pub open spec fn digit_value(c: char) -> nat
    recommends
        is_ascii_digit(c),
{
    if c == '0' {
        0
    } else if c == '1' {
        1
    } else if c == '2' {
        2
    } else if c == '3' {
        3
    } else if c == '4' {
        4
    } else if c == '5' {
        5
    } else if c == '6' {
        6
    } else if c == '7' {
        7
    } else if c == '8' {
        8
    } else {
        9
    }
}

/// The decimal digits of `n`, without leading zeros.
pub open spec fn decimal(n: nat) -> Seq<char>
    decreases n,
{
    if n < 10 {
        seq![digit_char(n)]
    } else {
        decimal(n / 10).push(digit_char(n % 10))
    }
}

/// The number that the digits of `s` write, leading zeros allowed.
pub open spec fn decimal_value(s: Seq<char>) -> nat
    decreases s.len(),
{
    if s.len() == 0 {
        0
    } else {
        decimal_value(s.drop_last()) * 10 + digit_value(s.last())
    }
}

/// `s` with zeros in front until it is `width` long.
pub open spec fn zero_pad(s: Seq<char>, width: nat) -> Seq<char> {
    if s.len() >= width {
        s
    } else {
        Seq::new((width - s.len()) as nat, |i: int| '0') + s
    }
}

/// The digits of `n`, zero padded to `width`.
pub open spec fn padded(n: nat, width: nat) -> Seq<char> {
    zero_pad(decimal(n), width)
}

/// A signed number, zero padded to `width` with the sign counted in, the
/// way std's `{:0width}` writes it.
pub open spec fn signed_padded(v: int, width: nat) -> Seq<char> {
    if v < 0 {
        seq!['-'] + zero_pad(decimal((-v) as nat), if width >= 1 {
            (width - 1) as nat
        } else {
            0
        })
    } else {
        zero_pad(decimal(v as nat), width)
    }
}

/// What std reads from `s` as an unsigned number: an optional `+`, then one
/// or more digits.
pub open spec fn unsigned_text(s: Seq<char>) -> Option<nat> {
    let body = if s.len() >= 1 && s[0] == '+' {
        s.skip(1)
    } else {
        s
    };
    if body.len() >= 1 && all_ascii_digits(body) {
        Some(decimal_value(body))
    } else {
        None
    }
}

/// What std reads from `s` as a signed number: an optional `+` or `-`, then
/// one or more digits.
pub open spec fn signed_text(s: Seq<char>) -> Option<int> {
    if s.len() >= 1 && s[0] == '-' {
        let body = s.skip(1);
        if body.len() >= 1 && all_ascii_digits(body) {
            Some(-(decimal_value(body) as int))
        } else {
            None
        }
    } else {
        match unsigned_text(s) {
            Some(n) => Some(n as int),
            None => None,
        }
    }
}

/// The number of a short code: one to three digits without a needless
/// leading zero. Every numbered table of the format writes its codes so.
pub open spec fn small_code(s: Seq<char>) -> Option<nat> {
    if 1 <= s.len() <= 3 && all_ascii_digits(s) && (s.len() == 1 || s[0] != '0') {
        Some(decimal_value(s))
    } else {
        None
    }
}

/// The number of a code of exactly two digits, leading zero included.
pub open spec fn two_digit_code(s: Seq<char>) -> Option<nat> {
    if s.len() == 2 && all_ascii_digits(s) {
        Some(decimal_value(s))
    } else {
        None
    }
}

/// The value of a run of at most nine digits is the value of its digits.
pub proof fn lemma_decimal_value_bound(s: Seq<char>)
    requires
        all_ascii_digits(s),
    ensures
        decimal_value(s) < pow10(s.len()),
    decreases s.len(),
{
    if s.len() > 0 {
        lemma_decimal_value_bound(s.drop_last());
        assert(is_ascii_digit(s[s.len() - 1]));
    }
}

/// Ten to the power `e`.
pub open spec fn pow10(e: nat) -> nat
    decreases e,
{
    if e == 0 {
        1
    } else {
        10 * pow10((e - 1) as nat)
    }
}

/// The number written by `v[from..to]` when those are at most nine digits.
pub fn digits_value(v: &Vec<char>, from: usize, to: usize) -> (r: Option<u32>)
    requires
        from <= to <= v.len(),
        to - from <= 9,
    ensures
        r is Some <==> all_ascii_digits(v@.subrange(from as int, to as int)),
        r matches Some(n) ==> n == decimal_value(v@.subrange(from as int, to as int)),
{
    let mut acc: u32 = 0;
    let mut ok = true;
    let mut i: usize = from;
    while i < to
        invariant
            from <= i <= to <= v.len(),
            to - from <= 9,
            ok == all_ascii_digits(v@.subrange(from as int, i as int)),
            ok ==> acc == decimal_value(v@.subrange(from as int, i as int)),
            ok ==> acc < pow10((i - from) as nat),
            !ok ==> acc == 0,
        decreases to - i,
    {
        let ghost before = v@.subrange(from as int, i as int);
        let ghost after = v@.subrange(from as int, i + 1);
        proof {
            assert(after.drop_last() =~= before);
            assert(after.last() == v[i as int]);
            assert(forall|j: int| 0 <= j < before.len() ==> after[j] == before[j]);
            reveal_with_fuel(pow10, 10);
        }
        match char_to_digit(v[i]) {
            Some(d) => {
                if ok {
                    assert(all_ascii_digits(after));
                    acc = acc * 10 + d;
                } else {
                    proof {
                        let j = choose|j: int|
                            0 <= j < before.len() && !is_ascii_digit(#[trigger] before[j]);
                        assert(!is_ascii_digit(after[j]));
                    }
                }
            },
            None => {
                assert(!is_ascii_digit(after[i - from]));
                ok = false;
                acc = 0;
            },
        }
        i += 1;
    }
    if ok {
        Some(acc)
    } else {
        None
    }
}

/// The number of a short code, see [`small_code`].
pub fn read_small_code(s: &str) -> (r: Option<u32>)
    ensures
        r is Some <==> small_code(s@) is Some,
        r matches Some(n) ==> n == small_code(s@).unwrap() && n < 1000,
{
    let v = chars_of(s);
    let len = v.len();
    if len < 1 || len > 3 {
        return None;
    }
    assert(v@.subrange(0, len as int) =~= v@);
    if len > 1 && v[0] == '0' {
        return None;
    }
    let r = digits_value(&v, 0, len);
    proof {
        if r is Some {
            lemma_decimal_value_bound(v@);
            reveal_with_fuel(pow10, 4);
        }
    }
    r
}

/// The number of a two-digit code, see [`two_digit_code`].
pub fn read_two_digit_code(s: &str) -> (r: Option<u32>)
    ensures
        r is Some <==> two_digit_code(s@) is Some,
        r matches Some(n) ==> n == two_digit_code(s@).unwrap() && n < 100,
{
    let v = chars_of(s);
    if v.len() != 2 {
        return None;
    }
    assert(v@.subrange(0, 2) =~= v@);
    let r = digits_value(&v, 0, 2);
    proof {
        if r is Some {
            lemma_decimal_value_bound(v@);
            reveal_with_fuel(pow10, 3);
        }
    }
    r
}

/// The digits of a number read back give the number: as a run of digits,
/// as a short code, and as text that std reads.
pub proof fn lemma_decimal_round_trip(n: nat)
    ensures
        decimal(n).len() >= 1,
        all_ascii_digits(decimal(n)),
        decimal_value(decimal(n)) == n,
        decimal(n).len() == 1 || decimal(n)[0] != '0',
        unsigned_text(decimal(n)) == Some(n),
        n < 10 <==> decimal(n).len() == 1,
        10 <= n < 100 ==> decimal(n).len() == 2,
        100 <= n < 1000 ==> decimal(n).len() == 3,
        n < 1000 ==> small_code(decimal(n)) == Some(n),
    decreases n,
{
    let s = decimal(n);
    if n >= 10 {
        lemma_decimal_round_trip(n / 10);
        let d = decimal(n / 10);
        assert(s.drop_last() =~= d);
        assert(s.last() == digit_char(n % 10));
        assert(s[0] == d[0]);
        if d.len() == 1 {
            assert(d[0] == digit_char(n / 10));
        }
        assert forall|i: int| 0 <= i < s.len() implies is_ascii_digit(#[trigger] s[i]) by {
            if i < d.len() {
                assert(s[i] == d[i]);
            }
        }
        assert(decimal_value(s) == decimal_value(d) * 10 + digit_value(s.last()));
    } else {
        assert(s.drop_last() =~= Seq::<char>::empty());
        assert(s.last() == digit_char(n));
        assert(decimal_value(s.drop_last()) == 0);
        assert(decimal_value(s) == decimal_value(s.drop_last()) * 10 + digit_value(s.last()));
    }
    assert(s[0] != '+');
}

/// Zeros in front of a run of digits do not change the number it writes.
pub proof fn lemma_leading_zeros(count: nat, s: Seq<char>)
    ensures
        decimal_value(Seq::new(count, |i: int| '0') + s) == decimal_value(s),
    decreases s.len(), count,
{
    let zeros = Seq::new(count, |i: int| '0');
    if s.len() == 0 {
        assert(zeros + s =~= zeros);
        if count > 0 {
            assert(zeros.drop_last() =~= Seq::new((count - 1) as nat, |i: int| '0'));
            lemma_leading_zeros((count - 1) as nat, s);
            assert(Seq::new((count - 1) as nat, |i: int| '0') + s =~= zeros.drop_last());
        }
    } else {
        assert((zeros + s).drop_last() =~= zeros + s.drop_last());
        lemma_leading_zeros(count, s.drop_last());
    }
}

/// A number of at most `width` digits, zero padded to `width`, is `width`
/// digits that write the number.
pub proof fn lemma_padded_round_trip(n: nat, width: nat)
    requires
        width >= 1,
        n < pow10(width),
    ensures
        padded(n, width).len() == width,
        all_ascii_digits(padded(n, width)),
        decimal_value(padded(n, width)) == n,
{
    lemma_decimal_round_trip(n);
    lemma_decimal_length(n);
    let d = decimal(n);
    if d.len() > width {
        lemma_pow10_monotonic(width, (d.len() - 1) as nat);
        assert(false);
    }
    if d.len() < width {
        lemma_leading_zeros((width - d.len()) as nat, d);
        let zeros = Seq::new((width - d.len()) as nat, |i: int| '0');
        assert(padded(n, width) == zeros + d);
        assert forall|i: int| 0 <= i < width implies is_ascii_digit(
            #[trigger] padded(n, width)[i],
        ) by {
            if i >= zeros.len() {
                assert(padded(n, width)[i] == d[i - zeros.len()]);
            }
        }
    }
}

/// The digits of a number are as many as its size asks for.
pub proof fn lemma_decimal_length(n: nat)
    ensures
        pow10((decimal(n).len() - 1) as nat) <= n || n == 0,
        n < pow10(decimal(n).len()),
    decreases n,
{
    reveal_with_fuel(pow10, 2);
    if n >= 10 {
        lemma_decimal_length(n / 10);
    }
}

/// Powers of ten grow with the exponent.
pub proof fn lemma_pow10_monotonic(a: nat, b: nat)
    requires
        a <= b,
    ensures
        pow10(a) <= pow10(b),
        pow10(a) >= 1,
    decreases b,
{
    if a < b {
        lemma_pow10_monotonic(a, (b - 1) as nat);
    } else if a > 0 {
        lemma_pow10_monotonic((a - 1) as nat, (a - 1) as nat);
    }
}

/// A run of digits cut in two is two runs of digits.
pub proof fn lemma_digits_split(s: Seq<char>, k: int)
    requires
        0 <= k <= s.len(),
    ensures
        all_ascii_digits(s) <==> all_ascii_digits(s.subrange(0, k)) && all_ascii_digits(
            s.subrange(k, s.len() as int),
        ),
{
    let a = s.subrange(0, k);
    let b = s.subrange(k, s.len() as int);
    if all_ascii_digits(s) {
        assert forall|i: int| 0 <= i < a.len() implies is_ascii_digit(#[trigger] a[i]) by {
            assert(a[i] == s[i]);
        }
        assert forall|i: int| 0 <= i < b.len() implies is_ascii_digit(#[trigger] b[i]) by {
            assert(b[i] == s[i + k]);
        }
    }
    if all_ascii_digits(a) && all_ascii_digits(b) {
        assert forall|i: int| 0 <= i < s.len() implies is_ascii_digit(#[trigger] s[i]) by {
            if i < k {
                assert(s[i] == a[i]);
            } else {
                assert(s[i] == b[i - k]);
            }
        }
    }
}

/// std's `str::parse::<u32>`. The result is the number that `s` writes where
/// `s` is an optional `+` and digits and the number fits; every other text is
/// an error.
#[verifier::external_body]
pub(crate) fn parse_u32(s: &str) -> (r: Result<u32, std::num::ParseIntError>)
    ensures
        match r {
            Ok(v) => unsigned_text(s@) == Some(v as nat),
            Err(_) => unsigned_text(s@) is None || unsigned_text(s@).unwrap() > u32::MAX,
        },
{
    s.parse::<u32>()
}

/// std's `str::parse::<i32>`. The result is the number that `s` writes where
/// `s` is an optional sign and digits and the number fits; every other text is
/// an error.
#[verifier::external_body]
pub(crate) fn parse_i32(s: &str) -> (r: Result<i32, std::num::ParseIntError>)
    ensures
        match r {
            Ok(v) => signed_text(s@) == Some(v as int),
            Err(_) => signed_text(s@) is None || signed_text(s@).unwrap() > i32::MAX
                || signed_text(s@).unwrap() < i32::MIN,
        },
{
    s.parse::<i32>()
}

/// The character of a digit.
pub fn digit_to_char(d: u32) -> (c: char)
    requires
        d < 10,
    ensures
        c == digit_char(d as nat),
        is_ascii_digit(c),
        digit_value(c) == d,
{
    if d == 0 {
        '0'
    } else if d == 1 {
        '1'
    } else if d == 2 {
        '2'
    } else if d == 3 {
        '3'
    } else if d == 4 {
        '4'
    } else if d == 5 {
        '5'
    } else if d == 6 {
        '6'
    } else if d == 7 {
        '7'
    } else if d == 8 {
        '8'
    } else {
        '9'
    }
}

/// The digit of a character, if it is one of `0` to `9`.
pub fn char_to_digit(c: char) -> (d: Option<u32>)
    ensures
        d is Some <==> is_ascii_digit(c),
        d matches Some(v) ==> v == digit_value(c) && v < 10,
{
    if c == '0' {
        Some(0)
    } else if c == '1' {
        Some(1)
    } else if c == '2' {
        Some(2)
    } else if c == '3' {
        Some(3)
    } else if c == '4' {
        Some(4)
    } else if c == '5' {
        Some(5)
    } else if c == '6' {
        Some(6)
    } else if c == '7' {
        Some(7)
    } else if c == '8' {
        Some(8)
    } else if c == '9' {
        Some(9)
    } else {
        None
    }
}

/// The decimal digits of `n`.
pub fn decimal_string(n: u64) -> (r: String)
    ensures
        r@ == decimal(n as nat),
    decreases n,
{
    if n < 10 {
        let mut r = String::new();
        r.push(digit_to_char(n as u32));
        assert(r@ =~= decimal(n as nat));
        r
    } else {
        let mut r = decimal_string(n / 10);
        r.push(digit_to_char((n % 10) as u32));
        r
    }
}

/// Appends `count` zeros to `out`.
fn push_zeros(out: &mut String, count: usize)
    ensures
        final(out)@ == old(out)@ + Seq::new(count as nat, |i: int| '0'),
{
    let mut i: usize = 0;
    while i < count
        invariant
            i <= count,
            out@ == old(out)@ + Seq::new(i as nat, |j: int| '0'),
        decreases count - i,
    {
        out.push('0');
        i += 1;
        assert(out@ =~= old(out)@ + Seq::new(i as nat, |j: int| '0'));
    }
}

/// The digits of `n`, zero padded to `width`.
pub fn padded_string(n: u64, width: usize) -> (r: String)
    ensures
        r@ == padded(n as nat, width as nat),
{
    let digits = decimal_string(n);
    let len = digits.as_str().unicode_len();
    if len >= width {
        digits
    } else {
        let mut r = String::new();
        push_zeros(&mut r, width - len);
        r.append(digits.as_str());
        assert(r@ =~= padded(n as nat, width as nat));
        r
    }
}

/// A signed number, zero padded to `width` with the sign counted in.
pub fn signed_padded_string(v: i64, width: usize) -> (r: String)
    requires
        v > i64::MIN,
    ensures
        r@ == signed_padded(v as int, width as nat),
{
    if v < 0 {
        let mut r = String::new();
        r.push('-');
        let body = padded_string((-v) as u64, if width >= 1 {
            width - 1
        } else {
            0
        });
        r.append(body.as_str());
        assert(r@ =~= signed_padded(v as int, width as nat));
        r
    } else {
        padded_string(v as u64, width)
    }
}

} // verus!
