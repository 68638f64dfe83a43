//! Decimal text: parsing unsigned integers from wire bytes and from
//! operator input, and rendering integers (whole and in hundredths) back
//! to text for device instructions and the option table.

use vstd::prelude::*;
use vstd::string::StrSliceExecFns;
use vstd::string::StringExecFns;

verus! {

/// A byte is an ASCII decimal digit.
pub open spec fn is_digit_byte(b: u8) -> bool {
    48 <= b && b <= 57
}

/// A character is an ASCII decimal digit.
pub open spec fn is_digit_char(c: char) -> bool {
    '0' <= c && c <= '9'
}

/// Every byte of the sequence is an ASCII decimal digit.
pub open spec fn all_digit_bytes(s: Seq<u8>) -> bool {
    forall|i: int| 0 <= i < s.len() ==> is_digit_byte(#[trigger] s[i])
}

/// Every character of the sequence is an ASCII decimal digit.
pub open spec fn all_digit_chars(s: Seq<char>) -> bool {
    forall|i: int| 0 <= i < s.len() ==> is_digit_char(#[trigger] s[i])
}

/// Numeric value of a sequence of ASCII digit bytes, most significant first.
pub open spec fn digits_val(s: Seq<u8>) -> nat
    recommends
        all_digit_bytes(s),
    decreases s.len(),
{
    if s.len() == 0 {
        0
    } else {
        (digits_val(s.drop_last()) * 10 + (s.last() - 48)) as nat
    }
}

/// Numeric value of a sequence of ASCII digit characters, most significant first.
pub open spec fn digits_val_chars(s: Seq<char>) -> nat
    recommends
        all_digit_chars(s),
    decreases s.len(),
{
    if s.len() == 0 {
        0
    } else {
        (digits_val_chars(s.drop_last()) * 10 + (s.last() as int - 48)) as nat
    }
}

/// What `str::parse::<u32>` accepts: an optional leading `+`, then one or
/// more decimal digits whose value fits in a `u32`.
pub open spec fn spec_parse_u32(s: Seq<u8>) -> Option<u32> {
    let t = if s.len() > 0 && s[0] == 43 {
        s.drop_first()
    } else {
        s
    };
    if t.len() > 0 && all_digit_bytes(t) && digits_val(t) <= u32::MAX {
        Some(digits_val(t) as u32)
    } else {
        None
    }
}

/// `spec_parse_u32` over characters instead of bytes.
pub open spec fn spec_parse_u32_chars(s: Seq<char>) -> Option<u32> {
    let t = if s.len() > 0 && s[0] == '+' {
        s.drop_first()
    } else {
        s
    };
    if t.len() > 0 && all_digit_chars(t) && digits_val_chars(t) <= u32::MAX {
        Some(digits_val_chars(t) as u32)
    } else {
        None
    }
}

/// A longer run of digits never has a smaller value than one of its prefixes.
proof fn lemma_digits_val_prefix_le(s: Seq<u8>, k: int)
    requires
        0 <= k <= s.len(),
        all_digit_bytes(s),
    ensures
        digits_val(s.subrange(0, k)) <= digits_val(s),
    decreases s.len() - k,
{
    if k == s.len() {
        assert(s.subrange(0, k) =~= s);
    } else {
        lemma_digits_val_prefix_le(s, k + 1);
        let p = s.subrange(0, k + 1);
        assert(p.drop_last() =~= s.subrange(0, k));
        assert(digits_val(s.subrange(0, k)) <= digits_val(p));
    }
}

proof fn lemma_digits_val_chars_prefix_le(s: Seq<char>, k: int)
    requires
        0 <= k <= s.len(),
        all_digit_chars(s),
    ensures
        digits_val_chars(s.subrange(0, k)) <= digits_val_chars(s),
    decreases s.len() - k,
{
    if k == s.len() {
        assert(s.subrange(0, k) =~= s);
    } else {
        lemma_digits_val_chars_prefix_le(s, k + 1);
        let p = s.subrange(0, k + 1);
        assert(p.drop_last() =~= s.subrange(0, k));
        assert(digits_val_chars(s.subrange(0, k)) <= digits_val_chars(p));
    }
}

/// Parse the region `bytes[from..to]` as `str::parse::<u32>` would.
#[verifier::loop_isolation(false)]
pub fn parse_u32_region(bytes: &[u8], from: usize, to: usize) -> (r: Option<u32>)
    requires
        from <= to <= bytes@.len(),
    ensures
        r == spec_parse_u32(bytes@.subrange(from as int, to as int)),
{
    let ghost region = bytes@.subrange(from as int, to as int);
    let mut i = from;
    if i < to && bytes[i] == 43 {
        i = i + 1;
    }
    let ghost t = region.subrange(i - from, region.len() as int);
    proof {
        if region.len() > 0 && region[0] == 43 {
            assert(t =~= region.drop_first());
        } else {
            assert(t =~= region);
        }
    }
    if i == to {
        return None;
    }
    let ghost start = i as int;
    let mut acc: u32 = 0;
    while i < to
        invariant
            start <= i <= to <= bytes@.len(),
            t =~= bytes@.subrange(start, to as int),
            t.len() > 0,
            all_digit_bytes(t.subrange(0, i - start)),
            acc == digits_val(t.subrange(0, i - start)),
        decreases to - i,
    {
        let b = bytes[i];
        proof {
            assert(t[i - start] == bytes@[i as int]);
        }
        if b < 48 || b > 57 {
            assert(!all_digit_bytes(t));
            return None;
        }
        let d = (b - 48) as u32;
        if acc > (u32::MAX - d) / 10 {
            // The value no longer fits in a u32; later digits only grow it.
            proof {
                let p = t.subrange(0, i + 1 - start);
                assert(p.drop_last() =~= t.subrange(0, i - start));
                assert(digits_val(p) > u32::MAX);
                if all_digit_bytes(t) {
                    lemma_digits_val_prefix_le(t, i + 1 - start);
                }
            }
            return None;
        }
        proof {
            let p = t.subrange(0, i + 1 - start);
            assert(p.drop_last() =~= t.subrange(0, i - start));
            assert(p.last() == b);
        }
        acc = acc * 10 + d;
        i = i + 1;
    }
    proof {
        assert(t.subrange(0, to as int - start) =~= t);
    }
    Some(acc)
}

/// Parse a whole `&str` as `str::parse::<u32>` would.
#[verifier::loop_isolation(false)]
pub fn parse_u32_str(s: &str) -> (r: Option<u32>)
    ensures
        r == spec_parse_u32_chars(s@),
{
    let n = s.unicode_len();
    let mut i: usize = 0;
    if i < n && s.get_char(i) == '+' {
        i = 1;
    }
    let ghost t = s@.subrange(i as int, n as int);
    proof {
        if s@.len() > 0 && s@[0] == '+' {
            assert(t =~= s@.drop_first());
        } else {
            assert(t =~= s@);
        }
    }
    if i == n {
        return None;
    }
    let ghost start = i as int;
    let mut acc: u32 = 0;
    while i < n
        invariant
            start <= i <= n == s@.len(),
            t =~= s@.subrange(start, n as int),
            t.len() > 0,
            all_digit_chars(t.subrange(0, i - start)),
            acc == digits_val_chars(t.subrange(0, i - start)),
        decreases n - i,
    {
        let c = s.get_char(i);
        proof {
            assert(t[i - start] == s@[i as int]);
        }
        if c < '0' || c > '9' {
            assert(!all_digit_chars(t));
            return None;
        }
        let d = (c as u32) - 48;
        proof {
            assert('0' <= c <= '9' ==> 48 <= c as u32 <= 57);
        }
        if acc > (u32::MAX - d) / 10 {
            proof {
                let p = t.subrange(0, i + 1 - start);
                assert(p.drop_last() =~= t.subrange(0, i - start));
                assert(digits_val_chars(p) > u32::MAX);
                if all_digit_chars(t) {
                    lemma_digits_val_chars_prefix_le(t, i + 1 - start);
                }
            }
            return None;
        }
        proof {
            let p = t.subrange(0, i + 1 - start);
            assert(p.drop_last() =~= t.subrange(0, i - start));
            assert(p.last() == c);
        }
        acc = acc * 10 + d;
        i = i + 1;
    }
    proof {
        assert(t.subrange(0, n as int - start) =~= t);
    }
    Some(acc)
}

/// The character for a single decimal digit.
pub open spec fn digit_char(d: nat) -> char
    recommends
        d < 10,
{
    if d == 0 {
        '0'
    } else if d == 1 {
        '1'
    } else if d == 2 {
        '2'
    } else if d == 3 {
        '3'
    } else if d == 4 {
        '4'
    } else if d == 5 {
        '5'
    } else if d == 6 {
        '6'
    } else if d == 7 {
        '7'
    } else if d == 8 {
        '8'
    } else {
        '9'
    }
}

/// The decimal rendering of a natural number, most significant digit first,
/// without leading zeros (except for the number zero itself).
pub open spec fn dec_chars(n: nat) -> Seq<char>
    decreases n,
{
    if n < 10 {
        seq![digit_char(n)]
    } else {
        dec_chars(n / 10).push(digit_char(n % 10))
    }
}

/// The rendering of a quantity counted in hundredths: the whole part in
/// decimal, a point, and exactly two fractional digits.
pub open spec fn centi_chars(n: nat) -> Seq<char> {
    dec_chars(n / 100) + seq!['.', digit_char((n / 10) % 10), digit_char(n % 10)]
}

/// A decimal rendering consists of ASCII characters only.
pub broadcast proof fn lemma_dec_chars_ascii(n: nat)
    ensures
        vstd::utf8::is_ascii_chars(#[trigger] dec_chars(n)),
        forall|i: int| 0 <= i < dec_chars(n).len() ==> is_digit_char(#[trigger] dec_chars(n)[i]),
    decreases n,
{
    if n >= 10 {
        lemma_dec_chars_ascii(n / 10);
    }
}

fn digit_str(d: u64) -> (s: &'static str)
    requires
        d < 10,
    ensures
        s@ =~= seq![digit_char(d as nat)],
{
    proof {
        reveal_strlit("0");
        reveal_strlit("1");
        reveal_strlit("2");
        reveal_strlit("3");
        reveal_strlit("4");
        reveal_strlit("5");
        reveal_strlit("6");
        reveal_strlit("7");
        reveal_strlit("8");
        reveal_strlit("9");
    }
    if d == 0 {
        "0"
    } else if d == 1 {
        "1"
    } else if d == 2 {
        "2"
    } else if d == 3 {
        "3"
    } else if d == 4 {
        "4"
    } else if d == 5 {
        "5"
    } else if d == 6 {
        "6"
    } else if d == 7 {
        "7"
    } else if d == 8 {
        "8"
    } else {
        "9"
    }
}

/// Render a number in decimal.
pub fn u64_to_dec(n: u64) -> (s: String)
    ensures
        s@ == dec_chars(n as nat),
    decreases n,
{
    if n < 10 {
        String::from_str(digit_str(n))
    } else {
        let front = u64_to_dec(n / 10);
        let s = front.concat(digit_str(n % 10));
        proof {
            assert(s@ =~= dec_chars((n / 10) as nat).push(digit_char((n % 10) as nat)));
        }
        s
    }
}

/// Render a number in decimal.
pub fn u32_to_dec(n: u32) -> (s: String)
    ensures
        s@ == dec_chars(n as nat),
{
    u64_to_dec(n as u64)
}

/// Render a quantity counted in hundredths with exactly two decimal places.
pub fn centi_to_dec(n: u64) -> (s: String)
    ensures
        s@ == centi_chars(n as nat),
{
    let whole = u64_to_dec(n / 100);
    let with_point = whole.concat(".");
    let with_tens = with_point.concat(digit_str((n / 10) % 10));
    let s = with_tens.concat(digit_str(n % 10));
    proof {
        reveal_strlit(".");
        assert(s@ =~= centi_chars(n as nat));
    }
    s
}

/// The characters of a hundredths rendering are ASCII.
pub broadcast proof fn lemma_centi_chars_ascii(n: nat)
    ensures
        vstd::utf8::is_ascii_chars(#[trigger] centi_chars(n)),
{
    lemma_dec_chars_ascii(n / 100);
}

/// The bytes of an ASCII character sequence, one byte per character.
pub open spec fn ascii_bytes(s: Seq<char>) -> Seq<u8> {
    Seq::new(s.len(), |i: int| s[i] as u8)
}

/// The bytes of an ASCII string, one byte per character.
pub fn string_ascii_bytes(s: &String) -> (v: Vec<u8>)
    requires
        vstd::utf8::is_ascii_chars(s@),
    ensures
        v@ == ascii_bytes(s@),
{
    let v = s.as_str().as_bytes_vec();
    proof {
        vstd::utf8::is_ascii_chars_encode_utf8(s@);
        assert(v@ =~= ascii_bytes(s@));
    }
    v
}

/// Ten to the given power.
pub open spec fn pow10(d: nat) -> nat
    decreases d,
{
    if d == 0 {
        1
    } else {
        10 * pow10((d - 1) as nat)
    }
}

/// How many decimal digits a number has (one for zero).
pub open spec fn num_digits(m: nat) -> nat
    decreases m,
{
    if m < 10 {
        1
    } else {
        1 + num_digits(m / 10)
    }
}

/// Every number is below ten to its own digit count.
pub proof fn lemma_below_pow10_of_digits(m: nat)
    ensures
        m < pow10(num_digits(m)),
        pow10(num_digits(m)) >= 10,
    decreases m,
{
    if m < 10 {
        assert(pow10(1) == 10) by {
            reveal_with_fuel(pow10, 2);
        }
    } else {
        lemma_below_pow10_of_digits(m / 10);
        let p = pow10(num_digits(m / 10));
        assert(pow10(num_digits(m)) == 10 * p);
        assert(m / 10 <= p - 1);
        assert(m < 10 * p);
    }
}

/// Digit counts are monotone in the bound: below ten to the `k`, a number
/// has at most `k` digits.
pub proof fn lemma_num_digits_le(m: nat, k: nat)
    requires
        m < pow10(k),
        1 <= k,
    ensures
        num_digits(m) <= k,
    decreases m,
{
    if m >= 10 {
        assert(pow10(k) == 10 * pow10((k - 1) as nat));
        assert(k >= 2) by {
            if k == 1 {
                assert(pow10(1nat) == 10) by {
                    reveal_with_fuel(pow10, 2);
                }
            }
        }
        lemma_num_digits_le(m / 10, (k - 1) as nat);
    }
}

/// Count the decimal digits of a number.
pub fn count_digits(m: u32) -> (d: u32)
    ensures
        d == num_digits(m as nat),
        1 <= d <= 10,
{
    proof {
        assert(pow10(10) == 10000000000) by {
            reveal_with_fuel(pow10, 11);
        }
        lemma_num_digits_le(m as nat, 10);
    }
    let mut rest = m;
    let mut d: u32 = 1;
    while rest >= 10
        invariant
            1 <= d,
            num_digits(m as nat) == num_digits(rest as nat) + d - 1,
            num_digits(m as nat) <= 10,
        decreases rest,
    {
        rest = rest / 10;
        d = d + 1;
    }
    d
}

/// Ten to the given power, executably.
pub fn pow10_u64(d: u32) -> (p: u64)
    requires
        d <= 10,
    ensures
        p == pow10(d as nat),
        p >= 1,
{
    let mut p: u64 = 1;
    let mut i: u32 = 0;
    while i < d
        invariant
            i <= d <= 10,
            p == pow10(i as nat),
        decreases d - i,
    {
        proof {
            assert(pow10(9) == 1000000000) by {
                reveal_with_fuel(pow10, 10);
            }
            lemma_pow10_le(i as nat, 9);
        }
        p = p * 10;
        i = i + 1;
    }
    proof {
        lemma_pow10_ge_one(d as nat);
    }
    p
}

pub proof fn lemma_pow10_le(a: nat, b: nat)
    requires
        a <= b,
    ensures
        pow10(a) <= pow10(b),
    decreases b,
{
    if a < b && b > 0 {
        lemma_pow10_le(a, (b - 1) as nat);
        assert(pow10((b - 1) as nat) >= 1) by {
            lemma_pow10_ge_one((b - 1) as nat);
        }
    }
}

pub proof fn lemma_pow10_ge_one(a: nat)
    ensures
        pow10(a) >= 1,
    decreases a,
{
    if a > 0 {
        lemma_pow10_ge_one((a - 1) as nat);
    }
}


} // verus!
