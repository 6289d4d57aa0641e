//! Decimal digit strings: rendering a number as its decimal digits, the value
//! a digit string denotes, and parsing of signed 32-bit integer tokens as they
//! appear in an HTTP status line.

use vstd::prelude::*;

verus! {

use vstd::string::StrSliceExecFns;
use vstd::string::StringExecFns;

/// The character for one decimal digit value.
pub open spec fn digit_char(d: int) -> char {
    if d == 0 { '0' }
    else if d == 1 { '1' }
    else if d == 2 { '2' }
    else if d == 3 { '3' }
    else if d == 4 { '4' }
    else if d == 5 { '5' }
    else if d == 6 { '6' }
    else if d == 7 { '7' }
    else if d == 8 { '8' }
    else { '9' }
}

/// Whether `c` is a decimal digit.
pub open spec fn is_digit_char(c: char) -> bool {
    c == '0' || c == '1' || c == '2' || c == '3' || c == '4'
    || c == '5' || c == '6' || c == '7' || c == '8' || c == '9'
}

/// The value of one digit character; non-digits count as zero, which keeps
/// `dec_value` total and monotone under extension.
pub open spec fn digit_val(c: char) -> int {
    if c == '0' { 0 }
    else if c == '1' { 1 }
    else if c == '2' { 2 }
    else if c == '3' { 3 }
    else if c == '4' { 4 }
    else if c == '5' { 5 }
    else if c == '6' { 6 }
    else if c == '7' { 7 }
    else if c == '8' { 8 }
    else if c == '9' { 9 }
    else { 0 }
}

/// The decimal rendering of `n`: no sign, no leading zero except for `n == 0`.
pub open spec fn dec_digits(n: nat) -> Seq<char>
    decreases n,
{
    if n < 10 {
        seq![digit_char(n as int)]
    } else {
        dec_digits(n / 10).push(digit_char((n % 10) as int))
    }
}

/// The number a digit string denotes, read in base ten.
pub open spec fn dec_value(s: Seq<char>) -> nat
    decreases s.len(),
{
    if s.len() == 0 {
        0
    } else {
        dec_value(s.drop_last()) * 10 + digit_val(s.last()) as nat
    }
}

/// Whether every character of `s` is a decimal digit.
pub open spec fn all_digits(s: Seq<char>) -> bool {
    forall|j: int| 0 <= j < s.len() ==> is_digit_char(s[j])
}

/// A digit character maps back to the digit it was made from.
pub proof fn lemma_digit_roundtrip(d: int)
    requires
        0 <= d < 10,
    ensures
        digit_val(digit_char(d)) == d,
        is_digit_char(digit_char(d)),
{
}

/// The decimal rendering of a number denotes that number, is never empty, and
/// consists of digits only.
pub proof fn lemma_dec_digits_value(n: nat)
    ensures
        dec_value(dec_digits(n)) == n,
        dec_digits(n).len() > 0,
        all_digits(dec_digits(n)),
    decreases n,
{
    if n < 10 {
        let s = dec_digits(n);
        lemma_digit_roundtrip(n as int);
        assert(s.drop_last() =~= Seq::<char>::empty());
        assert(dec_value(Seq::<char>::empty()) == 0);
        assert(s.last() == digit_char(n as int));
        assert(dec_value(s) == n);
        assert forall|j: int| 0 <= j < s.len() implies is_digit_char(s[j]) by {
            assert(s[j] == digit_char(n as int));
        }
    } else {
        lemma_dec_digits_value(n / 10);
        lemma_digit_roundtrip((n % 10) as int);
        let s = dec_digits(n);
        assert(s.drop_last() =~= dec_digits(n / 10));
        assert(s.last() == digit_char((n % 10) as int));
        assert(dec_value(s) == (n / 10) * 10 + n % 10);
        assert((n / 10) * 10 + n % 10 == n) by (nonlinear_arith);
        assert forall|j: int| 0 <= j < s.len() implies is_digit_char(s[j]) by {
            if j < s.len() - 1 {
                assert(s[j] == dec_digits(n / 10)[j]);
            } else {
                assert(s[j] == digit_char((n % 10) as int));
            }
        }
    }
}

/// A prefix of a digit string never denotes more than the whole string.
pub proof fn lemma_dec_value_prefix_le(s: Seq<char>, k: int)
    requires
        0 <= k <= s.len(),
    ensures
        dec_value(s.subrange(0, k)) <= dec_value(s),
    decreases s.len(),
{
    if k == s.len() {
        assert(s.subrange(0, k) =~= s);
    } else {
        lemma_dec_value_prefix_le(s.drop_last(), k);
        assert(s.drop_last().subrange(0, k) =~= s.subrange(0, k));
        assert(dec_value(s) >= dec_value(s.drop_last()));
    }
}

/// The string for one digit value.
pub fn digit_to_str(d: usize) -> (r: &'static str)
    requires
        d < 10,
    ensures
        r@ =~= seq![digit_char(d as int)],
{
    proof {
        reveal_strlit("0");
        reveal_strlit("1");
        reveal_strlit("2");
        reveal_strlit("3");
        reveal_strlit("4");
        reveal_strlit("5");
        reveal_strlit("6");
        reveal_strlit("7");
        reveal_strlit("8");
        reveal_strlit("9");
    }
    if d == 0 { "0" }
    else if d == 1 { "1" }
    else if d == 2 { "2" }
    else if d == 3 { "3" }
    else if d == 4 { "4" }
    else if d == 5 { "5" }
    else if d == 6 { "6" }
    else if d == 7 { "7" }
    else if d == 8 { "8" }
    else { "9" }
}

/// Renders `n` in decimal.
pub fn usize_to_dec(n: usize) -> (r: String)
    ensures
        r@ == dec_digits(n as nat),
    decreases n,
{
    if n < 10 {
        digit_to_str(n).to_owned()
    } else {
        let mut s = usize_to_dec(n / 10);
        s.append(digit_to_str(n % 10));
        s
    }
}

/// The decimal rendering of a signed number: a minus sign where negative.
pub open spec fn int_dec_digits(n: int) -> Seq<char> {
    if n < 0 {
        seq!['-'] + dec_digits((-n) as nat)
    } else {
        dec_digits(n as nat)
    }
}

/// Renders a signed 32-bit number in decimal.
pub fn i32_to_dec(n: i32) -> (r: String)
    ensures
        r@ == int_dec_digits(n as int),
{
    proof {
        reveal_strlit("-");
    }
    if n < 0 {
        let mag: usize = (-(n as i64)) as usize;
        let mut s = "-".to_owned();
        let digits = usize_to_dec(mag);
        s.append(digits.as_str());
        proof {
            assert(s@ =~= seq!['-'] + dec_digits((-(n as int)) as nat));
        }
        s
    } else {
        usize_to_dec(n as usize)
    }
}

/// The digit part of an integer token: what follows an optional leading sign.
pub open spec fn token_digits(t: Seq<char>) -> Seq<char> {
    if t.len() > 0 && (t[0] == '-' || t[0] == '+') {
        t.drop_first()
    } else {
        t
    }
}

/// Whether the token is negative.
pub open spec fn token_negative(t: Seq<char>) -> bool {
    t.len() > 0 && t[0] == '-'
}

/// Whether `t` is an integer token a 32-bit parse accepts: an optional sign,
/// then at least one digit, denoting a value in the range of `i32`.
pub open spec fn is_i32_token(t: Seq<char>) -> bool {
    &&& token_digits(t).len() > 0
    &&& all_digits(token_digits(t))
    &&& (if token_negative(t) {
        dec_value(token_digits(t)) <= 0x8000_0000
    } else {
        dec_value(token_digits(t)) <= 0x7fff_ffff
    })
}

/// The value an accepted token denotes.
pub open spec fn i32_token_value(t: Seq<char>) -> int {
    if token_negative(t) {
        -(dec_value(token_digits(t)) as int)
    } else {
        dec_value(token_digits(t)) as int
    }
}

/// Executable mirror of `is_digit_char` with the digit's value.
fn digit_of(c: char) -> (r: Option<usize>)
    ensures
        r is Some <==> is_digit_char(c),
        r is Some ==> r->0 == digit_val(c),
        r is Some ==> r->0 < 10,
{
    if c == '0' { Some(0) }
    else if c == '1' { Some(1) }
    else if c == '2' { Some(2) }
    else if c == '3' { Some(3) }
    else if c == '4' { Some(4) }
    else if c == '5' { Some(5) }
    else if c == '6' { Some(6) }
    else if c == '7' { Some(7) }
    else if c == '8' { Some(8) }
    else if c == '9' { Some(9) }
    else { None }
}

/// Parses a signed 32-bit integer token: `Some` exactly on the tokens
/// `is_i32_token` accepts, with the value the token denotes.
#[verifier::loop_isolation(false)]
pub fn parse_i32_token(t: &str) -> (r: Option<i32>)
    ensures
        r is Some <==> is_i32_token(t@),
        r is Some ==> r->0 as int == i32_token_value(t@),
{
    let n = t.unicode_len();
    if n == 0 {
        return None;
    }
    let first = t.get_char(0);
    let neg = first == '-';
    let start: usize = if first == '-' || first == '+' { 1 } else { 0 };
    proof {
        assert(token_digits(t@) =~= if start == 1 { t@.drop_first() } else { t@ });
    }
    if n == start {
        return None;
    }
    let cap: u64 = if neg { 0x8000_0000 } else { 0x7fff_ffff };
    let ghost digits = token_digits(t@);
    let mut v: u64 = 0;
    let mut k: usize = start;
    while k < n
        invariant
            start <= k <= n,
            n == t@.len(),
            digits == token_digits(t@),
            digits.len() == n - start,
            v == dec_value(digits.subrange(0, k - start)),
            v <= cap,
            all_digits(digits.subrange(0, k - start)),
        decreases n - k,
    {
        let c = t.get_char(k);
        proof {
            if start == 1 {
                assert(digits[k - 1] == t@[k as int]);
            }
        }
        match digit_of(c) {
            None => {
                proof {
                    assert(!is_digit_char(digits[k - start]));
                }
                return None;
            },
            Some(d) => {
                proof {
                    let pre = digits.subrange(0, k - start);
                    let cur = digits.subrange(0, k + 1 - start);
                    assert(cur.drop_last() =~= pre);
                    assert(cur.last() == digits[k - start]);
                    assert(dec_value(cur) == dec_value(pre) * 10 + digit_val(c));
                    assert forall|j: int| 0 <= j < cur.len() implies is_digit_char(cur[j]) by {
                        if j < cur.len() - 1 {
                            assert(cur[j] == pre[j]);
                        } else {
                            assert(cur[j] == c);
                        }
                    }
                }
                v = v * 10 + (d as u64);
                if v > cap {
                    proof {
                        lemma_dec_value_prefix_le(digits, k + 1 - start);
                    }
                    return None;
                }
            },
        }
        k = k + 1;
    }
    proof {
        assert(digits.subrange(0, n - start) =~= digits);
    }
    if neg {
        let w: i64 = -(v as i64);
        Some(w as i32)
    } else {
        Some(v as i32)
    }
}

} // verus!
