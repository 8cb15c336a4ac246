//! Decimal text of integers, the `i64` grammar of Rust's `str::parse`, and the
//! small string operations that the clients need.

use vstd::prelude::*;

verus! {

/// The character of a decimal digit `d` (`0 <= d < 10`).
pub open spec fn digit_char(d: int) -> char {
    (d + 48) as char
}

/// Whether `c` is an ASCII decimal digit.
pub open spec fn is_digit(c: char) -> bool {
    '0' <= c && c <= '9'
}

/// The value of the decimal digit `c`.
pub open spec fn digit_value(c: char) -> int {
    c as int - 48
}

/// Whether every character of `s` is an ASCII decimal digit.
pub open spec fn all_digits(s: Seq<char>) -> bool {
    forall|i: int| 0 <= i < s.len() ==> #[trigger] is_digit(s[i])
}

/// The number that the decimal digits `s` denote, most significant first.
pub open spec fn digits_value(s: Seq<char>) -> nat
    decreases s.len(),
{
    if s.len() == 0 {
        0
    } else {
        (digits_value(s.drop_last()) * 10 + digit_value(s.last())) as nat
    }
}

/// The decimal digits of `n`, most significant first, without leading zeros.
pub open spec fn decimal_digits(n: nat) -> Seq<char>
    decreases n,
{
    if n < 10 {
        seq![digit_char(n as int)]
    } else {
        decimal_digits(n / 10).push(digit_char((n % 10) as int))
    }
}

/// The decimal text of the integer `i`: a `-` before the digits of its
/// magnitude when it is negative.
pub open spec fn int_text(i: int) -> Seq<char> {
    if i < 0 {
        seq!['-'] + decimal_digits((-i) as nat)
    } else {
        decimal_digits(i as nat)
    }
}

/// What `str::parse::<i64>` accepts: an optional `+` or `-`, then at least
/// one ASCII digit and nothing else, denoting a value in the range of `i64`.
pub open spec fn parse_i64_spec(s: Seq<char>) -> Option<i64> {
    let neg = s.len() > 0 && s[0] == '-';
    let signed = s.len() > 0 && (s[0] == '-' || s[0] == '+');
    let digits = if signed { s.drop_first() } else { s };
    let v: int = if neg { -digits_value(digits) } else { digits_value(digits) as int };
    if digits.len() == 0 || !all_digits(digits) || v < i64::MIN || v > i64::MAX {
        None
    } else {
        Some(v as i64)
    }
}

/// A longer string of digits never denotes less than its prefix.
pub proof fn lemma_digits_value_prefix(s: Seq<char>, k: int)
    requires
        0 <= k <= s.len(),
        all_digits(s),
    ensures
        digits_value(s.take(k)) <= digits_value(s),
    decreases s.len(),
{
    if k < s.len() {
        let t = s.drop_last();
        assert(all_digits(t)) by {
            assert forall|i: int| 0 <= i < t.len() implies #[trigger] is_digit(t[i]) by {
                assert(is_digit(s[i]));
            }
        }
        assert(t.take(k) =~= s.take(k));
        lemma_digits_value_prefix(t, k);
        assert(is_digit(s[s.len() - 1]));
    } else {
        assert(s.take(k) =~= s);
    }
}

/// The decimal digits of `n` are digits, the first of them is no sign, and
/// they denote `n`.
pub proof fn lemma_decimal_digits(n: nat)
    ensures
        decimal_digits(n).len() > 0,
        all_digits(decimal_digits(n)),
        digits_value(decimal_digits(n)) == n,
        is_digit(decimal_digits(n)[0]),
    decreases n,
{
    let c = digit_char((n % 10) as int);
    assert(digit_value(c) == n % 10);
    if n < 10 {
        assert(decimal_digits(n).drop_last() =~= Seq::<char>::empty());
        assert(digits_value(Seq::<char>::empty()) == 0);
    } else {
        lemma_decimal_digits(n / 10);
        let d = decimal_digits(n);
        assert(d.drop_last() =~= decimal_digits(n / 10));
        assert(n == (n / 10) * 10 + n % 10);
        assert(d.last() == c);
        assert(digits_value(d) == digits_value(d.drop_last()) * 10 + digit_value(d.last()));
        assert forall|i: int| 0 <= i < d.len() implies #[trigger] is_digit(d[i]) by {
            if i < d.len() - 1 {
                assert(is_digit(decimal_digits(n / 10)[i]));
            }
        }
    }
}

/// Reading back the decimal text of any `i64` gives that `i64`.
pub proof fn lemma_int_text_parses_back(i: i64)
    ensures
        parse_i64_spec(int_text(i as int)) == Some(i),
{
    if i < 0 {
        let m = (-(i as int)) as nat;
        lemma_decimal_digits(m);
        let s = int_text(i as int);
        assert(s.drop_first() =~= decimal_digits(m));
    } else {
        lemma_decimal_digits(i as nat);
    }
}

/// The decimal digits of `n` start with `0` only when `n` is zero, and
/// then they are that one digit.
pub proof fn lemma_decimal_digits_lead(n: nat)
    ensures
        (decimal_digits(n)[0] == '0') == (n == 0),
        n == 0 ==> decimal_digits(n) == seq!['0'],
    decreases n,
{
    if n >= 10 {
        lemma_decimal_digits_lead(n / 10);
        assert(decimal_digits(n)[0] == decimal_digits(n / 10)[0]);
    }
}

/// The decimal text of `i`: a `-` exactly when `i` is negative (never a
/// `+`), then the digits of its magnitude, with no leading zero.
pub proof fn lemma_int_text_shape(i: int)
    ensures
        int_text(i).len() > 0,
        (int_text(i)[0] == '-') == (i < 0),
        int_text(i)[0] != '+',
        i >= 0 ==> all_digits(int_text(i)) && digits_value(int_text(i)) == i,
        i < 0 ==> all_digits(int_text(i).drop_first()) && digits_value(int_text(i).drop_first()) == -i,
        i >= 0 ==> (int_text(i)[0] == '0' ==> int_text(i).len() == 1),
        i < 0 ==> int_text(i).len() > 1 && int_text(i)[1] != '0',
{
    if i < 0 {
        let m = (-i) as nat;
        lemma_decimal_digits(m);
        lemma_decimal_digits_lead(m);
        assert(int_text(i).drop_first() =~= decimal_digits(m));
        assert(int_text(i)[1] == decimal_digits(m)[0]);
    } else {
        lemma_decimal_digits(i as nat);
        lemma_decimal_digits_lead(i as nat);
    }
}

/// `str::parse::<i64>` on one or more digits, bare, after `+` or after `-`:
/// the value they denote (negated after `-`) when it fits in `i64`, else
/// nothing.
pub proof fn lemma_parse_i64_digits(d: Seq<char>)
    requires
        d.len() > 0,
        all_digits(d),
    ensures
        digits_value(d) <= i64::MAX ==> parse_i64_spec(d) == Some(digits_value(d) as i64),
        digits_value(d) <= i64::MAX ==> parse_i64_spec(seq!['+'] + d) == Some(digits_value(d) as i64),
        digits_value(d) <= i64::MAX + 1 ==> parse_i64_spec(seq!['-'] + d) == Some((-digits_value(d)) as i64),
        digits_value(d) > i64::MAX ==> parse_i64_spec(d) is None && parse_i64_spec(seq!['+'] + d) is None,
        digits_value(d) > i64::MAX + 1 ==> parse_i64_spec(seq!['-'] + d) is None,
{
    assert(is_digit(d[0]));
    assert((seq!['+'] + d).drop_first() =~= d);
    assert((seq!['-'] + d).drop_first() =~= d);
}

/// `str::parse::<i64>` refuses the empty text, a lone sign, a first
/// character that is neither a sign nor a digit, and any later character
/// that is no digit.
pub proof fn lemma_parse_i64_refuses(s: Seq<char>, k: int)
    ensures
        s.len() == 0 ==> parse_i64_spec(s) is None,
        s == seq!['-'] || s == seq!['+'] ==> parse_i64_spec(s) is None,
        s.len() > 0 && s[0] != '-' && s[0] != '+' && !is_digit(s[0]) ==> parse_i64_spec(s) is None,
        0 < k < s.len() && !is_digit(s[k]) ==> parse_i64_spec(s) is None,
{
    if 0 < k < s.len() && !is_digit(s[k]) {
        if s[0] == '-' || s[0] == '+' {
            assert(s.drop_first()[k - 1] == s[k]);
        }
    }
}

/// `prefix` followed by `detail`, as one new string.
pub fn join(prefix: &str, detail: &str) -> (r: String)
    ensures
        r@ == prefix@ + detail@,
{
    let s = String::from_str(prefix);
    s.concat(detail)
}

/// Whether `a` and `b` hold the same characters.
pub fn str_equal(a: &str, b: &str) -> (r: bool)
    ensures
        r == (a@ == b@),
{
    let n = a.unicode_len();
    if n != b.unicode_len() {
        return false;
    }
    let mut i: usize = 0;
    while i < n
        invariant
            n == a@.len(),
            n == b@.len(),
            i <= n,
            forall|j: int| 0 <= j < i ==> a@[j] == b@[j],
        decreases n - i,
    {
        if a.get_char(i) != b.get_char(i) {
            return false;
        }
        i = i + 1;
    }
    assert(a@ =~= b@);
    true
}

/// The one-character text of the decimal digit `d`.
fn digit_text(d: u64) -> (t: &'static str)
    requires
        d < 10,
    ensures
        t@ == seq![digit_char(d as int)],
        is_digit(digit_char(d as int)),
{
    proof {
        reveal_strlit("0");
        reveal_strlit("1");
        reveal_strlit("2");
        reveal_strlit("3");
        reveal_strlit("4");
        reveal_strlit("5");
        reveal_strlit("6");
        reveal_strlit("7");
        reveal_strlit("8");
        reveal_strlit("9");
    }
    let t = if d == 0 {
        "0"
    } else if d == 1 {
        "1"
    } else if d == 2 {
        "2"
    } else if d == 3 {
        "3"
    } else if d == 4 {
        "4"
    } else if d == 5 {
        "5"
    } else if d == 6 {
        "6"
    } else if d == 7 {
        "7"
    } else if d == 8 {
        "8"
    } else {
        "9"
    };
    assert(t@ =~= seq![digit_char(d as int)]);
    t
}

/// Appends the decimal digits of `n` to `s`.
pub fn push_decimal(s: &mut String, n: u64)
    ensures
        final(s)@ == old(s)@ + decimal_digits(n as nat),
    decreases n,
{
    if n >= 10 {
        push_decimal(s, n / 10);
    }
    s.append(digit_text(n % 10));
    proof {
        if n >= 10 {
            assert(decimal_digits(n as nat) == decimal_digits((n / 10) as nat).push(digit_char((n % 10) as int)));
        }
    }
    assert(final(s)@ =~= old(s)@ + decimal_digits(n as nat));
}

/// The decimal text of `i`, as `i64`'s `Display` writes it.
pub fn i64_to_text(i: i64) -> (r: String)
    ensures
        r@ == int_text(i as int),
{
    let mut s = String::new();
    if i < 0 {
        proof {
            reveal_strlit("-");
        }
        s.append("-");
        let m: u64 = if i == i64::MIN { 9223372036854775808u64 } else { (-i) as u64 };
        push_decimal(&mut s, m);
        assert(s@ =~= seq!['-'] + decimal_digits((-(i as int)) as nat));
    } else {
        push_decimal(&mut s, i as u64);
        assert(s@ =~= decimal_digits(i as nat));
    }
    s
}

/// Reads `s` as `str::parse::<i64>` does: `Some` exactly when `s` is an
/// optional sign and one or more ASCII digits whose value fits in `i64`.
pub fn parse_i64(s: &str) -> (r: Option<i64>)
    ensures
        r == parse_i64_spec(s@),
{
    let n = s.unicode_len();
    let ghost t = s@;
    let mut start: usize = 0;
    let mut neg = false;
    if n > 0 {
        let c0 = s.get_char(0);
        if c0 == '-' {
            neg = true;
            start = 1;
        } else if c0 == '+' {
            start = 1;
        }
    }
    let ghost digits = t.subrange(start as int, t.len() as int);
    proof {
        if start == 1 {
            assert(digits =~= t.drop_first());
        } else {
            assert(digits =~= t);
        }
    }
    if start >= n {
        return None;
    }
    let mut acc: u128 = 0;
    let mut i = start;
    while i < n
        invariant
            start <= i <= n,
            n == t.len(),
            s@ == t,
            digits == t.subrange(start as int, n as int),
            neg == (t.len() > 0 && t[0] == '-'),
            digits == (if t.len() > 0 && (t[0] == '-' || t[0] == '+') { t.drop_first() } else { t }),
            all_digits(t.subrange(start as int, i as int)),
            acc == digits_value(t.subrange(start as int, i as int)),
            acc <= 9223372036854775808u128,
        decreases n - i,
    {
        let c = s.get_char(i);
        if !('0' <= c && c <= '9') {
            proof {
                assert(digits[i - start] == c);
                assert(!is_digit(digits[i - start]));
            }
            return None;
        }
        let ghost prev = t.subrange(start as int, i as int);
        let d: u128 = ((c as u32) - 48) as u128;
        acc = acc * 10 + d;
        i = i + 1;
        proof {
            let cur = t.subrange(start as int, i as int);
            assert(cur.drop_last() =~= prev);
            assert(cur.last() == c);
            assert forall|j: int| 0 <= j < cur.len() implies #[trigger] is_digit(cur[j]) by {
                if j < cur.len() - 1 {
                    assert(is_digit(prev[j]));
                }
            }
        }
        if acc > 9223372036854775808u128 {
            proof {
                let cur = t.subrange(start as int, i as int);
                if all_digits(digits) {
                    assert(digits.take(i - start) =~= cur);
                    lemma_digits_value_prefix(digits, i - start);
                }
            }
            return None;
        }
    }
    proof {
        assert(t.subrange(start as int, i as int) =~= digits);
    }
    if neg {
        if acc == 9223372036854775808u128 {
            Some(i64::MIN)
        } else {
            let v: i64 = acc as i64;
            Some(-v)
        }
    } else {
        if acc > 9223372036854775807u128 {
            None
        } else {
            Some(acc as i64)
        }
    }
}

} // verus!
