//! Decimal text for integers: how this server writes the numbers it signs and
//! sends, and how it reads the numbers a caller sent (`str::parse` for the
//! signed integer types).
use crate::text::push_char;
use vstd::prelude::*;

verus! {

pub open spec fn digit_char(d: nat) -> char {
    ((d + 48) as u32) as char
}

pub open spec fn is_digit(c: char) -> bool {
    '0' <= c && c <= '9'
}

pub open spec fn digit_value(c: char) -> int {
    c as int - 48
}

/// The decimal digits of `n`, most significant first, with no leading zero.
pub open spec fn nat_text(n: nat) -> Seq<char>
    decreases n,
{
    if n < 10 {
        seq![digit_char(n)]
    } else {
        nat_text(n / 10).push(digit_char(n % 10))
    }
}

/// How `Display` writes an integer: a `-` before negative numbers, no `+`.
pub open spec fn int_text(n: int) -> Seq<char> {
    if n < 0 {
        seq!['-'] + nat_text((-n) as nat)
    } else {
        nat_text(n as nat)
    }
}

pub open spec fn all_digits(s: Seq<char>) -> bool {
    forall|i: int| 0 <= i < s.len() ==> is_digit(#[trigger] s[i])
}

/// The value of a string of decimal digits.
pub open spec fn digits_value(s: Seq<char>) -> int
    decreases s.len(),
{
    if s.len() == 0 {
        0
    } else {
        digits_value(s.drop_last()) * 10 + digit_value(s.last())
    }
}

/// What `str::parse` reads as an integer, before the range of the target
/// type is applied: an optional sign followed by at least one digit.
pub open spec fn int_from_text(s: Seq<char>) -> Option<int> {
    if s.len() > 0 && (s[0] == '+' || s[0] == '-') {
        let rest = s.drop_first();
        if rest.len() > 0 && all_digits(rest) {
            if s[0] == '-' {
                Some(-digits_value(rest))
            } else {
                Some(digits_value(rest))
            }
        } else {
            None
        }
    } else if s.len() > 0 && all_digits(s) {
        Some(digits_value(s))
    } else {
        None
    }
}

/// `s.parse::<i64>()`.
pub open spec fn i64_from_text(s: Seq<char>) -> Option<i64> {
    match int_from_text(s) {
        Some(v) => if i64::MIN <= v && v <= i64::MAX {
            Some(v as i64)
        } else {
            None
        },
        None => None,
    }
}

/// `s.parse::<i32>()`.
pub open spec fn i32_from_text(s: Seq<char>) -> Option<i32> {
    match int_from_text(s) {
        Some(v) => if i32::MIN <= v && v <= i32::MAX {
            Some(v as i32)
        } else {
            None
        },
        None => None,
    }
}

pub proof fn lemma_digit_char_value(d: nat)
    requires
        d < 10,
    ensures
        digit_value(digit_char(d)) == d,
        is_digit(digit_char(d)),
{
    let x: u32 = (d + 48) as u32;
    assert(x as char as u32 == x);
}

pub proof fn lemma_nat_text_digits(n: nat)
    ensures
        nat_text(n).len() > 0,
        all_digits(nat_text(n)),
        digits_value(nat_text(n)) == n,
    decreases n,
{
    if n < 10 {
        lemma_digit_char_value(n);
        let t = seq![digit_char(n)];
        assert(t.drop_last() =~= Seq::<char>::empty());
        assert(digits_value(t) == digits_value(t.drop_last()) * 10 + digit_value(t.last()));
        assert(nat_text(n) == t);
    } else {
        lemma_nat_text_digits(n / 10);
        lemma_digit_char_value(n % 10);
        let t = nat_text(n / 10).push(digit_char(n % 10));
        assert(t.drop_last() =~= nat_text(n / 10));
        assert(digits_value(t) == digits_value(t.drop_last()) * 10 + digit_value(t.last()));
        assert(n == (n / 10) * 10 + n % 10);
        assert(nat_text(n) == t);
        assert forall|i: int| 0 <= i < t.len() implies is_digit(#[trigger] t[i]) by {
            if i < t.len() - 1 {
                assert(t[i] == nat_text(n / 10)[i]);
            }
        }
    }
}

/// Reading back what `Display` wrote gives the number that was written.
pub proof fn lemma_int_text_round_trip(n: int)
    ensures
        int_from_text(int_text(n)) == Some(n),
{
    if n < 0 {
        lemma_nat_text_digits((-n) as nat);
        let t = seq!['-'] + nat_text((-n) as nat);
        assert(t.drop_first() =~= nat_text((-n) as nat));
    } else {
        lemma_nat_text_digits(n as nat);
        assert(is_digit(nat_text(n as nat)[0]));
    }
}

/// A 64-bit number written by `format_i64` is read back as the same number.
pub proof fn written_numbers_read_back(n: i64)
    ensures
        i64_from_text(int_text(n as int)) == Some(n),
{
    lemma_int_text_round_trip(n as int);
}

pub proof fn lemma_int_text_injective(a: int, b: int)
    requires
        int_text(a) == int_text(b),
    ensures
        a == b,
{
    lemma_int_text_round_trip(a);
    lemma_int_text_round_trip(b);
}

pub proof fn lemma_digits_value_nonneg(s: Seq<char>)
    requires
        all_digits(s),
    ensures
        digits_value(s) >= 0,
    decreases s.len(),
{
    if s.len() > 0 {
        assert(is_digit(s[s.len() - 1]));
        assert(all_digits(s.drop_last())) by {
            assert forall|i: int| 0 <= i < s.drop_last().len() implies is_digit(
                #[trigger] s.drop_last()[i],
            ) by {
                assert(s.drop_last()[i] == s[i]);
            }
        }
        lemma_digits_value_nonneg(s.drop_last());
    }
}

/// A longer prefix of a digit string never has a smaller value.
pub proof fn lemma_digits_value_monotone(s: Seq<char>, i: int, j: int)
    requires
        all_digits(s),
        0 <= i <= j <= s.len(),
    ensures
        digits_value(s.subrange(0, i)) <= digits_value(s.subrange(0, j)),
    decreases j - i,
{
    if i < j {
        lemma_digits_value_monotone(s, i, j - 1);
        let p = s.subrange(0, j);
        assert(p.drop_last() =~= s.subrange(0, j - 1));
        assert(is_digit(s[j - 1]));
        assert(all_digits(s.subrange(0, j - 1))) by {
            assert forall|k: int| 0 <= k < j - 1 implies is_digit(
                #[trigger] s.subrange(0, j - 1)[k],
            ) by {
                assert(s.subrange(0, j - 1)[k] == s[k]);
            }
        }
        lemma_digits_value_nonneg(s.subrange(0, j - 1));
    }
}

/// The character of one decimal digit.
pub fn digit_to_char(d: u64) -> (c: char)
    requires
        d < 10,
    ensures
        c == digit_char(d as nat),
{
    match d {
        0 => '0',
        1 => '1',
        2 => '2',
        3 => '3',
        4 => '4',
        5 => '5',
        6 => '6',
        7 => '7',
        8 => '8',
        _ => '9',
    }
}

fn push_nat_text(s: &mut String, n: u64)
    ensures
        final(s)@ == old(s)@ + nat_text(n as nat),
    decreases n,
{
    if n >= 10 {
        push_nat_text(s, n / 10);
    }
    let c = digit_to_char(n % 10);
    push_char(s, c);
    assert(n < 10 ==> nat_text(n as nat) =~= seq![digit_char(n as nat)]);
}

/// `n.to_string()` for an `i64`.
pub fn format_i64(n: i64) -> (r: String)
    ensures
        r@ == int_text(n as int),
{
    let mut s = String::new();
    if n < 0 {
        push_char(&mut s, '-');
        let m: u64 = if n == i64::MIN {
            9223372036854775808u64
        } else {
            (-n) as u64
        };
        push_nat_text(&mut s, m);
        assert(s@ =~= seq!['-'] + nat_text((-n) as nat));
    } else {
        push_nat_text(&mut s, n as u64);
        assert(s@ =~= nat_text(n as nat));
    }
    s
}

/// Reads `s[start..]` as a digit string, giving up once the value passes
/// 2^64, beyond the range of every integer type read here.
fn digits_from(s: &str, start: usize) -> (r: Option<i128>)
    requires
        start <= s@.len(),
    ensures
        r matches Some(v) ==> all_digits(s@.subrange(start as int, s@.len() as int)) && v
            == digits_value(s@.subrange(start as int, s@.len() as int)) && 0 <= v
            <= 18446744073709551616,
        r is None ==> !all_digits(s@.subrange(start as int, s@.len() as int)) || digits_value(
            s@.subrange(start as int, s@.len() as int),
        ) > 18446744073709551616,
{
    let n = s.unicode_len();
    let ghost t = s@.subrange(start as int, n as int);
    let mut i: usize = start;
    let mut acc: i128 = 0;
    while i < n
        invariant
            n == s@.len(),
            t == s@.subrange(start as int, n as int),
            start <= i <= n,
            all_digits(t.subrange(0, i - start)),
            acc == digits_value(t.subrange(0, i - start)),
            0 <= acc <= 18446744073709551616,
        decreases n - i,
    {
        let c = s.get_char(i);
        if !('0' <= c && c <= '9') {
            assert(t[i - start] == c);
            return None;
        }
        let d = (c as u32 - 48) as i128;
        let ghost k = i - start;
        assert(t.subrange(0, k + 1).drop_last() =~= t.subrange(0, k));
        assert(t.subrange(0, k + 1).last() == c);
        acc = acc * 10 + d;
        i = i + 1;
        assert(all_digits(t.subrange(0, i - start))) by {
            assert forall|j: int| 0 <= j < i - start implies is_digit(
                #[trigger] t.subrange(0, i - start)[j],
            ) by {
                if j < k {
                    assert(t.subrange(0, i - start)[j] == t.subrange(0, k)[j]);
                }
            }
        }
        if acc > 18446744073709551616 {
            proof {
                assert(t.subrange(0, t.len() as int) =~= t);
                if all_digits(t) {
                    lemma_digits_value_monotone(t, i - start, t.len() as int);
                }
            }
            return None;
        }
    }
    assert(t.subrange(0, i - start) =~= t);
    Some(acc)
}

/// Reads an optionally signed decimal integer.
fn int_from_str(s: &str) -> (r: Option<i128>)
    ensures
        r matches Some(v) ==> int_from_text(s@) == Some(v as int),
        r is None ==> (int_from_text(s@) matches Some(v) ==> v > 18446744073709551616 || v
            < -18446744073709551616),
{
    let n = s.unicode_len();
    if n == 0 {
        return None;
    }
    let first = s.get_char(0);
    if first == '+' || first == '-' {
        if n == 1 {
            return None;
        }
        assert(s@.drop_first() =~= s@.subrange(1, n as int));
        match digits_from(s, 1) {
            Some(v) => {
                if first == '-' {
                    Some(-v)
                } else {
                    Some(v)
                }
            },
            None => None,
        }
    } else {
        assert(s@.subrange(0, n as int) =~= s@);
        digits_from(s, 0)
    }
}

/// `s.parse::<i64>().ok()`.
pub fn parse_i64(s: &str) -> (r: Option<i64>)
    ensures
        r == i64_from_text(s@),
{
    match int_from_str(s) {
        Some(v) => {
            if i64::MIN as i128 <= v && v <= i64::MAX as i128 {
                Some(v as i64)
            } else {
                None
            }
        },
        None => None,
    }
}

/// `s.parse::<i32>().ok()`.
pub fn parse_i32(s: &str) -> (r: Option<i32>)
    ensures
        r == i32_from_text(s@),
{
    match int_from_str(s) {
        Some(v) => {
            if i32::MIN as i128 <= v && v <= i32::MAX as i128 {
                Some(v as i32)
            } else {
                None
            }
        },
        None => None,
    }
}

} // verus!
