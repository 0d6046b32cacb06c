//! Decimal numerals: reading unsigned integers the way `str::parse` does, and
//! writing them back out.
use vstd::prelude::*;
use vstd::string::*;

verus! {

/// `c` is one of the ASCII digits `0` to `9`.
pub open spec fn is_ascii_digit(c: char) -> bool {
    ('0' as u32) <= (c as u32) && (c as u32) <= ('9' as u32)
}

/// The value of the ASCII digit `c`.
pub open spec fn digit_value(c: char) -> nat {
    ((c as u32) - ('0' as u32)) as nat
}

/// Every character of `s` is an ASCII digit.
pub open spec fn all_ascii_digits(s: Seq<char>) -> bool {
    forall|i: int| 0 <= i < s.len() ==> is_ascii_digit(#[trigger] s[i])
}

/// The number that the digit string `s` denotes (most significant digit first).
pub open spec fn decimal_value(s: Seq<char>) -> nat
    decreases s.len(),
{
    if s.len() == 0 {
        0
    } else {
        decimal_value(s.drop_last()) * 10 + digit_value(s.last())
    }
}

/// `s` without the one leading `+` sign that an unsigned numeral may carry.
pub open spec fn without_plus_sign(s: Seq<char>) -> Seq<char> {
    if s.len() > 0 && s[0] == '+' {
        s.drop_first()
    } else {
        s
    }
}

/// What `u64::from_str` makes of `s`: an optional `+` followed by at least one
/// ASCII digit, denoting a number that fits in a `u64`. Anything else
/// (whitespace, a `-`, underscores, an empty string) is no number.
pub open spec fn spec_parse_u64(s: Seq<char>) -> Option<u64> {
    let digits = without_plus_sign(s);
    if digits.len() > 0 && all_ascii_digits(digits) && decimal_value(digits) <= u64::MAX {
        Some(decimal_value(digits) as u64)
    } else {
        None
    }
}

/// A TCP port as a signed 64-bit numeral that lies in `0..=65535`: what
/// parsing an `i64` and then checking the range accepts. Besides the unsigned
/// numerals up to 65535 that is a minus sign before digits that are all zero.
pub open spec fn spec_parse_port(s: Seq<char>) -> Option<u16> {
    if s.len() > 0 && s[0] == '-' {
        let digits = s.drop_first();
        if digits.len() > 0 && all_ascii_digits(digits) && decimal_value(digits) == 0 {
            Some(0u16)
        } else {
            None
        }
    } else {
        let n = spec_parse_u64(s);
        if n is Some && n->0 <= 65535 {
            Some(n->0 as u16)
        } else {
            None
        }
    }
}

/// The ASCII digit for `d < 10`.
pub open spec fn digit_char(d: nat) -> char {
    (d + ('0' as u32)) as char
}

/// The shortest decimal numeral for `n`: no sign, no leading zeros.
pub open spec fn decimal_text(n: nat) -> Seq<char>
    decreases n,
{
    if n < 10 {
        seq![digit_char(n)]
    } else {
        decimal_text(n / 10).push(digit_char(n % 10))
    }
}

/// Adding one digit at the end multiplies the value so far by ten.
proof fn lemma_decimal_value_step(s: Seq<char>, i: int)
    requires
        0 <= i < s.len(),
    ensures
        decimal_value(s.take(i + 1)) == decimal_value(s.take(i)) * 10 + digit_value(s[i]),
{
    assert(s.take(i + 1).drop_last() =~= s.take(i));
}

/// A digit string is worth at least as much as any of its prefixes.
proof fn lemma_decimal_value_prefix(s: Seq<char>, i: int)
    requires
        0 <= i <= s.len(),
    ensures
        decimal_value(s.take(i)) <= decimal_value(s),
    decreases s.len() - i,
{
    if i < s.len() {
        lemma_decimal_value_step(s, i);
        lemma_decimal_value_prefix(s, i + 1);
    } else {
        assert(s.take(i) =~= s);
    }
}

/// A digit string is worth zero exactly when all its digits are `0`.
proof fn lemma_decimal_value_zero(s: Seq<char>)
    requires
        all_ascii_digits(s),
    ensures
        decimal_value(s) == 0 <==> forall|i: int| 0 <= i < s.len() ==> digit_value(#[trigger] s[i]) == 0,
    decreases s.len(),
{
    if s.len() > 0 {
        let t = s.drop_last();
        assert(all_ascii_digits(t)) by {
            assert forall|i: int| 0 <= i < t.len() implies is_ascii_digit(#[trigger] t[i]) by {
                assert(t[i] == s[i]);
            }
        }
        lemma_decimal_value_zero(t);
        assert(is_ascii_digit(s[s.len() - 1]));
        if decimal_value(s) == 0 {
            assert forall|i: int| 0 <= i < s.len() implies digit_value(#[trigger] s[i]) == 0 by {
                if i < s.len() - 1 {
                    assert(t[i] == s[i]);
                }
            }
        }
        if forall|i: int| 0 <= i < s.len() ==> digit_value(#[trigger] s[i]) == 0 {
            assert forall|i: int| 0 <= i < t.len() implies digit_value(#[trigger] t[i]) == 0 by {
                assert(t[i] == s[i]);
            }
            assert(digit_value(s[s.len() - 1]) == 0);
        }
    }
}

/// Reads the unsigned digits of `s` from character `start` on, as
/// `u64::from_str` reads what follows an optional `+`.
fn parse_digits(s: &str, start: usize) -> (r: Option<u64>)
    requires
        start <= s@.len(),
    ensures
        ({
            let digits = s@.skip(start as int);
            r == (if digits.len() > 0 && all_ascii_digits(digits) && decimal_value(digits)
                <= u64::MAX {
                Some(decimal_value(digits) as u64)
            } else {
                None
            })
        }),
{
    let n = s.unicode_len();
    let ghost digits = s@.skip(start as int);
    if start == n {
        return None;
    }
    let mut i = start;
    let mut value: u64 = 0;
    while i < n
        invariant
            start <= i <= n,
            n == s@.len(),
            digits == s@.skip(start as int),
            all_ascii_digits(digits.take(i - start)),
            value == decimal_value(digits.take(i - start)),
        decreases n - i,
    {
        let c = s.get_char(i);
        let ghost k: int = i - start;
        assert(digits[k] == c);
        if (c as u32) < ('0' as u32) || (c as u32) > ('9' as u32) {
            assert(!all_ascii_digits(digits));
            return None;
        }
        proof {
            lemma_decimal_value_step(digits, k);
        }
        let d: u64 = ((c as u32) - ('0' as u32)) as u64;
        let step = value.checked_mul(10);
        if step.is_none() {
            proof {
                lemma_decimal_value_prefix(digits, k + 1);
                if all_ascii_digits(digits) {
                    assert(decimal_value(digits) > u64::MAX);
                }
            }
            return None;
        }
        let next = step.unwrap().checked_add(d);
        if next.is_none() {
            proof {
                lemma_decimal_value_prefix(digits, k + 1);
                if all_ascii_digits(digits) {
                    assert(decimal_value(digits) > u64::MAX);
                }
            }
            return None;
        }
        value = next.unwrap();
        i = i + 1;
        assert(all_ascii_digits(digits.take(i - start))) by {
            assert forall|j: int| 0 <= j < i - start implies is_ascii_digit(
                #[trigger] digits.take(i - start)[j],
            ) by {
                if j < k {
                    assert(digits.take(i - start)[j] == digits.take(k)[j]);
                }
            }
        }
    }
    assert(digits.take(n - start) =~= digits);
    Some(value)
}

/// Parses `s` as `u64::from_str` does: an optional `+`, then decimal digits
/// whose value fits in a `u64`.
pub fn parse_u64(s: &str) -> (r: Option<u64>)
    ensures
        r == spec_parse_u64(s@),
{
    let n = s.unicode_len();
    if n > 0 && s.get_char(0) == '+' {
        let r = parse_digits(s, 1);
        assert(s@.skip(1) =~= s@.drop_first());
        r
    } else {
        let r = parse_digits(s, 0);
        assert(s@.skip(0) =~= s@);
        r
    }
}

/// Parses a port number as parsing an `i64` and checking that it lies in
/// `0..=65535` does.
pub fn parse_port(s: &str) -> (r: Option<u16>)
    ensures
        r == spec_parse_port(s@),
{
    let n = s.unicode_len();
    if n > 0 && s.get_char(0) == '-' {
        let ghost digits = s@.drop_first();
        if n == 1 {
            return None;
        }
        let mut i: usize = 1;
        while i < n
            invariant
                1 <= i <= n,
                n == s@.len(),
                digits == s@.drop_first(),
                s@[0] == '-',
                forall|j: int| 0 <= j < i - 1 ==> is_ascii_digit(#[trigger] digits[j]) && digit_value(digits[j]) == 0,
            decreases n - i,
        {
            let c = s.get_char(i);
            assert(digits[i - 1] == c);
            if (c as u32) != ('0' as u32) {
                proof {
                    if all_ascii_digits(digits) {
                        lemma_decimal_value_zero(digits);
                        assert(digit_value(digits[i - 1]) != 0);
                    } else {
                        assert(!all_ascii_digits(digits));
                    }
                }
                return None;
            }
            i = i + 1;
        }
        assert(all_ascii_digits(digits)) by {
            assert forall|j: int| 0 <= j < digits.len() implies is_ascii_digit(
                #[trigger] digits[j],
            ) by {
                assert(is_ascii_digit(digits[j]));
            }
        }
        proof {
            lemma_decimal_value_zero(digits);
        }
        Some(0)
    } else {
        match parse_u64(s) {
            Some(v) => {
                if v <= 65535 {
                    Some(v as u16)
                } else {
                    None
                }
            },
            None => None,
        }
    }
}

/// Appends one character to a string (`String::push`).
#[verifier::external_body]
pub(crate) fn push_char(s: &mut String, c: char)
    ensures
        final(s)@ == old(s)@.push(c),
{
    s.push(c);
}

/// A decimal numeral is all digits and denotes its number.
pub(crate) proof fn lemma_decimal_text_value(n: nat)
    ensures
        decimal_text(n).len() > 0,
        all_ascii_digits(decimal_text(n)),
        decimal_value(decimal_text(n)) == n,
    decreases n,
{
    let t = decimal_text(n);
    if n < 10 {
        assert(t =~= seq![digit_char(n)]);
        assert(t.drop_last() =~= Seq::<char>::empty());
        assert((digit_char(n) as u32) == n + ('0' as u32));
        assert(t.last() == digit_char(n));
        assert(digit_value(t.last()) == n);
        assert(decimal_value(t) == decimal_value(t.drop_last()) * 10 + digit_value(t.last()));
    } else {
        lemma_decimal_text_value(n / 10);
        let d = digit_char(n % 10);
        assert((d as u32) == n % 10 + ('0' as u32));
        assert(t.drop_last() =~= decimal_text(n / 10));
        assert(t.last() == d);
        assert(digit_value(d) == n % 10);
        assert(decimal_value(t) == decimal_value(t.drop_last()) * 10 + digit_value(t.last()));
        assert((n / 10) * 10 + n % 10 == n);
        assert forall|i: int| 0 <= i < t.len() implies is_ascii_digit(#[trigger] t[i]) by {
            if i < t.len() - 1 {
                assert(t[i] == decimal_text(n / 10)[i]);
            }
        }
    }
}

/// Reading back what was written gives the number again: the decimal
/// numeral of any `u64` (as `u64`'s `Display` writes it) is one that
/// `parse_u64` reads as that number.
pub proof fn law_decimal_round_trip(n: u64)
    ensures
        spec_parse_u64(decimal_text(n as nat)) == Some(n),
{
    let t = decimal_text(n as nat);
    lemma_decimal_text_value(n as nat);
    assert(is_ascii_digit(t[0]));
    assert(without_plus_sign(t) == t);
}

/// Appends the decimal numeral of `n` to `text`.
fn append_decimal(text: &mut String, n: u16)
    ensures
        final(text)@ == old(text)@ + decimal_text(n as nat),
    decreases n,
{
    if n >= 10 {
        append_decimal(text, n / 10);
    }
    let c = ((n % 10) as u8 + 48u8) as char;
    assert(c == digit_char(n as nat % 10));
    push_char(text, c);
    if n < 10 {
        assert(decimal_text(n as nat) =~= seq![c]);
    }
}

/// Writes `n` as a decimal numeral, as `u16`'s `Display` does.
pub fn u16_decimal(n: u16) -> (r: String)
    ensures
        r@ == decimal_text(n as nat),
{
    let mut text = String::new();
    append_decimal(&mut text, n);
    assert(text@ =~= decimal_text(n as nat));
    text
}

} // verus!
