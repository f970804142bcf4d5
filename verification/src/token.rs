//! Continuation tokens.
//!
//! A token is the offset of the next unread data row, written in decimal.
//! It is read back as an optional `+` followed by one or more decimal digits
//! whose value fits in 64 bits.

use vstd::prelude::*;
use vstd::string::is_ascii_spec_bytes;
use vstd::string::StringExecFns;

verus! {

pub open spec fn is_digit(c: char) -> bool {
    '0' <= c <= '9'
}

/// The value of a decimal digit.
pub open spec fn digit_value(c: char) -> nat {
    (c as u8 - 48) as nat
}

/// The decimal digit of a value below ten.
pub open spec fn digit_char(d: nat) -> char {
    ((d + 48) as u8) as char
}

pub open spec fn all_digits(s: Seq<char>) -> bool {
    forall|i: int| 0 <= i < s.len() ==> is_digit(#[trigger] s[i])
}

/// The number that a string of decimal digits writes.
pub open spec fn decimal_value(s: Seq<char>) -> nat
    decreases s.len(),
{
    if s.len() == 0 {
        0
    } else {
        decimal_value(s.drop_last()) * 10 + digit_value(s.last())
    }
}

/// A number written in decimal, without leading zeros.
pub open spec fn decimal(n: nat) -> Seq<char>
    decreases n,
{
    if n < 10 {
        seq![digit_char(n)]
    } else {
        decimal(n / 10).push(digit_char(n % 10))
    }
}

/// A token without the sign that may lead it.
pub open spec fn unsigned(token: Seq<char>) -> Seq<char> {
    if token.len() > 0 && token[0] == '+' {
        token.drop_first()
    } else {
        token
    }
}

/// The offset that a token stands for, if it is well formed.
pub open spec fn token_offset(token: Seq<char>) -> Option<u64> {
    let digits = unsigned(token);
    if digits.len() > 0 && all_digits(digits) && decimal_value(digits) <= u64::MAX {
        Some(decimal_value(digits) as u64)
    } else {
        None
    }
}

/// The token that stands for an offset.
pub open spec fn offset_token(offset: u64) -> Seq<char> {
    decimal(offset as nat)
}

/// A string of digits is worth at least as much as any of its prefixes.
pub proof fn lemma_prefix_value(s: Seq<char>, k: int)
    requires
        0 <= k <= s.len(),
    ensures
        decimal_value(s.take(k)) <= decimal_value(s),
    decreases s.len(),
{
    if k == s.len() {
        assert(s.take(k) =~= s);
    } else {
        assert(s.drop_last().take(k) =~= s.take(k));
        lemma_prefix_value(s.drop_last(), k);
    }
}

/// Reading one more digit multiplies by ten and adds the digit.
pub proof fn lemma_value_step(s: Seq<char>, k: int)
    requires
        0 <= k < s.len(),
    ensures
        decimal_value(s.take(k + 1)) == decimal_value(s.take(k)) * 10 + digit_value(s[k]),
{
    assert(s.take(k + 1).drop_last() =~= s.take(k));
}

/// The decimal form of a number is a non-empty string of digits that writes
/// the number.
pub proof fn lemma_decimal_writes(n: nat)
    ensures
        decimal(n).len() > 0,
        all_digits(decimal(n)),
        decimal_value(decimal(n)) == n,
    decreases n,
{
    if n < 10 {
        let s = seq![digit_char(n)];
        assert(s.drop_last() =~= Seq::<char>::empty());
        assert(decimal_value(s.drop_last()) == 0);
        assert(s.last() == digit_char(n));
    } else {
        lemma_decimal_writes(n / 10);
        let s = decimal(n / 10).push(digit_char(n % 10));
        assert(s.drop_last() =~= decimal(n / 10));
        assert(s.last() == digit_char(n % 10));
        assert forall|i: int| 0 <= i < s.len() implies is_digit(#[trigger] s[i]) by {
            if i < s.len() - 1 {
                assert(s[i] == decimal(n / 10)[i]);
            }
        }
    }
}

/// Round trip: the token of an offset reads back as that offset.
pub proof fn lemma_token_round_trip(offset: u64)
    ensures
        token_offset(offset_token(offset)) == Some(offset),
{
    let s = decimal(offset as nat);
    lemma_decimal_writes(offset as nat);
    assert(is_digit(s[0]));
    assert(unsigned(s) == s);
}

/// The one-character string of a decimal digit.
fn digit_str(d: u8) -> (s: &'static str)
    requires
        d < 10,
    ensures
        s@ == seq![digit_char(d as nat)],
{
    proof {
        reveal_strlit("0");
        reveal_strlit("1");
        reveal_strlit("2");
        reveal_strlit("3");
        reveal_strlit("4");
        reveal_strlit("5");
        reveal_strlit("6");
        reveal_strlit("7");
        reveal_strlit("8");
        reveal_strlit("9");
    }
    let s = match d {
        0 => "0",
        1 => "1",
        2 => "2",
        3 => "3",
        4 => "4",
        5 => "5",
        6 => "6",
        7 => "7",
        8 => "8",
        _ => "9",
    };
    assert(s@ =~= seq![digit_char(d as nat)]);
    s
}

/// Appends the decimal form of `n` to `out`.
fn push_decimal(n: u64, out: &mut String)
    ensures
        final(out)@ == old(out)@ + decimal(n as nat),
    decreases n,
{
    if n >= 10 {
        push_decimal(n / 10, out);
    }
    let d: u8 = (n % 10) as u8;
    out.append(digit_str(d));
    proof {
        if n >= 10 {
            assert(final(out)@ =~= old(out)@ + decimal((n / 10) as nat).push(digit_char((n % 10) as nat)));
        }
    }
}

/// Writes the token that resumes at the data row `offset`.
pub fn encode_token(offset: u64) -> (token: String)
    ensures
        token@ == offset_token(offset),
{
    let mut token = String::new();
    push_decimal(offset, &mut token);
    assert(token@ =~= offset_token(offset));
    token
}

/// Reads the offset out of a token; `None` where the token is malformed.
pub fn decode_token(token: &str) -> (offset: Option<u64>)
    ensures
        offset == token_offset(token@),
{
    let ghost digits = unsigned(token@);
    if !token.is_ascii() {
        proof {
            if digits.len() > 0 && all_digits(digits) {
                assert forall|i: int| 0 <= i < token@.len() implies '\0' <= #[trigger] token@[i]
                    <= '\u{7f}' by {
                    if token@[0] == '+' {
                        if i > 0 {
                            assert(token@[i] == digits[i - 1]);
                        }
                    }
                }
                assert(false);
            }
        }
        return None;
    }
    let bytes = token.as_bytes();
    proof {
        is_ascii_spec_bytes(token);
    }
    let start: usize = if bytes.len() > 0 && bytes[0] == 43 {
        1
    } else {
        0
    };
    assert(digits =~= token@.subrange(start as int, token@.len() as int));
    if start == bytes.len() {
        return None;
    }
    let mut value: u64 = 0;
    let mut i: usize = start;
    while i < bytes.len()
        invariant
            start <= i <= bytes.len(),
            bytes@.len() == token@.len(),
            forall|j: int| 0 <= j < bytes@.len() ==> bytes@[j] == token@[j] as u8,
            forall|j: int| 0 <= j < token@.len() ==> '\0' <= #[trigger] token@[j] <= '\u{7f}',
            digits == unsigned(token@),
            digits == token@.subrange(start as int, token@.len() as int),
            all_digits(digits.take(i - start)),
            value == decimal_value(digits.take(i - start)),
        decreases bytes.len() - i,
    {
        let b = bytes[i];
        let ghost k = i - start;
        assert(digits[k] == token@[i as int]);
        if b < 48 || b > 57 {
            assert(!is_digit(digits[k]));
            return None;
        }
        let d: u64 = (b - 48) as u64;
        proof {
            lemma_value_step(digits, k);
            assert(digit_value(digits[k]) == d);
        }
        if value > (u64::MAX - d) / 10 {
            proof {
                lemma_prefix_value(digits, k + 1);
            }
            return None;
        }
        value = value * 10 + d;
        i += 1;
        proof {
            assert forall|j: int| 0 <= j < digits.take(i - start).len() implies is_digit(
                #[trigger] digits.take(i - start)[j],
            ) by {
                if j < k {
                    assert(digits.take(k)[j] == digits[j]);
                }
            }
        }
    }
    proof {
        assert(digits.take(i - start) =~= digits);
    }
    Some(value)
}

} // verus!
