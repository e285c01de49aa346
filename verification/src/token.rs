//! Parsing of the user's selection token.
//!
//! The user picks an entry by typing its 1-based position. The token is
//! parsed as an unsigned decimal integer with an optional leading `+`, the
//! grammar `usize::from_str` accepts. Parsing never fails hard: a token that
//! is not numeric, or whose value does not fit in `usize`, counts as the
//! position 0, which no list accepts.

use vstd::prelude::*;

verus! {

/// Whether `c` is an ASCII decimal digit.
pub open spec fn is_digit(c: char) -> bool {
    '0' <= c && c <= '9'
}

/// The numeric value of the digit `c`.
pub open spec fn digit_value(c: char) -> nat
    recommends
        is_digit(c),
{
    (c as nat - '0' as nat) as nat
}

/// The value of a digit string read left to right in base 10.
pub open spec fn digits_value(s: Seq<char>) -> nat
    decreases s.len(),
{
    if s.len() == 0 {
        0
    } else {
        digits_value(s.drop_last()) * 10 + digit_value(s.last())
    }
}

/// Whether every character of `s` is a decimal digit.
pub open spec fn all_digits(s: Seq<char>) -> bool {
    forall|i: int| 0 <= i < s.len() ==> is_digit(s[i])
}

/// The digit part of a token: the token with an optional leading `+` removed.
pub open spec fn token_digits(s: Seq<char>) -> Seq<char> {
    if s.len() > 0 && s[0] == '+' {
        s.drop_first()
    } else {
        s
    }
}

/// Whether the token matches the accepted grammar: an optional `+` followed
/// by at least one decimal digit.
pub open spec fn is_numeric_token(s: Seq<char>) -> bool {
    token_digits(s).len() > 0 && all_digits(token_digits(s))
}

/// The numeric value of a token that matches the grammar.
pub open spec fn token_value(s: Seq<char>) -> nat {
    digits_value(token_digits(s))
}

/// The position a token stands for: its numeric value when the token matches
/// the grammar and the value fits in `usize`, and 0 otherwise.
pub open spec fn effective_index(s: Seq<char>) -> nat {
    if is_numeric_token(s) && token_value(s) <= usize::MAX as nat {
        token_value(s)
    } else {
        0
    }
}

/// Reading more digits never shrinks the value.
proof fn lemma_digits_value_prefix_le(s: Seq<char>, i: int)
    requires
        0 <= i <= s.len(),
    ensures
        digits_value(s.subrange(0, i)) <= digits_value(s),
    decreases s.len() - i,
{
    if i < s.len() {
        let t = s.subrange(0, i + 1);
        assert(t.drop_last() =~= s.subrange(0, i));
        assert(digits_value(s.subrange(0, i)) <= digits_value(s.subrange(0, i)) * 10
            + digit_value(t.last()));
        lemma_digits_value_prefix_le(s, i + 1);
    } else {
        assert(s.subrange(0, i) =~= s);
    }
}

/// Parse the user's selection token into a position.
///
/// Follows the client's fail-soft policy: a malformed or oversized token is
/// the position 0, never an error.
pub fn parse_index(token: &str) -> (r: usize)
    ensures
        r as nat == effective_index(token@),
{
    let n = token.unicode_len();
    let start: usize = if n > 0 && token.get_char(0) == '+' {
        1
    } else {
        0
    };
    if start >= n {
        // Empty token, or a bare sign: no digits at all.
        assert(token_digits(token@).len() == 0);
        return 0;
    }
    let ghost digits = token_digits(token@);
    assert(digits.len() == n - start);
    assert(forall|k: int| 0 <= k < digits.len() ==> digits[k] == token@[k + start]);
    let mut acc: usize = 0;
    let mut i: usize = start;
    while i < n
        invariant
            start <= i <= n,
            n == token@.len(),
            start < n,
            start == 0 || start == 1,
            digits == token_digits(token@),
            digits.len() == n - start,
            forall|k: int| 0 <= k < digits.len() ==> digits[k] == token@[k + start],
            all_digits(digits.subrange(0, i - start)),
            acc as nat == digits_value(digits.subrange(0, i - start)),
        decreases n - i,
    {
        let c = token.get_char(i);
        if c < '0' || c > '9' {
            // A non-digit character: the token is not numeric.
            assert(!is_digit(digits[i - start]));
            return 0;
        }
        let d = (c as u32 - '0' as u32) as usize;
        let ghost prefix = digits.subrange(0, i - start + 1);
        assert(prefix.drop_last() =~= digits.subrange(0, i - start));
        assert(prefix.last() == digits[i - start]);
        if acc > (usize::MAX - d) / 10 {
            // The value has outgrown `usize`; `usize::from_str` would fail.
            proof {
                let m = (usize::MAX - d) as int;
                assert(acc >= m / 10 + 1);
                assert((m / 10 + 1) * 10 == (m / 10) * 10 + 10) by (nonlinear_arith);
                assert(acc * 10 >= (m / 10 + 1) * 10) by (nonlinear_arith)
                    requires
                        acc >= m / 10 + 1,
                ;
                assert((m / 10) * 10 + m % 10 == m);
                assert(acc * 10 + d > usize::MAX);
                assert(digits_value(prefix) > usize::MAX);
                lemma_digits_value_prefix_le(digits, i - start + 1);
                assert(token_value(token@) > usize::MAX);
            }
            return 0;
        }
        proof {
            let m = (usize::MAX - d) as int;
            assert((m / 10) * 10 <= m);
            assert(acc * 10 <= (m / 10) * 10) by (nonlinear_arith)
                requires
                    acc <= m / 10,
            ;
        }
        acc = acc * 10 + d;
        i = i + 1;
    }
    assert(digits.subrange(0, i - start) =~= digits);
    acc
}

} // verus!
