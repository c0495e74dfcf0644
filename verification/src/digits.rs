//! Decimal digit sequences: turning numbers into their decimal text and
//! reading bounded decimal text back.  The presenter uses the former to
//! number the listed options; reply classification uses the latter to read
//! a numeric choice.

use vstd::prelude::*;

verus! {

/// Is `c` one of the ten decimal digit characters?
pub open spec fn is_dec_digit(c: char) -> bool {
    '0' <= c && c <= '9'
}

/// Every character of `s` is a decimal digit.
pub open spec fn all_dec_digits(s: Seq<char>) -> bool {
    forall|i: int| 0 <= i < s.len() ==> is_dec_digit(#[trigger] s[i])
}

/// Numeric value of a single decimal digit character.
pub open spec fn digit_val(c: char) -> nat {
    (c as nat - '0' as nat) as nat
}

/// The decimal digit character for a value below ten.
pub open spec fn digit_char(d: nat) -> char {
    if d == 0 {
        '0'
    } else if d == 1 {
        '1'
    } else if d == 2 {
        '2'
    } else if d == 3 {
        '3'
    } else if d == 4 {
        '4'
    } else if d == 5 {
        '5'
    } else if d == 6 {
        '6'
    } else if d == 7 {
        '7'
    } else if d == 8 {
        '8'
    } else {
        '9'
    }
}

/// The decimal rendering of `n`, most significant digit first, with no
/// leading zeros (except for `n == 0`, rendered as "0").
pub open spec fn dec_digits_of(n: nat) -> Seq<char>
    decreases n,
{
    if n < 10 {
        seq![digit_char(n)]
    } else {
        dec_digits_of(n / 10) + seq![digit_char(n % 10)]
    }
}

/// The numeric value of a sequence of decimal digit characters
/// (most significant first).
pub open spec fn dec_value(s: Seq<char>) -> nat
    decreases s.len(),
{
    if s.len() == 0 {
        0
    } else {
        dec_value(s.drop_last()) * 10 + digit_val(s.last())
    }
}

proof fn lemma_digit_char_val(d: nat)
    requires
        d < 10,
    ensures
        is_dec_digit(digit_char(d)),
        digit_val(digit_char(d)) == d,
{
}

/// Reading back the decimal rendering of a number gives the number: the
/// two directions of the decimal notation agree.
pub proof fn lemma_dec_round_trip(n: nat)
    ensures
        all_dec_digits(dec_digits_of(n)),
        dec_value(dec_digits_of(n)) == n,
        dec_digits_of(n).len() >= 1,
    decreases n,
{
    if n < 10 {
        lemma_digit_char_val(n);
        assert(dec_digits_of(n) =~= seq![digit_char(n)]);
        assert(dec_digits_of(n).drop_last() =~= Seq::<char>::empty());
        assert(dec_value(Seq::<char>::empty()) == 0);
        assert(dec_digits_of(n).last() == digit_char(n));
        assert(dec_value(dec_digits_of(n)) == dec_value(dec_digits_of(n).drop_last()) * 10
            + digit_val(dec_digits_of(n).last()));
        assert(digit_val(digit_char(n)) == n);
    } else {
        lemma_dec_round_trip(n / 10);
        lemma_digit_char_val(n % 10);
        let s = dec_digits_of(n);
        assert(s =~= dec_digits_of(n / 10) + seq![digit_char(n % 10)]);
        assert(s.drop_last() =~= dec_digits_of(n / 10));
        assert(s.last() == digit_char(n % 10));
        assert(dec_value(s) == (n / 10) * 10 + n % 10);
        assert((n / 10) * 10 + n % 10 == n) by {
            vstd::arithmetic::div_mod::lemma_fundamental_div_mod(n as int, 10);
        }
    }
}

/// A digit string extended by one digit stands for ten times its value
/// plus the new digit; taking one more character of a digit string is
/// such an extension.
proof fn lemma_dec_value_take_step(s: Seq<char>, i: int)
    requires
        0 <= i < s.len(),
    ensures
        dec_value(s.take(i + 1)) == dec_value(s.take(i)) * 10 + digit_val(s[i]),
{
    assert(s.take(i + 1).drop_last() =~= s.take(i));
    assert(s.take(i + 1).last() == s[i]);
}

/// Reading more digits never lowers the value.
proof fn lemma_dec_value_take_le(s: Seq<char>, i: int)
    requires
        0 <= i <= s.len(),
    ensures
        dec_value(s.take(i)) <= dec_value(s),
    decreases s.len() - i,
{
    if i == s.len() {
        assert(s.take(i) =~= s);
    } else {
        lemma_dec_value_take_step(s, i);
        lemma_dec_value_take_le(s, i + 1);
        assert(dec_value(s.take(i)) <= dec_value(s.take(i)) * 10 + digit_val(s[i]))
            by (nonlinear_arith);
    }
}

/// The decimal text of `n`, e.g. `decimal_string(12)` is `"12"`.
pub fn decimal_string(n: u64) -> (s: String)
    ensures
        s@ == dec_digits_of(n as nat),
    decreases n,
{
    let d: u64 = n % 10;
    let digit: &str = if d == 0 {
        "0"
    } else if d == 1 {
        "1"
    } else if d == 2 {
        "2"
    } else if d == 3 {
        "3"
    } else if d == 4 {
        "4"
    } else if d == 5 {
        "5"
    } else if d == 6 {
        "6"
    } else if d == 7 {
        "7"
    } else if d == 8 {
        "8"
    } else {
        "9"
    };
    proof {
        reveal_strlit("0");
        reveal_strlit("1");
        reveal_strlit("2");
        reveal_strlit("3");
        reveal_strlit("4");
        reveal_strlit("5");
        reveal_strlit("6");
        reveal_strlit("7");
        reveal_strlit("8");
        reveal_strlit("9");
        assert(digit@ =~= seq![digit_char((n % 10) as nat)]);
    }
    if n < 10 {
        let s = digit.to_owned();
        proof {
            assert(s@ =~= dec_digits_of(n as nat));
        }
        s
    } else {
        let s = decimal_string(n / 10).concat(digit);
        proof {
            assert(s@ =~= dec_digits_of(n as nat));
        }
        s
    }
}

/// Reads `s` as an unsigned decimal number, accepting it only when every
/// character is a decimal digit, there is at least one, and the value is
/// between 1 and `max`.  Used to read a numbered choice: anything else -
/// empty text, other characters, zero, or a number beyond the list - is
/// not a valid choice.
pub fn parse_choice_number(s: &str, max: usize) -> (r: Option<usize>)
    ensures
        match r {
            Some(k) => {
                &&& s@.len() > 0
                &&& all_dec_digits(s@)
                &&& 1 <= k <= max
                &&& k == dec_value(s@)
            },
            None => {
                s@.len() == 0 || !all_dec_digits(s@) || dec_value(s@) < 1 || dec_value(s@)
                    > max
            },
        },
{
    let n = s.unicode_len();
    if n == 0 {
        return None;
    }
    let mut value: u128 = 0;
    let mut i: usize = 0;
    while i < n
        invariant
            0 <= i <= n,
            n == s@.len(),
            all_dec_digits(s@.take(i as int)),
            value == dec_value(s@.take(i as int)),
            value <= max,
        decreases n - i,
    {
        let c = s.get_char(i);
        if c < '0' || c > '9' {
            assert(!is_dec_digit(s@[i as int]));
            return None;
        }
        let d: u128 = (c as u32 as u128) - ('0' as u32 as u128);
        proof {
            assert(d == digit_val(s@[i as int]));
        }
        let next: u128 = value * 10 + d;
        proof {
            lemma_dec_value_take_step(s@, i as int);
        }
        if next > max as u128 {
            proof {
                lemma_dec_value_take_le(s@, i + 1);
            }
            return None;
        }
        value = next;
        i = i + 1;
    }
    proof {
        assert(s@.take(n as int) =~= s@);
    }
    if value == 0 {
        return None;
    }
    Some(value as usize)
}

} // verus!
