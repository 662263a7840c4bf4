//! Decimal rendering of integers, as `%d` and `%u` print them.
use vstd::prelude::*;

verus! {

/// The character of a decimal digit.
pub open spec fn digit_char(d: nat) -> char {
    if d == 0 {
        '0'
    } else if d == 1 {
        '1'
    } else if d == 2 {
        '2'
    } else if d == 3 {
        '3'
    } else if d == 4 {
        '4'
    } else if d == 5 {
        '5'
    } else if d == 6 {
        '6'
    } else if d == 7 {
        '7'
    } else if d == 8 {
        '8'
    } else {
        '9'
    }
}

/// Whether a character is one of `0` to `9`.
pub open spec fn is_digit(c: char) -> bool {
    '0' <= c && c <= '9'
}

/// The decimal digits of a natural number, most significant first, no
/// leading zeros (zero itself is `0`).
pub open spec fn digits(n: nat) -> Seq<char>
    decreases n,
{
    if n < 10 {
        seq![digit_char(n)]
    } else {
        digits(n / 10).push(digit_char(n % 10))
    }
}

/// The decimal rendering of an integer: a `-` before the digits of its
/// magnitude when it is negative.
pub open spec fn signed_decimal(n: int) -> Seq<char> {
    if n < 0 {
        seq!['-'] + digits((-n) as nat)
    } else {
        digits(n as nat)
    }
}

/// The digits of `n` are digit characters, at least one of them, and a single
/// one exactly when `n` is below ten.
pub proof fn lemma_digits_shape(n: nat)
    ensures
        digits(n).len() >= 1,
        (digits(n).len() == 1) == (n < 10),
        digits(n).last() == digit_char(n % 10),
        forall|i: int| 0 <= i < digits(n).len() ==> is_digit(#[trigger] digits(n)[i]),
    decreases n,
{
    if n >= 10 {
        lemma_digits_shape(n / 10);
    }
}

/// Different digits have different characters.
pub proof fn lemma_digit_char_injective(a: nat, b: nat)
    requires
        a < 10,
        b < 10,
        digit_char(a) == digit_char(b),
    ensures
        a == b,
{
}

/// Decimal digits are a one-to-one rendering: equal renderings come from
/// equal numbers.
pub proof fn lemma_digits_injective(a: nat, b: nat)
    requires
        digits(a) == digits(b),
    ensures
        a == b,
    decreases a,
{
    lemma_digits_shape(a);
    lemma_digits_shape(b);
    if a >= 10 && b >= 10 {
        assert(digits(a).drop_last() =~= digits(a / 10));
        assert(digits(b).drop_last() =~= digits(b / 10));
        lemma_digits_injective(a / 10, b / 10);
        lemma_digit_char_injective(a % 10, b % 10);
    } else if a < 10 && b < 10 {
        lemma_digit_char_injective(a, b);
    }
}

/// No character of a signed rendering is a `:`, and only a negative number
/// renders with a leading `-`.
pub proof fn lemma_signed_decimal_shape(n: int)
    ensures
        signed_decimal(n).len() >= 1,
        (signed_decimal(n)[0] == '-') == (n < 0),
        forall|i: int| 0 <= i < signed_decimal(n).len() ==> #[trigger] signed_decimal(n)[i] != ':',
{
    if n < 0 {
        lemma_digits_shape((-n) as nat);
        let s = signed_decimal(n);
        assert forall|i: int| 0 <= i < s.len() implies #[trigger] s[i] != ':' by {
            if i > 0 {
                assert(s[i] == digits((-n) as nat)[i - 1]);
            }
        }
    } else {
        lemma_digits_shape(n as nat);
    }
}

/// Signed decimal rendering is one-to-one.
pub proof fn lemma_signed_decimal_injective(a: int, b: int)
    requires
        signed_decimal(a) == signed_decimal(b),
    ensures
        a == b,
{
    lemma_signed_decimal_shape(a);
    lemma_signed_decimal_shape(b);
    if a < 0 && b < 0 {
        assert(signed_decimal(a).drop_first() =~= digits((-a) as nat));
        assert(signed_decimal(b).drop_first() =~= digits((-b) as nat));
        lemma_digits_injective((-a) as nat, (-b) as nat);
    } else if a >= 0 && b >= 0 {
        lemma_digits_injective(a as nat, b as nat);
    }
}

/// The string of one decimal digit.
fn digit_str(d: u64) -> (s: &'static str)
    requires
        d < 10,
    ensures
        s@ == seq![digit_char(d as nat)],
{
    if d == 0 {
        proof {
            reveal_strlit("0");
        }
        "0"
    } else if d == 1 {
        proof {
            reveal_strlit("1");
        }
        "1"
    } else if d == 2 {
        proof {
            reveal_strlit("2");
        }
        "2"
    } else if d == 3 {
        proof {
            reveal_strlit("3");
        }
        "3"
    } else if d == 4 {
        proof {
            reveal_strlit("4");
        }
        "4"
    } else if d == 5 {
        proof {
            reveal_strlit("5");
        }
        "5"
    } else if d == 6 {
        proof {
            reveal_strlit("6");
        }
        "6"
    } else if d == 7 {
        proof {
            reveal_strlit("7");
        }
        "7"
    } else if d == 8 {
        proof {
            reveal_strlit("8");
        }
        "8"
    } else {
        proof {
            reveal_strlit("9");
        }
        "9"
    }
}

/// Appends the decimal digits of `n` to `s`.
pub fn append_digits(s: &mut String, n: u64)
    ensures
        final(s)@ == old(s)@ + digits(n as nat),
    decreases n,
{
    if n >= 10 {
        append_digits(s, n / 10);
    }
    let d = digit_str(n % 10);
    let ghost before = s@;
    s.append(d);
    proof {
        if n >= 10 {
            assert(before =~= old(s)@ + digits((n / 10) as nat));
            assert(s@ =~= old(s)@ + digits(n as nat));
        } else {
            assert(s@ =~= old(s)@ + digits(n as nat));
        }
    }
}

/// Appends the signed decimal rendering of `n` to `s`.
pub fn append_signed(s: &mut String, n: i64)
    ensures
        final(s)@ == old(s)@ + signed_decimal(n as int),
{
    if n < 0 {
        proof {
            reveal_strlit("-");
        }
        s.append("-");
        let magnitude: u64 = ((-(n + 1)) as u64) + 1;
        append_digits(s, magnitude);
        assert(s@ =~= old(s)@ + signed_decimal(n as int));
    } else {
        append_digits(s, n as u64);
    }
}

/// The `%u` rendering of an unsigned number.
pub fn unsigned_decimal_string(n: u64) -> (s: String)
    ensures
        s@ == digits(n as nat),
{
    let mut s = String::new();
    append_digits(&mut s, n);
    assert(s@ =~= digits(n as nat));
    s
}

/// The `%d` rendering of a signed number.
pub fn signed_decimal_string(n: i64) -> (s: String)
    ensures
        s@ == signed_decimal(n as int),
{
    let mut s = String::new();
    append_signed(&mut s, n);
    assert(s@ =~= signed_decimal(n as int));
    s
}

} // verus!

verus! {

/// The number a string of decimal digits stands for, most significant
/// first.
pub open spec fn decimal_value(s: Seq<char>) -> int
    decreases s.len(),
{
    if s.len() == 0 {
        0
    } else {
        decimal_value(s.drop_last()) * 10 + ((s.last() as int) - ('0' as int))
    }
}

/// A digit's character stands for that digit.
proof fn lemma_digit_char_value(d: nat)
    requires
        d < 10,
    ensures
        (digit_char(d) as int) - ('0' as int) == d,
{
}

/// The digits of a number read back as that number, and start with `0` only
/// for zero itself.
pub proof fn lemma_digits_value(n: nat)
    ensures
        decimal_value(digits(n)) == n,
        digits(n)[0] == '0' ==> n == 0,
    decreases n,
{
    lemma_digits_shape(n);
    lemma_digit_char_value(n % 10);
    if n >= 10 {
        lemma_digits_value(n / 10);
        lemma_digits_shape(n / 10);
        assert(digits(n).drop_last() =~= digits(n / 10));
        assert(digits(n)[0] == digits(n / 10)[0]);
        assert(decimal_value(digits(n)) == decimal_value(digits(n).drop_last()) * 10 + ((
        digits(n).last() as int) - ('0' as int)));
        assert(decimal_value(digits(n)) == (n / 10) * 10 + n % 10);
    } else {
        assert(digits(n).drop_last() =~= Seq::<char>::empty());
        assert(decimal_value(Seq::<char>::empty()) == 0);
        assert(decimal_value(digits(n)) == decimal_value(digits(n).drop_last()) * 10 + ((
        digits(n).last() as int) - ('0' as int)));
    }
}

/// A signed rendering reads back as its number: a leading `-` and the
/// magnitude's digits for a negative number, the digits otherwise.
pub proof fn lemma_signed_decimal_value(n: int)
    ensures
        n >= 0 ==> decimal_value(signed_decimal(n)) == n,
        n < 0 ==> signed_decimal(n)[0] == '-' && decimal_value(signed_decimal(n).drop_first()) == -n,
{
    if n >= 0 {
        lemma_digits_value(n as nat);
    } else {
        lemma_digits_value((-n) as nat);
        assert(signed_decimal(n).drop_first() =~= digits((-n) as nat));
    }
}

} // verus!
