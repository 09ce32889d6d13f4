//! Decimal texts of integers.

use vstd::prelude::*;

verus! {

/// The character of one decimal digit.
pub open spec fn digit(d: nat) -> char
    recommends
        d < 10,
{
    if d == 0 {
        '0'
    } else if d == 1 {
        '1'
    } else if d == 2 {
        '2'
    } else if d == 3 {
        '3'
    } else if d == 4 {
        '4'
    } else if d == 5 {
        '5'
    } else if d == 6 {
        '6'
    } else if d == 7 {
        '7'
    } else if d == 8 {
        '8'
    } else {
        '9'
    }
}

/// The decimal text of a natural number, without leading zeros.
pub open spec fn decimal(n: nat) -> Seq<char>
    decreases n,
{
    if n < 10 {
        seq![digit(n)]
    } else {
        decimal(n / 10).push(digit(n % 10))
    }
}

/// The decimal text of an integer: a minus sign stands before a negative one.
pub open spec fn decimal_int(i: int) -> Seq<char> {
    if i < 0 {
        seq!['-'] + decimal((-i) as nat)
    } else {
        decimal(i as nat)
    }
}

/// Appends one decimal digit.
fn push_digit(out: &mut String, d: u128)
    requires
        d < 10,
    ensures
        final(out)@ == old(out)@.push(digit(d as nat)),
{
    proof {
        reveal_strlit("0");
        reveal_strlit("1");
        reveal_strlit("2");
        reveal_strlit("3");
        reveal_strlit("4");
        reveal_strlit("5");
        reveal_strlit("6");
        reveal_strlit("7");
        reveal_strlit("8");
        reveal_strlit("9");
    }
    let text: &str = if d == 0 {
        "0"
    } else if d == 1 {
        "1"
    } else if d == 2 {
        "2"
    } else if d == 3 {
        "3"
    } else if d == 4 {
        "4"
    } else if d == 5 {
        "5"
    } else if d == 6 {
        "6"
    } else if d == 7 {
        "7"
    } else if d == 8 {
        "8"
    } else {
        "9"
    };
    assert(text@ =~= seq![digit(d as nat)]);
    out.append(text);
    assert(out@ =~= old(out)@.push(digit(d as nat)));
}

/// Appends the decimal text of `n`.
fn push_decimal(out: &mut String, n: u128)
    ensures
        final(out)@ == old(out)@ + decimal(n as nat),
    decreases n,
{
    if n >= 10 {
        push_decimal(out, n / 10);
    }
    push_digit(out, n % 10);
    assert(out@ =~= old(out)@ + decimal(n as nat));
}

/// The decimal text of an unsigned integer.
pub fn unsigned_text(n: u128) -> (text: String)
    ensures
        text@ == decimal(n as nat),
{
    let mut out = String::new();
    push_decimal(&mut out, n);
    assert(out@ =~= decimal(n as nat));
    out
}

/// The decimal text of a signed integer.
pub fn signed_text(i: i32) -> (text: String)
    ensures
        text@ == decimal_int(i as int),
{
    if i < 0 {
        let mut out = "-".to_owned();
        proof {
            reveal_strlit("-");
        }
        push_decimal(&mut out, (-(i as i64)) as u128);
        assert(out@ =~= decimal_int(i as int));
        out
    } else {
        unsigned_text(i as u128)
    }
}

/// Every character of a decimal text is a digit, and there is at least one.
pub proof fn decimal_is_digits(n: nat)
    ensures
        decimal(n).len() > 0,
        forall|i: int| 0 <= i < decimal(n).len() ==> '0' <= #[trigger] decimal(n)[i] <= '9',
    decreases n,
{
    if n >= 10 {
        decimal_is_digits(n / 10);
    }
}

/// A text of digits is the decimal text of at most one number.
pub proof fn decimal_is_injective(m: nat, n: nat)
    requires
        decimal(m) == decimal(n),
    ensures
        m == n,
    decreases m,
{
    decimal_is_digits(m / 10);
    decimal_is_digits(n / 10);
    if m < 10 && n < 10 {
        assert(decimal(m)[0] == digit(m) && decimal(n)[0] == digit(n));
    } else if m < 10 {
        assert(decimal(n).len() > 1);
    } else if n < 10 {
        assert(decimal(m).len() > 1);
    } else {
        assert(decimal(m).drop_last() =~= decimal(m / 10));
        assert(decimal(n).drop_last() =~= decimal(n / 10));
        assert(decimal(m).last() == digit(m % 10) && decimal(n).last() == digit(n % 10));
        decimal_is_injective(m / 10, n / 10);
    }
}

/// The number that a text of digits stands for, read digit by digit.
pub open spec fn decimal_value(text: Seq<char>) -> int
    decreases text.len(),
{
    if text.len() == 0 {
        0
    } else {
        10 * decimal_value(text.drop_last()) + (text.last() as int - '0' as int)
    }
}

/// A reader gets every number back from its decimal text, which has no leading zero.
pub proof fn decimal_reads_back(n: nat)
    ensures
        decimal_value(decimal(n)) == n,
        decimal(n).len() > 1 ==> decimal(n)[0] != '0',
    decreases n,
{
    reveal_with_fuel(decimal_value, 2);
    if n >= 10 {
        decimal_reads_back(n / 10);
        assert(decimal(n).drop_last() =~= decimal(n / 10));
        if n / 10 < 10 {
            assert(decimal(n)[0] == digit(n / 10));
        }
    } else {
        assert(decimal(n).drop_last() =~= Seq::<char>::empty());
    }
}

/// A reader gets every integer back from its decimal text: a minus sign stands before the digits of a
/// negative one and nowhere else.
pub proof fn decimal_int_reads_back(i: int)
    ensures
        decimal_int(i).len() > 0,
        (decimal_int(i)[0] == '-') == (i < 0),
        decimal_value(
            if i < 0 {
                decimal_int(i).skip(1)
            } else {
                decimal_int(i)
            },
        ) == (if i < 0 {
            -i
        } else {
            i
        }),
        forall|k: int| 1 <= k < decimal_int(i).len() ==> '0' <= #[trigger] decimal_int(i)[k] <= '9',
{
    let n = (if i < 0 {
        -i
    } else {
        i
    }) as nat;
    decimal_reads_back(n);
    decimal_is_digits(n);
    if i < 0 {
        assert(decimal_int(i).skip(1) =~= decimal(n));
        assert forall|k: int| 1 <= k < decimal_int(i).len() implies '0' <= #[trigger] decimal_int(
            i,
        )[k] <= '9' by {
            assert(decimal_int(i)[k] == decimal(n)[k - 1]);
        }
    }
}

} // verus!
