//! Numbers as text.

use vstd::prelude::*;

verus! {

/// The digit for a number below ten.
pub open spec fn digit(number: nat) -> char {
    (48 + number) as char
}

/// The decimal digits of a natural number, without leading zeros.
pub open spec fn natural_digits(number: nat) -> Seq<char>
    decreases number,
{
    if number < 10 {
        seq![digit(number)]
    } else {
        natural_digits(number / 10).push(digit(number % 10))
    }
}

/// A whole number in decimal, with a sign if it is negative.
pub open spec fn decimal(number: int) -> Seq<char> {
    if number < 0 {
        seq!['-'] + natural_digits((-number) as nat)
    } else {
        natural_digits(number as nat)
    }
}

/// The number that decimal digits stand for.
pub open spec fn natural_value(digits: Seq<char>) -> int
    decreases digits.len(),
{
    if digits.len() == 0 {
        0
    } else {
        natural_value(digits.drop_last()) * 10 + (digits.last() as int - '0' as int)
    }
}

/// The digits of a number are digits, read back as the number, and begin with a zero only if it is
/// zero.
pub proof fn digits_read_back(number: nat)
    ensures
        natural_value(natural_digits(number)) == number,
        natural_digits(number).len() > 0,
        forall|i: int|
            0 <= i < natural_digits(number).len() ==> '0' <= #[trigger] natural_digits(number)[i]
                <= '9',
        natural_digits(number)[0] == '0' ==> number == 0,
    decreases number,
{
    let digits = natural_digits(number);
    if number < 10 {
        assert(digits.drop_last() =~= Seq::<char>::empty());
        assert(natural_value(digits.drop_last()) == 0);
    } else {
        digits_read_back(number / 10);
        assert(digits.drop_last() =~= natural_digits(number / 10));
        assert(digits[0] == natural_digits(number / 10)[0]);
        assert forall|i: int| 0 <= i < digits.len() implies '0' <= #[trigger] digits[i] <= '9' by {
            if i < digits.len() - 1 {
                assert(digits[i] == natural_digits(number / 10)[i]);
            }
        }
    }
}

/// A whole number in decimal is its digits, behind a sign exactly if it is negative.
pub proof fn sign_and_digits(number: int)
    ensures
        number >= 0 ==> natural_value(decimal(number)) == number && decimal(number)[0] != '-',
        number < 0 ==> decimal(number)[0] == '-' && natural_value(decimal(number).skip(1))
            == -number,
{
    if number < 0 {
        digits_read_back((-number) as nat);
        assert(decimal(number).skip(1) =~= natural_digits((-number) as nat));
    } else {
        digits_read_back(number as nat);
    }
}

/// Different numbers read differently in decimal.
pub proof fn decimal_tells_numbers_apart(number: int, other: int)
    requires
        decimal(number) == decimal(other),
    ensures
        number == other,
{
    sign_and_digits(number);
    sign_and_digits(other);
}

fn digit_text(number: u32) -> (result: &'static str)
    requires
        number < 10,
    ensures
        result@ == seq![digit(number as nat)],
{
    proof {
        reveal_strlit("0");
        reveal_strlit("1");
        reveal_strlit("2");
        reveal_strlit("3");
        reveal_strlit("4");
        reveal_strlit("5");
        reveal_strlit("6");
        reveal_strlit("7");
        reveal_strlit("8");
        reveal_strlit("9");
    }
    match number {
        0 => "0",
        1 => "1",
        2 => "2",
        3 => "3",
        4 => "4",
        5 => "5",
        6 => "6",
        7 => "7",
        8 => "8",
        _ => "9",
    }
}

fn natural_text(number: u32) -> (result: String)
    ensures
        result@ == natural_digits(number as nat),
    decreases number,
{
    if number < 10 {
        digit_text(number).to_string()
    } else {
        let result = natural_text(number / 10).concat(digit_text(number % 10));
        assert(result@ =~= natural_digits(number as nat));
        result
    }
}

/// A whole number in decimal, with a sign if it is negative.
pub fn decimal_text(number: i32) -> (result: String)
    ensures
        result@ == decimal(number as int),
{
    if number < 0 {
        proof {
            reveal_strlit("-");
        }
        let magnitude: u32 = (-(number as i64)) as u32;
        let result = "-".to_string().concat(natural_text(magnitude).as_str());
        assert(result@ =~= decimal(number as int));
        result
    } else {
        natural_text(number as u32)
    }
}

} // verus!
