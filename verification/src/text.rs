//! Numbers as text.
use vstd::prelude::*;

verus! {

/// The digit for a number below ten.
pub open spec fn digit(value: int) -> char {
    ('0' as int + value) as char
}

/// A number in decimal digits.
pub open spec fn decimal(value: nat) -> Seq<char>
    decreases value,
{
    if value < 10 {
        seq![digit(value as int)]
    } else {
        decimal(value / 10).push(digit(value as int % 10))
    }
}

/// Writes a digit.
fn digit_text(value: u128) -> (r: &'static str)
    requires
        value < 10,
    ensures
        r@ == seq![digit(value as int)],
{
    proof {
        reveal_strlit("0");
        reveal_strlit("1");
        reveal_strlit("2");
        reveal_strlit("3");
        reveal_strlit("4");
        reveal_strlit("5");
        reveal_strlit("6");
        reveal_strlit("7");
        reveal_strlit("8");
        reveal_strlit("9");
    }
    match value {
        0 => "0",
        1 => "1",
        2 => "2",
        3 => "3",
        4 => "4",
        5 => "5",
        6 => "6",
        7 => "7",
        8 => "8",
        _ => "9",
    }
}

/// Writes a number in decimal digits.
pub fn decimal_text(value: u128) -> (r: String)
    ensures
        r@ == decimal(value as nat),
    decreases value,
{
    if value < 10 {
        digit_text(value).to_string()
    } else {
        decimal_text(value / 10).concat(digit_text(value % 10))
    }
}

/// A number below ten is written with the one digit that stands for it.
pub proof fn law_small_number_is_one_digit(value: nat)
    requires
        value < 10,
    ensures
        decimal(value).len() == 1,
        decimal(value)[0] as int == '0' as int + value,
{
}

/// A digit behind a number that is not zero makes the number ten times as large, and adds the
/// digit's worth.
pub proof fn law_digit_behind_a_number(value: nat, last: nat)
    requires
        value > 0,
        last < 10,
    ensures
        decimal(10 * value + last) == decimal(value) + decimal(last),
{
    let whole = (10 * value + last) as int;
    assert(whole / 10 == value);
    assert(whole % 10 == last);
    assert(decimal(10 * value + last) =~= decimal(value) + decimal(last));
}

} // verus!
