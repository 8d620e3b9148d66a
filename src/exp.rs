use vstd::prelude::*;

use crate::text::{push_char, push_signed_decimal, signed_decimal};

verus! {

/// One named part of an experience award, as shown to the solver.
pub struct ExpSource {
    pub name: String,
    /// The amount as displayed, such as `+100`.
    pub amount: String,
    pub special: bool,
}

/// The displayed text of an amount that is added: `+` and its decimal digits.
pub open spec fn additive_text(amount: int) -> Seq<char> {
    seq!['+'] + signed_decimal(amount)
}

impl ExpSource {
    /// A plain part of an award that adds `amount` points.
    pub fn additive(name: &str, amount: i32) -> (r: ExpSource)
        ensures
            r.name@ == name@,
            r.amount@ == additive_text(amount as int),
            !r.special,
    {
        let mut text = String::new();
        push_char(&mut text, '+');
        push_signed_decimal(&mut text, amount);
        assert(text@ =~= additive_text(amount as int));
        ExpSource { name: name.to_owned(), amount: text, special: false }
    }
}

/// Experience points needed to advance one level.
pub const EXP_PER_LEVEL: i32 = 1000;

/// Rust's `/` on integers: the quotient rounded toward zero.
pub open spec fn div_toward_zero(a: int, b: int) -> int {
    if a >= 0 {
        a / b
    } else {
        -((-a) / b)
    }
}

/// Rust's `%` on integers: the remainder takes the sign of the dividend.
pub open spec fn rem_toward_zero(a: int, b: int) -> int {
    a - b * div_toward_zero(a, b)
}

/// The level reached with `exp` experience points.
pub fn exp_to_level(exp: i32) -> (r: i32)
    ensures
        r == 1 + div_toward_zero(exp as int, EXP_PER_LEVEL as int),
{
    1 + exp / EXP_PER_LEVEL
}

/// The experience points earned within the current level.
pub fn exp_through(exp: i32) -> (r: i32)
    ensures
        r == rem_toward_zero(exp as int, EXP_PER_LEVEL as int),
{
    exp % EXP_PER_LEVEL
}

} // verus!
