//! Decimal digits of a clock field and the binary places of a digit.

use vstd::arithmetic::power2::{lemma2_to64, pow2};
use vstd::bits::lemma_u32_shr_is_div;
use vstd::prelude::*;

verus! {

/// The tens digit of a two-digit clock field.
pub open spec fn tens(value: nat) -> nat {
    value / 10
}

/// The ones digit of a clock field.
pub open spec fn ones(value: nat) -> nat {
    value % 10
}

/// The weight of the binary place `bit`, two to the power of `bit`: the
/// weights of the clock's four rows are written out.
pub open spec fn place_weight(bit: nat) -> nat {
    if bit == 0 {
        1
    } else if bit == 1 {
        2
    } else if bit == 2 {
        4
    } else if bit == 3 {
        8
    } else {
        pow2(bit)
    }
}

/// Whether the binary place `bit` of `number` holds a one.
pub open spec fn bit_is_set(number: nat, bit: nat) -> bool {
    (number / place_weight(bit)) % 2 == 1
}

/// Tells whether the circle that stands for the binary place `bit` of
/// `number` is lit.
pub fn is_lit(number: u32, bit: u32) -> (lit: bool)
    requires
        bit < u32::BITS,
    ensures
        lit == bit_is_set(number as nat, bit as nat),
        lit == ((number >> bit) & 1 == 1),
{
    proof {
        lemma_lit_is_shifted_low_bit(number, bit);
    }
    assert((number & (1u32 << bit) != 0) == ((number >> bit) & 1 == 1)) by (bit_vector)
        requires
            bit < 32,
    ;
    number & (1u32 << bit) != 0
}

/// A circle is lit exactly when its number, shifted right by the circle's
/// binary place, is odd: `bit_is_set(number, bit)` is `(number >> bit) & 1`.
pub proof fn lemma_lit_is_shifted_low_bit(number: u32, bit: u32)
    requires
        bit < u32::BITS,
    ensures
        bit_is_set(number as nat, bit as nat) == ((number >> bit) & 1 == 1),
{
    let shifted: u32 = number >> bit;
    lemma_u32_shr_is_div(number, bit);
    lemma_place_weight_is_power_of_two(bit as nat);
    assert(shifted & 1 == shifted % 2) by (bit_vector);
}

/// The weight of every binary place is two to the power of the place.
pub proof fn lemma_place_weight_is_power_of_two(bit: nat)
    ensures
        place_weight(bit) == pow2(bit),
{
    lemma2_to64();
}

/// An hour from 0 to 23 splits into a tens digit from 0 to 2 and a ones digit
/// from 0 to 9, and the two digits give the hour back.
pub proof fn lemma_hour_digits(hour: nat)
    requires
        hour <= 23,
    ensures
        tens(hour) <= 2,
        ones(hour) <= 9,
        tens(hour) * 10 + ones(hour) == hour,
{
}

/// A minute or a second from 0 to 59 splits into a tens digit from 0 to 5 and
/// a ones digit from 0 to 9, and the two digits give the value back.
pub proof fn lemma_sixtieth_digits(value: nat)
    requires
        value <= 59,
    ensures
        tens(value) <= 5,
        ones(value) <= 9,
        tens(value) * 10 + ones(value) == value,
{
}

/// The four circles of a column spell its digit: the lit places, weighted
/// 8, 4, 2 and 1, add up to the digit.
pub proof fn lemma_lit_places_spell_digit(digit: nat)
    requires
        digit <= 15,
    ensures
        digit == (if bit_is_set(digit, 3) { 8nat } else { 0 })
            + (if bit_is_set(digit, 2) { 4nat } else { 0 })
            + (if bit_is_set(digit, 1) { 2nat } else { 0 })
            + (if bit_is_set(digit, 0) { 1nat } else { 0 }),
{
}

/// Of the decimal digits only 8 and 9 light the top circle of a column.
pub proof fn lemma_top_place_marks_eight_and_nine(digit: nat)
    requires
        digit <= 9,
    ensures
        bit_is_set(digit, 3) <==> digit >= 8,
{
}

} // verus!
