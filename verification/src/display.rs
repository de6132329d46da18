//! What a seven-segment score display shows: the decimal digits of a number
//! and the segments that light up for each digit.
use vstd::prelude::*;

verus! {

/// The decimal digits of `number`, the ones first. Zero has the one digit 0.
pub open spec fn digits_of(number: nat) -> Seq<u8>
    decreases number,
{
    if number < 10 {
        seq![number as u8]
    } else {
        seq![(number % 10) as u8] + digits_of(number / 10)
    }
}

/// The number that a run of decimal digits stands for, the ones first.
pub open spec fn value_of(digits: Seq<u8>) -> nat
    decreases digits.len(),
{
    if digits.len() == 0 {
        0
    } else {
        digits[0] as nat + 10 * value_of(digits.drop_first())
    }
}

/// The digits of a number are decimal digits, there is no zero in front
/// unless the number is zero, and they stand for the number.
pub proof fn lemma_digits_of(number: nat)
    ensures
        digits_of(number).len() >= 1,
        forall|i: int| 0 <= i < digits_of(number).len() ==> digits_of(number)[i] < 10,
        number > 0 ==> digits_of(number).last() != 0,
        value_of(digits_of(number)) == number,
    decreases number,
{
    let digits = digits_of(number);
    if number < 10 {
        assert(value_of(digits.drop_first()) == 0);
    } else {
        lemma_digits_of(number / 10);
        let rest = digits_of(number / 10);
        assert(digits.drop_first() =~= rest);
    }
}

/// Splits `number` into its decimal digits, the ones first.
pub fn decimal_digits(number: usize) -> (digits: Vec<u8>)
    ensures
        digits@ == digits_of(number as nat),
{
    let mut digits: Vec<u8> = Vec::new();
    let mut rest: usize = number;
    while rest >= 10
        invariant
            digits_of(number as nat) == digits@ + digits_of(rest as nat),
        decreases rest,
    {
        digits.push((rest % 10) as u8);
        rest = rest / 10;
    }
    digits.push(rest as u8);
    digits
}

/// The segments that show each digit. A digit has seven segments, in this
/// order: upper left, lower left, upper right, lower right, top, middle,
/// bottom.
///
/// ```text
///   4
/// 0   2
///   5
/// 1   3
///   6
/// ```
pub open spec fn segment_table() -> Seq<Seq<bool>> {
    seq![
        seq![true, true, true, true, true, false, true],
        seq![false, false, true, true, false, false, false],
        seq![false, true, true, false, true, true, true],
        seq![false, false, true, true, true, true, true],
        seq![true, false, true, true, false, true, false],
        seq![true, false, false, true, true, true, true],
        seq![true, true, false, true, true, true, true],
        seq![false, false, true, true, true, false, false],
        seq![true, true, true, true, true, true, true],
        seq![true, false, true, true, true, true, true],
    ]
}

/// Which of the seven segments light up to show `digit`.
pub fn segments(digit: u8) -> (lit: [bool; 7])
    requires
        digit < 10,
    ensures
        lit@ == segment_table()[digit as int],
{
    let table: [[bool; 7]; 10] = [
        [true, true, true, true, true, false, true],
        [false, false, true, true, false, false, false],
        [false, true, true, false, true, true, true],
        [false, false, true, true, true, true, true],
        [true, false, true, true, false, true, false],
        [true, false, false, true, true, true, true],
        [true, true, false, true, true, true, true],
        [false, false, true, true, true, false, false],
        [true, true, true, true, true, true, true],
        [true, false, true, true, true, true, true],
    ];
    table[digit as usize]
}

} // verus!
