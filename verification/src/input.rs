//! Reading a move from a line that a player has typed.

use vstd::prelude::*;

verus! {

/// What a typed line says.
#[derive(Clone, Copy, Debug, PartialEq, Eq, Structural)]
pub enum MoveInput {
    /// A cell of the field, always one of 0 to 8.
    Move(usize),
    /// A number, but none of 0 to 8.
    OutOfRange,
    /// No number: not an optional plus sign followed by decimal digits, or
    /// more than a `usize` holds.
    Malformed,
}

/// `c` is one of the ten decimal digits.
pub open spec fn is_digit(c: char) -> bool {
    '0' <= c <= '9'
}

/// Every character of `text` is a decimal digit.
pub open spec fn all_digits(text: Seq<char>) -> bool {
    forall|i: int| 0 <= i < text.len() ==> is_digit(#[trigger] text[i])
}

/// The number that a run of decimal digits writes in base ten.
pub open spec fn digits_value(digits: Seq<char>) -> nat
    decreases digits.len(),
{
    if digits.len() == 0 {
        0
    } else {
        digits_value(digits.drop_last()) * 10 + (digits.last() as nat - '0' as nat) as nat
    }
}

/// `text` without the plus sign that it may start with.
pub open spec fn unsigned_part(text: Seq<char>) -> Seq<char> {
    if text.len() > 0 && text[0] == '+' {
        text.skip(1)
    } else {
        text
    }
}

/// The number that `text` writes: an optional plus sign, then one or more
/// decimal digits and nothing else, as long as the number fits a `usize`.
pub open spec fn number_of(text: Seq<char>) -> Option<usize> {
    let digits = unsigned_part(text);
    if digits.len() > 0 && all_digits(digits) && digits_value(digits) <= usize::MAX {
        Some(digits_value(digits) as usize)
    } else {
        None
    }
}

/// What a parsed line says about the move: a number below nine is a move.
pub open spec fn move_of(number: Option<usize>) -> MoveInput {
    match number {
        Some(n) => if n < 9 {
            MoveInput::Move(n)
        } else {
            MoveInput::OutOfRange
        },
        None => MoveInput::Malformed,
    }
}

/// `text` without the white space around it, as `str::trim` leaves it.
pub uninterp spec fn trimmed(text: Seq<char>) -> Seq<char>;

/// Calls `str::trim`, which returns the slice that is left when leading and
/// trailing white space (Unicode's `White_Space`) is taken away. The contract
/// only gives that slice its name, `trimmed`.
#[verifier::external_body]
fn trim(text: &str) -> (inner: &str)
    ensures
        inner@ == trimmed(text@),
{
    text.trim()
}

/// A longer run of digits never writes a smaller number than its beginning.
pub proof fn lemma_digits_value_grows(digits: Seq<char>, n: int)
    requires
        0 <= n <= digits.len(),
    ensures
        digits_value(digits.take(n)) <= digits_value(digits),
    decreases digits.len() - n,
{
    if n == digits.len() {
        assert(digits.take(n) == digits);
    } else {
        lemma_digits_value_grows(digits.drop_last(), n);
        assert(digits.drop_last().take(n) == digits.take(n));
    }
}

/// The number that `text` writes, if it writes one: see `number_of`.
pub fn parse_number(text: &str) -> (number: Option<usize>)
    ensures
        number == number_of(text@),
{
    let mut first = true;
    let mut any = false;
    let mut value: usize = 0;
    for c in it: text.chars()
        invariant
            it.seq() == text@,
            first <==> it.index() == 0,
            any <==> unsigned_part(text@.take(it.index() as int)).len() > 0,
            all_digits(unsigned_part(text@.take(it.index() as int))),
            value == digits_value(unsigned_part(text@.take(it.index() as int))),
    {
        let ghost before = text@.take(it.index() as int);
        let ghost after = text@.take(it.index() + 1);
        if '0' <= c && c <= '9' {
            assert(unsigned_part(after) == unsigned_part(before).push(c));
            assert(unsigned_part(after).drop_last() == unsigned_part(before));
            let digit = (c as u32 - '0' as u32) as usize;
            let grown = match value.checked_mul(10) {
                Some(tens) => tens.checked_add(digit),
                None => None,
            };
            match grown {
                Some(v) => {
                    value = v;
                },
                None => {
                    proof {
                        let rest = unsigned_part(text@);
                        assert(unsigned_part(after) == rest.take(unsigned_part(after).len() as int));
                        lemma_digits_value_grows(rest, unsigned_part(after).len() as int);
                    }
                    return None;
                },
            }
            any = true;
        } else if !(first && c == '+') {
            proof {
                let rest = unsigned_part(text@);
                let at = it.index() - (text@.len() - rest.len());
                assert(rest[at] == c);
            }
            return None;
        }
        first = false;
    }
    assert(text@.take(text@.len() as int) == text@);
    if any {
        Some(value)
    } else {
        None
    }
}

/// What a parsed line says about the move: a number from 0 to 8 is a move,
/// any other number is out of range, and no number is malformed input.
pub fn check_move(number: Option<usize>) -> (input: MoveInput)
    ensures
        input == move_of(number),
        input matches MoveInput::Move(idx) ==> idx < 9,
{
    match number {
        Some(n) => if n < 9 {
            MoveInput::Move(n)
        } else {
            MoveInput::OutOfRange
        },
        None => MoveInput::Malformed,
    }
}

/// Reads a move from a typed line: the white space around it is dropped, and
/// what is left has to write a number from 0 to 8.
pub fn read_move(line: &str) -> (input: MoveInput)
    ensures
        input == move_of(number_of(trimmed(line@))),
        input matches MoveInput::Move(idx) ==> idx < 9,
{
    check_move(parse_number(trim(line)))
}

} // verus!
