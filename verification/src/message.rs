//! Messages with numbers in them.

use vstd::prelude::*;

verus! {

/// Part of a message: a text, a number in decimal, or a number in hexadecimal with at
/// least so many digits.
#[derive(Clone, Copy, Debug, PartialEq, Eq)]
#[allow(inconsistent_fields)]
pub enum MessagePart {
    Text(&'static str),
    Number(u64),
    Hexadecimal { value: u64, width: u8 },
}

/// Digit of each value.
pub open spec fn spec_digit(value: u64) -> &'static str {
    match value {
        0 => "0",
        1 => "1",
        2 => "2",
        3 => "3",
        4 => "4",
        5 => "5",
        6 => "6",
        7 => "7",
        8 => "8",
        9 => "9",
        10 => "a",
        11 => "b",
        12 => "c",
        13 => "d",
        14 => "e",
        _ => "f",
    }
}

#[verifier::when_used_as_spec(spec_digit)]
pub fn digit(value: u64) -> (r: &'static str)
    ensures
        r == spec_digit(value),
{
    match value {
        0 => "0",
        1 => "1",
        2 => "2",
        3 => "3",
        4 => "4",
        5 => "5",
        6 => "6",
        7 => "7",
        8 => "8",
        9 => "9",
        10 => "a",
        11 => "b",
        12 => "c",
        13 => "d",
        14 => "e",
        _ => "f",
    }
}

/// Decimal digits of a number.
pub open spec fn decimal(value: u64) -> Seq<char>
    decreases value,
{
    if value < 10 {
        digit(value)@
    } else {
        decimal(value / 10) + digit(value % 10)@
    }
}

/// Hexadecimal digits of a number, at least so many.
pub open spec fn hexadecimal(value: u64, width: u8) -> Seq<char>
    decreases value, width,
{
    if value < 16 && width <= 1 {
        digit(value)@
    } else {
        hexadecimal(
            value / 16,
            if width > 0 {
                (width - 1) as u8
            } else {
                0
            },
        ) + digit(value % 16)@
    }
}

/// Characters of a part.
pub open spec fn part_text(part: MessagePart) -> Seq<char> {
    match part {
        MessagePart::Text(text) => text@,
        MessagePart::Number(value) => decimal(value),
        MessagePart::Hexadecimal { value, width } => hexadecimal(value, width),
    }
}

/// Characters of parts, in order.
pub open spec fn rendered(parts: Seq<MessagePart>) -> Seq<char>
    decreases parts.len(),
{
    if parts.len() == 0 {
        Seq::empty()
    } else {
        rendered(parts.drop_last()) + part_text(parts.last())
    }
}

fn append_decimal(text: &mut String, value: u64)
    ensures
        final(text)@ == old(text)@ + decimal(value),
    decreases value,
{
    if value >= 10 {
        append_decimal(text, value / 10);
    }
    text.append(digit(value % 10));
}

fn append_hexadecimal(text: &mut String, value: u64, width: u8)
    ensures
        final(text)@ == old(text)@ + hexadecimal(value, width),
    decreases value, width,
{
    if value >= 16 || width > 1 {
        append_hexadecimal(
            text,
            value / 16,
            if width > 0 {
                width - 1
            } else {
                0
            },
        );
    }
    text.append(digit(value % 16));
}

/// Appends the characters of parts.
#[verifier::loop_isolation(false)]
pub fn append_parts(text: &mut String, parts: &Vec<MessagePart>)
    ensures
        final(text)@ == old(text)@ + rendered(parts@),
{
    let ghost before = text@;
    let mut index: usize = 0;
    proof {
        assert(text@ =~= before + rendered(parts@.take(0)));
    }
    while index < parts.len()
        invariant
            index <= parts@.len(),
            text@ == before + rendered(parts@.take(index as int)),
        decreases parts@.len() - index,
    {
        proof {
            assert(parts@.take(index + 1).drop_last() =~= parts@.take(index as int));
        }
        match parts[index] {
            MessagePart::Text(part) => text.append(part),
            MessagePart::Number(value) => append_decimal(text, value),
            MessagePart::Hexadecimal { value, width } => append_hexadecimal(text, value, width),
        }
        proof {
            assert(text@ =~= before + rendered(parts@.take(index + 1)));
        }
        index = index + 1;
    }
    proof {
        assert(parts@.take(index as int) =~= parts@);
    }
}

} // verus!
