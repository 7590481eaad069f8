use vstd::prelude::*;
use crate::text::{decimal, digits};

verus! {

/// The number of an order of the shop.
#[derive(Copy, Clone, PartialEq, Eq, Structural, Hash, Debug)]
pub struct OrderNumber(pub u32);

/// The value of a decimal digit, and nothing for any other character.
pub open spec fn digit_of(c: char) -> Option<nat> {
    if c == '0' {
        Some(0)
    } else if c == '1' {
        Some(1)
    } else if c == '2' {
        Some(2)
    } else if c == '3' {
        Some(3)
    } else if c == '4' {
        Some(4)
    } else if c == '5' {
        Some(5)
    } else if c == '6' {
        Some(6)
    } else if c == '7' {
        Some(7)
    } else if c == '8' {
        Some(8)
    } else if c == '9' {
        Some(9)
    } else {
        None
    }
}

/// The number that a text of decimal digits is. A text that is empty or
/// holds anything but digits is no number.
pub open spec fn number_of(text: Seq<char>) -> Option<nat>
    decreases text.len(),
{
    if text.len() == 0 {
        None
    } else {
        match digit_of(text.last()) {
            None => None,
            Some(digit) => if text.len() == 1 {
                Some(digit)
            } else {
                match number_of(text.drop_last()) {
                    Some(before) => Some(10 * before + digit),
                    None => None,
                }
            },
        }
    }
}

/// What `str::parse::<u32>` makes of a text: the number that the digits
/// are, after a `+` that may stand before them, if it fits 32 bits.
pub open spec fn parsed_u32(text: Seq<char>) -> Option<u32> {
    let digits = if text.len() > 0 && text[0] == '+' {
        text.subrange(1, text.len() as int)
    } else {
        text
    };
    match number_of(digits) {
        Some(number) => if number <= u32::MAX {
            Some(number as u32)
        } else {
            None
        },
        None => None,
    }
}

/// Reads a number with `str::parse::<u32>` of std. The contract is taken on
/// trust from its documentation: it reads decimal digits, with one `+` before
/// them if there is one, and refuses the empty text, any other character,
/// and a number that does not fit 32 bits.
#[verifier::external_body]
fn parse_u32(text: &str) -> (number: Option<u32>)
    ensures
        number == parsed_u32(text@),
{
    match text.parse::<u32>() {
        Ok(number) => Some(number),
        Err(_) => None,
    }
}

/// The order number that a text stands for: the number that follows a
/// leading `#`, or the number that the whole text is.
pub open spec fn order_number_of(text: Seq<char>) -> Option<OrderNumber> {
    let number = if text.len() > 0 && text[0] == '#' {
        parsed_u32(text.subrange(1, text.len() as int))
    } else {
        parsed_u32(text)
    };
    match number {
        Some(n) => Some(OrderNumber(n)),
        None => None,
    }
}

/// The order number that a number read from a text stands for.
pub open spec fn order_number_from(number: Option<u32>) -> Option<OrderNumber> {
    match number {
        Some(n) => Some(OrderNumber(n)),
        None => None,
    }
}

/// An order number as it is shown: `#` and the number in decimal digits.
pub open spec fn order_number_text(number: OrderNumber) -> Seq<char> {
    seq!['#'] + digits(number.0 as nat)
}

/// The digits of a number are read back as that number.
pub proof fn lemma_digits_are_read_back(number: nat)
    ensures
        number_of(digits(number)) == Some(number),
        digits(number).len() > 0,
        digit_of(digits(number)[0]) is Some,
    decreases number,
{
    if number >= 10 {
        lemma_digits_are_read_back(number / 10);
        let before = digits(number / 10);
        assert(digits(number).drop_last() == before);
        assert(digits(number)[0] == before[0]);
    }
}

/// An order number that is shown and read again is the same order number.
pub proof fn lemma_order_number_round_trip(order: OrderNumber)
    ensures
        order_number_of(order_number_text(order)) == Some(order),
{
    let shown = order_number_text(order);
    let number = digits(order.0 as nat);
    lemma_digits_are_read_back(order.0 as nat);
    assert(shown.subrange(1, shown.len() as int) == number);
    assert(number[0] != '+');
}

impl OrderNumber {
    /// The order number that a number read from a text stands for, if one
    /// was read.
    pub fn from_parsed(number: Option<u32>) -> (order: Option<OrderNumber>)
        ensures
            order == order_number_from(number),
    {
        match number {
            Some(n) => Some(OrderNumber(n)),
            None => None,
        }
    }

    /// Reads an order number, with or without a leading `#`.
    pub fn from_str(text: &str) -> (order: Option<OrderNumber>)
        ensures
            order == order_number_of(text@),
    {
        let length = text.unicode_len();
        let number = if length > 0 && text.get_char(0) == '#' {
            parse_u32(text.substring_char(1, length))
        } else {
            parse_u32(text)
        };
        OrderNumber::from_parsed(number)
    }

    /// The order number as it is shown: `#` and the number.
    pub fn to_string(&self) -> (text: String)
        ensures
            text@ == order_number_text(*self),
    {
        proof {
            reveal_strlit("#");
        }
        let mut text = String::from_str("#");
        let number = decimal(self.0 as u64);
        text.append(number.as_str());
        assert(text@ =~= order_number_text(*self));
        text
    }
}

} // verus!
