//! Reading the digits of number literals.

use vstd::prelude::*;
use num::Num;

verus! {

/// The value of a character as a digit: `0` to `9` are 0 to 9, and the
/// letters `a` to `z`, in either case, are 10 to 35.
pub open spec fn digit_value(c: char) -> Option<nat> {
    let code = c as u32;
    if 48 <= code <= 57 {
        Some((code - 48) as nat)
    } else if 97 <= code <= 122 {
        Some((code - 87) as nat)
    } else if 65 <= code <= 90 {
        Some((code - 55) as nat)
    } else {
        None
    }
}

/// The number that digits in the base `radix` stand for, the first digit
/// being the most significant one. Underscores between the digits count for
/// nothing. There is no number where a character is no digit of the base.
pub open spec fn digits_number(digits: Seq<char>, radix: u32) -> Option<nat>
    decreases digits.len(),
{
    if digits.len() == 0 {
        Some(0)
    } else {
        match digits_number(digits.drop_last(), radix) {
            None => None,
            Some(front) => if digits.last() == '_' {
                Some(front)
            } else {
                match digit_value(digits.last()) {
                    Some(digit) => if digit < radix {
                        Some((front * radix + digit) as nat)
                    } else {
                        None
                    },
                    None => None,
                }
            },
        }
    }
}

/// The number that `num::BigUint::from_str_radix` reads from `digits` in
/// the base `radix`; `None` where it reads none. One plus sign may stand in
/// front. What follows has to start with a digit and to be made of digits of
/// the base and underscores.
pub open spec fn radix_number(digits: Seq<char>, radix: u32) -> Option<nat> {
    let body = if digits.len() > 0 && digits[0] == '+' && !(digits.len() > 1 && digits[1] == '+') {
        digits.skip(1)
    } else {
        digits
    };
    if body.len() == 0 || body[0] == '_' {
        None
    } else {
        digits_number(body, radix)
    }
}

/// The number that a sequence of bytes stands for, the first byte being the
/// most significant one.
pub open spec fn big_endian(bytes: Seq<u8>) -> nat
    decreases bytes.len(),
{
    if bytes.len() == 0 {
        0
    } else {
        big_endian(bytes.drop_last()) * 256 + bytes.last() as nat
    }
}

/// Read a number from its digits in the base `radix`, with
/// `num::BigUint::from_str_radix`. The number comes as the bytes that
/// `num::BigUint::to_bytes_be` gives for it: most significant byte first.
/// The function does not return for a base below 2 or above 36.
#[verifier::external_body]
pub(crate) fn read_radix(digits: &Vec<char>, radix: u32) -> (result: Option<Vec<u8>>)
    requires
        2 <= radix <= 36,
    ensures
        match result {
            Some(bytes) => radix_number(digits@, radix) == Some(big_endian(bytes@)),
            None => radix_number(digits@, radix) is None,
        },
{
    let text: String = digits.iter().collect();
    match num::BigUint::from_str_radix(&text, radix) {
        Ok(number) => Some(number.to_bytes_be()),
        Err(_) => None,
    }
}

/// Two to the power 63: one more than the largest integer of the machine.
pub const LIMIT: u64 = 0x8000_0000_0000_0000;

/// A longer sequence of bytes stands for a number that is no smaller than
/// the number of any of its prefixes.
pub proof fn lemma_big_endian_grows(bytes: Seq<u8>, len: int)
    requires
        0 <= len <= bytes.len(),
    ensures
        big_endian(bytes.take(len)) <= big_endian(bytes),
    decreases bytes.len() - len,
{
    if len < bytes.len() {
        assert(bytes.take(len + 1).drop_last() =~= bytes.take(len));
        lemma_big_endian_grows(bytes, len + 1);
    } else {
        assert(bytes.take(len) =~= bytes);
    }
}

/// The number that the bytes stand for, if it is at most two to the power
/// 63.
pub fn small_number(bytes: &Vec<u8>) -> (result: Option<u64>)
    ensures
        result == if big_endian(bytes@) <= LIMIT {
            Some(big_endian(bytes@) as u64)
        } else {
            None
        },
{
    let mut number: u64 = 0;
    let mut i: usize = 0;
    assert(bytes@.take(0) =~= Seq::<u8>::empty());
    while i < bytes.len()
        invariant
            i <= bytes@.len(),
            number == big_endian(bytes@.take(i as int)),
            number <= LIMIT,
        decreases bytes@.len() - i,
    {
        proof {
            assert(bytes@.take(i + 1).drop_last() =~= bytes@.take(i as int));
            lemma_big_endian_grows(bytes@, i + 1);
        }
        if number > LIMIT / 256 {
            return None;
        }
        let next = number * 256 + bytes[i] as u64;
        if next > LIMIT {
            return None;
        }
        number = next;
        i = i + 1;
    }
    assert(bytes@.take(i as int) =~= bytes@);
    Some(number)
}

/// The integer with the given magnitude and sign, if it is an integer of
/// the machine.
pub open spec fn signed(magnitude: nat, negative: bool) -> Option<i64> {
    if negative {
        if magnitude <= LIMIT {
            Some((-(magnitude as int)) as i64)
        } else {
            None
        }
    } else {
        if magnitude < LIMIT {
            Some(magnitude as i64)
        } else {
            None
        }
    }
}

/// The integer whose magnitude the bytes stand for, most significant byte
/// first, and which is negative if `negative` says so. `None` where that is
/// no integer of the machine.
pub fn to_integer(bytes: &Vec<u8>, negative: bool) -> (result: Option<i64>)
    ensures
        result == signed(big_endian(bytes@), negative),
{
    let magnitude = match small_number(bytes) {
        Some(magnitude) => magnitude,
        None => {
            return None;
        },
    };
    if negative {
        if magnitude == LIMIT {
            Some(i64::MIN)
        } else {
            Some(-(magnitude as i64))
        }
    } else {
        if magnitude < LIMIT {
            Some(magnitude as i64)
        } else {
            None
        }
    }
}

} // verus!
