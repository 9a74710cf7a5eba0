//! Small helpers: hexadecimal rendering of a 16-bit value and widening a
//! borrowed byte vector.

use vstd::prelude::*;
use vstd::string::StringExecFns;

verus! {

/// The lowercase hexadecimal digit for a value below 16.
pub open spec fn hex_digit_char(d: int) -> char {
    if d == 0 {
        '0'
    } else if d == 1 {
        '1'
    } else if d == 2 {
        '2'
    } else if d == 3 {
        '3'
    } else if d == 4 {
        '4'
    } else if d == 5 {
        '5'
    } else if d == 6 {
        '6'
    } else if d == 7 {
        '7'
    } else if d == 8 {
        '8'
    } else if d == 9 {
        '9'
    } else if d == 10 {
        'a'
    } else if d == 11 {
        'b'
    } else if d == 12 {
        'c'
    } else if d == 13 {
        'd'
    } else if d == 14 {
        'e'
    } else {
        'f'
    }
}

/// The rendering `hex` produces: a `0x` prefix and the value's lowercase
/// hexadecimal digits, zero-padded on the left to at least two digits.
pub open spec fn spec_hex(num: u16) -> Seq<char> {
    if num < 0x10 {
        seq!['0', 'x', '0', hex_digit_char(num as int)]
    } else if num < 0x100 {
        seq!['0', 'x', hex_digit_char(num as int / 16), hex_digit_char(num as int % 16)]
    } else if num < 0x1000 {
        seq![
            '0',
            'x',
            hex_digit_char(num as int / 256),
            hex_digit_char((num as int / 16) % 16),
            hex_digit_char(num as int % 16),
        ]
    } else {
        seq![
            '0',
            'x',
            hex_digit_char(num as int / 4096),
            hex_digit_char((num as int / 256) % 16),
            hex_digit_char((num as int / 16) % 16),
            hex_digit_char(num as int % 16),
        ]
    }
}

/// The one-character string for a hexadecimal digit.
fn hex_digit_str(d: u8) -> (digit: &'static str)
    requires
        d < 16,
    ensures
        digit@ == seq![hex_digit_char(d as int)],
{
    proof {
        reveal_strlit("0");
        reveal_strlit("1");
        reveal_strlit("2");
        reveal_strlit("3");
        reveal_strlit("4");
        reveal_strlit("5");
        reveal_strlit("6");
        reveal_strlit("7");
        reveal_strlit("8");
        reveal_strlit("9");
        reveal_strlit("a");
        reveal_strlit("b");
        reveal_strlit("c");
        reveal_strlit("d");
        reveal_strlit("e");
        reveal_strlit("f");
    }
    match d {
        0 => "0",
        1 => "1",
        2 => "2",
        3 => "3",
        4 => "4",
        5 => "5",
        6 => "6",
        7 => "7",
        8 => "8",
        9 => "9",
        10 => "a",
        11 => "b",
        12 => "c",
        13 => "d",
        14 => "e",
        _ => "f",
    }
}

/// Renders a 16-bit value in lowercase hexadecimal with a `0x` prefix,
/// zero-padded to at least two digits.
pub fn hex(num: u16) -> (rendered: String)
    ensures
        rendered@ == spec_hex(num),
{
    proof {
        reveal_strlit("0x");
    }
    let mut rendered = String::from_str("0x");
    if num < 0x10 {
        rendered.append(hex_digit_str(0));
        rendered.append(hex_digit_str((num % 16) as u8));
    } else if num < 0x100 {
        rendered.append(hex_digit_str((num / 16) as u8));
        rendered.append(hex_digit_str((num % 16) as u8));
    } else if num < 0x1000 {
        rendered.append(hex_digit_str((num / 256) as u8));
        rendered.append(hex_digit_str(((num / 16) % 16) as u8));
        rendered.append(hex_digit_str((num % 16) as u8));
    } else {
        rendered.append(hex_digit_str((num / 4096) as u8));
        rendered.append(hex_digit_str(((num / 256) % 16) as u8));
        rendered.append(hex_digit_str(((num / 16) % 16) as u8));
        rendered.append(hex_digit_str((num % 16) as u8));
    }
    proof {
        assert(rendered@ =~= spec_hex(num));
    }
    rendered
}

/// Widens each borrowed byte to a 16-bit value, keeping the order.
pub fn vec_u16_from_u8_vec(nums: Vec<&u8>) -> (to_return: Vec<u16>)
    ensures
        to_return@.len() == nums@.len(),
        forall|i: int| 0 <= i < nums@.len() ==> to_return@[i] == *nums@[i] as u16,
{
    let mut to_return: Vec<u16> = Vec::new();
    let mut i: usize = 0;
    while i < nums.len()
        invariant
            i <= nums@.len(),
            to_return@.len() == i,
            forall|j: int| 0 <= j < i ==> to_return@[j] == *nums@[j] as u16,
        decreases nums@.len() - i,
    {
        let num: &u8 = nums[i];
        to_return.push(*num as u16);
        i += 1;
    }
    to_return
}

} // verus!
