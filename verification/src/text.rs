//! The words in which diagnostics speak of relocation types.

use crate::relocation::RelocationType;
use vstd::prelude::*;
use vstd::string::StringExecFns;

verus! {

/// The digit that stands for `value` in base 16, in lower case.
pub open spec fn hex_digit(value: int) -> char
    recommends
        0 <= value < 16,
{
    seq!['0', '1', '2', '3', '4', '5', '6', '7', '8', '9', 'a', 'b', 'c', 'd', 'e', 'f'][value]
}

/// `value` written in base 16 without leading zeros; zero is `0`.
pub open spec fn hex_digits(value: nat) -> Seq<char>
    decreases value,
{
    if value < 16 {
        seq![hex_digit(value as int)]
    } else {
        hex_digits(value / 16).push(hex_digit(value as int % 16))
    }
}

/// What diagnostics call the relocation type with the number `r_type`: its
/// mnemonic, or, for a number that is no relocation type, a phrase that
/// gives the number in base 16.
pub open spec fn spec_rel_type_to_string(r_type: u32) -> Seq<char> {
    match RelocationType::of_raw(r_type) {
        Some(t) => t.spec_name(),
        None => "Unknown relocation type 0x"@ + hex_digits(r_type as nat),
    }
}

fn hex_digit_str(value: u32) -> (s: &'static str)
    requires
        value < 16,
    ensures
        s@ == seq![hex_digit(value as int)],
{
    proof {
        reveal_strlit("0");
        reveal_strlit("1");
        reveal_strlit("2");
        reveal_strlit("3");
        reveal_strlit("4");
        reveal_strlit("5");
        reveal_strlit("6");
        reveal_strlit("7");
        reveal_strlit("8");
        reveal_strlit("9");
        reveal_strlit("a");
        reveal_strlit("b");
        reveal_strlit("c");
        reveal_strlit("d");
        reveal_strlit("e");
        reveal_strlit("f");
    }
    let s = match value {
        0 => "0",
        1 => "1",
        2 => "2",
        3 => "3",
        4 => "4",
        5 => "5",
        6 => "6",
        7 => "7",
        8 => "8",
        9 => "9",
        10 => "a",
        11 => "b",
        12 => "c",
        13 => "d",
        14 => "e",
        _ => "f",
    };
    assert(s@ =~= seq![hex_digit(value as int)]);
    s
}

/// Appends `value` in base 16 to `text`.
pub fn push_hex(text: &mut String, value: u32)
    ensures
        final(text)@ == old(text)@ + hex_digits(value as nat),
    decreases value,
{
    if value >= 16 {
        push_hex(text, value / 16);
    }
    text.append(hex_digit_str(value % 16));
    assert(text@ =~= old(text)@ + hex_digits(value as nat));
}

/// What diagnostics call the relocation type with the number `r_type`.
pub fn x86_64_rel_type_to_string(r_type: u32) -> (name: String)
    ensures
        name@ == spec_rel_type_to_string(r_type),
{
    match RelocationType::from_raw(r_type) {
        Some(t) => String::from_str(t.name()),
        None => {
            let mut name = String::from_str("Unknown relocation type 0x");
            push_hex(&mut name, r_type);
            name
        },
    }
}

} // verus!
