//! Lower-case hexadecimal rendering of bytes.

use vstd::prelude::*;
use vstd::string::*;

verus! {

/// The sixteen hex digits, in the order of their values.
pub open spec fn hex_digits() -> Seq<char> {
    seq!['0', '1', '2', '3', '4', '5', '6', '7', '8', '9', 'a', 'b', 'c', 'd', 'e', 'f']
}

/// The digit for `n`, which is less than 16.
pub open spec fn hex_digit(n: int) -> char {
    hex_digits()[n]
}

/// Two digits per byte, the high half first, with nothing before, between or
/// behind them.
pub open spec fn hex_string(bytes: Seq<u8>) -> Seq<char> {
    Seq::new(
        2 * bytes.len(),
        |i: int|
            if i % 2 == 0 {
                hex_digit(bytes[i / 2] as int / 16)
            } else {
                hex_digit(bytes[i / 2] as int % 16)
            },
    )
}

/// The rendering has two characters for each byte, and every one of them is
/// a digit or a lower-case letter `a` to `f`.
pub proof fn lemma_hex_string(bytes: Seq<u8>)
    ensures
        hex_string(bytes).len() == 2 * bytes.len(),
        forall|i: int|
            0 <= i < hex_string(bytes).len() ==> hex_digits().contains(
                #[trigger] hex_string(bytes)[i],
            ),
{
    assert forall|i: int| 0 <= i < hex_string(bytes).len() implies hex_digits().contains(
        #[trigger] hex_string(bytes)[i],
    ) by {
        let byte = bytes[i / 2];
        let n = if i % 2 == 0 {
            byte as int / 16
        } else {
            byte as int % 16
        };
        assert(0 <= n < 16);
        assert(hex_string(bytes)[i] == hex_digits()[n]);
    }
}

/// The digit for `n` as a string of its own.
fn hex_digit_str(n: u8) -> (digit: &'static str)
    requires
        n < 16,
    ensures
        digit@ == seq![hex_digit(n as int)],
{
    proof {
        reveal_strlit("0");
        reveal_strlit("1");
        reveal_strlit("2");
        reveal_strlit("3");
        reveal_strlit("4");
        reveal_strlit("5");
        reveal_strlit("6");
        reveal_strlit("7");
        reveal_strlit("8");
        reveal_strlit("9");
        reveal_strlit("a");
        reveal_strlit("b");
        reveal_strlit("c");
        reveal_strlit("d");
        reveal_strlit("e");
        reveal_strlit("f");
    }
    let digit = match n {
        0 => "0",
        1 => "1",
        2 => "2",
        3 => "3",
        4 => "4",
        5 => "5",
        6 => "6",
        7 => "7",
        8 => "8",
        9 => "9",
        10 => "a",
        11 => "b",
        12 => "c",
        13 => "d",
        14 => "e",
        _ => "f",
    };
    assert(digit@ =~= seq![hex_digit(n as int)]);
    digit
}

/// Renders `bytes` in lower-case hex.
pub fn to_hex(bytes: &[u8]) -> (hex: String)
    ensures
        hex@ == hex_string(bytes@),
{
    let mut hex = String::new();
    let mut index: usize = 0;
    while index < bytes.len()
        invariant
            index <= bytes.len(),
            hex@ == hex_string(bytes@.take(index as int)),
        decreases bytes.len() - index,
    {
        let byte = bytes[index];
        hex.append(hex_digit_str(byte / 16));
        hex.append(hex_digit_str(byte % 16));
        index += 1;
        assert(hex@ =~= hex_string(bytes@.take(index as int)));
    }
    assert(bytes@.take(index as int) =~= bytes@);
    hex
}

} // verus!
