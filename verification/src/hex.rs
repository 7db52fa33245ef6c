//! Bytes written out as upper-case hexadecimal text, two digits a byte.

use vstd::prelude::*;
use vstd::string::*;

verus! {

/// The digit for a value below sixteen.
pub open spec fn hex_digit(nibble: u8) -> char {
    if nibble < 10 {
        ((nibble + 48) as u8) as char
    } else {
        ((nibble + 55) as u8) as char
    }
}

/// The text for a run of bytes: for each byte its upper digit, then its
/// lower digit.
pub open spec fn hex_text(bytes: Seq<u8>) -> Seq<char> {
    Seq::new(
        2 * bytes.len(),
        |i: int|
            if i % 2 == 0 {
                hex_digit(bytes[i / 2] / 16)
            } else {
                hex_digit(bytes[i / 2] % 16)
            },
    )
}

/// A run of bytes that is to be shown in hexadecimal.
pub struct HexSlice<'a>(&'a [u8]);

impl<'a> HexSlice<'a> {
    /// The bytes that are shown.
    pub closed spec fn bytes(&self) -> Seq<u8> {
        self.0@
    }

    /// Wraps `data` for showing.
    pub fn new(data: &'a [u8]) -> (hex: HexSlice<'a>)
        ensures
            hex.bytes() == data@,
    {
        HexSlice(data)
    }

    /// The text: two upper-case digits for each byte, in order.
    pub fn to_hex(&self) -> (text: String)
        ensures
            text@ == hex_text(self.bytes()),
    {
        let digits: &str = "0123456789ABCDEF";
        proof {
            reveal_strlit("0123456789ABCDEF");
        }
        let mut text = String::new();
        let mut i: usize = 0;
        while i < self.0.len()
            invariant
                0 <= i <= self.0@.len(),
                digits.is_ascii(),
                digits@.len() == 16,
                forall|n: u8| n < 16 ==> digits@[n as int] == #[trigger] hex_digit(n),
                text@ == hex_text(self.0@.subrange(0, i as int)),
            decreases self.0@.len() - i,
        {
            let byte: u8 = self.0[i];
            let upper: usize = (byte / 16) as usize;
            let lower: usize = (byte % 16) as usize;
            text.append(digits.substring_ascii(upper, upper + 1));
            text.append(digits.substring_ascii(lower, lower + 1));
            i = i + 1;
        }
        text
    }
}

} // verus!
