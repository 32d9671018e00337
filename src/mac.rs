//! Hardware addresses as the neighbour table and interfaces report them.

use vstd::prelude::*;
use crate::text::{chars_of, string_of, uppercase, upper_of};

verus! {

/// A hexadecimal digit of either case.
pub open spec fn is_hex_digit(c: char) -> bool {
    ||| '0' as u32 <= c as u32 && c as u32 <= '9' as u32
    ||| 'A' as u32 <= c as u32 && c as u32 <= 'F' as u32
    ||| 'a' as u32 <= c as u32 && c as u32 <= 'f' as u32
}

/// The value of a hexadecimal digit.
pub open spec fn hex_value(c: char) -> int {
    if '0' as u32 <= c as u32 && c as u32 <= '9' as u32 {
        c as u32 - '0' as u32
    } else if 'A' as u32 <= c as u32 && c as u32 <= 'F' as u32 {
        c as u32 - 'A' as u32 + 10
    } else {
        c as u32 - 'a' as u32 + 10
    }
}

/// Every dash replaced by a colon.
pub open spec fn colons_for_dashes(s: Seq<char>) -> Seq<char> {
    s.map_values(|c: char| if c == '-' { ':' } else { c })
}

/// A digit or an upper-case letter `A` to `F`.
pub open spec fn is_upper_hex_digit(c: char) -> bool {
    ||| '0' as u32 <= c as u32 && c as u32 <= '9' as u32
    ||| 'A' as u32 <= c as u32 && c as u32 <= 'F' as u32
}

/// Six two-digit upper-case hexadecimal octets separated by colons.
pub open spec fn is_mac_text(s: Seq<char>) -> bool {
    &&& s.len() == 17
    &&& forall|i: int|
        0 <= i < 17 ==> if i % 3 == 2 {
            #[trigger] s[i] == ':'
        } else {
            is_upper_hex_digit(s[i])
        }
}

/// The text a MAC address is stored as: upper-cased, dashes turned to colons.
pub open spec fn normalized_mac(s: Seq<char>) -> Seq<char> {
    colons_for_dashes(upper_of(s))
}

fn is_upper_hex_char(c: char) -> (r: bool)
    ensures
        r == is_upper_hex_digit(c),
{
    ('0' <= c && c <= '9') || ('A' <= c && c <= 'F')
}

pub(crate) fn is_hex_char(c: char) -> (r: bool)
    ensures
        r == is_hex_digit(c),
{
    ('0' <= c && c <= '9') || ('A' <= c && c <= 'F') || ('a' <= c && c <= 'f')
}

/// Why a text is not a MAC address.
#[derive(Debug, Clone, Copy, PartialEq, Eq, Structural)]
pub enum MacAddressError {
    /// The normalized text is not 17 characters long.
    InvalidLength,
    /// The text is 17 characters long but not six colon-separated hex octets.
    InvalidFormat,
}

/// A validated MAC address, kept as `XX:XX:XX:XX:XX:XX`.
#[derive(Debug, PartialEq, Eq, Hash)]
pub struct MacAddress(String);

impl Clone for MacAddress {
    fn clone(&self) -> (r: Self)
        ensures
            r@ == self@,
    {
        proof {
            use_type_invariant(self);
        }
        MacAddress(self.0.clone())
    }
}

impl View for MacAddress {
    type V = Seq<char>;

    closed spec fn view(&self) -> Seq<char> {
        self.0@
    }
}

impl MacAddress {
    #[verifier::type_invariant]
    closed spec fn inv(self) -> bool {
        is_mac_text(self.0@)
    }

    /// Validates and normalizes a MAC address. Accepts colons or dashes as
    /// separators and hex digits of either case: the text is upper-cased first,
    /// and the stored text must be upper case.
    pub fn new(mac: String) -> (r: Result<MacAddress, MacAddressError>)
        ensures
            match r {
                Ok(m) => is_mac_text(normalized_mac(mac@)) && m@ == normalized_mac(mac@),
                Err(e) => !is_mac_text(normalized_mac(mac@)) && (e == MacAddressError::InvalidLength
                    <==> normalized_mac(mac@).len() != 17),
            },
    {
        let upper = uppercase(mac.as_str());
        MacAddress::from_upper(upper.as_str())
    }

    /// Validates an address whose letters are already upper case: dashes
    /// become colons, and the result must be six colon-separated octets of
    /// digits and upper-case `A` to `F`; lower-case letters are refused.
    pub fn from_upper(upper: &str) -> (r: Result<MacAddress, MacAddressError>)
        ensures
            match r {
                Ok(m) => is_mac_text(colons_for_dashes(upper@)) && m@ == colons_for_dashes(upper@),
                Err(e) => !is_mac_text(colons_for_dashes(upper@)) && (e
                    == MacAddressError::InvalidLength <==> upper@.len() != 17),
            },
    {
        let cs = chars_of(upper);
        if cs.len() != 17 {
            return Err(MacAddressError::InvalidLength);
        }
        let ghost target = colons_for_dashes(upper@);
        let mut out: Vec<char> = Vec::new();
        let mut i: usize = 0;
        while i < 17
            invariant
                cs@ == upper@,
                cs@.len() == 17,
                target == colons_for_dashes(upper@),
                i <= 17,
                out@ == target.subrange(0, i as int),
                forall|j: int|
                    0 <= j < i ==> if j % 3 == 2 {
                        #[trigger] target[j] == ':'
                    } else {
                        is_upper_hex_digit(target[j])
                    },
            decreases 17 - i,
        {
            let c = cs[i];
            let d = if c == '-' { ':' } else { c };
            assert(d == target[i as int]);
            let ok = if i % 3 == 2 { d == ':' } else { is_upper_hex_char(d) };
            if !ok {
                return Err(MacAddressError::InvalidFormat);
            }
            out.push(d);
            i += 1;
            assert(out@ =~= target.subrange(0, i as int));
        }
        assert(out@ =~= target);
        Ok(MacAddress(string_of(&out)))
    }

    /// The address as `XX:XX:XX:XX:XX:XX`.
    pub fn as_str(&self) -> (r: &str)
        ensures
            r@ == self@,
            is_mac_text(self@),
    {
        proof {
            use_type_invariant(self);
        }
        self.0.as_str()
    }

    /// The address as an owned string.
    pub fn to_text(&self) -> (r: String)
        ensures
            r@ == self@,
    {
        self.0.clone()
    }
}

} // verus!
