//! Twenty-byte contract and account addresses.

use std::str::FromStr;
use vstd::prelude::*;

verus! {

/// A twenty-byte address, most significant byte first.
#[derive(Clone, Copy, Debug)]
pub struct Address {
    pub bytes: [u8; 20],
}

impl View for Address {
    type V = Seq<u8>;

    open spec fn view(&self) -> Seq<u8> {
        self.bytes@
    }
}

/// Numeric value of one hexadecimal digit, in either case.
pub open spec fn hex_digit_value(c: char) -> Option<int> {
    if '0' <= c && c <= '9' {
        Some(c as int - '0' as int)
    } else if 'a' <= c && c <= 'f' {
        Some(c as int - 'a' as int + 10)
    } else if 'A' <= c && c <= 'F' {
        Some(c as int - 'A' as int + 10)
    } else {
        None
    }
}

/// The text without a leading `0x` or `0X`.
pub open spec fn strip_hex_prefix(text: Seq<char>) -> Seq<char> {
    if text.len() >= 2 && text[0] == '0' && (text[1] == 'x' || text[1] == 'X') {
        text.subrange(2, text.len() as int)
    } else {
        text
    }
}

/// The address that a hexadecimal text denotes: an optional `0x` prefix followed by exactly
/// forty hexadecimal digits, two per byte, high digit first. Any other text denotes none.
pub open spec fn address_from_hex(text: Seq<char>) -> Option<Seq<u8>> {
    let digits = strip_hex_prefix(text);
    if digits.len() == 40 && (forall|i: int| 0 <= i < 40 ==> hex_digit_value(#[trigger] digits[i]) is Some) {
        Some(
            Seq::new(
                20,
                |i: int|
                    (16 * hex_digit_value(digits[2 * i])->Some_0 + hex_digit_value(
                        digits[2 * i + 1],
                    )->Some_0) as u8,
            ),
        )
    } else {
        None
    }
}

/// Calls `alloy_primitives::Address::from_str` and hands back the bytes of the address it
/// parsed. That function strips an optional `0x`/`0X` prefix, demands exactly forty
/// hexadecimal digits of either case and decodes them pairwise; every other text is an error,
/// which comes back as `None`.
#[verifier::external_body]
fn decode_address_hex(text: &str) -> (decoded: Option<[u8; 20]>)
    ensures
        match decoded {
            Some(bytes) => address_from_hex(text@) == Some(bytes@),
            None => address_from_hex(text@) is None,
        },
{
    match alloy_primitives::Address::from_str(text) {
        Ok(address) => Some(address.into_array()),
        Err(_) => None,
    }
}

impl Address {
    /// The address whose bytes are all zero.
    pub fn zero() -> (address: Address)
        ensures
            address@ == Seq::new(20, |i: int| 0u8),
    {
        let address = Address { bytes: [0u8; 20] };
        address
    }

    /// Wraps twenty bytes as an address.
    pub fn new(bytes: [u8; 20]) -> (address: Address)
        ensures
            address@ == bytes@,
    {
        Address { bytes }
    }

    /// Parses a hexadecimal address, with or without a `0x` prefix.
    pub fn from_hex(text: &str) -> (parsed: Option<Address>)
        ensures
            match parsed {
                Some(address) => address_from_hex(text@) == Some(address@),
                None => address_from_hex(text@) is None,
            },
    {
        match decode_address_hex(text) {
            Some(bytes) => Some(Address { bytes }),
            None => None,
        }
    }

    /// The bytes of the address.
    pub fn into_array(self) -> (bytes: [u8; 20])
        ensures
            bytes@ == self@,
    {
        self.bytes
    }

    /// Whether every byte of the address is zero.
    pub fn is_zero(&self) -> (zero: bool)
        ensures
            zero == (self@ == Seq::new(20, |i: int| 0u8)),
    {
        let mut i: usize = 0;
        while i < 20
            invariant
                i <= 20,
                forall|j: int| 0 <= j < i ==> self.bytes@[j] == 0u8,
            decreases 20 - i,
        {
            if self.bytes[i] != 0 {
                return false;
            }
            i += 1;
        }
        assert(self@ =~= Seq::new(20, |k: int| 0u8));
        true
    }
}

impl PartialEq for Address {
    fn eq(&self, other: &Address) -> (equal: bool) {
        let mut i: usize = 0;
        while i < 20
            invariant
                i <= 20,
                forall|j: int| 0 <= j < i ==> self.bytes@[j] == other.bytes@[j],
            decreases 20 - i,
        {
            if self.bytes[i] != other.bytes[i] {
                return false;
            }
            i += 1;
        }
        assert(self@ =~= other@);
        true
    }
}

impl Eq for Address {

}

impl vstd::std_specs::cmp::PartialEqSpecImpl for Address {
    open spec fn obeys_eq_spec() -> bool {
        true
    }

    open spec fn eq_spec(&self, other: &Address) -> bool {
        self@ == other@
    }
}

} // verus!
