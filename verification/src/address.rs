//! Hardware addresses of peripherals, and the ways they are written down.

use vstd::prelude::*;

verus! {

/// Hardware address of a peripheral: the 48-bit address as a number, first
/// octet most significant. It is the key under which a device is known.
#[derive(Debug, Clone, Copy, PartialEq, Eq, Hash, Structural)]
pub struct Address {
    pub value: u64,
}

/// The value of a hexadecimal digit, if the character is one.
pub open spec fn hex_value(digit: char) -> Option<int> {
    if '0' <= digit <= '9' {
        Some(digit as int - '0' as int)
    } else if 'a' <= digit <= 'f' {
        Some(digit as int - 'a' as int + 10)
    } else if 'A' <= digit <= 'F' {
        Some(digit as int - 'A' as int + 10)
    } else {
        None
    }
}

/// The octet that the two characters at `at` spell in hexadecimal, if they
/// spell one.
pub open spec fn octet_in(text: Seq<char>, at: int) -> Option<int> {
    match (hex_value(text[at]), hex_value(text[at + 1])) {
        (Some(high), Some(low)) => Some(16 * high + low),
        _ => None,
    }
}

/// The address that a text spells, if it spells one: six octets of two
/// hexadecimal digits each, first octet first, with `separator` between one
/// octet and the next, and nothing else.
#[verifier::opaque]
pub open spec fn address_in(text: Seq<char>, separator: char) -> Option<Address> {
    if text.len() == 17 && text[2] == separator && text[5] == separator && text[8] == separator
        && text[11] == separator && text[14] == separator {
        match (
            octet_in(text, 0),
            octet_in(text, 3),
            octet_in(text, 6),
            octet_in(text, 9),
            octet_in(text, 12),
            octet_in(text, 15),
        ) {
            (Some(a), Some(b), Some(c), Some(d), Some(e), Some(f)) => Some(
                address_of_octets(seq![a as u8, b as u8, c as u8, d as u8, e as u8, f as u8]),
            ),
            _ => None,
        }
    } else {
        None
    }
}

/// The address of the device that an object path names, if it names one:
/// the last part of the path of a device is `dev_`, followed by the
/// device's address with `_` between the octets.
pub open spec fn address_of_path(path: Seq<char>) -> Option<Address> {
    let n = path.len() as int;
    if n >= 22 && path[n - 22] == '/' && path[n - 21] == 'd' && path[n - 20] == 'e' && path[n
        - 19] == 'v' && path[n - 18] == '_' {
        address_in(path.subrange(n - 17, n), '_')
    } else {
        None
    }
}

proof fn octets_are_small(text: Seq<char>, at: int)
    ensures
        octet_in(text, at) matches Some(octet) ==> 0 <= octet < 256,
{
}

/// An address that a text spells is a number of 48 bits.
pub proof fn spelled_addresses_have_six_octets(text: Seq<char>, separator: char)
    ensures
        address_in(text, separator) matches Some(address) ==> address.value < 0x1_0000_0000_0000,
{
    reveal(address_in);
    octets_are_small(text, 0);
    octets_are_small(text, 3);
    octets_are_small(text, 6);
    octets_are_small(text, 9);
    octets_are_small(text, 12);
    octets_are_small(text, 15);
}

fn hex_digit(digit: char) -> (value: Option<u8>)
    ensures
        match value {
            Some(value) => hex_value(digit) == Some(value as int) && value < 16,
            None => hex_value(digit) is None,
        },
{
    if digit >= '0' && digit <= '9' {
        Some((digit as u32 - '0' as u32) as u8)
    } else if digit >= 'a' && digit <= 'f' {
        Some((digit as u32 - 'a' as u32 + 10) as u8)
    } else if digit >= 'A' && digit <= 'F' {
        Some((digit as u32 - 'A' as u32 + 10) as u8)
    } else {
        None
    }
}

fn octet_at(text: &str, len: usize, at: usize) -> (octet: Option<u8>)
    requires
        len == text@.len(),
        at + 1 < len,
    ensures
        match octet {
            Some(octet) => octet_in(text@, at as int) == Some(octet as int),
            None => octet_in(text@, at as int) is None,
        },
{
    let high = match hex_digit(text.get_char(at)) {
        Some(high) => high,
        None => {
            return None;
        },
    };
    let low = match hex_digit(text.get_char(at + 1)) {
        Some(low) => low,
        None => {
            return None;
        },
    };
    Some(16 * high + low)
}

fn address_at(text: &str, len: usize, start: usize, separator: char) -> (address: Option<
    Address,
>)
    requires
        len == text@.len(),
        start + 17 <= len,
    ensures
        address == address_in(text@.subrange(start as int, start + 17), separator),
{
    let ghost part = text@.subrange(start as int, start + 17);
    reveal(address_in);
    assert(forall|i: int| 0 <= i < 17 ==> part[i] == text@[start + i]);
    assert(forall|i: int| 0 <= i < 16 ==> octet_in(part, i) == octet_in(text@, start + i));
    if text.get_char(start + 2) != separator || text.get_char(start + 5) != separator
        || text.get_char(start + 8) != separator || text.get_char(start + 11) != separator
        || text.get_char(start + 14) != separator {
        return None;
    }
    let a = match octet_at(text, len, start) {
        Some(octet) => octet,
        None => {
            return None;
        },
    };
    let b = match octet_at(text, len, start + 3) {
        Some(octet) => octet,
        None => {
            return None;
        },
    };
    let c = match octet_at(text, len, start + 6) {
        Some(octet) => octet,
        None => {
            return None;
        },
    };
    let d = match octet_at(text, len, start + 9) {
        Some(octet) => octet,
        None => {
            return None;
        },
    };
    let e = match octet_at(text, len, start + 12) {
        Some(octet) => octet,
        None => {
            return None;
        },
    };
    let f = match octet_at(text, len, start + 15) {
        Some(octet) => octet,
        None => {
            return None;
        },
    };
    proof {
        reveal(address_in);
        octets_are_small(part, 0);
        octets_are_small(part, 3);
        octets_are_small(part, 6);
        octets_are_small(part, 9);
        octets_are_small(part, 12);
        octets_are_small(part, 15);
    }
    let mut value: u64 = a as u64;
    value = value * 256 + b as u64;
    value = value * 256 + c as u64;
    value = value * 256 + d as u64;
    value = value * 256 + e as u64;
    value = value * 256 + f as u64;
    Some(Address { value })
}

/// The address made of six octets, first octet first.
pub open spec fn address_of_octets(octets: Seq<u8>) -> Address {
    Address {
        value: (((((octets[0] as int * 256 + octets[1] as int) * 256 + octets[2] as int) * 256
            + octets[3] as int) * 256 + octets[4] as int) * 256 + octets[5] as int) as u64,
    }
}

/// The six low octets of an address, first octet first.
pub open spec fn octets_of(address: Address) -> Seq<u8> {
    seq![
        ((address.value as int / 0x100_0000_0000) % 256) as u8,
        ((address.value as int / 0x1_0000_0000) % 256) as u8,
        ((address.value as int / 0x100_0000) % 256) as u8,
        ((address.value as int / 0x1_0000) % 256) as u8,
        ((address.value as int / 0x100) % 256) as u8,
        (address.value as int % 256) as u8,
    ]
}

/// Octets and address stand for each other: the address made of six octets
/// has those octets, and an address of 48 bits is the one made of its
/// octets.
pub proof fn octets_spell_the_address(octets: Seq<u8>, address: Address)
    requires
        octets.len() == 6,
    ensures
        octets_of(address_of_octets(octets)) == octets,
        address_of_octets(octets).value < 0x1_0000_0000_0000,
        address.value < 0x1_0000_0000_0000 ==> address_of_octets(octets_of(address)) == address,
{
    assert(octets_of(address_of_octets(octets)) =~= octets);
}

impl Address {
    pub fn new(value: u64) -> (address: Self)
        ensures
            address.value == value,
    {
        Address { value }
    }

    /// The address made of six octets, first octet first.
    pub fn from_octets(octets: [u8; 6]) -> (address: Self)
        ensures
            address == address_of_octets(octets@),
    {
        let mut value: u64 = octets[0] as u64;
        value = value * 256 + octets[1] as u64;
        value = value * 256 + octets[2] as u64;
        value = value * 256 + octets[3] as u64;
        value = value * 256 + octets[4] as u64;
        value = value * 256 + octets[5] as u64;
        Address { value }
    }

    /// The six low octets of the address, first octet first.
    pub fn octets(&self) -> (octets: [u8; 6])
        ensures
            octets@ == octets_of(*self),
    {
        let octets = [
            ((self.value / 0x100_0000_0000) % 256) as u8,
            ((self.value / 0x1_0000_0000) % 256) as u8,
            ((self.value / 0x100_0000) % 256) as u8,
            ((self.value / 0x1_0000) % 256) as u8,
            ((self.value / 0x100) % 256) as u8,
            (self.value % 256) as u8,
        ];
        assert(octets@ =~= octets_of(*self));
        octets
    }

    /// The address that a text spells with `:` between the octets, as in
    /// `00:11:22:33:44:55`.
    pub fn from_text(text: &str) -> (address: Option<Self>)
        ensures
            address == address_in(text@, ':'),
    {
        let len = text.unicode_len();
        proof {
            reveal(address_in);
        }
        if len != 17 {
            return None;
        }
        assert(text@.subrange(0, 17) =~= text@);
        address_at(text, len, 0, ':')
    }

    /// The address of the device that an object path names, as in
    /// `/org/bluez/hci0/dev_00_11_22_33_44_55`.
    pub fn from_object_path(path: &str) -> (address: Option<Self>)
        ensures
            address == address_of_path(path@),
    {
        let n = path.unicode_len();
        if n < 22 {
            return None;
        }
        if path.get_char(n - 22) != '/' || path.get_char(n - 21) != 'd' || path.get_char(n - 20)
            != 'e' || path.get_char(n - 19) != 'v' || path.get_char(n - 18) != '_' {
            return None;
        }
        address_at(path, n, n - 17, '_')
    }
}

} // verus!
