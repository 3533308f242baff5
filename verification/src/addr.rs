//! Device address derivation.
//!
//! The peripheral's link-layer address is derived once at startup from a
//! configured string of six colon-separated two-digit hexadecimal octets
//! (for example `ef:cd:ab:89:67:45`). A malformed configuration is a fatal
//! startup condition: parsing rejects it before advertising ever begins.

use vstd::prelude::*;

verus! {

/// Why an address string was rejected.
#[derive(Clone, Copy, Debug, PartialEq, Eq, Structural)]
pub enum AddressError {
    /// The string does not have the length of six `:`-separated octet pairs.
    WrongLength,
    /// The string has the right length but a separator is misplaced or a
    /// digit is not hexadecimal.
    InvalidFormat,
}

/// A device address: exactly six octets, as parsed from the configuration
/// string. The configured string writes the octets in the order the link
/// layer carries them, least significant first, so the address reads
/// byte-reversed relative to the string when written conventionally; see
/// [`DeviceAddress::reversed_octets`]. The address is used as a locally
/// administered ("random") address, never as a public one.
#[derive(Debug)]
pub struct DeviceAddress {
    octets: Vec<u8>,
}

/// True for the ASCII code of a hexadecimal digit (`0-9`, `A-F`, `a-f`).
pub open spec fn is_hex_digit(b: u8) -> bool {
    (48 <= b <= 57) || (65 <= b <= 70) || (97 <= b <= 102)
}

/// Numeric value of a hexadecimal digit's ASCII code.
pub open spec fn hex_digit_value(b: u8) -> u8
    recommends
        is_hex_digit(b),
{
    if 48 <= b <= 57 {
        (b - 48) as u8
    } else if 65 <= b <= 70 {
        (b - 55) as u8
    } else {
        (b - 87) as u8
    }
}

/// A well-formed address string: 17 bytes, with `:` at positions 2, 5, 8,
/// 11, 14 and hexadecimal digits everywhere else.
pub open spec fn well_formed_address(s: Seq<u8>) -> bool {
    &&& s.len() == 17
    &&& forall|i: int|
        0 <= i < 17 ==> (if i % 3 == 2 {
            s[i] == 58
        } else {
            is_hex_digit(s[i])
        })
}

/// The value of the `j`-th octet (0-based, in string order) of a
/// well-formed address string.
pub open spec fn spec_octet_at(s: Seq<u8>, j: int) -> u8
    recommends
        well_formed_address(s),
        0 <= j < 6,
{
    (hex_digit_value(s[3 * j]) * 16 + hex_digit_value(s[3 * j + 1])) as u8
}

impl DeviceAddress {
    /// The parsed octets, in the order they appear in the configured string.
    pub closed spec fn view(&self) -> Seq<u8> {
        self.octets@
    }

    /// A device address always holds exactly six octets.
    pub closed spec fn wf(&self) -> bool {
        self.octets@.len() == 6
    }

    /// Parse a configured address string. Returns the address exactly when
    /// the string is well formed; a string of the wrong length and a string
    /// with misplaced separators or non-hexadecimal digits are told apart.
    pub fn parse(s: &[u8]) -> (r: Result<DeviceAddress, AddressError>)
        ensures
            r is Ok <==> well_formed_address(s@),
            r matches Ok(a) ==> a.wf() && forall|j: int| 0 <= j < 6 ==> a@[j] == spec_octet_at(s@, j),
            r matches Err(e) ==> (e is WrongLength <==> s@.len() != 17),
    {
        if s.len() != 17 {
            return Err(AddressError::WrongLength);
        }
        let mut octets: Vec<u8> = Vec::new();
        let mut j: usize = 0;
        while j < 6
            invariant
                j <= 6,
                s@.len() == 17,
                octets@.len() == j,
                forall|k: int| 0 <= k < j ==> octets@[k] == spec_octet_at(s@, k),
                forall|i: int|
                    0 <= i < 3 * j && i < 17 ==> (if i % 3 == 2 {
                        s@[i] == 58
                    } else {
                        is_hex_digit(s@[i])
                    }),
            decreases 6 - j,
        {
            let hi = match hex_value(s[3 * j]) {
                Some(v) => v,
                None => {
                    return Err(AddressError::InvalidFormat);
                },
            };
            let lo = match hex_value(s[3 * j + 1]) {
                Some(v) => v,
                None => {
                    return Err(AddressError::InvalidFormat);
                },
            };
            if j < 5 && s[3 * j + 2] != 58 {
                return Err(AddressError::InvalidFormat);
            }
            octets.push(hi * 16 + lo);
            j = j + 1;
        }
        Ok(DeviceAddress { octets })
    }

    /// The six octets in the order the configuration wrote them.
    pub fn octets(&self) -> (r: Vec<u8>)
        requires
            self.wf(),
        ensures
            r@ == self@,
    {
        let mut r: Vec<u8> = Vec::new();
        let mut i: usize = 0;
        while i < self.octets.len()
            invariant
                i <= self.octets@.len(),
                r@ == self.octets@.take(i as int),
            decreases self.octets@.len() - i,
        {
            r.push(self.octets[i]);
            i = i + 1;
        }
        proof {
            assert(self.octets@.take(self.octets@.len() as int) =~= self.octets@);
        }
        r
    }

    /// The six octets byte-reversed relative to the configured string: the
    /// address as it is conventionally displayed, most significant octet
    /// first.
    pub fn reversed_octets(&self) -> (r: Vec<u8>)
        requires
            self.wf(),
        ensures
            r@.len() == 6,
            forall|j: int| 0 <= j < 6 ==> r@[j] == self@[5 - j],
    {
        let mut r: Vec<u8> = Vec::new();
        let mut i: usize = 0;
        while i < 6
            invariant
                i <= 6,
                self.wf(),
                r@.len() == i,
                forall|j: int| 0 <= j < i ==> r@[j] == self@[5 - j],
            decreases 6 - i,
        {
            r.push(self.octets[5 - i]);
            i = i + 1;
        }
        r
    }
}

/// Numeric value of one ASCII byte read as a hexadecimal digit, or `None`
/// when the byte is no such digit.
fn hex_value(b: u8) -> (r: Option<u8>)
    ensures
        r is Some <==> is_hex_digit(b),
        r matches Some(v) ==> v == hex_digit_value(b) && v < 16,
{
    if 48 <= b && b <= 57 {
        Some(b - 48)
    } else if 65 <= b && b <= 70 {
        Some(b - 55)
    } else if 97 <= b && b <= 102 {
        Some(b - 87)
    } else {
        None
    }
}

} // verus!
