//! Base types shared by the profile shims: device addresses, UUIDs and the
//! status code returned by the native interface.

use vstd::prelude::*;

verus! {

/// A Bluetooth device address: six bytes.
#[derive(Clone, Copy, Debug)]
pub struct RawAddress {
    pub val: [u8; 6],
}

/// True when `c` is an ASCII hexadecimal digit.
pub open spec fn is_hex_digit(c: char) -> bool {
    ('0' <= c && c <= '9') || ('a' <= c && c <= 'f') || ('A' <= c && c <= 'F')
}

/// Numeric value of the hexadecimal digit `c`.
pub open spec fn hex_value(c: char) -> u8 {
    if '0' <= c && c <= '9' {
        (c as u8 - 48) as u8
    } else if 'a' <= c && c <= 'f' {
        (c as u8 - 87) as u8
    } else {
        (c as u8 - 55) as u8
    }
}

/// True when `s` spells a device address: six two-digit hexadecimal groups
/// separated by colons, as in `00:11:22:aa:bb:cc`.
pub open spec fn is_valid_address_string(s: Seq<char>) -> bool {
    &&& s.len() == 17
    &&& forall|i: int|
        0 <= i < 17 ==> (if i % 3 == 2 {
            s[i] == ':'
        } else {
            is_hex_digit(s[i])
        })
}

/// The six bytes spelled by a valid address string.
pub open spec fn spec_parse_address(s: Seq<char>) -> Seq<u8> {
    Seq::new(6, |i: int| (hex_value(s[3 * i]) * 16 + hex_value(s[3 * i + 1])) as u8)
}

/// Numeric value of one hexadecimal digit character, or `None` when `c` is
/// no such digit.
fn hex_digit_value(c: char) -> (r: Option<u8>)
    ensures
        r is Some <==> is_hex_digit(c),
        r matches Some(v) ==> v == hex_value(c) && v < 16,
{
    let n = c as u32;
    if n >= 48 && n <= 57 {
        Some((n - 48) as u8)
    } else if n >= 97 && n <= 102 {
        Some((n - 87) as u8)
    } else if n >= 65 && n <= 70 {
        Some((n - 55) as u8)
    } else {
        None
    }
}

impl RawAddress {
    /// Parses the textual form of a device address.
    ///
    /// Returns the parsed address exactly when `addr` spells one; `None`
    /// on any other input.
    pub fn from_string(addr: &str) -> (r: Option<RawAddress>)
        ensures
            r is Some <==> is_valid_address_string(addr@),
            r matches Some(a) ==> a.val@ == spec_parse_address(addr@),
    {
        if addr.unicode_len() != 17 {
            return None;
        }
        let mut val: [u8; 6] = [0; 6];
        let mut i: usize = 0;
        while i < 6
            invariant
                addr@.len() == 17,
                0 <= i <= 6,
                forall|j: int|
                    0 <= j < 3 * i && j < 17 ==> (if j % 3 == 2 {
                        addr@[j] == ':'
                    } else {
                        is_hex_digit(addr@[j])
                    }),
                forall|j: int|
                    0 <= j < i ==> val@[j] == (hex_value(addr@[3 * j]) * 16 + hex_value(
                        addr@[3 * j + 1],
                    )) as u8,
            decreases 6 - i,
        {
            let hi = match hex_digit_value(addr.get_char(3 * i)) {
                Some(v) => v,
                None => {
                    return None;
                },
            };
            let lo = match hex_digit_value(addr.get_char(3 * i + 1)) {
                Some(v) => v,
                None => {
                    return None;
                },
            };
            if i < 5 && addr.get_char(3 * i + 2) != ':' {
                return None;
            }
            val[i] = hi * 16 + lo;
            i = i + 1;
        }
        proof {
            assert(val@ =~= spec_parse_address(addr@));
        }
        Some(RawAddress { val })
    }
}

/// Status code returned by the native interface for each request.
#[derive(Clone, Copy, Debug, PartialEq, Eq, Structural)]
pub enum BtStatus {
    Success,
    Fail,
    NotReady,
    NoMemory,
    Busy,
    Done,
    Unsupported,
    InvalidParam,
    Unhandled,
    AuthFailure,
    RemoteDeviceDown,
    AuthRejected,
    Unknown,
}

impl BtStatus {
    /// Status that a native return code stands for; codes outside the
    /// documented range map to `Unknown`.
    pub fn from_i32(item: i32) -> (r: BtStatus)
        ensures
            r == spec_status_from_i32(item),
    {
        match item {
            0 => BtStatus::Success,
            1 => BtStatus::Fail,
            2 => BtStatus::NotReady,
            3 => BtStatus::NoMemory,
            4 => BtStatus::Busy,
            5 => BtStatus::Done,
            6 => BtStatus::Unsupported,
            7 => BtStatus::InvalidParam,
            8 => BtStatus::Unhandled,
            9 => BtStatus::AuthFailure,
            10 => BtStatus::RemoteDeviceDown,
            11 => BtStatus::AuthRejected,
            _ => BtStatus::Unknown,
        }
    }
}

/// Status that a native return code stands for.
pub open spec fn spec_status_from_i32(item: i32) -> BtStatus {
    if item == 0 {
        BtStatus::Success
    } else if item == 1 {
        BtStatus::Fail
    } else if item == 2 {
        BtStatus::NotReady
    } else if item == 3 {
        BtStatus::NoMemory
    } else if item == 4 {
        BtStatus::Busy
    } else if item == 5 {
        BtStatus::Done
    } else if item == 6 {
        BtStatus::Unsupported
    } else if item == 7 {
        BtStatus::InvalidParam
    } else if item == 8 {
        BtStatus::Unhandled
    } else if item == 9 {
        BtStatus::AuthFailure
    } else if item == 10 {
        BtStatus::RemoteDeviceDown
    } else if item == 11 {
        BtStatus::AuthRejected
    } else {
        BtStatus::Unknown
    }
}

/// A 128-bit UUID identifying a service, characteristic or descriptor.
#[derive(Clone, Copy, Debug)]
pub struct Uuid {
    pub uu: [u8; 16],
}

} // verus!
