use vstd::prelude::*;
use vstd::string::*;

use crate::errors::ContractError;

verus! {

/// True of the ASCII code of a hex digit, upper or lower case.
pub open spec fn is_hex_digit(b: u8) -> bool {
    (48 <= b && b <= 57) || (97 <= b && b <= 102) || (65 <= b && b <= 70)
}

/// The numeric value of a hex digit given by its ASCII code.
pub open spec fn hex_digit_value(b: u8) -> u8
    recommends
        is_hex_digit(b),
{
    if 48 <= b && b <= 57 {
        (b - 48) as u8
    } else if 97 <= b && b <= 102 {
        (b - 87) as u8
    } else {
        (b - 55) as u8
    }
}

/// The byte encoded by two hex digits, high digit first.
pub open spec fn hex_byte(hi: u8, lo: u8) -> u8
    recommends
        is_hex_digit(hi),
        is_hex_digit(lo),
{
    (hex_digit_value(hi) * 16 + hex_digit_value(lo)) as u8
}

/// True of a byte string that encodes exactly 32 bytes in hex.
pub open spec fn valid_hex_64(s: Seq<u8>) -> bool {
    s.len() == 64 && forall|j: int| 0 <= j < 64 ==> is_hex_digit(#[trigger] s[j])
}

/// The bytes encoded by a hex string, pairwise.
pub open spec fn hex_decoded(s: Seq<u8>) -> Seq<u8>
    recommends
        valid_hex_64(s),
{
    Seq::new(s.len() / 2, |j: int| hex_byte(s[2 * j], s[2 * j + 1]))
}

/// The value of one hex digit, or `None` for any other byte.
fn hex_val(b: u8) -> (r: Option<u8>)
    ensures
        r is Some <==> is_hex_digit(b),
        r matches Some(v) ==> v == hex_digit_value(b),
{
    if 48 <= b && b <= 57 {
        Some(b - 48)
    } else if 97 <= b && b <= 102 {
        Some(b - 87)
    } else if 65 <= b && b <= 70 {
        Some(b - 55)
    } else {
        None
    }
}

/// Decodes a hex string that must name exactly 32 bytes. Succeeds if and
/// only if the string is 64 hex digits; every other input is malformed.
pub fn hex_decode_32(s: &str) -> (r: Result<Vec<u8>, ContractError>)
    ensures
        r is Ok <==> valid_hex_64(s.spec_bytes()),
        r matches Ok(v) ==> v@ == hex_decoded(s.spec_bytes()) && v@.len() == 32,
        r is Err ==> r matches Err(ContractError::MalformedHex),
{
    let bs: Vec<u8> = s.as_bytes_vec();
    if bs.len() != 64 {
        return Err(ContractError::MalformedHex);
    }
    let mut out: Vec<u8> = Vec::new();
    let mut i: usize = 0;
    while i < 32
        invariant
            bs@ == s.spec_bytes(),
            bs@.len() == 64,
            i <= 32,
            out@.len() == i,
            forall|j: int| 0 <= j < 2 * i ==> is_hex_digit(#[trigger] bs@[j]),
            forall|j: int| 0 <= j < i ==> #[trigger] out@[j] == hex_byte(
                bs@[2 * j],
                bs@[2 * j + 1],
            ),
        decreases 32 - i,
    {
        let hi = match hex_val(bs[2 * i]) {
            Some(v) => v,
            None => {
                return Err(ContractError::MalformedHex);
            },
        };
        let lo = match hex_val(bs[2 * i + 1]) {
            Some(v) => v,
            None => {
                return Err(ContractError::MalformedHex);
            },
        };
        out.push(hi * 16 + lo);
        i = i + 1;
    }
    proof {
        assert(out@ =~= hex_decoded(bs@));
    }
    Ok(out)
}

} // verus!
