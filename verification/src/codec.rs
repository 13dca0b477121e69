//! Decoding the randomness service's response payload.
//!
//! The service returns its draw as the little-endian bytes of one 64-bit
//! value; the payload is exactly those eight bytes.

use vstd::prelude::*;

use crate::errors::RouletteErrors;

verus! {

/// A draw received from the randomness service.
#[derive(Clone, Copy, PartialEq, Eq, Structural, Debug)]
pub struct RandomNumber {
    pub random_number: u64,
}

/// The value eight little-endian bytes encode: byte 0 is least
/// significant.
pub open spec fn le_bytes_to_u64(b: Seq<u8>) -> int
    recommends
        b.len() == 8,
{
    b[0] + 0x100 * b[1] + 0x1_0000 * b[2] + 0x100_0000 * b[3] + 0x1_0000_0000 * b[4]
        + 0x100_0000_0000 * b[5] + 0x1_0000_0000_0000 * b[6] + 0x100_0000_0000_0000 * b[7]
}

/// Decodes a randomness payload. Exactly the eight-byte payloads decode;
/// anything else is a malformed response.
pub fn decode_random_number(payload: &Vec<u8>) -> (r: Result<RandomNumber, RouletteErrors>)
    ensures
        payload@.len() == 8 <==> r is Ok,
        payload@.len() != 8 ==> r == Err::<RandomNumber, RouletteErrors>(
            RouletteErrors::FailedToGetRandomNumber,
        ),
        r matches Ok(n) ==> n.random_number == le_bytes_to_u64(payload@),
{
    if payload.len() != 8 {
        return Err(RouletteErrors::FailedToGetRandomNumber);
    }
    let mut value: u64 = payload[7] as u64;
    value = value * 0x100 + (payload[6] as u64);
    value = value * 0x100 + (payload[5] as u64);
    value = value * 0x100 + (payload[4] as u64);
    value = value * 0x100 + (payload[3] as u64);
    value = value * 0x100 + (payload[2] as u64);
    value = value * 0x100 + (payload[1] as u64);
    value = value * 0x100 + (payload[0] as u64);
    Ok(RandomNumber { random_number: value })
}

} // verus!
