//! What the adapter advertises to the stack above it.

use vstd::prelude::*;

verus! {

/// The buffer capacity, in bytes, that an adapter uses unless told otherwise.
pub const DEFAULT_MAX_PACKET: usize = 1500;

/// The smaller of two integers.
pub open spec fn min_int(a: int, b: int) -> int {
    if a <= b { a } else { b }
}

/// The maximum transmission unit to advertise: the firmware's maximum packet
/// size, bounded by the `MAX_PACKET` bytes that the adapter's buffers hold.
pub fn max_transmission_unit<const MAX_PACKET: usize>(max_packet_size: u32) -> (r: usize)
    ensures
        r == min_int(max_packet_size as int, MAX_PACKET as int),
{
    let hw = max_packet_size as usize;
    if hw <= MAX_PACKET {
        hw
    } else {
        MAX_PACKET
    }
}

} // verus!
