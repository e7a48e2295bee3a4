//! Translation of firmware MAC addresses to Ethernet addresses.

use vstd::prelude::*;

verus! {

/// The Ethernet address held in a hardware address: its first six bytes.
pub open spec fn ethernet_octets(hw: Seq<u8>) -> Seq<u8> {
    hw.subrange(0, 6)
}

/// Translates a firmware MAC address, 32 bytes of which only the first six
/// are significant, into the six bytes of an Ethernet address.
pub fn u2s_mac_address(hw: &[u8; 32]) -> (r: [u8; 6])
    ensures
        r@ == ethernet_octets(hw@),
{
    let r = [hw[0], hw[1], hw[2], hw[3], hw[4], hw[5]];
    assert(r@ =~= ethernet_octets(hw@));
    r
}

/// Translation keeps the six significant bytes and nothing else: two hardware
/// addresses that agree on their first six bytes translate to the same
/// Ethernet address whatever their padding, and an Ethernet address padded
/// out to a hardware address in any way translates back to itself.
pub proof fn lemma_translation_lossless(hw: Seq<u8>, other: Seq<u8>, pad: Seq<u8>)
    requires
        hw.len() == 32,
        other.len() == 32,
        pad.len() == 26,
        other.subrange(0, 6) == hw.subrange(0, 6),
    ensures
        ethernet_octets(hw).len() == 6,
        forall|i: int| 0 <= i < 6 ==> #[trigger] ethernet_octets(hw)[i] == hw[i],
        ethernet_octets(other) == ethernet_octets(hw),
        ethernet_octets(ethernet_octets(hw) + pad) == ethernet_octets(hw),
{
    assert(ethernet_octets(ethernet_octets(hw) + pad) =~= ethernet_octets(hw));
}

} // verus!
