//! Transmit side: a zeroed staging buffer, filled by the caller and then
//! handed on for sending.

use vstd::prelude::*;

verus! {

/// `n` zero bytes.
pub open spec fn zeroed(n: nat) -> Seq<u8> {
    Seq::new(n, |i: int| 0u8)
}

/// Stages one outgoing frame of `len` bytes in a buffer of `MAX_PACKET`
/// bytes: `fill` gets the `len` bytes, all zero, to write the frame into;
/// then `send` gets the same `len` bytes as `fill` left them. What `fill`
/// returns is returned, whatever `send` does.
pub fn transmit_frame<const MAX_PACKET: usize, R, F, S>(len: usize, fill: F, send: S) -> (r: R)
    where
        F: FnOnce(&mut [u8]) -> R,
        S: FnOnce(&mut [u8]),
    requires
        len <= MAX_PACKET,
        forall|b: &mut [u8]| (*b)@ == zeroed(len as nat) ==> fill.requires((b,)),
        forall|b: &mut [u8]| send.requires((b,)),
    ensures
        exists|b: &mut [u8], c: &mut [u8]|
            {
                &&& (*b)@ == zeroed(len as nat)
                &&& fill.ensures((b,), r)
                &&& (*c)@ == final(b)@
                &&& send.ensures((c,), ())
            },
{
    let mut buf = [0u8; MAX_PACKET];
    let whole: &mut [u8] = &mut buf;
    let (frame, _unused) = whole.split_at_mut(len);
    assert(frame@ =~= zeroed(len as nat));
    let r = fill(frame);
    send(frame);
    r
}

} // verus!
