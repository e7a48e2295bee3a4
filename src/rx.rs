//! Receive side: the single-use receive token and the decision taken on the
//! outcome of one firmware receive call.

use vstd::prelude::*;

verus! {

/// The firmware status code for "no packet is pending": the error bit (the
/// highest bit of `usize`) together with the value 6.
pub open spec fn not_ready_code() -> int {
    (usize::MAX as int + 1) / 2 + 6
}

/// The bytes of a frame of `n` bytes received into `packet`.
pub open spec fn received_frame(packet: Seq<u8>, n: nat) -> Seq<u8> {
    packet.subrange(0, n as int)
}

/// Relies on uefi's `Status` equality and its `NOT_READY` constant, which is
/// `ERROR_BIT | 6` with `ERROR_BIT == 1 << (usize::BITS - 1)`.
#[verifier::external_body]
fn status_is_not_ready(code: usize) -> (r: bool)
    ensures
        r == (code as int == not_ready_code()),
{
    uefi::Status(code) == uefi::Status::NOT_READY
}

/// One received frame, held in a buffer of `MAX_PACKET` bytes of which the
/// first `size` are valid.
pub struct SnpRxToken<const MAX_PACKET: usize> {
    packet: [u8; MAX_PACKET],
    size: usize,
}

impl<const MAX_PACKET: usize> View for SnpRxToken<MAX_PACKET> {
    type V = Seq<u8>;

    /// The valid bytes of the frame.
    closed spec fn view(&self) -> Seq<u8> {
        received_frame(self.packet@, self.size as nat)
    }
}

impl<const MAX_PACKET: usize> SnpRxToken<MAX_PACKET> {
    #[verifier::type_invariant]
    spec fn inv(&self) -> bool {
        self.size <= MAX_PACKET
    }

    /// Hands the valid bytes of the frame, and no more, to `f` and returns
    /// what `f` returns. The token is used up.
    pub fn consume<R, F: FnOnce(&[u8]) -> R>(self, f: F) -> (r: R)
        requires
            forall|b: &[u8]| b@ == self@ ==> f.requires((b,)),
        ensures
            exists|b: &[u8]| b@ == self@ && f.ensures((b,), r),
    {
        proof {
            use_type_invariant(&self);
        }
        let frame = vstd::slice::slice_subrange(self.packet.as_slice(), 0, self.size);
        f(frame)
    }
}

/// What one receive call of the firmware amounts to.
pub enum RxEvent<const MAX_PACKET: usize> {
    /// A frame arrived.
    Frame(SnpRxToken<MAX_PACKET>),
    /// No frame is queued: the ordinary outcome of most polls.
    NotReady,
    /// The firmware reported another error, whose status code is kept for
    /// the diagnostic log. No frame this cycle either.
    Failed(usize),
}

/// Turns the outcome of one firmware receive into `packet` into an event:
/// `Ok(n)` is the number of bytes received, `Err(code)` the firmware's status
/// code.
pub fn receive_event<const MAX_PACKET: usize>(
    packet: [u8; MAX_PACKET],
    outcome: Result<usize, usize>,
) -> (r: RxEvent<MAX_PACKET>)
    requires
        outcome matches Ok(n) ==> n <= MAX_PACKET,
    ensures
        match outcome {
            Ok(n) => r matches RxEvent::Frame(t) && t@ == received_frame(packet@, n as nat),
            Err(code) => if code as int == not_ready_code() {
                r matches RxEvent::NotReady
            } else {
                r == RxEvent::<MAX_PACKET>::Failed(code)
            },
        },
{
    match outcome {
        Ok(n) => RxEvent::Frame(SnpRxToken { packet, size: n }),
        Err(code) => {
            if status_is_not_ready(code) {
                RxEvent::NotReady
            } else {
                RxEvent::Failed(code)
            }
        },
    }
}

/// A frame of `n` bytes received into a buffer of `MAX_PACKET` bytes is
/// seen by the consumer as exactly `n` bytes, the first `n` of the buffer.
pub proof fn lemma_received_frame_len<const MAX_PACKET: usize>(packet: [u8; MAX_PACKET], n: nat)
    requires
        n <= MAX_PACKET,
    ensures
        received_frame(packet@, n).len() == n,
        forall|i: int| 0 <= i < n ==> #[trigger] received_frame(packet@, n)[i] == packet@[i],
{
}

} // verus!
