//! What holds of every frame: proved from the contracts of the stuffing and
//! of the checksum.

use crate::checksum::trailer;
use crate::error::Error;
use crate::frame::{
    fits, frame, holds_frame, intact, payload_of, sealed, settled, trailer_of, unsealed,
    TRAILER_LEN,
};
use crate::stuffing::cobs_decoded;
use vstd::bytes::lemma_auto_spec_u32_to_from_le_bytes;
use vstd::prelude::*;

verus! {

/// A sealed payload is four bytes longer than the payload, splits into the
/// payload and its checksum again, and is intact.
pub proof fn lemma_sealed(payload: Seq<u8>)
    ensures
        sealed(payload).len() == payload.len() + TRAILER_LEN,
        payload_of(sealed(payload)) == payload,
        trailer_of(sealed(payload)) == trailer(payload),
        intact(sealed(payload)),
{
    lemma_auto_spec_u32_to_from_le_bytes();
    let body = sealed(payload);
    assert(body.skip(body.len() - TRAILER_LEN) =~= trailer(payload));
}

/// A frame ends in its only zero byte: in the first `n` bytes of a buffer
/// that holds a frame, the last byte is zero and no other is.
pub proof fn lemma_single_terminator(output: Seq<u8>, n: int, payload: Seq<u8>)
    requires
        holds_frame(output, n, payload),
    ensures
        output[n - 1] == 0,
        forall|i: int| 0 <= i < n - 1 ==> output[i] != 0,
{
    let enc = output.take(n - 1);
    assert(output.take(n).len() == n);
    assert(output.take(n)[n - 1] == 0);
    assert forall|i: int| 0 <= i < n - 1 implies output[i] != 0 by {
        assert(enc[i] == output[i]);
    }
}

/// A buffer that holds the frame of a payload within capacity unstuffs to
/// the sealed payload, whatever follows the frame in the buffer; and so do
/// the frame's own bytes.
pub proof fn lemma_frame_unseals(output: Seq<u8>, n: int, payload: Seq<u8>, capacity: nat)
    requires
        fits(payload.len(), capacity),
        holds_frame(output, n, payload),
    ensures
        unsealed(output, capacity) == Some(sealed(payload)),
        unsealed(output.take(n), capacity) == Some(sealed(payload)),
{
    lemma_sealed(payload);
    let enc = output.take(n - 1);
    let end = seq![0u8];
    assert(output.take(n) =~= enc + end + Seq::<u8>::empty());
    assert(output =~= enc + end + output.skip(n));
}

/// Round trip: opening a buffer that holds the frame of a payload within
/// capacity hands that very payload to the parser, finds the checksum
/// matching, and so returns the value that the parser gives, or
/// `JsonDecode` where it gives none.
pub proof fn lemma_round_trip<T>(
    output: Seq<u8>,
    n: int,
    payload: Seq<u8>,
    capacity: nat,
    parsed: Option<T>,
)
    requires
        fits(payload.len(), capacity),
        holds_frame(output, n, payload),
    ensures
        unsealed(output, capacity) matches Some(body) && payload_of(body) == payload && intact(
            body,
        ),
        unsealed(output.take(n), capacity) == unsealed(output, capacity),
        settled(parsed, true) == match parsed {
            Some(value) => Ok::<T, Error>(value),
            None => Err::<T, Error>(Error::JsonDecode),
        },
{
    lemma_frame_unseals(output, n, payload, capacity);
    lemma_sealed(payload);
}

/// Determinism: two buffers that each hold the frame of the same payload
/// hold the same number of frame bytes, and the same bytes.
pub proof fn lemma_deterministic(
    first: Seq<u8>,
    n: int,
    second: Seq<u8>,
    m: int,
    payload: Seq<u8>,
)
    requires
        holds_frame(first, n, payload),
        holds_frame(second, m, payload),
    ensures
        n == m,
        first.take(n) == second.take(m),
        n == frame(payload).len(),
{
    assert(second.take(m).len() == m);
}

/// Corruption of the checksum: a payload followed by four bytes that are not
/// its checksum splits into that payload and those bytes, is not intact, and
/// so settles to an error whatever parsing gave.
pub proof fn lemma_altered_checksum_detected<T>(
    payload: Seq<u8>,
    carried: Seq<u8>,
    parsed: Option<T>,
)
    requires
        carried.len() == TRAILER_LEN,
        carried != trailer(payload),
    ensures
        payload_of(payload + carried) == payload,
        trailer_of(payload + carried) == carried,
        !intact(payload + carried),
        settled(parsed, intact(payload + carried)) is Err,
{
    let body = payload + carried;
    assert(body.skip(body.len() - TRAILER_LEN) =~= carried);
}

} // verus!
