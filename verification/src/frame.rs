//! Frames: how a payload is sealed with its checksum, stuffed and
//! terminated, and how a frame is opened again.

use crate::checksum::{checksum, trailer, write_le};
use crate::error::Error;
use crate::laws::{lemma_frame_unseals, lemma_sealed, lemma_single_terminator};
use crate::stuffing::{cobs_decoded, cobs_encoded, max_stuffed_len, stuff, unstuff, well_stuffed};
use vstd::bytes::{lemma_auto_spec_u32_to_from_le_bytes, u32_from_le_bytes};
use vstd::prelude::*;

verus! {

/// Size of the working buffer that `encode` and `decode` use: the most bytes
/// that a payload and its checksum may take together.
pub const CAPACITY: usize = 1024;

/// Number of checksum bytes behind the payload.
pub const TRAILER_LEN: usize = 4;

/// The payload followed by its checksum: what is stuffed.
pub open spec fn sealed(payload: Seq<u8>) -> Seq<u8> {
    payload + trailer(payload)
}

/// The frame of `payload`: the stuffed form of the sealed payload, then the
/// zero byte that ends it.
pub open spec fn frame(payload: Seq<u8>) -> Seq<u8> {
    cobs_encoded(sealed(payload)) + seq![0u8]
}

/// The most bytes that the frame of a payload of `payload_len` bytes can
/// take.
pub open spec fn max_frame_len(payload_len: nat) -> nat {
    max_stuffed_len(payload_len + TRAILER_LEN as nat) + 1
}

/// A payload of `payload_len` bytes fits, with its checksum, a working
/// buffer of `capacity` bytes.
pub open spec fn fits(payload_len: nat, capacity: nat) -> bool {
    payload_len + TRAILER_LEN <= capacity
}

/// What `source` unstuffs to, where that has room for a checksum and fits a
/// working buffer of `capacity` bytes.
pub open spec fn unsealed(source: Seq<u8>, capacity: nat) -> Option<Seq<u8>> {
    match cobs_decoded(source) {
        Some(body) => if TRAILER_LEN <= body.len() <= capacity {
            Some(body)
        } else {
            None
        },
        None => None,
    }
}

/// The part of an unstuffed `body` in front of its checksum.
pub open spec fn payload_of(body: Seq<u8>) -> Seq<u8> {
    body.take(body.len() - TRAILER_LEN)
}

/// The last bytes of an unstuffed `body`: the checksum that it carries.
pub open spec fn trailer_of(body: Seq<u8>) -> Seq<u8> {
    body.skip(body.len() - TRAILER_LEN)
}

/// The checksum that `body` carries is the checksum of its payload.
pub open spec fn intact(body: Seq<u8>) -> bool {
    trailer_of(body) == trailer(payload_of(body))
}

/// What opening a frame comes to, given what parsing its payload gave and
/// whether its checksum matched. A payload that does not parse is reported
/// before a checksum that does not match.
pub open spec fn settled<T>(parsed: Option<T>, intact: bool) -> Result<T, Error> {
    match parsed {
        None => Err(Error::JsonDecode),
        Some(value) => if intact {
            Ok(value)
        } else {
            Err(Error::CrcInvalid)
        },
    }
}

/// `output` holds, in its first `n` bytes, the frame of `payload`, and what
/// stands in front of the terminator is well stuffed.
pub open spec fn holds_frame(output: Seq<u8>, n: int, payload: Seq<u8>) -> bool {
    &&& 0 < n <= output.len()
    &&& output.take(n) == frame(payload)
    &&& well_stuffed(sealed(payload), output.take(n - 1))
}

/// The size that an output buffer must have to take the frame of any payload
/// of `payload_len` bytes, or `None` where no buffer can be that large.
pub fn frame_len_bound(payload_len: usize) -> (bound: Option<usize>)
    ensures
        match bound {
            Some(len) => len == max_frame_len(payload_len as nat),
            None => max_frame_len(payload_len as nat) > usize::MAX,
        },
{
    let len: usize = payload_len.checked_add(TRAILER_LEN)?;
    let overhead: usize = if len % 254 == 0 {
        len / 254
    } else {
        len / 254 + 1
    };
    let stuffed: usize = len.checked_add(overhead)?;
    stuffed.checked_add(1)
}

/// Writes the frame of `payload` to the start of `output` and returns its
/// length, the terminating zero included. The payload and its checksum are
/// put together in a working buffer of `N` bytes.
///
/// A payload that does not fit the working buffer together with its checksum
/// is refused, and `output` is left as it was.
pub fn encode_with_capacity<const N: usize>(payload: &[u8], output: &mut [u8]) -> (res: Result<
    usize,
    Error,
>)
    requires
        fits(payload@.len(), N as nat) ==> old(output)@.len() >= max_frame_len(payload@.len()),
    ensures
        final(output)@.len() == old(output)@.len(),
        !fits(payload@.len(), N as nat) ==> res == Err::<usize, Error>(Error::CapacityExceeded)
            && final(output)@ == old(output)@,
        fits(payload@.len(), N as nat) ==> res is Ok,
        res matches Ok(n) ==> {
            &&& holds_frame(final(output)@, n as int, payload@)
            &&& n <= max_frame_len(payload@.len())
            &&& final(output)@[n - 1] == 0
            &&& forall|i: int| 0 <= i < n - 1 ==> final(output)@[i] != 0
            &&& unsealed(final(output)@, N as nat) == Some(sealed(payload@))
        },
{
    let n = payload.len();
    if N < TRAILER_LEN || n > N - TRAILER_LEN {
        return Err(Error::CapacityExceeded);
    }
    let mut buf: [u8; N] = [0; N];
    let mut i: usize = 0;
    while i < n
        invariant
            i <= n,
            n == payload@.len(),
            n + TRAILER_LEN <= N,
            forall|k: int| 0 <= k < i ==> buf@[k] == payload@[k],
        decreases n - i,
    {
        buf[i] = payload[i];
        i += 1;
    }
    let sum = checksum(payload);
    let (_, tail) = buf.split_at_mut(n);
    write_le(tail, sum);
    proof {
        lemma_sealed(payload@);
        assert(buf@.subrange(0, n + TRAILER_LEN) =~= sealed(payload@));
    }
    let len = stuff(&buf[0..n + TRAILER_LEN], output);
    let ghost stuffed = output@.take(len as int);
    output[len] = 0;
    proof {
        let out = output@;
        assert(out.take(len + 1 - 1) =~= stuffed);
        assert(out.take(len + 1) =~= frame(payload@));
        lemma_single_terminator(out, len + 1, payload@);
        lemma_frame_unseals(out, len + 1, payload@, N as nat);
    }
    Ok(len + 1)
}

/// Writes the frame of `payload` to the start of `output` and returns its
/// length, the terminating zero included, with a working buffer of
/// `CAPACITY` bytes.
///
/// A payload that does not fit the working buffer together with its checksum
/// is refused, and `output` is left as it was.
pub fn encode(payload: &[u8], output: &mut [u8]) -> (res: Result<usize, Error>)
    requires
        fits(payload@.len(), CAPACITY as nat) ==> old(output)@.len() >= max_frame_len(
            payload@.len(),
        ),
    ensures
        final(output)@.len() == old(output)@.len(),
        !fits(payload@.len(), CAPACITY as nat) ==> res == Err::<usize, Error>(
            Error::CapacityExceeded,
        ) && final(output)@ == old(output)@,
        fits(payload@.len(), CAPACITY as nat) ==> res is Ok,
        res matches Ok(n) ==> {
            &&& holds_frame(final(output)@, n as int, payload@)
            &&& n <= max_frame_len(payload@.len())
            &&& final(output)@[n - 1] == 0
            &&& forall|i: int| 0 <= i < n - 1 ==> final(output)@[i] != 0
            &&& unsealed(final(output)@, CAPACITY as nat) == Some(sealed(payload@))
        },
{
    encode_with_capacity::<CAPACITY>(payload, output)
}

/// Settles what opening a frame returns, from what parsing its payload gave
/// and whether its checksum matched.
pub fn settle<T>(parsed: Option<T>, intact: bool) -> (res: Result<T, Error>)
    ensures
        res == settled(parsed, intact),
{
    match parsed {
        None => Err(Error::JsonDecode),
        Some(value) => if intact {
            Ok(value)
        } else {
            Err(Error::CrcInvalid)
        },
    }
}

/// Opens the frame at the start of `source`: unstuffs it up to its
/// terminating zero into a working buffer of `N` bytes, hands the payload to
/// `parse`, and checks the payload against the checksum that the frame
/// carries.
///
/// Bytes that do not unstuff are refused as `CobsDecode`, and so is a frame
/// whose content is shorter than a checksum or longer than the working
/// buffer. Otherwise the result is settled from what `parse` gave and from
/// the checksum: a value is returned only where `parse` gave one and the
/// checksum matched.
pub fn decode_with_capacity<const N: usize, T, F: Fn(&[u8]) -> Option<T>>(
    source: &[u8],
    parse: F,
) -> (res: Result<T, Error>)
    requires
        forall|bytes: &[u8]| fits(bytes@.len(), N as nat) ==> call_requires(parse, (bytes,)),
    ensures
        match unsealed(source@, N as nat) {
            None => res == Err::<T, Error>(Error::CobsDecode),
            Some(body) => exists|bytes: &[u8], parsed: Option<T>|
                {
                    &&& bytes@ == payload_of(body)
                    &&& call_ensures(parse, (bytes,), parsed)
                    &&& res == settled(parsed, intact(body))
                },
        },
{
    let mut dest: [u8; N] = [0; N];
    let len = match unstuff(source, &mut dest) {
        Ok(len) => len,
        Err(_) => {
            return Err(Error::CobsDecode);
        },
    };
    if len < TRAILER_LEN {
        return Err(Error::CobsDecode);
    }
    let ghost body = dest@.take(len as int);
    let payload = &dest[0..len - TRAILER_LEN];
    let carried = u32_from_le_bytes(&dest[len - TRAILER_LEN..len]);
    let parsed = parse(payload);
    let sum = checksum(payload);
    proof {
        lemma_auto_spec_u32_to_from_le_bytes();
        assert(payload@ =~= payload_of(body));
        assert(dest@.subrange(len - TRAILER_LEN, len as int) =~= trailer_of(body));
    }
    settle(parsed, sum == carried)
}

/// Opens the frame at the start of `source` as `decode_with_capacity` does,
/// with a working buffer of `CAPACITY` bytes.
pub fn decode<T, F: Fn(&[u8]) -> Option<T>>(source: &[u8], parse: F) -> (res: Result<T, Error>)
    requires
        forall|bytes: &[u8]| fits(bytes@.len(), CAPACITY as nat) ==> call_requires(parse, (bytes,)),
    ensures
        match unsealed(source@, CAPACITY as nat) {
            None => res == Err::<T, Error>(Error::CobsDecode),
            Some(body) => exists|bytes: &[u8], parsed: Option<T>|
                {
                    &&& bytes@ == payload_of(body)
                    &&& call_ensures(parse, (bytes,), parsed)
                    &&& res == settled(parsed, intact(body))
                },
        },
{
    decode_with_capacity::<CAPACITY, T, F>(source, parse)
}

} // verus!
