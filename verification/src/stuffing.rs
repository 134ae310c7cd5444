//! Byte stuffing, done by the `cobs` crate: the two calls into it and what
//! is taken on trust about them.

use vstd::prelude::*;

verus! {

/// The stuffed form of `data`: the bytes that `cobs::encode` writes for it.
/// They depend on `data` alone.
pub uninterp spec fn cobs_encoded(data: Seq<u8>) -> Seq<u8>;

/// What `cobs::decode` recovers from `source` when the destination has room
/// for all of it, or `None` when it rejects `source`. It reads `source` up
/// to the zero byte that ends the first frame in it.
pub uninterp spec fn cobs_decoded(source: Seq<u8>) -> Option<Seq<u8>>;

/// The most bytes that stuffing `len` bytes can take: one more for every
/// 254, rounded up.
pub open spec fn max_stuffed_len(len: nat) -> nat {
    len + (len + 253) / 254
}

/// What the framing relies on in a stuffed form `enc` of `data`: it keeps the
/// size bound, it holds no zero byte, and, followed by a zero byte and then
/// by anything at all, it unstuffs to `data` again.
pub open spec fn well_stuffed(data: Seq<u8>, enc: Seq<u8>) -> bool {
    &&& enc.len() <= max_stuffed_len(data.len())
    &&& forall|i: int| 0 <= i < enc.len() ==> enc[i] != 0
    &&& data.len() > 0 ==> forall|rest: Seq<u8>|
        #[trigger] cobs_decoded(enc + seq![0u8] + rest) == Some(data)
}

/// The error of `cobs::decode`, carried through without a look inside.
#[verifier::external_type_specification]
#[verifier::external_body]
pub struct ExDecodeError(cobs::DecodeError);

/// Calls `cobs::encode`. Trusted: with room for the largest stuffed form of
/// `data` the call does not panic; it returns the number of bytes of the
/// stuffed form, which then stands at the start of `out`; that form is no
/// longer than the crate's `max_encoding_length` allows and holds no zero
/// byte; and, unless `data` is empty, `cobs::decode` recovers `data` from it
/// once a zero byte follows it. Nothing is claimed of the bytes of `out`
/// behind the stuffed form.
#[verifier::external_body]
pub(crate) fn stuff(data: &[u8], out: &mut [u8]) -> (n: usize)
    requires
        old(out)@.len() >= max_stuffed_len(data@.len()),
    ensures
        final(out)@.len() == old(out)@.len(),
        n <= final(out)@.len(),
        final(out)@.take(n as int) == cobs_encoded(data@),
        well_stuffed(data@, final(out)@.take(n as int)),
{
    cobs::encode(data, out)
}

/// Calls `cobs::decode`. Trusted: the call does not panic; it succeeds
/// exactly when `source` unstuffs and the result fits `dest`; it then
/// returns the length of the result, which stands at the start of `dest`.
#[verifier::external_body]
pub(crate) fn unstuff(source: &[u8], dest: &mut [u8]) -> (res: Result<usize, cobs::DecodeError>)
    ensures
        final(dest)@.len() == old(dest)@.len(),
        match res {
            Ok(n) => n <= final(dest)@.len() && cobs_decoded(source@) == Some(
                final(dest)@.take(n as int),
            ),
            Err(_) => cobs_decoded(source@) matches Some(data) ==> data.len() > old(dest)@.len(),
        },
{
    cobs::decode(source, dest)
}

} // verus!
