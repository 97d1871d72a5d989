//! The byte buffers that carry object payloads and digests.
//!
//! Payloads are held in `bytes::Bytes`, a reference-counted immutable buffer
//! whose clones share one allocation. The verifier cannot look inside such a
//! buffer, so this module names what it holds and states, for the few
//! operations the library uses, how they act on that content. None of these
//! statements is proved; each is taken from the `bytes` crate as written.

use bytes::Bytes;
use vstd::prelude::*;

verus! {

/// `bytes::Bytes`: a handle on immutable bytes, opaque to the verifier.
#[verifier::external_type_specification]
#[verifier::external_body]
pub struct ExBytes(bytes::Bytes);

/// The bytes that a buffer holds, in order.
pub uninterp spec fn bytes_content(b: Bytes) -> Seq<u8>;

/// `Bytes::new`: an empty buffer.
pub assume_specification[ Bytes::new ]() -> (b: Bytes)
    ensures
        bytes_content(b) == Seq::<u8>::empty(),
;

/// `Bytes::copy_from_slice`: a fresh buffer holding a copy of `data`.
pub assume_specification[ Bytes::copy_from_slice ](data: &[u8]) -> (b: Bytes)
    ensures
        bytes_content(b) == data@,
;

/// `Clone for Bytes`: another handle on the same content.
pub assume_specification[ <Bytes as Clone>::clone ](b: &Bytes) -> (c: Bytes)
    ensures
        bytes_content(c) == bytes_content(*b),
;

/// `AsRef<[u8]> for Bytes`: the content as a slice.
pub assume_specification<'a>[ <Bytes as AsRef<[u8]>>::as_ref ](b: &'a Bytes) -> (s: &'a [u8])
    ensures
        s@ == bytes_content(*b),
;

} // verus!
