//! The digest implementations the library hashes with.
//!
//! The six hashers come from the `sha2`, `sha3` and `blake2` crates and are
//! driven through the `digest::Digest` interface: create, feed any number of
//! chunks, finish. The verifier sees none of their code. What this module
//! states about them is taken from their sources and is believed, not proved:
//!
//! * a hasher in progress stands for the message fed so far (the `*_absorbed`
//!   names), which starts empty and grows by each chunk fed;
//! * finishing yields a value that depends on that message alone (the
//!   `*_digest` names).
//!
//! Nothing is claimed about what the digests are, only that equal messages
//! give equal digests however the message was cut into chunks.

use blake2::{Blake2b, Blake2s};
use digest::Digest;
use sha2::{Sha256, Sha512};
use sha3::{Sha3_256, Sha3_512};
use vstd::prelude::*;

verus! {

/// The longest message, in bytes, that every hasher here accepts: one byte
/// short of 2^61. SHA-256 counts the message's bits in a 64-bit integer, which
/// a longer message would overflow; the other hashers have wider limits or
/// none.
pub const MAX_INPUT_LEN: u64 = 0x1FFF_FFFF_FFFF_FFFF;

/// Whether a hasher that has taken `absorbed` bytes can take `more`.
pub open spec fn fits(absorbed: nat, more: nat) -> bool {
    absorbed + more <= MAX_INPUT_LEN
}

/// `sha2::Sha512`: a SHA-512 computation in progress, opaque to the verifier.
#[verifier::external_type_specification]
#[verifier::external_body]
pub struct ExSha512(sha2::Sha512);

/// The SHA-512 digest of `message`.
pub uninterp spec fn sha512_digest(message: Seq<u8>) -> Seq<u8>;

/// The message that a SHA-512 hasher has been fed so far.
pub uninterp spec fn sha512_absorbed(state: Sha512) -> Seq<u8>;

/// `Digest::new` for `sha2::Sha512`: a hasher that has been fed nothing.
#[verifier::external_body]
pub(crate) fn sha512_new() -> (state: Sha512)
    ensures
        sha512_absorbed(state) == Seq::<u8>::empty(),
{
    <Sha512 as Digest>::new()
}

/// `Digest::update` for `sha2::Sha512`: the chunk is appended to the message
/// fed so far. The hasher counts the message's bits in a 128-bit integer and
/// adds to it without a check; the bound keeps the message within what every
/// hasher here accepts.
#[verifier::external_body]
pub(crate) fn sha512_update(state: &mut Sha512, chunk: &[u8])
    requires
        fits(sha512_absorbed(*old(state)).len(), chunk@.len()),
    ensures
        sha512_absorbed(*final(state)) == sha512_absorbed(*old(state)) + chunk@,
{
    Digest::update(state, chunk)
}

/// `Digest::finalize` for `sha2::Sha512`: the digest of the message fed so
/// far, copied out of the fixed-size array it is returned in.
#[verifier::external_body]
pub(crate) fn sha512_finalize(state: Sha512) -> (digest: Vec<u8>)
    ensures
        digest@ == sha512_digest(sha512_absorbed(state)),
{
    Digest::finalize(state).to_vec()
}

/// `sha2::Sha256`: a SHA-256 computation in progress, opaque to the verifier.
#[verifier::external_type_specification]
#[verifier::external_body]
pub struct ExSha256(sha2::Sha256);

/// The SHA-256 digest of `message`.
pub uninterp spec fn sha256_digest(message: Seq<u8>) -> Seq<u8>;

/// The message that a SHA-256 hasher has been fed so far.
pub uninterp spec fn sha256_absorbed(state: Sha256) -> Seq<u8>;

/// `Digest::new` for `sha2::Sha256`: a hasher that has been fed nothing.
#[verifier::external_body]
pub(crate) fn sha256_new() -> (state: Sha256)
    ensures
        sha256_absorbed(state) == Seq::<u8>::empty(),
{
    <Sha256 as Digest>::new()
}

/// `Digest::update` for `sha2::Sha256`: the chunk is appended to the message
/// fed so far. The hasher counts the message's bits in a 64-bit integer and
/// adds to it without a check; the bound keeps the message within what every
/// hasher here accepts.
#[verifier::external_body]
pub(crate) fn sha256_update(state: &mut Sha256, chunk: &[u8])
    requires
        fits(sha256_absorbed(*old(state)).len(), chunk@.len()),
    ensures
        sha256_absorbed(*final(state)) == sha256_absorbed(*old(state)) + chunk@,
{
    Digest::update(state, chunk)
}

/// `Digest::finalize` for `sha2::Sha256`: the digest of the message fed so
/// far, copied out of the fixed-size array it is returned in.
#[verifier::external_body]
pub(crate) fn sha256_finalize(state: Sha256) -> (digest: Vec<u8>)
    ensures
        digest@ == sha256_digest(sha256_absorbed(state)),
{
    Digest::finalize(state).to_vec()
}

/// `sha3::Sha3_256`: a SHA3-256 computation in progress, opaque to the verifier.
#[verifier::external_type_specification]
#[verifier::external_body]
pub struct ExSha3256(sha3::Sha3_256);

/// The SHA3-256 digest of `message`.
pub uninterp spec fn sha3_256_digest(message: Seq<u8>) -> Seq<u8>;

/// The message that a SHA3-256 hasher has been fed so far.
pub uninterp spec fn sha3_256_absorbed(state: Sha3_256) -> Seq<u8>;

/// `Digest::new` for `sha3::Sha3_256`: a hasher that has been fed nothing.
#[verifier::external_body]
pub(crate) fn sha3_256_new() -> (state: Sha3_256)
    ensures
        sha3_256_absorbed(state) == Seq::<u8>::empty(),
{
    <Sha3_256 as Digest>::new()
}

/// `Digest::update` for `sha3::Sha3_256`: the chunk is appended to the message
/// fed so far. The sponge keeps no count of the message's length; the bound
/// keeps the message within what every hasher here accepts.
#[verifier::external_body]
pub(crate) fn sha3_256_update(state: &mut Sha3_256, chunk: &[u8])
    requires
        fits(sha3_256_absorbed(*old(state)).len(), chunk@.len()),
    ensures
        sha3_256_absorbed(*final(state)) == sha3_256_absorbed(*old(state)) + chunk@,
{
    Digest::update(state, chunk)
}

/// `Digest::finalize` for `sha3::Sha3_256`: the digest of the message fed so
/// far, copied out of the fixed-size array it is returned in.
#[verifier::external_body]
pub(crate) fn sha3_256_finalize(state: Sha3_256) -> (digest: Vec<u8>)
    ensures
        digest@ == sha3_256_digest(sha3_256_absorbed(state)),
{
    Digest::finalize(state).to_vec()
}

/// `sha3::Sha3_512`: a SHA3-512 computation in progress, opaque to the verifier.
#[verifier::external_type_specification]
#[verifier::external_body]
pub struct ExSha3512(sha3::Sha3_512);

/// The SHA3-512 digest of `message`.
pub uninterp spec fn sha3_512_digest(message: Seq<u8>) -> Seq<u8>;

/// The message that a SHA3-512 hasher has been fed so far.
pub uninterp spec fn sha3_512_absorbed(state: Sha3_512) -> Seq<u8>;

/// `Digest::new` for `sha3::Sha3_512`: a hasher that has been fed nothing.
#[verifier::external_body]
pub(crate) fn sha3_512_new() -> (state: Sha3_512)
    ensures
        sha3_512_absorbed(state) == Seq::<u8>::empty(),
{
    <Sha3_512 as Digest>::new()
}

/// `Digest::update` for `sha3::Sha3_512`: the chunk is appended to the message
/// fed so far. The sponge keeps no count of the message's length; the bound
/// keeps the message within what every hasher here accepts.
#[verifier::external_body]
pub(crate) fn sha3_512_update(state: &mut Sha3_512, chunk: &[u8])
    requires
        fits(sha3_512_absorbed(*old(state)).len(), chunk@.len()),
    ensures
        sha3_512_absorbed(*final(state)) == sha3_512_absorbed(*old(state)) + chunk@,
{
    Digest::update(state, chunk)
}

/// `Digest::finalize` for `sha3::Sha3_512`: the digest of the message fed so
/// far, copied out of the fixed-size array it is returned in.
#[verifier::external_body]
pub(crate) fn sha3_512_finalize(state: Sha3_512) -> (digest: Vec<u8>)
    ensures
        digest@ == sha3_512_digest(sha3_512_absorbed(state)),
{
    Digest::finalize(state).to_vec()
}

/// `blake2::Blake2b`: a BLAKE2b (64 bytes of output) computation in progress, opaque to the verifier.
#[verifier::external_type_specification]
#[verifier::external_body]
pub struct ExBlake2b(blake2::Blake2b);

/// The BLAKE2b (64 bytes of output) digest of `message`.
pub uninterp spec fn blake2b_digest(message: Seq<u8>) -> Seq<u8>;

/// The message that a BLAKE2b (64 bytes of output) hasher has been fed so far.
pub uninterp spec fn blake2b_absorbed(state: Blake2b) -> Seq<u8>;

/// `Digest::new` for `blake2::Blake2b`: a hasher that has been fed nothing.
#[verifier::external_body]
pub(crate) fn blake2b_new() -> (state: Blake2b)
    ensures
        blake2b_absorbed(state) == Seq::<u8>::empty(),
{
    <Blake2b as Digest>::new()
}

/// `Digest::update` for `blake2::Blake2b`: the chunk is appended to the
/// message fed so far. The hasher counts the message's bytes in a 64-bit
/// integer and panics when the count overflows; the bound keeps the message
/// within what every hasher here accepts.
#[verifier::external_body]
pub(crate) fn blake2b_update(state: &mut Blake2b, chunk: &[u8])
    requires
        fits(blake2b_absorbed(*old(state)).len(), chunk@.len()),
    ensures
        blake2b_absorbed(*final(state)) == blake2b_absorbed(*old(state)) + chunk@,
{
    Digest::update(state, chunk)
}

/// `Digest::finalize` for `blake2::Blake2b`: the digest of the message fed so
/// far, copied out of the fixed-size array it is returned in.
#[verifier::external_body]
pub(crate) fn blake2b_finalize(state: Blake2b) -> (digest: Vec<u8>)
    ensures
        digest@ == blake2b_digest(blake2b_absorbed(state)),
{
    Digest::finalize(state).to_vec()
}

/// `blake2::Blake2s`: a BLAKE2s (32 bytes of output) computation in progress, opaque to the verifier.
#[verifier::external_type_specification]
#[verifier::external_body]
pub struct ExBlake2s(blake2::Blake2s);

/// The BLAKE2s (32 bytes of output) digest of `message`.
pub uninterp spec fn blake2s_digest(message: Seq<u8>) -> Seq<u8>;

/// The message that a BLAKE2s (32 bytes of output) hasher has been fed so far.
pub uninterp spec fn blake2s_absorbed(state: Blake2s) -> Seq<u8>;

/// `Digest::new` for `blake2::Blake2s`: a hasher that has been fed nothing.
#[verifier::external_body]
pub(crate) fn blake2s_new() -> (state: Blake2s)
    ensures
        blake2s_absorbed(state) == Seq::<u8>::empty(),
{
    <Blake2s as Digest>::new()
}

/// `Digest::update` for `blake2::Blake2s`: the chunk is appended to the
/// message fed so far. The hasher counts the message's bytes in a 64-bit
/// integer and panics when the count overflows; the bound keeps the message
/// within what every hasher here accepts.
#[verifier::external_body]
pub(crate) fn blake2s_update(state: &mut Blake2s, chunk: &[u8])
    requires
        fits(blake2s_absorbed(*old(state)).len(), chunk@.len()),
    ensures
        blake2s_absorbed(*final(state)) == blake2s_absorbed(*old(state)) + chunk@,
{
    Digest::update(state, chunk)
}

/// `Digest::finalize` for `blake2::Blake2s`: the digest of the message fed so
/// far, copied out of the fixed-size array it is returned in.
#[verifier::external_body]
pub(crate) fn blake2s_finalize(state: Blake2s) -> (digest: Vec<u8>)
    ensures
        digest@ == blake2s_digest(blake2s_absorbed(state)),
{
    Digest::finalize(state).to_vec()
}

} // verus!
