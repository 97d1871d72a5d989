//! Hashes, and the algorithms that compute them.
//!
//! A [`Hash`] identifies content: it is the digest of an object's bytes under
//! one of the [`HashAlgorithm`]s. A hash carries no mark of the algorithm that
//! made it; whoever checks or creates one supplies the algorithm.
//!
//! Hashing is incremental. A [`Hasher`] takes a message chunk by chunk and
//! stands, at every moment, for the bytes it has taken so far; the digest it
//! yields depends on those bytes alone, not on how they were cut.

use crate::buffer::bytes_content;
use crate::digests::{
    blake2b_absorbed, blake2b_digest, blake2b_finalize, blake2b_new, blake2b_update,
    blake2s_absorbed, blake2s_digest, blake2s_finalize, blake2s_new, blake2s_update, fits,
    sha256_absorbed, sha256_digest, sha256_finalize, sha256_new, sha256_update,
    sha3_256_absorbed, sha3_256_digest, sha3_256_finalize, sha3_256_new, sha3_256_update,
    sha3_512_absorbed, sha3_512_digest, sha3_512_finalize, sha3_512_new, sha3_512_update,
    sha512_absorbed, sha512_digest, sha512_finalize, sha512_new, sha512_update, MAX_INPUT_LEN,
};
use crate::hex::{hex_text, to_hex};
use blake2::{Blake2b, Blake2s};
use bytes::Bytes;
use sha2::{Sha256, Sha512};
use sha3::{Sha3_256, Sha3_512};
use vstd::prelude::*;

pub mod order;

verus! {

/// The digest strategies a store can be run with.
#[allow(non_camel_case_types)]
#[derive(PartialEq, Eq, Clone, Copy, Debug, Structural)]
pub enum HashAlgorithm {
    Sha512,
    Sha256,
    Sha3_256,
    Sha3_512,
    Blake2b,
    Blake2s,
}

/// A content identifier: the bytes of a digest.
///
/// Two hashes are equal when their bytes are; they are ordered byte by byte,
/// a proper prefix before its extensions.
#[derive(Debug, Eq, Ord, Hash)]
pub struct Hash(pub Bytes);

impl View for Hash {
    type V = Seq<u8>;

    open spec fn view(&self) -> Seq<u8> {
        bytes_content(self.0)
    }
}

impl Hash {
    /// Whether every byte is zero: the mark of the null hash, which stands
    /// for "no object" (an unset head, for one).
    pub open spec fn spec_is_null(&self) -> bool {
        forall|i: int| 0 <= i < self@.len() ==> self@[i] == 0
    }

    /// Whether this is the null hash.
    pub fn is_null(&self) -> (null: bool)
        ensures
            null == self.spec_is_null(),
    {
        let bytes = self.as_slice();
        let mut i: usize = 0;
        while i < bytes.len()
            invariant
                i <= bytes.len(),
                bytes@ == self@,
                forall|j: int| 0 <= j < i ==> self@[j] == 0,
            decreases bytes.len() - i,
        {
            if bytes[i] != 0 {
                return false;
            }
            i += 1;
        }
        true
    }

    /// The bytes of the hash.
    pub fn as_slice(&self) -> (bytes: &[u8])
        ensures
            bytes@ == self@,
    {
        self.0.as_ref()
    }

    /// The hash in lowercase hexadecimal, two digits per byte in byte order.
    pub fn to_string(&self) -> (text: String)
        ensures
            text@ == hex_text(self@),
    {
        to_hex(self.as_slice())
    }
}

impl Default for Hash {
    /// The empty hash, which is null.
    fn default() -> (hash: Hash)
        ensures
            hash@ == Seq::<u8>::empty(),
            hash.spec_is_null(),
    {
        Hash(Bytes::new())
    }
}

impl Clone for Hash {
    /// Another handle on the same bytes; nothing is copied.
    fn clone(&self) -> (copy: Hash)
        ensures
            copy@ == self@,
    {
        Hash(self.0.clone())
    }
}

impl HashAlgorithm {
    /// The digest of `message` under this algorithm.
    pub open spec fn digest(self, message: Seq<u8>) -> Seq<u8> {
        match self {
            HashAlgorithm::Sha512 => sha512_digest(message),
            HashAlgorithm::Sha256 => sha256_digest(message),
            HashAlgorithm::Sha3_256 => sha3_256_digest(message),
            HashAlgorithm::Sha3_512 => sha3_512_digest(message),
            HashAlgorithm::Blake2b => blake2b_digest(message),
            HashAlgorithm::Blake2s => blake2s_digest(message),
        }
    }

    /// Hashes a message held in one piece.
    pub fn hash(self, data: &[u8]) -> (hash: Hash)
        requires
            data@.len() <= MAX_INPUT_LEN,
        ensures
            hash@ == self.digest(data@),
    {
        let mut hasher = Hasher::new(self);
        hasher.update(data);
        hasher.finalize()
    }

    /// Hashes a message delivered in chunks, holding one chunk at a time.
    pub fn hash_chunks(self, chunks: &[&[u8]]) -> (hash: Hash)
        requires
            chunk_contents(chunks@).flatten().len() <= MAX_INPUT_LEN,
        ensures
            hash@ == self.digest(chunk_contents(chunks@).flatten()),
    {
        let ghost parts = chunk_contents(chunks@);
        let mut hasher = Hasher::new(self);
        let mut i: usize = 0;
        assert(parts.take(0) =~= Seq::<Seq<u8>>::empty());
        while i < chunks.len()
            invariant
                i <= chunks.len(),
                parts == chunk_contents(chunks@),
                parts.flatten().len() <= MAX_INPUT_LEN,
                hasher.algorithm() == self,
                hasher.absorbed() == parts.take(i as int).flatten(),
            decreases chunks.len() - i,
        {
            let chunk: &[u8] = chunks[i];
            proof {
                assert(parts[i as int] == chunk@);
                lemma_flatten_take_step(parts, i as int);
                lemma_flatten_take_len(parts, i + 1);
            }
            hasher.update(chunk);
            i += 1;
        }
        assert(parts.take(chunks.len() as int) =~= parts);
        hasher.finalize()
    }
}

/// The contents of a run of chunks, chunk by chunk.
pub open spec fn chunk_contents(chunks: Seq<&[u8]>) -> Seq<Seq<u8>> {
    Seq::new(chunks.len(), |i: int| chunks[i]@)
}

/// What a hasher holding `absorbed` holds after it is fed `chunks` in order.
pub open spec fn absorb_all(absorbed: Seq<u8>, chunks: Seq<Seq<u8>>) -> Seq<u8>
    decreases chunks.len(),
{
    if chunks.len() == 0 {
        absorbed
    } else {
        absorb_all(absorbed + chunks.first(), chunks.drop_first())
    }
}

/// One more chunk extends the concatenation of a prefix by that chunk.
pub proof fn lemma_flatten_take_step(chunks: Seq<Seq<u8>>, n: int)
    requires
        0 <= n < chunks.len(),
    ensures
        chunks.take(n + 1).flatten() == chunks.take(n).flatten() + chunks[n],
{
    assert(chunks.take(n + 1) =~= chunks.take(n).push(chunks[n]));
    chunks.take(n).lemma_flatten_push(chunks[n]);
}

/// The concatenation of a prefix is no longer than that of the whole.
pub proof fn lemma_flatten_take_len(chunks: Seq<Seq<u8>>, n: int)
    requires
        0 <= n <= chunks.len(),
    ensures
        chunks.take(n).flatten().len() <= chunks.flatten().len(),
    decreases chunks.len() - n,
{
    if n == chunks.len() {
        assert(chunks.take(n) =~= chunks);
    } else {
        lemma_flatten_take_step(chunks, n);
        lemma_flatten_take_len(chunks, n + 1);
    }
}

/// Feeding chunks one after another absorbs their concatenation.
pub proof fn lemma_absorb_all(absorbed: Seq<u8>, chunks: Seq<Seq<u8>>)
    ensures
        absorb_all(absorbed, chunks) == absorbed + chunks.flatten(),
    decreases chunks.len(),
{
    if chunks.len() == 0 {
        assert(absorbed + chunks.flatten() =~= absorbed);
    } else {
        lemma_absorb_all(absorbed + chunks.first(), chunks.drop_first());
        assert((absorbed + chunks.first()) + chunks.drop_first().flatten() =~= absorbed
            + chunks.flatten());
    }
}

/// A digest does not depend on how the message was delivered: two runs of
/// chunks that concatenate to the same message are hashed alike.
pub proof fn lemma_delivery_is_immaterial(
    algorithm: HashAlgorithm,
    first: Seq<Seq<u8>>,
    second: Seq<Seq<u8>>,
)
    requires
        first.flatten() == second.flatten(),
    ensures
        algorithm.digest(absorb_all(Seq::empty(), first)) == algorithm.digest(
            absorb_all(Seq::empty(), second),
        ),
{
    lemma_absorb_all(Seq::empty(), first);
    lemma_absorb_all(Seq::empty(), second);
    assert(Seq::<u8>::empty() + first.flatten() =~= first.flatten());
    assert(Seq::<u8>::empty() + second.flatten() =~= second.flatten());
}

/// A message streamed in chunks is hashed as the same message held whole.
pub proof fn lemma_streamed_equals_buffered(
    algorithm: HashAlgorithm,
    chunks: Seq<Seq<u8>>,
    message: Seq<u8>,
)
    requires
        chunks.flatten() == message,
    ensures
        algorithm.digest(absorb_all(Seq::empty(), chunks)) == algorithm.digest(message),
{
    lemma_absorb_all(Seq::empty(), chunks);
    assert(Seq::<u8>::empty() + chunks.flatten() =~= chunks.flatten());
}

/// A hash without bytes, as the default one is, is null; a hash with a byte
/// that is not zero is not.
pub proof fn lemma_null_sentinel(hash: Hash, i: int)
    ensures
        hash@.len() == 0 ==> hash.spec_is_null(),
        0 <= i < hash@.len() && hash@[i] != 0 ==> !hash.spec_is_null(),
{
}

/// The state of one hasher in progress.
enum HasherState {
    Sha512(Sha512),
    Sha256(Sha256),
    Sha3_256(Sha3_256),
    Sha3_512(Sha3_512),
    Blake2b(Blake2b),
    Blake2s(Blake2s),
}

/// A hash computation in progress.
pub struct Hasher {
    state: HasherState,
}

impl Hasher {
    /// The algorithm this hasher runs.
    pub closed spec fn algorithm(&self) -> HashAlgorithm {
        match self.state {
            HasherState::Sha512(_) => HashAlgorithm::Sha512,
            HasherState::Sha256(_) => HashAlgorithm::Sha256,
            HasherState::Sha3_256(_) => HashAlgorithm::Sha3_256,
            HasherState::Sha3_512(_) => HashAlgorithm::Sha3_512,
            HasherState::Blake2b(_) => HashAlgorithm::Blake2b,
            HasherState::Blake2s(_) => HashAlgorithm::Blake2s,
        }
    }

    /// The message fed so far.
    pub closed spec fn absorbed(&self) -> Seq<u8> {
        match self.state {
            HasherState::Sha512(s) => sha512_absorbed(s),
            HasherState::Sha256(s) => sha256_absorbed(s),
            HasherState::Sha3_256(s) => sha3_256_absorbed(s),
            HasherState::Sha3_512(s) => sha3_512_absorbed(s),
            HasherState::Blake2b(s) => blake2b_absorbed(s),
            HasherState::Blake2s(s) => blake2s_absorbed(s),
        }
    }

    /// A hasher for `algorithm` that has been fed nothing.
    pub fn new(algorithm: HashAlgorithm) -> (hasher: Hasher)
        ensures
            hasher.algorithm() == algorithm,
            hasher.absorbed() == Seq::<u8>::empty(),
    {
        let state = match algorithm {
            HashAlgorithm::Sha512 => HasherState::Sha512(sha512_new()),
            HashAlgorithm::Sha256 => HasherState::Sha256(sha256_new()),
            HashAlgorithm::Sha3_256 => HasherState::Sha3_256(sha3_256_new()),
            HashAlgorithm::Sha3_512 => HasherState::Sha3_512(sha3_512_new()),
            HashAlgorithm::Blake2b => HasherState::Blake2b(blake2b_new()),
            HashAlgorithm::Blake2s => HasherState::Blake2s(blake2s_new()),
        };
        Hasher { state }
    }

    /// Feeds the next chunk of the message.
    pub fn update(&mut self, chunk: &[u8])
        requires
            fits(old(self).absorbed().len(), chunk@.len()),
        ensures
            final(self).algorithm() == old(self).algorithm(),
            final(self).absorbed() == old(self).absorbed() + chunk@,
    {
        match &mut self.state {
            HasherState::Sha512(s) => sha512_update(s, chunk),
            HasherState::Sha256(s) => sha256_update(s, chunk),
            HasherState::Sha3_256(s) => sha3_256_update(s, chunk),
            HasherState::Sha3_512(s) => sha3_512_update(s, chunk),
            HasherState::Blake2b(s) => blake2b_update(s, chunk),
            HasherState::Blake2s(s) => blake2s_update(s, chunk),
        }
    }

    /// Ends the computation: the hash of everything fed.
    pub fn finalize(self) -> (hash: Hash)
        ensures
            hash@ == self.algorithm().digest(self.absorbed()),
    {
        let digest = match self.state {
            HasherState::Sha512(s) => sha512_finalize(s),
            HasherState::Sha256(s) => sha256_finalize(s),
            HasherState::Sha3_256(s) => sha3_256_finalize(s),
            HasherState::Sha3_512(s) => sha3_512_finalize(s),
            HasherState::Blake2b(s) => blake2b_finalize(s),
            HasherState::Blake2s(s) => blake2s_finalize(s),
        };
        Hash(Bytes::copy_from_slice(digest.as_slice()))
    }
}

} // verus!
