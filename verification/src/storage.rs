//! The read side of an object store.
//!
//! A store holds immutable objects of five kinds and hands them out by hash.
//! A read ends in one of three ways: the object's bytes, the word that this
//! store holds no such object, or an error. This module holds what every
//! store shares: the kinds, the [`Context`] a read runs under, the errors,
//! and the one place where what a backend returned is held against the hash
//! that was asked for.

use crate::buffer::bytes_content;
use crate::digests::MAX_INPUT_LEN;
use bytes::Bytes;
use vstd::prelude::*;

pub use crate::hash::HashAlgorithm;

pub mod http;
pub mod caching;

verus! {

/// The kinds of object a store holds. Each kind is a namespace of its own:
/// the same hash under two kinds names two unrelated objects.
#[derive(PartialEq, Eq, Clone, Copy, Debug, Structural)]
pub enum ObjectKind {
    /// A raw, content-defined range of bytes.
    Chunk,
    /// An aggregation of chunks.
    Block,
    /// A filesystem-entry record.
    Entry,
    /// A directory listing.
    Tree,
    /// A named pointer whose value is itself a hash.
    Head,
}

impl ObjectKind {
    /// The kind's name as it appears in request paths.
    pub open spec fn spec_name(self) -> Seq<char> {
        match self {
            ObjectKind::Chunk => "chunk"@,
            ObjectKind::Block => "block"@,
            ObjectKind::Entry => "entry"@,
            ObjectKind::Tree => "tree"@,
            ObjectKind::Head => "head"@,
        }
    }

    /// The kind's name as it appears in request paths.
    pub fn name(self) -> (name: &'static str)
        ensures
            name@ == self.spec_name(),
    {
        match self {
            ObjectKind::Chunk => "chunk",
            ObjectKind::Block => "block",
            ObjectKind::Entry => "entry",
            ObjectKind::Tree => "tree",
            ObjectKind::Head => "head",
        }
    }

    /// A number that tells the kinds apart; it is the kind's part of a cache
    /// key.
    pub open spec fn spec_tag(self) -> u8 {
        match self {
            ObjectKind::Chunk => 0,
            ObjectKind::Block => 1,
            ObjectKind::Entry => 2,
            ObjectKind::Tree => 3,
            ObjectKind::Head => 4,
        }
    }

    /// The kind's tag.
    pub fn tag(self) -> (tag: u8)
        ensures
            tag == self.spec_tag(),
    {
        match self {
            ObjectKind::Chunk => 0,
            ObjectKind::Block => 1,
            ObjectKind::Entry => 2,
            ObjectKind::Tree => 3,
            ObjectKind::Head => 4,
        }
    }
}

/// The configuration a read runs under: the hash algorithm in force and the
/// largest payload accepted for each kind that has a limit. A context is a
/// plain value, passed to every operation; two reads may run under two
/// contexts.
#[derive(PartialEq, Eq, Debug, Structural)]
pub struct Context {
    hash_algorithm: HashAlgorithm,
    chunk_size: usize,
    block_size: usize,
    entry_size: usize,
    tree_size: usize,
}

impl Context {
    /// The hash algorithm in force.
    pub closed spec fn spec_hash_algorithm(&self) -> HashAlgorithm {
        self.hash_algorithm
    }

    /// The largest chunk accepted, in bytes.
    pub closed spec fn spec_chunk_size(&self) -> usize {
        self.chunk_size
    }

    /// The largest block accepted, in bytes.
    pub closed spec fn spec_block_size(&self) -> usize {
        self.block_size
    }

    /// The largest entry accepted, in bytes.
    pub closed spec fn spec_entry_size(&self) -> usize {
        self.entry_size
    }

    /// The largest tree accepted, in bytes.
    pub closed spec fn spec_tree_size(&self) -> usize {
        self.tree_size
    }

    /// The largest payload accepted for `kind`; a head has no limit.
    pub open spec fn spec_size_limit(&self, kind: ObjectKind) -> Option<usize> {
        match kind {
            ObjectKind::Chunk => Some(self.spec_chunk_size()),
            ObjectKind::Block => Some(self.spec_block_size()),
            ObjectKind::Entry => Some(self.spec_entry_size()),
            ObjectKind::Tree => Some(self.spec_tree_size()),
            ObjectKind::Head => None,
        }
    }

    /// Whether a payload of `len` bytes is over the limit for `kind`.
    pub open spec fn too_long(&self, kind: ObjectKind, len: nat) -> bool {
        match self.spec_size_limit(kind) {
            Some(limit) => len > limit,
            None => false,
        }
    }

    /// Whether `payload` is the content that `hash` names under this
    /// context's algorithm.
    pub open spec fn names(&self, hash: Seq<u8>, payload: Seq<u8>) -> bool {
        self.spec_hash_algorithm().digest(payload) == hash
    }

    /// What a read of `hash` comes to once the backend's answer has been
    /// checked: a payload over the limit for its kind is an invalid length, a
    /// payload that `hash` does not name is an invalid hash, and every other
    /// answer stands as it is. The length is judged first.
    pub open spec fn certified<E>(
        &self,
        kind: ObjectKind,
        hash: Seq<u8>,
        answer: Result<Option<Bytes>, StorageReadError<E>>,
    ) -> Result<Option<Bytes>, StorageReadError<E>> {
        match answer {
            Ok(Some(payload)) => if self.too_long(kind, bytes_content(payload).len()) {
                Err(StorageReadError::InvalidLength)
            } else if !self.names(hash, bytes_content(payload)) {
                Err(StorageReadError::InvalidHash)
            } else {
                answer
            },
            _ => answer,
        }
    }

    /// A context with the given algorithm and limits.
    pub fn new(
        hash_algorithm: HashAlgorithm,
        chunk_size: usize,
        block_size: usize,
        entry_size: usize,
        tree_size: usize,
    ) -> (context: Context)
        ensures
            context.spec_hash_algorithm() == hash_algorithm,
            context.spec_chunk_size() == chunk_size,
            context.spec_block_size() == block_size,
            context.spec_entry_size() == entry_size,
            context.spec_tree_size() == tree_size,
    {
        Context { hash_algorithm, chunk_size, block_size, entry_size, tree_size }
    }

    /// The hash algorithm in force.
    pub fn hash_algorithm(&self) -> (algorithm: HashAlgorithm)
        ensures
            algorithm == self.spec_hash_algorithm(),
    {
        self.hash_algorithm
    }

    /// The largest chunk accepted, in bytes.
    pub fn chunk_size(&self) -> (size: usize)
        ensures
            size == self.spec_chunk_size(),
    {
        self.chunk_size
    }

    /// The largest block accepted, in bytes.
    pub fn block_size(&self) -> (size: usize)
        ensures
            size == self.spec_block_size(),
    {
        self.block_size
    }

    /// The largest entry accepted, in bytes.
    pub fn entry_size(&self) -> (size: usize)
        ensures
            size == self.spec_entry_size(),
    {
        self.entry_size
    }

    /// The largest tree accepted, in bytes.
    pub fn tree_size(&self) -> (size: usize)
        ensures
            size == self.spec_tree_size(),
    {
        self.tree_size
    }

    /// The largest payload accepted for `kind`; a head has no limit.
    pub fn size_limit(&self, kind: ObjectKind) -> (limit: Option<usize>)
        ensures
            limit == self.spec_size_limit(kind),
    {
        match kind {
            ObjectKind::Chunk => Some(self.chunk_size),
            ObjectKind::Block => Some(self.block_size),
            ObjectKind::Entry => Some(self.entry_size),
            ObjectKind::Tree => Some(self.tree_size),
            ObjectKind::Head => None,
        }
    }

    /// Holds a backend's answer against the hash that was asked for.
    ///
    /// This is the one checkpoint for every backend: no backend certifies its
    /// own answers, and whoever composes backends passes what they return
    /// through here before relying on it. A payload comes back as `Ok` only
    /// if it is within the limit for its kind and `hash` is its digest.
    pub fn certify<E>(
        &self,
        kind: ObjectKind,
        hash: &crate::hash::Hash,
        answer: Result<Option<Bytes>, StorageReadError<E>>,
    ) -> (checked: Result<Option<Bytes>, StorageReadError<E>>)
        requires
            answer matches Ok(Some(payload)) ==> bytes_content(payload).len() <= MAX_INPUT_LEN,
        ensures
            checked == self.certified(kind, hash@, answer),
            checked matches Ok(Some(payload)) ==> self.names(hash@, bytes_content(payload)),
    {
        match answer {
            Ok(Some(payload)) => {
                let data: &[u8] = payload.as_ref();
                let over = match self.size_limit(kind) {
                    Some(limit) => data.len() > limit,
                    None => false,
                };
                if over {
                    Err(StorageReadError::InvalidLength)
                } else if self.hash_algorithm.hash(data) != *hash {
                    Err(StorageReadError::InvalidHash)
                } else {
                    Ok(Some(payload))
                }
            },
            other => other,
        }
    }
}

impl Clone for Context {
    /// The same configuration.
    fn clone(&self) -> (copy: Context)
        ensures
            copy == *self,
    {
        Context {
            hash_algorithm: self.hash_algorithm,
            chunk_size: self.chunk_size,
            block_size: self.block_size,
            entry_size: self.entry_size,
            tree_size: self.tree_size,
        }
    }
}

/// Whatever passes the check is content-addressed: the hash asked for is the
/// digest of the payload handed back, and the payload is within its limit.
pub proof fn lemma_certified_is_addressed<E>(
    context: Context,
    kind: ObjectKind,
    hash: Seq<u8>,
    answer: Result<Option<Bytes>, StorageReadError<E>>,
)
    ensures
        context.certified(kind, hash, answer) matches Ok(Some(payload)) ==> {
            &&& answer == Ok::<Option<Bytes>, StorageReadError<E>>(Some(payload))
            &&& context.spec_hash_algorithm().digest(bytes_content(payload)) == hash
            &&& !context.too_long(kind, bytes_content(payload).len())
        },
{
}

/// Why a read failed.
#[derive(Debug)]
pub enum StorageReadError<E> {
    /// The payload is longer than the context allows for its kind.
    InvalidLength,
    /// The hash asked for is not the digest of the payload.
    InvalidHash,
    /// The backend failed in a way of its own.
    Other(E),
}

impl<E: Clone> Clone for StorageReadError<E> {
    /// The same error, the backend's own part cloned.
    fn clone(&self) -> (copy: StorageReadError<E>)
        ensures
            match (*self, copy) {
                (StorageReadError::InvalidLength, StorageReadError::InvalidLength) => true,
                (StorageReadError::InvalidHash, StorageReadError::InvalidHash) => true,
                (StorageReadError::Other(cause), StorageReadError::Other(other)) => cloned(
                    cause,
                    other,
                ),
                _ => false,
            },
    {
        match self {
            StorageReadError::InvalidLength => StorageReadError::InvalidLength,
            StorageReadError::InvalidHash => StorageReadError::InvalidHash,
            StorageReadError::Other(cause) => StorageReadError::Other(cause.clone()),
        }
    }
}

} // verus!
