//! Filesystem-entry records and the builder that starts one.

use crate::buffer::bytes_content;
use bytes::Bytes;
use vstd::prelude::*;

verus! {

/// Collects what is needed to generate an entry.
pub struct EntryBuilder {
    name: String,
}

impl View for EntryBuilder {
    type V = Seq<char>;

    /// The name the entry will carry.
    closed spec fn view(&self) -> Seq<char> {
        self.name@
    }
}

impl EntryBuilder {
    /// A builder for an entry called `name`.
    pub fn new(name: &str) -> (builder: EntryBuilder)
        ensures
            builder@ == name@,
    {
        EntryBuilder { name: name.to_owned() }
    }

    /// The name given to the builder.
    pub fn name(&self) -> (name: &str)
        ensures
            name@ == self@,
    {
        self.name.as_str()
    }
}

/// An entry record, held as the bytes it was stored as.
pub struct Entry {
    data: Bytes,
}

impl View for Entry {
    type V = Seq<u8>;

    /// The bytes of the record.
    closed spec fn view(&self) -> Seq<u8> {
        bytes_content(self.data)
    }
}

impl Entry {
    /// The entry stored as `data`.
    pub fn new(data: Bytes) -> (entry: Entry)
        ensures
            entry@ == bytes_content(data),
    {
        Entry { data }
    }

    /// The entry's name: a handle on the record's bytes, which are not copied.
    pub fn name(&self) -> (name: Bytes)
        ensures
            bytes_content(name) == self@,
    {
        self.data.clone()
    }
}

} // verus!
