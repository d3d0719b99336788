use vstd::prelude::*;

use crate::output::append_bytes;

verus! {

/// A size hint below this keeps a builder in memory; otherwise it writes to a file.
pub const BUILDER_MEMORY_LIMIT: usize = 256 * 1024;

/// Kind of a data value.
#[derive(Clone, Copy, Debug, PartialEq, Eq, Structural)]
pub enum DataType {
    Blob,
    Directory,
}

/// Where the bytes of a finished data value are.
#[derive(Debug)]
pub enum Storage {
    Memory(Vec<u8>),
    Path(String),
}

/// A finished, immutable data value.
#[derive(Debug)]
pub struct Data {
    pub storage: Storage,
    pub data_type: DataType,
}

impl Data {
    pub fn new(storage: Storage, data_type: DataType) -> (r: Data)
        ensures
            r.storage == storage,
            r.data_type == data_type,
    {
        Data { storage, data_type }
    }

    pub fn storage(&self) -> (r: &Storage)
        ensures
            *r == self.storage,
    {
        &self.storage
    }

    pub fn is_blob(&self) -> (r: bool)
        ensures
            r == (self.data_type == DataType::Blob),
    {
        self.data_type == DataType::Blob
    }
}

/// Whether a builder with this size hint keeps its bytes in memory.
pub open spec fn selects_memory(expected_size: Option<usize>) -> bool {
    match expected_size {
        Some(size) => size < BUILDER_MEMORY_LIMIT,
        None => false,
    }
}

/// The bytes that ingesting `data` adds: its own bytes when in memory, else the
/// contents of its file as read through `mapped`.
pub open spec fn blob_bytes(data: Data, mapped: Option<&[u8]>) -> Seq<u8> {
    match data.storage {
        Storage::Memory(v) => v@,
        Storage::Path(_) => match mapped {
            Some(m) => m@,
            None => Seq::empty(),
        },
    }
}

/// Ingesting a blob held in memory, and one held in a file with the same bytes read
/// through a mapping, add the same bytes to a builder.
pub proof fn lemma_zero_copy_equivalence(
    held: Seq<u8>,
    in_memory: Data,
    any_view: Option<&[u8]>,
    in_file: Data,
    mapped: &[u8],
)
    requires
        in_memory.storage matches Storage::Memory(v) && v@ == mapped@,
        in_file.storage is Path,
    ensures
        held + blob_bytes(in_memory, any_view) == held + blob_bytes(in_file, Some(mapped)),
{
}

/// Backing store of a builder, chosen once at construction.
#[derive(Debug)]
pub enum BuilderStorage {
    Memory(Vec<u8>),
    /// A temporary file, by its path
    File(String),
}

/// Accumulates the bytes of a new data value, in memory or in a temporary file.
pub struct DataBuilder {
    pub storage: BuilderStorage,
    pub data_type: DataType,
    /// Bytes handed to the temporary file while file-backed
    pub file_content: Ghost<Seq<u8>>,
}

impl DataBuilder {
    pub open spec fn in_memory(&self) -> bool {
        self.storage is Memory
    }

    /// The bytes written so far.
    pub open spec fn content(&self) -> Seq<u8> {
        match self.storage {
            BuilderStorage::Memory(v) => v@,
            BuilderStorage::File(_) => self.file_content@,
        }
    }

    /// Create a builder. With a size hint under the limit it keeps its bytes in memory;
    /// otherwise they go to the temporary file at `temp_file`.
    pub fn new(temp_file: String, data_type: DataType, expected_size: Option<usize>) -> (r: DataBuilder)
        ensures
            r.in_memory() == selects_memory(expected_size),
            !r.in_memory() ==> r.storage == BuilderStorage::File(temp_file),
            r.content() == Seq::<u8>::empty(),
            r.data_type == data_type,
    {
        let storage = match expected_size {
            Some(size) => {
                if size < BUILDER_MEMORY_LIMIT {
                    BuilderStorage::Memory(Vec::with_capacity(size))
                } else {
                    BuilderStorage::File(temp_file)
                }
            },
            None => BuilderStorage::File(temp_file),
        };
        DataBuilder { storage, data_type, file_content: Ghost(Seq::empty()) }
    }

    /// Whether the bytes are kept in memory.
    pub fn is_memory_backed(&self) -> (r: bool)
        ensures
            r == self.in_memory(),
    {
        match self.storage {
            BuilderStorage::Memory(_) => true,
            BuilderStorage::File(_) => false,
        }
    }

    /// Append `data`. Returns whether the caller must append it to the temporary file.
    pub fn write(&mut self, data: &[u8]) -> (to_file: bool)
        ensures
            final(self).content() == old(self).content() + data@,
            final(self).in_memory() == old(self).in_memory(),
            final(self).data_type == old(self).data_type,
            !final(self).in_memory() ==> final(self).storage == old(self).storage,
            to_file == !old(self).in_memory(),
    {
        match &mut self.storage {
            BuilderStorage::Memory(buffer) => {
                append_bytes(buffer, data);
                false
            },
            BuilderStorage::File(_) => {
                self.file_content = Ghost(self.file_content@ + data@);
                true
            },
        }
    }

    /// Append the bytes of a finished value of the builder's kind. A value in a file is
    /// read through `mapped`, a read-only view of that file. Returns whether the caller
    /// must append those bytes to the temporary file.
    pub fn write_blob(&mut self, data: &Data, mapped: Option<&[u8]>) -> (to_file: bool)
        requires
            old(self).data_type == data.data_type,
            data.storage is Path ==> mapped is Some,
        ensures
            final(self).content() == old(self).content() + blob_bytes(*data, mapped),
            final(self).in_memory() == old(self).in_memory(),
            final(self).data_type == old(self).data_type,
            !final(self).in_memory() ==> final(self).storage == old(self).storage,
            to_file == !old(self).in_memory(),
    {
        match data.storage() {
            Storage::Memory(bytes) => self.write(bytes.as_slice()),
            Storage::Path(_) => match mapped {
                Some(m) => self.write(m),
                None => {
                    proof {
                        assert(false);
                    }
                    false
                },
            },
        }
    }

    /// Finish the value. Bytes in memory move into it, leaving the builder empty; a
    /// file-backed builder yields the path of its temporary file.
    pub fn build(&mut self) -> (r: Data)
        ensures
            r.data_type == old(self).data_type,
            final(self).data_type == old(self).data_type,
            final(self).in_memory() == old(self).in_memory(),
            old(self).in_memory() ==> (r.storage matches Storage::Memory(v) && v@ == old(
                self,
            ).content() && final(self).content() == Seq::<u8>::empty()),
            !old(self).in_memory() ==> (old(self).storage matches BuilderStorage::File(p)
                && r.storage == Storage::Path(p) && final(self).storage == old(self).storage),
    {
        match &mut self.storage {
            BuilderStorage::Memory(buffer) => {
                let mut bytes = Vec::new();
                core::mem::swap(&mut bytes, buffer);
                Data::new(Storage::Memory(bytes), self.data_type)
            },
            BuilderStorage::File(path) => Data::new(Storage::Path(path.clone()), self.data_type),
        }
    }
}

} // verus!
