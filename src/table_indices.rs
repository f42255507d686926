//! Typed indices into the file-system tables, so that an index into one table
//! cannot be used for another.
use vstd::prelude::*;

verus! {

/// The index of a row of `file_paths`.
#[derive(Clone, Copy, Debug, PartialEq, Eq, Structural, PartialOrd, Ord, Hash)]
pub struct FilePathIdx(pub u32);

impl From<FilePathIdx> for usize {
    fn from(index: FilePathIdx) -> (r: usize)
        ensures
            r == index.0,
    {
        index.0 as usize
    }
}

impl vstd::std_specs::convert::FromSpecImpl<FilePathIdx> for usize {
    open spec fn obeys_from_spec() -> bool {
        true
    }

    open spec fn from_spec(index: FilePathIdx) -> usize {
        index.0 as usize
    }
}

impl From<u32> for FilePathIdx {
    fn from(index: u32) -> (r: FilePathIdx)
        ensures
            r.0 == index,
    {
        FilePathIdx(index)
    }
}

impl vstd::std_specs::convert::FromSpecImpl<u32> for FilePathIdx {
    open spec fn obeys_from_spec() -> bool {
        true
    }

    open spec fn from_spec(index: u32) -> FilePathIdx {
        FilePathIdx(index)
    }
}

impl From<usize> for FilePathIdx {
    /// Keeps the low 32 bits of the index.
    fn from(index: usize) -> (r: FilePathIdx)
        ensures
            r.0 == index as int % 0x1_0000_0000,
    {
        FilePathIdx(((index as u64) % 0x1_0000_0000u64) as u32)
    }
}

impl vstd::std_specs::convert::FromSpecImpl<usize> for FilePathIdx {
    open spec fn obeys_from_spec() -> bool {
        true
    }

    open spec fn from_spec(index: usize) -> FilePathIdx {
        FilePathIdx((index as int % 0x1_0000_0000) as u32)
    }
}

/// The index of a row of `file_infos`.
#[derive(Clone, Copy, Debug, PartialEq, Eq, Structural, PartialOrd, Ord, Hash)]
pub struct FileInfoIdx(pub u32);

impl From<FileInfoIdx> for usize {
    fn from(index: FileInfoIdx) -> (r: usize)
        ensures
            r == index.0,
    {
        index.0 as usize
    }
}

impl vstd::std_specs::convert::FromSpecImpl<FileInfoIdx> for usize {
    open spec fn obeys_from_spec() -> bool {
        true
    }

    open spec fn from_spec(index: FileInfoIdx) -> usize {
        index.0 as usize
    }
}

impl From<u32> for FileInfoIdx {
    fn from(index: u32) -> (r: FileInfoIdx)
        ensures
            r.0 == index,
    {
        FileInfoIdx(index)
    }
}

impl vstd::std_specs::convert::FromSpecImpl<u32> for FileInfoIdx {
    open spec fn obeys_from_spec() -> bool {
        true
    }

    open spec fn from_spec(index: u32) -> FileInfoIdx {
        FileInfoIdx(index)
    }
}

impl From<usize> for FileInfoIdx {
    /// Keeps the low 32 bits of the index.
    fn from(index: usize) -> (r: FileInfoIdx)
        ensures
            r.0 == index as int % 0x1_0000_0000,
    {
        FileInfoIdx(((index as u64) % 0x1_0000_0000u64) as u32)
    }
}

impl vstd::std_specs::convert::FromSpecImpl<usize> for FileInfoIdx {
    open spec fn obeys_from_spec() -> bool {
        true
    }

    open spec fn from_spec(index: usize) -> FileInfoIdx {
        FileInfoIdx((index as int % 0x1_0000_0000) as u32)
    }
}

/// The index of a row of `file_info_indices`.
#[derive(Clone, Copy, Debug, PartialEq, Eq, Structural, PartialOrd, Ord, Hash)]
pub struct FileInfoIndiceIdx(pub u32);

impl From<FileInfoIndiceIdx> for usize {
    fn from(index: FileInfoIndiceIdx) -> (r: usize)
        ensures
            r == index.0,
    {
        index.0 as usize
    }
}

impl vstd::std_specs::convert::FromSpecImpl<FileInfoIndiceIdx> for usize {
    open spec fn obeys_from_spec() -> bool {
        true
    }

    open spec fn from_spec(index: FileInfoIndiceIdx) -> usize {
        index.0 as usize
    }
}

impl From<u32> for FileInfoIndiceIdx {
    fn from(index: u32) -> (r: FileInfoIndiceIdx)
        ensures
            r.0 == index,
    {
        FileInfoIndiceIdx(index)
    }
}

impl vstd::std_specs::convert::FromSpecImpl<u32> for FileInfoIndiceIdx {
    open spec fn obeys_from_spec() -> bool {
        true
    }

    open spec fn from_spec(index: u32) -> FileInfoIndiceIdx {
        FileInfoIndiceIdx(index)
    }
}

impl From<usize> for FileInfoIndiceIdx {
    /// Keeps the low 32 bits of the index.
    fn from(index: usize) -> (r: FileInfoIndiceIdx)
        ensures
            r.0 == index as int % 0x1_0000_0000,
    {
        FileInfoIndiceIdx(((index as u64) % 0x1_0000_0000u64) as u32)
    }
}

impl vstd::std_specs::convert::FromSpecImpl<usize> for FileInfoIndiceIdx {
    open spec fn obeys_from_spec() -> bool {
        true
    }

    open spec fn from_spec(index: usize) -> FileInfoIndiceIdx {
        FileInfoIndiceIdx((index as int % 0x1_0000_0000) as u32)
    }
}

/// The index of a row of `file_info_to_datas`.
#[derive(Clone, Copy, Debug, PartialEq, Eq, Structural, PartialOrd, Ord, Hash)]
pub struct InfoToDataIdx(pub u32);

impl From<InfoToDataIdx> for usize {
    fn from(index: InfoToDataIdx) -> (r: usize)
        ensures
            r == index.0,
    {
        index.0 as usize
    }
}

impl vstd::std_specs::convert::FromSpecImpl<InfoToDataIdx> for usize {
    open spec fn obeys_from_spec() -> bool {
        true
    }

    open spec fn from_spec(index: InfoToDataIdx) -> usize {
        index.0 as usize
    }
}

impl From<u32> for InfoToDataIdx {
    fn from(index: u32) -> (r: InfoToDataIdx)
        ensures
            r.0 == index,
    {
        InfoToDataIdx(index)
    }
}

impl vstd::std_specs::convert::FromSpecImpl<u32> for InfoToDataIdx {
    open spec fn obeys_from_spec() -> bool {
        true
    }

    open spec fn from_spec(index: u32) -> InfoToDataIdx {
        InfoToDataIdx(index)
    }
}

impl From<usize> for InfoToDataIdx {
    /// Keeps the low 32 bits of the index.
    fn from(index: usize) -> (r: InfoToDataIdx)
        ensures
            r.0 == index as int % 0x1_0000_0000,
    {
        InfoToDataIdx(((index as u64) % 0x1_0000_0000u64) as u32)
    }
}

impl vstd::std_specs::convert::FromSpecImpl<usize> for InfoToDataIdx {
    open spec fn obeys_from_spec() -> bool {
        true
    }

    open spec fn from_spec(index: usize) -> InfoToDataIdx {
        InfoToDataIdx((index as int % 0x1_0000_0000) as u32)
    }
}

/// The index of a row of `file_datas`.
#[derive(Clone, Copy, Debug, PartialEq, Eq, Structural, PartialOrd, Ord, Hash)]
pub struct FileDataIdx(pub u32);

impl From<FileDataIdx> for usize {
    fn from(index: FileDataIdx) -> (r: usize)
        ensures
            r == index.0,
    {
        index.0 as usize
    }
}

impl vstd::std_specs::convert::FromSpecImpl<FileDataIdx> for usize {
    open spec fn obeys_from_spec() -> bool {
        true
    }

    open spec fn from_spec(index: FileDataIdx) -> usize {
        index.0 as usize
    }
}

impl From<u32> for FileDataIdx {
    fn from(index: u32) -> (r: FileDataIdx)
        ensures
            r.0 == index,
    {
        FileDataIdx(index)
    }
}

impl vstd::std_specs::convert::FromSpecImpl<u32> for FileDataIdx {
    open spec fn obeys_from_spec() -> bool {
        true
    }

    open spec fn from_spec(index: u32) -> FileDataIdx {
        FileDataIdx(index)
    }
}

impl From<usize> for FileDataIdx {
    /// Keeps the low 32 bits of the index.
    fn from(index: usize) -> (r: FileDataIdx)
        ensures
            r.0 == index as int % 0x1_0000_0000,
    {
        FileDataIdx(((index as u64) % 0x1_0000_0000u64) as u32)
    }
}

impl vstd::std_specs::convert::FromSpecImpl<usize> for FileDataIdx {
    open spec fn obeys_from_spec() -> bool {
        true
    }

    open spec fn from_spec(index: usize) -> FileDataIdx {
        FileDataIdx((index as int % 0x1_0000_0000) as u32)
    }
}

} // verus!
