//! Reading the table-driven, zstd-compressed `data.arc` archive: the container
//! header, the file-system tables, and the resolution of path hashes to payloads.

use vstd::prelude::*;

pub mod arc_file;
mod binary;
pub mod dir_listing;
pub mod error;
pub mod filesystem;
pub mod hash40;
pub mod hash_labels;
pub mod lookups;
pub mod region;
pub mod search;
pub mod table_indices;
pub mod tables;
mod text;
pub mod zstd_backend;

pub use arc_file::{ArcFile, ArcHeader, MemoryReader, SeekRead};
pub use dir_listing::{dir_listing_flat, generate_dir_listing, parents_of_dir, DirTree};
pub use error::{IoErrorKind, LookupError, ParseError};
pub use filesystem::{
    CompTableHeader, DirInfo, DirInfoFlags, DirectoryOffset, FileData, FileDataFlags, FileInfo,
    FileInfoBucket, FileInfoFlags, FileInfoIndex, FileInfoToFileData, FileInfoToFileDataBitfield,
    FilePath, FileSystemHeader, FolderPathListEntry, HashToIndex, PathListEntry, QuickDir,
    RedirectionType, SearchListEntry, StreamData, StreamEntry, StreamHeader,
};
pub use hash40::{hash40, hash40_from_bytes, Hash40, Hash40String};
pub use hash_labels::HashLabels;
pub use lookups::FileMetadata;
pub use region::{Locale, Region};
pub use search::SearchCache;
pub use table_indices::{FileDataIdx, FileInfoIdx, FileInfoIndiceIdx, FilePathIdx, InfoToDataIdx};
pub use tables::FileSystem;

verus! {

/// A node of the directory tree: the hash of a directory or of a file.
#[derive(Clone, Copy, Debug, PartialEq, Eq, Structural, PartialOrd, Ord)]
pub enum FileNode {
    Dir(Hash40),
    File(Hash40),
}

} // verus!
