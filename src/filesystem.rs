//! The records of the file-system tables and their on-disk layout.
use vstd::prelude::*;

use crate::binary::{le_u16, le_u24, le_u32, le_u64, read_u16, read_u24, read_u32, read_u64, Record};
use crate::hash40::Hash40;
use crate::table_indices::{FileDataIdx, FileInfoIdx, FileInfoIndiceIdx, FilePathIdx, InfoToDataIdx};

verus! {

/// Precedes the compressed file system: its sizes, after the magic `0x10`.
#[derive(Clone, Copy, Debug, PartialEq, Eq, Structural)]
pub struct CompTableHeader {
    pub decomp_size: u32,
    pub comp_size: u32,
    pub section_size: u32,
}

/// The counts that size every table of the file system.
#[derive(Clone, Copy, Debug, PartialEq, Eq, Structural)]
pub struct FileSystemHeader {
    pub table_filesize: u32,
    pub file_info_path_count: u32,
    pub file_info_index_count: u32,
    pub folder_count: u32,
    pub folder_offset_count_1: u32,
    pub hash_folder_count: u32,
    pub file_info_count: u32,
    pub file_info_sub_index_count: u32,
    pub file_data_count: u32,
    pub folder_offset_count_2: u32,
    pub file_data_count_2: u32,
    pub padding: u32,
    pub unk1_10: u32,
    pub unk2_10: u32,
    pub regional_count_1: u8,
    pub regional_count_2: u8,
    pub padding2: u16,
    pub version: u32,
    pub extra_folder: u32,
    pub extra_count: u32,
    pub unk1: u32,
    pub unk2: u32,
    pub extra_count_2: u32,
    pub extra_sub_count: u32,
}

/// The counts of the stream section.
#[derive(Clone, Copy, Debug, PartialEq, Eq, Structural)]
pub struct StreamHeader {
    pub quick_dir_count: u32,
    pub stream_hash_count: u32,
    pub stream_file_index_count: u32,
    pub stream_offset_entry_count: u32,
}

/// A top-level stream directory: `count` stream entries from `index`.
#[derive(Clone, Copy, Debug, PartialEq, Eq, Structural)]
pub struct QuickDir {
    pub hash: u32,
    pub name_length: u8,
    /// 24 bits.
    pub count: u32,
    pub index: u32,
}

/// A stream file: its hash, and (24 bits) its row of `stream_file_indices`.
#[derive(Clone, Copy, Debug, PartialEq, Eq, Structural)]
pub struct StreamEntry {
    pub hash: u32,
    pub name_length: u8,
    /// 24 bits.
    pub index: u32,
    pub flags: u32,
}

/// A hash with the row (24 bits) of the table it leads to.
#[derive(Clone, Copy, Debug, PartialEq, Eq, Structural, Hash, Default)]
pub struct HashToIndex {
    pub hash: u32,
    pub length: u8,
    /// 24 bits.
    pub index: u32,
}

/// A slice of `file_hash_to_path_index`, one bucket of the path hash table.
#[derive(Clone, Copy, Debug, PartialEq, Eq, Structural)]
pub struct FileInfoBucket {
    pub start: u32,
    pub count: u32,
}

#[derive(Clone, Copy, Debug, PartialEq, Eq, Structural)]
pub struct FilePath {
    pub path: HashToIndex,
    pub ext: HashToIndex,
    pub parent: HashToIndex,
    pub file_name: HashToIndex,
}

#[derive(Clone, Copy, Debug, PartialEq, Eq, Structural)]
pub struct FileInfoIndex {
    pub dir_offset_index: u32,
    pub file_info_index: FileInfoIdx,
}

/// Flags of a directory: bit 26 `redirected`, bit 28 `is_symlink`.
#[derive(Clone, Copy, Debug, PartialEq, Eq, Structural, Hash)]
pub struct DirInfoFlags(pub u32);

/// A directory, also known as a mass-loading group.
#[derive(Clone, Copy, Debug, PartialEq, Eq, Structural)]
pub struct DirInfo {
    pub path: HashToIndex,
    pub name: Hash40,
    pub parent: Hash40,
    pub extra_dis_re: u32,
    pub extra_dis_re_length: u32,
    pub file_info_start_index: u32,
    pub file_count: u32,
    pub child_dir_start_index: u32,
    pub child_dir_count: u32,
    pub flags: DirInfoFlags,
}

/// Where a redirected directory leads.
#[derive(Clone, Copy, Debug)]
pub enum RedirectionType {
    Symlink(DirInfo),
    Shared(DirectoryOffset),
}

#[derive(Clone, Copy, Debug, PartialEq, Eq, Structural)]
pub struct StreamData {
    pub size: u64,
    pub offset: u64,
}

/// The backing region of a folder, also known as mass-loading data.
#[derive(Clone, Copy, Debug, PartialEq, Eq, Structural)]
pub struct DirectoryOffset {
    pub offset: u64,
    pub decomp_size: u32,
    pub size: u32,
    pub file_start_index: u32,
    pub file_count: u32,
    pub directory_index: u32,
}

#[derive(Clone, Copy, Debug, PartialEq, Eq, Structural)]
pub struct FileInfo {
    pub file_path_index: FilePathIdx,
    pub file_info_indice_index: FileInfoIndiceIdx,
    pub info_to_data_index: InfoToDataIdx,
    pub flags: FileInfoFlags,
}

/// Flags of a file: bit 4 `is_redirect`, bit 15 `is_regional`, bit 16 `is_localized`.
#[derive(Clone, Copy, Debug, PartialEq, Eq, Structural, Hash)]
pub struct FileInfoFlags(pub u32);

#[derive(Clone, Copy, Debug, PartialEq, Eq, Structural)]
pub struct FileInfoToFileData {
    pub folder_offset_index: u32,
    pub file_data_index: FileDataIdx,
    pub file_info_index_and_load_type: FileInfoToFileDataBitfield,
}

/// A file-info row (low 24 bits) and a load type (high 8 bits).
#[derive(Clone, Copy, Debug, PartialEq, Eq, Structural, Hash)]
pub struct FileInfoToFileDataBitfield(pub u32);

#[derive(Clone, Copy, Debug, PartialEq, Eq, Structural)]
pub struct FileData {
    pub offset_in_folder: u32,
    pub comp_size: u32,
    pub decomp_size: u32,
    pub flags: FileDataFlags,
}

/// Flags of a payload: bit 0 `compressed`, bit 1 `use_zstd`.
#[derive(Clone, Copy, Debug, PartialEq, Eq, Structural, Hash)]
pub struct FileDataFlags(pub u32);

impl HashToIndex {
    pub open spec fn spec_hash40(self) -> Hash40 {
        Hash40((self.hash as int + self.length as int * 0x1_0000_0000) as u64)
    }

    /// The hash with its length byte above it.
    pub fn hash40(&self) -> (r: Hash40)
        ensures
            r == self.spec_hash40(),
    {
        Hash40(self.hash as u64 + (self.length as u64) * 0x1_0000_0000u64)
    }
}

impl QuickDir {
    pub open spec fn spec_hash40(self) -> Hash40 {
        Hash40((self.hash as int + self.name_length as int * 0x1_0000_0000) as u64)
    }

    pub fn hash40(&self) -> (r: Hash40)
        ensures
            r == self.spec_hash40(),
    {
        Hash40(self.hash as u64 + (self.name_length as u64) * 0x1_0000_0000u64)
    }
}

impl StreamEntry {
    pub open spec fn spec_hash40(self) -> Hash40 {
        Hash40((self.hash as int + self.name_length as int * 0x1_0000_0000) as u64)
    }

    pub fn hash40(&self) -> (r: Hash40)
        ensures
            r == self.spec_hash40(),
    {
        Hash40(self.hash as u64 + (self.name_length as u64) * 0x1_0000_0000u64)
    }
}

impl PartialEq<Hash40> for HashToIndex {
    fn eq(&self, other: &Hash40) -> (r: bool)
        ensures
            r == (self.spec_hash40() == *other),
    {
        self.hash40().0 == other.0
    }
}

impl vstd::std_specs::cmp::PartialEqSpecImpl<Hash40> for HashToIndex {
    open spec fn obeys_eq_spec() -> bool {
        true
    }

    open spec fn eq_spec(&self, other: &Hash40) -> bool {
        self.spec_hash40() == *other
    }
}

impl DirInfoFlags {
    pub fn redirected(&self) -> (r: bool)
        ensures
            r == (self.0 & 0x400_0000 != 0),
    {
        self.0 & 0x400_0000 != 0
    }

    pub fn is_symlink(&self) -> (r: bool)
        ensures
            r == (self.0 & 0x1000_0000 != 0),
    {
        self.0 & 0x1000_0000 != 0
    }
}

impl FileInfoFlags {
    pub open spec fn spec_is_redirect(self) -> bool {
        self.0 & 0x10 != 0
    }

    pub open spec fn spec_is_regional(self) -> bool {
        self.0 & 0x8000 != 0
    }

    pub open spec fn spec_is_localized(self) -> bool {
        self.0 & 0x1_0000 != 0
    }

    pub fn is_redirect(&self) -> (r: bool)
        ensures
            r == self.spec_is_redirect(),
    {
        self.0 & 0x10 != 0
    }

    pub fn is_regional(&self) -> (r: bool)
        ensures
            r == self.spec_is_regional(),
    {
        self.0 & 0x8000 != 0
    }

    pub fn is_localized(&self) -> (r: bool)
        ensures
            r == self.spec_is_localized(),
    {
        self.0 & 0x1_0000 != 0
    }
}

impl FileInfoToFileDataBitfield {
    pub fn file_info_idx(&self) -> (r: u32)
        ensures
            r == self.0 % 0x100_0000,
    {
        self.0 % 0x100_0000
    }

    pub fn load_type(&self) -> (r: u8)
        ensures
            r == self.0 / 0x100_0000,
    {
        (self.0 / 0x100_0000) as u8
    }
}

impl FileDataFlags {
    pub open spec fn spec_compressed(self) -> bool {
        self.0 & 1 != 0
    }

    pub open spec fn spec_use_zstd(self) -> bool {
        self.0 & 2 != 0
    }

    pub fn compressed(&self) -> (r: bool)
        ensures
            r == self.spec_compressed(),
    {
        self.0 & 1 != 0
    }

    pub fn use_zstd(&self) -> (r: bool)
        ensures
            r == self.spec_use_zstd(),
    {
        self.0 & 2 != 0
    }
}

impl Record for HashToIndex {
    open spec fn spec_size() -> nat {
        8
    }

    open spec fn spec_decode(b: Seq<u8>, at: int) -> HashToIndex {
        HashToIndex { hash: le_u32(b, at), length: b[at + 4], index: le_u24(b, at + 5) }
    }

    fn size() -> (r: usize) {
        8
    }

    fn decode(b: &[u8], at: usize) -> (r: HashToIndex) {
        HashToIndex { hash: read_u32(b, at), length: b[at + 4], index: read_u24(b, at + 5) }
    }
}

impl Record for QuickDir {
    open spec fn spec_size() -> nat {
        12
    }

    open spec fn spec_decode(b: Seq<u8>, at: int) -> QuickDir {
        QuickDir {
            hash: le_u32(b, at),
            name_length: b[at + 4],
            count: le_u24(b, at + 5),
            index: le_u32(b, at + 8),
        }
    }

    fn size() -> (r: usize) {
        12
    }

    fn decode(b: &[u8], at: usize) -> (r: QuickDir) {
        QuickDir {
            hash: read_u32(b, at),
            name_length: b[at + 4],
            count: read_u24(b, at + 5),
            index: read_u32(b, at + 8),
        }
    }
}

impl Record for StreamEntry {
    open spec fn spec_size() -> nat {
        12
    }

    open spec fn spec_decode(b: Seq<u8>, at: int) -> StreamEntry {
        StreamEntry {
            hash: le_u32(b, at),
            name_length: b[at + 4],
            index: le_u24(b, at + 5),
            flags: le_u32(b, at + 8),
        }
    }

    fn size() -> (r: usize) {
        12
    }

    fn decode(b: &[u8], at: usize) -> (r: StreamEntry) {
        StreamEntry {
            hash: read_u32(b, at),
            name_length: b[at + 4],
            index: read_u24(b, at + 5),
            flags: read_u32(b, at + 8),
        }
    }
}

impl Record for u32 {
    open spec fn spec_size() -> nat {
        4
    }

    open spec fn spec_decode(b: Seq<u8>, at: int) -> u32 {
        le_u32(b, at)
    }

    fn size() -> (r: usize) {
        4
    }

    fn decode(b: &[u8], at: usize) -> (r: u32) {
        read_u32(b, at)
    }
}

impl Record for StreamData {
    open spec fn spec_size() -> nat {
        16
    }

    open spec fn spec_decode(b: Seq<u8>, at: int) -> StreamData {
        StreamData { size: le_u64(b, at), offset: le_u64(b, at + 8) }
    }

    fn size() -> (r: usize) {
        16
    }

    fn decode(b: &[u8], at: usize) -> (r: StreamData) {
        StreamData { size: read_u64(b, at), offset: read_u64(b, at + 8) }
    }
}

impl Record for FileInfoBucket {
    open spec fn spec_size() -> nat {
        8
    }

    open spec fn spec_decode(b: Seq<u8>, at: int) -> FileInfoBucket {
        FileInfoBucket { start: le_u32(b, at), count: le_u32(b, at + 4) }
    }

    fn size() -> (r: usize) {
        8
    }

    fn decode(b: &[u8], at: usize) -> (r: FileInfoBucket) {
        FileInfoBucket { start: read_u32(b, at), count: read_u32(b, at + 4) }
    }
}

impl Record for FilePath {
    open spec fn spec_size() -> nat {
        32
    }

    open spec fn spec_decode(b: Seq<u8>, at: int) -> FilePath {
        FilePath {
            path: HashToIndex::spec_decode(b, at),
            ext: HashToIndex::spec_decode(b, at + 8),
            parent: HashToIndex::spec_decode(b, at + 16),
            file_name: HashToIndex::spec_decode(b, at + 24),
        }
    }

    fn size() -> (r: usize) {
        32
    }

    fn decode(b: &[u8], at: usize) -> (r: FilePath) {
        FilePath {
            path: HashToIndex::decode(b, at),
            ext: HashToIndex::decode(b, at + 8),
            parent: HashToIndex::decode(b, at + 16),
            file_name: HashToIndex::decode(b, at + 24),
        }
    }
}

impl Record for FileInfoIndex {
    open spec fn spec_size() -> nat {
        8
    }

    open spec fn spec_decode(b: Seq<u8>, at: int) -> FileInfoIndex {
        FileInfoIndex {
            dir_offset_index: le_u32(b, at),
            file_info_index: FileInfoIdx(le_u32(b, at + 4)),
        }
    }

    fn size() -> (r: usize) {
        8
    }

    fn decode(b: &[u8], at: usize) -> (r: FileInfoIndex) {
        FileInfoIndex {
            dir_offset_index: read_u32(b, at),
            file_info_index: FileInfoIdx(read_u32(b, at + 4)),
        }
    }
}

impl Record for DirInfo {
    open spec fn spec_size() -> nat {
        52
    }

    open spec fn spec_decode(b: Seq<u8>, at: int) -> DirInfo {
        DirInfo {
            path: HashToIndex::spec_decode(b, at),
            name: Hash40(le_u64(b, at + 8)),
            parent: Hash40(le_u64(b, at + 16)),
            extra_dis_re: le_u32(b, at + 24),
            extra_dis_re_length: le_u32(b, at + 28),
            file_info_start_index: le_u32(b, at + 32),
            file_count: le_u32(b, at + 36),
            child_dir_start_index: le_u32(b, at + 40),
            child_dir_count: le_u32(b, at + 44),
            flags: DirInfoFlags(le_u32(b, at + 48)),
        }
    }

    fn size() -> (r: usize) {
        52
    }

    fn decode(b: &[u8], at: usize) -> (r: DirInfo) {
        DirInfo {
            path: HashToIndex::decode(b, at),
            name: Hash40(read_u64(b, at + 8)),
            parent: Hash40(read_u64(b, at + 16)),
            extra_dis_re: read_u32(b, at + 24),
            extra_dis_re_length: read_u32(b, at + 28),
            file_info_start_index: read_u32(b, at + 32),
            file_count: read_u32(b, at + 36),
            child_dir_start_index: read_u32(b, at + 40),
            child_dir_count: read_u32(b, at + 44),
            flags: DirInfoFlags(read_u32(b, at + 48)),
        }
    }
}

impl Record for DirectoryOffset {
    open spec fn spec_size() -> nat {
        28
    }

    open spec fn spec_decode(b: Seq<u8>, at: int) -> DirectoryOffset {
        DirectoryOffset {
            offset: le_u64(b, at),
            decomp_size: le_u32(b, at + 8),
            size: le_u32(b, at + 12),
            file_start_index: le_u32(b, at + 16),
            file_count: le_u32(b, at + 20),
            directory_index: le_u32(b, at + 24),
        }
    }

    fn size() -> (r: usize) {
        28
    }

    fn decode(b: &[u8], at: usize) -> (r: DirectoryOffset) {
        DirectoryOffset {
            offset: read_u64(b, at),
            decomp_size: read_u32(b, at + 8),
            size: read_u32(b, at + 12),
            file_start_index: read_u32(b, at + 16),
            file_count: read_u32(b, at + 20),
            directory_index: read_u32(b, at + 24),
        }
    }
}

impl Record for FileInfo {
    open spec fn spec_size() -> nat {
        16
    }

    open spec fn spec_decode(b: Seq<u8>, at: int) -> FileInfo {
        FileInfo {
            file_path_index: FilePathIdx(le_u32(b, at)),
            file_info_indice_index: FileInfoIndiceIdx(le_u32(b, at + 4)),
            info_to_data_index: InfoToDataIdx(le_u32(b, at + 8)),
            flags: FileInfoFlags(le_u32(b, at + 12)),
        }
    }

    fn size() -> (r: usize) {
        16
    }

    fn decode(b: &[u8], at: usize) -> (r: FileInfo) {
        FileInfo {
            file_path_index: FilePathIdx(read_u32(b, at)),
            file_info_indice_index: FileInfoIndiceIdx(read_u32(b, at + 4)),
            info_to_data_index: InfoToDataIdx(read_u32(b, at + 8)),
            flags: FileInfoFlags(read_u32(b, at + 12)),
        }
    }
}

impl Record for FileInfoToFileData {
    open spec fn spec_size() -> nat {
        12
    }

    open spec fn spec_decode(b: Seq<u8>, at: int) -> FileInfoToFileData {
        FileInfoToFileData {
            folder_offset_index: le_u32(b, at),
            file_data_index: FileDataIdx(le_u32(b, at + 4)),
            file_info_index_and_load_type: FileInfoToFileDataBitfield(le_u32(b, at + 8)),
        }
    }

    fn size() -> (r: usize) {
        12
    }

    fn decode(b: &[u8], at: usize) -> (r: FileInfoToFileData) {
        FileInfoToFileData {
            folder_offset_index: read_u32(b, at),
            file_data_index: FileDataIdx(read_u32(b, at + 4)),
            file_info_index_and_load_type: FileInfoToFileDataBitfield(read_u32(b, at + 8)),
        }
    }
}

impl Record for FileData {
    open spec fn spec_size() -> nat {
        16
    }

    open spec fn spec_decode(b: Seq<u8>, at: int) -> FileData {
        FileData {
            offset_in_folder: le_u32(b, at),
            comp_size: le_u32(b, at + 4),
            decomp_size: le_u32(b, at + 8),
            flags: FileDataFlags(le_u32(b, at + 12)),
        }
    }

    fn size() -> (r: usize) {
        16
    }

    fn decode(b: &[u8], at: usize) -> (r: FileData) {
        FileData {
            offset_in_folder: read_u32(b, at),
            comp_size: read_u32(b, at + 4),
            decomp_size: read_u32(b, at + 8),
            flags: FileDataFlags(read_u32(b, at + 12)),
        }
    }
}

impl Record for StreamHeader {
    open spec fn spec_size() -> nat {
        16
    }

    open spec fn spec_decode(b: Seq<u8>, at: int) -> StreamHeader {
        StreamHeader {
            quick_dir_count: le_u32(b, at),
            stream_hash_count: le_u32(b, at + 4),
            stream_file_index_count: le_u32(b, at + 8),
            stream_offset_entry_count: le_u32(b, at + 12),
        }
    }

    fn size() -> (r: usize) {
        16
    }

    fn decode(b: &[u8], at: usize) -> (r: StreamHeader) {
        StreamHeader {
            quick_dir_count: read_u32(b, at),
            stream_hash_count: read_u32(b, at + 4),
            stream_file_index_count: read_u32(b, at + 8),
            stream_offset_entry_count: read_u32(b, at + 12),
        }
    }
}

impl Record for FileSystemHeader {
    open spec fn spec_size() -> nat {
        88
    }

    open spec fn spec_decode(b: Seq<u8>, at: int) -> FileSystemHeader {
        FileSystemHeader {
            table_filesize: le_u32(b, at),
            file_info_path_count: le_u32(b, at + 4),
            file_info_index_count: le_u32(b, at + 8),
            folder_count: le_u32(b, at + 12),
            folder_offset_count_1: le_u32(b, at + 16),
            hash_folder_count: le_u32(b, at + 20),
            file_info_count: le_u32(b, at + 24),
            file_info_sub_index_count: le_u32(b, at + 28),
            file_data_count: le_u32(b, at + 32),
            folder_offset_count_2: le_u32(b, at + 36),
            file_data_count_2: le_u32(b, at + 40),
            padding: le_u32(b, at + 44),
            unk1_10: le_u32(b, at + 48),
            unk2_10: le_u32(b, at + 52),
            regional_count_1: b[at + 56],
            regional_count_2: b[at + 57],
            padding2: le_u16(b, at + 58),
            version: le_u32(b, at + 60),
            extra_folder: le_u32(b, at + 64),
            extra_count: le_u32(b, at + 68),
            unk1: le_u32(b, at + 72),
            unk2: le_u32(b, at + 76),
            extra_count_2: le_u32(b, at + 80),
            extra_sub_count: le_u32(b, at + 84),
        }
    }

    fn size() -> (r: usize) {
        88
    }

    fn decode(b: &[u8], at: usize) -> (r: FileSystemHeader) {
        FileSystemHeader {
            table_filesize: read_u32(b, at),
            file_info_path_count: read_u32(b, at + 4),
            file_info_index_count: read_u32(b, at + 8),
            folder_count: read_u32(b, at + 12),
            folder_offset_count_1: read_u32(b, at + 16),
            hash_folder_count: read_u32(b, at + 20),
            file_info_count: read_u32(b, at + 24),
            file_info_sub_index_count: read_u32(b, at + 28),
            file_data_count: read_u32(b, at + 32),
            folder_offset_count_2: read_u32(b, at + 36),
            file_data_count_2: read_u32(b, at + 40),
            padding: read_u32(b, at + 44),
            unk1_10: read_u32(b, at + 48),
            unk2_10: read_u32(b, at + 52),
            regional_count_1: b[at + 56],
            regional_count_2: b[at + 57],
            padding2: read_u16(b, at + 58),
            version: read_u32(b, at + 60),
            extra_folder: read_u32(b, at + 64),
            extra_count: read_u32(b, at + 68),
            unk1: read_u32(b, at + 72),
            unk2: read_u32(b, at + 76),
            extra_count_2: read_u32(b, at + 80),
            extra_sub_count: read_u32(b, at + 84),
        }
    }
}

/// The four hashes of a path in the search section.
#[derive(Clone, Copy, Debug, PartialEq, Eq, Structural)]
pub struct SearchListEntry {
    pub path: HashToIndex,
    pub parent: HashToIndex,
    pub file_name: HashToIndex,
    pub ext: HashToIndex,
}

/// A search entry of a file or a directory.
#[derive(Clone, Copy, Debug, PartialEq, Eq, Structural)]
pub struct PathListEntry(pub SearchListEntry);

/// A search entry of a directory: its parent index holds its child count and
/// its extension hash its first child.
#[derive(Clone, Copy, Debug, PartialEq, Eq, Structural)]
pub struct FolderPathListEntry(pub SearchListEntry);

/// Bit 22 of a parent index marks a directory.
pub const DIRECTORY_MARK: u32 = 0x40_0000;

/// The largest 24-bit index, which marks "no index".
pub const NO_INDEX: u32 = 0xFF_FFFF;

impl PathListEntry {
    pub fn is_directory(&self) -> (r: bool)
        ensures
            r == (self.0.parent.index & DIRECTORY_MARK != 0),
    {
        self.0.parent.index & DIRECTORY_MARK != 0
    }

    /// The same entry as a directory: no path index, the directory mark as
    /// parent index, and an extension of all ones.
    pub fn as_folder_entry(&self) -> (r: FolderPathListEntry)
        ensures
            r.0 == (SearchListEntry {
                path: HashToIndex { index: NO_INDEX, ..self.0.path },
                parent: HashToIndex { index: DIRECTORY_MARK, ..self.0.parent },
                ext: HashToIndex { hash: 0xFFFF_FFFF, length: 0, index: 0 },
                file_name: self.0.file_name,
            }),
    {
        let mut path = self.0.path;
        path.index = NO_INDEX;
        let mut parent = self.0.parent;
        parent.index = DIRECTORY_MARK;
        let ext = HashToIndex { hash: 0xFFFF_FFFF, length: 0, index: 0 };
        FolderPathListEntry(SearchListEntry { path, parent, ext, file_name: self.0.file_name })
    }
}

impl FolderPathListEntry {
    pub fn get_child_count(&self) -> (r: usize)
        ensures
            r == self.0.parent.index,
    {
        self.0.parent.index as usize
    }

    /// The low 24 bits of the extension hash.
    pub fn get_first_child_index(&self) -> (r: usize)
        ensures
            r == self.0.ext.hash % 0x100_0000,
    {
        (self.0.ext.hash % 0x100_0000) as usize
    }

    /// The same entry as a plain path: no path index, the directory mark as
    /// parent index, and an extension of all zeros.
    pub fn as_path_entry(&self) -> (r: PathListEntry)
        ensures
            r.0 == (SearchListEntry {
                path: HashToIndex { index: NO_INDEX, ..self.0.path },
                parent: HashToIndex { index: DIRECTORY_MARK, ..self.0.parent },
                ext: HashToIndex { hash: 0, length: 0, index: 0 },
                file_name: self.0.file_name,
            }),
    {
        let mut path = self.0.path;
        path.index = NO_INDEX;
        let mut parent = self.0.parent;
        parent.index = DIRECTORY_MARK;
        let ext = HashToIndex { hash: 0, length: 0, index: 0 };
        PathListEntry(SearchListEntry { path, parent, ext, file_name: self.0.file_name })
    }

    /// Stores the low 24 bits of `idx` as the extension hash.
    pub fn set_first_child_index(&mut self, idx: u32)
        ensures
            final(self).0 == (SearchListEntry {
                ext: HashToIndex { hash: idx % 0x100_0000, ..old(self).0.ext },
                ..old(self).0
            }),
    {
        self.0.ext.hash = idx % 0x100_0000;
    }
}

impl QuickDir {
    /// The rows of `stream_entries` that the directory lists.
    pub fn range(&self) -> (r: std::ops::Range<usize>)
        requires
            self.index + self.count <= usize::MAX,
        ensures
            r.start == self.index,
            r.end == self.index + self.count,
    {
        let start = self.index as usize;
        start..start + self.count as usize
    }
}

impl FileInfoBucket {
    /// The rows of `file_hash_to_path_index` in the bucket.
    pub fn range(&self) -> (r: std::ops::Range<usize>)
        requires
            self.start + self.count <= usize::MAX,
        ensures
            r.start == self.start,
            r.end == self.start + self.count,
    {
        let start = self.start as usize;
        start..start + self.count as usize
    }
}

} // verus!
