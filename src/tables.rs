//! The decompressed file system: its tables, where each lies in the buffer,
//! and the conditions under which every cross-index stays in range.
use vstd::prelude::*;

use crate::binary::{le_u32, read_table, read_u32, table, Record};
use crate::error::ParseError;
use crate::filesystem::{
    DirInfo, DirectoryOffset, FileData, FileInfo, FileInfoBucket, FileInfoIndex, FileInfoToFileData,
    FilePath, FileSystemHeader, HashToIndex, QuickDir, StreamData, StreamEntry, StreamHeader,
};

verus! {

/// The file system itself: paths, file data, directories and streams, linked by index.
#[derive(Debug)]
pub struct FileSystem {
    pub fs_header: FileSystemHeader,
    pub stream_header: StreamHeader,
    pub quick_dirs: Vec<QuickDir>,
    pub stream_hash_to_entries: Vec<HashToIndex>,
    pub stream_entries: Vec<StreamEntry>,
    pub stream_file_indices: Vec<u32>,
    pub stream_datas: Vec<StreamData>,
    pub file_info_buckets: Vec<FileInfoBucket>,
    pub file_hash_to_path_index: Vec<HashToIndex>,
    pub file_paths: Vec<FilePath>,
    pub file_info_indices: Vec<FileInfoIndex>,
    pub dir_hash_to_info_index: Vec<HashToIndex>,
    pub dir_infos: Vec<DirInfo>,
    pub folder_offsets: Vec<DirectoryOffset>,
    pub folder_child_hashes: Vec<HashToIndex>,
    pub file_infos: Vec<FileInfo>,
    pub file_info_to_datas: Vec<FileInfoToFileData>,
    pub file_datas: Vec<FileData>,
}

/// The tables of a `FileSystem` as sequences.
pub struct FsView {
    pub fs_header: FileSystemHeader,
    pub stream_header: StreamHeader,
    pub quick_dirs: Seq<QuickDir>,
    pub stream_hash_to_entries: Seq<HashToIndex>,
    pub stream_entries: Seq<StreamEntry>,
    pub stream_file_indices: Seq<u32>,
    pub stream_datas: Seq<StreamData>,
    pub file_info_buckets: Seq<FileInfoBucket>,
    pub file_hash_to_path_index: Seq<HashToIndex>,
    pub file_paths: Seq<FilePath>,
    pub file_info_indices: Seq<FileInfoIndex>,
    pub dir_hash_to_info_index: Seq<HashToIndex>,
    pub dir_infos: Seq<DirInfo>,
    pub folder_offsets: Seq<DirectoryOffset>,
    pub folder_child_hashes: Seq<HashToIndex>,
    pub file_infos: Seq<FileInfo>,
    pub file_info_to_datas: Seq<FileInfoToFileData>,
    pub file_datas: Seq<FileData>,
}

impl View for FileSystem {
    type V = FsView;

    open spec fn view(&self) -> FsView {
        FsView {
            fs_header: self.fs_header,
            stream_header: self.stream_header,
            quick_dirs: self.quick_dirs@,
            stream_hash_to_entries: self.stream_hash_to_entries@,
            stream_entries: self.stream_entries@,
            stream_file_indices: self.stream_file_indices@,
            stream_datas: self.stream_datas@,
            file_info_buckets: self.file_info_buckets@,
            file_hash_to_path_index: self.file_hash_to_path_index@,
            file_paths: self.file_paths@,
            file_info_indices: self.file_info_indices@,
            dir_hash_to_info_index: self.dir_hash_to_info_index@,
            dir_infos: self.dir_infos@,
            folder_offsets: self.folder_offsets@,
            folder_child_hashes: self.folder_child_hashes@,
            file_infos: self.file_infos@,
            file_info_to_datas: self.file_info_to_datas@,
            file_datas: self.file_datas@,
        }
    }
}

/// Hashes in `t[start..end]` strictly ascend.
pub open spec fn strictly_ascending(t: Seq<HashToIndex>, start: int, end: int) -> bool {
    forall|j: int, k: int|
        start <= j < k < end ==> (#[trigger] t[j].spec_hash40()).0 < (#[trigger] t[k].spec_hash40()).0
}

/// The buckets cover rows `0..n` back to back, without overlap.
pub open spec fn buckets_tile(b: Seq<FileInfoBucket>, n: int) -> bool {
    &&& forall|i: int| 0 < i < b.len() ==> (#[trigger] b[i]).start == b[i - 1].start + b[i - 1].count
    &&& if b.len() == 0 {
        n == 0
    } else {
        b[0].start == 0 && b.last().start + b.last().count == n
    }
}

/// Every `index` of `t` is below `bound`.
pub open spec fn indices_below(t: Seq<HashToIndex>, bound: int) -> bool {
    forall|i: int| 0 <= i < t.len() ==> (#[trigger] t[i]).index < bound
}

/// A regional file has one row of `file_info_to_datas` for each region, from
/// `info_to_data_index` on; any other file has one.
pub open spec fn info_rows_in_range(info: FileInfo, rows: int) -> bool {
    if info.flags.spec_is_regional() {
        info.info_to_data_index.0 + 14 < rows
    } else {
        info.info_to_data_index.0 < rows
    }
}

impl FsView {
    pub open spec fn bucket_ok(self, b: FileInfoBucket) -> bool {
        &&& b.start + b.count <= self.file_hash_to_path_index.len()
        &&& strictly_ascending(self.file_hash_to_path_index, b.start as int, b.start + b.count)
    }

    /// Every stored index lies within the table it refers to, and the hash
    /// tables that are binary-searched are sorted.
    pub open spec fn wf(self) -> bool {
        &&& self.file_info_buckets.len() <= usize::MAX
        &&& buckets_tile(self.file_info_buckets, self.file_hash_to_path_index.len() as int)
        &&& forall|i: int| 0 <= i < self.file_info_buckets.len() ==> self.bucket_ok(#[trigger] self.file_info_buckets[i])
        &&& indices_below(self.file_hash_to_path_index, self.file_paths.len() as int)
        &&& forall|i: int| 0 <= i < self.file_paths.len()
            ==> (#[trigger] self.file_paths[i]).path.index < self.file_info_indices.len()
        &&& forall|i: int| 0 <= i < self.file_info_indices.len()
            ==> (#[trigger] self.file_info_indices[i]).file_info_index.0 < self.file_infos.len()
        &&& forall|i: int| 0 <= i < self.file_infos.len()
            ==> info_rows_in_range(#[trigger] self.file_infos[i], self.file_info_to_datas.len() as int)
        &&& forall|i: int| 0 <= i < self.file_info_to_datas.len()
            ==> (#[trigger] self.file_info_to_datas[i]).file_data_index.0 < self.file_datas.len()
                && self.file_info_to_datas[i].folder_offset_index < self.folder_offsets.len()
        &&& forall|i: int| 0 <= i < self.stream_entries.len()
            ==> (#[trigger] self.stream_entries[i]).index < self.stream_file_indices.len()
        &&& forall|i: int| 0 <= i < self.stream_file_indices.len()
            ==> #[trigger] self.stream_file_indices[i] < self.stream_datas.len()
        &&& forall|i: int| 0 <= i < self.quick_dirs.len()
            ==> (#[trigger] self.quick_dirs[i]).index + self.quick_dirs[i].count <= self.stream_entries.len()
        &&& strictly_ascending(self.dir_hash_to_info_index, 0, self.dir_hash_to_info_index.len() as int)
        &&& indices_below(self.dir_hash_to_info_index, self.dir_infos.len() as int)
    }
}

pub open spec fn fs_header_of(b: Seq<u8>) -> FileSystemHeader {
    FileSystemHeader::spec_decode(b, 0)
}

/// The stream header follows the file-system header, aligned to 0x100.
pub open spec fn stream_header_of(b: Seq<u8>) -> StreamHeader {
    StreamHeader::spec_decode(b, 0x100)
}

pub open spec fn folder_offsets_count(h: FileSystemHeader) -> int {
    h.folder_offset_count_1 + h.folder_offset_count_2 + h.extra_folder
}

pub open spec fn file_infos_count(h: FileSystemHeader) -> int {
    h.file_info_count + h.file_data_count_2 + h.extra_count
}

pub open spec fn info_to_datas_count(h: FileSystemHeader) -> int {
    h.file_info_sub_index_count + h.file_data_count_2 + h.extra_count_2
}

pub open spec fn file_datas_count(h: FileSystemHeader) -> int {
    h.file_data_count + h.file_data_count_2 + h.extra_sub_count
}

pub open spec fn quick_dirs_at() -> int {
    0x110
}

pub open spec fn stream_hash_to_entries_at(b: Seq<u8>) -> int {
    quick_dirs_at() + stream_header_of(b).quick_dir_count * 12
}

pub open spec fn stream_entries_at(b: Seq<u8>) -> int {
    stream_hash_to_entries_at(b) + stream_header_of(b).stream_hash_count * 8
}

pub open spec fn stream_file_indices_at(b: Seq<u8>) -> int {
    stream_entries_at(b) + stream_header_of(b).stream_hash_count * 12
}

pub open spec fn stream_datas_at(b: Seq<u8>) -> int {
    stream_file_indices_at(b) + stream_header_of(b).stream_file_index_count * 4
}

/// Where the two inline counts stand: the hash-group count, then the bucket count.
pub open spec fn group_counts_at(b: Seq<u8>) -> int {
    stream_datas_at(b) + stream_header_of(b).stream_offset_entry_count * 16
}

pub open spec fn hash_group_count(b: Seq<u8>) -> u32 {
    le_u32(b, group_counts_at(b))
}

pub open spec fn bucket_count(b: Seq<u8>) -> u32 {
    le_u32(b, group_counts_at(b) + 4)
}

pub open spec fn buckets_at(b: Seq<u8>) -> int {
    group_counts_at(b) + 8
}

pub open spec fn file_hash_to_path_index_at(b: Seq<u8>) -> int {
    buckets_at(b) + bucket_count(b) * 8
}

pub open spec fn file_paths_at(b: Seq<u8>) -> int {
    file_hash_to_path_index_at(b) + hash_group_count(b) * 8
}

pub open spec fn file_info_indices_at(b: Seq<u8>) -> int {
    file_paths_at(b) + fs_header_of(b).file_info_path_count * 32
}

pub open spec fn dir_hash_to_info_index_at(b: Seq<u8>) -> int {
    file_info_indices_at(b) + fs_header_of(b).file_info_index_count * 8
}

pub open spec fn dir_infos_at(b: Seq<u8>) -> int {
    dir_hash_to_info_index_at(b) + fs_header_of(b).folder_count * 8
}

pub open spec fn folder_offsets_at(b: Seq<u8>) -> int {
    dir_infos_at(b) + fs_header_of(b).folder_count * 52
}

pub open spec fn folder_child_hashes_at(b: Seq<u8>) -> int {
    folder_offsets_at(b) + folder_offsets_count(fs_header_of(b)) * 28
}

pub open spec fn file_infos_at(b: Seq<u8>) -> int {
    folder_child_hashes_at(b) + fs_header_of(b).hash_folder_count * 8
}

pub open spec fn file_info_to_datas_at(b: Seq<u8>) -> int {
    file_infos_at(b) + file_infos_count(fs_header_of(b)) * 16
}

pub open spec fn file_datas_at(b: Seq<u8>) -> int {
    file_info_to_datas_at(b) + info_to_datas_count(fs_header_of(b)) * 12
}

pub open spec fn tables_end(b: Seq<u8>) -> int {
    file_datas_at(b) + file_datas_count(fs_header_of(b)) * 16
}

/// The buffer holds both headers, the inline counts and every table they size.
pub open spec fn tables_fit(b: Seq<u8>) -> bool {
    &&& b.len() >= 0x110
    &&& group_counts_at(b) + 8 <= b.len()
    &&& tables_end(b) <= b.len()
}

/// The tables that a decompressed file-system buffer describes.
pub open spec fn decoded_tables(b: Seq<u8>) -> FsView {
    let h = fs_header_of(b);
    let s = stream_header_of(b);
    FsView {
        fs_header: h,
        stream_header: s,
        quick_dirs: table(b, quick_dirs_at(), s.quick_dir_count as int),
        stream_hash_to_entries: table(b, stream_hash_to_entries_at(b), s.stream_hash_count as int),
        stream_entries: table(b, stream_entries_at(b), s.stream_hash_count as int),
        stream_file_indices: table(b, stream_file_indices_at(b), s.stream_file_index_count as int),
        stream_datas: table(b, stream_datas_at(b), s.stream_offset_entry_count as int),
        file_info_buckets: table(b, buckets_at(b), bucket_count(b) as int),
        file_hash_to_path_index: table(b, file_hash_to_path_index_at(b), hash_group_count(b) as int),
        file_paths: table(b, file_paths_at(b), h.file_info_path_count as int),
        file_info_indices: table(b, file_info_indices_at(b), h.file_info_index_count as int),
        dir_hash_to_info_index: table(b, dir_hash_to_info_index_at(b), h.folder_count as int),
        dir_infos: table(b, dir_infos_at(b), h.folder_count as int),
        folder_offsets: table(b, folder_offsets_at(b), folder_offsets_count(h)),
        folder_child_hashes: table(b, folder_child_hashes_at(b), h.hash_folder_count as int),
        file_infos: table(b, file_infos_at(b), file_infos_count(h)),
        file_info_to_datas: table(b, file_info_to_datas_at(b), info_to_datas_count(h)),
        file_datas: table(b, file_datas_at(b), file_datas_count(h)),
    }
}

/// Whether hashes in `t[start..end]` strictly ascend.
fn check_ascending(t: &Vec<HashToIndex>, start: usize, end: usize) -> (r: bool)
    requires
        start <= end <= t@.len(),
    ensures
        r == strictly_ascending(t@, start as int, end as int),
{
    if start == end {
        return true;
    }
    let mut i: usize = start + 1;
    while i < end
        invariant
            start < i <= end <= t@.len(),
            strictly_ascending(t@, start as int, i as int),
        decreases end - i,
    {
        if t[i - 1].hash40().0 >= t[i].hash40().0 {
            assert(!strictly_ascending(t@, start as int, end as int)) by {
                let j = i - 1;
                let k = i as int;
                assert(start <= j < k < end);
            }
            return false;
        }
        assert(strictly_ascending(t@, start as int, i + 1)) by {
            assert forall|j: int, k: int| start <= j < k < i + 1 implies (#[trigger] t@[j].spec_hash40()).0
                < (#[trigger] t@[k].spec_hash40()).0 by {
                if k == i && j < i - 1 {
                    assert(t@[j].spec_hash40().0 < t@[i - 1].spec_hash40().0);
                }
            }
        }
        i = i + 1;
    }
    true
}

fn check_buckets(fs: &FileSystem) -> (r: bool)
    ensures
        r == forall|i: int|
            0 <= i < fs@.file_info_buckets.len() ==> fs@.bucket_ok(#[trigger] fs@.file_info_buckets[i]),
{
    let rows = fs.file_hash_to_path_index.len();
    let n = rows as u64;
    let mut i: usize = 0;
    while i < fs.file_info_buckets.len()
        invariant
            n == rows,
            rows == fs@.file_hash_to_path_index.len(),
            forall|j: int| 0 <= j < i ==> fs@.bucket_ok(#[trigger] fs@.file_info_buckets[j]),
        decreases fs.file_info_buckets.len() - i,
    {
        let b = fs.file_info_buckets[i];
        if b.start as u64 + b.count as u64 > n {
            assert(!fs@.bucket_ok(fs@.file_info_buckets[i as int]));
            return false;
        }
        let end = (b.start as u64 + b.count as u64) as usize;
        if !check_ascending(&fs.file_hash_to_path_index, b.start as usize, end) {
            assert(!fs@.bucket_ok(fs@.file_info_buckets[i as int]));
            return false;
        }
        i = i + 1;
    }
    true
}

fn check_tiling(b: &Vec<FileInfoBucket>, n: usize) -> (r: bool)
    ensures
        r == buckets_tile(b@, n as int),
{
    let len = b.len();
    if len == 0 {
        return n == 0;
    }
    if b[0].start != 0 {
        return false;
    }
    let mut i: usize = 1;
    while i < len
        invariant
            1 <= i <= len == b@.len(),
            b@[0].start == 0,
            forall|k: int| 0 < k < i ==> (#[trigger] b@[k]).start == b@[k - 1].start + b@[k - 1].count,
        decreases len - i,
    {
        if b[i].start as u64 != b[i - 1].start as u64 + b[i - 1].count as u64 {
            assert(!(b@[i as int].start == b@[i - 1].start + b@[i - 1].count));
            return false;
        }
        i = i + 1;
    }
    b[len - 1].start as u64 + b[len - 1].count as u64 == n as u64
}

/// Whether every `index` of `t` is below `bound`.
fn check_hash_indices(t: &Vec<HashToIndex>, bound: usize) -> (r: bool)
    ensures
        r == indices_below(t@, bound as int),
{
    let mut i: usize = 0;
    while i < t.len()
        invariant
            forall|j: int| 0 <= j < i ==> (#[trigger] t@[j]).index < bound,
        decreases t.len() - i,
    {
        if t[i].index as usize >= bound {
            assert(!(t@[i as int].index < bound));
            return false;
        }
        i = i + 1;
    }
    true
}

fn check_paths(fs: &FileSystem) -> (r: bool)
    ensures
        r == forall|i: int| 0 <= i < fs@.file_paths.len()
            ==> (#[trigger] fs@.file_paths[i]).path.index < fs@.file_info_indices.len(),
{
    let mut i: usize = 0;
    while i < fs.file_paths.len()
        invariant
            forall|j: int| 0 <= j < i ==> (#[trigger] fs@.file_paths[j]).path.index < fs@.file_info_indices.len(),
        decreases fs.file_paths.len() - i,
    {
        if fs.file_paths[i].path.index as usize >= fs.file_info_indices.len() {
            assert(!(fs@.file_paths[i as int].path.index < fs@.file_info_indices.len()));
            return false;
        }
        i = i + 1;
    }
    true
}

fn check_info_indices(fs: &FileSystem) -> (r: bool)
    ensures
        r == forall|i: int| 0 <= i < fs@.file_info_indices.len()
            ==> (#[trigger] fs@.file_info_indices[i]).file_info_index.0 < fs@.file_infos.len(),
{
    let mut i: usize = 0;
    while i < fs.file_info_indices.len()
        invariant
            forall|j: int| 0 <= j < i
                ==> (#[trigger] fs@.file_info_indices[j]).file_info_index.0 < fs@.file_infos.len(),
        decreases fs.file_info_indices.len() - i,
    {
        if fs.file_info_indices[i].file_info_index.0 as usize >= fs.file_infos.len() {
            assert(!(fs@.file_info_indices[i as int].file_info_index.0 < fs@.file_infos.len()));
            return false;
        }
        i = i + 1;
    }
    true
}

fn check_infos(fs: &FileSystem) -> (r: bool)
    ensures
        r == forall|i: int| 0 <= i < fs@.file_infos.len()
            ==> info_rows_in_range(#[trigger] fs@.file_infos[i], fs@.file_info_to_datas.len() as int),
{
    let rows = fs.file_info_to_datas.len() as u64;
    let mut i: usize = 0;
    while i < fs.file_infos.len()
        invariant
            rows == fs@.file_info_to_datas.len(),
            forall|j: int| 0 <= j < i
                ==> info_rows_in_range(#[trigger] fs@.file_infos[j], fs@.file_info_to_datas.len() as int),
        decreases fs.file_infos.len() - i,
    {
        let info = fs.file_infos[i];
        let last = if info.flags.is_regional() {
            info.info_to_data_index.0 as u64 + 14
        } else {
            info.info_to_data_index.0 as u64
        };
        if last >= rows {
            assert(!info_rows_in_range(fs@.file_infos[i as int], fs@.file_info_to_datas.len() as int));
            return false;
        }
        i = i + 1;
    }
    true
}

fn check_info_to_datas(fs: &FileSystem) -> (r: bool)
    ensures
        r == forall|i: int| 0 <= i < fs@.file_info_to_datas.len()
            ==> (#[trigger] fs@.file_info_to_datas[i]).file_data_index.0 < fs@.file_datas.len()
                && fs@.file_info_to_datas[i].folder_offset_index < fs@.folder_offsets.len(),
{
    let mut i: usize = 0;
    while i < fs.file_info_to_datas.len()
        invariant
            forall|j: int| 0 <= j < i
                ==> (#[trigger] fs@.file_info_to_datas[j]).file_data_index.0 < fs@.file_datas.len()
                    && fs@.file_info_to_datas[j].folder_offset_index < fs@.folder_offsets.len(),
        decreases fs.file_info_to_datas.len() - i,
    {
        let row = fs.file_info_to_datas[i];
        if row.file_data_index.0 as usize >= fs.file_datas.len()
            || row.folder_offset_index as usize >= fs.folder_offsets.len() {
            assert(!(fs@.file_info_to_datas[i as int].file_data_index.0 < fs@.file_datas.len()
                && fs@.file_info_to_datas[i as int].folder_offset_index < fs@.folder_offsets.len()));
            return false;
        }
        i = i + 1;
    }
    true
}

fn check_streams(fs: &FileSystem) -> (r: bool)
    ensures
        r == ((forall|i: int| 0 <= i < fs@.stream_entries.len()
            ==> (#[trigger] fs@.stream_entries[i]).index < fs@.stream_file_indices.len())
            && (forall|i: int| 0 <= i < fs@.stream_file_indices.len()
            ==> #[trigger] fs@.stream_file_indices[i] < fs@.stream_datas.len())
            && (forall|i: int| 0 <= i < fs@.quick_dirs.len()
            ==> (#[trigger] fs@.quick_dirs[i]).index + fs@.quick_dirs[i].count <= fs@.stream_entries.len())),
{
    let mut i: usize = 0;
    while i < fs.stream_entries.len()
        invariant
            forall|j: int| 0 <= j < i ==> (#[trigger] fs@.stream_entries[j]).index < fs@.stream_file_indices.len(),
        decreases fs.stream_entries.len() - i,
    {
        if fs.stream_entries[i].index as usize >= fs.stream_file_indices.len() {
            assert(!(fs@.stream_entries[i as int].index < fs@.stream_file_indices.len()));
            return false;
        }
        i = i + 1;
    }
    let mut i: usize = 0;
    while i < fs.stream_file_indices.len()
        invariant
            forall|j: int| 0 <= j < fs@.stream_entries.len()
                ==> (#[trigger] fs@.stream_entries[j]).index < fs@.stream_file_indices.len(),
            forall|j: int| 0 <= j < i ==> #[trigger] fs@.stream_file_indices[j] < fs@.stream_datas.len(),
        decreases fs.stream_file_indices.len() - i,
    {
        if fs.stream_file_indices[i] as usize >= fs.stream_datas.len() {
            assert(!(fs@.stream_file_indices[i as int] < fs@.stream_datas.len()));
            return false;
        }
        i = i + 1;
    }
    let entries = fs.stream_entries.len() as u64;
    let mut i: usize = 0;
    while i < fs.quick_dirs.len()
        invariant
            entries == fs@.stream_entries.len(),
            forall|j: int| 0 <= j < fs@.stream_entries.len()
                ==> (#[trigger] fs@.stream_entries[j]).index < fs@.stream_file_indices.len(),
            forall|j: int| 0 <= j < fs@.stream_file_indices.len()
                ==> #[trigger] fs@.stream_file_indices[j] < fs@.stream_datas.len(),
            forall|j: int| 0 <= j < i
                ==> (#[trigger] fs@.quick_dirs[j]).index + fs@.quick_dirs[j].count <= fs@.stream_entries.len(),
        decreases fs.quick_dirs.len() - i,
    {
        let qd = fs.quick_dirs[i];
        if qd.index as u64 + qd.count as u64 > entries {
            assert(!(fs@.quick_dirs[i as int].index + fs@.quick_dirs[i as int].count <= fs@.stream_entries.len()));
            return false;
        }
        i = i + 1;
    }
    true
}

impl FileSystem {
    /// Whether every cross-index is in range and the searched tables are sorted.
    pub fn check_wf(&self) -> (r: bool)
        ensures
            r == self@.wf(),
    {
        let paths_ok = check_hash_indices(&self.file_hash_to_path_index, self.file_paths.len());
        let dirs_ok = check_hash_indices(&self.dir_hash_to_info_index, self.dir_infos.len());
        let dirs_sorted = check_ascending(&self.dir_hash_to_info_index, 0, self.dir_hash_to_info_index.len());
        // The length of a table in memory fits in a usize.
        let _buckets = self.file_info_buckets.len();
        let tiled = check_tiling(&self.file_info_buckets, self.file_hash_to_path_index.len());
        let r = check_buckets(self) && tiled && paths_ok && check_paths(self) && check_info_indices(self)
            && check_infos(self) && check_info_to_datas(self) && check_streams(self) && dirs_sorted
            && dirs_ok;
        r
    }

    #[verifier::rlimit(60)]
    /// Reads the tables from a decompressed file-system buffer. Fails with
    /// `MalformedArchive` when the buffer is too short for the tables its
    /// headers size, or when a cross-index is out of range or a searched
    /// table is out of order.
    pub fn parse(b: &[u8]) -> (r: Result<FileSystem, ParseError>)
        ensures
            r is Ok <==> tables_fit(b@) && decoded_tables(b@).wf(),
            r matches Ok(fs) ==> fs@ == decoded_tables(b@),
            r matches Err(e) ==> e == ParseError::MalformedArchive,
    {
        let n = b.len();
        if n < 0x110 {
            return Err(ParseError::MalformedArchive);
        }
        let fs_header = FileSystemHeader::decode(b, 0);
        let s = StreamHeader::decode(b, 0x100);
        let h = fs_header;
        let len = n as u64;
        let stream_hash_to_entries_at: u64 = 0x110 + s.quick_dir_count as u64 * 12;
        let stream_entries_at: u64 = stream_hash_to_entries_at + s.stream_hash_count as u64 * 8;
        let stream_file_indices_at: u64 = stream_entries_at + s.stream_hash_count as u64 * 12;
        let stream_datas_at: u64 = stream_file_indices_at + s.stream_file_index_count as u64 * 4;
        let group_counts_at: u64 = stream_datas_at + s.stream_offset_entry_count as u64 * 16;
        if group_counts_at + 8 > len {
            return Err(ParseError::MalformedArchive);
        }
        let group_count = read_u32(b, group_counts_at as usize);
        let bucket_count = read_u32(b, group_counts_at as usize + 4);
        let folder_offsets_count: u64 = h.folder_offset_count_1 as u64 + h.folder_offset_count_2 as u64
            + h.extra_folder as u64;
        let file_infos_count: u64 = h.file_info_count as u64 + h.file_data_count_2 as u64 + h.extra_count as u64;
        let info_to_datas_count: u64 = h.file_info_sub_index_count as u64 + h.file_data_count_2 as u64
            + h.extra_count_2 as u64;
        let file_datas_count: u64 = h.file_data_count as u64 + h.file_data_count_2 as u64
            + h.extra_sub_count as u64;
        let buckets_at: u64 = group_counts_at + 8;
        let file_hash_to_path_index_at: u64 = buckets_at + bucket_count as u64 * 8;
        let file_paths_at: u64 = file_hash_to_path_index_at + group_count as u64 * 8;
        let file_info_indices_at: u64 = file_paths_at + h.file_info_path_count as u64 * 32;
        let dir_hash_to_info_index_at: u64 = file_info_indices_at + h.file_info_index_count as u64 * 8;
        let dir_infos_at: u64 = dir_hash_to_info_index_at + h.folder_count as u64 * 8;
        let folder_offsets_at: u64 = dir_infos_at + h.folder_count as u64 * 52;
        let folder_child_hashes_at: u64 = folder_offsets_at + folder_offsets_count * 28;
        let file_infos_at: u64 = folder_child_hashes_at + h.hash_folder_count as u64 * 8;
        let file_info_to_datas_at: u64 = file_infos_at + file_infos_count * 16;
        let file_datas_at: u64 = file_info_to_datas_at + info_to_datas_count * 12;
        let end: u64 = file_datas_at + file_datas_count * 16;
        if end > len {
            return Err(ParseError::MalformedArchive);
        }
        let fs = FileSystem {
            fs_header,
            stream_header: s,
            quick_dirs: read_table(b, 0x110, s.quick_dir_count as usize),
            stream_hash_to_entries: read_table(
                b,
                stream_hash_to_entries_at as usize,
                s.stream_hash_count as usize,
            ),
            stream_entries: read_table(b, stream_entries_at as usize, s.stream_hash_count as usize),
            stream_file_indices: read_table(
                b,
                stream_file_indices_at as usize,
                s.stream_file_index_count as usize,
            ),
            stream_datas: read_table(b, stream_datas_at as usize, s.stream_offset_entry_count as usize),
            file_info_buckets: read_table(b, buckets_at as usize, bucket_count as usize),
            file_hash_to_path_index: read_table(
                b,
                file_hash_to_path_index_at as usize,
                group_count as usize,
            ),
            file_paths: read_table(b, file_paths_at as usize, h.file_info_path_count as usize),
            file_info_indices: read_table(
                b,
                file_info_indices_at as usize,
                h.file_info_index_count as usize,
            ),
            dir_hash_to_info_index: read_table(
                b,
                dir_hash_to_info_index_at as usize,
                h.folder_count as usize,
            ),
            dir_infos: read_table(b, dir_infos_at as usize, h.folder_count as usize),
            folder_offsets: read_table(b, folder_offsets_at as usize, folder_offsets_count as usize),
            folder_child_hashes: read_table(
                b,
                folder_child_hashes_at as usize,
                h.hash_folder_count as usize,
            ),
            file_infos: read_table(b, file_infos_at as usize, file_infos_count as usize),
            file_info_to_datas: read_table(
                b,
                file_info_to_datas_at as usize,
                info_to_datas_count as usize,
            ),
            file_datas: read_table(b, file_datas_at as usize, file_datas_count as usize),
        };
        assert(fs@ == decoded_tables(b@));
        if fs.check_wf() {
            Ok(fs)
        } else {
            Err(ParseError::MalformedArchive)
        }
    }
}

} // verus!
