//! The resolution engine: from a path hash to its file info, data, offset and
//! payload, with regional variants, the stream section, and shared data.
use vstd::prelude::*;

use crate::arc_file::{window, ArcFile, ArcView, SeekRead};
use crate::error::{IoErrorKind, LookupError};
use crate::filesystem::{
    DirInfo, FileData, FileInfo, FileInfoBucket, FileInfoToFileData, HashToIndex, StreamData, StreamEntry,
};
use crate::hash40::{hash40, hash40_word, Hash40};
use crate::region::Region;
use crate::table_indices::{FileDataIdx, FilePathIdx};
use crate::tables::{buckets_tile, info_rows_in_range, strictly_ascending, FsView};
use crate::text::{bytes_eq, has_prefix};
use crate::zstd_backend::{copy_decode, zstd_decoded};

verus! {

/// What is known of a file without reading its payload.
#[derive(Clone, Copy, Debug, PartialEq, Eq, Structural)]
pub struct FileMetadata {
    pub path_hash: Hash40,
    pub ext_hash: Hash40,
    pub parent_hash: Hash40,
    pub file_name_hash: Hash40,
    pub offset: u64,
    pub comp_size: u64,
    pub decomp_size: u64,
    pub is_stream: bool,
    pub is_shared: bool,
    pub is_redirect: bool,
    pub is_regional: bool,
    pub is_localized: bool,
    pub is_compressed: bool,
    pub uses_zstd: bool,
}

pub proof fn lemma_ordinal_bound(region: Region)
    ensures
        region.spec_ordinal() <= 14,
{
}

/// Row `j` of `t[start..end]` holds hash `h`.
pub open spec fn holds_hash(t: Seq<HashToIndex>, start: int, end: int, h: Hash40, j: int) -> bool {
    start <= j < end && t[j].spec_hash40() == h
}

proof fn lemma_unique_hash(t: Seq<HashToIndex>, start: int, end: int, h: Hash40, j: int, k: int)
    requires
        strictly_ascending(t, start, end),
        holds_hash(t, start, end, h, j),
        holds_hash(t, start, end, h, k),
    ensures
        j == k,
{
    if j < k {
        assert(t[j].spec_hash40().0 < t[k].spec_hash40().0);
    } else if k < j {
        assert(t[k].spec_hash40().0 < t[j].spec_hash40().0);
    }
}

/// Binary search of `t[start..end]` for hash `h`.
fn search_sorted(t: &Vec<HashToIndex>, start: usize, end: usize, h: Hash40) -> (r: Option<usize>)
    requires
        start <= end <= t@.len(),
        strictly_ascending(t@, start as int, end as int),
    ensures
        match r {
            Some(j) => holds_hash(t@, start as int, end as int, h, j as int),
            None => forall|j: int| !holds_hash(t@, start as int, end as int, h, j),
        },
{
    let mut lo = start;
    let mut hi = end;
    while lo < hi
        invariant
            start <= lo <= hi <= end <= t@.len(),
            strictly_ascending(t@, start as int, end as int),
            forall|j: int| start <= j < lo ==> (#[trigger] t@[j].spec_hash40()).0 < h.0,
            forall|j: int| hi <= j < end ==> (#[trigger] t@[j].spec_hash40()).0 > h.0,
        decreases hi - lo,
    {
        let mid = lo + (hi - lo) / 2;
        let m = t[mid].hash40().0;
        if m == h.0 {
            return Some(mid);
        } else if m < h.0 {
            assert forall|j: int| start <= j < mid + 1 implies (#[trigger] t@[j].spec_hash40()).0 < h.0 by {
                if j < mid {
                    assert(t@[j].spec_hash40().0 < t@[mid as int].spec_hash40().0);
                }
            }
            lo = mid + 1;
        } else {
            assert forall|j: int| mid <= j < end implies (#[trigger] t@[j].spec_hash40()).0 > h.0 by {
                if j > mid {
                    assert(t@[mid as int].spec_hash40().0 < t@[j].spec_hash40().0);
                }
            }
            hi = mid;
        }
    }
    assert forall|j: int| !holds_hash(t@, start as int, end as int, h, j) by {
        if start <= j < end {
            assert(j < lo || j >= hi);
        }
    }
    None
}

impl FsView {
    /// The bucket that a path hash falls in.
    pub open spec fn bucket_of(self, h: Hash40) -> FileInfoBucket {
        self.file_info_buckets[(h.0 % self.file_info_buckets.len() as u64) as int]
    }

    /// Row `j` of `file_hash_to_path_index` lies in the bucket of `h` and holds `h`.
    pub open spec fn in_bucket(self, h: Hash40, j: int) -> bool {
        let b = self.bucket_of(h);
        holds_hash(self.file_hash_to_path_index, b.start as int, b.start + b.count, h, j)
    }

    /// The file path that a path hash leads to.
    pub open spec fn path_index_of(self, h: Hash40) -> Option<FilePathIdx> {
        if self.file_info_buckets.len() > 0 && exists|j: int| self.in_bucket(h, j) {
            Some(FilePathIdx(self.file_hash_to_path_index[choose|j: int| self.in_bucket(h, j)].index))
        } else {
            None
        }
    }

    /// path -> file-info index -> file info.
    pub open spec fn info_of_path(self, p: FilePathIdx) -> FileInfo {
        let k = self.file_paths[p.0 as int].path.index as int;
        self.file_infos[self.file_info_indices[k].file_info_index.0 as int]
    }

    /// The row of `file_info_to_datas` for a file in a region: a regional file
    /// has one row per region, by ordinal.
    pub open spec fn info_row(info: FileInfo, region: Region) -> int {
        if info.flags.spec_is_regional() {
            info.info_to_data_index.0 + region.spec_ordinal()
        } else {
            info.info_to_data_index.0 as int
        }
    }

    pub open spec fn file_in_folder(self, info: FileInfo, region: Region) -> FileInfoToFileData {
        self.file_info_to_datas[FsView::info_row(info, region)]
    }

    pub open spec fn file_data_of(self, info: FileInfo, region: Region) -> FileData {
        self.file_datas[self.file_in_folder(info, region).file_data_index.0 as int]
    }

    pub open spec fn folder_offset_of(self, info: FileInfo, region: Region) -> u64 {
        self.folder_offsets[self.file_in_folder(info, region).folder_offset_index as int].offset
    }

    pub open spec fn stream_match(self, h: Hash40, e: int) -> bool {
        0 <= e < self.stream_entries.len() && self.stream_entries[e].spec_hash40() == h
    }

    /// Entry `e` is the first stream entry with hash `h`.
    pub open spec fn first_stream_match(self, h: Hash40, e: int) -> bool {
        self.stream_match(h, e) && forall|k: int| 0 <= k < e ==> !self.stream_match(h, k)
    }

    /// The stream payload locator of the first stream entry with hash `h`.
    pub open spec fn stream_data_of(self, h: Hash40) -> Option<StreamData> {
        if exists|e: int| self.first_stream_match(h, e) {
            let e = choose|e: int| self.first_stream_match(h, e);
            let x = self.stream_file_indices[self.stream_entries[e].index as int];
            Some(self.stream_datas[x as int])
        } else {
            None
        }
    }

    /// The directory with hash `h`.
    pub open spec fn dir_info_of(self, h: Hash40) -> Option<DirInfo> {
        let t = self.dir_hash_to_info_index;
        if exists|j: int| holds_hash(t, 0, t.len() as int, h, j) {
            let j = choose|j: int| holds_hash(t, 0, t.len() as int, h, j);
            Some(self.dir_infos[t[j].index as int])
        } else {
            None
        }
    }

    pub open spec fn quick_dir_match(self, h: Hash40, q: int) -> bool {
        0 <= q < self.quick_dirs.len() && self.quick_dirs[q].spec_hash40() == h
    }

    /// The entries of the first quick directory with hash `h`.
    pub open spec fn stream_listing_of(self, h: Hash40) -> Option<Seq<StreamEntry>> {
        if exists|q: int| self.quick_dir_match(h, q) && forall|k: int| 0 <= k < q ==> !self.quick_dir_match(h, k) {
            let q = choose|q: int| self.quick_dir_match(h, q) && forall|k: int| 0 <= k < q ==> !self.quick_dir_match(h, k);
            let d = self.quick_dirs[q];
            Some(self.stream_entries.subrange(d.index as int, d.index + d.count))
        } else {
            None
        }
    }
}

/// The hash of the quick directory that a stream path names: `"bgm"`,
/// `"smashappeal"` and `"movie"` name themselves, `"stream:/sound/x"` names
/// `x`, and `"stream:/movie"` names `"movie"`.
pub open spec fn stream_listing_hash(d: Seq<u8>) -> Option<Hash40> {
    if d == vstd::utf8::encode_utf8("bgm"@) || d == vstd::utf8::encode_utf8("smashappeal"@) || d
        == vstd::utf8::encode_utf8("movie"@) {
        Some(Hash40(hash40_word(d)))
    } else if 14 <= d.len() && d.subrange(0, 14) == vstd::utf8::encode_utf8("stream:/sound/"@) {
        if vstd::utf8::is_char_boundary(d, 14) {
            Some(Hash40(hash40_word(d.subrange(14, d.len() as int))))
        } else {
            None
        }
    } else if d == vstd::utf8::encode_utf8("stream:/movie"@) {
        Some(Hash40(hash40_word(vstd::utf8::encode_utf8("movie"@))))
    } else {
        None
    }
}

/// The payload of a file: `comp_size` bytes from `offset`, zstd-decoded when compressed.
pub open spec fn file_payload(d: Seq<u8>, fd: FileData, offset: int) -> Result<Seq<u8>, LookupError> {
    if fd.flags.spec_compressed() && !fd.flags.spec_use_zstd() {
        Err(LookupError::UnsupportedCompression)
    } else {
        let raw = window(d, offset, fd.comp_size as int);
        if fd.flags.spec_compressed() {
            match zstd_decoded(raw) {
                Some(v) => Ok(v),
                None => Err(LookupError::FileRead(IoErrorKind::Other)),
            }
        } else {
            Ok(raw)
        }
    }
}

/// The payload of a stream file: exactly `size` bytes from `offset`.
pub open spec fn stream_payload(d: Seq<u8>, sd: StreamData) -> Result<Seq<u8>, LookupError> {
    let raw = window(d, sd.offset as int, sd.size as int);
    if raw.len() == sd.size {
        Ok(raw)
    } else {
        Err(LookupError::FileRead(IoErrorKind::UnexpectedEof))
    }
}

pub open spec fn bytes_result(r: Result<Vec<u8>, LookupError>) -> Result<Seq<u8>, LookupError> {
    match r {
        Ok(v) => Ok(v@),
        Err(e) => Err(e),
    }
}

/// `r` is `expected`, or a reader that may fail failed where the payload had
/// to be read.
pub open spec fn read_outcome(
    r: Result<Vec<u8>, LookupError>,
    expected: Result<Seq<u8>, LookupError>,
    reads: bool,
    reliable: bool,
) -> bool {
    bytes_result(r) == expected || (reads && !reliable && r is Err && r->Err_0 is FileRead)
}

/// Bytes read for a stream payload of `size` bytes: fewer is an unexpected
/// end of file.
pub fn finish_stream_read(data: Vec<u8>, size: u64) -> (r: Result<Vec<u8>, LookupError>)
    ensures
        bytes_result(r) == if data@.len() == size {
            Ok::<Seq<u8>, LookupError>(data@)
        } else {
            Err(LookupError::FileRead(IoErrorKind::UnexpectedEof))
        },
{
    if data.len() as u64 == size {
        Ok(data)
    } else {
        Err(LookupError::FileRead(IoErrorKind::UnexpectedEof))
    }
}

impl ArcView {
    /// `file_section_offset + folder_offset + (offset_in_folder << 2)`.
    pub open spec fn payload_offset(self, info: FileInfo, region: Region) -> int {
        self.file_section_offset + self.fs.folder_offset_of(info, region)
            + self.fs.file_data_of(info, region).offset_in_folder * 4
    }

    pub open spec fn metadata_of(self, h: Hash40, region: Region) -> Option<FileMetadata> {
        match self.fs.path_index_of(h) {
            Some(p) => {
                let fp = self.fs.file_paths[p.0 as int];
                let info = self.fs.info_of_path(p);
                let fd = self.fs.file_data_of(info, region);
                let offset = self.payload_offset(info, region);
                Some(
                    FileMetadata {
                        path_hash: fp.path.spec_hash40(),
                        ext_hash: fp.ext.spec_hash40(),
                        parent_hash: fp.parent.spec_hash40(),
                        file_name_hash: fp.file_name.spec_hash40(),
                        offset: offset as u64,
                        comp_size: fd.comp_size as u64,
                        decomp_size: fd.decomp_size as u64,
                        is_stream: false,
                        is_shared: offset >= self.shared_section_offset,
                        is_redirect: info.flags.spec_is_redirect(),
                        is_regional: info.flags.spec_is_regional(),
                        is_localized: info.flags.spec_is_localized(),
                        is_compressed: fd.flags.spec_compressed(),
                        uses_zstd: fd.flags.spec_use_zstd(),
                    },
                )
            },
            None => match self.fs.stream_data_of(h) {
                Some(sd) => Some(
                    FileMetadata {
                        path_hash: h,
                        ext_hash: Hash40(0),
                        parent_hash: Hash40(0),
                        file_name_hash: Hash40(0),
                        offset: sd.offset,
                        comp_size: sd.size,
                        decomp_size: sd.size,
                        is_stream: true,
                        is_shared: false,
                        is_redirect: false,
                        is_regional: false,
                        is_localized: false,
                        is_compressed: false,
                        uses_zstd: false,
                    },
                ),
                None => None,
            },
        }
    }

    /// The payload of hash `h` in a container with contents `d`: the file
    /// tables first, then the stream section.
    pub open spec fn contents_from(self, d: Seq<u8>, h: Hash40, region: Region) -> Result<
        Seq<u8>,
        LookupError,
    > {
        match self.fs.path_index_of(h) {
            Some(p) => {
                let info = self.fs.info_of_path(p);
                file_payload(d, self.fs.file_data_of(info, region), self.payload_offset(info, region))
            },
            None => match self.fs.stream_data_of(h) {
                Some(sd) => stream_payload(d, sd),
                None => Err(LookupError::Missing),
            },
        }
    }

    /// Whether finding the payload of `h` reads from the container.
    pub open spec fn reads_payload(self, h: Hash40, region: Region) -> bool {
        match self.fs.path_index_of(h) {
            Some(p) => {
                let fd = self.fs.file_data_of(self.fs.info_of_path(p), region);
                !(fd.flags.spec_compressed() && !fd.flags.spec_use_zstd())
            },
            None => self.fs.stream_data_of(h) is Some,
        }
    }

    /// Path `p` resolves, in `region`, to file data row `target`.
    pub open spec fn resolves_to(self, h: Hash40, region: Region, target: FileDataIdx) -> bool {
        match self.fs.path_index_of(h) {
            Some(p) => self.fs.file_in_folder(self.fs.info_of_path(p), region).file_data_index == target,
            None => false,
        }
    }

    /// The hashes among the first `n` rows of `file_hash_to_path_index` that
    /// resolve to file data row `target`, in table order.
    pub open spec fn sharing_prefix(self, n: int, region: Region, target: FileDataIdx) -> Seq<Hash40>
        decreases n,
    {
        if n <= 0 {
            Seq::empty()
        } else {
            let rest = self.sharing_prefix(n - 1, region, target);
            let h = self.fs.file_hash_to_path_index[n - 1].spec_hash40();
            if self.resolves_to(h, region, target) {
                rest.push(h)
            } else {
                rest
            }
        }
    }

    /// For a file in the shared section, every path hash that resolves to its
    /// file data; for any other file, none.
    pub open spec fn shared_files_of(self, h: Hash40, region: Region) -> Option<Seq<Hash40>> {
        match self.metadata_of(h, region) {
            None => None,
            Some(m) => if m.is_shared {
                match self.fs.path_index_of(h) {
                    Some(p) => {
                        let target = self.fs.file_in_folder(self.fs.info_of_path(p), region).file_data_index;
                        Some(self.sharing_prefix(self.fs.file_hash_to_path_index.len() as int, region, target))
                    },
                    None => Some(Seq::empty()),
                }
            } else {
                Some(Seq::empty())
            },
        }
    }
}

impl ArcFile {
    /// The bucket of the path hash table that `hash` falls in; `None` when the
    /// table has no buckets.
    pub fn get_bucket_for_hash(&self, hash: Hash40) -> (r: Option<FileInfoBucket>)
        requires
            self.wf(),
        ensures
            match r {
                Some(b) => self@.fs.file_info_buckets.len() > 0 && b == self@.fs.bucket_of(hash),
                None => self@.fs.file_info_buckets.len() == 0,
            },
    {
        let n = self.file_system.file_info_buckets.len();
        if n == 0 {
            return None;
        }
        let i = (hash.0 % (n as u64)) as usize;
        Some(self.file_system.file_info_buckets[i])
    }

    /// The file path of a path hash: a binary search of its bucket.
    pub fn get_file_path_index_from_hash(&self, hash: Hash40) -> (r: Result<FilePathIdx, LookupError>)
        requires
            self.wf(),
        ensures
            r == match self@.fs.path_index_of(hash) {
                Some(p) => Ok::<FilePathIdx, LookupError>(p),
                None => Err(LookupError::Missing),
            },
            r matches Ok(p) ==> p.0 < self@.fs.file_paths.len(),
    {
        let bucket = match self.get_bucket_for_hash(hash) {
            Some(b) => b,
            None => return Err(LookupError::Missing),
        };
        let ghost fs = self@.fs;
        // The lengths of tables in memory fit in a usize.
        let _bucket_rows = self.file_system.file_info_buckets.len();
        let _hash_rows = self.file_system.file_hash_to_path_index.len();
        proof {
            let i = (hash.0 % fs.file_info_buckets.len() as u64) as int;
            assert(fs.bucket_ok(fs.file_info_buckets[i]));
        }
        let start = bucket.start as usize;
        let end = (bucket.start as u64 + bucket.count as u64) as usize;
        match search_sorted(&self.file_system.file_hash_to_path_index, start, end, hash) {
            Some(j) => {
                proof {
                    assert(fs.in_bucket(hash, j as int));
                    let k = choose|k: int| fs.in_bucket(hash, k);
                    lemma_unique_hash(fs.file_hash_to_path_index, start as int, end as int, hash, j as int, k);
                }
                Ok(FilePathIdx(self.file_system.file_hash_to_path_index[j].index))
            },
            None => {
                assert(!exists|k: int| fs.in_bucket(hash, k));
                Err(LookupError::Missing)
            },
        }
    }

    pub fn get_file_info_from_path_index(&self, path_index: FilePathIdx) -> (r: &FileInfo)
        requires
            self.wf(),
            path_index.0 < self@.fs.file_paths.len(),
        ensures
            *r == self@.fs.info_of_path(path_index),
            info_rows_in_range(*r, self@.fs.file_info_to_datas.len() as int),
    {
        let ghost fs = self@.fs;
        let k = self.file_system.file_paths[path_index.0 as usize].path.index as usize;
        let m = self.file_system.file_info_indices[k].file_info_index.0 as usize;
        assert(fs.file_infos[m as int] == fs.info_of_path(path_index));
        &self.file_system.file_infos[m]
    }

    pub fn get_file_info_from_hash(&self, hash: Hash40) -> (r: Result<&FileInfo, LookupError>)
        requires
            self.wf(),
        ensures
            match self@.fs.path_index_of(hash) {
                Some(p) => r matches Ok(info) && *info == self@.fs.info_of_path(p),
                None => r matches Err(e) && e == LookupError::Missing,
            },
            r matches Ok(info) ==> info_rows_in_range(*info, self@.fs.file_info_to_datas.len() as int),
    {
        let path_index = self.get_file_path_index_from_hash(hash)?;
        Ok(self.get_file_info_from_path_index(path_index))
    }

    /// The row of `file_info_to_datas` of a file in a region.
    pub fn get_file_in_folder(&self, file_info: &FileInfo, region: Region) -> (r: FileInfoToFileData)
        requires
            self.wf(),
            info_rows_in_range(*file_info, self@.fs.file_info_to_datas.len() as int),
        ensures
            0 <= FsView::info_row(*file_info, region) < self@.fs.file_info_to_datas.len(),
            r == self@.fs.file_in_folder(*file_info, region),
    {
        proof {
            lemma_ordinal_bound(region);
        }
        // The length of a table in memory fits in a usize.
        let _rows = self.file_system.file_info_to_datas.len();
        if file_info.flags.is_regional() {
            self.file_system.file_info_to_datas[file_info.info_to_data_index.0 as usize + region.ordinal() as usize]
        } else {
            self.file_system.file_info_to_datas[file_info.info_to_data_index.0 as usize]
        }
    }

    pub fn get_file_data(&self, file_info: &FileInfo, region: Region) -> (r: &FileData)
        requires
            self.wf(),
            info_rows_in_range(*file_info, self@.fs.file_info_to_datas.len() as int),
        ensures
            *r == self@.fs.file_data_of(*file_info, region),
    {
        let row = self.get_file_in_folder(file_info, region);
        assert(self@.fs.file_info_to_datas[FsView::info_row(*file_info, region)] == row);
        &self.file_system.file_datas[row.file_data_index.0 as usize]
    }

    pub fn get_folder_offset(&self, file_info: &FileInfo, region: Region) -> (r: u64)
        requires
            self.wf(),
            info_rows_in_range(*file_info, self@.fs.file_info_to_datas.len() as int),
        ensures
            r == self@.fs.folder_offset_of(*file_info, region),
    {
        let row = self.get_file_in_folder(file_info, region);
        assert(self@.fs.file_info_to_datas[FsView::info_row(*file_info, region)] == row);
        self.file_system.folder_offsets[row.folder_offset_index as usize].offset
    }

    pub fn get_file_data_from_hash(&self, hash: Hash40, region: Region) -> (r: Result<&FileData, LookupError>)
        requires
            self.wf(),
        ensures
            match self@.fs.path_index_of(hash) {
                Some(p) => r matches Ok(fd) && *fd == self@.fs.file_data_of(self@.fs.info_of_path(p), region),
                None => r matches Err(e) && e == LookupError::Missing,
            },
    {
        let path_index = self.get_file_path_index_from_hash(hash)?;
        let info = self.get_file_info_from_path_index(path_index);
        Ok(self.get_file_data(info, region))
    }

    /// The payload position of a file in a region.
    fn payload_offset(&self, file_info: &FileInfo, region: Region) -> (r: u64)
        requires
            self.wf(),
            info_rows_in_range(*file_info, self@.fs.file_info_to_datas.len() as int),
        ensures
            r == self@.payload_offset(*file_info, region),
    {
        let row = self.get_file_in_folder(file_info, region);
        let ghost i = FsView::info_row(*file_info, region);
        assert(self@.fs.file_info_to_datas[i] == row);
        assert(self@.row_offset(i) <= u64::MAX);
        let folder_offset = self.file_system.folder_offsets[row.folder_offset_index as usize].offset;
        let file_data = &self.file_system.file_datas[row.file_data_index.0 as usize];
        folder_offset + self.file_section_offset + (file_data.offset_in_folder as u64) * 4
    }

    /// The payload position of a file in the file section.
    pub fn get_file_offset_from_hash(&self, hash: Hash40, region: Region) -> (r: Result<u64, LookupError>)
        requires
            self.wf(),
        ensures
            match self@.fs.path_index_of(hash) {
                Some(p) => r == Ok::<u64, LookupError>(
                    self@.payload_offset(self@.fs.info_of_path(p), region) as u64,
                ),
                None => r == Err::<u64, LookupError>(LookupError::Missing),
            },
    {
        let path_index = self.get_file_path_index_from_hash(hash)?;
        let info = self.get_file_info_from_path_index(path_index);
        Ok(self.payload_offset(info, region))
    }
}

impl ArcFile {
    /// The locator of the first stream entry with hash `hash`: a linear search.
    pub fn get_stream_data(&self, hash: Hash40) -> (r: Result<&StreamData, LookupError>)
        requires
            self.wf(),
        ensures
            match self@.fs.stream_data_of(hash) {
                Some(sd) => r matches Ok(x) && *x == sd,
                None => r matches Err(e) && e == LookupError::Missing,
            },
    {
        let ghost fs = self@.fs;
        let entries = &self.file_system.stream_entries;
        let mut i: usize = 0;
        while i < entries.len()
            invariant
                fs == self@.fs,
                fs.wf(),
                entries@ == fs.stream_entries,
                forall|k: int| 0 <= k < i ==> !fs.stream_match(hash, k),
            decreases entries.len() - i,
        {
            if entries[i].hash40().0 == hash.0 {
                proof {
                    assert(fs.first_stream_match(hash, i as int));
                    let e = choose|e: int| fs.first_stream_match(hash, e);
                    if e < i {
                        assert(!fs.stream_match(hash, e));
                    } else if e > i {
                        assert(!fs.stream_match(hash, i as int));
                    }
                }
                assert(fs.stream_entries[i as int].index < fs.stream_file_indices.len());
                let x = self.file_system.stream_file_indices[entries[i].index as usize];
                assert(fs.stream_file_indices[entries[i as int].index as int] < fs.stream_datas.len());
                return Ok(&self.file_system.stream_datas[x as usize]);
            }
            i = i + 1;
        }
        assert(!exists|e: int| fs.first_stream_match(hash, e));
        Err(LookupError::Missing)
    }

    /// The directory with hash `hash`: a binary search of `dir_hash_to_info_index`.
    pub fn get_dir_info_from_hash(&self, hash: Hash40) -> (r: Result<&DirInfo, LookupError>)
        requires
            self.wf(),
        ensures
            match self@.fs.dir_info_of(hash) {
                Some(d) => r matches Ok(x) && *x == d,
                None => r matches Err(e) && e == LookupError::Missing,
            },
    {
        let ghost fs = self@.fs;
        let t = &self.file_system.dir_hash_to_info_index;
        match search_sorted(t, 0, t.len(), hash) {
            Some(j) => {
                proof {
                    let k = choose|k: int| holds_hash(fs.dir_hash_to_info_index, 0, fs.dir_hash_to_info_index.len() as int, hash, k);
                    lemma_unique_hash(fs.dir_hash_to_info_index, 0, fs.dir_hash_to_info_index.len() as int, hash, j as int, k);
                }
                Ok(&self.file_system.dir_infos[t[j].index as usize])
            },
            None => Err(LookupError::Missing),
        }
    }

    /// The stream entries of a quick directory, named as `stream_listing_hash` says.
    pub fn get_stream_listing(&self, dir: &str) -> (r: Result<&[StreamEntry], LookupError>)
        requires
            self.wf(),
        ensures
            match stream_listing_hash(vstd::utf8::encode_utf8(dir@)) {
                Some(h) => match self@.fs.stream_listing_of(h) {
                    Some(s) => r matches Ok(x) && x@ == s,
                    None => r matches Err(e) && e == LookupError::Missing,
                },
                None => r matches Err(e) && e == LookupError::Missing,
            },
    {
        let b = dir.as_bytes();
        proof {
            assert(vstd::utf8::encode_utf8("stream:/sound/"@).len() == 14) by {
                reveal_strlit("stream:/sound/");
                vstd::utf8::is_ascii_chars_encode_utf8("stream:/sound/"@);
            }
        }
        let hash = if bytes_eq(b, "bgm".as_bytes()) || bytes_eq(b, "smashappeal".as_bytes()) || bytes_eq(
            b,
            "movie".as_bytes(),
        ) {
            hash40(dir)
        } else if has_prefix(b, "stream:/sound/".as_bytes()) {
            if dir.is_char_boundary(14) {
                let (_, rest) = dir.split_at(14);
                hash40(rest)
            } else {
                assert(stream_listing_hash(vstd::utf8::encode_utf8(dir@)) is None);
                return Err(LookupError::Missing);
            }
        } else if bytes_eq(b, "stream:/movie".as_bytes()) {
            hash40("movie")
        } else {
            return Err(LookupError::Missing);
        };
        assert(stream_listing_hash(vstd::utf8::encode_utf8(dir@)) == Some(hash));
        let ghost fs = self@.fs;
        let dirs = &self.file_system.quick_dirs;
        let mut i: usize = 0;
        while i < dirs.len()
            invariant
                fs == self@.fs,
                fs.wf(),
                stream_listing_hash(vstd::utf8::encode_utf8(dir@)) == Some(hash),
                dirs@ == fs.quick_dirs,
                forall|k: int| 0 <= k < i ==> !fs.quick_dir_match(hash, k),
            decreases dirs.len() - i,
        {
            if dirs[i].hash40().0 == hash.0 {
                let qd = dirs[i];
                proof {
                    assert(fs.quick_dir_match(hash, i as int) && forall|k: int| 0 <= k < i ==> !fs.quick_dir_match(hash, k));
                    let q = choose|q: int| fs.quick_dir_match(hash, q) && forall|k: int| 0 <= k < q ==> !fs.quick_dir_match(hash, k);
                    assert(fs.quick_dir_match(hash, i as int));
                    if q < i {
                        assert(!fs.quick_dir_match(hash, q));
                    } else if q > i {
                        assert(!fs.quick_dir_match(hash, i as int));
                    }
                    assert(fs.quick_dirs[i as int] == qd);
                    assert(fs.quick_dirs[i as int].index + fs.quick_dirs[i as int].count <= fs.stream_entries.len());
                }
                // The length of a table in memory fits in a usize.
                let _entries = self.file_system.stream_entries.len();
                let start = qd.index as usize;
                let end = (qd.index as u64 + qd.count as u64) as usize;
                return Ok(vstd::slice::slice_subrange(self.file_system.stream_entries.as_slice(), start, end));
            }
            i = i + 1;
        }
        Err(LookupError::Missing)
    }

    /// What is known of a file: from the file tables, or else from the stream section.
    pub fn get_file_metadata(&self, hash: Hash40, region: Region) -> (r: Result<FileMetadata, LookupError>)
        requires
            self.wf(),
        ensures
            r == match self@.metadata_of(hash, region) {
                Some(m) => Ok::<FileMetadata, LookupError>(m),
                None => Err(LookupError::Missing),
            },
    {
        match self.get_file_path_index_from_hash(hash) {
            Ok(path_index) => {
                let file_path = &self.file_system.file_paths[path_index.0 as usize];
                let file_info = self.get_file_info_from_path_index(path_index);
                let file_data = self.get_file_data(file_info, region);
                let offset = self.payload_offset(file_info, region);
                Ok(
                    FileMetadata {
                        path_hash: file_path.path.hash40(),
                        ext_hash: file_path.ext.hash40(),
                        parent_hash: file_path.parent.hash40(),
                        file_name_hash: file_path.file_name.hash40(),
                        offset,
                        comp_size: file_data.comp_size as u64,
                        decomp_size: file_data.decomp_size as u64,
                        is_stream: false,
                        is_shared: offset >= self.shared_section_offset,
                        is_redirect: file_info.flags.is_redirect(),
                        is_regional: file_info.flags.is_regional(),
                        is_localized: file_info.flags.is_localized(),
                        is_compressed: file_data.flags.compressed(),
                        uses_zstd: file_data.flags.use_zstd(),
                    },
                )
            },
            Err(_) => {
                let stream_data = self.get_stream_data(hash)?;
                Ok(
                    FileMetadata {
                        path_hash: hash,
                        ext_hash: Hash40(0),
                        parent_hash: Hash40(0),
                        file_name_hash: Hash40(0),
                        offset: stream_data.offset,
                        comp_size: stream_data.size,
                        decomp_size: stream_data.size,
                        is_stream: true,
                        is_shared: false,
                        is_redirect: false,
                        is_regional: false,
                        is_localized: false,
                        is_compressed: false,
                        uses_zstd: false,
                    },
                )
            },
        }
    }
}

impl ArcFile {
    /// Every path hash whose file, in `region`, uses the same file data as
    /// `hash`, when that file lies in the shared section; none otherwise.
    pub fn get_shared_files(&self, hash: Hash40, region: Region) -> (r: Result<Vec<Hash40>, LookupError>)
        requires
            self.wf(),
        ensures
            match self@.shared_files_of(hash, region) {
                Some(s) => r matches Ok(v) && v@ == s,
                None => r matches Err(e) && e == LookupError::Missing,
            },
    {
        let metadata = self.get_file_metadata(hash, region)?;
        if !metadata.is_shared {
            return Ok(Vec::new());
        }
        let target = match self.get_file_info_from_hash(hash) {
            Ok(info) => self.get_file_in_folder(info, region).file_data_index,
            Err(_) => return Ok(Vec::new()),
        };
        let ghost v = self@;
        let table = &self.file_system.file_hash_to_path_index;
        let mut shared: Vec<Hash40> = Vec::new();
        let mut i: usize = 0;
        while i < table.len()
            invariant
                v == self@,
                self.wf(),
                table@ == v.fs.file_hash_to_path_index,
                i <= table@.len(),
                shared@ == v.sharing_prefix(i as int, region, target),
            decreases table.len() - i,
        {
            let h = table[i].hash40();
            if let Ok(info) = self.get_file_info_from_hash(h) {
                if self.get_file_in_folder(info, region).file_data_index == target {
                    shared.push(h);
                }
            }
            i = i + 1;
        }
        Ok(shared)
    }

    /// Reads a file's payload: `comp_size` bytes at its position, zstd-decoded
    /// when compressed. Compression other than zstd is `UnsupportedCompression`.
    pub fn read_file_data<R: SeekRead>(&self, reader: &mut R, file_data: &FileData, folder_offset: u64) -> (r: Result<
        Vec<u8>,
        LookupError,
    >)
        requires
            self.file_section_offset + folder_offset + file_data.offset_in_folder * 4 <= u64::MAX,
        ensures
            final(reader).contents() == old(reader).contents(),
            final(reader).reliable() == old(reader).reliable(),
            read_outcome(
                r,
                file_payload(
                    old(reader).contents(),
                    *file_data,
                    self.file_section_offset + folder_offset + file_data.offset_in_folder * 4,
                ),
                !(file_data.flags.spec_compressed() && !file_data.flags.spec_use_zstd()),
                old(reader).reliable(),
            ),
    {
        let offset = folder_offset + self.file_section_offset + (file_data.offset_in_folder as u64) * 4;
        if file_data.flags.compressed() && !file_data.flags.use_zstd() {
            return Err(LookupError::UnsupportedCompression);
        }
        let raw = match reader.read_at(offset, file_data.comp_size as u64) {
            Ok(raw) => raw,
            Err(e) => return Err(LookupError::FileRead(e)),
        };
        if file_data.flags.compressed() {
            let mut data: Vec<u8> = Vec::with_capacity(file_data.decomp_size as usize);
            match copy_decode(raw.as_slice(), &mut data) {
                Ok(()) => {
                    assert(data@ =~= Seq::<u8>::empty() + zstd_decoded(raw@)->Some_0);
                    Ok(data)
                },
                Err(e) => Err(LookupError::FileRead(e)),
            }
        } else {
            Ok(raw)
        }
    }

    /// Reads a stream payload: exactly `size` bytes at `offset`.
    pub fn read_stream_file_data<R: SeekRead>(&self, reader: &mut R, file_data: &StreamData) -> (r: Result<
        Vec<u8>,
        LookupError,
    >)
        ensures
            final(reader).contents() == old(reader).contents(),
            final(reader).reliable() == old(reader).reliable(),
            read_outcome(r, stream_payload(old(reader).contents(), *file_data), true, old(reader).reliable()),
    {
        let data = match reader.read_at(file_data.offset, file_data.size) {
            Ok(data) => data,
            Err(e) => return Err(LookupError::FileRead(e)),
        };
        finish_stream_read(data, file_data.size)
    }

    /// The payload of a file of the file tables.
    pub fn get_nonstream_file_contents<R: SeekRead>(&self, reader: &mut R, hash: Hash40, region: Region) -> (r: Result<
        Vec<u8>,
        LookupError,
    >)
        requires
            self.wf(),
        ensures
            final(reader).contents() == old(reader).contents(),
            final(reader).reliable() == old(reader).reliable(),
            match self@.fs.path_index_of(hash) {
                Some(p) => {
                    let info = self@.fs.info_of_path(p);
                    let fd = self@.fs.file_data_of(info, region);
                    read_outcome(
                        r,
                        file_payload(old(reader).contents(), fd, self@.payload_offset(info, region)),
                        !(fd.flags.spec_compressed() && !fd.flags.spec_use_zstd()),
                        old(reader).reliable(),
                    )
                },
                None => r matches Err(e) && e == LookupError::Missing,
            },
    {
        let file_info = match self.get_file_info_from_hash(hash) {
            Ok(info) => info,
            Err(e) => return Err(e),
        };
        let folder_offset = self.get_folder_offset(file_info, region);
        let file_data = self.get_file_data(file_info, region);
        proof {
            let i = FsView::info_row(*file_info, region);
            lemma_ordinal_bound(region);
            assert(self@.row_offset(i) <= u64::MAX);
        }
        self.read_file_data(reader, file_data, folder_offset)
    }

    /// The payload of a file of the stream section.
    pub fn get_stream_file_contents<R: SeekRead>(&self, reader: &mut R, hash: Hash40) -> (r: Result<Vec<u8>, LookupError>)
        requires
            self.wf(),
        ensures
            final(reader).contents() == old(reader).contents(),
            final(reader).reliable() == old(reader).reliable(),
            match self@.fs.stream_data_of(hash) {
                Some(sd) => read_outcome(r, stream_payload(old(reader).contents(), sd), true, old(reader).reliable()),
                None => r matches Err(e) && e == LookupError::Missing,
            },
    {
        let stream_data = self.get_stream_data(hash)?;
        self.read_stream_file_data(reader, stream_data)
    }

    /// The payload of hash `hash` in `region`: from the file tables, or else
    /// from the stream section. The reader is only read, at the payload's
    /// position; the lookup itself never fails the handle.
    pub fn get_file_contents<R: SeekRead>(&self, reader: &mut R, hash: Hash40, region: Region) -> (r: Result<
        Vec<u8>,
        LookupError,
    >)
        requires
            self.wf(),
        ensures
            final(reader).contents() == old(reader).contents(),
            final(reader).reliable() == old(reader).reliable(),
            read_outcome(
                r,
                self@.contents_from(old(reader).contents(), hash, region),
                self@.reads_payload(hash, region),
                old(reader).reliable(),
            ),
    {
        match self.get_nonstream_file_contents(reader, hash, region) {
            Err(LookupError::Missing) => self.get_stream_file_contents(reader, hash),
            r => r,
        }
    }
}

/// A file path that the path hash table lists in the bucket of its own hash,
/// with its own index, resolves to that index.
pub proof fn lemma_path_index_round_trip(fs: FsView, i: int, j: int)
    requires
        fs.wf(),
        0 <= i < fs.file_paths.len(),
        fs.file_info_buckets.len() > 0,
        fs.in_bucket(fs.file_paths[i].path.spec_hash40(), j),
        fs.file_hash_to_path_index[j].index == i,
    ensures
        fs.path_index_of(fs.file_paths[i].path.spec_hash40()) == Some(FilePathIdx(i as u32)),
{
    let h = fs.file_paths[i].path.spec_hash40();
    let b = fs.bucket_of(h);
    let n = (h.0 % fs.file_info_buckets.len() as u64) as int;
    assert(fs.bucket_ok(fs.file_info_buckets[n]));
    let k = choose|k: int| fs.in_bucket(h, k);
    lemma_unique_hash(fs.file_hash_to_path_index, b.start as int, b.start + b.count, h, j, k);
}

/// The buckets cover the path hash table back to back, without overlap.
pub proof fn lemma_buckets_tile(fs: FsView)
    requires
        fs.wf(),
    ensures
        buckets_tile(fs.file_info_buckets, fs.file_hash_to_path_index.len() as int),
{
}

/// Within every bucket, hashes strictly ascend.
pub proof fn lemma_bucket_ascending(fs: FsView, b: int, j: int, k: int)
    requires
        fs.wf(),
        0 <= b < fs.file_info_buckets.len(),
        fs.file_info_buckets[b].start <= j < k < fs.file_info_buckets[b].start + fs.file_info_buckets[b].count,
    ensures
        fs.file_hash_to_path_index[j].spec_hash40().0 < fs.file_hash_to_path_index[k].spec_hash40().0,
{
    assert(fs.bucket_ok(fs.file_info_buckets[b]));
}

/// The keys of `dir_hash_to_info_index` strictly ascend.
pub proof fn lemma_dir_hashes_ascending(fs: FsView, j: int, k: int)
    requires
        fs.wf(),
        0 <= j < k < fs.dir_hash_to_info_index.len(),
    ensures
        fs.dir_hash_to_info_index[j].spec_hash40().0 < fs.dir_hash_to_info_index[k].spec_hash40().0,
{
}

/// A regional file has a row of `file_info_to_datas` for each of the 14 regions.
pub proof fn lemma_regional_rows(fs: FsView, i: int)
    requires
        fs.wf(),
        0 <= i < fs.file_infos.len(),
        fs.file_infos[i].flags.spec_is_regional(),
    ensures
        fs.file_infos[i].info_to_data_index.0 + 14 <= fs.file_info_to_datas.len(),
{
}

/// A file read from the file tables has `decomp_size` bytes, when its stored
/// bytes are all there and decode to the size its record declares (an
/// uncompressed file declares equal sizes).
pub proof fn lemma_payload_length(arc: ArcView, d: Seq<u8>, h: Hash40, region: Region)
    requires
        arc.fs.path_index_of(h) is Some,
        ({
            let info = arc.fs.info_of_path(arc.fs.path_index_of(h)->Some_0);
            let fd = arc.fs.file_data_of(info, region);
            let raw = window(d, arc.payload_offset(info, region), fd.comp_size as int);
            &&& !(fd.flags.spec_compressed() && !fd.flags.spec_use_zstd())
            &&& fd.flags.spec_compressed() ==> (zstd_decoded(raw) matches Some(v) && v.len() == fd.decomp_size)
            &&& !fd.flags.spec_compressed() ==> (raw.len() == fd.comp_size && fd.comp_size == fd.decomp_size)
        }),
    ensures
        arc.contents_from(d, h, region) matches Ok(v) && v.len() == arc.fs.file_data_of(
            arc.fs.info_of_path(arc.fs.path_index_of(h)->Some_0),
            region,
        ).decomp_size,
{
}

/// A file of the file tables is shared exactly when its payload lies at or beyond
/// the start of the shared section.
pub proof fn lemma_shared_by_offset(arc: ArcView, h: Hash40, region: Region)
    requires
        arc.wf(),
        arc.metadata_of(h, region) matches Some(m) && !m.is_stream,
    ensures
        arc.metadata_of(h, region)->Some_0.is_shared <==> arc.metadata_of(h, region)->Some_0.offset
            >= arc.shared_section_offset,
{
    let p = arc.fs.path_index_of(h)->Some_0;
    let info = arc.fs.info_of_path(p);
    let k = arc.fs.file_paths[p.0 as int].path.index as int;
    let n = (h.0 % arc.fs.file_info_buckets.len() as u64) as int;
    assert(arc.fs.bucket_ok(arc.fs.file_info_buckets[n]));
    let j = choose|j: int| arc.fs.in_bucket(h, j);
    assert(arc.fs.file_hash_to_path_index[j].index < arc.fs.file_paths.len());
    assert(arc.fs.file_paths[p.0 as int].path.index < arc.fs.file_info_indices.len());
    let m = arc.fs.file_info_indices[k].file_info_index.0 as int;
    assert(info_rows_in_range(arc.fs.file_infos[m], arc.fs.file_info_to_datas.len() as int));
    lemma_ordinal_bound(region);
    assert(arc.row_offset(FsView::info_row(info, region)) <= u64::MAX);
}

/// Two lookups of the same hash and region on the same container contents
/// give the same outcome when the reader is reliable, and the same bytes
/// whenever both succeed.
pub proof fn lemma_repeated_lookup(
    arc: ArcView,
    d: Seq<u8>,
    h: Hash40,
    region: Region,
    r1: Result<Vec<u8>, LookupError>,
    r2: Result<Vec<u8>, LookupError>,
    reliable: bool,
)
    requires
        read_outcome(r1, arc.contents_from(d, h, region), arc.reads_payload(h, region), reliable),
        read_outcome(r2, arc.contents_from(d, h, region), arc.reads_payload(h, region), reliable),
        reliable || (r1 is Ok && r2 is Ok),
    ensures
        bytes_result(r1) == bytes_result(r2),
{
}

} // verus!
