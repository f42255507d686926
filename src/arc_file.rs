//! The archive handle: the container header, the file system it points at,
//! and the reader capability that payloads are fetched through.
use vstd::prelude::*;

use crate::binary::{le_u32, le_u64, read_u32, read_u64};
use crate::error::{IoErrorKind, ParseError};
use crate::tables::{decoded_tables, tables_fit, FileSystem, FsView};
use crate::filesystem::CompTableHeader;
use crate::zstd_backend::{decode_all, zstd_decoded};

verus! {

/// Magic number at offset 0 of the container.
pub const ARC_MAGIC: u64 = 0xABCD_EF98_7654_3210;

/// Magic number of the header that precedes the compressed file system.
pub const COMP_TABLE_MAGIC: u32 = 0x10;

/// Size of the container header: the magic and five 64-bit words.
pub const ARC_HEADER_SIZE: u64 = 48;

/// Size of the header of the compressed file system: the magic and three sizes.
pub const COMP_TABLE_HEADER_SIZE: u64 = 16;

/// The bytes of `d` from `offset`, at most `len` of them.
pub open spec fn window(d: Seq<u8>, offset: int, len: int) -> Seq<u8> {
    let start = if offset < d.len() { offset } else { d.len() as int };
    let end = if offset + len < d.len() { offset + len } else { d.len() as int };
    d.subrange(start, end)
}

/// A random-access byte source: the container that payloads are read from.
/// A caller that shares one among threads holds it under a lock for the whole
/// of each `read_at`.
pub trait SeekRead {
    /// The bytes of the source. A source that does not say holds some fixed,
    /// unspecified bytes.
    closed spec fn contents(&self) -> Seq<u8> {
        vstd::pervasive::arbitrary()
    }

    /// Whether reads never fail. A source that does not say may fail.
    closed spec fn reliable(&self) -> bool {
        false
    }

    /// Seeks to `offset` and reads until `len` bytes are read or the source ends.
    fn read_at(&mut self, offset: u64, len: u64) -> (r: Result<Vec<u8>, IoErrorKind>)
        ensures
            final(self).contents() == old(self).contents(),
            final(self).reliable() == old(self).reliable(),
            old(self).reliable() ==> r is Ok,
            r matches Ok(v) ==> v@ == window(old(self).contents(), offset as int, len as int),
    ;
}

/// A byte source held in memory.
pub struct MemoryReader {
    pub data: Vec<u8>,
}

impl MemoryReader {
    pub fn new(data: Vec<u8>) -> (r: MemoryReader)
        ensures
            r.data@ == data@,
    {
        MemoryReader { data }
    }
}

impl SeekRead for MemoryReader {
    open spec fn contents(&self) -> Seq<u8> {
        self.data@
    }

    open spec fn reliable(&self) -> bool {
        true
    }

    fn read_at(&mut self, offset: u64, len: u64) -> (r: Result<Vec<u8>, IoErrorKind>) {
        let n = self.data.len() as u64;
        let start = if offset < n { offset } else { n };
        let end = if len < n - start { start + len } else { n };
        let part = vstd::slice::slice_subrange(self.data.as_slice(), start as usize, end as usize);
        Ok(vstd::slice::slice_to_vec(part))
    }
}

/// The part of the container header that the tables do not hold.
#[derive(Clone, Copy, Debug, PartialEq, Eq, Structural)]
pub struct ArcHeader {
    pub stream_section_offset: u64,
    pub file_section_offset: u64,
    pub shared_section_offset: u64,
    pub file_system_offset: u64,
    pub patch_section: u64,
}

pub open spec fn arc_header_of(b: Seq<u8>) -> ArcHeader {
    ArcHeader {
        stream_section_offset: le_u64(b, 8),
        file_section_offset: le_u64(b, 16),
        shared_section_offset: le_u64(b, 24),
        file_system_offset: le_u64(b, 32),
        patch_section: le_u64(b, 40),
    }
}

impl ArcHeader {
    /// Reads the container header from the bytes at its start: fewer than 8
    /// bytes, or a right magic and fewer than 48, is an unexpected end of
    /// file; a magic other than `ARC_MAGIC` is `MalformedArchive`.
    pub fn parse(b: &[u8]) -> (r: Result<ArcHeader, ParseError>)
        ensures
            r == (if b@.len() < 8 {
                Err(ParseError::FileRead(IoErrorKind::UnexpectedEof))
            } else if le_u64(b@, 0) != ARC_MAGIC {
                Err(ParseError::MalformedArchive)
            } else if b@.len() < 48 {
                Err(ParseError::FileRead(IoErrorKind::UnexpectedEof))
            } else {
                Ok(arc_header_of(b@))
            }),
    {
        if b.len() < 8 {
            return Err(ParseError::FileRead(IoErrorKind::UnexpectedEof));
        }
        if read_u64(b, 0) != ARC_MAGIC {
            return Err(ParseError::MalformedArchive);
        }
        if b.len() < 48 {
            return Err(ParseError::FileRead(IoErrorKind::UnexpectedEof));
        }
        Ok(
            ArcHeader {
                stream_section_offset: read_u64(b, 8),
                file_section_offset: read_u64(b, 16),
                shared_section_offset: read_u64(b, 24),
                file_system_offset: read_u64(b, 32),
                patch_section: read_u64(b, 40),
            },
        )
    }
}

pub open spec fn comp_table_header_of(b: Seq<u8>) -> CompTableHeader {
    CompTableHeader { decomp_size: le_u32(b, 4), comp_size: le_u32(b, 8), section_size: le_u32(b, 12) }
}

impl CompTableHeader {
    /// Reads the header of the compressed file system: fewer than 16 bytes is
    /// an unexpected end of file, a magic other than `COMP_TABLE_MAGIC` is
    /// `MalformedArchive`.
    pub fn parse(b: &[u8]) -> (r: Result<CompTableHeader, ParseError>)
        ensures
            r == (if b@.len() < 16 {
                Err(ParseError::FileRead(IoErrorKind::UnexpectedEof))
            } else if le_u32(b@, 0) != COMP_TABLE_MAGIC {
                Err(ParseError::MalformedArchive)
            } else {
                Ok(comp_table_header_of(b@))
            }),
    {
        if b.len() < 16 {
            return Err(ParseError::FileRead(IoErrorKind::UnexpectedEof));
        }
        if read_u32(b, 0) != COMP_TABLE_MAGIC {
            return Err(ParseError::MalformedArchive);
        }
        Ok(
            CompTableHeader {
                decomp_size: read_u32(b, 4),
                comp_size: read_u32(b, 8),
                section_size: read_u32(b, 12),
            },
        )
    }
}

/// Bytes that were to number `len`: fewer is an unexpected end of file.
pub fn exact_length(data: Vec<u8>, len: u64) -> (r: Result<Vec<u8>, IoErrorKind>)
    ensures
        match r {
            Ok(v) => data@.len() == len && v@ == data@,
            Err(e) => data@.len() != len && e == IoErrorKind::UnexpectedEof,
        },
{
    if data.len() as u64 == len {
        Ok(data)
    } else {
        Err(IoErrorKind::UnexpectedEof)
    }
}

/// The archive: the section offsets of its container and its file system.
#[derive(Debug)]
pub struct ArcFile {
    pub stream_section_offset: u64,
    pub file_section_offset: u64,
    pub shared_section_offset: u64,
    pub file_system: FileSystem,
    pub patch_section: u64,
}

pub struct ArcView {
    pub stream_section_offset: u64,
    pub file_section_offset: u64,
    pub shared_section_offset: u64,
    pub patch_section: u64,
    pub fs: FsView,
}

impl View for ArcFile {
    type V = ArcView;

    open spec fn view(&self) -> ArcView {
        ArcView {
            stream_section_offset: self.stream_section_offset,
            file_section_offset: self.file_section_offset,
            shared_section_offset: self.shared_section_offset,
            patch_section: self.patch_section,
            fs: self.file_system@,
        }
    }
}

impl ArcView {
    /// The payload position of a row of `file_info_to_datas`:
    /// `file_section_offset + folder_offset + (offset_in_folder << 2)`.
    pub open spec fn row_offset(self, row: int) -> int {
        let r = self.fs.file_info_to_datas[row];
        self.file_section_offset + self.fs.folder_offsets[r.folder_offset_index as int].offset
            + self.fs.file_datas[r.file_data_index.0 as int].offset_in_folder * 4
    }

    /// The tables are well formed, and every payload position fits in 64 bits.
    pub open spec fn wf(self) -> bool {
        &&& self.fs.wf()
        &&& forall|row: int|
            0 <= row < self.fs.file_info_to_datas.len() ==> #[trigger] self.row_offset(row) <= u64::MAX
    }

    pub open spec fn with_tables(h: ArcHeader, fs: FsView) -> ArcView {
        ArcView {
            stream_section_offset: h.stream_section_offset,
            file_section_offset: h.file_section_offset,
            shared_section_offset: h.shared_section_offset,
            patch_section: h.patch_section,
            fs,
        }
    }
}

/// What opening a container with contents `d` gives, when the reader does not fail.
pub open spec fn archive_from(d: Seq<u8>) -> Result<ArcView, ParseError> {
    let head = window(d, 0, 48);
    let h = arc_header_of(head);
    let at = h.file_system_offset as int;
    let comp = window(d, at, 16);
    let comp_size = le_u32(comp, 8) as int;
    let blob = window(d, at + 16, comp_size);
    if head.len() < 8 {
        Err(ParseError::FileRead(IoErrorKind::UnexpectedEof))
    } else if le_u64(head, 0) != ARC_MAGIC {
        Err(ParseError::MalformedArchive)
    } else if head.len() < 48 {
        Err(ParseError::FileRead(IoErrorKind::UnexpectedEof))
    } else if at + 16 > u64::MAX || comp.len() < 16 {
        Err(ParseError::FileRead(IoErrorKind::UnexpectedEof))
    } else if le_u32(comp, 0) != COMP_TABLE_MAGIC {
        Err(ParseError::MalformedArchive)
    } else if blob.len() < comp_size {
        Err(ParseError::FileRead(IoErrorKind::UnexpectedEof))
    } else {
        match zstd_decoded(blob) {
            None => Err(ParseError::FileRead(IoErrorKind::Other)),
            Some(b) => {
                let v = ArcView::with_tables(h, decoded_tables(b));
                if tables_fit(b) && decoded_tables(b).wf() && v.wf() {
                    Ok(v)
                } else {
                    Err(ParseError::MalformedArchive)
                }
            },
        }
    }
}

/// A result of opening, with the archive seen through its view.
pub open spec fn arc_result(r: Result<ArcFile, ParseError>) -> Result<ArcView, ParseError> {
    match r {
        Ok(a) => Ok(a@),
        Err(e) => Err(e),
    }
}

impl ArcFile {
    pub open spec fn wf(&self) -> bool {
        self@.wf()
    }

    /// Whether every payload position fits in 64 bits.
    fn check_offsets(h: &ArcHeader, fs: &FileSystem) -> (r: bool)
        requires
            fs@.wf(),
        ensures
            r == ArcView::with_tables(*h, fs@).wf(),
    {
        let ghost v = ArcView::with_tables(*h, fs@);
        let mut i: usize = 0;
        while i < fs.file_info_to_datas.len()
            invariant
                fs@.wf(),
                v == ArcView::with_tables(*h, fs@),
                forall|row: int| 0 <= row < i ==> #[trigger] v.row_offset(row) <= u64::MAX,
            decreases fs.file_info_to_datas.len() - i,
        {
            let row = fs.file_info_to_datas[i];
            assert(fs@.file_info_to_datas[i as int] == row);
            let folder = fs.folder_offsets[row.folder_offset_index as usize].offset;
            let in_folder = fs.file_datas[row.file_data_index.0 as usize].offset_in_folder as u64 * 4;
            if h.file_section_offset > u64::MAX - folder || h.file_section_offset + folder > u64::MAX
                - in_folder {
                assert(v.row_offset(i as int) > u64::MAX);
                return false;
            }
            i = i + 1;
        }
        true
    }

    /// Joins a container header and its file system, when every payload
    /// position fits in 64 bits.
    pub fn from_parts(h: ArcHeader, fs: FileSystem) -> (r: Result<ArcFile, ParseError>)
        requires
            fs@.wf(),
        ensures
            match r {
                Ok(arc) => arc@ == ArcView::with_tables(h, fs@) && arc.wf(),
                Err(e) => e == ParseError::MalformedArchive && !ArcView::with_tables(h, fs@).wf(),
            },
    {
        if !ArcFile::check_offsets(&h, &fs) {
            return Err(ParseError::MalformedArchive);
        }
        Ok(
            ArcFile {
                stream_section_offset: h.stream_section_offset,
                file_section_offset: h.file_section_offset,
                shared_section_offset: h.shared_section_offset,
                file_system: fs,
                patch_section: h.patch_section,
            },
        )
    }

    /// Reads the archive from a container: the header at offset 0, then the
    /// zstd-compressed file system that it points at. The outcome is
    /// `archive_from` of the container's contents, except that a reader that
    /// may fail may give `FileRead` instead.
    pub fn from_reader<R: SeekRead>(reader: &mut R) -> (r: Result<ArcFile, ParseError>)
        ensures
            final(reader).contents() == old(reader).contents(),
            final(reader).reliable() == old(reader).reliable(),
            r matches Ok(arc) ==> arc.wf(),
            arc_result(r) == archive_from(old(reader).contents()) || (!old(reader).reliable() && r is Err
                && r->Err_0 is FileRead),
    {
        let head = match reader.read_at(0, ARC_HEADER_SIZE) {
            Ok(b) => b,
            Err(e) => return Err(ParseError::FileRead(e)),
        };
        let h = ArcHeader::parse(head.as_slice())?;
        let at = h.file_system_offset;
        if at > u64::MAX - COMP_TABLE_HEADER_SIZE {
            return Err(ParseError::FileRead(IoErrorKind::UnexpectedEof));
        }
        let comp_bytes = match reader.read_at(at, COMP_TABLE_HEADER_SIZE) {
            Ok(b) => b,
            Err(e) => return Err(ParseError::FileRead(e)),
        };
        let comp = CompTableHeader::parse(comp_bytes.as_slice())?;
        let blob = match reader.read_at(at + COMP_TABLE_HEADER_SIZE, comp.comp_size as u64) {
            Ok(b) => b,
            Err(e) => return Err(ParseError::FileRead(e)),
        };
        let blob = match exact_length(blob, comp.comp_size as u64) {
            Ok(b) => b,
            Err(e) => return Err(ParseError::FileRead(e)),
        };
        let tables = match decode_all(blob.as_slice()) {
            Ok(t) => t,
            Err(e) => return Err(ParseError::FileRead(e)),
        };
        let fs = FileSystem::parse(tables.as_slice())?;
        ArcFile::from_parts(h, fs)
    }
}

/// Opening two reliable readers over the same bytes gives the same outcome:
/// the same error, or archives with equal tables and offsets.
pub proof fn lemma_open_deterministic(d: Seq<u8>, r1: Result<ArcFile, ParseError>, r2: Result<ArcFile, ParseError>)
    requires
        arc_result(r1) == archive_from(d),
        arc_result(r2) == archive_from(d),
    ensures
        arc_result(r1) == arc_result(r2),
{
}

} // verus!
