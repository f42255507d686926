use smash_arc::zstd_backend::decode_all;
use smash_arc::{
    hash40, ArcFile, FileNode, FilePathIdx, Hash40, IoErrorKind, LookupError, MemoryReader, ParseError,
    Region,
};

fn put_u32(b: &mut Vec<u8>, v: u32) {
    b.extend_from_slice(&v.to_le_bytes());
}

fn put_u64(b: &mut Vec<u8>, v: u64) {
    b.extend_from_slice(&v.to_le_bytes());
}

/// A hash with a 24-bit index after it.
fn put_hash_to_index(b: &mut Vec<u8>, h: Hash40, index: u32) {
    put_u32(b, h.crc32());
    b.push(h.len());
    b.extend_from_slice(&index.to_le_bytes()[..3]);
}

/// A zstd frame holding `data` in one raw block.
fn zstd_raw_frame(data: &[u8]) -> Vec<u8> {
    let mut f = vec![0x28, 0xB5, 0x2F, 0xFD, 0xA0];
    put_u32(&mut f, data.len() as u32);
    let header = 1u32 | ((data.len() as u32) << 3);
    f.extend_from_slice(&header.to_le_bytes()[..3]);
    f.extend_from_slice(data);
    f
}

struct TestFile {
    path: &'static str,
    offset_in_folder: u32,
    comp_size: u32,
    decomp_size: u32,
    data_flags: u32,
    info_flags: u32,
}

const FILE_SECTION: u64 = 0x1000;
const SHARED_SECTION: u64 = 0x1080;
const STREAM_OFFSET: u64 = 0x2000;
const STREAM_PATH: &str = "stream:/sound/bgm/bgm_a.nus3audio";

fn plain() -> &'static [u8] {
    b"plain payload bytes!"
}

fn packed() -> &'static [u8] {
    b"decoded payload"
}

fn stream_bytes() -> &'static [u8] {
    b"stream data, verbatim"
}

fn test_files() -> Vec<TestFile> {
    let frame = zstd_raw_frame(packed());
    vec![
        TestFile {
            path: "a/plain.bin",
            offset_in_folder: 0,
            comp_size: plain().len() as u32,
            decomp_size: plain().len() as u32,
            data_flags: 0,
            info_flags: 0,
        },
        TestFile {
            path: "a/packed.bin",
            offset_in_folder: 0x10,
            comp_size: frame.len() as u32,
            decomp_size: packed().len() as u32,
            data_flags: 3,
            info_flags: 0,
        },
        TestFile {
            path: "a/other.bin",
            offset_in_folder: 0x20,
            comp_size: 4,
            decomp_size: 8,
            data_flags: 1,
            info_flags: 0x10,
        },
        TestFile {
            path: "shared/plain.bin",
            offset_in_folder: 0x60,
            comp_size: plain().len() as u32,
            decomp_size: plain().len() as u32,
            data_flags: 0,
            info_flags: 0,
        },
    ]
}

/// The decompressed file system of the test archive. The fourth file shares
/// the first one's file data in `Region::UsEnglish` through a regional row.
fn file_system_bytes(sorted: bool) -> Vec<u8> {
    let files = test_files();
    let n = files.len() as u32;
    let regional_rows = 15u32;
    let mut b = Vec::new();
    // File-system header.
    let header = [
        0, n, n, 1, 1, 0, n, n + regional_rows, n + 1, 0, 0, 0, 0x10, 0x10,
    ];
    for v in header {
        put_u32(&mut b, v);
    }
    b.extend_from_slice(&[0, 0, 0, 0]);
    for _ in 0..7 {
        put_u32(&mut b, 0);
    }
    assert_eq!(b.len(), 88);
    b.resize(0x100, 0);
    // Stream header.
    for v in [1u32, 1, 1, 1] {
        put_u32(&mut b, v);
    }
    // Quick directory "bgm" with the one stream entry.
    let bgm = hash40("bgm");
    put_u32(&mut b, bgm.crc32());
    b.push(bgm.len());
    b.extend_from_slice(&1u32.to_le_bytes()[..3]);
    put_u32(&mut b, 0);
    let stream_hash = hash40(STREAM_PATH);
    put_hash_to_index(&mut b, stream_hash, 0);
    put_hash_to_index(&mut b, stream_hash, 0);
    put_u32(&mut b, 0);
    put_u32(&mut b, 0);
    put_u64(&mut b, stream_bytes().len() as u64);
    put_u64(&mut b, STREAM_OFFSET);
    // Hash group and bucket counts, one bucket.
    put_u32(&mut b, n);
    put_u32(&mut b, 1);
    put_u32(&mut b, 0);
    put_u32(&mut b, n);
    let mut by_hash: Vec<(Hash40, u32)> =
        files.iter().enumerate().map(|(i, f)| (hash40(f.path), i as u32)).collect();
    by_hash.sort();
    if !sorted {
        by_hash.swap(0, 1);
    }
    for (h, i) in &by_hash {
        put_hash_to_index(&mut b, *h, *i);
    }
    // File paths.
    for (i, f) in files.iter().enumerate() {
        put_hash_to_index(&mut b, hash40(f.path), i as u32);
        put_hash_to_index(&mut b, hash40("bin"), 0);
        put_hash_to_index(&mut b, hash40("a"), 0);
        put_hash_to_index(&mut b, hash40(f.path.rsplit('/').next().unwrap()), 0);
    }
    // File-info indices.
    for i in 0..n {
        put_u32(&mut b, 0);
        put_u32(&mut b, i);
    }
    // One directory.
    put_hash_to_index(&mut b, hash40("a"), 0);
    put_hash_to_index(&mut b, hash40("a"), 0);
    put_u64(&mut b, hash40("a").as_u64());
    put_u64(&mut b, hash40("/").as_u64());
    for v in [0u32, 0, 0, 3, 0, 0, 0] {
        put_u32(&mut b, v);
    }
    // One folder offset, at the start of the file section.
    put_u64(&mut b, 0);
    for _ in 0..5 {
        put_u32(&mut b, 0);
    }
    // File infos: the last one is regional, with its rows after the others.
    for (i, f) in files.iter().enumerate() {
        let i = i as u32;
        put_u32(&mut b, i);
        put_u32(&mut b, i);
        if i == n - 1 {
            put_u32(&mut b, n);
            put_u32(&mut b, f.info_flags | 0x8000);
        } else {
            put_u32(&mut b, i);
            put_u32(&mut b, f.info_flags);
        }
    }
    // Info-to-data rows: one per file, then one per region for the regional file.
    for i in 0..n {
        put_u32(&mut b, 0);
        put_u32(&mut b, i);
        put_u32(&mut b, i);
    }
    for r in 0..regional_rows {
        put_u32(&mut b, 0);
        put_u32(&mut b, if r == 2 { 0 } else { n });
        put_u32(&mut b, n - 1);
    }
    // File datas: the regional file's own data is the extra last row.
    for f in files.iter() {
        put_u32(&mut b, f.offset_in_folder);
        put_u32(&mut b, f.comp_size);
        put_u32(&mut b, f.decomp_size);
        put_u32(&mut b, f.data_flags);
    }
    let last = files.last().unwrap();
    put_u32(&mut b, last.offset_in_folder);
    put_u32(&mut b, last.comp_size);
    put_u32(&mut b, last.decomp_size);
    put_u32(&mut b, last.data_flags);
    b
}

fn container(magic: u64, fs: &[u8]) -> Vec<u8> {
    let frame = zstd_raw_frame(fs);
    let mut c = Vec::new();
    put_u64(&mut c, magic);
    put_u64(&mut c, STREAM_OFFSET);
    put_u64(&mut c, FILE_SECTION);
    put_u64(&mut c, SHARED_SECTION);
    put_u64(&mut c, 48);
    put_u64(&mut c, 0);
    put_u32(&mut c, 0x10);
    put_u32(&mut c, fs.len() as u32);
    put_u32(&mut c, frame.len() as u32);
    put_u32(&mut c, 0);
    c.extend_from_slice(&frame);
    c.resize(0x3000, 0);
    let files = test_files();
    for f in &files {
        let at = (FILE_SECTION + ((f.offset_in_folder as u64) << 2)) as usize;
        let bytes: Vec<u8> = match f.data_flags {
            3 => zstd_raw_frame(packed()),
            0 => plain().to_vec(),
            _ => vec![1, 2, 3, 4],
        };
        c[at..at + bytes.len()].copy_from_slice(&bytes);
    }
    let at = STREAM_OFFSET as usize;
    c[at..at + stream_bytes().len()].copy_from_slice(stream_bytes());
    c
}

fn open_test_archive() -> (ArcFile, MemoryReader) {
    let bytes = container(0xABCD_EF98_7654_3210, &file_system_bytes(true));
    let mut reader = MemoryReader::new(bytes);
    let arc = ArcFile::from_reader(&mut reader).unwrap();
    (arc, reader)
}

#[test]
fn zstd_raw_frame_decodes() {
    assert_eq!(decode_all(&zstd_raw_frame(b"abc")).unwrap(), b"abc".to_vec());
    assert_eq!(decode_all(&[1, 2, 3]), Err(IoErrorKind::Other));
}

#[test]
fn opens_a_well_formed_archive() {
    let (arc, _) = open_test_archive();
    assert_eq!(arc.file_system.file_paths.len(), 4);
    assert_eq!(arc.file_section_offset, FILE_SECTION);
    assert_eq!(arc.shared_section_offset, SHARED_SECTION);
}

#[test]
fn bad_magic_is_malformed() {
    let bytes = container(0x1234, &file_system_bytes(true));
    let mut reader = MemoryReader::new(bytes);
    assert!(matches!(ArcFile::from_reader(&mut reader), Err(ParseError::MalformedArchive)));
}

#[test]
fn unsorted_bucket_is_malformed() {
    let bytes = container(0xABCD_EF98_7654_3210, &file_system_bytes(false));
    let mut reader = MemoryReader::new(bytes);
    assert!(matches!(ArcFile::from_reader(&mut reader), Err(ParseError::MalformedArchive)));
}

#[test]
fn truncated_container_is_eof() {
    let mut reader = MemoryReader::new(vec![0x10; 5]);
    assert!(matches!(
        ArcFile::from_reader(&mut reader),
        Err(ParseError::FileRead(IoErrorKind::UnexpectedEof))
    ));
    let mut reader = MemoryReader::new(container(0xABCD_EF98_7654_3210, &file_system_bytes(true))[..20].to_vec());
    assert!(matches!(
        ArcFile::from_reader(&mut reader),
        Err(ParseError::FileRead(IoErrorKind::UnexpectedEof))
    ));
}

#[test]
fn short_container_with_bad_magic_is_malformed() {
    let mut reader = MemoryReader::new(vec![0x10; 20]);
    assert!(matches!(ArcFile::from_reader(&mut reader), Err(ParseError::MalformedArchive)));
}

#[test]
fn every_path_resolves_to_itself() {
    let (arc, _) = open_test_archive();
    for (i, path) in arc.file_system.file_paths.iter().enumerate() {
        assert_eq!(arc.get_file_path_index_from_hash(path.path.hash40()), Ok(FilePathIdx(i as u32)));
    }
    assert_eq!(arc.get_file_path_index_from_hash(hash40("nope")), Err(LookupError::Missing));
}

#[test]
fn bucket_hashes_ascend() {
    let (arc, _) = open_test_archive();
    let t = &arc.file_system.file_hash_to_path_index;
    for w in t.windows(2) {
        assert!(w[0].hash40() < w[1].hash40());
    }
}

#[test]
fn plain_file_contents() {
    let (arc, mut reader) = open_test_archive();
    let data = arc.get_file_contents(&mut reader, hash40("a/plain.bin"), Region::UsEnglish).unwrap();
    assert_eq!(data, plain().to_vec());
}

#[test]
fn zstd_file_contents_have_decomp_size() {
    let (arc, mut reader) = open_test_archive();
    let h = hash40("a/packed.bin");
    let data = arc.get_file_contents(&mut reader, h, Region::UsEnglish).unwrap();
    assert_eq!(data, packed().to_vec());
    let fd = arc.get_file_data_from_hash(h, Region::UsEnglish).unwrap();
    assert_eq!(data.len(), fd.decomp_size as usize);
}

#[test]
fn non_zstd_compression_is_unsupported() {
    let (arc, mut reader) = open_test_archive();
    let r = arc.get_file_contents(&mut reader, hash40("a/other.bin"), Region::UsEnglish);
    assert_eq!(r, Err(LookupError::UnsupportedCompression));
}

#[test]
fn stream_only_file_contents() {
    let (arc, mut reader) = open_test_archive();
    let h = hash40(STREAM_PATH);
    assert_eq!(arc.get_file_path_index_from_hash(h), Err(LookupError::Missing));
    let data = arc.get_file_contents(&mut reader, h, Region::UsEnglish).unwrap();
    let sd = arc.get_stream_data(h).unwrap();
    assert_eq!(data.len() as u64, sd.size);
    assert_eq!(data, stream_bytes().to_vec());
}

#[test]
fn short_stream_read_is_eof() {
    let (arc, _) = open_test_archive();
    let mut short = MemoryReader::new(vec![0; STREAM_OFFSET as usize + 3]);
    let r = arc.get_file_contents(&mut short, hash40(STREAM_PATH), Region::UsEnglish);
    assert_eq!(r, Err(LookupError::FileRead(IoErrorKind::UnexpectedEof)));
}

#[test]
fn missing_everywhere() {
    let (arc, mut reader) = open_test_archive();
    let h = hash40("not/there");
    assert_eq!(arc.get_file_contents(&mut reader, h, Region::UsEnglish), Err(LookupError::Missing));
    assert_eq!(arc.get_file_metadata(h, Region::UsEnglish), Err(LookupError::Missing));
}

#[test]
fn repeated_lookups_agree() {
    let (arc, mut reader) = open_test_archive();
    let h = hash40("a/packed.bin");
    let first = arc.get_file_contents(&mut reader, h, Region::UsEnglish).unwrap();
    let second = arc.get_file_contents(&mut reader, h, Region::UsEnglish).unwrap();
    assert_eq!(first, second);
}

#[test]
fn parsing_twice_gives_equal_tables() {
    let (a, _) = open_test_archive();
    let (b, _) = open_test_archive();
    assert_eq!(a.file_system.file_paths, b.file_system.file_paths);
    assert_eq!(a.file_system.file_infos, b.file_system.file_infos);
    assert_eq!(a.file_system.file_info_to_datas, b.file_system.file_info_to_datas);
    assert_eq!(a.file_system.file_datas, b.file_system.file_datas);
    assert_eq!(a.file_system.stream_entries, b.file_system.stream_entries);
    assert_eq!(a.file_system.dir_infos, b.file_system.dir_infos);
}

#[test]
fn regional_file_uses_region_row() {
    let (arc, mut reader) = open_test_archive();
    let h = hash40("shared/plain.bin");
    let info = *arc.get_file_info_from_hash(h).unwrap();
    assert!(info.flags.is_regional());
    assert!(info.info_to_data_index.0 as usize + 14 <= arc.file_system.file_info_to_datas.len());
    assert_eq!(arc.get_file_in_folder(&info, Region::UsEnglish).file_data_index.0, 0);
    assert_eq!(arc.get_file_in_folder(&info, Region::Japanese).file_data_index.0, 4);
    let data = arc.get_file_contents(&mut reader, h, Region::UsEnglish).unwrap();
    assert_eq!(data, plain().to_vec());
}

#[test]
fn metadata_of_files_and_streams() {
    let (arc, _) = open_test_archive();
    let m = arc.get_file_metadata(hash40("a/other.bin"), Region::UsEnglish).unwrap();
    assert_eq!(m.path_hash, hash40("a/other.bin"));
    assert_eq!(m.offset, FILE_SECTION + 0x80);
    assert_eq!((m.comp_size, m.decomp_size), (4, 8));
    assert!(m.is_redirect && m.is_compressed && !m.uses_zstd && !m.is_stream);
    let s = arc.get_file_metadata(hash40(STREAM_PATH), Region::UsEnglish).unwrap();
    assert!(s.is_stream && !s.is_shared);
    assert_eq!((s.offset, s.comp_size), (STREAM_OFFSET, stream_bytes().len() as u64));
    assert_eq!(s.ext_hash, Hash40(0));
}

#[test]
fn shared_section_decides_sharing() {
    let (arc, _) = open_test_archive();
    let m = arc.get_file_metadata(hash40("shared/plain.bin"), Region::Japanese).unwrap();
    assert_eq!(m.offset, FILE_SECTION + 0x180);
    assert!(m.offset >= arc.shared_section_offset && m.is_shared);
    let m = arc.get_file_metadata(hash40("a/plain.bin"), Region::UsEnglish).unwrap();
    assert!(m.offset < arc.shared_section_offset && !m.is_shared);
    let m = arc.get_file_metadata(hash40("a/other.bin"), Region::UsEnglish).unwrap();
    assert!(m.offset == arc.shared_section_offset && m.is_shared);
}

#[test]
fn shared_files_list_same_data() {
    let (arc, _) = open_test_archive();
    let shared = arc.get_shared_files(hash40("shared/plain.bin"), Region::Japanese).unwrap();
    assert_eq!(shared, vec![hash40("shared/plain.bin")]);
    assert_eq!(arc.get_shared_files(hash40("a/plain.bin"), Region::UsEnglish).unwrap(), vec![]);
    assert_eq!(arc.get_shared_files(hash40("zzz"), Region::UsEnglish), Err(LookupError::Missing));
    let other = arc.get_shared_files(hash40("a/other.bin"), Region::UsEnglish).unwrap();
    assert_eq!(other, vec![hash40("a/other.bin")]);
}

#[test]
fn stream_listing_by_name() {
    let (arc, _) = open_test_archive();
    let listing = arc.get_stream_listing("stream:/sound/bgm").unwrap();
    assert_eq!(listing.len(), 1);
    assert_eq!(listing[0].hash40(), hash40(STREAM_PATH));
    assert_eq!(arc.get_stream_listing("bgm").unwrap().len(), 1);
    assert_eq!(arc.get_stream_listing("movie"), Err(LookupError::Missing));
    assert_eq!(arc.get_stream_listing("stream:/sound"), Err(LookupError::Missing));
    assert_eq!(arc.get_stream_listing("stream:/soundXbgm"), Err(LookupError::Missing));
    assert_eq!(arc.get_stream_listing("stream:/sound/"), Err(LookupError::Missing));
    assert_eq!(arc.get_stream_listing("elsewhere"), Err(LookupError::Missing));
}

#[test]
fn dir_info_by_hash() {
    let (arc, _) = open_test_archive();
    let dir = arc.get_dir_info_from_hash(hash40("a")).unwrap();
    assert_eq!(dir.name, hash40("a"));
    assert_eq!(dir.file_count, 3);
    assert_eq!(arc.get_dir_info_from_hash(hash40("b")).err(), Some(LookupError::Missing));
}

#[test]
fn file_nodes_order_dirs_first() {
    assert!(FileNode::Dir(Hash40(5)) < FileNode::File(Hash40(1)));
}

fn one_bucket_tables(start: u32) -> Vec<u8> {
    let mut b = vec![0u8; 0x110];
    put_u32(&mut b, 0);
    put_u32(&mut b, 1);
    put_u32(&mut b, start);
    put_u32(&mut b, 0);
    b
}

#[test]
fn buckets_must_tile_the_hash_table() {
    assert!(smash_arc::FileSystem::parse(&one_bucket_tables(0)).is_ok());
    assert_eq!(smash_arc::FileSystem::parse(&one_bucket_tables(1)).err(), Some(ParseError::MalformedArchive));
}
