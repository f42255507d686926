use smash_arc::{
    generate_dir_listing, hash40, parents_of_dir, FileNode, FileSystem, FilePath, FolderPathListEntry,
    Hash40, Hash40String, HashLabels, HashToIndex, PathListEntry, SearchListEntry,
};

fn hti(s: &str, index: u32) -> HashToIndex {
    let h = hash40(s);
    HashToIndex { hash: h.crc32(), length: h.len(), index }
}

fn path(p: &str, parent: &str, name: &str) -> FilePath {
    FilePath { path: hti(p, 0), ext: hti("bin", 0), parent: hti(parent, 0), file_name: hti(name, 0) }
}

fn tiny_fs(paths: Vec<FilePath>, streams: Vec<HashToIndex>) -> FileSystem {
    let mut b = vec![0u8; 0x110];
    b.extend_from_slice(&[0; 8]);
    let mut fs = FileSystem::parse(&b).unwrap();
    fs.file_paths = paths;
    fs.stream_hash_to_entries = streams;
    fs
}

#[test]
fn parents_walk_up_to_root() {
    let mut labels = HashLabels::from_string("fighter/mario/model\n");
    let links = parents_of_dir(hash40("fighter/mario/model"), &mut labels).unwrap();
    assert_eq!(
        links,
        vec![
            (hash40("fighter/mario"), FileNode::Dir(hash40("fighter/mario/model"))),
            (hash40("fighter"), FileNode::Dir(hash40("fighter/mario"))),
            (hash40("/"), FileNode::Dir(hash40("fighter"))),
        ]
    );
    assert_eq!(hash40("fighter/mario").label(&labels), Some("fighter/mario"));
    assert_eq!(hash40("fighter").label(&labels), Some("fighter"));
    assert_eq!(parents_of_dir(hash40("unknown"), &mut labels), None);
}

#[test]
fn trailing_slashes_are_skipped() {
    let mut labels = HashLabels::from_string("a/b//\n");
    let links = parents_of_dir(hash40("a/b//"), &mut labels).unwrap();
    assert_eq!(links[0], (hash40("a"), FileNode::Dir(hash40("a/b//"))));
    assert_eq!(links[1], (hash40("/"), FileNode::Dir(hash40("a"))));
}

#[test]
fn directory_tree_lists_sorted_children() {
    let mut labels = HashLabels::from_string("a/b\nstream:/sound/bgm/x.nus3audio\n");
    let fs = tiny_fs(
        vec![path("a/b/two.bin", "a/b", "two.bin"), path("a/b/one.bin", "a/b", "one.bin")],
        vec![hti("stream:/sound/bgm/x.nus3audio", 0)],
    );
    let tree = generate_dir_listing(&fs, &mut labels);
    let mut files = vec![FileNode::File(hash40("a/b/two.bin")), FileNode::File(hash40("a/b/one.bin"))];
    files.sort();
    assert_eq!(tree.get_dir_listing(hash40("a/b")).unwrap(), &files[..]);
    assert_eq!(tree.get_dir_listing(hash40("a")).unwrap(), &[FileNode::Dir(hash40("a/b"))][..]);
    let root = tree.get_dir_listing(hash40("/")).unwrap();
    assert!(root.contains(&FileNode::Dir(hash40("a"))));
    assert!(root.contains(&FileNode::Dir(hash40("stream:"))));
    assert_eq!(
        tree.get_dir_listing(hash40("stream:/sound/bgm")).unwrap(),
        &[FileNode::File(hash40("stream:/sound/bgm/x.nus3audio"))][..]
    );
    assert_eq!(hash40("stream:/sound").label(&labels), Some("stream:/sound"));
    assert!(tree.get_dir_listing(hash40("nowhere")).is_none());
}

#[test]
fn search_cache_collects_in_match_order() {
    let fs = tiny_fs(
        vec![path("a/x.bin", "a", "x.bin"), path("b/x.bin", "b", "x.bin"), path("a/y.bin", "a", "y.bin")],
        vec![],
    );
    let mut b = vec![0u8; 0x110];
    b.extend_from_slice(&[0; 8]);
    let header = smash_arc::ArcHeader {
        stream_section_offset: 0,
        file_section_offset: 0,
        shared_section_offset: 0,
        file_system_offset: 0,
        patch_section: 0,
    };
    let arc = smash_arc::ArcFile::from_parts(header, FileSystem::parse(&b).unwrap()).unwrap();
    assert!(arc.file_system.file_paths.is_empty());
    let cache = smash_arc::ArcFile { file_system: fs, ..arc }.generate_search_cache();
    let found = cache.collect_matches(&[hash40("x.bin"), hash40("a")], 10);
    assert_eq!(found, vec![hash40("a/x.bin"), hash40("b/x.bin"), hash40("a/x.bin"), hash40("a/y.bin")]);
    assert_eq!(cache.collect_matches(&[hash40("a")], 1), vec![hash40("a/x.bin")]);
    assert_eq!(cache.collect_matches(&[hash40("zzz")], 5), vec![]);
}

#[test]
fn hash40_string_forms() {
    assert_eq!(Hash40String::parse("0x29954022ed").0, Hash40(0x29954022ed));
    assert_eq!(Hash40String::parse("0x0x1F").0, Hash40(0x1f));
    assert_eq!(Hash40String::parse("0x+ff").0, Hash40(0xff));
    assert_eq!(Hash40String::parse("0xzz").0, hash40("0xzz"));
    assert_eq!(Hash40String::parse("0x").0, hash40("0x"));
    assert_eq!(Hash40String::parse("0x1ffffffffffffffff").0, hash40("0x1ffffffffffffffff"));
    assert_eq!(Hash40String::parse("fighter").0, hash40("fighter"));
}

#[test]
fn search_entries_switch_kind() {
    let e = PathListEntry(SearchListEntry {
        path: hti("a/b", 5),
        parent: hti("a", 7),
        file_name: hti("b", 1),
        ext: hti("bin", 2),
    });
    assert!(!e.is_directory());
    let mut f = e.as_folder_entry();
    assert_eq!(f.0.path.index, 0xFF_FFFF);
    assert_eq!(f.0.parent.index, 0x40_0000);
    assert_eq!((f.0.ext.hash, f.0.ext.length, f.0.ext.index), (0xFFFF_FFFF, 0, 0));
    assert_eq!(f.get_child_count(), 0x40_0000);
    f.set_first_child_index(0x1234_5678);
    assert_eq!(f.get_first_child_index(), 0x34_5678);
    let p: PathListEntry = FolderPathListEntry(f.0).as_path_entry();
    assert!(p.is_directory());
    assert_eq!(p.0.ext, HashToIndex { hash: 0, length: 0, index: 0 });
    assert_eq!(p.0.file_name, hti("b", 1));
}
