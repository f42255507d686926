//! The directory tree: every file and directory linked to its parent, with
//! the parent directories of labelled paths named by walking their labels up
//! to the root.
use vstd::prelude::*;
use vstd::utf8::{decode_utf8, encode_utf8};

use std::collections::{HashMap, HashSet};

use crate::filesystem::{FilePath, HashToIndex};
use crate::hash40::{hash40, hash40_word, Hash40};
use crate::hash_labels::HashLabels;
use crate::tables::FileSystem;
use crate::FileNode;

verus! {

broadcast use vstd::std_specs::hash::group_hash_axioms;

pub open spec fn root_hash() -> Hash40 {
    Hash40(hash40_word(encode_utf8("/"@)))
}

/// The bytes without their trailing slashes.
pub open spec fn trim_slashes(b: Seq<u8>) -> Seq<u8>
    decreases b.len(),
{
    if b.len() > 0 && b.last() == 0x2F {
        trim_slashes(b.drop_last())
    } else {
        b
    }
}

/// The index of the last slash, or -1.
pub open spec fn last_slash(b: Seq<u8>) -> int
    decreases b.len(),
{
    if b.len() == 0 {
        -1
    } else if b.last() == 0x2F {
        b.len() - 1
    } else {
        last_slash(b.drop_last())
    }
}

proof fn lemma_trim_slashes(b: Seq<u8>)
    ensures
        trim_slashes(b).len() <= b.len(),
        trim_slashes(b) == b.subrange(0, trim_slashes(b).len() as int),
    decreases b.len(),
{
    if b.len() > 0 && b.last() == 0x2F {
        lemma_trim_slashes(b.drop_last());
        assert(b.drop_last().subrange(0, trim_slashes(b).len() as int) =~= b.subrange(0, trim_slashes(b).len() as int));
    } else {
        assert(b =~= b.subrange(0, b.len() as int));
    }
}

proof fn lemma_last_slash(b: Seq<u8>)
    ensures
        -1 <= last_slash(b) < b.len(),
        last_slash(b) >= 0 ==> b[last_slash(b)] == 0x2F,
    decreases b.len(),
{
    if b.len() > 0 && b.last() != 0x2F {
        lemma_last_slash(b.drop_last());
    }
}

/// The first directory above a label: the part before its last slash, once
/// trailing slashes are dropped.
pub open spec fn parent_end(b: Seq<u8>) -> int {
    last_slash(trim_slashes(b))
}

proof fn lemma_parent_end(b: Seq<u8>)
    ensures
        -1 <= parent_end(b) < b.len(),
        parent_end(b) >= 0 ==> b[parent_end(b)] == 0x2F,
{
    lemma_trim_slashes(b);
    lemma_last_slash(trim_slashes(b));
    if parent_end(b) >= 0 {
        assert(trim_slashes(b)[parent_end(b)] == b[parent_end(b)]);
    }
}

/// The links from the directory labelled `b` (hash `last`) up to the root.
pub open spec fn parent_walk(b: Seq<u8>, last: Hash40) -> Seq<(Hash40, FileNode)>
    decreases b.len(),
{
    let p = parent_end(b);
    if p < 0 || p >= b.len() {
        seq![(root_hash(), FileNode::Dir(last))]
    } else {
        let pre = b.subrange(0, p);
        let h = Hash40(hash40_word(pre));
        seq![(h, FileNode::Dir(last))] + parent_walk(pre, h)
    }
}

/// The topmost directory that the walk from `b` meets (`b` itself when none is above).
pub open spec fn walk_top(b: Seq<u8>) -> Seq<u8>
    decreases b.len(),
{
    let p = parent_end(b);
    if p < 0 || p >= b.len() {
        b
    } else {
        walk_top(b.subrange(0, p))
    }
}

/// The labels of the directories above `b`, from the nearest up.
pub open spec fn walk_prefixes(b: Seq<u8>) -> Seq<Seq<u8>>
    decreases b.len(),
{
    let p = parent_end(b);
    if p < 0 || p >= b.len() {
        Seq::empty()
    } else {
        let pre = b.subrange(0, p);
        seq![pre] + walk_prefixes(pre)
    }
}

/// `m` with each label of `ps` added under its hash, in order.
pub open spec fn add_labels(m: Map<u64, Seq<char>>, ps: Seq<Seq<u8>>) -> Map<u64, Seq<char>>
    decreases ps.len(),
{
    if ps.len() == 0 {
        m
    } else {
        add_labels(m.insert(hash40_word(ps[0]), decode_utf8(ps[0])), ps.drop_first())
    }
}

/// Appends the links from the directory labelled `label` (hash `last`) up to
/// the root, and adds the label of each directory met.
fn walk_parents<'a>(label: &'a str, last: Hash40, labels: &mut HashLabels, out: &mut Vec<(Hash40, FileNode)>) -> (r: &'a str)
    requires
        old(labels).wf(),
    ensures
        encode_utf8(r@) == walk_top(encode_utf8(label@)),
        final(out)@ == old(out)@ + parent_walk(encode_utf8(label@), last),
        final(labels).view() == add_labels(old(labels).view(), walk_prefixes(encode_utf8(label@))),
        final(labels).wf(),
{
    let ghost out0 = out@;
    let ghost labels0 = labels.view();
    let ghost b0 = encode_utf8(label@);
    let ghost last0 = last;
    let mut cur: &'a str = label;
    let mut last = last;
    loop
        invariant_except_break
            walk_top(b0) == walk_top(encode_utf8(cur@)),
            out0 + parent_walk(b0, last0) == out@ + parent_walk(encode_utf8(cur@), last),
            add_labels(labels0, walk_prefixes(b0)) == add_labels(labels.view(), walk_prefixes(encode_utf8(cur@))),
        invariant
            labels.wf(),
        ensures
            labels.wf(),
            walk_top(b0) == encode_utf8(cur@),
            out0 + parent_walk(b0, last0) == out@,
            add_labels(labels0, walk_prefixes(b0)) == labels.view(),
        decreases encode_utf8(cur@).len(),
    {
        let b = cur.as_bytes();
        let n = b.len();
        assert(b@ == encode_utf8(cur@));
        proof {
            lemma_parent_end(b@);
        }
        assert(b@.subrange(0, n as int) =~= b@);
        let mut t = n;
        while t > 0 && b[t - 1] == 0x2F
            invariant
                t <= n == b@.len(),
                trim_slashes(b@) == trim_slashes(b@.subrange(0, t as int)),
            decreases t,
        {
            assert(b@.subrange(0, t as int).drop_last() =~= b@.subrange(0, t - 1));
            t = t - 1;
        }
        assert(trim_slashes(b@.subrange(0, t as int)) == b@.subrange(0, t as int));
        let mut p = t;
        while p > 0 && b[p - 1] != 0x2F
            invariant
                p <= t <= n == b@.len(),
                last_slash(b@.subrange(0, t as int)) == last_slash(b@.subrange(0, p as int)),
            decreases p,
        {
            assert(b@.subrange(0, p as int).drop_last() =~= b@.subrange(0, p - 1));
            p = p - 1;
        }
        if p == 0 {
            assert(parent_end(b@) == -1int);
            assert(parent_walk(b@, last) =~= seq![(root_hash(), FileNode::Dir(last))]);
            assert(walk_prefixes(b@) =~= Seq::<Seq<u8>>::empty());
            assert(walk_top(b@) == b@);
            let ghost before = out@;
            out.push((hash40("/"), FileNode::Dir(last)));
            assert(out@ =~= before + parent_walk(b@, last));
            break;
        }
        let s = p - 1;
        assert(parent_end(b@) == s as int);
        assert(b@[s as int] == 0x2F);
        proof {
            vstd::utf8::encode_utf8_valid_utf8(cur@);
            vstd::utf8::is_char_boundary_iff_is_leading_byte(b@, s as int);
        }
        let (pre, _) = cur.split_at(s);
        let ghost pre_b = b@.subrange(0, s as int);
        proof {
            vstd::utf8::encode_utf8_decode_utf8(pre@);
            assert(encode_utf8(pre@) == pre_b);
        }
        assert(walk_top(b@) == walk_top(pre_b));
        let ghost labels_before = labels.view();
        let h = labels.add_label(pre.to_owned());
        proof {
            let ps = walk_prefixes(b@);
            assert(ps =~= seq![pre_b] + walk_prefixes(pre_b));
            assert(ps.drop_first() =~= walk_prefixes(pre_b));
            assert(decode_utf8(pre_b) == pre@);
            assert(add_labels(labels_before, ps) == add_labels(labels.view(), walk_prefixes(pre_b)));
        }
        assert(parent_walk(b@, last) =~= seq![(h, FileNode::Dir(last))] + parent_walk(pre_b, h));
        assert(walk_prefixes(b@) =~= seq![pre_b] + walk_prefixes(pre_b));
        let ghost before = out@;
        out.push((h, FileNode::Dir(last)));
        assert(out@ + parent_walk(pre_b, h) =~= before + parent_walk(b@, last));
        last = h;
        cur = pre;
    }
    cur
}

/// The links from a directory up to the root, when the dictionary has its
/// label; each directory met gets its label added.
pub fn parents_of_dir(dir: Hash40, labels: &mut HashLabels) -> (r: Option<Vec<(Hash40, FileNode)>>)
    requires
        old(labels).wf(),
    ensures
        final(labels).wf(),
        match old(labels).view().get(dir.0) {
            Some(l) => r matches Some(v) && v@ == parent_walk(encode_utf8(l), dir) && final(labels).view() == add_labels(
                old(labels).view(),
                walk_prefixes(encode_utf8(l)),
            ),
            None => r is None && final(labels).view() == old(labels).view(),
        },
{
    let label = match dir.label(labels) {
        Some(l) => l.to_owned(),
        None => return None,
    };
    let mut out: Vec<(Hash40, FileNode)> = Vec::new();
    walk_parents(label.as_str(), dir, labels, &mut out);
    assert(out@ =~= parent_walk(encode_utf8(label@), dir));
    Some(out)
}

/// The directory part of a path label: what comes before its last slash.
pub open spec fn dir_part(b: Seq<u8>) -> Option<Seq<u8>> {
    let p = last_slash(b);
    if 0 <= p < b.len() {
        Some(b.subrange(0, p))
    } else {
        None
    }
}

fn dir_part_of<'a>(label: &'a str) -> (r: Option<&'a str>)
    ensures
        match dir_part(encode_utf8(label@)) {
            Some(d) => r matches Some(x) && encode_utf8(x@) == d,
            None => r is None,
        },
{
    let b = label.as_bytes();
    let n = b.len();
    assert(b@.subrange(0, n as int) =~= b@);
    let mut p = n;
    while p > 0 && b[p - 1] != 0x2F
        invariant
            p <= n == b@.len(),
            last_slash(b@) == last_slash(b@.subrange(0, p as int)),
        decreases p,
    {
        assert(b@.subrange(0, p as int).drop_last() =~= b@.subrange(0, p - 1));
        p = p - 1;
    }
    if p == 0 {
        return None;
    }
    let s = p - 1;
    assert(last_slash(b@) == s as int);
    proof {
        vstd::utf8::encode_utf8_valid_utf8(label@);
        vstd::utf8::is_char_boundary_iff_is_leading_byte(b@, s as int);
    }
    let (d, _) = label.split_at(s);
    Some(d)
}

/// What a stream entry with hash `h` adds: when its label has a directory
/// part, that directory's links up to the root, and the labels met.
pub open spec fn stream_dir_step(m: Map<u64, Seq<char>>, h: Hash40) -> (Map<u64, Seq<char>>, Seq<(Hash40, FileNode)>) {
    if m.contains_key(h.0) && dir_part(encode_utf8(m[h.0])) is Some {
        let d = dir_part(encode_utf8(m[h.0]))->Some_0;
        let m1 = add_labels(m.insert(hash40_word(d), decode_utf8(d)), walk_prefixes(d));
        let top = walk_top(d);
        (m1.insert(hash40_word(top), decode_utf8(top)), parent_walk(d, Hash40(hash40_word(d))))
    } else {
        (m, Seq::empty())
    }
}

pub open spec fn stream_dirs_of(m: Map<u64, Seq<char>>, t: Seq<HashToIndex>, n: int) -> (Map<u64, Seq<char>>, Seq<(Hash40, FileNode)>)
    decreases n,
{
    if n <= 0 {
        (m, Seq::empty())
    } else {
        let prev = stream_dirs_of(m, t, n - 1);
        let step = stream_dir_step(prev.0, t[n - 1].spec_hash40());
        (step.0, prev.1 + step.1)
    }
}

/// A stream file linked to the directory part of its label, if it has one.
pub open spec fn stream_file_link(m: Map<u64, Seq<char>>, h: Hash40) -> Seq<(Hash40, FileNode)> {
    if m.contains_key(h.0) && dir_part(encode_utf8(m[h.0])) is Some {
        seq![(Hash40(hash40_word(dir_part(encode_utf8(m[h.0]))->Some_0)), FileNode::File(h))]
    } else {
        Seq::empty()
    }
}

pub open spec fn stream_files_of(m: Map<u64, Seq<char>>, t: Seq<HashToIndex>, n: int) -> Seq<(Hash40, FileNode)>
    decreases n,
{
    if n <= 0 {
        Seq::empty()
    } else {
        stream_files_of(m, t, n - 1) + stream_file_link(m, t[n - 1].spec_hash40())
    }
}

/// Some of the first `n` paths has parent `d`.
pub open spec fn parent_seen(paths: Seq<FilePath>, n: int, d: Hash40) -> bool {
    exists|j: int| 0 <= j < n && (#[trigger] paths[j]).parent.spec_hash40() == d
}

/// The links up to the root of each distinct parent directory of the first
/// `n` paths that has a label, in order of first appearance.
pub open spec fn dir_links_of(m: Map<u64, Seq<char>>, paths: Seq<FilePath>, n: int) -> (Map<u64, Seq<char>>, Seq<(Hash40, FileNode)>)
    decreases n,
{
    if n <= 0 {
        (m, Seq::empty())
    } else {
        let prev = dir_links_of(m, paths, n - 1);
        let d = paths[n - 1].parent.spec_hash40();
        if parent_seen(paths, n - 1, d) || !prev.0.contains_key(d.0) {
            prev
        } else {
            let l = encode_utf8(prev.0[d.0]);
            (add_labels(prev.0, walk_prefixes(l)), prev.1 + parent_walk(l, d))
        }
    }
}

/// Each file linked to its parent.
pub open spec fn file_links_of(paths: Seq<FilePath>) -> Seq<(Hash40, FileNode)> {
    Seq::new(paths.len(), |i: int| (paths[i].parent.spec_hash40(), FileNode::File(paths[i].path.spec_hash40())))
}

/// Every parent link of the tree, and the dictionary with the labels of the
/// directories met: files, then directories, then stream files, then stream
/// directories.
pub open spec fn listing_of(m: Map<u64, Seq<char>>, paths: Seq<FilePath>, t: Seq<HashToIndex>) -> (Map<u64, Seq<char>>, Seq<(Hash40, FileNode)>) {
    let sd = stream_dirs_of(m, t, t.len() as int);
    let sf = stream_files_of(sd.0, t, t.len() as int);
    let dl = dir_links_of(sd.0, paths, paths.len() as int);
    (dl.0, file_links_of(paths) + dl.1 + sf + sd.1)
}

/// Every parent link of the directory tree. Labels are added for the
/// directories met.
pub fn dir_listing_flat(fs: &FileSystem, labels: &mut HashLabels) -> (r: Vec<(Hash40, FileNode)>)
    requires
        old(labels).wf(),
    ensures
        final(labels).wf(),
        r@ == listing_of(old(labels).view(), fs.file_paths@, fs.stream_hash_to_entries@).1,
        final(labels).view() == listing_of(old(labels).view(), fs.file_paths@, fs.stream_hash_to_entries@).0,
{
    let ghost m0 = labels.view();
    let t = &fs.stream_hash_to_entries;
    let paths = &fs.file_paths;
    let mut stream_dirs: Vec<(Hash40, FileNode)> = Vec::new();
    let mut i: usize = 0;
    while i < t.len()
        invariant
            labels.wf(),
            i <= t@.len(),
            stream_dirs_of(m0, t@, i as int) == (labels.view(), stream_dirs@),
        decreases t.len() - i,
    {
        let h = t[i].hash40();
        let ghost m1 = labels.view();
        let ghost before = stream_dirs@;
        let dir = match h.label(labels) {
            Some(l) => match dir_part_of(l) {
                Some(d) => d.to_owned(),
                None => {
                    i = i + 1;
                    continue;
                },
            },
            None => {
                i = i + 1;
                continue;
            },
        };
        let ghost d = encode_utf8(dir@);
        proof {
            vstd::utf8::encode_utf8_decode_utf8(dir@);
        }
        let last = labels.add_label(dir.clone());
        let top = walk_parents(dir.as_str(), last, labels, &mut stream_dirs).to_owned();
        proof {
            vstd::utf8::encode_utf8_decode_utf8(top@);
        }
        labels.add_label(top);
        assert(stream_dirs@ == before + stream_dir_step(m1, h).1);
        i = i + 1;
    }
    let ghost m_streams = labels.view();
    let mut stream_files: Vec<(Hash40, FileNode)> = Vec::new();
    let mut i: usize = 0;
    while i < t.len()
        invariant
            labels.view() == m_streams,
            i <= t@.len(),
            stream_files@ == stream_files_of(m_streams, t@, i as int),
        decreases t.len() - i,
    {
        let h = t[i].hash40();
        if let Some(l) = h.label(labels) {
            if let Some(d) = dir_part_of(l) {
                stream_files.push((hash40(d), FileNode::File(h)));
            }
        }
        i = i + 1;
    }
    let mut links: Vec<(Hash40, FileNode)> = Vec::new();
    let mut i: usize = 0;
    while i < paths.len()
        invariant
            i <= paths@.len(),
            links@ =~= file_links_of(paths@).subrange(0, i as int),
        decreases paths.len() - i,
    {
        links.push((paths[i].parent.hash40(), FileNode::File(paths[i].path.hash40())));
        i = i + 1;
    }
    let mut seen: HashSet<u64> = HashSet::new();
    let mut dir_links: Vec<(Hash40, FileNode)> = Vec::new();
    let mut i: usize = 0;
    while i < paths.len()
        invariant
            labels.wf(),
            i <= paths@.len(),
            forall|k: u64| seen@.contains(k) <==> exists|j: int| 0 <= j < i && (#[trigger] paths@[j]).parent.spec_hash40().0 == k,
            dir_links_of(m_streams, paths@, i as int) == (labels.view(), dir_links@),
        decreases paths.len() - i,
    {
        let d = paths[i].parent.hash40();
        let fresh = seen.insert(d.0);
        assert(fresh == !parent_seen(paths@, i as int, d));
        if fresh {
            if let Some(mut walk) = parents_of_dir(d, labels) {
                dir_links.append(&mut walk);
            }
        }
        i = i + 1;
    }
    links.append(&mut dir_links);
    links.append(&mut stream_files);
    links.append(&mut stream_dirs);
    links
}

/// The order of nodes: directories first, each kind by hash.
pub open spec fn node_key(n: FileNode) -> int {
    match n {
        FileNode::Dir(h) => h.0 as int,
        FileNode::File(h) => h.0 + 0x1_0000_0000_0000_0000,
    }
}

pub open spec fn strictly_sorted(s: Seq<FileNode>) -> bool {
    forall|i: int, j: int| 0 <= i < j < s.len() ==> node_key(#[trigger] s[i]) < node_key(#[trigger] s[j])
}

fn node_less(a: FileNode, b: FileNode) -> (r: bool)
    ensures
        r == (node_key(a) < node_key(b)),
{
    match (a, b) {
        (FileNode::Dir(x), FileNode::Dir(y)) => x.0 < y.0,
        (FileNode::Dir(_), FileNode::File(_)) => true,
        (FileNode::File(_), FileNode::Dir(_)) => false,
        (FileNode::File(x), FileNode::File(y)) => x.0 < y.0,
    }
}

/// Inserts a node into a sorted list unless it is there.
fn insert_sorted(list: &mut Vec<FileNode>, node: FileNode)
    requires
        strictly_sorted(old(list)@),
    ensures
        strictly_sorted(final(list)@),
        forall|c: FileNode| final(list)@.contains(c) <==> (old(list)@.contains(c) || c == node),
{
    let mut lo: usize = 0;
    let mut hi: usize = list.len();
    while lo < hi
        invariant
            lo <= hi <= list@.len(),
            list@ == old(list)@,
            strictly_sorted(list@),
            forall|i: int| 0 <= i < lo ==> node_key(#[trigger] list@[i]) < node_key(node),
            forall|i: int| hi <= i < list@.len() ==> node_key(node) <= node_key(#[trigger] list@[i]),
        decreases hi - lo,
    {
        let mid = lo + (hi - lo) / 2;
        if node_less(list[mid], node) {
            lo = mid + 1;
        } else {
            hi = mid;
        }
    }
    if lo < list.len() && !node_less(node, list[lo]) {
        assert(node_key(list@[lo as int]) == node_key(node));
        assert(list@[lo as int] == node);
        return;
    }
    let ghost before = list@;
    list.insert(lo, node);
    assert forall|i: int, j: int| 0 <= i < j < list@.len() implies node_key(#[trigger] list@[i]) < node_key(
        #[trigger] list@[j],
    ) by {
        let bi = if i < lo { i } else { i - 1 };
        let bj = if j < lo { j } else { j - 1 };
        if i != lo && j != lo {
            assert(list@[i] == before[bi] && list@[j] == before[bj]);
            assert(bi < bj);
        } else if i == lo {
            assert(list@[j] == before[bj]);
        } else {
            assert(list@[i] == before[bi]);
        }
    }
    assert(before == old(list)@);
    assert forall|c: FileNode| list@.contains(c) <==> (old(list)@.contains(c) || c == node) by {
        if list@.contains(c) {
            let k = choose|k: int| 0 <= k < list@.len() && list@[k] == c;
            if k < lo {
                assert(before[k] == c);
            } else if k > lo {
                assert(before[k - 1] == c);
            }
        }
        if before.contains(c) {
            let k = choose|k: int| 0 <= k < before.len() && before[k] == c;
            if k < lo {
                assert(list@[k] == c);
            } else {
                assert(list@[k + 1] == c);
            }
        }
        if c == node {
            assert(list@[lo as int] == c);
        }
    }
}

/// The children of each directory, by hash.
pub struct DirTree {
    dirs: HashMap<u64, Vec<FileNode>>,
}

/// `t` lists, under each parent of the links, its children: strictly sorted,
/// each once.
pub open spec fn lists_children(links: Seq<(Hash40, FileNode)>, t: Map<u64, Seq<FileNode>>) -> bool {
    &&& forall|k: u64| t.contains_key(k) <==> exists|i: int| 0 <= i < links.len() && (#[trigger] links[i]).0.0 == k
    &&& forall|k: u64| #[trigger] t.contains_key(k) ==> strictly_sorted(t[k])
    &&& forall|k: u64, c: FileNode| #[trigger] t.contains_key(k) ==> (#[trigger] t[k].contains(c) <==> exists|i: int|
        0 <= i < links.len() && (#[trigger] links[i]).0.0 == k && links[i].1 == c)
}

impl DirTree {
    pub closed spec fn view(&self) -> Map<u64, Seq<FileNode>> {
        Map::new(|k: u64| self.dirs@.contains_key(k), |k: u64| self.dirs@[k]@)
    }

    /// The tree of a list of parent links.
    pub fn from_links(links: &Vec<(Hash40, FileNode)>) -> (r: DirTree)
        ensures
            lists_children(links@, r.view()),
    {
        let mut tree = DirTree { dirs: HashMap::new() };
        let mut i: usize = 0;
        while i < links.len()
            invariant
                i <= links@.len(),
                lists_children(links@.subrange(0, i as int), tree.view()),
            decreases links.len() - i,
        {
            let (parent, child) = links[i];
            let ghost before = tree.view();
            proof {
                if before.contains_key(parent.0) {
                    assert(strictly_sorted(before[parent.0]));
                }
            }
            let ghost seen = links@.subrange(0, i as int);
            let ghost now = links@.subrange(0, i + 1);
            assert(now =~= seen.push((parent, child)));
            let mut list = match tree.dirs.remove(&parent.0) {
                Some(list) => list,
                None => Vec::new(),
            };
            assert(strictly_sorted(list@));
            let ghost old_list = list@;
            insert_sorted(&mut list, child);
            tree.dirs.insert(parent.0, list);
            assert(tree.view() =~= before.insert(parent.0, list@));
            assert forall|k: u64| tree.view().contains_key(k) <==> exists|j: int| 0 <= j < now.len() && (#[trigger] now[j]).0.0 == k by {
                if k == parent.0 {
                    assert(now[i as int].0.0 == k);
                } else if before.contains_key(k) {
                    let j = choose|j: int| 0 <= j < seen.len() && (#[trigger] seen[j]).0.0 == k;
                    assert(now[j] == seen[j]);
                } else if exists|j: int| 0 <= j < now.len() && (#[trigger] now[j]).0.0 == k {
                    let j = choose|j: int| 0 <= j < now.len() && (#[trigger] now[j]).0.0 == k;
                    assert(seen[j] == now[j]);
                }
            }
            assert forall|k: u64, c: FileNode| #[trigger] tree.view().contains_key(k) implies (#[trigger] tree.view()[k].contains(c) <==> exists|j: int|
                0 <= j < now.len() && (#[trigger] now[j]).0.0 == k && now[j].1 == c) by {
                if k == parent.0 {
                    if exists|j: int| 0 <= j < now.len() && (#[trigger] now[j]).0.0 == k && now[j].1 == c {
                        let j = choose|j: int| 0 <= j < now.len() && (#[trigger] now[j]).0.0 == k && now[j].1 == c;
                        if j < i {
                            assert(seen[j] == now[j]);
                        }
                    }
                    if old_list.contains(c) {
                        let j = choose|j: int| 0 <= j < seen.len() && (#[trigger] seen[j]).0.0 == k && seen[j].1 == c;
                        assert(now[j] == seen[j]);
                    }
                    if c == child {
                        assert(now[i as int].0.0 == k && now[i as int].1 == c);
                    }
                } else {
                    if exists|j: int| 0 <= j < now.len() && (#[trigger] now[j]).0.0 == k && now[j].1 == c {
                        let j = choose|j: int| 0 <= j < now.len() && (#[trigger] now[j]).0.0 == k && now[j].1 == c;
                        assert(seen[j] == now[j]);
                    }
                    if before[k].contains(c) {
                        let j = choose|j: int| 0 <= j < seen.len() && (#[trigger] seen[j]).0.0 == k && seen[j].1 == c;
                        assert(now[j] == seen[j]);
                    }
                }
            }
            i = i + 1;
        }
        assert(links@.subrange(0, links@.len() as int) =~= links@);
        tree
    }

    /// The children of a directory, sorted.
    pub fn get_dir_listing(&self, hash: Hash40) -> (r: Option<&[FileNode]>)
        ensures
            match r {
                Some(s) => self.view().contains_key(hash.0) && s@ == self.view()[hash.0],
                None => !self.view().contains_key(hash.0),
            },
    {
        match self.dirs.get(&hash.0) {
            Some(list) => Some(list.as_slice()),
            None => None,
        }
    }
}

/// The directory tree of a file system; labels are added for the directories met.
pub fn generate_dir_listing(fs: &FileSystem, labels: &mut HashLabels) -> (r: DirTree)
    requires
        old(labels).wf(),
    ensures
        final(labels).wf(),
        final(labels).view() == listing_of(old(labels).view(), fs.file_paths@, fs.stream_hash_to_entries@).0,
        lists_children(listing_of(old(labels).view(), fs.file_paths@, fs.stream_hash_to_entries@).1, r.view()),
{
    let links = dir_listing_flat(fs, labels);
    DirTree::from_links(&links)
}

} // verus!
