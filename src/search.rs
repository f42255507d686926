//! The search cache: from a file-name or parent hash to the paths under it.
use std::collections::HashMap;

use vstd::prelude::*;

use crate::arc_file::ArcFile;
use crate::filesystem::FilePath;
use crate::hash40::Hash40;

verus! {

broadcast use vstd::std_specs::hash::group_hash_axioms;

/// The paths of the archive, keyed by the hash of their file name and of their parent.
pub struct SearchCache {
    cache: HashMap<u64, Vec<Hash40>>,
}

/// `m` with `h` appended to the list under `k`.
pub open spec fn append_to(m: Map<u64, Seq<Hash40>>, k: u64, h: Hash40) -> Map<u64, Seq<Hash40>> {
    m.insert(k, if m.contains_key(k) { m[k].push(h) } else { seq![h] })
}

/// The cache of the first `n` file paths: each path under its file name, then
/// under its parent, in table order.
pub open spec fn search_cache_of(paths: Seq<FilePath>, n: int) -> Map<u64, Seq<Hash40>>
    decreases n,
{
    if n <= 0 {
        Map::empty()
    } else {
        let p = paths[n - 1];
        let m = search_cache_of(paths, n - 1);
        append_to(
            append_to(m, p.file_name.spec_hash40().0, p.path.spec_hash40()),
            p.parent.spec_hash40().0,
            p.path.spec_hash40(),
        )
    }
}

impl SearchCache {
    pub closed spec fn view(&self) -> Map<u64, Seq<Hash40>> {
        Map::new(|k: u64| self.cache@.contains_key(k), |k: u64| self.cache@[k]@)
    }

    fn append(&mut self, k: u64, h: Hash40)
        ensures
            final(self).view() == append_to(old(self).view(), k, h),
    {
        let ghost before = self.view();
        let mut list = match self.cache.remove(&k) {
            Some(list) => list,
            None => Vec::new(),
        };
        list.push(h);
        self.cache.insert(k, list);
        assert(self.view() =~= append_to(before, k, h));
    }

    /// The paths cached under `h`, none when there are none.
    pub open spec fn paths_under(self, h: Hash40) -> Seq<Hash40> {
        if self.view().contains_key(h.0) {
            self.view()[h.0]
        } else {
            Seq::empty()
        }
    }

    /// The paths under each of `matches` in turn, all together.
    pub open spec fn flat_matches(self, matches: Seq<Hash40>) -> Seq<Hash40>
        decreases matches.len(),
    {
        if matches.len() == 0 {
            Seq::empty()
        } else {
            self.flat_matches(matches.drop_last()) + self.paths_under(matches.last())
        }
    }

    proof fn lemma_flat_prefix(self, matches: Seq<Hash40>, i: int)
        requires
            0 <= i <= matches.len(),
        ensures
            self.flat_matches(matches.subrange(0, i)).len() <= self.flat_matches(matches).len(),
            self.flat_matches(matches.subrange(0, i)) == self.flat_matches(matches).subrange(
                0,
                self.flat_matches(matches.subrange(0, i)).len() as int,
            ),
        decreases matches.len() - i,
    {
        if i == matches.len() {
            assert(matches.subrange(0, i) =~= matches);
            assert(self.flat_matches(matches) =~= self.flat_matches(matches).subrange(
                0,
                self.flat_matches(matches).len() as int,
            ));
        } else {
            self.lemma_flat_prefix(matches, i + 1);
            assert(matches.subrange(0, i + 1).drop_last() =~= matches.subrange(0, i));
            let a = self.flat_matches(matches.subrange(0, i));
            let b = self.flat_matches(matches.subrange(0, i + 1));
            let f = self.flat_matches(matches);
            assert(a =~= b.subrange(0, a.len() as int));
            assert(a =~= f.subrange(0, a.len() as int));
        }
    }

    /// The paths cached under the matches, in the order of the matches, at
    /// most `max` of them.
    pub fn collect_matches(&self, matches: &[Hash40], max: usize) -> (r: Vec<Hash40>)
        ensures
            r@ == if self.flat_matches(matches@).len() <= max {
                self.flat_matches(matches@)
            } else {
                self.flat_matches(matches@).subrange(0, max as int)
            },
    {
        let mut out: Vec<Hash40> = Vec::new();
        if max == 0 {
            return out;
        }
        let mut i: usize = 0;
        while i < matches.len()
            invariant
                0 < max,
                i <= matches@.len(),
                out@ == self.flat_matches(matches@.subrange(0, i as int)),
                out@.len() < max,
            decreases matches.len() - i,
        {
            let ghost done = out@;
            assert(matches@.subrange(0, i + 1).drop_last() =~= matches@.subrange(0, i as int));
            assert(matches@.subrange(0, i + 1).last() == matches@[i as int]);
            if let Some(list) = self.cache.get(&matches[i].0) {
                assert(list@ == self.paths_under(matches@[i as int]));
                let mut j: usize = 0;
                while j < list.len()
                    invariant
                        0 < max,
                        i < matches@.len(),
                        j <= list@.len(),
                        out@ == done + list@.subrange(0, j as int),
                        done == self.flat_matches(matches@.subrange(0, i as int)),
                        list@ == self.paths_under(matches@[i as int]),
                        out@.len() < max,
                    decreases list.len() - j,
                {
                    out.push(list[j]);
                    assert(list@.subrange(0, j + 1) =~= list@.subrange(0, j as int).push(list@[j as int]));
                    j = j + 1;
                    if out.len() == max {
                        proof {
                            self.lemma_flat_prefix(matches@, i + 1);
                            let whole = self.flat_matches(matches@);
                            let upto = self.flat_matches(matches@.subrange(0, i + 1));
                            assert(matches@.subrange(0, i + 1).drop_last() =~= matches@.subrange(0, i as int));
                            assert(matches@.subrange(0, i + 1).last() == matches@[i as int]);
                            assert(upto =~= done + list@);
                            assert(out@ =~= upto.subrange(0, max as int));
                            assert(out@ =~= whole.subrange(0, max as int));
                        }
                        return out;
                    }
                }
                assert(list@.subrange(0, list@.len() as int) =~= list@);
            } else {
                assert(self.paths_under(matches@[i as int]) =~= Seq::<Hash40>::empty());
                assert(out@ =~= done + self.paths_under(matches@[i as int]));
            }
            i = i + 1;
        }
        assert(matches@.subrange(0, matches@.len() as int) =~= matches@);
        out
    }
}

impl ArcFile {
    /// Caches every path under the hash of its file name and of its parent.
    pub fn generate_search_cache(&self) -> (r: SearchCache)
        ensures
            r.view() == search_cache_of(self.file_system.file_paths@, self.file_system.file_paths@.len() as int),
    {
        let mut cache = SearchCache { cache: HashMap::new() };
        assert(cache.view() =~= Map::<u64, Seq<Hash40>>::empty());
        let paths = &self.file_system.file_paths;
        let mut i: usize = 0;
        while i < paths.len()
            invariant
                i <= paths@.len(),
                cache.view() == search_cache_of(paths@, i as int),
            decreases paths.len() - i,
        {
            let p = paths[i];
            cache.append(p.file_name.hash40().0, p.path.hash40());
            cache.append(p.parent.hash40().0, p.path.hash40());
            i = i + 1;
        }
        cache
    }
}

} // verus!
