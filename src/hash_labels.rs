//! The dictionary of hash labels: the strings whose `Hash40`s the archive
//! stores, one per line of a text file.
use std::collections::HashMap;

use vstd::prelude::*;
use vstd::utf8::encode_utf8;

use crate::hash40::{hash40, hash40_word, Hash40};

verus! {

broadcast use vstd::std_specs::hash::group_hash_axioms;

/// The index of the first line feed of `s`, or -1.
pub open spec fn first_newline(s: Seq<char>) -> int
    decreases s.len(),
{
    if s.len() == 0 {
        -1
    } else if s[0] == '\n' {
        0
    } else {
        let k = first_newline(s.drop_first());
        if k < 0 {
            -1
        } else {
            k + 1
        }
    }
}

/// A line without its carriage return, when one ends it.
pub open spec fn strip_cr(l: Seq<char>) -> Seq<char> {
    if l.len() > 0 && l.last() == '\r' {
        l.drop_last()
    } else {
        l
    }
}

/// The lines of a text: split at `\n` or `\r\n`, the final line ending optional.
pub open spec fn lines_of(s: Seq<char>) -> Seq<Seq<char>>
    decreases s.len(),
{
    if s.len() == 0 {
        Seq::empty()
    } else {
        let i = first_newline(s);
        if i < 0 || i >= s.len() {
            seq![s]
        } else {
            seq![strip_cr(s.subrange(0, i))] + lines_of(s.subrange(i + 1, s.len() as int))
        }
    }
}

proof fn lemma_first_newline_bound(s: Seq<char>)
    ensures
        -1 <= first_newline(s) < s.len(),
        first_newline(s) >= 0 ==> s[first_newline(s)] == '\n',
        forall|j: int| 0 <= j < s.len() && (first_newline(s) < 0 || j < first_newline(s)) ==> s[j] != '\n',
    decreases s.len(),
{
    if s.len() > 0 && s[0] != '\n' {
        lemma_first_newline_bound(s.drop_first());
        assert forall|j: int| 0 <= j < s.len() && (first_newline(s) < 0 || j < first_newline(s)) implies s[j]
            != '\n' by {
            if j > 0 {
                assert(s.drop_first()[j - 1] == s[j]);
            }
        }
    }
}

proof fn lemma_first_newline_at(cur: Seq<char>, rest: Seq<char>)
    requires
        forall|j: int| 0 <= j < cur.len() ==> cur[j] != '\n',
    ensures
        first_newline(cur + seq!['\n'] + rest) == cur.len(),
    decreases cur.len(),
{
    let s = cur + seq!['\n'] + rest;
    if cur.len() > 0 {
        lemma_first_newline_at(cur.drop_first(), rest);
        assert(s.drop_first() =~= cur.drop_first() + seq!['\n'] + rest);
    }
}

proof fn lemma_no_newline(cur: Seq<char>)
    requires
        forall|j: int| 0 <= j < cur.len() ==> cur[j] != '\n',
    ensures
        first_newline(cur) == -1,
    decreases cur.len(),
{
    if cur.len() > 0 {
        lemma_no_newline(cur.drop_first());
    }
}

/// Relies on `String::push`: the character is appended.
#[verifier::external_body]
fn push_char(s: &mut String, c: char)
    ensures
        final(s)@ == old(s)@.push(c),
{
    s.push(c)
}

pub open spec fn string_views(v: Seq<String>) -> Seq<Seq<char>> {
    v.map_values(|l: String| l@)
}

/// The line being read: what is kept, and a carriage return not yet known to
/// end the line.
pub open spec fn pending_line(cur: Seq<char>, cr: bool) -> Seq<char> {
    if cr {
        cur.push('\r')
    } else {
        cur
    }
}

/// Splits a text into its lines.
pub fn split_lines(text: &str) -> (r: Vec<String>)
    ensures
        string_views(r@) == lines_of(text@),
{
    let mut lines: Vec<String> = Vec::new();
    let mut cur = String::new();
    let mut cr = false;
    let mut it = text.chars();
    let ghost mut consumed: Seq<char> = Seq::empty();
    loop
        invariant
            text@ == consumed + vstd::std_specs::iter::IteratorSpec::remaining(&it),
            vstd::std_specs::iter::IteratorSpec::decrease(&it) is Some,
            forall|j: int| 0 <= j < pending_line(cur@, cr).len() ==> pending_line(cur@, cr)[j] != '\n',
            !cr ==> (cur@.len() == 0 || cur@.last() != '\r'),
            string_views(lines@) + lines_of(
                pending_line(cur@, cr) + vstd::std_specs::iter::IteratorSpec::remaining(&it),
            ) == lines_of(text@),
        ensures
            vstd::std_specs::iter::IteratorSpec::remaining(&it).len() == 0,
            forall|j: int| 0 <= j < pending_line(cur@, cr).len() ==> pending_line(cur@, cr)[j] != '\n',
            string_views(lines@) + lines_of(
                pending_line(cur@, cr) + vstd::std_specs::iter::IteratorSpec::remaining(&it),
            ) == lines_of(text@),
        decreases vstd::std_specs::iter::IteratorSpec::decrease(&it)->0,
    {
        let ghost before = vstd::std_specs::iter::IteratorSpec::remaining(&it);
        let ghost line = pending_line(cur@, cr);
        match it.next() {
            Some(c) => {
                let ghost after = vstd::std_specs::iter::IteratorSpec::remaining(&it);
                proof {
                    consumed = consumed.push(c);
                    assert(before =~= seq![c] + after);
                    assert(text@ =~= consumed + after);
                }
                if c == '\n' {
                    proof {
                        let s = line + seq!['\n'] + after;
                        lemma_first_newline_at(line, after);
                        assert(line + before =~= s);
                        assert(s.subrange(0, line.len() as int) =~= line);
                        assert(s.subrange(line.len() as int + 1, s.len() as int) =~= after);
                        assert(strip_cr(line) == cur@);
                        assert(lines_of(s) == seq![cur@] + lines_of(after));
                    }
                    let ghost prev = lines@;
                    let ghost done = cur@;
                    lines.push(cur);
                    assert(string_views(lines@) =~= string_views(prev).push(done));
                    cur = String::new();
                    cr = false;
                } else {
                    if cr {
                        push_char(&mut cur, '\r');
                    }
                    if c == '\r' {
                        cr = true;
                    } else {
                        push_char(&mut cur, c);
                        cr = false;
                    }
                    proof {
                        assert(pending_line(cur@, cr) =~= line.push(c));
                        assert(pending_line(cur@, cr) + after =~= line + before);
                    }
                }
            },
            None => {
                break;
            },
        }
    }
    let ghost line = pending_line(cur@, cr);
    if cr {
        push_char(&mut cur, '\r');
    }
    proof {
        assert(cur@ == line);
        assert(line + vstd::std_specs::iter::IteratorSpec::remaining(&it) =~= line);
        lemma_no_newline(line);
    }
    if !cur.as_str().is_empty() {
        let ghost prev = lines@;
        lines.push(cur);
        assert(string_views(lines@) =~= string_views(prev).push(line));
    }
    lines
}

/// Labels keyed by the hash of their UTF-8 bytes.
pub struct HashLabels {
    labels: HashMap<u64, String>,
}

/// The hash word of a label.
pub open spec fn label_hash(l: Seq<char>) -> u64 {
    hash40_word(encode_utf8(l))
}

/// The dictionary of a sequence of labels: each keyed by its hash, a later
/// label replacing an earlier one of the same hash.
pub open spec fn labels_map(ls: Seq<Seq<char>>) -> Map<u64, Seq<char>>
    decreases ls.len(),
{
    if ls.len() == 0 {
        Map::empty()
    } else {
        labels_map(ls.drop_last()).insert(label_hash(ls.last()), ls.last())
    }
}

impl HashLabels {
    pub closed spec fn view(&self) -> Map<u64, Seq<char>> {
        Map::new(|k: u64| self.labels@.contains_key(k), |k: u64| self.labels@[k]@)
    }

    /// Every label is keyed by its own hash.
    pub open spec fn wf(&self) -> bool {
        forall|k: u64| #[trigger] self.view().contains_key(k) ==> k == label_hash(self.view()[k])
    }

    pub fn new() -> (r: HashLabels)
        ensures
            r.view() == Map::<u64, Seq<char>>::empty(),
            r.wf(),
    {
        let r = HashLabels { labels: HashMap::new() };
        assert(r.view() =~= Map::<u64, Seq<char>>::empty());
        r
    }

    /// The labels, keyed by the hash word of each.
    pub fn labels(&self) -> (r: &HashMap<u64, String>)
        ensures
            forall|k: u64| #[trigger] r@.contains_key(k) <==> self.view().contains_key(k),
            forall|k: u64| #[trigger] r@.contains_key(k) ==> r@[k]@ == self.view()[k],
    {
        &self.labels
    }

    /// Adds a label under its hash, and returns the hash.
    pub fn add_label(&mut self, label: String) -> (r: Hash40)
        ensures
            r.0 == label_hash(label@),
            final(self).view() == old(self).view().insert(r.0, label@),
            old(self).wf() ==> final(self).wf(),
    {
        let hash = hash40(label.as_str());
        let ghost before = self.view();
        self.labels.insert(hash.0, label);
        assert(self.view() =~= before.insert(hash.0, label@));
        hash
    }

    /// One label for each line of the text, keyed by its hash; where two lines
    /// share a hash, the later one stays.
    pub fn from_string(text: &str) -> (r: HashLabels)
        ensures
            r.view() == labels_map(lines_of(text@)),
            r.wf(),
    {
        let lines = split_lines(text);
        let mut labels = HashLabels::new();
        let mut i: usize = 0;
        while i < lines.len()
            invariant
                string_views(lines@) == lines_of(text@),
                i <= lines@.len(),
                labels.view() == labels_map(string_views(lines@).subrange(0, i as int)),
                labels.wf(),
            decreases lines.len() - i,
        {
            let line = lines[i].clone();
            let ghost prefix = string_views(lines@).subrange(0, i + 1);
            assert(prefix.drop_last() =~= string_views(lines@).subrange(0, i as int));
            assert(prefix.last() == line@);
            labels.add_label(line);
            i = i + 1;
        }
        assert(string_views(lines@).subrange(0, lines@.len() as int) =~= string_views(lines@));
        labels
    }
}

impl Hash40 {
    /// The label of this hash, if the dictionary has one.
    pub fn label<'a>(self, labels: &'a HashLabels) -> (r: Option<&'a str>)
        ensures
            match r {
                Some(l) => labels.view().contains_key(self.0) && l@ == labels.view()[self.0],
                None => !labels.view().contains_key(self.0),
            },
    {
        match labels.labels.get(&self.0) {
            Some(l) => Some(l.as_str()),
            None => None,
        }
    }
}

/// Every label of a dictionary hashes to the key it is stored under.
pub proof fn lemma_labels_round_trip(labels: &HashLabels, h: u64)
    requires
        labels.wf(),
        labels.view().contains_key(h),
    ensures
        label_hash(labels.view()[h]) == h,
{
}

} // verus!
