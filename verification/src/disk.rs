//! What the caller has seen on disk. The library never touches the file
//! system: whoever calls it looks, records what is there, and hands the
//! record over. A path that was not recorded counts as absent.

use crate::command::opt_view;
use crate::text::same_text;
use vstd::prelude::*;
use vstd::string::StringExecFns;

verus! {

/// The mathematical value of a [`Disk`]: the paths that are present, each
/// with the text of the file where it was read.
pub type DiskView = Map<Seq<char>, Option<Seq<char>>>;

/// Whether `path` is present on `disk`.
pub open spec fn present(disk: DiskView, path: Seq<char>) -> bool {
    disk.dom().contains(path)
}

/// The text of the file at `path` on `disk`, where it is present and was read.
pub open spec fn text_at(disk: DiskView, path: Seq<char>) -> Option<Seq<char>> {
    if disk.dom().contains(path) {
        disk[path]
    } else {
        None
    }
}

/// The record that a list of observations amounts to: a later observation of
/// a path replaces an earlier one.
pub open spec fn disk_of(seen: Seq<(String, Option<String>)>) -> DiskView
    decreases seen.len(),
{
    if seen.len() == 0 {
        Map::empty()
    } else {
        disk_of(seen.drop_last()).insert(seen.last().0@, opt_view(seen.last().1))
    }
}

/// Observations of other paths do not change what is recorded of `path`.
proof fn lemma_disk_of_skip(seen: Seq<(String, Option<String>)>, path: Seq<char>, k: int)
    requires
        0 <= k <= seen.len(),
        forall|j: int| k <= j < seen.len() ==> seen[j].0@ != path,
    ensures
        present(disk_of(seen), path) == present(disk_of(seen.subrange(0, k)), path),
        text_at(disk_of(seen), path) == text_at(disk_of(seen.subrange(0, k)), path),
    decreases seen.len() - k,
{
    if k == seen.len() {
        assert(seen.subrange(0, k) =~= seen);
    } else {
        let shorter = seen.drop_last();
        assert(shorter.subrange(0, k) =~= seen.subrange(0, k));
        assert forall|j: int| k <= j < shorter.len() implies shorter[j].0@ != path by {
            assert(shorter[j] == seen[j]);
        }
        lemma_disk_of_skip(shorter, path, k);
    }
}

/// A record of what was seen on disk.
#[derive(Clone, Debug, PartialEq, Eq)]
pub struct Disk {
    seen: Vec<(String, Option<String>)>,
}

impl View for Disk {
    type V = DiskView;

    closed spec fn view(&self) -> DiskView {
        disk_of(self.seen@)
    }
}

impl Disk {
    /// The record of a disk on which nothing was seen.
    pub fn new() -> (out: Disk)
        ensures
            out@ == Map::<Seq<char>, Option<Seq<char>>>::empty(),
    {
        Disk { seen: Vec::new() }
    }

    /// Records that `path` is present.
    pub fn note(&mut self, path: &str)
        ensures
            final(self)@ == old(self)@.insert(path@, None),
    {
        let ghost before = self.seen@;
        self.seen.push((String::from_str(path), None));
        proof {
            assert(self.seen@.drop_last() =~= before);
        }
    }

    /// Records that `path` is a file that holds `text`.
    pub fn note_text(&mut self, path: &str, text: &str)
        ensures
            final(self)@ == old(self)@.insert(path@, Some(text@)),
    {
        let ghost before = self.seen@;
        self.seen.push((String::from_str(path), Some(String::from_str(text))));
        proof {
            assert(self.seen@.drop_last() =~= before);
        }
    }

    /// Where the latest observation of `path` stands.
    fn latest(&self, path: &str) -> (at: Option<usize>)
        ensures
            match at {
                Some(i) => i < self.seen.len() && present(self@, path@) && text_at(self@, path@)
                    == opt_view(self.seen[i as int].1),
                None => !present(self@, path@),
            },
    {
        let mut i: usize = self.seen.len();
        while i > 0
            invariant
                i <= self.seen.len(),
                forall|j: int| i <= j < self.seen.len() ==> self.seen[j].0@ != path@,
            decreases i,
        {
            if same_text(self.seen[i - 1].0.as_str(), path) {
                proof {
                    lemma_disk_of_skip(self.seen@, path@, i as int);
                    let upto = self.seen@.subrange(0, i as int);
                    assert(upto.last() == self.seen[i - 1]);
                }
                return Some(i - 1);
            }
            i -= 1;
        }
        proof {
            lemma_disk_of_skip(self.seen@, path@, 0);
            assert(self.seen@.subrange(0, 0) =~= Seq::empty());
        }
        None
    }

    /// Whether `path` was seen.
    pub fn has(&self, path: &str) -> (out: bool)
        ensures
            out == present(self@, path@),
    {
        self.latest(path).is_some()
    }

    /// The text of the file at `path`, where it was seen and read.
    pub fn text(&self, path: &str) -> (out: Option<String>)
        ensures
            match out {
                Some(t) => text_at(self@, path@) == Some(t@),
                None => text_at(self@, path@) is None,
            },
    {
        match self.latest(path) {
            Some(i) => self.seen[i].1.clone(),
            None => None,
        }
    }
}

} // verus!
