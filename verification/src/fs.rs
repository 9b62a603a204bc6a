//! What passes between the library and the control group file system.
//!
//! The library never touches a file itself. A setter hands back the write to
//! carry out, and a getter reads from a [`Snapshot`]: what the caller has seen
//! of the file system, or what a file system that keeps each text as written
//! would hold.
use vstd::prelude::*;

verus! {

/// A write to carry out: create or truncate the file at `path` and write `data` to it.
#[derive(Debug)]
pub struct FileWrite {
    /// The file to write to.
    pub path: String,
    /// The text to write.
    pub data: String,
}

/// A file that a controller has agreed to open.
#[derive(Debug)]
pub struct OpenFile {
    /// The file to open.
    pub path: String,
    /// Whether the file is opened for writing (created or truncated) rather than for reading.
    pub write: bool,
}

/// One file of a snapshot.
#[derive(Debug)]
pub struct FileEntry {
    /// Where the file is.
    pub path: String,
    /// What the file holds.
    pub content: String,
}

/// A view of the control group file system: the directories that exist and the
/// text of each file that can be read. A file that is missing from the snapshot
/// is a file that cannot be read.
#[derive(Debug)]
pub struct Snapshot {
    dirs: Vec<String>,
    files: Vec<FileEntry>,
}

/// The files that a list of entries describes; a later entry replaces an earlier
/// one for the same path.
pub open spec fn files_of(entries: Seq<FileEntry>) -> Map<Seq<char>, Seq<char>>
    decreases entries.len(),
{
    if entries.len() == 0 {
        Map::empty()
    } else {
        files_of(entries.drop_last()).insert(entries.last().path@, entries.last().content@)
    }
}

/// The paths that a list of directory names holds.
pub open spec fn dirs_of(names: Seq<String>) -> Set<Seq<char>> {
    Set::new(|p: Seq<char>| exists|i: int| 0 <= i < names.len() && #[trigger] names[i]@ == p)
}

impl Snapshot {
    /// The text of each readable file, by path.
    pub closed spec fn files(&self) -> Map<Seq<char>, Seq<char>> {
        files_of(self.files@)
    }

    /// The directories that exist.
    pub closed spec fn dirs(&self) -> Set<Seq<char>> {
        dirs_of(self.dirs@)
    }

    /// The text of the file at `path`, if it can be read.
    pub open spec fn content(&self, path: Seq<char>) -> Option<Seq<char>> {
        if self.files().contains_key(path) {
            Some(self.files()[path])
        } else {
            None
        }
    }

    /// A snapshot of nothing: no directory exists and no file can be read.
    pub fn new() -> (s: Snapshot)
        ensures
            s.files() == Map::<Seq<char>, Seq<char>>::empty(),
            s.dirs() == Set::<Seq<char>>::empty(),
    {
        let s = Snapshot { dirs: Vec::new(), files: Vec::new() };
        assert(s.dirs() =~= Set::<Seq<char>>::empty());
        s
    }

    /// Records that the directory `path` exists.
    pub fn add_dir(&mut self, path: &str)
        ensures
            final(self).dirs() == old(self).dirs().insert(path@),
            final(self).files() == old(self).files(),
    {
        let ghost before = self.dirs@;
        self.dirs.push(String::from_str(path));
        assert(self.dirs() =~= old(self).dirs().insert(path@)) by {
            let after = self.dirs@;
            assert forall|p: Seq<char>| self.dirs().contains(p) implies old(self).dirs().insert(
                path@,
            ).contains(p) by {
                let i = choose|i: int| 0 <= i < after.len() && #[trigger] after[i]@ == p;
                if i < before.len() {
                    assert(before[i]@ == p);
                }
            }
            assert forall|p: Seq<char>|
                old(self).dirs().insert(path@).contains(p) implies self.dirs().contains(p) by {
                if p == path@ {
                    assert(after[before.len() as int]@ == p);
                } else {
                    let i = choose|i: int| 0 <= i < before.len() && #[trigger] before[i]@ == p;
                    assert(after[i]@ == p);
                }
            }
        }
    }

    /// Records that the directory `path` is gone.
    pub fn remove_dir(&mut self, path: &str)
        ensures
            final(self).dirs() == old(self).dirs().remove(path@),
            final(self).files() == old(self).files(),
    {
        let gone = String::from_str(path);
        let mut kept: Vec<String> = Vec::new();
        let mut i: usize = 0;
        while i < self.dirs.len()
            invariant
                i <= self.dirs.len(),
                gone@ == path@,
                self.dirs == old(self).dirs,
                self.files == old(self).files,
                dirs_of(kept@) == dirs_of(self.dirs@.take(i as int)).remove(path@),
            decreases self.dirs.len() - i,
        {
            let ghost seen = self.dirs@.take(i as int);
            let ghost next = self.dirs@.take(i as int + 1);
            let ghost kept_before = kept@;
            let name = &self.dirs[i];
            let matches = *name == gone;
            if !matches {
                kept.push(name.clone());
            }
            assert(dirs_of(kept@) =~= dirs_of(next).remove(path@)) by {
                assert forall|p: Seq<char>| dirs_of(kept@).contains(p) implies dirs_of(next).remove(
                    path@,
                ).contains(p) by {
                    let k = choose|k: int| 0 <= k < kept@.len() && #[trigger] kept@[k]@ == p;
                    if k < kept_before.len() {
                        assert(kept_before[k]@ == p);
                        assert(dirs_of(kept_before).contains(p));
                        let j = choose|j: int| 0 <= j < seen.len() && #[trigger] seen[j]@ == p;
                        assert(next[j]@ == p);
                    } else {
                        assert(next[i as int]@ == p);
                    }
                }
                assert forall|p: Seq<char>|
                    dirs_of(next).remove(path@).contains(p) implies dirs_of(kept@).contains(p) by {
                    let j = choose|j: int| 0 <= j < next.len() && #[trigger] next[j]@ == p;
                    if j < i {
                        assert(seen[j]@ == p);
                        assert(dirs_of(seen).remove(path@).contains(p));
                        let k = choose|k: int|
                            0 <= k < kept_before.len() && #[trigger] kept_before[k]@ == p;
                        assert(kept@[k]@ == p);
                    } else {
                        assert(!matches);
                        assert(kept@[kept_before.len() as int]@ == p);
                    }
                }
            }
            i += 1;
        }
        assert(self.dirs@.take(self.dirs.len() as int) =~= self.dirs@);
        self.dirs = kept;
    }

    /// Whether the directory `path` exists.
    pub fn has_dir(&self, path: &str) -> (r: bool)
        ensures
            r == self.dirs().contains(path@),
    {
        let wanted = String::from_str(path);
        let mut i: usize = 0;
        while i < self.dirs.len()
            invariant
                i <= self.dirs.len(),
                wanted@ == path@,
                forall|k: int| 0 <= k < i ==> self.dirs@[k]@ != path@,
            decreases self.dirs.len() - i,
        {
            if self.dirs[i] == wanted {
                return true;
            }
            i += 1;
        }
        false
    }

    /// Records that the file at `path` holds `content`, in place of what it held before.
    pub fn set_file(&mut self, path: &str, content: &str)
        ensures
            final(self).files() == old(self).files().insert(path@, content@),
            final(self).dirs() == old(self).dirs(),
    {
        let ghost before = self.files@;
        self.files.push(FileEntry { path: String::from_str(path), content: String::from_str(content) });
        assert(self.files@.drop_last() =~= before);
    }

    /// Records the outcome of the write `w` on a file system that keeps what is written to it.
    pub fn write(&mut self, w: &FileWrite)
        ensures
            final(self).files() == old(self).files().insert(w.path@, w.data@),
            final(self).dirs() == old(self).dirs(),
    {
        self.set_file(w.path.as_str(), w.data.as_str());
    }

    /// The text of the file at `path`, if it can be read.
    pub fn read(&self, path: &str) -> (r: Option<String>)
        ensures
            match r {
                Some(text) => self.content(path@) == Some(text@),
                None => self.content(path@) is None,
            },
    {
        let wanted = String::from_str(path);
        let mut i: usize = self.files.len();
        assert(self.files@.take(i as int) =~= self.files@);
        while i > 0
            invariant
                i <= self.files.len(),
                wanted@ == path@,
                self.files().contains_key(path@) == files_of(
                    self.files@.take(i as int),
                ).contains_key(path@),
                self.files().contains_key(path@) ==> self.files()[path@] == files_of(
                    self.files@.take(i as int),
                )[path@],
            decreases i,
        {
            let entry = &self.files[i - 1];
            assert(self.files@.take(i as int).drop_last() =~= self.files@.take(i as int - 1));
            assert(self.files@.take(i as int).last() == *entry);
            if entry.path == wanted {
                return Some(entry.content.clone());
            }
            i -= 1;
        }
        None
    }

    /// Whether the file at `path` can be read.
    pub fn has_file(&self, path: &str) -> (r: bool)
        ensures
            r == self.files().contains_key(path@),
    {
        self.read(path).is_some()
    }
}

} // verus!
