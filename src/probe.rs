//! A snapshot of the filesystem facts that resolution reads: for each path
//! that was looked at, what kind of entry stands there and its canonical
//! form. Every query is counted.
use vstd::prelude::*;

verus! {

/// What stands at a path.
#[derive(Clone, Copy, Debug, PartialEq, Eq, Structural)]
pub enum EntryKind {
    /// A directory.
    Directory,
    /// A regular file.
    File,
    /// A symbolic link that does not lead to a directory.
    Symlink,
    /// A symbolic link that leads to a directory: both a directory and a
    /// link.
    DirectoryLink,
}

/// One recorded path.
pub struct FsEntry {
    pub path: String,
    pub kind: EntryKind,
    /// The absolute path with every link resolved; None where the
    /// filesystem could not produce it.
    pub canonical: Option<String>,
}

/// What a recorded path says, as plain values.
pub ghost struct EntryView {
    pub path: Seq<char>,
    pub kind: EntryKind,
    pub canonical: Option<Seq<char>>,
}

impl View for FsEntry {
    type V = EntryView;

    open spec fn view(&self) -> EntryView {
        EntryView {
            path: self.path@,
            kind: self.kind,
            canonical: match self.canonical {
                Some(c) => Some(c@),
                None => None,
            },
        }
    }
}

/// The entry recorded last for `path` in `s`.
pub open spec fn entry_of(s: Seq<EntryView>, path: Seq<char>) -> Option<EntryView>
    decreases s.len(),
{
    if s.len() == 0 {
        None
    } else if s.last().path == path {
        Some(s.last())
    } else {
        entry_of(s.drop_last(), path)
    }
}

pub open spec fn fs_is_dir(s: Seq<EntryView>, path: Seq<char>) -> bool {
    entry_of(s, path) matches Some(e) && (e.kind is Directory || e.kind is DirectoryLink)
}

/// A regular file or a symbolic link stands at `path`.
pub open spec fn fs_is_file_or_symlink(s: Seq<EntryView>, path: Seq<char>) -> bool {
    entry_of(s, path) matches Some(e) && !(e.kind is Directory)
}

/// The canonical form of `path`, where it is recorded.
pub open spec fn fs_canonical(s: Seq<EntryView>, path: Seq<char>) -> Option<Seq<char>> {
    match entry_of(s, path) {
        Some(e) => e.canonical,
        None => None,
    }
}

/// A filesystem snapshot that counts the queries made of it.
pub struct PathProbe {
    entries: Vec<FsEntry>,
    probes: u64,
}

impl View for PathProbe {
    type V = Seq<EntryView>;

    closed spec fn view(&self) -> Seq<EntryView> {
        self.entries@.map_values(|e: FsEntry| e@)
    }
}

impl PathProbe {
    /// The number of queries answered so far.
    pub closed spec fn probe_count(&self) -> nat {
        self.probes as nat
    }

    /// An empty snapshot: nothing exists.
    pub fn new() -> (r: PathProbe)
        ensures
            r@ == Seq::<EntryView>::empty(),
            r.probe_count() == 0,
    {
        PathProbe { entries: Vec::new(), probes: 0 }
    }

    /// Records `entry`; it takes the place of any earlier entry for its path.
    pub fn insert(&mut self, entry: FsEntry)
        ensures
            final(self)@ == old(self)@.push(entry@),
            final(self).probe_count() == old(self).probe_count(),
    {
        let ghost before = self@;
        self.entries.push(entry);
        proof {
            assert(self@ =~= before.push(entry@));
        }
    }

    /// The number of queries answered so far.
    pub fn probes(&self) -> (r: u64)
        ensures
            r == self.probe_count(),
    {
        self.probes
    }

    fn count_probe(&mut self)
        ensures
            final(self)@ == old(self)@,
            final(self).probe_count() == if old(self).probe_count() < u64::MAX {
                old(self).probe_count() + 1
            } else {
                old(self).probe_count()
            },
    {
        if self.probes < u64::MAX {
            self.probes = self.probes + 1;
        }
    }

    fn find(&self, path: &str) -> (r: Option<usize>)
        ensures
            match r {
                Some(i) => i < self@.len() && entry_of(self@, path@) == Some(self@[i as int]),
                None => entry_of(self@, path@) is None,
            },
    {
        let n = self.entries.len();
        let mut i: usize = n;
        let ghost s = self@;
        proof {
            assert(s.subrange(0, n as int) =~= s);
        }
        while i > 0
            invariant
                i <= n,
                n == s.len(),
                s == self@,
                entry_of(s, path@) == entry_of(s.subrange(0, i as int), path@),
            decreases i,
        {
            let key = path.to_owned();
            proof {
                assert(s.subrange(0, i as int).drop_last() =~= s.subrange(0, i - 1));
            }
            if self.entries[i - 1].path == key {
                return Some(i - 1);
            }
            i = i - 1;
        }
        None
    }

    /// Whether a directory stands at `path`.
    pub fn is_dir(&mut self, path: &str) -> (r: bool)
        ensures
            r == fs_is_dir(old(self)@, path@),
            final(self)@ == old(self)@,
    {
        self.count_probe();
        match self.find(path) {
            Some(i) => self.entries[i].kind == EntryKind::Directory || self.entries[i].kind
                == EntryKind::DirectoryLink,
            None => false,
        }
    }

    /// Whether a regular file or a link to one stands at `path`.
    pub fn is_file_or_symlink(&mut self, path: &str) -> (r: bool)
        ensures
            r == fs_is_file_or_symlink(old(self)@, path@),
            final(self)@ == old(self)@,
    {
        self.count_probe();
        match self.find(path) {
            Some(i) => self.entries[i].kind != EntryKind::Directory,
            None => false,
        }
    }

    /// The canonical form of `path`.
    pub fn canonicalize(&mut self, path: &str) -> (r: Option<String>)
        ensures
            match r {
                Some(c) => fs_canonical(old(self)@, path@) == Some(c@),
                None => fs_canonical(old(self)@, path@) is None,
            },
            final(self)@ == old(self)@,
    {
        self.count_probe();
        match self.find(path) {
            Some(i) => match &self.entries[i].canonical {
                Some(c) => Some(c.clone()),
                None => None,
            },
            None => None,
        }
    }
}

} // verus!
