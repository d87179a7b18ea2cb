//! The listing of one directory: names (as bytes) mapped to the inode and
//! kind of each entry.

use vstd::prelude::*;

use crate::fuse::fuse::{FileKind, FsError, Inode};
use crate::fuse::sys;

verus! {

/// One listing entry: name, inode number, kind.
pub type DirEntry = (Vec<u8>, Inode, FileKind);

/// The map that a sequence of entries describes; a later entry for a name
/// overrides an earlier one.
pub open spec fn entries_map(s: Seq<DirEntry>) -> Map<Seq<u8>, (Inode, FileKind)>
    decreases s.len(),
{
    if s.len() == 0 {
        Map::empty()
    } else {
        entries_map(s.drop_last()).insert(s.last().0@, (s.last().1, s.last().2))
    }
}

/// No name occurs twice.
pub open spec fn names_unique(s: Seq<DirEntry>) -> bool {
    forall|i: int, j: int| 0 <= i < s.len() && 0 <= j < s.len() && i != j ==> #[trigger] s[i].0@ != #[trigger] s[j].0@
}

/// Two different positions of a listing without repeated names carry
/// different names.
proof fn lemma_unique_at(s: Seq<DirEntry>, a: int, b: int)
    requires
        names_unique(s),
        0 <= a < s.len(),
        0 <= b < s.len(),
        a != b,
    ensures
        s[a].0@ != s[b].0@,
{
    assert(s[a].0@ != s[b].0@);
}

/// In a listing without repeated names, each entry is what the map gives for
/// its name, and a name that no entry carries is absent from the map.
pub proof fn lemma_entries_map_lookup(s: Seq<DirEntry>, k: Seq<u8>)
    requires
        names_unique(s),
    ensures
        entries_map(s).contains_key(k) <==> exists|i: int| 0 <= i < s.len() && #[trigger] s[i].0@ == k,
        forall|i: int| 0 <= i < s.len() && #[trigger] s[i].0@ == k ==> entries_map(s)[k] == (s[i].1, s[i].2),
    decreases s.len(),
{
    if s.len() > 0 {
        let d = s.drop_last();
        assert(names_unique(d)) by {
            assert forall|i: int, j: int| 0 <= i < d.len() && 0 <= j < d.len() && i != j implies #[trigger] d[i].0@ != #[trigger] d[j].0@ by {
                assert(d[i] == s[i] && d[j] == s[j]);
            }
        }
        lemma_entries_map_lookup(d, k);
        if entries_map(s).contains_key(k) {
            if s.last().0@ == k {
                assert(s[s.len() - 1].0@ == k);
            } else {
                let i = choose|i: int| 0 <= i < d.len() && #[trigger] d[i].0@ == k;
                assert(s[i] == d[i]);
            }
        }
        if exists|i: int| 0 <= i < s.len() && #[trigger] s[i].0@ == k {
            let i = choose|i: int| 0 <= i < s.len() && #[trigger] s[i].0@ == k;
            if i < s.len() - 1 {
                assert(d[i] == s[i]);
            }
        }
        assert forall|i: int| 0 <= i < s.len() && #[trigger] s[i].0@ == k implies entries_map(s)[k] == (s[i].1, s[i].2) by {
            if i < s.len() - 1 {
                assert(d[i] == s[i]);
                assert(s[s.len() - 1].0@ != s[i].0@);
            }
        }
    }
}

/// Replacing the entry for a name leaves the names unique and overrides the
/// map at that name.
pub proof fn lemma_entries_map_update(s: Seq<DirEntry>, i: int, e: DirEntry)
    requires
        names_unique(s),
        0 <= i < s.len(),
        e.0@ == s[i].0@,
    ensures
        names_unique(s.update(i, e)),
        entries_map(s.update(i, e)) == entries_map(s).insert(e.0@, (e.1, e.2)),
    decreases s.len(),
{
    let t = s.update(i, e);
    assert forall|a: int, b: int| 0 <= a < t.len() && 0 <= b < t.len() && a != b implies #[trigger] t[a].0@ != #[trigger] t[b].0@ by {
        if a != i && b != i {
            assert(t[a] == s[a] && t[b] == s[b]);
            lemma_unique_at(s, a, b);
        } else if a == i {
            assert(t[b] == s[b]);
            lemma_unique_at(s, i, b);
        } else {
            assert(t[a] == s[a]);
            lemma_unique_at(s, a, i);
        }
    }
    let d = s.drop_last();
    assert(names_unique(d)) by {
        assert forall|a: int, b: int| 0 <= a < d.len() && 0 <= b < d.len() && a != b implies #[trigger] d[a].0@ != #[trigger] d[b].0@ by {
            assert(d[a] == s[a] && d[b] == s[b]);
        }
    }
    if i == s.len() - 1 {
        assert(t.drop_last() =~= d);
        assert(entries_map(t) =~= entries_map(s).insert(e.0@, (e.1, e.2)));
    } else {
        assert(t.drop_last() =~= d.update(i, e));
        lemma_entries_map_update(d, i, e);
        assert(t.last() == s.last());
        assert(s[s.len() - 1].0@ != s[i].0@);
        assert(entries_map(t) =~= entries_map(s).insert(e.0@, (e.1, e.2)));
    }
}

/// Whether two byte strings are equal.
pub fn bytes_eq(a: &[u8], b: &[u8]) -> (r: bool)
    ensures
        r == (a@ == b@),
{
    if a.len() != b.len() {
        return false;
    }
    let mut i: usize = 0;
    while i < a.len()
        invariant
            a.len() == b.len(),
            i <= a.len(),
            forall|j: int| 0 <= j < i ==> a@[j] == b@[j],
        decreases a.len() - i,
    {
        if a[i] != b[i] {
            return false;
        }
        i = i + 1;
    }
    assert(a@ == b@);
    true
}

fn position_in(entries: &Vec<DirEntry>, name: &[u8]) -> (r: Option<usize>)
    ensures
        match r {
            Some(i) => i < entries@.len() && entries@[i as int].0@ == name@,
            None => forall|i: int| 0 <= i < entries@.len() ==> #[trigger] entries@[i].0@ != name@,
        },
{
    let mut i: usize = 0;
    while i < entries.len()
        invariant
            i <= entries@.len(),
            forall|j: int| 0 <= j < i ==> #[trigger] entries@[j].0@ != name@,
        decreases entries@.len() - i,
    {
        if bytes_eq(entries[i].0.as_slice(), name) {
            return Some(i);
        }
        i = i + 1;
    }
    None
}

/// A directory listing in which every name occurs once.
pub struct Directory {
    entries: Vec<DirEntry>,
}

impl View for Directory {
    type V = Map<Seq<u8>, (Inode, FileKind)>;

    closed spec fn view(&self) -> Map<Seq<u8>, (Inode, FileKind)> {
        entries_map(self.entries@)
    }
}

impl Directory {
    #[verifier::type_invariant]
    spec fn wf(self) -> bool {
        names_unique(self.entries@)
    }

    /// An empty listing.
    pub fn new() -> (r: Self)
        ensures
            r@ == Map::<Seq<u8>, (Inode, FileKind)>::empty(),
    {
        let r = Directory { entries: Vec::new() };
        assert(r@ =~= Map::<Seq<u8>, (Inode, FileKind)>::empty());
        r
    }

    /// The listing of a new root directory: `.` (the byte `0x2e`) names the
    /// root itself.
    pub fn root_listing() -> (r: Self)
        ensures
            r@ == Map::<Seq<u8>, (Inode, FileKind)>::empty().insert(seq![0x2eu8], (1u64, FileKind::Directory)),
    {
        let mut r = Directory::new();
        let dot = vec![0x2eu8];
        assert(dot@ =~= seq![0x2eu8]);
        r.insert(dot, sys::fuse_root_id(), FileKind::Directory);
        r
    }

    /// The inode that `name` names, or `NotFound`.
    pub fn lookup_inode(&self, name: &[u8]) -> (r: Result<Inode, FsError>)
        ensures
            r == (if self@.contains_key(name@) {
                Ok::<Inode, FsError>(self@[name@].0)
            } else {
                Err(FsError::NotFound)
            }),
    {
        match self.lookup(name) {
            Some((inode, _)) => Ok(inode),
            None => Err(FsError::NotFound),
        }
    }

    /// The inode and kind recorded for `name`, if any.
    pub fn lookup(&self, name: &[u8]) -> (r: Option<(Inode, FileKind)>)
        ensures
            r == (if self@.contains_key(name@) {
                Some(self@[name@])
            } else {
                None
            }),
    {
        proof {
            use_type_invariant(self);
            lemma_entries_map_lookup(self.entries@, name@);
        }
        match position_in(&self.entries, name) {
            Some(i) => {
                let e = &self.entries[i];
                Some((e.1, e.2))
            },
            None => None,
        }
    }

    /// Records `name` as naming `inode` of kind `kind`, replacing any entry
    /// that the name had.
    pub fn insert(&mut self, name: Vec<u8>, inode: Inode, kind: FileKind)
        ensures
            final(self)@ == old(self)@.insert(name@, (inode, kind)),
    {
        proof {
            use_type_invariant(&*self);
        }
        let e = (name, inode, kind);
        let mut entries: Vec<DirEntry> = Vec::new();
        std::mem::swap(&mut entries, &mut self.entries);
        let ghost before = entries@;
        assert(names_unique(before));
        let found = position_in(&entries, e.0.as_slice());
        if let Some(i) = found {
            proof {
                lemma_entries_map_update(before, i as int, e);
            }
            entries.set(i, e);
        } else {
            proof {
                let s = before.push(e);
                assert(s.drop_last() =~= before);
                assert forall|a: int, b: int| 0 <= a < s.len() && 0 <= b < s.len() && a != b implies #[trigger] s[a].0@ != #[trigger] s[b].0@ by {
                    if a < s.len() - 1 && b < s.len() - 1 {
                        assert(s[a] == before[a] && s[b] == before[b]);
                        lemma_unique_at(before, a, b);
                    } else if a < s.len() - 1 {
                        assert(s[a] == before[a]);
                        assert(before[a].0@ != e.0@);
                    } else {
                        assert(s[b] == before[b]);
                        assert(before[b].0@ != e.0@);
                    }
                }
            }
            entries.push(e);
        }
        self.entries = entries;
    }

    /// The listing that a sequence of entries describes, a later entry for a
    /// name replacing an earlier one.
    pub fn from_entries(entries: Vec<DirEntry>) -> (r: Self)
        ensures
            r@ == entries_map(entries@),
    {
        let ghost all = entries@;
        let mut rest = entries;
        let mut r = Directory::new();
        let total: usize = rest.len();
        let mut k: usize = 0;
        assert(all.subrange(0, 0) =~= Seq::<DirEntry>::empty());
        assert(all.subrange(0, all.len() as int) =~= all);
        while rest.len() > 0
            invariant
                k <= total,
                total == all.len(),
                rest@ == all.subrange(k as int, all.len() as int),
                r@ == entries_map(all.subrange(0, k as int)),
            decreases rest@.len(),
        {
            let e = rest.remove(0);
            proof {
                assert(all[k as int] == e);
                assert(all.subrange(0, k + 1).drop_last() =~= all.subrange(0, k as int));
                assert(rest@ =~= all.subrange(k + 1, all.len() as int));
            }
            r.insert(e.0, e.1, e.2);
            k = k + 1;
        }
        assert(all.subrange(0, all.len() as int) =~= all);
        r
    }

    /// The entries, each name once, describing the listing; their order is
    /// not part of the listing.
    pub fn entries(&self) -> (r: &Vec<DirEntry>)
        ensures
            names_unique(r@),
            entries_map(r@) == self@,
    {
        proof {
            use_type_invariant(self);
        }
        &self.entries
    }
}

/// After a name is recorded, looking it up gives what was recorded, and every
/// other name looks up as before.
pub proof fn lemma_lookup_after_insert(
    listing: Map<Seq<u8>, (Inode, FileKind)>,
    name: Seq<u8>,
    inode: Inode,
    kind: FileKind,
    other: Seq<u8>,
)
    requires
        other != name,
    ensures
        listing.insert(name, (inode, kind)).contains_key(name),
        listing.insert(name, (inode, kind))[name] == (inode, kind),
        listing.insert(name, (inode, kind)).contains_key(other) == listing.contains_key(other),
        listing.contains_key(other) ==> listing.insert(name, (inode, kind))[other] == listing[other],
{
}

} // verus!
