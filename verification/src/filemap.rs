//! The in-memory model of the output root's files.
//!
//! Patching resolves the file named by a qualifying call against the files
//! that currently stand under the output root. The development tooling reads
//! that directory once into a [`FileMap`], the verified pipeline patches it
//! entry by entry, and the patched contents are written back.

use vstd::prelude::*;

verus! {

/// A directory snapshot: file names paired with their contents, in listing
/// order. Resolution takes the first entry with a matching name.
pub struct FileMap {
    pub entries: Vec<(Vec<u8>, Vec<u8>)>,
}

/// The mathematical view of the entries: name and content sequences.
pub open spec fn dir_views(entries: Seq<(Vec<u8>, Vec<u8>)>) -> Seq<(Seq<u8>, Seq<u8>)> {
    entries.map_values(|e: (Vec<u8>, Vec<u8>)| (e.0@, e.1@))
}

/// Index of the first entry of `d[j..]` named `name`; `-1` when there is
/// none.
pub open spec fn find_in_dir(d: Seq<(Seq<u8>, Seq<u8>)>, name: Seq<u8>, j: int) -> int
    decreases d.len() - j,
{
    if j < 0 || j >= d.len() {
        -1
    } else if d[j].0 == name {
        j
    } else {
        find_in_dir(d, name, j + 1)
    }
}

/// The name-to-content map that resolution sees.
pub open spec fn dir_map(d: Seq<(Seq<u8>, Seq<u8>)>) -> Map<Seq<u8>, Seq<u8>> {
    Map::new(
        |k: Seq<u8>| find_in_dir(d, k, 0) >= 0,
        |k: Seq<u8>| d[find_in_dir(d, k, 0)].1,
    )
}

/// Compares two byte vectors for equality.
pub fn bytes_eq(a: &Vec<u8>, b: &Vec<u8>) -> (r: bool)
    ensures
        r == (a@ == b@),
{
    if a.len() != b.len() {
        return false;
    }
    let mut k: usize = 0;
    while k < a.len()
        invariant
            k <= a.len(),
            a@.len() == b@.len(),
            forall|m: int| 0 <= m < k ==> a@[m] == b@[m],
        decreases a.len() - k,
    {
        if a[k] != b[k] {
            return false;
        }
        k = k + 1;
    }
    proof {
        assert(a@ =~= b@);
    }
    true
}

/// Copies a byte vector.
pub fn copy_bytes(v: &Vec<u8>) -> (r: Vec<u8>)
    ensures
        r@ == v@,
{
    let mut out: Vec<u8> = Vec::new();
    let mut k: usize = 0;
    while k < v.len()
        invariant
            k <= v.len(),
            out@ == v@.subrange(0, k as int),
        decreases v.len() - k,
    {
        out.push(v[k]);
        proof {
            assert(out@ =~= v@.subrange(0, k + 1));
        }
        k = k + 1;
    }
    proof {
        assert(out@ =~= v@);
    }
    out
}

impl FileMap {
    /// The view of this snapshot's entries.
    pub open spec fn dir(self) -> Seq<(Seq<u8>, Seq<u8>)> {
        dir_views(self.entries@)
    }

    /// The name-to-content map this snapshot resolves against.
    pub open spec fn as_map(self) -> Map<Seq<u8>, Seq<u8>> {
        dir_map(self.dir())
    }

    /// An empty snapshot.
    pub fn new() -> (r: FileMap)
        ensures
            r.dir() == Seq::<(Seq<u8>, Seq<u8>)>::empty(),
    {
        let r = FileMap { entries: Vec::new() };
        proof {
            assert(r.dir() =~= Seq::<(Seq<u8>, Seq<u8>)>::empty());
        }
        r
    }

    /// Adds a file at the end of the listing.
    pub fn push_file(&mut self, name: Vec<u8>, content: Vec<u8>)
        ensures
            final(self).dir() == old(self).dir().push((name@, content@)),
    {
        let ghost n = name@;
        let ghost c = content@;
        self.entries.push((name, content));
        proof {
            assert(self.dir() =~= old(self).dir().push((n, c)));
        }
    }

    /// How many files the snapshot holds.
    pub fn file_count(&self) -> (n: usize)
        ensures
            n == self.dir().len(),
    {
        self.entries.len()
    }

    /// The name of the file at position `i`.
    pub fn name_at(&self, i: usize) -> (r: &Vec<u8>)
        requires
            i < self.dir().len(),
        ensures
            r@ == self.dir()[i as int].0,
    {
        &self.entries[i].0
    }

    /// The content of the file at position `i`.
    pub fn content_at(&self, i: usize) -> (r: &Vec<u8>)
        requires
            i < self.dir().len(),
        ensures
            r@ == self.dir()[i as int].1,
    {
        &self.entries[i].1
    }

    /// Replaces the content of the file at position `i`, keeping its name.
    pub fn set_content_at(&mut self, i: usize, content: Vec<u8>)
        requires
            i < old(self).dir().len(),
        ensures
            final(self).dir() == old(self).dir().update(
                i as int,
                (old(self).dir()[i as int].0, content@),
            ),
    {
        let ghost c = content@;
        let name = copy_bytes(&self.entries[i].0);
        let ghost n = name@;
        self.entries.set(i, (name, content));
        proof {
            assert(self.dir() =~= old(self).dir().update(i as int, (n, c)));
        }
    }

    /// Resolves a file name to its content: the first entry with that name.
    pub fn lookup<'a>(&'a self, name: &Vec<u8>) -> (r: Option<&'a Vec<u8>>)
        ensures
            match r {
                Some(c) => self.as_map().contains_key(name@) && c@ == self.as_map()[name@],
                None => !self.as_map().contains_key(name@),
            },
    {
        let ghost d = self.dir();
        let mut j: usize = 0;
        while j < self.entries.len()
            invariant
                j <= self.entries@.len(),
                d == self.dir(),
                d.len() == self.entries@.len(),
                find_in_dir(d, name@, 0) == find_in_dir(d, name@, j as int),
            decreases self.entries@.len() - j,
        {
            if bytes_eq(&self.entries[j].0, name) {
                proof {
                    assert(d[j as int].0 == name@);
                    assert(find_in_dir(d, name@, j as int) == j as int);
                    assert(self.as_map().contains_key(name@));
                    assert(self.as_map()[name@] == d[j as int].1);
                }
                return Some(&self.entries[j].1);
            }
            proof {
                assert(d[j as int].0 != name@);
            }
            j = j + 1;
        }
        proof {
            assert(find_in_dir(d, name@, j as int) == -1);
            assert(!self.as_map().contains_key(name@));
        }
        None
    }
}

} // verus!
