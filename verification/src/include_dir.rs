//! The dual-mode directory abstraction: an immutable embedded mapping from
//! relative path to fingerprinted bytes, or a thin wrapper over a live
//! filesystem root whose reads are performed by the host.

use vstd::prelude::*;
use vstd::string::*;

use crate::fingerprint::fingerprint_of;
use crate::fingerprint::hash;
use crate::strutil::copy_bytes;

verus! {

/// One embedded file: its bytes and their content fingerprint.
pub struct IncludedFile {
    pub data: Vec<u8>,
    pub hash: String,
}

/// A file as handed to the asset server. The fingerprint is present for
/// embedded files and absent for live-filesystem files, whose content may
/// change between reads.
pub struct File {
    pub data: Vec<u8>,
    pub hash: Option<String>,
}

impl File {
    /// The fingerprint as a sequence, when one is present.
    pub open spec fn hash_view(self) -> Option<Seq<char>> {
        match self.hash {
            Some(h) => Some(h@),
            None => None,
        }
    }

    /// A live-filesystem file: bytes straight from disk, never a fingerprint.
    pub fn live(data: Vec<u8>) -> (r: File)
        ensures
            r.data@ == data@,
            r.hash_view() is None,
    {
        File { data, hash: None }
    }

    /// The served copy of an embedded file: its bytes with their fingerprint.
    pub fn embedded(f: &IncludedFile) -> (r: File)
        ensures
            r.data@ == f.data@,
            r.hash_view() == Some(f.hash@),
    {
        File { data: copy_bytes(&f.data), hash: Some(f.hash.clone()) }
    }
}

/// The immutable embedded directory: relative path to file, keys unique,
/// every stored fingerprint the fingerprint of the stored bytes.
pub struct IncludedDirectory {
    pub entries: Vec<(String, IncludedFile)>,
}

impl IncludedDirectory {
    /// Well-formedness: path keys are unique, and every embedded file's
    /// fingerprint is the fingerprint of its bytes.
    pub open spec fn wf(self) -> bool {
        &&& forall|i: int, j: int|
            0 <= i < j < self.entries@.len() ==> self.entries@[i].0@ != self.entries@[j].0@
        &&& forall|i: int|
            0 <= i < self.entries@.len() ==> (#[trigger] self.entries@[i].1).hash@
                == fingerprint_of(self.entries@[i].1.data@)
    }

    /// The mapping from relative path to file bytes that the directory holds.
    pub open spec fn contents(self) -> Map<Seq<char>, Seq<u8>> {
        Map::new(
            |p: Seq<char>|
                exists|i: int| 0 <= i < self.entries@.len() && (#[trigger] self.entries@[i]).0@ == p,
            |p: Seq<char>|
                self.entries@[choose|i: int|
                    0 <= i < self.entries@.len() && (#[trigger] self.entries@[i]).0@ == p].1.data@,
        )
    }

    /// Builds the embedded directory from path and content pairs,
    /// fingerprinting each file. Fails exactly when two pairs share a path.
    pub fn new(files: Vec<(String, Vec<u8>)>) -> (r: Option<IncludedDirectory>)
        ensures
            match r {
                Some(dir) => {
                    &&& dir.wf()
                    &&& dir.entries@.len() == files@.len()
                    &&& forall|i: int|
                        0 <= i < files@.len() ==> (#[trigger] dir.entries@[i]).0@ == files@[i].0@
                            && dir.entries@[i].1.data@ == files@[i].1@
                    &&& forall|i: int|
                        0 <= i < files@.len() ==> dir.contents().contains_key(
                            (#[trigger] files@[i]).0@,
                        ) && dir.contents()[files@[i].0@] == files@[i].1@
                },
                None => exists|i: int, j: int|
                    0 <= i < j < files@.len() && (#[trigger] files@[i]).0@ == (
                    #[trigger] files@[j]).0@,
            },
    {
        let mut entries: Vec<(String, IncludedFile)> = Vec::new();
        let mut k: usize = 0;
        while k < files.len()
            invariant
                k <= files@.len(),
                entries@.len() == k,
                forall|i: int|
                    0 <= i < k ==> (#[trigger] entries@[i]).0@ == files@[i].0@
                        && entries@[i].1.data@ == files@[i].1@,
                forall|i: int|
                    0 <= i < k ==> (#[trigger] entries@[i]).1.hash@ == fingerprint_of(
                        entries@[i].1.data@,
                    ),
                forall|i: int, j: int| 0 <= i < j < k ==> files@[i].0@ != files@[j].0@,
            decreases files@.len() - k,
        {
            let key = files[k].0.clone();
            if contains_path(&entries, &key) {
                return None;
            }
            proof {
                assert forall|i: int, j: int| 0 <= i < j < k + 1 implies files@[i].0@ != files@[j].0@ by {
                    if j == k {
                        assert(entries@[i].0@ == files@[i].0@);
                        assert(entries@[i].0@ != key@);
                    }
                }
            }
            let data = copy_bytes(&files[k].1);
            let h = hash(data.as_slice());
            entries.push((key, IncludedFile { data, hash: h }));
            k += 1;
        }
        let dir = IncludedDirectory { entries };
        proof {
            assert forall|i: int|
                0 <= i < files@.len() implies dir.contents().contains_key(
                (#[trigger] files@[i]).0@,
            ) && dir.contents()[files@[i].0@] == files@[i].1@ by {
                assert(dir.entries@[i].0@ == files@[i].0@);
                let j = choose|j: int|
                    0 <= j < dir.entries@.len() && (#[trigger] dir.entries@[j]).0@ == files@[i].0@;
                if j != i {
                    assert(dir.entries@[j].0@ != dir.entries@[i].0@);
                }
            }
        }
        Some(dir)
    }

    /// Looks `path` up in the embedded mapping: the file's bytes are the
    /// mapping's, and its fingerprint is the fingerprint of those bytes.
    pub fn read(&self, path: &String) -> (r: Option<&IncludedFile>)
        requires
            self.wf(),
        ensures
            match r {
                Some(f) => {
                    &&& self.contents().contains_key(path@)
                    &&& f.data@ == self.contents()[path@]
                    &&& f.hash@ == fingerprint_of(f.data@)
                },
                None => !self.contents().contains_key(path@),
            },
    {
        let mut i: usize = 0;
        while i < self.entries.len()
            invariant
                i <= self.entries@.len(),
                self.wf(),
                forall|k: int| 0 <= k < i ==> (#[trigger] self.entries@[k]).0@ != path@,
            decreases self.entries@.len() - i,
        {
            if self.entries[i].0 == *path {
                proof {
                    let j = choose|j: int|
                        0 <= j < self.entries@.len() && (#[trigger] self.entries@[j]).0@ == path@;
                    assert(self.entries@[i as int].0@ == path@);
                    if j != i {
                        assert(self.entries@[i as int].0@ != self.entries@[j].0@);
                    }
                }
                return Some(&self.entries[i].1);
            }
            i += 1;
        }
        proof {
            if self.contents().contains_key(path@) {
                let j = choose|j: int|
                    0 <= j < self.entries@.len() && (#[trigger] self.entries@[j]).0@ == path@;
                assert(self.entries@[j].0@ != path@);
            }
        }
        None
    }
}

/// Law: every file of a well-formed embedded directory carries the
/// fingerprint of its own bytes — established once at construction and never
/// recomputed, as the mapping is immutable.
pub proof fn lemma_embedded_hash(dir: IncludedDirectory, i: int)
    requires
        dir.wf(),
        0 <= i < dir.entries@.len(),
    ensures
        dir.entries@[i].1.hash@ == fingerprint_of(dir.entries@[i].1.data@),
{
}

/// Whether `entries` already holds `key` as a path.
fn contains_path(entries: &Vec<(String, IncludedFile)>, key: &String) -> (r: bool)
    ensures
        r == exists|i: int| 0 <= i < entries@.len() && (#[trigger] entries@[i]).0@ == key@,
{
    let mut i: usize = 0;
    while i < entries.len()
        invariant
            i <= entries@.len(),
            forall|k: int| 0 <= k < i ==> (#[trigger] entries@[k]).0@ != key@,
        decreases entries@.len() - i,
    {
        if entries[i].0 == *key {
            return true;
        }
        i += 1;
    }
    false
}

/// The development-mode directory: only a root path; each read resolves under
/// the root and goes to the live filesystem, performed by the host.
pub struct FsDirectory {
    pub path: String,
}

impl FsDirectory {
    /// The location of `path` under the root, joined with `/`.
    pub fn resolve(&self, path: &String) -> (r: String)
        ensures
            r@ == self.path@ + "/"@ + path@,
    {
        let mut r = self.path.clone();
        r.append("/");
        r.append(path.as_str());
        r
    }
}

/// The runtime store an application serves assets from: either the immutable
/// embedded mapping baked in at build time, or a live filesystem root.
pub enum IncludeDir {
    Included(IncludedDirectory),
    Fs(FsDirectory),
}

impl IncludeDir {
    pub open spec fn wf(self) -> bool {
        match self {
            IncludeDir::Included(dir) => dir.wf(),
            IncludeDir::Fs(_) => true,
        }
    }
}

} // verus!
