//! An in-memory installation directory: regular files with their contents,
//! and the directories that exist.

use vstd::prelude::*;

verus! {

/// The abstract state of an installation directory.
pub struct TreeView {
    /// Each regular file's path and contents.
    pub files: Map<Seq<char>, Seq<u8>>,
    /// The paths of the directories.
    pub dirs: Set<Seq<char>>,
}

/// The proper ancestors of `p` that the separators at positions below `k`
/// delimit: `p`'s prefixes that end just before such a separator.
pub open spec fn dir_prefixes(p: Seq<char>, k: int) -> Set<Seq<char>> {
    Set::new(|q: Seq<char>| exists|j: int| 0 < j < k && j < p.len() && p[j] == '/' && q == p.subrange(0, j))
}

/// All proper ancestor directories of `p`.
pub open spec fn ancestors(p: Seq<char>) -> Set<Seq<char>> {
    dir_prefixes(p, p.len() as int)
}

/// An installation directory held in memory.
pub struct InstallTree {
    paths: Vec<String>,
    contents: Vec<Vec<u8>>,
    dir_list: Vec<String>,
    files: Ghost<Map<Seq<char>, Seq<u8>>>,
    dirs: Ghost<Set<Seq<char>>>,
}

impl View for InstallTree {
    type V = TreeView;

    closed spec fn view(&self) -> TreeView {
        TreeView { files: self.files@, dirs: self.dirs@ }
    }
}

impl InstallTree {
    /// The vectors hold exactly the abstract state, one slot per file path.
    pub closed spec fn wf(&self) -> bool {
        &&& self.paths@.len() == self.contents@.len()
        &&& forall|i: int, j: int|
            0 <= i < j < self.paths@.len() ==> self.paths@[i]@ != self.paths@[j]@
        &&& forall|i: int|
            0 <= i < self.paths@.len() ==> #[trigger] self.files@.contains_key(self.paths@[i]@)
                && self.files@[self.paths@[i]@] == self.contents@[i]@
        &&& forall|p: Seq<char>|
            #[trigger] self.files@.contains_key(p) ==> exists|i: int|
                0 <= i < self.paths@.len() && self.paths@[i]@ == p
        &&& forall|i: int|
            0 <= i < self.dir_list@.len() ==> #[trigger] self.dirs@.contains(self.dir_list@[i]@)
        &&& forall|q: Seq<char>|
            #[trigger] self.dirs@.contains(q) ==> exists|i: int|
                0 <= i < self.dir_list@.len() && self.dir_list@[i]@ == q
    }

    /// An empty installation directory.
    pub fn new() -> (r: InstallTree)
        ensures
            r.wf(),
            r@.files == Map::<Seq<char>, Seq<u8>>::empty(),
            r@.dirs == Set::<Seq<char>>::empty(),
    {
        InstallTree {
            paths: Vec::new(),
            contents: Vec::new(),
            dir_list: Vec::new(),
            files: Ghost(Map::empty()),
            dirs: Ghost(Set::empty()),
        }
    }

    fn find(&self, path: &str) -> (r: Option<usize>)
        requires
            self.wf(),
        ensures
            match r {
                Some(i) => i < self.paths@.len() && self.paths@[i as int]@ == path@,
                None => !self@.files.contains_key(path@),
            },
    {
        let key = String::from_str(path);
        let mut i: usize = 0;
        while i < self.paths.len()
            invariant
                self.wf(),
                key@ == path@,
                i <= self.paths@.len(),
                forall|j: int| 0 <= j < i ==> self.paths@[j]@ != path@,
            decreases self.paths@.len() - i,
        {
            if self.paths[i] == key {
                return Some(i);
            }
            i = i + 1;
        }
        None
    }

    /// Whether a regular file exists at `path`.
    pub fn contains_file(&self, path: &str) -> (r: bool)
        requires
            self.wf(),
        ensures
            r == self@.files.contains_key(path@),
    {
        self.find(path).is_some()
    }

    /// The contents of the regular file at `path`, if there is one.
    pub fn read_file(&self, path: &str) -> (r: Option<Vec<u8>>)
        requires
            self.wf(),
        ensures
            match r {
                Some(v) => self@.files.contains_key(path@) && self@.files[path@] == v@,
                None => !self@.files.contains_key(path@),
            },
    {
        match self.find(path) {
            Some(i) => {
                proof {
                    assert(self.files@.contains_key(self.paths@[i as int]@));
                }
                Some(vstd::slice::slice_to_vec(self.contents[i].as_slice()))
            },
            None => None,
        }
    }

    /// Creates or truncates the file at `path` and fills it with `data`.
    pub fn write_file(&mut self, path: &str, data: Vec<u8>)
        requires
            old(self).wf(),
        ensures
            final(self).wf(),
            final(self)@.files == old(self)@.files.insert(path@, data@),
            final(self)@.dirs == old(self)@.dirs,
    {
        let ghost d = data@;
        match self.find(path) {
            Some(i) => {
                self.contents.set(i, data);
                proof {
                    self.files@ = self.files@.insert(path@, d);
                    assert forall|j: int| 0 <= j < self.paths@.len() implies #[trigger] self.files@.contains_key(self.paths@[j]@)
                        && self.files@[self.paths@[j]@] == self.contents@[j]@ by {
                        if j != i {
                            assert(old(self).files@.contains_key(old(self).paths@[j]@));
                            if j < i {
                                assert(self.paths@[j]@ != self.paths@[i as int]@);
                            } else {
                                assert(self.paths@[i as int]@ != self.paths@[j]@);
                            }
                        }
                    }
                    assert forall|p: Seq<char>| #[trigger] self.files@.contains_key(p) implies exists|j: int|
                        0 <= j < self.paths@.len() && self.paths@[j]@ == p by {
                        if p == path@ {
                            assert(self.paths@[i as int]@ == p);
                        } else {
                            assert(old(self).files@.contains_key(p));
                        }
                    }
                }
            },
            None => {
                let key = String::from_str(path);
                self.paths.push(key);
                self.contents.push(data);
                proof {
                    self.files@ = self.files@.insert(path@, d);
                    let n = self.paths@.len() - 1;
                    assert(self.paths@[n]@ == path@);
                    assert forall|p: Seq<char>| #[trigger] self.files@.contains_key(p) implies exists|j: int|
                        0 <= j < self.paths@.len() && self.paths@[j]@ == p by {
                        if p != path@ {
                            assert(old(self)@.files.contains_key(p));
                            let j = choose|j: int| 0 <= j < old(self).paths@.len() && old(self).paths@[j]@ == p;
                            assert(self.paths@[j]@ == p);
                        }
                    }
                }
            },
        }
        proof {
            assert forall|q: Seq<char>| #[trigger] self.dirs@.contains(q) implies exists|i: int|
                0 <= i < self.dir_list@.len() && self.dir_list@[i]@ == q by {
                assert(old(self).dirs@.contains(q));
                let i = choose|i: int| 0 <= i < old(self).dir_list@.len() && old(self).dir_list@[i]@ == q;
                assert(self.dir_list@[i]@ == q);
            }
        }
    }

    /// Removes the regular file at `path`; reports whether there was one.
    pub fn remove_file(&mut self, path: &str) -> (r: bool)
        requires
            old(self).wf(),
        ensures
            final(self).wf(),
            r == old(self)@.files.contains_key(path@),
            final(self)@.files == old(self)@.files.remove(path@),
            final(self)@.dirs == old(self)@.dirs,
    {
        let r = match self.find(path) {
            Some(i) => {
                let ghost op = self.paths@;
                let ghost oc = self.contents@;
                self.paths.remove(i);
                self.contents.remove(i);
                proof {
                    self.files@ = self.files@.remove(path@);
                    assert forall|a: int, b: int| 0 <= a < b < self.paths@.len() implies self.paths@[a]@ != self.paths@[b]@ by {
                        let a2 = if a < i { a } else { a + 1 };
                        let b2 = if b < i { b } else { b + 1 };
                        assert(self.paths@[a] == op[a2]);
                        assert(self.paths@[b] == op[b2]);
                    }
                    assert forall|j: int| 0 <= j < self.paths@.len() implies #[trigger] self.files@.contains_key(self.paths@[j]@)
                        && self.files@[self.paths@[j]@] == self.contents@[j]@ by {
                        let j2 = if j < i { j } else { j + 1 };
                        assert(self.paths@[j] == op[j2]);
                        assert(self.contents@[j] == oc[j2]);
                        assert(old(self).files@.contains_key(op[j2]@));
                        if j2 < i {
                            assert(op[j2]@ != op[i as int]@);
                        } else {
                            assert(op[i as int]@ != op[j2]@);
                        }
                    }
                    assert forall|p: Seq<char>| #[trigger] self.files@.contains_key(p) implies exists|j: int|
                        0 <= j < self.paths@.len() && self.paths@[j]@ == p by {
                        assert(old(self).files@.contains_key(p));
                        let k = choose|k: int| 0 <= k < op.len() && op[k]@ == p;
                        assert(k != i);
                        let j = if k < i { k } else { k - 1 };
                        assert(self.paths@[j] == op[k]);
                    }
                }
                true
            },
            None => {
                proof {
                    assert(self@.files.remove(path@) =~= self@.files);
                }
                false
            },
        };
        proof {
            assert forall|q: Seq<char>| #[trigger] self.dirs@.contains(q) implies exists|i: int|
                0 <= i < self.dir_list@.len() && self.dir_list@[i]@ == q by {
                assert(old(self).dirs@.contains(q));
                let i = choose|i: int| 0 <= i < old(self).dir_list@.len() && old(self).dir_list@[i]@ == q;
                assert(self.dir_list@[i]@ == q);
            }
        }
        r
    }

    fn add_dir(&mut self, dir: String)
        requires
            old(self).wf(),
        ensures
            final(self).wf(),
            final(self)@.files == old(self)@.files,
            final(self)@.dirs == old(self)@.dirs.insert(dir@),
    {
        let ghost q = dir@;
        self.dir_list.push(dir);
        proof {
            self.dirs@ = self.dirs@.insert(q);
            let n = self.dir_list@.len() - 1;
            assert(self.dir_list@[n]@ == q);
            assert forall|r: Seq<char>| #[trigger] self.dirs@.contains(r) implies exists|j: int|
                0 <= j < self.dir_list@.len() && self.dir_list@[j]@ == r by {
                if r != q {
                    let j = choose|j: int| 0 <= j < old(self).dir_list@.len() && old(self).dir_list@[j]@ == r;
                    assert(self.dir_list@[j]@ == r);
                }
            }
        }
    }

    /// Creates every proper ancestor directory of `path`.
    pub fn create_ancestors(&mut self, path: &str)
        requires
            old(self).wf(),
        ensures
            final(self).wf(),
            final(self)@.files == old(self)@.files,
            final(self)@.dirs == old(self)@.dirs.union(ancestors(path@)),
    {
        let n = path.unicode_len();
        let mut k: usize = 0;
        proof {
            assert(dir_prefixes(path@, 0) =~= Set::<Seq<char>>::empty());
            assert(old(self)@.dirs.union(dir_prefixes(path@, 0)) =~= old(self)@.dirs);
        }
        while k < n
            invariant
                self.wf(),
                n == path@.len(),
                k <= n,
                self@.files == old(self)@.files,
                self@.dirs == old(self)@.dirs.union(dir_prefixes(path@, k as int)),
            decreases n - k,
        {
            let ghost before = self@.dirs;
            if k > 0 && path.get_char(k) == '/' {
                let prefix = String::from_str(path.substring_char(0, k));
                self.add_dir(prefix);
                proof {
                    assert(self@.dirs =~= old(self)@.dirs.union(dir_prefixes(path@, k + 1))) by {
                        assert forall|q: Seq<char>| dir_prefixes(path@, k + 1).contains(q) implies
                            #[trigger] self@.dirs.contains(q) by {
                            let j = choose|j: int| 0 < j < k + 1 && j < path@.len() && path@[j] == '/' && q == path@.subrange(0, j);
                            if j < k {
                                assert(dir_prefixes(path@, k as int).contains(q));
                            }
                        }
                        assert forall|q: Seq<char>| #[trigger] self@.dirs.contains(q) && !old(self)@.dirs.contains(q) implies
                            dir_prefixes(path@, k + 1).contains(q) by {
                            if q != path@.subrange(0, k as int) {
                                assert(dir_prefixes(path@, k as int).contains(q));
                                let j = choose|j: int| 0 < j < k && j < path@.len() && path@[j] == '/' && q == path@.subrange(0, j);
                                assert(0 < j < k + 1);
                            } else {
                                assert(0 < k < k + 1 && path@[k as int] == '/');
                            }
                        }
                    }
                }
            } else {
                proof {
                    assert(dir_prefixes(path@, k + 1) =~= dir_prefixes(path@, k as int)) by {
                        assert forall|q: Seq<char>| dir_prefixes(path@, k + 1).contains(q) implies
                            #[trigger] dir_prefixes(path@, k as int).contains(q) by {
                            let j = choose|j: int| 0 < j < k + 1 && j < path@.len() && path@[j] == '/' && q == path@.subrange(0, j);
                            assert(j != k);
                        }
                    }
                }
            }
            k = k + 1;
        }
    }

    /// Creates the directory `path` and every missing ancestor.
    pub fn create_dir_all(&mut self, path: &str)
        requires
            old(self).wf(),
        ensures
            final(self).wf(),
            final(self)@.files == old(self)@.files,
            final(self)@.dirs == old(self)@.dirs.union(ancestors(path@)).insert(path@),
    {
        self.create_ancestors(path);
        self.add_dir(String::from_str(path));
    }

    /// Whether a directory exists at `path`.
    pub fn contains_dir(&self, path: &str) -> (r: bool)
        requires
            self.wf(),
        ensures
            r == self@.dirs.contains(path@),
    {
        let key = String::from_str(path);
        let mut i: usize = 0;
        while i < self.dir_list.len()
            invariant
                self.wf(),
                key@ == path@,
                i <= self.dir_list@.len(),
                forall|j: int| 0 <= j < i ==> self.dir_list@[j]@ != path@,
            decreases self.dir_list@.len() - i,
        {
            if self.dir_list[i] == key {
                return true;
            }
            i = i + 1;
        }
        false
    }
}

} // verus!
