//! Classification of archive entries by the shape of their names.

use vstd::prelude::*;

verus! {

/// The suffix that marks an entry whose payload is a binary-diff program.
pub open spec fn patch_suffix() -> Seq<char> {
    seq!['.', 'p', 'a', 't', 'c', 'h']
}

/// The suffix that marks an entry that asks for a file to be removed.
pub open spec fn delete_suffix() -> Seq<char> {
    seq!['.', 'd', 'e', 'l', 'e', 't', 'e']
}

/// `s` ends with `suffix`.
pub open spec fn ends_with(s: Seq<char>, suffix: Seq<char>) -> bool {
    suffix.len() <= s.len() && s.subrange(s.len() - suffix.len(), s.len() as int) == suffix
}

/// What an archive entry asks for.
#[derive(Clone, Copy, Debug, PartialEq, Eq, Structural)]
pub enum EntryKind {
    /// A directory to create, with its missing ancestors.
    Directory,
    /// A binary diff to apply to an existing file.
    Patch,
    /// A file to remove.
    Delete,
    /// A file to create or overwrite with the payload.
    Replace,
}

/// The kind of an entry, decided by its name alone: the trailing separator
/// first, then the patch suffix, then the delete suffix, else a replacement.
pub open spec fn kind_of(name: Seq<char>) -> EntryKind {
    if ends_with(name, seq!['/']) {
        EntryKind::Directory
    } else if ends_with(name, patch_suffix()) {
        EntryKind::Patch
    } else if ends_with(name, delete_suffix()) {
        EntryKind::Delete
    } else {
        EntryKind::Replace
    }
}

/// The installation-relative path an entry acts on: the name without its
/// trailing separator or reserved suffix.
pub open spec fn target_of(name: Seq<char>) -> Seq<char> {
    match kind_of(name) {
        EntryKind::Directory => name.drop_last(),
        EntryKind::Patch => name.subrange(0, name.len() - patch_suffix().len()),
        EntryKind::Delete => name.subrange(0, name.len() - delete_suffix().len()),
        EntryKind::Replace => name,
    }
}

/// The disposition of one archive entry: its kind and the path it acts on.
#[derive(Clone, Debug)]
pub struct EntryDisposition {
    pub kind: EntryKind,
    pub target: String,
}

/// Whether `name` ends with `suffix`.
pub fn has_suffix(name: &str, suffix: &str) -> (r: bool)
    ensures
        r == ends_with(name@, suffix@),
{
    let n = name.unicode_len();
    let m = suffix.unicode_len();
    if m > n {
        return false;
    }
    let start: usize = n - m;
    let mut i: usize = 0;
    while i < m
        invariant
            n == name@.len(),
            m == suffix@.len(),
            m <= n,
            start == n - m,
            i <= m,
            forall|j: int| 0 <= j < i ==> name@[start + j] == suffix@[j],
        decreases m - i,
    {
        if name.get_char(start + i) != suffix.get_char(i) {
            assert(name@.subrange(start as int, n as int)[i as int] != suffix@[i as int]);
            return false;
        }
        i = i + 1;
    }
    assert(name@.subrange(start as int, n as int) =~= suffix@);
    true
}

/// Classifies an archive entry by its name. Every name has exactly one
/// disposition; a name that matches no reserved shape is a replacement.
pub fn classify(name: &str) -> (r: EntryDisposition)
    ensures
        r.kind == kind_of(name@),
        r.target@ == target_of(name@),
{
    proof {
        reveal_strlit("/");
        reveal_strlit(".patch");
        reveal_strlit(".delete");
        assert("/"@ =~= seq!['/']);
        assert(".patch"@ =~= patch_suffix());
        assert(".delete"@ =~= delete_suffix());
    }
    let n = name.unicode_len();
    if has_suffix(name, "/") {
        let t = name.substring_char(0, n - 1);
        EntryDisposition { kind: EntryKind::Directory, target: String::from_str(t) }
    } else if has_suffix(name, ".patch") {
        let t = name.substring_char(0, n - 6);
        EntryDisposition { kind: EntryKind::Patch, target: String::from_str(t) }
    } else if has_suffix(name, ".delete") {
        let t = name.substring_char(0, n - 7);
        EntryDisposition { kind: EntryKind::Delete, target: String::from_str(t) }
    } else {
        EntryDisposition { kind: EntryKind::Replace, target: String::from_str(name) }
    }
}

/// Index of the last path separator among the first `k` characters, or -1.
pub open spec fn last_sep_before(p: Seq<char>, k: int) -> int
    decreases k,
{
    if k <= 0 {
        -1
    } else if p[k - 1] == '/' {
        k - 1
    } else {
        last_sep_before(p, k - 1)
    }
}

/// The last component of a path: what follows its last separator.
pub open spec fn file_name_of(p: Seq<char>) -> Seq<char> {
    p.subrange(last_sep_before(p, p.len() as int) + 1, p.len() as int)
}

proof fn lemma_last_sep_range(p: Seq<char>, k: int)
    requires
        0 <= k <= p.len(),
    ensures
        -1 <= last_sep_before(p, k) < k,
    decreases k,
{
    if k > 0 && p[k - 1] != '/' {
        lemma_last_sep_range(p, k - 1);
    }
}

/// The last component of `path`.
pub fn file_name(path: &str) -> (r: String)
    ensures
        r@ == file_name_of(path@),
{
    let n = path.unicode_len();
    let mut k: usize = n;
    while k > 0 && path.get_char(k - 1) != '/'
        invariant
            n == path@.len(),
            k <= n,
            last_sep_before(path@, n as int) == last_sep_before(path@, k as int),
        decreases k,
    {
        k = k - 1;
    }
    proof {
        lemma_last_sep_range(path@, k as int);
    }
    String::from_str(path.substring_char(k, n))
}

/// An entry acting on `target` would touch the running updater's own file.
pub open spec fn is_self_target(target: Seq<char>, self_exe_name: Seq<char>) -> bool {
    file_name_of(target) == self_exe_name
}

/// Whether `target` names the running updater's own file.
pub fn targets_self(target: &str, self_exe_name: &str) -> (r: bool)
    ensures
        r == is_self_target(target@, self_exe_name@),
{
    let f = file_name(target);
    let exe = String::from_str(self_exe_name);
    f == exe
}

/// Every name has exactly one kind, chosen by the first reserved shape it
/// has in the order separator, patch suffix, delete suffix; and the target
/// followed by what was stripped gives back the name.
pub proof fn lemma_classification(name: Seq<char>)
    ensures
        (kind_of(name) == EntryKind::Directory) == ends_with(name, seq!['/']),
        (kind_of(name) == EntryKind::Patch) == (!ends_with(name, seq!['/']) && ends_with(name, patch_suffix())),
        (kind_of(name) == EntryKind::Delete) == (!ends_with(name, seq!['/']) && !ends_with(name, patch_suffix())
            && ends_with(name, delete_suffix())),
        (kind_of(name) == EntryKind::Replace) == (!ends_with(name, seq!['/']) && !ends_with(name, patch_suffix())
            && !ends_with(name, delete_suffix())),
        kind_of(name) == EntryKind::Directory ==> target_of(name).push('/') == name,
        kind_of(name) == EntryKind::Patch ==> target_of(name) + patch_suffix() == name,
        kind_of(name) == EntryKind::Delete ==> target_of(name) + delete_suffix() == name,
        kind_of(name) == EntryKind::Replace ==> target_of(name) == name,
{
    let n = name.len() as int;
    if kind_of(name) == EntryKind::Directory {
        assert(name.subrange(n - 1, n)[0] == '/');
        assert(target_of(name).push('/') =~= name);
    } else if kind_of(name) == EntryKind::Patch {
        assert(target_of(name) + patch_suffix() =~= name);
    } else if kind_of(name) == EntryKind::Delete {
        assert(target_of(name) + delete_suffix() =~= name);
    }
}

} // verus!
