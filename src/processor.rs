//! Application of an archive's entries, in storage order, to an
//! installation directory.

use vstd::prelude::*;
use crate::entry::{classify, targets_self, kind_of, target_of, is_self_target, file_name_of, EntryKind};
use crate::install_tree::{InstallTree, TreeView, ancestors};
use crate::patcher::{apply_patch, patched};

verus! {

/// One entry of an archive: its name and its payload, which is `None` where
/// the payload could not be read.
#[derive(Clone, Debug)]
pub struct ArchiveEntry {
    pub name: String,
    pub payload: Option<Vec<u8>>,
}

impl ArchiveEntry {
    /// An entry whose payload was read in full.
    pub fn new(name: String, payload: Vec<u8>) -> (r: ArchiveEntry)
        ensures
            r.name@ == name@,
            r.payload_view() == Some(payload@),
    {
        ArchiveEntry { name, payload: Some(payload) }
    }

    /// An entry whose payload could not be read.
    pub fn unreadable(name: String) -> (r: ArchiveEntry)
        ensures
            r.name@ == name@,
            r.payload_view() is None,
    {
        ArchiveEntry { name, payload: None }
    }

    /// The payload's bytes, if it was read.
    pub open spec fn payload_view(&self) -> Option<Seq<u8>> {
        match self.payload {
            Some(v) => Some(v@),
            None => None,
        }
    }
}

/// What applying an entry asks of the installation directory.
#[derive(Clone, Copy, Debug, PartialEq, Eq, Structural)]
pub enum EntryAction {
    /// Leave everything untouched: the entry targets the running updater.
    Skip,
    /// Create the target directory and its missing ancestors.
    CreateDirAll,
    /// Create the target's missing ancestors, then create or truncate the
    /// target and write the payload into it.
    WriteFile,
    /// Replace the existing target's contents by the patched contents.
    PatchFile,
    /// Remove the target if it exists.
    RemoveFile,
}

/// The action an entry named `name` calls for, while `self_exe_name` is the
/// file name of the running updater.
pub open spec fn action_of(name: Seq<char>, self_exe_name: Seq<char>) -> EntryAction {
    if is_self_target(target_of(name), self_exe_name) {
        EntryAction::Skip
    } else {
        match kind_of(name) {
            EntryKind::Directory => EntryAction::CreateDirAll,
            EntryKind::Replace => EntryAction::WriteFile,
            EntryKind::Patch => EntryAction::PatchFile,
            EntryKind::Delete => EntryAction::RemoveFile,
        }
    }
}

/// An action together with the path it acts on.
#[derive(Clone, Debug)]
pub struct EntryPlan {
    pub action: EntryAction,
    pub target: String,
}

/// Decides what the entry named `name` does, and where.
pub fn plan_entry(name: &str, self_exe_name: &str) -> (r: EntryPlan)
    ensures
        r.action == action_of(name@, self_exe_name@),
        r.target@ == target_of(name@),
{
    let d = classify(name);
    let action = if targets_self(d.target.as_str(), self_exe_name) {
        EntryAction::Skip
    } else {
        match d.kind {
            EntryKind::Directory => EntryAction::CreateDirAll,
            EntryKind::Replace => EntryAction::WriteFile,
            EntryKind::Patch => EntryAction::PatchFile,
            EntryKind::Delete => EntryAction::RemoveFile,
        }
    };
    EntryPlan { action, target: d.target }
}

/// Why one entry could not be applied.
#[derive(Clone, Copy, Debug, PartialEq, Eq, Structural)]
pub enum EntryError {
    /// The entry or its payload could not be read from the archive.
    Unreadable,
    /// A patch names a file that does not exist.
    MissingTarget,
    /// A patch is malformed or does not fit the existing file.
    CorruptPatch,
    /// The filesystem refused a create, write or remove.
    Filesystem,
}

/// What became of one entry.
#[derive(Clone, Copy, Debug, PartialEq, Eq, Structural)]
pub enum EntryOutcome {
    /// The entry's action was carried out.
    Applied,
    /// The entry targets the running updater and was left alone.
    Skipped,
    /// The entry's action failed; the installation directory is as before.
    Failed(EntryError),
}

/// The outcome of applying the entry named `name` with `payload` to `t`.
pub open spec fn entry_outcome(
    t: TreeView,
    name: Seq<char>,
    payload: Option<Seq<u8>>,
    self_exe_name: Seq<char>,
) -> EntryOutcome {
    let target = target_of(name);
    match action_of(name, self_exe_name) {
        EntryAction::Skip => EntryOutcome::Skipped,
        EntryAction::CreateDirAll => EntryOutcome::Applied,
        EntryAction::RemoveFile => EntryOutcome::Applied,
        EntryAction::WriteFile => match payload {
            Some(_) => EntryOutcome::Applied,
            None => EntryOutcome::Failed(EntryError::Unreadable),
        },
        EntryAction::PatchFile => match payload {
            None => EntryOutcome::Failed(EntryError::Unreadable),
            Some(p) => if !t.files.contains_key(target) {
                EntryOutcome::Failed(EntryError::MissingTarget)
            } else if patched(t.files[target], p) is None {
                EntryOutcome::Failed(EntryError::CorruptPatch)
            } else {
                EntryOutcome::Applied
            },
        },
    }
}

/// The installation directory after applying the entry named `name` with
/// `payload` to `t`.
pub open spec fn entry_effect(
    t: TreeView,
    name: Seq<char>,
    payload: Option<Seq<u8>>,
    self_exe_name: Seq<char>,
) -> TreeView {
    let target = target_of(name);
    if entry_outcome(t, name, payload, self_exe_name) != EntryOutcome::Applied {
        t
    } else {
        match action_of(name, self_exe_name) {
            EntryAction::CreateDirAll => TreeView {
                files: t.files,
                dirs: t.dirs.union(ancestors(target)).insert(target),
            },
            EntryAction::RemoveFile => TreeView { files: t.files.remove(target), dirs: t.dirs },
            EntryAction::WriteFile => TreeView {
                files: t.files.insert(target, payload->0),
                dirs: t.dirs.union(ancestors(target)),
            },
            EntryAction::PatchFile => TreeView {
                files: t.files.insert(target, patched(t.files[target], payload->0)->0),
                dirs: t.dirs,
            },
            EntryAction::Skip => t,
        }
    }
}

/// An archive slot as plain data: the entry's name and payload, or `None`
/// where the entry could not be reached.
pub type SlotView = Option<(Seq<char>, Option<Seq<u8>>)>;

/// The plain data of an archive slot.
pub open spec fn slot_view(slot: Option<ArchiveEntry>) -> SlotView {
    match slot {
        Some(e) => Some((e.name@, e.payload_view())),
        None => None,
    }
}

/// The plain data of a sequence of archive slots.
pub open spec fn slots_view(entries: Seq<Option<ArchiveEntry>>) -> Seq<SlotView> {
    entries.map_values(|s: Option<ArchiveEntry>| slot_view(s))
}

/// The name an archive slot reports: empty where the entry could not be reached.
pub open spec fn slot_name(slot: SlotView) -> Seq<char> {
    match slot {
        Some((name, _)) => name,
        None => Seq::empty(),
    }
}

/// The outcome of one archive slot.
pub open spec fn slot_outcome(t: TreeView, slot: SlotView, self_exe_name: Seq<char>) -> EntryOutcome {
    match slot {
        Some((name, payload)) => entry_outcome(t, name, payload, self_exe_name),
        None => EntryOutcome::Failed(EntryError::Unreadable),
    }
}

/// The effect of one archive slot.
pub open spec fn slot_effect(t: TreeView, slot: SlotView, self_exe_name: Seq<char>) -> TreeView {
    match slot {
        Some((name, payload)) => entry_effect(t, name, payload, self_exe_name),
        None => t,
    }
}

/// The installation directory after the first `k` slots of `slots`.
pub open spec fn apply_prefix(
    t: TreeView,
    slots: Seq<SlotView>,
    self_exe_name: Seq<char>,
    k: int,
) -> TreeView
    decreases k,
{
    if k <= 0 {
        t
    } else {
        slot_effect(apply_prefix(t, slots, self_exe_name, k - 1), slots[k - 1], self_exe_name)
    }
}

/// The outcome of slot `i` of `slots`, applied after the slots before it.
pub open spec fn outcome_at(
    t: TreeView,
    slots: Seq<SlotView>,
    self_exe_name: Seq<char>,
    i: int,
) -> EntryOutcome {
    slot_outcome(apply_prefix(t, slots, self_exe_name, i), slots[i], self_exe_name)
}

/// What a whole pass over `slots` reports and leaves: one outcome per
/// slot, one progress report per slot counting up from one, and the
/// installation directory after every slot.
pub open spec fn pass_result(
    t: TreeView,
    slots: Seq<SlotView>,
    self_exe_name: Seq<char>,
    rep: ApplyReport,
    after: TreeView,
) -> bool {
    &&& after == apply_prefix(t, slots, self_exe_name, slots.len() as int)
    &&& rep.outcomes@.len() == slots.len()
    &&& forall|i: int| 0 <= i < slots.len() ==>
        rep.outcomes@[i] == outcome_at(t, slots, self_exe_name, i)
    &&& rep.progress@.len() == slots.len()
    &&& forall|i: int| 0 <= i < slots.len() ==> {
        &&& (#[trigger] rep.progress@[i]).done == i + 1
        &&& rep.progress@[i].total == slots.len()
        &&& rep.progress@[i].name@ == slot_name(slots[i])
    }
}

/// Applies one archive slot to `tree`. A failing entry leaves `tree` as it was.
pub fn apply_entry(tree: &mut InstallTree, slot: &Option<ArchiveEntry>, self_exe_name: &str) -> (r: EntryOutcome)
    requires
        old(tree).wf(),
    ensures
        final(tree).wf(),
        r == slot_outcome(old(tree)@, slot_view(*slot), self_exe_name@),
        final(tree)@ == slot_effect(old(tree)@, slot_view(*slot), self_exe_name@),
{
    let e = match slot {
        Some(e) => e,
        None => return EntryOutcome::Failed(EntryError::Unreadable),
    };
    let plan = plan_entry(e.name.as_str(), self_exe_name);
    let target = plan.target.as_str();
    match plan.action {
        EntryAction::Skip => EntryOutcome::Skipped,
        EntryAction::CreateDirAll => {
            tree.create_dir_all(target);
            EntryOutcome::Applied
        },
        EntryAction::RemoveFile => {
            tree.remove_file(target);
            EntryOutcome::Applied
        },
        EntryAction::WriteFile => match &e.payload {
            None => EntryOutcome::Failed(EntryError::Unreadable),
            Some(p) => {
                tree.create_ancestors(target);
                tree.write_file(target, vstd::slice::slice_to_vec(p.as_slice()));
                EntryOutcome::Applied
            },
        },
        EntryAction::PatchFile => match &e.payload {
            None => EntryOutcome::Failed(EntryError::Unreadable),
            Some(p) => match tree.read_file(target) {
                None => EntryOutcome::Failed(EntryError::MissingTarget),
                Some(old_bytes) => match apply_patch(&old_bytes, p) {
                    Err(_) => EntryOutcome::Failed(EntryError::CorruptPatch),
                    Ok(new_bytes) => {
                        tree.write_file(target, new_bytes);
                        EntryOutcome::Applied
                    },
                },
            },
        },
    }
}

/// One progress report: `done` of `total` entries handled, the last being
/// `name`.
#[derive(Clone, Debug)]
pub struct ProgressEvent {
    pub done: usize,
    pub total: usize,
    pub name: String,
}

/// What a pass over an archive did: one outcome per entry, in storage order,
/// and the progress reports in the order they were made.
#[derive(Clone, Debug)]
pub struct ApplyReport {
    pub outcomes: Vec<EntryOutcome>,
    pub progress: Vec<ProgressEvent>,
}

impl ApplyReport {
    /// A report of a pass that has not handled any entry yet.
    pub fn new() -> (r: ApplyReport)
        ensures
            r.outcomes@.len() == 0,
            r.progress@.len() == 0,
    {
        ApplyReport { outcomes: Vec::new(), progress: Vec::new() }
    }

    /// Records the outcome of the next entry, named `name`, of a pass over
    /// `total` entries, and makes the progress report that follows it.
    pub fn record(&mut self, total: usize, name: String, outcome: EntryOutcome)
        requires
            old(self).progress@.len() < total,
        ensures
            final(self).outcomes@ == old(self).outcomes@.push(outcome),
            final(self).progress@.len() == old(self).progress@.len() + 1,
            forall|k: int| 0 <= k < old(self).progress@.len() ==>
                final(self).progress@[k] == old(self).progress@[k],
            final(self).progress@[old(self).progress@.len() as int].done == old(self).progress@.len() + 1,
            final(self).progress@[old(self).progress@.len() as int].total == total,
            final(self).progress@[old(self).progress@.len() as int].name@ == name@,
    {
        let done = self.progress.len() + 1;
        self.outcomes.push(outcome);
        self.progress.push(ProgressEvent { done, total, name });
    }
}

/// What carrying out an entry's action on a filesystem came to.
#[derive(Clone, Copy, Debug, PartialEq, Eq, Structural)]
pub enum StepResult {
    /// The action was carried out.
    Done,
    /// The entry's payload could not be read.
    PayloadUnreadable,
    /// The target did not exist.
    TargetMissing,
    /// The patcher rejected the payload.
    PatchRejected,
    /// The filesystem refused a create, read, write or remove.
    Refused,
}

/// The outcome of an entry whose `action` came to `step`: a skipped entry is
/// skipped whatever happened, and a missing target is no failure for a
/// removal.
pub open spec fn outcome_of_step(action: EntryAction, step: StepResult) -> EntryOutcome {
    if action == EntryAction::Skip {
        EntryOutcome::Skipped
    } else {
        match step {
            StepResult::Done => EntryOutcome::Applied,
            StepResult::TargetMissing => if action == EntryAction::RemoveFile {
                EntryOutcome::Applied
            } else {
                EntryOutcome::Failed(EntryError::MissingTarget)
            },
            StepResult::PayloadUnreadable => EntryOutcome::Failed(EntryError::Unreadable),
            StepResult::PatchRejected => EntryOutcome::Failed(EntryError::CorruptPatch),
            StepResult::Refused => EntryOutcome::Failed(EntryError::Filesystem),
        }
    }
}

/// The outcome of an entry whose `action` came to `step`.
pub fn step_outcome(action: EntryAction, step: StepResult) -> (r: EntryOutcome)
    ensures
        r == outcome_of_step(action, step),
{
    match action {
        EntryAction::Skip => EntryOutcome::Skipped,
        _ => match step {
            StepResult::Done => EntryOutcome::Applied,
            StepResult::TargetMissing => match action {
                EntryAction::RemoveFile => EntryOutcome::Applied,
                _ => EntryOutcome::Failed(EntryError::MissingTarget),
            },
            StepResult::PayloadUnreadable => EntryOutcome::Failed(EntryError::Unreadable),
            StepResult::PatchRejected => EntryOutcome::Failed(EntryError::CorruptPatch),
            StepResult::Refused => EntryOutcome::Failed(EntryError::Filesystem),
        },
    }
}

/// Applies every slot of `entries` to `tree` in storage order. A failing
/// entry is recorded and passed over; the pass goes on with the next one.
/// After each entry one progress report is made.
pub fn apply_archive(tree: &mut InstallTree, entries: &Vec<Option<ArchiveEntry>>, self_exe_name: &str) -> (r: ApplyReport)
    requires
        old(tree).wf(),
    ensures
        final(tree).wf(),
        pass_result(old(tree)@, slots_view(entries@), self_exe_name@, r, final(tree)@),
{
    let ghost slots = slots_view(entries@);
    let n = entries.len();
    let mut report = ApplyReport::new();
    let mut i: usize = 0;
    while i < n
        invariant
            n == entries@.len(),
            i <= n,
            tree.wf(),
            slots == slots_view(entries@),
            tree@ == apply_prefix(old(tree)@, slots, self_exe_name@, i as int),
            report.outcomes@.len() == i,
            forall|k: int| 0 <= k < i ==>
                report.outcomes@[k] == outcome_at(old(tree)@, slots, self_exe_name@, k),
            report.progress@.len() == i,
            forall|k: int| 0 <= k < i ==> {
                &&& (#[trigger] report.progress@[k]).done == k + 1
                &&& report.progress@[k].total == n
                &&& report.progress@[k].name@ == slot_name(slots[k])
            },
        decreases n - i,
    {
        let outcome = apply_entry(tree, &entries[i], self_exe_name);
        let name = match &entries[i] {
            Some(e) => e.name.clone(),
            None => String::new(),
        };
        report.record(n, name, outcome);
        i = i + 1;
    }
    report
}

/// Applying a delete entry whose target does not exist succeeds and leaves
/// the installation directory as it was.
pub proof fn lemma_delete_absent_is_noop(
    t: TreeView,
    name: Seq<char>,
    payload: Option<Seq<u8>>,
    self_exe_name: Seq<char>,
)
    requires
        kind_of(name) == EntryKind::Delete,
        !t.files.contains_key(target_of(name)),
    ensures
        !(entry_outcome(t, name, payload, self_exe_name) is Failed),
        entry_effect(t, name, payload, self_exe_name) == t,
{
    assert(t.files.remove(target_of(name)) =~= t.files);
}

proof fn lemma_slot_keeps_self_file(
    t: TreeView,
    slot: SlotView,
    self_exe_name: Seq<char>,
    p: Seq<char>,
)
    requires
        file_name_of(p) == self_exe_name,
    ensures
        slot_effect(t, slot, self_exe_name).files.contains_key(p) == t.files.contains_key(p),
        t.files.contains_key(p) ==> slot_effect(t, slot, self_exe_name).files[p] == t.files[p],
{
    if let Some((name, _)) = slot {
        let target = target_of(name);
        if action_of(name, self_exe_name) != EntryAction::Skip {
            assert(target != p);
        }
    }
}

/// No entry, of any kind, changes or removes a file whose name is the
/// running updater's: after a whole pass such a file is as it was, and each
/// entry that targets one is skipped.
pub proof fn lemma_self_file_untouched(
    t: TreeView,
    entries: Seq<SlotView>,
    self_exe_name: Seq<char>,
    p: Seq<char>,
)
    requires
        file_name_of(p) == self_exe_name,
    ensures
        apply_prefix(t, entries, self_exe_name, entries.len() as int).files.contains_key(p)
            == t.files.contains_key(p),
        t.files.contains_key(p) ==> apply_prefix(t, entries, self_exe_name, entries.len() as int).files[p]
            == t.files[p],
        forall|i: int|
            0 <= i < entries.len() && entries[i] is Some && is_self_target(
                target_of(slot_name(entries[i])),
                self_exe_name,
            ) ==> #[trigger] outcome_at(t, entries, self_exe_name, i) == EntryOutcome::Skipped,
{
    lemma_prefix_keeps_self_file(t, entries, self_exe_name, p, entries.len() as int);
}

proof fn lemma_prefix_keeps_self_file(
    t: TreeView,
    entries: Seq<SlotView>,
    self_exe_name: Seq<char>,
    p: Seq<char>,
    k: int,
)
    requires
        file_name_of(p) == self_exe_name,
        0 <= k <= entries.len(),
    ensures
        apply_prefix(t, entries, self_exe_name, k).files.contains_key(p) == t.files.contains_key(p),
        t.files.contains_key(p) ==> apply_prefix(t, entries, self_exe_name, k).files[p] == t.files[p],
    decreases k,
{
    if k > 0 {
        lemma_prefix_keeps_self_file(t, entries, self_exe_name, p, k - 1);
        lemma_slot_keeps_self_file(apply_prefix(t, entries, self_exe_name, k - 1), entries[k - 1], self_exe_name, p);
    }
}

/// A replacement entry that does not target the updater is applied and
/// writes its payload under its own name.
pub proof fn lemma_replace_writes_payload(
    t: TreeView,
    name: Seq<char>,
    payload: Seq<u8>,
    self_exe_name: Seq<char>,
)
    requires
        kind_of(name) == EntryKind::Replace,
        !is_self_target(name, self_exe_name),
    ensures
        entry_outcome(t, name, Some(payload), self_exe_name) == EntryOutcome::Applied,
        entry_effect(t, name, Some(payload), self_exe_name).files == t.files.insert(name, payload),
{
}

/// A patch entry that does not target the updater, whose target exists and
/// accepts the patch, is applied: the target takes the patched bytes, and no
/// file appears under the entry's own name.
pub proof fn lemma_patch_rewrites_target(
    t: TreeView,
    name: Seq<char>,
    patch: Seq<u8>,
    self_exe_name: Seq<char>,
)
    requires
        kind_of(name) == EntryKind::Patch,
        !is_self_target(target_of(name), self_exe_name),
        t.files.contains_key(target_of(name)),
        patched(t.files[target_of(name)], patch) is Some,
    ensures
        entry_outcome(t, name, Some(patch), self_exe_name) == EntryOutcome::Applied,
        entry_effect(t, name, Some(patch), self_exe_name).files == t.files.insert(
            target_of(name),
            patched(t.files[target_of(name)], patch)->0,
        ),
        entry_effect(t, name, Some(patch), self_exe_name).files.contains_key(name)
            == t.files.contains_key(name),
{
    assert(target_of(name).len() < name.len());
}

/// A corrupt patch followed by a replacement: the patch alone fails, its
/// target keeps its bytes, and the replacement is still written.
pub proof fn lemma_corrupt_patch_isolated(
    t: TreeView,
    bad_name: Seq<char>,
    bad_patch: Seq<u8>,
    good_name: Seq<char>,
    payload: Seq<u8>,
    self_exe_name: Seq<char>,
)
    requires
        kind_of(bad_name) == EntryKind::Patch,
        !is_self_target(target_of(bad_name), self_exe_name),
        t.files.contains_key(target_of(bad_name)),
        patched(t.files[target_of(bad_name)], bad_patch) is None,
        kind_of(good_name) == EntryKind::Replace,
        !is_self_target(good_name, self_exe_name),
        good_name != target_of(bad_name),
    ensures
        ({
            let slots = seq![Some((bad_name, Some(bad_patch))), Some((good_name, Some(payload)))];
            let after = apply_prefix(t, slots, self_exe_name, 2);
            &&& outcome_at(t, slots, self_exe_name, 0) == EntryOutcome::Failed(EntryError::CorruptPatch)
            &&& outcome_at(t, slots, self_exe_name, 1) == EntryOutcome::Applied
            &&& after.files.contains_key(good_name) && after.files[good_name] == payload
            &&& after.files.contains_key(target_of(bad_name))
            &&& after.files[target_of(bad_name)] == t.files[target_of(bad_name)]
        }),
{
    let slots: Seq<SlotView> = seq![Some((bad_name, Some(bad_patch))), Some((good_name, Some(payload)))];
    assert(apply_prefix(t, slots, self_exe_name, 1) == t);
}

} // verus!
