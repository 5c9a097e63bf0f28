//! Promoting staged releases to installed ones.
use vstd::prelude::*;
use crate::state::{
    RecordView, StateView, UpdateState, BinaryRecord, cleared_record, promoted_record, names_unique,
};

verus! {

/// A record whose staged release can be installed: something is pending and the staged
/// file exists (`present` tells whether a file exists at its staged path).
pub open spec fn ready(rec: RecordView, present: bool) -> bool {
    rec.pending_version.len() > 0 && rec.staged_path.len() > 0 && present
}

/// The entries after activation: each ready record promoted, the others kept.
pub open spec fn activated_apps(
    apps: Seq<(Seq<char>, RecordView)>,
    present: Seq<bool>,
) -> Seq<(Seq<char>, RecordView)> {
    Seq::new(
        apps.len(),
        |i: int|
            if ready(apps[i].1, present[i]) {
                (apps[i].0, promoted_record(apps[i].1))
            } else {
                apps[i]
            },
    )
}

/// The state after activation: ready records promoted, the notification gate reset.
pub open spec fn activated(s: StateView, present: Seq<bool>) -> StateView {
    StateView { notify_after: 0, apps: activated_apps(s.apps, present) }
}

/// The entries after reconciling with the files on disk: a record whose staged release is
/// not ready has its pending fields cleared.
pub open spec fn reconciled_apps(
    apps: Seq<(Seq<char>, RecordView)>,
    present: Seq<bool>,
) -> Seq<(Seq<char>, RecordView)> {
    Seq::new(
        apps.len(),
        |i: int|
            if ready(apps[i].1, present[i]) {
                apps[i]
            } else {
                (apps[i].0, cleared_record(apps[i].1))
            },
    )
}

/// Whether a record can be installed.
pub fn is_ready(rec: &BinaryRecord, present: bool) -> (r: bool)
    ensures
        r == ready(rec@, present),
{
    rec.pending_version.unicode_len() > 0 && rec.staged_path.unicode_len() > 0 && present
}

/// Where `name` is installed under `bin_dir`, and where its previous binary is kept:
/// `<bin_dir>/<name>` and `<bin_dir>/<name>.bak`.
pub fn install_paths(bin_dir: &String, name: &String) -> (r: (String, String))
    ensures
        r.0@ == bin_dir@ + "/"@ + name@,
        r.1@ == bin_dir@ + "/"@ + name@ + ".bak"@,
{
    let mut target = bin_dir.clone();
    target.append("/");
    target.append(name.as_str());
    let mut backup = target.clone();
    backup.append(".bak");
    (target, backup)
}

impl UpdateState {
    /// The indices of the entries whose staged release can be installed, in order.
    pub fn ready_entries(&self, present: &Vec<bool>) -> (r: Vec<usize>)
        requires
            present@.len() == self@.apps.len(),
        ensures
            forall|k: int| 0 <= k < r@.len() ==> #[trigger] r@[k] < self@.apps.len() && ready(
                self@.apps[r@[k] as int].1,
                present@[r@[k] as int],
            ),
            forall|k: int, m: int| 0 <= k < m < r@.len() ==> #[trigger] r@[k] < #[trigger] r@[m],
            forall|i: int|
                0 <= i < self@.apps.len() && ready(self@.apps[i].1, #[trigger] present@[i])
                    ==> r@.contains(i as usize),
    {
        let mut r: Vec<usize> = Vec::new();
        let mut i: usize = 0;
        while i < self.applications.len()
            invariant
                present@.len() == self@.apps.len(),
                i <= self@.apps.len(),
                forall|k: int| 0 <= k < r@.len() ==> #[trigger] r@[k] < i && ready(
                    self@.apps[r@[k] as int].1,
                    present@[r@[k] as int],
                ),
                forall|k: int, m: int| 0 <= k < m < r@.len() ==> #[trigger] r@[k] < #[trigger] r@[m],
                forall|k: int| 0 <= k < i && ready(self@.apps[k].1, #[trigger] present@[k]) ==> r@.contains(k as usize),
            decreases self@.apps.len() - i,
        {
            assert(self@.apps[i as int].1 == self.applications@[i as int].record@);
            if is_ready(&self.applications[i].record, present[i]) {
                let ghost before_push = r@;
                r.push(i);
                assert forall|k: int| 0 <= k < i + 1 && ready(self@.apps[k].1, #[trigger] present@[k])
                    implies r@.contains(k as usize) by {
                    if k < i {
                        let w = choose|w: int| 0 <= w < before_push.len() && before_push[w] == k as usize;
                        assert(r@[w] == k as usize);
                    } else {
                        assert(r@[r@.len() - 1] == k as usize);
                    }
                }
            }
            i = i + 1;
        }
        r
    }

    /// Promotes every ready record: its pending release becomes the current one and its
    /// pending fields are cleared. Records that are not ready are left as they are. The
    /// notification gate is reset to zero. Returns the indices of the promoted entries, in
    /// order.
    pub fn activate(&mut self, present: &Vec<bool>) -> (r: Vec<usize>)
        requires
            old(self).wf(),
            present@.len() == old(self)@.apps.len(),
        ensures
            final(self).wf(),
            final(self)@ == activated(old(self)@, present@),
            forall|k: int| 0 <= k < r@.len() ==> #[trigger] r@[k] < old(self)@.apps.len() && ready(
                old(self)@.apps[r@[k] as int].1,
                present@[r@[k] as int],
            ),
            forall|k: int, m: int| 0 <= k < m < r@.len() ==> #[trigger] r@[k] < #[trigger] r@[m],
            forall|i: int|
                0 <= i < old(self)@.apps.len() && ready(old(self)@.apps[i].1, #[trigger] present@[i])
                    ==> r@.contains(i as usize),
    {
        let ghost start = self@.apps;
        let mut done: Vec<usize> = Vec::new();
        let mut i: usize = 0;
        while i < self.applications.len()
            invariant
                self.wf(),
                self@.apps.len() == start.len(),
                present@.len() == start.len(),
                i <= start.len(),
                self@.notify_after == old(self)@.notify_after,
                forall|k: int| 0 <= k < i ==> #[trigger] self@.apps[k] == activated_apps(start, present@)[k],
                forall|k: int| i <= k < start.len() ==> #[trigger] self@.apps[k] == start[k],
                forall|k: int| 0 <= k < done@.len() ==> #[trigger] done@[k] < i && ready(
                    start[done@[k] as int].1,
                    present@[done@[k] as int],
                ),
                forall|k: int, m: int| 0 <= k < m < done@.len() ==> #[trigger] done@[k] < #[trigger] done@[m],
                forall|k: int| 0 <= k < i && ready(start[k].1, #[trigger] present@[k]) ==> done@.contains(k as usize),
            decreases start.len() - i,
        {
            if is_ready(&self.applications[i].record, present[i]) {
                let old_rec = &self.applications[i].record;
                let rec = BinaryRecord {
                    current_version: old_rec.pending_version.clone(),
                    current_source: old_rec.pending_source.clone(),
                    pending_version: String::new(),
                    pending_source: String::new(),
                    staged_path: String::new(),
                };
                self.replace_record(i, rec);
                let ghost before_push = done@;
                done.push(i);
                assert forall|k: int| 0 <= k < i + 1 && ready(start[k].1, #[trigger] present@[k])
                    implies done@.contains(k as usize) by {
                    if k < i {
                        let w = choose|w: int| 0 <= w < before_push.len() && before_push[w] == k as usize;
                        assert(done@[w] == k as usize);
                    } else {
                        assert(done@[done@.len() - 1] == k as usize);
                    }
                }
            } else {
                assert(self@.apps[i as int] == start[i as int]);
                assert(self@.apps[i as int].1 == self.applications@[i as int].record@);
                assert(!ready(start[i as int].1, present@[i as int]));
            }
            i = i + 1;
        }
        self.notify_after = 0;
        assert(self@.apps =~= activated_apps(start, present@));
        done
    }

    /// Clears the pending fields of every record whose staged release is not ready, so that
    /// a release is pending exactly where its staged file exists. `present[i]` tells whether
    /// a file exists at entry `i`'s staged path.
    pub fn reconcile(&mut self, present: &Vec<bool>)
        requires
            old(self).wf(),
            present@.len() == old(self)@.apps.len(),
        ensures
            final(self).wf(),
            final(self)@.notify_after == old(self)@.notify_after,
            final(self)@.apps == reconciled_apps(old(self)@.apps, present@),
            forall|i: int|
                0 <= i < final(self)@.apps.len() ==> (#[trigger] final(self)@.apps[i].1.pending_version.len()
                    > 0 <==> ready(final(self)@.apps[i].1, present@[i])),
    {
        let ghost start = self@.apps;
        let mut i: usize = 0;
        while i < self.applications.len()
            invariant
                self.wf(),
                self@.apps.len() == start.len(),
                present@.len() == start.len(),
                i <= start.len(),
                self@.notify_after == old(self)@.notify_after,
                forall|k: int| 0 <= k < i ==> #[trigger] self@.apps[k] == reconciled_apps(start, present@)[k],
                forall|k: int| i <= k < start.len() ==> #[trigger] self@.apps[k] == start[k],
            decreases start.len() - i,
        {
            if !is_ready(&self.applications[i].record, present[i]) {
                let old_rec = &self.applications[i].record;
                let rec = BinaryRecord {
                    current_version: old_rec.current_version.clone(),
                    current_source: old_rec.current_source.clone(),
                    pending_version: String::new(),
                    pending_source: String::new(),
                    staged_path: String::new(),
                };
                self.replace_record(i, rec);
            }
            i = i + 1;
        }
        assert(self@.apps =~= reconciled_apps(start, present@));
    }
}

} // verus!
