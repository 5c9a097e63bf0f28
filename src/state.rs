//! The persisted bookkeeping: one record per managed binary.
use vstd::prelude::*;

verus! {

/// The version recorded for a binary that this system never installed.
pub open spec fn sentinel_version() -> Seq<char> {
    "v0.0.0"@
}

/// The value of a text field that holds nothing.
pub open spec fn blank() -> Seq<char> {
    Seq::<char>::empty()
}

/// What one binary's record holds, as sequences of characters.
pub struct RecordView {
    pub current_version: Seq<char>,
    pub current_source: Seq<char>,
    pub pending_version: Seq<char>,
    pub pending_source: Seq<char>,
    pub staged_path: Seq<char>,
}

/// Bookkeeping of one managed binary.
pub struct BinaryRecord {
    pub current_version: String,
    pub current_source: String,
    pub pending_version: String,
    pub pending_source: String,
    pub staged_path: String,
}

impl View for BinaryRecord {
    type V = RecordView;

    open spec fn view(&self) -> RecordView {
        RecordView {
            current_version: self.current_version@,
            current_source: self.current_source@,
            pending_version: self.pending_version@,
            pending_source: self.pending_source@,
            staged_path: self.staged_path@,
        }
    }
}

/// The record of a binary that was never installed by this system.
pub open spec fn fresh_record() -> RecordView {
    RecordView {
        current_version: sentinel_version(),
        current_source: blank(),
        pending_version: blank(),
        pending_source: blank(),
        staged_path: blank(),
    }
}

/// A record with nothing staged.
pub open spec fn nothing_pending(r: RecordView) -> bool {
    &&& r.pending_version.len() == 0
    &&& r.pending_source.len() == 0
    &&& r.staged_path.len() == 0
}

/// `r` with a release staged: the current fields are kept.
pub open spec fn staged_record(
    r: RecordView,
    version: Seq<char>,
    source: Seq<char>,
    path: Seq<char>,
) -> RecordView {
    RecordView { pending_version: version, pending_source: source, staged_path: path, ..r }
}

/// `r` with its pending release promoted to current and the pending fields cleared.
pub open spec fn promoted_record(r: RecordView) -> RecordView {
    RecordView {
        current_version: r.pending_version,
        current_source: r.pending_source,
        pending_version: blank(),
        pending_source: blank(),
        staged_path: blank(),
    }
}

/// `r` with its pending fields cleared.
pub open spec fn cleared_record(r: RecordView) -> RecordView {
    RecordView { pending_version: blank(), pending_source: blank(), staged_path: blank(), ..r }
}

impl BinaryRecord {
    pub fn fresh() -> (r: BinaryRecord)
        ensures
            r@ == fresh_record(),
    {
        BinaryRecord {
            current_version: String::from_str("v0.0.0"),
            current_source: String::new(),
            pending_version: String::new(),
            pending_source: String::new(),
            staged_path: String::new(),
        }
    }
}

/// A managed binary's name with its record.
pub struct AppEntry {
    pub name: String,
    pub record: BinaryRecord,
}

impl View for AppEntry {
    type V = (Seq<char>, RecordView);

    open spec fn view(&self) -> (Seq<char>, RecordView) {
        (self.name@, self.record@)
    }
}

/// What the whole persisted state holds.
pub struct StateView {
    pub notify_after: u64,
    pub apps: Seq<(Seq<char>, RecordView)>,
}

/// The persisted aggregate: a notification gate and one entry per binary.
pub struct UpdateState {
    pub notify_after: u64,
    pub applications: Vec<AppEntry>,
}

impl View for UpdateState {
    type V = StateView;

    open spec fn view(&self) -> StateView {
        StateView {
            notify_after: self.notify_after,
            apps: self.applications@.map_values(|e: AppEntry| e@),
        }
    }
}

/// No binary name occurs twice.
pub open spec fn names_unique(apps: Seq<(Seq<char>, RecordView)>) -> bool {
    forall|i: int, j: int|
        0 <= i < apps.len() && 0 <= j < apps.len() && i != j ==> #[trigger] apps[i].0 != #[trigger] apps[j].0
}

/// Whether `name` has an entry.
pub open spec fn has_binary(apps: Seq<(Seq<char>, RecordView)>, name: Seq<char>) -> bool {
    exists|i: int| 0 <= i < apps.len() && #[trigger] apps[i].0 == name
}

/// The names of the binaries that a fresh state holds, in order.
pub open spec fn configured_names() -> Seq<Seq<char>> {
    seq!["amaru-pi"@, "amaru"@, "amaru-doctor"@]
}

impl UpdateState {
    /// Binary names are unique.
    pub open spec fn wf(&self) -> bool {
        names_unique(self@.apps)
    }

    /// The state written when none exists yet: every configured binary with a fresh record.
    pub fn initial() -> (r: UpdateState)
        ensures
            r.wf(),
            r@.notify_after == 0,
            r@.apps.len() == configured_names().len(),
            forall|i: int| 0 <= i < r@.apps.len() ==> #[trigger] r@.apps[i] == (configured_names()[i], fresh_record()),
    {
        let mut applications: Vec<AppEntry> = Vec::new();
        applications.push(AppEntry { name: String::from_str("amaru-pi"), record: BinaryRecord::fresh() });
        applications.push(AppEntry { name: String::from_str("amaru"), record: BinaryRecord::fresh() });
        applications.push(AppEntry { name: String::from_str("amaru-doctor"), record: BinaryRecord::fresh() });
        let r = UpdateState { notify_after: 0, applications };
        proof {
            reveal_strlit("amaru-pi");
            reveal_strlit("amaru");
            reveal_strlit("amaru-doctor");
            assert(r@.apps[0].0.len() == 8);
            assert(r@.apps[1].0.len() == 5);
            assert(r@.apps[2].0.len() == 12);
        }
        r
    }

    /// The index of `name`'s entry, if it has one.
    pub fn find(&self, name: &String) -> (r: Option<usize>)
        ensures
            match r {
                Some(i) => i < self@.apps.len() && self@.apps[i as int].0 == name@,
                None => !has_binary(self@.apps, name@),
            },
    {
        let mut i: usize = 0;
        while i < self.applications.len()
            invariant
                i <= self@.apps.len(),
                forall|k: int| 0 <= k < i ==> self@.apps[k].0 != name@,
            decreases self@.apps.len() - i,
        {
            if self.applications[i].name == *name {
                return Some(i);
            }
            i = i + 1;
        }
        None
    }

    /// The index of `name`'s entry; an entry with a fresh record is added when there is none.
    pub fn ensure_binary(&mut self, name: &String) -> (r: usize)
        requires
            old(self).wf(),
            old(self)@.apps.len() < usize::MAX,
        ensures
            final(self).wf(),
            r < final(self)@.apps.len(),
            final(self)@.apps[r as int].0 == name@,
            final(self)@.notify_after == old(self)@.notify_after,
            has_binary(old(self)@.apps, name@) ==> final(self)@ == old(self)@,
            !has_binary(old(self)@.apps, name@) ==> final(self)@.apps == old(self)@.apps.push(
                (name@, fresh_record()),
            ),
    {
        match self.find(name) {
            Some(i) => i,
            None => {
                let ghost before = self@.apps;
                self.applications.push(AppEntry { name: name.clone(), record: BinaryRecord::fresh() });
                assert(self@.apps =~= before.push((name@, fresh_record())));
                assert(names_unique(self@.apps)) by {
                    assert forall|i: int, j: int|
                        0 <= i < self@.apps.len() && 0 <= j < self@.apps.len() && i != j
                        implies #[trigger] self@.apps[i].0 != #[trigger] self@.apps[j].0 by {
                        if i < before.len() && j < before.len() {
                        } else if i < before.len() {
                            assert(before[i].0 == self@.apps[i].0);
                        } else {
                            assert(before[j].0 == self@.apps[j].0);
                        }
                    }
                }
                self.applications.len() - 1
            }
        }
    }

    /// Replaces the record at `i`, keeping its name.
    pub(crate) fn replace_record(&mut self, i: usize, rec: BinaryRecord)
        requires
            old(self).wf(),
            i < old(self)@.apps.len(),
        ensures
            final(self).wf(),
            final(self)@.notify_after == old(self)@.notify_after,
            final(self)@.apps == old(self)@.apps.update(i as int, (old(self)@.apps[i as int].0, rec@)),
    {
        self.applications[i].record = rec;
        assert(self@.apps =~= old(self)@.apps.update(i as int, (old(self)@.apps[i as int].0, rec@)));
        assert(names_unique(self@.apps)) by {
            assert forall|a: int, b: int|
                0 <= a < self@.apps.len() && 0 <= b < self@.apps.len() && a != b
                implies #[trigger] self@.apps[a].0 != #[trigger] self@.apps[b].0 by {
                assert(self@.apps[a].0 == old(self)@.apps[a].0);
                assert(self@.apps[b].0 == old(self)@.apps[b].0);
            }
        }
    }
}

} // verus!
