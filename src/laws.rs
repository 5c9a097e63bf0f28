//! Properties that relate the check, staging and activation steps.
use vstd::prelude::*;
use crate::activator::{activated, activated_apps, ready, reconciled_apps};
use crate::checker::{lemma_record_for_index, record_for, update_due, with_binary};
use crate::stager::staged_apps;
use crate::state::{
    fresh_record, has_binary, names_unique, nothing_pending, promoted_record, staged_record, RecordView,
    StateView,
};

verus! {

/// Checking a binary whose installed version and source equal the published ones finds
/// nothing due, and leaves its record, pending fields included, as it was.
pub proof fn lemma_unchanged_remote_stages_nothing(
    apps: Seq<(Seq<char>, RecordView)>,
    name: Seq<char>,
    repo: Seq<char>,
    latest: Seq<char>,
)
    requires
        names_unique(apps),
        record_for(apps, name).current_version == latest,
        record_for(apps, name).current_source == repo,
    ensures
        !update_due(record_for(apps, name), latest, repo),
        record_for(with_binary(apps, name), name) == record_for(apps, name),
        forall|i: int| 0 <= i < apps.len() ==> #[trigger] with_binary(apps, name)[i] == apps[i],
        with_binary(with_binary(apps, name), name) == with_binary(apps, name),
        names_unique(with_binary(apps, name)),
        record_for(with_binary(apps, name), name).pending_version == record_for(apps, name).pending_version,
{
    if !has_binary(apps, name) {
        let pushed = apps.push((name, fresh_record()));
        assert(names_unique(pushed)) by {
            assert forall|i: int, j: int|
                0 <= i < pushed.len() && 0 <= j < pushed.len() && i != j
                implies #[trigger] pushed[i].0 != #[trigger] pushed[j].0 by {
                if i < apps.len() && j < apps.len() {
                    assert(pushed[i] == apps[i] && pushed[j] == apps[j]);
                } else if i < apps.len() {
                    assert(pushed[i] == apps[i]);
                } else {
                    assert(pushed[j] == apps[j]);
                }
            }
        }
        lemma_record_for_index(pushed, name, apps.len() as int);
        assert(has_binary(pushed, name)) by {
            assert(pushed[apps.len() as int].0 == name);
        }
    }
}

/// Every pending release has its staged file: `present[i]` tells whether a file exists at
/// entry `i`'s staged path.
pub open spec fn pending_is_staged(apps: Seq<(Seq<char>, RecordView)>, present: Seq<bool>) -> bool {
    &&& present.len() == apps.len()
    &&& forall|i: int|
        0 <= i < apps.len() && (#[trigger] apps[i]).1.pending_version.len() > 0 ==> ready(
            apps[i].1,
            present[i],
        )
}

/// After reconciling with the files on disk, a release is pending exactly where its staged
/// file exists.
pub proof fn lemma_reconciled_pending_is_staged(apps: Seq<(Seq<char>, RecordView)>, present: Seq<bool>)
    requires
        present.len() == apps.len(),
    ensures
        pending_is_staged(reconciled_apps(apps, present), present),
        forall|i: int|
            0 <= i < apps.len() ==> (#[trigger] reconciled_apps(apps, present)[i]).1.staged_path.len() > 0
                ==> reconciled_apps(apps, present)[i].1.pending_version.len() > 0,
{
}

/// Staging keeps every pending release backed by its staged file: the staged binary's file
/// now exists at its new path, and the other entries' files are as they were.
pub proof fn lemma_staging_keeps_pending_staged(
    apps: Seq<(Seq<char>, RecordView)>,
    present: Seq<bool>,
    name: Seq<char>,
    version: Seq<char>,
    source: Seq<char>,
    path: Seq<char>,
    present_after: Seq<bool>,
)
    requires
        names_unique(apps),
        pending_is_staged(apps, present),
        version.len() > 0,
        path.len() > 0,
        present_after.len() == staged_apps(apps, name, version, source, path).len(),
        forall|i: int|
            0 <= i < present_after.len() && #[trigger] staged_apps(apps, name, version, source, path)[i].0
                == name ==> present_after[i],
        forall|i: int| 0 <= i < apps.len() && (#[trigger] apps[i]).0 != name ==> present_after[i] == present[i],
    ensures
        pending_is_staged(staged_apps(apps, name, version, source, path), present_after),
{
    let after = staged_apps(apps, name, version, source, path);
    let w = with_binary(apps, name);
    assert forall|i: int| 0 <= i < after.len() && (#[trigger] after[i]).1.pending_version.len() > 0 implies ready(
        after[i].1,
        present_after[i],
    ) by {
        if w[i].0 != name {
            if !has_binary(apps, name) {
                assert(w[apps.len() as int].0 == name);
            }
            assert(i < apps.len());
            assert(w[i] == apps[i]);
            assert(after[i] == apps[i]);
            assert(apps[i].1.pending_version.len() > 0);
            assert(ready(apps[i].1, present[i]));
            assert(present_after[i] == present[i]);
        } else {
            assert(after[i].0 == name);
            assert(present_after[i]);
            assert(after[i].1 == staged_record(record_for(apps, name), version, source, path));
        }
    }
}

/// Activating twice, with the same staged files, gives what activating once gave.
pub proof fn lemma_activation_idempotent(s: StateView, present: Seq<bool>)
    requires
        present.len() == s.apps.len(),
    ensures
        activated(activated(s, present), present) == activated(s, present),
{
    let once = activated(s, present);
    assert(once.apps.len() == s.apps.len());
    assert(activated(once, present).apps =~= once.apps) by {
        assert forall|i: int| 0 <= i < once.apps.len() implies #[trigger] activated_apps(
            once.apps,
            present,
        )[i] == once.apps[i] by {
            if ready(s.apps[i].1, present[i]) {
                assert(!ready(once.apps[i].1, present[i]));
            }
        }
    }
}

/// With nothing staged anywhere, activation changes nothing but the notification gate.
pub proof fn lemma_activation_without_pending(s: StateView, present: Seq<bool>)
    requires
        present.len() == s.apps.len(),
        forall|i: int| 0 <= i < s.apps.len() ==> nothing_pending(#[trigger] s.apps[i].1),
    ensures
        activated(s, present) == (StateView { notify_after: 0, apps: s.apps }),
{
    assert(activated(s, present).apps =~= s.apps) by {
        assert forall|i: int| 0 <= i < s.apps.len() implies #[trigger] activated_apps(s.apps, present)[i]
            == s.apps[i] by {
            assert(nothing_pending(s.apps[i].1));
        }
    }
}

/// Activating a ready binary installs its pending version and source and clears what was
/// pending.
pub proof fn lemma_activation_installs_pending(s: StateView, present: Seq<bool>, i: int)
    requires
        present.len() == s.apps.len(),
        0 <= i < s.apps.len(),
        ready(s.apps[i].1, present[i]),
    ensures
        activated(s, present).apps[i].0 == s.apps[i].0,
        activated(s, present).apps[i].1.current_version == s.apps[i].1.pending_version,
        activated(s, present).apps[i].1.current_source == s.apps[i].1.pending_source,
        nothing_pending(activated(s, present).apps[i].1),
        activated(s, present).notify_after == 0,
{
}

/// A release just staged, with a version and a staged file in place, is ready: reconciling
/// keeps it, and activating it installs exactly the staged version and source.
pub proof fn lemma_staged_release_is_installed(
    rec: RecordView,
    version: Seq<char>,
    source: Seq<char>,
    path: Seq<char>,
)
    requires
        version.len() > 0,
        path.len() > 0,
    ensures
        ready(staged_record(rec, version, source, path), true),
        promoted_record(staged_record(rec, version, source, path)).current_version == version,
        promoted_record(staged_record(rec, version, source, path)).current_source == source,
        nothing_pending(promoted_record(staged_record(rec, version, source, path))),
{
}

} // verus!
