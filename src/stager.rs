//! Placing a downloaded release's binary where activation will find it.
use vstd::prelude::*;
use crate::checker::{record_for, with_binary, StageRequest};
use crate::state::{RecordView, has_binary, fresh_record, staged_record, BinaryRecord, UpdateState};
use crate::text::chars_of;

verus! {

/// Why staging a release did not succeed.
pub enum StageError {
    DownloadFailed,
    ExtractFailed,
    MissingPayload,
    /// The located binary could not be moved to its staging location.
    PlaceFailed,
}

impl StageError {
    /// A release that lacks the binary is malformed: it stops the whole pass. A failed
    /// download or extraction ends only this binary's attempt.
    pub fn ends_pass(&self) -> (r: bool)
        ensures
            r <==> self is MissingPayload,
    {
        match self {
            StageError::MissingPayload => true,
            _ => false,
        }
    }
}

/// `path` names a file called `name`: it is `name`, or ends in `/` followed by `name`.
pub open spec fn file_named(path: Seq<char>, name: Seq<char>) -> bool {
    ||| path == name
    ||| {
        &&& path.len() > name.len()
        &&& path[path.len() - name.len() - 1] == '/'
        &&& path.subrange(path.len() - name.len(), path.len() as int) == name
    }
}

/// The staging location of `binary` under `dir`: `<dir>/<binary>.new`.
pub open spec fn staging_path_of(dir: Seq<char>, binary: Seq<char>) -> Seq<char> {
    dir + "/"@ + binary + ".new"@
}

/// `i` is the first of `files` named `name`.
pub open spec fn first_named(files: Seq<Seq<char>>, name: Seq<char>, i: int) -> bool {
    &&& 0 <= i < files.len()
    &&& file_named(files[i], name)
    &&& forall|j: int| 0 <= j < i ==> !file_named(#[trigger] files[j], name)
}

/// The entries after a release of `name` was staged at `path`: `name` is added where it was
/// missing, and its record gets the new pending fields.
pub open spec fn staged_apps(
    apps: Seq<(Seq<char>, RecordView)>,
    name: Seq<char>,
    version: Seq<char>,
    source: Seq<char>,
    path: Seq<char>,
) -> Seq<(Seq<char>, RecordView)> {
    let w = with_binary(apps, name);
    Seq::new(
        w.len(),
        |i: int|
            if w[i].0 == name {
                (name, staged_record(record_for(apps, name), version, source, path))
            } else {
                w[i]
            },
    )
}

/// The staging location of `binary` under `dir`. Staging again overwrites it.
pub fn staging_path(dir: &String, binary: &String) -> (r: String)
    ensures
        r@ == staging_path_of(dir@, binary@),
{
    let mut r = dir.clone();
    r.append("/");
    r.append(binary.as_str());
    r.append(".new");
    r
}

/// Whether the last `t.len()` characters of `s` are `t`.
fn ends_with(s: &Vec<char>, t: &Vec<char>) -> (r: bool)
    requires
        t@.len() <= s@.len(),
    ensures
        r == (s@.subrange(s@.len() - t@.len(), s@.len() as int) == t@),
{
    let len = s.len();
    let off = len - t.len();
    let mut k: usize = 0;
    while k < t.len()
        invariant
            len == s@.len(),
            off == s@.len() - t@.len(),
            k <= t@.len(),
            forall|m: int| 0 <= m < k ==> s@[off + m] == t@[m],
        decreases t@.len() - k,
    {
        if s[off + k] != t[k] {
            assert(s@.subrange(off as int, s@.len() as int)[k as int] != t@[k as int]);
            return false;
        }
        k = k + 1;
    }
    assert(s@.subrange(off as int, s@.len() as int) =~= t@);
    true
}

/// Whether `path` names a file called `name`.
pub fn is_file_named(path: &String, name: &String) -> (r: bool)
    ensures
        r == file_named(path@, name@),
{
    let p = chars_of(path.as_str());
    let n = chars_of(name.as_str());
    if p.len() < n.len() {
        return false;
    }
    if !ends_with(&p, &n) {
        assert(p@ != n@) by {
            if p@ == n@ {
                assert(p@.subrange(0, p@.len() as int) =~= p@);
            }
        }
        return false;
    }
    if p.len() == n.len() {
        assert(p@ =~= p@.subrange(0, p@.len() as int));
        return true;
    }
    p[p.len() - n.len() - 1] == '/'
}

/// Finds, among the files of an extracted release, the first one named after the binary.
pub fn locate_payload(files: &Vec<String>, binary: &String) -> (r: Result<usize, StageError>)
    ensures
        match r {
            Ok(i) => first_named(files@.map_values(|f: String| f@), binary@, i as int),
            Err(e) => e is MissingPayload && forall|j: int|
                0 <= j < files@.len() ==> !file_named(#[trigger] files@[j]@, binary@),
        },
{
    let ghost names = files@.map_values(|f: String| f@);
    let mut i: usize = 0;
    while i < files.len()
        invariant
            i <= files@.len(),
            names == files@.map_values(|f: String| f@),
            forall|j: int| 0 <= j < i ==> !file_named(#[trigger] files@[j]@, binary@),
        decreases files@.len() - i,
    {
        if is_file_named(&files[i], binary) {
            assert forall|j: int| 0 <= j < i implies !file_named(#[trigger] names[j], binary@) by {
                assert(names[j] == files@[j]@);
            }
            return Ok(i);
        }
        i = i + 1;
    }
    Err(StageError::MissingPayload)
}

impl UpdateState {
    /// Records a staged release of `req.binary` at `path`: the pending fields are set, the
    /// current ones kept. A previously pending release of that binary is overwritten.
    pub fn record_staged(&mut self, req: &StageRequest, path: &String)
        requires
            old(self).wf(),
            old(self)@.apps.len() < usize::MAX,
        ensures
            final(self).wf(),
            final(self)@.notify_after == old(self)@.notify_after,
            final(self)@.apps == staged_apps(old(self)@.apps, req.binary@, req.version@, req.source@, path@),
    {
        let ghost before = self@.apps;
        let idx = self.ensure_binary(&req.binary);
        let ghost mid = self@.apps;
        proof {
            if has_binary(before, req.binary@) {
                crate::checker::lemma_record_for_index(before, req.binary@, idx as int);
            } else {
                assert(mid[idx as int] == (req.binary@, fresh_record()));
            }
        }
        let old_rec = &self.applications[idx].record;
        let rec = BinaryRecord {
            current_version: old_rec.current_version.clone(),
            current_source: old_rec.current_source.clone(),
            pending_version: req.version.clone(),
            pending_source: req.source.clone(),
            staged_path: path.clone(),
        };
        self.replace_record(idx, rec);
        assert forall|i: int| 0 <= i < self@.apps.len() && i != idx implies mid[i].0 != req.binary@ by {
            assert(mid[i].0 != mid[idx as int].0);
        }
        assert(self@.apps =~= staged_apps(before, req.binary@, req.version@, req.source@, path@));
    }
}

} // verus!
