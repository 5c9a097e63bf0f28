//! Deciding, for one binary, whether a published release is due for staging.
use vstd::prelude::*;
use crate::state::{has_binary, RecordView, UpdateState, fresh_record, names_unique};
use crate::text::{contains, contains_str};

verus! {

/// A downloadable file of a release.
pub struct Asset {
    pub name: String,
    pub url: String,
}

impl View for Asset {
    type V = (Seq<char>, Seq<char>);

    open spec fn view(&self) -> (Seq<char>, Seq<char>) {
        (self.name@, self.url@)
    }
}

/// The "latest release" descriptor of a release source.
/// A descriptor without a tag carries an empty `tag_name`.
pub struct Release {
    pub tag_name: String,
    pub assets: Vec<Asset>,
}

impl View for Release {
    type V = (Seq<char>, Seq<(Seq<char>, Seq<char>)>);

    open spec fn view(&self) -> (Seq<char>, Seq<(Seq<char>, Seq<char>)>) {
        (self.tag_name@, self.assets@.map_values(|a: Asset| a@))
    }
}

/// The words that an asset's name must all hold to suit this host
/// (its OS, its CPU architecture and an archive format).
pub struct AssetMatcher {
    pub tokens: Vec<String>,
}

impl View for AssetMatcher {
    type V = Seq<Seq<char>>;

    open spec fn view(&self) -> Seq<Seq<char>> {
        self.tokens@.map_values(|t: String| t@)
    }
}

/// A managed binary with the release source it is taken from.
pub struct Target {
    pub binary: String,
    pub repo: String,
}

/// How a fetch of the latest release went, by HTTP status.
pub enum FetchStatus {
    Available,
    NoReleaseFound,
    FetchFailed,
}

/// A release that is due for staging.
pub struct StageRequest {
    pub binary: String,
    pub url: String,
    pub version: String,
    pub source: String,
}

/// What the check of one binary came to.
pub enum CheckOutcome {
    NoReleaseFound,
    FetchFailed,
    InvalidRelease,
    NoMatchingAsset,
    UpToDate,
    Due(StageRequest),
}

/// An asset name that holds every token.
pub open spec fn name_fits(tokens: Seq<Seq<char>>, name: Seq<char>) -> bool {
    forall|k: int| 0 <= k < tokens.len() ==> contains(name, #[trigger] tokens[k])
}

/// `i` is the first asset whose name suits the host.
pub open spec fn first_fitting(
    tokens: Seq<Seq<char>>,
    assets: Seq<(Seq<char>, Seq<char>)>,
    i: int,
) -> bool {
    &&& 0 <= i < assets.len()
    &&& name_fits(tokens, assets[i].0)
    &&& forall|j: int| 0 <= j < i ==> !name_fits(tokens, #[trigger] assets[j].0)
}

/// No asset's name suits the host.
pub open spec fn none_fit(tokens: Seq<Seq<char>>, assets: Seq<(Seq<char>, Seq<char>)>) -> bool {
    forall|j: int| 0 <= j < assets.len() ==> !name_fits(tokens, #[trigger] assets[j].0)
}

/// The first asset that suits the host has a download address.
pub open spec fn has_download(tokens: Seq<Seq<char>>, assets: Seq<(Seq<char>, Seq<char>)>) -> bool {
    exists|i: int| first_fitting(tokens, assets, i) && #[trigger] assets[i].1.len() > 0
}

/// An update is due when the published version or the configured source differs
/// from what is installed.
pub open spec fn update_due(rec: RecordView, latest: Seq<char>, repo: Seq<char>) -> bool {
    rec.current_version != latest || rec.current_source != repo
}

/// The record of `name`, or a fresh one where it has none.
pub open spec fn record_for(apps: Seq<(Seq<char>, RecordView)>, name: Seq<char>) -> RecordView {
    if has_binary(apps, name) {
        apps[choose|i: int| 0 <= i < apps.len() && #[trigger] apps[i].0 == name].1
    } else {
        fresh_record()
    }
}

/// The entries after `name` was looked up, and added where it was missing.
pub open spec fn with_binary(
    apps: Seq<(Seq<char>, RecordView)>,
    name: Seq<char>,
) -> Seq<(Seq<char>, RecordView)> {
    if has_binary(apps, name) {
        apps
    } else {
        apps.push((name, fresh_record()))
    }
}

/// HTTP 200 gives a descriptor, 404 means the source has no release, anything else failed.
pub fn classify_status(code: u16) -> (r: FetchStatus)
    ensures
        r is Available <==> code == 200,
        r is NoReleaseFound <==> code == 404,
        r is FetchFailed <==> code != 200 && code != 404,
{
    if code == 200 {
        FetchStatus::Available
    } else if code == 404 {
        FetchStatus::NoReleaseFound
    } else {
        FetchStatus::FetchFailed
    }
}

impl AssetMatcher {
    /// Whether an asset's name holds every token.
    pub fn fits(&self, name: &String) -> (r: bool)
        ensures
            r == name_fits(self@, name@),
    {
        let mut k: usize = 0;
        while k < self.tokens.len()
            invariant
                k <= self@.len(),
                forall|m: int| 0 <= m < k ==> contains(name@, #[trigger] self@[m]),
            decreases self@.len() - k,
        {
            if !contains_str(name.as_str(), self.tokens[k].as_str()) {
                assert(!contains(name@, self@[k as int]));
                return false;
            }
            k = k + 1;
        }
        true
    }
}

/// The index of the first asset whose name suits the host.
pub fn select_asset(release: &Release, matcher: &AssetMatcher) -> (r: Option<usize>)
    ensures
        match r {
            Some(i) => first_fitting(matcher@, release@.1, i as int),
            None => none_fit(matcher@, release@.1),
        },
{
    let mut i: usize = 0;
    while i < release.assets.len()
        invariant
            i <= release@.1.len(),
            forall|j: int| 0 <= j < i ==> !name_fits(matcher@, #[trigger] release@.1[j].0),
        decreases release@.1.len() - i,
    {
        if matcher.fits(&release.assets[i].name) {
            return Some(i);
        }
        i = i + 1;
    }
    None
}

/// Whether `rec` is behind the published `latest` from `repo`.
pub fn is_due(rec: &crate::state::BinaryRecord, latest: &String, repo: &String) -> (r: bool)
    ensures
        r == update_due(rec@, latest@, repo@),
{
    !(rec.current_version == *latest) || !(rec.current_source == *repo)
}

/// With unique names, the entry found for `name` is the one `record_for` picks.
pub(crate) proof fn lemma_record_for_index(apps: Seq<(Seq<char>, RecordView)>, name: Seq<char>, i: int)
    requires
        names_unique(apps),
        0 <= i < apps.len(),
        apps[i].0 == name,
    ensures
        record_for(apps, name) == apps[i].1,
{
    assert(has_binary(apps, name));
    let j = choose|j: int| 0 <= j < apps.len() && #[trigger] apps[j].0 == name;
    assert(apps[j].0 == apps[i].0);
}

impl UpdateState {
    /// Checks one binary against the fetched release. `status` is the HTTP status of the
    /// fetch (anything but 200 or 404 for a transport failure) and `release` the
    /// descriptor, `None` where the body could not be read as one. The binary's entry is
    /// added with a fresh record where it is missing; nothing else changes.
    pub fn check_binary(
        &mut self,
        target: &Target,
        status: u16,
        release: Option<Release>,
        matcher: &AssetMatcher,
    ) -> (r: CheckOutcome)
        requires
            old(self).wf(),
            old(self)@.apps.len() < usize::MAX,
        ensures
            final(self).wf(),
            final(self)@.notify_after == old(self)@.notify_after,
            final(self)@.apps == with_binary(old(self)@.apps, target.binary@),
            match r {
                CheckOutcome::NoReleaseFound => status == 404,
                CheckOutcome::FetchFailed => status != 200 && status != 404,
                CheckOutcome::InvalidRelease => status == 200 && release is None,
                CheckOutcome::NoMatchingAsset => {
                    &&& status == 200
                    &&& release is Some
                    &&& (release->0@.0.len() == 0 || !has_download(matcher@, release->0@.1))
                },
                CheckOutcome::UpToDate => {
                    &&& status == 200
                    &&& release is Some
                    &&& release->0@.0.len() > 0
                    &&& has_download(matcher@, release->0@.1)
                    &&& !update_due(
                        record_for(old(self)@.apps, target.binary@),
                        release->0@.0,
                        target.repo@,
                    )
                },
                CheckOutcome::Due(req) => {
                    &&& status == 200
                    &&& release is Some
                    &&& release->0@.0.len() > 0
                    &&& exists|i: int|
                        first_fitting(matcher@, release->0@.1, i) && req.url@ == #[trigger] release->0@.1[i].1
                    &&& update_due(
                        record_for(old(self)@.apps, target.binary@),
                        release->0@.0,
                        target.repo@,
                    )
                    &&& req.binary@ == target.binary@
                    &&& req.version@ == release->0@.0
                    &&& req.source@ == target.repo@
                },
            },
    {
        let ghost before = self@.apps;
        let idx = self.ensure_binary(&target.binary);
        proof {
            if has_binary(before, target.binary@) {
                lemma_record_for_index(before, target.binary@, idx as int);
            } else {
                assert(self@.apps[idx as int] == (target.binary@, fresh_record()));
            }
            assert(self@.apps[idx as int].1 == record_for(before, target.binary@));
        }
        match classify_status(status) {
            FetchStatus::NoReleaseFound => return CheckOutcome::NoReleaseFound,
            FetchStatus::FetchFailed => return CheckOutcome::FetchFailed,
            FetchStatus::Available => {},
        }
        let release = match release {
            None => return CheckOutcome::InvalidRelease,
            Some(rel) => rel,
        };
        if release.tag_name.unicode_len() == 0 {
            return CheckOutcome::NoMatchingAsset;
        }
        let i = match select_asset(&release, matcher) {
            None => return CheckOutcome::NoMatchingAsset,
            Some(i) => i,
        };
        if release.assets[i].url.unicode_len() == 0 {
            assert(!has_download(matcher@, release@.1)) by {
                assert forall|k: int| first_fitting(matcher@, release@.1, k) implies !(
                #[trigger] release@.1[k].1.len() > 0) by {
                    if k < i {
                        assert(!name_fits(matcher@, release@.1[k].0));
                    } else if k > i {
                        assert(!name_fits(matcher@, release@.1[i as int].0));
                    }
                }
            }
            return CheckOutcome::NoMatchingAsset;
        }
        assert(has_download(matcher@, release@.1)) by {
            assert(first_fitting(matcher@, release@.1, i as int) && release@.1[i as int].1.len() > 0);
        }
        if is_due(&self.applications[idx].record, &release.tag_name, &target.repo) {
            let url = release.assets[i].url.clone();
            CheckOutcome::Due(StageRequest {
                binary: target.binary.clone(),
                url,
                version: release.tag_name.clone(),
                source: target.repo.clone(),
            })
        } else {
            CheckOutcome::UpToDate
        }
    }
}

} // verus!
