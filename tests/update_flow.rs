use amaru_updater::activator::{install_paths, is_ready};
use amaru_updater::checker::{
    classify_status, select_asset, Asset, AssetMatcher, CheckOutcome, FetchStatus, Release, Target,
};
use amaru_updater::config::{default_targets, host_matcher, managed_services};
use amaru_updater::pass::{begin_pass, PassError};
use amaru_updater::stager::{is_file_named, locate_payload, staging_path, StageError};
use amaru_updater::state::{AppEntry, BinaryRecord, UpdateState};
use amaru_updater::checker::StageRequest;

fn s(x: &str) -> String {
    x.to_string()
}

fn release(tag: &str, assets: &[(&str, &str)]) -> Release {
    Release {
        tag_name: s(tag),
        assets: assets.iter().map(|(n, u)| Asset { name: s(n), url: s(u) }).collect(),
    }
}

fn record(cur: &str, src: &str, pend: &str, psrc: &str, path: &str) -> BinaryRecord {
    BinaryRecord {
        current_version: s(cur),
        current_source: s(src),
        pending_version: s(pend),
        pending_source: s(psrc),
        staged_path: s(path),
    }
}

fn state_with(entries: Vec<(&str, BinaryRecord)>) -> UpdateState {
    UpdateState {
        notify_after: 42,
        applications: entries.into_iter().map(|(n, r)| AppEntry { name: s(n), record: r }).collect(),
    }
}

fn amaru_target(repo: &str) -> Target {
    Target { binary: s("amaru"), repo: s(repo) }
}

const LINUX_ASSET: (&str, &str) = (
    "amaru-v1.2.0-linux-aarch64.tar.gz",
    "https://example.org/amaru-v1.2.0-linux-aarch64.tar.gz",
);

#[test]
fn initial_state_has_three_fresh_binaries() {
    let st = UpdateState::initial();
    assert_eq!(st.notify_after, 0);
    let names: Vec<&str> = st.applications.iter().map(|e| e.name.as_str()).collect();
    assert_eq!(names, vec!["amaru-pi", "amaru", "amaru-doctor"]);
    for e in &st.applications {
        assert_eq!(e.record.current_version, "v0.0.0");
        assert_eq!(e.record.current_source, "");
        assert_eq!(e.record.pending_version, "");
        assert_eq!(e.record.pending_source, "");
        assert_eq!(e.record.staged_path, "");
    }
}

#[test]
fn windows_only_release_has_no_matching_asset() {
    let mut st = state_with(vec![("amaru", record("v1.0.0", "pragma-org/amaru", "", "", ""))]);
    let rel = release("v1.2.0", &[("amaru-v1.2.0-windows-x86_64.zip", "https://example.org/w.zip")]);
    let out = st.check_binary(&amaru_target("pragma-org/amaru"), 200, Some(rel), &host_matcher());
    assert!(matches!(out, CheckOutcome::NoMatchingAsset));
    assert_eq!(st.applications.len(), 1);
    assert_eq!(st.applications[0].record.current_version, "v1.0.0");
    assert_eq!(st.applications[0].record.pending_version, "");
    assert_eq!(st.notify_after, 42);
}

#[test]
fn source_override_is_due_at_equal_version() {
    let mut st = state_with(vec![("amaru", record("v1.0.0", "orgA/repo", "", "", ""))]);
    let rel = release("v1.0.0", &[LINUX_ASSET]);
    let out = st.check_binary(&amaru_target("orgB/repo"), 200, Some(rel), &host_matcher());
    match out {
        CheckOutcome::Due(req) => {
            assert_eq!(req.binary, "amaru");
            assert_eq!(req.version, "v1.0.0");
            assert_eq!(req.source, "orgB/repo");
            assert_eq!(req.url, LINUX_ASSET.1);
            st.record_staged(&req, &s("/tmp/amaru.new"));
        }
        _ => panic!("expected the release to be due"),
    }
    let r = &st.applications[0].record;
    assert_eq!(r.current_version, "v1.0.0");
    assert_eq!(r.current_source, "orgA/repo");
    assert_eq!(r.pending_version, "v1.0.0");
    assert_eq!(r.pending_source, "orgB/repo");
    assert_eq!(r.staged_path, "/tmp/amaru.new");
}

#[test]
fn unchanged_remote_is_up_to_date_twice() {
    let mut st = state_with(vec![("amaru", record("v1.2.0", "pragma-org/amaru", "", "", ""))]);
    for _ in 0..2 {
        let rel = release("v1.2.0", &[LINUX_ASSET]);
        let out = st.check_binary(&amaru_target("pragma-org/amaru"), 200, Some(rel), &host_matcher());
        assert!(matches!(out, CheckOutcome::UpToDate));
        assert_eq!(st.applications[0].record.pending_version, "");
    }
}

#[test]
fn newer_version_is_due() {
    let mut st = state_with(vec![("amaru", record("v1.0.0", "pragma-org/amaru", "", "", ""))]);
    let rel = release("v1.2.0", &[("notes.txt", "https://example.org/n"), LINUX_ASSET]);
    let out = st.check_binary(&amaru_target("pragma-org/amaru"), 200, Some(rel), &host_matcher());
    match out {
        CheckOutcome::Due(req) => {
            assert_eq!(req.version, "v1.2.0");
            assert_eq!(req.url, LINUX_ASSET.1);
        }
        _ => panic!("expected the release to be due"),
    }
}

#[test]
fn fetch_statuses_are_classified() {
    assert!(matches!(classify_status(200), FetchStatus::Available));
    assert!(matches!(classify_status(404), FetchStatus::NoReleaseFound));
    assert!(matches!(classify_status(500), FetchStatus::FetchFailed));
    assert!(matches!(classify_status(0), FetchStatus::FetchFailed));
    let mut st = UpdateState::initial();
    let t = Target { binary: s("amaru-pi"), repo: s("jeluard/amaru-pi") };
    assert!(matches!(st.check_binary(&t, 404, None, &host_matcher()), CheckOutcome::NoReleaseFound));
    assert!(matches!(st.check_binary(&t, 503, None, &host_matcher()), CheckOutcome::FetchFailed));
    assert!(matches!(st.check_binary(&t, 200, None, &host_matcher()), CheckOutcome::InvalidRelease));
    let untagged = release("", &[LINUX_ASSET]);
    assert!(matches!(st.check_binary(&t, 200, Some(untagged), &host_matcher()), CheckOutcome::NoMatchingAsset));
}

#[test]
fn unknown_binary_is_added_fresh() {
    let mut st = UpdateState::initial();
    let t = Target { binary: s("extra"), repo: s("someone/extra") };
    let out = st.check_binary(&t, 404, None, &host_matcher());
    assert!(matches!(out, CheckOutcome::NoReleaseFound));
    assert_eq!(st.applications.len(), 4);
    assert_eq!(st.applications[3].name, "extra");
    assert_eq!(st.applications[3].record.current_version, "v0.0.0");
    assert_eq!(st.find(&s("extra")), Some(3));
    assert_eq!(st.find(&s("missing")), None);
}

#[test]
fn asset_selection_needs_every_token_and_an_address() {
    let m = host_matcher();
    assert!(m.fits(&s("amaru-linux-aarch64.tar.gz")));
    assert!(!m.fits(&s("amaru-linux-x86_64.tar.gz")));
    assert!(!m.fits(&s("amaru-linux-aarch64.zip")));
    let rel = release(
        "v1",
        &[("amaru-linux-aarch64.tar.gz", ""), ("b-linux-aarch64.tar.gz", "u2"), ("c-linux-aarch64.tar.gz", "u3")],
    );
    assert_eq!(select_asset(&rel, &m), Some(0));
    let none = AssetMatcher { tokens: vec![s("riscv")] };
    assert_eq!(select_asset(&rel, &none), None);
}

#[test]
fn first_fitting_asset_without_address_is_no_match() {
    let mut st = state_with(vec![("amaru", record("v1.0.0", "pragma-org/amaru", "", "", ""))]);
    let rel = release("v1.2.0", &[("amaru-linux-aarch64.tar.gz", ""), LINUX_ASSET]);
    let out = st.check_binary(&amaru_target("pragma-org/amaru"), 200, Some(rel), &host_matcher());
    assert!(matches!(out, CheckOutcome::NoMatchingAsset));
    assert_eq!(st.applications[0].record.pending_version, "");
}

#[test]
fn only_a_missing_payload_ends_the_pass() {
    assert!(StageError::MissingPayload.ends_pass());
    assert!(!StageError::DownloadFailed.ends_pass());
    assert!(!StageError::ExtractFailed.ends_pass());
    assert!(!StageError::PlaceFailed.ends_pass());
}

#[test]
fn ready_entries_are_those_with_a_staged_file() {
    let st = state_with(vec![
        ("amaru-pi", record("v0.0.0", "", "v1", "o/p", "/tmp/amaru-pi.new")),
        ("amaru", record("v1.0.0", "o/a", "v1.1.0", "o/a", "/tmp/amaru.new")),
        ("amaru-doctor", record("v2.0.0", "d/d", "", "", "")),
    ]);
    assert_eq!(st.ready_entries(&vec![false, true, true]), vec![1]);
    assert_eq!(st.ready_entries(&vec![true, true, true]), vec![0, 1]);
}

#[test]
fn staging_path_is_named_after_the_binary() {
    assert_eq!(staging_path(&s("/tmp"), &s("amaru-doctor")), "/tmp/amaru-doctor.new");
}

#[test]
fn payload_is_located_by_exact_name() {
    let files = vec![s("x/amaru-doctor"), s("x/bin/amaru.txt"), s("x/bin/amaru"), s("amaru")];
    assert!(matches!(locate_payload(&files, &s("amaru")), Ok(2)));
    assert!(is_file_named(&s("amaru"), &s("amaru")));
    assert!(!is_file_named(&s("xamaru"), &s("amaru")));
    let missing = vec![s("x/README"), s("x/amaru-pi")];
    assert!(matches!(locate_payload(&missing, &s("amaru")), Err(StageError::MissingPayload)));
}

#[test]
fn restaging_overwrites_the_pending_release() {
    let mut st = state_with(vec![("amaru", record("v1.0.0", "o/r", "v1.1.0", "o/r", "/tmp/amaru.new"))]);
    let req = StageRequest { binary: s("amaru"), url: s("u"), version: s("v1.2.0"), source: s("o/r") };
    st.record_staged(&req, &s("/tmp/amaru.new"));
    assert_eq!(st.applications.len(), 1);
    assert_eq!(st.applications[0].record.pending_version, "v1.2.0");
    assert_eq!(st.applications[0].record.current_version, "v1.0.0");
}

#[test]
fn activation_promotes_ready_binaries() {
    let mut st = state_with(vec![
        ("amaru-pi", record("v0.0.0", "", "", "", "")),
        ("amaru", record("v1.0.0", "orgA/amaru", "v1.1.0", "orgB/amaru", "/tmp/amaru.new")),
        ("amaru-doctor", record("v2.0.0", "d/d", "v2.1.0", "d/d", "/tmp/amaru-doctor.new")),
    ]);
    let done = st.activate(&vec![false, true, false]);
    assert_eq!(done, vec![1]);
    assert_eq!(st.notify_after, 0);
    let r = &st.applications[1].record;
    assert_eq!(r.current_version, "v1.1.0");
    assert_eq!(r.current_source, "orgB/amaru");
    assert_eq!(r.pending_version, "");
    assert_eq!(r.pending_source, "");
    assert_eq!(r.staged_path, "");
    assert_eq!(st.applications[2].record.pending_version, "v2.1.0");
    assert_eq!(st.applications[2].record.current_version, "v2.0.0");
}

#[test]
fn activation_without_pending_changes_nothing_twice() {
    let mut st = UpdateState::initial();
    st.notify_after = 7;
    assert!(st.activate(&vec![false, false, false]).is_empty());
    assert_eq!(st.notify_after, 0);
    assert!(st.activate(&vec![true, true, true]).is_empty());
    assert_eq!(st.notify_after, 0);
    for e in &st.applications {
        assert_eq!(e.record.current_version, "v0.0.0");
        assert_eq!(e.record.pending_version, "");
    }
}

#[test]
fn reconcile_drops_pending_without_staged_file() {
    let mut st = state_with(vec![
        ("amaru", record("v1.0.0", "o/r", "v1.1.0", "o/r", "/tmp/amaru.new")),
        ("amaru-pi", record("v1.0.0", "o/p", "v1.1.0", "o/p", "/tmp/amaru-pi.new")),
        ("amaru-doctor", record("v1.0.0", "o/d", "", "", "/tmp/stale")),
    ]);
    st.reconcile(&vec![true, false, true]);
    assert_eq!(st.applications[0].record.pending_version, "v1.1.0");
    assert_eq!(st.applications[0].record.staged_path, "/tmp/amaru.new");
    assert_eq!(st.applications[1].record.pending_version, "");
    assert_eq!(st.applications[1].record.pending_source, "");
    assert_eq!(st.applications[1].record.staged_path, "");
    assert_eq!(st.applications[1].record.current_version, "v1.0.0");
    assert_eq!(st.applications[2].record.staged_path, "");
    assert!(is_ready(&st.applications[0].record, true));
    assert!(!is_ready(&st.applications[1].record, true));
}

#[test]
fn install_paths_keep_one_backup() {
    let (target, backup) = install_paths(&s("/home/pi/bin"), &s("amaru"));
    assert_eq!(target, "/home/pi/bin/amaru");
    assert_eq!(backup, "/home/pi/bin/amaru.bak");
}

#[test]
fn second_pass_fails_fast_on_lock() {
    assert!(begin_pass(true).is_ok());
    assert!(matches!(begin_pass(false), Err(PassError::AlreadyRunning)));
}

#[test]
fn targets_take_non_empty_overrides() {
    let t = default_targets(None, Some(s("fork/amaru")), Some(s("")));
    assert_eq!(t.len(), 3);
    assert_eq!((t[0].binary.as_str(), t[0].repo.as_str()), ("amaru-pi", "jeluard/amaru-pi"));
    assert_eq!((t[1].binary.as_str(), t[1].repo.as_str()), ("amaru", "fork/amaru"));
    assert_eq!((t[2].binary.as_str(), t[2].repo.as_str()), ("amaru-doctor", "jeluard/amaru-doctor"));
    assert_eq!(managed_services(), vec![s("amaru-pi.service"), s("amaru.service")]);
}
