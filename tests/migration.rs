use amaru_updater::migration::{patch_unit, patch_unit_with, run, UPDATER_BIN, ACTIVATE_PATH, START_AMARU_PATH, UPDATER_PATH, WRAPPER_EXEC};
use amaru_updater::text::contains_str;

#[test]
fn unit_exec_lines_are_replaced() {
    let unit = "[Service]\nUser=pi\n  ExecStart=/home/pi/bin/amaru daemon --peer x\nRestart=always\n".to_string();
    let patched = patch_unit(&unit);
    assert_eq!(
        patched,
        "[Service]\nUser=pi\nExecStart=/home/pi/scripts/start-amaru.sh\nRestart=always"
    );
}

#[test]
fn unit_lines_follow_line_endings() {
    assert_eq!(patch_unit(&"a\n".to_string()), "a");
    assert_eq!(patch_unit(&"".to_string()), "");
    assert_eq!(patch_unit(&"\n".to_string()), "");
    assert_eq!(patch_unit(&"a\n\nb".to_string()), "a\n\nb");
    assert_eq!(patch_unit(&"a\r\nb\r".to_string()), "a\nb\r");
    assert_eq!(
        patch_unit(&"[Service]\r\n\tExecStart=/x run \r\n".to_string()),
        "[Service]\nExecStart=/home/pi/scripts/start-amaru.sh"
    );
}

#[test]
fn any_white_space_may_lead_an_exec_line() {
    let patched = patch_unit(&"x\n\u{0b}\u{3000}ExecStart=/usr/bin/amaru run".to_string());
    assert_eq!(patched, "x\nExecStart=/home/pi/scripts/start-amaru.sh");
    assert!(run(Some(patched)).unit.is_none());
    assert_eq!(patch_unit(&"xExecStart=/a".to_string()), "xExecStart=/a");
}

#[test]
fn patch_with_given_white_space() {
    let unit = " ExecStart=/a\n ExecStart=/b".to_string();
    let mut ws = vec![false; 27];
    ws[0] = true;
    assert_eq!(
        patch_unit_with(&unit, &ws),
        "ExecStart=/home/pi/scripts/start-amaru.sh\n ExecStart=/b"
    );
}

#[test]
fn migration_patches_only_when_needed() {
    let m = run(Some("[Service]\nExecStart=/usr/bin/amaru run".to_string()));
    assert_eq!(m.unit.as_deref(), Some("[Service]\nExecStart=/home/pi/scripts/start-amaru.sh"));
    let paths: Vec<&str> = m.scripts.iter().map(|s| s.path.as_str()).collect();
    assert_eq!(paths, vec![UPDATER_PATH, ACTIVATE_PATH, START_AMARU_PATH]);
    assert!(m.scripts[2].content.contains("exec \"$BIN\" daemon"));
    assert_eq!(m.updater_path, UPDATER_BIN);
    assert!(m.scripts[0].content.contains(UPDATER_BIN));
    let done = run(Some(format!("[Service]\n{}\n", WRAPPER_EXEC)));
    assert!(done.unit.is_none());
    assert!(run(None).unit.is_none());
}

#[test]
fn substring_search() {
    assert!(contains_str("amaru-linux-aarch64.tar.gz", ".tar.gz"));
    assert!(contains_str("abc", ""));
    assert!(!contains_str("abc", "abcd"));
    assert!(!contains_str("aarch", "arm"));
}
