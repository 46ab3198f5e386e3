use gbln_sync::locate::find_io_file;
use gbln_sync::locate::LocateError;
use gbln_sync::sync::is_affirmative;
use gbln_sync::sync::plan_read_sync;
use gbln_sync::sync::read_output_path;
use gbln_sync::sync::write_config;
use gbln_sync::sync::write_output_path;
use gbln_sync::sync::ReadAction;

#[test]
fn locator_prefers_compressed() {
    // Both artifacts exist for `a.gbln`: the compressed one wins.
    let r = find_io_file("a.gbln", true, true, true).unwrap();
    assert_eq!(r, "a.io.gbln.xz");
}

#[test]
fn locator_falls_back_to_plain_then_input() {
    let r = find_io_file("a.gbln", true, false, true).unwrap();
    assert_eq!(r, "a.io.gbln");
    let r = find_io_file("a.gbln", true, false, false).unwrap();
    assert_eq!(r, "a.gbln");
}

#[test]
fn locator_reports_all_candidates() {
    let e = find_io_file("dir/a.gbln", false, false, false).unwrap_err();
    match e {
        LocateError::NoCandidate { input, tried_compressed, tried_plain } => {
            assert_eq!(input, "dir/a.gbln");
            assert_eq!(tried_compressed, "dir/a.io.gbln.xz");
            assert_eq!(tried_plain, "dir/a.io.gbln");
        },
        LocateError::InputNotFound { .. } => panic!("wrong error variant"),
    }
}

#[test]
fn locator_artifact_shaped_input_stands_for_itself() {
    let r = find_io_file("a.io.gbln", true, false, false).unwrap();
    assert_eq!(r, "a.io.gbln");
    // No fallback to other candidates in this branch, even when they exist.
    let e = find_io_file("a.io.gbln.xz", false, true, true).unwrap_err();
    match e {
        LocateError::InputNotFound { input } => assert_eq!(input, "a.io.gbln.xz"),
        LocateError::NoCandidate { .. } => panic!("wrong error variant"),
    }
}

#[test]
fn write_config_maps_flags_and_clamps() {
    let c = write_config(false, false, 6);
    assert!(c.mini_mode);
    assert!(c.compress);
    assert_eq!(c.compression_level, 6);
    assert_eq!(c.indent, 2);
    assert!(c.strip_comments);

    let c = write_config(true, true, 12);
    assert!(!c.mini_mode);
    assert!(!c.compress);
    assert_eq!(c.compression_level, 9);
}

#[test]
fn output_paths() {
    assert_eq!(write_output_path("config.gbln", None, true), "config.io.gbln.xz");
    assert_eq!(write_output_path("config.gbln", None, false), "config.io.gbln");
    assert_eq!(write_output_path("config.gbln", Some("out.bin"), true), "out.bin");
    assert_eq!(read_output_path("config.io.gbln.xz", None), "config.gbln");
    assert_eq!(read_output_path("config.io.gbln.xz", Some("explicit.gbln")), "explicit.gbln");
}

#[test]
fn read_sync_is_idempotent() {
    let pretty = "key: 1\n";
    // First run: the destination does not exist yet, so it is written.
    assert_eq!(plan_read_sync(pretty, false, None, false), ReadAction::WriteFile);
    // Second run: the destination now holds exactly the rendered text.
    assert_eq!(plan_read_sync(pretty, true, Some(pretty), false), ReadAction::NoChanges);
    // And so does every further run.
    assert_eq!(plan_read_sync(pretty, true, Some(pretty), false), ReadAction::NoChanges);
    // The short-circuit comes before the overwrite gate: even a forced run
    // writes nothing when the destination is already synchronized.
    assert_eq!(plan_read_sync(pretty, true, Some(pretty), true), ReadAction::NoChanges);
}

#[test]
fn read_sync_gates_differing_destination() {
    let pretty = "key: 1\n";
    assert_eq!(plan_read_sync(pretty, true, Some("key: 2\n"), false), ReadAction::AskUser);
    // Forced overwrite never asks when the destination differs.
    assert_eq!(plan_read_sync(pretty, true, Some("key: 2\n"), true), ReadAction::WriteFile);
}

#[test]
fn affirmative_replies() {
    assert!(is_affirmative("y"));
    assert!(is_affirmative("Y"));
    assert!(is_affirmative(" y\n"));
    assert!(!is_affirmative("yes"));
    assert!(!is_affirmative(""));
    assert!(!is_affirmative("n"));
    assert!(!is_affirmative("  "));
}
