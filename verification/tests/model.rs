//! Tests of the traversal engine on plain values: no file system is
//! touched; the listing outcomes are fed to the driver by hand.

use unletterbox::classify::{classify, FileClassification};
use unletterbox::config::{ConfigError, ProcessingConfig};
use unletterbox::driver::{Action, DispatchPlan, Driver, Entry, EntryKind, RunError};

fn s(x: &str) -> String {
    x.to_owned()
}

fn cfg(threshold: i64, recursive: bool) -> ProcessingConfig {
    ProcessingConfig::new(threshold, recursive).unwrap()
}

#[test]
fn config_accepts_every_byte_threshold() {
    for t in 0..=255i64 {
        let c = ProcessingConfig::new(t, false).unwrap();
        assert_eq!(i64::from(c.threshold), t);
        assert!(!c.recursive);
    }
}

#[test]
fn config_rejects_out_of_range_thresholds() {
    assert_eq!(
        ProcessingConfig::new(-1, false),
        Err(ConfigError::ThresholdOutOfRange { value: -1 })
    );
    assert_eq!(
        ProcessingConfig::new(256, true),
        Err(ConfigError::ThresholdOutOfRange { value: 256 })
    );
    assert_eq!(
        ProcessingConfig::new(i64::MIN, true),
        Err(ConfigError::ThresholdOutOfRange { value: i64::MIN })
    );
}

#[test]
fn classify_recognizes_raster_extensions() {
    assert_eq!(classify("photo.jpg"), FileClassification::StandardImage);
    assert_eq!(classify("photo.JPEG"), FileClassification::StandardImage);
    assert_eq!(classify("a/b/c.png"), FileClassification::StandardImage);
    assert_eq!(classify("pic.WebP"), FileClassification::StandardImage);
}

#[test]
fn classify_recognizes_structured_format() {
    assert_eq!(classify("art.jxl"), FileClassification::StructuredFormat);
    assert_eq!(classify("ART.JXL"), FileClassification::StructuredFormat);
    assert_eq!(classify("dir/deep/x.Jxl"), FileClassification::StructuredFormat);
}

#[test]
fn classify_rejects_everything_else() {
    assert_eq!(classify("notes.txt"), FileClassification::NonImage);
    assert_eq!(classify("noextension"), FileClassification::NonImage);
    assert_eq!(classify(""), FileClassification::NonImage);
    assert_eq!(classify(".gitignore"), FileClassification::NonImage);
    assert_eq!(classify("archive.tar.gz"), FileClassification::NonImage);
    assert_eq!(classify("trailing."), FileClassification::NonImage);
    // The extension belongs to the file name, not to a directory on the way.
    assert_eq!(classify("dir.png/file"), FileClassification::NonImage);
    assert_eq!(classify("jpgpng"), FileClassification::NonImage);
}

#[test]
fn missing_input_fails_before_any_traversal() {
    let mut d = Driver::new(s("nowhere/at/all"), cfg(10, true));
    assert_eq!(d.initial_action(), Action::StatInput { path: s("nowhere/at/all") });
    let a = d.on_input_stat(false, false, false);
    assert_eq!(
        a,
        Action::Finish {
            result: Err(RunError::InputNotFound { path: s("nowhere/at/all") })
        }
    );
}

#[test]
fn single_file_input_is_dispatched_directly() {
    let mut d = Driver::new(s("img.png"), cfg(10, false));
    assert_eq!(d.initial_action(), Action::StatInput { path: s("img.png") });
    let a = d.on_input_stat(true, true, false);
    assert_eq!(
        a,
        Action::ProcessFile { path: s("img.png"), plan: DispatchPlan::Direct { threshold: 10 } }
    );
    let a = d.on_file_result(true, String::new());
    assert_eq!(a, Action::Finish { result: Ok(()) });
}

#[test]
fn structured_file_gets_the_structured_pipeline() {
    let mut d = Driver::new(s("art.jxl"), cfg(42, false));
    d.initial_action();
    let a = d.on_input_stat(true, true, false);
    assert_eq!(
        a,
        Action::ProcessFile {
            path: s("art.jxl"),
            plan: DispatchPlan::Structured { threshold: 42 }
        }
    );
}

#[test]
fn non_image_input_is_skipped_not_failed() {
    let mut d = Driver::new(s("notes.txt"), cfg(10, false));
    d.initial_action();
    let a = d.on_input_stat(true, true, false);
    assert_eq!(
        a,
        Action::ProcessFile { path: s("notes.txt"), plan: DispatchPlan::SkipNonImage }
    );
    // The application only logs a warning for such a plan; the run ends well.
    let a = d.on_file_result(true, String::new());
    assert_eq!(a, Action::Finish { result: Ok(()) });
}

#[test]
fn non_recursive_walk_skips_subdirectories() {
    let mut d = Driver::new(s("root"), cfg(10, false));
    d.initial_action();
    let a = d.on_input_stat(true, false, true);
    assert_eq!(a, Action::ReadDir { path: s("root") });
    let a = d.on_dir_entries(vec![
        Entry { path: s("root/img1.png"), kind: EntryKind::File },
        Entry { path: s("root/img2.png"), kind: EntryKind::File },
        Entry { path: s("root/subdir"), kind: EntryKind::Dir },
    ]);
    assert_eq!(
        a,
        Action::ProcessFile {
            path: s("root/img1.png"),
            plan: DispatchPlan::Direct { threshold: 10 }
        }
    );
    let a = d.on_file_result(true, String::new());
    assert_eq!(
        a,
        Action::ProcessFile {
            path: s("root/img2.png"),
            plan: DispatchPlan::Direct { threshold: 10 }
        }
    );
    // The subdirectory is silently dropped: the run ends without ever
    // asking for its listing.
    let a = d.on_file_result(true, String::new());
    assert_eq!(a, Action::Finish { result: Ok(()) });
}

#[test]
fn recursive_walk_descends_depth_first() {
    let mut d = Driver::new(s("root"), cfg(10, true));
    d.initial_action();
    let a = d.on_input_stat(true, false, true);
    assert_eq!(a, Action::ReadDir { path: s("root") });
    let a = d.on_dir_entries(vec![
        Entry { path: s("root/a.png"), kind: EntryKind::File },
        Entry { path: s("root/sub"), kind: EntryKind::Dir },
        Entry { path: s("root/b.png"), kind: EntryKind::File },
    ]);
    assert_eq!(
        a,
        Action::ProcessFile { path: s("root/a.png"), plan: DispatchPlan::Direct { threshold: 10 } }
    );
    let a = d.on_file_result(true, String::new());
    // The subdirectory is handled before its later sibling: depth-first.
    assert_eq!(a, Action::ReadDir { path: s("root/sub") });
    let a = d.on_dir_entries(vec![Entry { path: s("root/sub/c.png"), kind: EntryKind::File }]);
    assert_eq!(
        a,
        Action::ProcessFile {
            path: s("root/sub/c.png"),
            plan: DispatchPlan::Direct { threshold: 10 }
        }
    );
    let a = d.on_file_result(true, String::new());
    assert_eq!(
        a,
        Action::ProcessFile { path: s("root/b.png"), plan: DispatchPlan::Direct { threshold: 10 } }
    );
    let a = d.on_file_result(true, String::new());
    assert_eq!(a, Action::Finish { result: Ok(()) });
}

#[test]
fn other_entries_are_never_dispatched() {
    let mut d = Driver::new(s("root"), cfg(10, true));
    d.initial_action();
    d.on_input_stat(true, false, true);
    let a = d.on_dir_entries(vec![
        Entry { path: s("root/socket"), kind: EntryKind::Other },
        Entry { path: s("root/img.png"), kind: EntryKind::File },
    ]);
    assert_eq!(
        a,
        Action::ProcessFile { path: s("root/img.png"), plan: DispatchPlan::Direct { threshold: 10 } }
    );
}

#[test]
fn first_failure_aborts_the_rest_of_the_run() {
    let mut d = Driver::new(s("root"), cfg(10, true));
    d.initial_action();
    d.on_input_stat(true, false, true);
    let a = d.on_dir_entries(vec![
        Entry { path: s("root/bad.png"), kind: EntryKind::File },
        Entry { path: s("root/later.png"), kind: EntryKind::File },
        Entry { path: s("root/sub"), kind: EntryKind::Dir },
    ]);
    assert_eq!(
        a,
        Action::ProcessFile { path: s("root/bad.png"), plan: DispatchPlan::Direct { threshold: 10 } }
    );
    // The very first failure finishes the run: the driver never asks for
    // root/later.png nor for the subdirectory's listing.
    let a = d.on_file_result(false, s("decode failed"));
    assert_eq!(
        a,
        Action::Finish {
            result: Err(RunError::FileProcessingError {
                path: s("root/bad.png"),
                message: s("decode failed"),
            })
        }
    );
}

#[test]
fn directory_read_failure_aborts_the_run() {
    let mut d = Driver::new(s("root"), cfg(10, false));
    d.initial_action();
    let a = d.on_input_stat(true, false, true);
    assert_eq!(a, Action::ReadDir { path: s("root") });
    let a = d.on_dir_read_failed(s("permission denied"));
    assert_eq!(
        a,
        Action::Finish {
            result: Err(RunError::DirectoryReadError {
                dir: s("root"),
                message: s("permission denied"),
            })
        }
    );
}

#[test]
fn input_that_is_neither_file_nor_directory_ends_quietly() {
    let mut d = Driver::new(s("weird"), cfg(10, false));
    d.initial_action();
    let a = d.on_input_stat(true, false, false);
    assert_eq!(a, Action::Finish { result: Ok(()) });
}

#[test]
fn empty_directory_ends_successfully() {
    let mut d = Driver::new(s("root"), cfg(10, true));
    d.initial_action();
    d.on_input_stat(true, false, true);
    let a = d.on_dir_entries(Vec::new());
    assert_eq!(a, Action::Finish { result: Ok(()) });
}

#[test]
fn threshold_is_carried_unchanged_to_every_plan() {
    let mut d = Driver::new(s("root"), cfg(200, true));
    d.initial_action();
    d.on_input_stat(true, false, true);
    let a = d.on_dir_entries(vec![
        Entry { path: s("root/a.jxl"), kind: EntryKind::File },
        Entry { path: s("root/b.webp"), kind: EntryKind::File },
    ]);
    assert_eq!(
        a,
        Action::ProcessFile {
            path: s("root/a.jxl"),
            plan: DispatchPlan::Structured { threshold: 200 }
        }
    );
    let a = d.on_file_result(true, String::new());
    assert_eq!(
        a,
        Action::ProcessFile {
            path: s("root/b.webp"),
            plan: DispatchPlan::Direct { threshold: 200 }
        }
    );
}
