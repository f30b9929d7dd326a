use exile_rs::pob::error::PobError;
use exile_rs::pob::extract::{
    detect_nested_structure, strip_prefix, ArchiveEntry, EntryAction, ExtractNext, Extraction,
};
use exile_rs::pob::progress::InstallStatus;

fn names(list: &[&str]) -> Vec<String> {
    list.iter().map(|s| s.to_string()).collect()
}

fn file(name: &str) -> ArchiveEntry {
    ArchiveEntry {
        name: name.to_string(),
        enclosed_name: Some(name.trim_end_matches('/').to_string()),
        is_dir: name.ends_with('/'),
    }
}

#[test]
fn flat_archive_has_no_wrapper() {
    let found = detect_nested_structure(&names(&[
        "POE1 POB/",
        "POE1 POB/Launch.lua",
        "Data/Fonts/a.ttf",
    ]));
    assert_eq!(found.unwrap(), None);
}

#[test]
fn wrapper_is_detected_from_the_first_name_with_a_required_folder() {
    let found = detect_nested_structure(&names(&[
        "wrapper/",
        "wrapper/readme.txt",
        "wrapper/POE1 POB/Launch.lua",
        "POE2 POB/x",
    ]));
    assert_eq!(found.unwrap(), Some("wrapper".to_string()));
}

#[test]
fn each_required_folder_counts() {
    assert_eq!(
        detect_nested_structure(&names(&["PoeCharm/POE2 POB/a"])).unwrap(),
        Some("PoeCharm".to_string())
    );
    assert_eq!(
        detect_nested_structure(&names(&["PoeCharm/Data/a"])).unwrap(),
        Some("PoeCharm".to_string())
    );
    assert_eq!(detect_nested_structure(&names(&["Data/a"])).unwrap(), None);
    assert_eq!(
        detect_nested_structure(&names(&["a/b/POE1 POB/x"])).unwrap(),
        Some("a/b".to_string())
    );
}

#[test]
fn required_folders_are_tried_in_their_order() {
    // `POE1 POB/` is looked for first, and stands behind `Data/` here.
    assert_eq!(
        detect_nested_structure(&names(&["Data/POE1 POB/x"])).unwrap(),
        Some("Data".to_string())
    );
}

#[test]
fn slashes_at_the_end_of_the_wrapper_are_cut_off() {
    assert_eq!(
        detect_nested_structure(&names(&["wrapper//POE1 POB/x"])).unwrap(),
        Some("wrapper".to_string())
    );
    assert_eq!(
        detect_nested_structure(&names(&["/POE1 POB/x"])).unwrap(),
        Some("".to_string())
    );
}

#[test]
fn archive_without_required_folders_is_refused() {
    let found = detect_nested_structure(&names(&["readme.txt", "POE1 POB", "Data", "src/main.lua"]));
    match found {
        Err(PobError::ExtractFailed(text)) => assert_eq!(
            text,
            "ZIP does not contain required folders (POE1 POB, POE2 POB, Data)"
        ),
        _ => panic!("expected ExtractFailed"),
    }
    assert!(detect_nested_structure(&Vec::new()).is_err());
}

#[test]
fn refused_archive_begins_no_extraction() {
    let result = Extraction::begin("/data/PoeCharm.new", &names(&["a.txt", "b/c.txt"]), 0);
    assert!(matches!(result, Err(PobError::ExtractFailed(_))));
}

#[test]
fn strip_prefix_cuts_the_wrapper_only() {
    let wrapper = Some("wrapper".to_string());
    assert_eq!(strip_prefix("wrapper/POE1 POB/a.lua", &wrapper), "POE1 POB/a.lua");
    assert_eq!(strip_prefix("wrapper", &wrapper), "");
    assert_eq!(strip_prefix("wrapperx/a", &wrapper), "wrapperx/a");
    assert_eq!(strip_prefix("other/a", &wrapper), "other/a");
    assert_eq!(strip_prefix("wrap", &wrapper), "wrap");
    assert_eq!(strip_prefix("wrapper/POE1 POB/a.lua", &None), "wrapper/POE1 POB/a.lua");
    assert_eq!(strip_prefix("통합/POE1 POB/a", &Some("통합".to_string())), "POE1 POB/a");
}

#[test]
fn wrapped_archive_is_unpacked_without_the_wrapper() {
    let entry_names = names(&[
        "wrapper/",
        "wrapper/POE1 POB/",
        "wrapper/POE1 POB/Launch.lua",
        "wrapper/Data/Fonts/a.ttf",
    ]);
    let (run, started) = Extraction::begin("/data/PoeCharm.new", &entry_names, 0).unwrap();
    assert!(matches!(started, InstallStatus::Started { total_size: Some(4) }));
    assert_eq!(run.skip_prefix, Some("wrapper".to_string()));
    match run.place(&file("wrapper/")) {
        EntryAction::CreateDir { path } => assert_eq!(path, "/data/PoeCharm.new"),
        _ => panic!("expected CreateDir"),
    }
    match run.place(&file("wrapper/POE1 POB/")) {
        EntryAction::CreateDir { path } => assert_eq!(path, "/data/PoeCharm.new/POE1 POB"),
        _ => panic!("expected CreateDir"),
    }
    match run.place(&file("wrapper/POE1 POB/Launch.lua")) {
        EntryAction::WriteFile { path } => {
            assert_eq!(path, "/data/PoeCharm.new/POE1 POB/Launch.lua")
        }
        _ => panic!("expected WriteFile"),
    }
    match run.place(&file("wrapper/Data/Fonts/a.ttf")) {
        EntryAction::WriteFile { path } => {
            assert_eq!(path, "/data/PoeCharm.new/Data/Fonts/a.ttf")
        }
        _ => panic!("expected WriteFile"),
    }
}

#[test]
fn flat_archive_is_unpacked_as_it_is() {
    let entry_names = names(&["POE1 POB/Launch.lua"]);
    let (run, _) = Extraction::begin("/data/PoeCharm.new", &entry_names, 0).unwrap();
    assert_eq!(run.skip_prefix, None);
    match run.place(&file("POE1 POB/Launch.lua")) {
        EntryAction::WriteFile { path } => {
            assert_eq!(path, "/data/PoeCharm.new/POE1 POB/Launch.lua")
        }
        _ => panic!("expected WriteFile"),
    }
}

#[test]
fn entries_that_lead_outside_are_skipped() {
    let entry_names = names(&["POE1 POB/a", "../evil"]);
    let (mut run, _) = Extraction::begin("/data/PoeCharm.new", &entry_names, 0).unwrap();
    assert!(matches!(run.next(false), ExtractNext::Entry { index: 0 }));
    run.entry_done(false, 1);
    assert!(matches!(run.next(false), ExtractNext::Entry { index: 1 }));
    let evil = ArchiveEntry { name: "../evil".to_string(), enclosed_name: None, is_dir: false };
    assert!(matches!(run.place(&evil), EntryAction::Skip));
    // A skipped entry is never reported, however late it is.
    assert!(run.entry_done(true, 10_000).is_none());
    assert!(matches!(
        run.next(false),
        ExtractNext::Finished { report: InstallStatus::Completed }
    ));
}

#[test]
fn extraction_reports_are_throttled() {
    let entry_names = names(&["POE1 POB/a", "POE1 POB/b", "POE1 POB/c"]);
    let (mut run, _) = Extraction::begin("/s", &entry_names, 1_000).unwrap();
    assert!(run.entry_done(false, 1_050).is_none());
    match run.entry_done(false, 1_100) {
        Some(InstallStatus::InProgress { done, total }) => {
            assert_eq!(done, 2);
            assert_eq!(total, 3);
        }
        _ => panic!("expected a report"),
    }
    assert!(run.entry_done(false, 1_150).is_none());
    assert_eq!(run.done, 3);
}

#[test]
fn cancelled_extraction_deletes_the_staging_directory() {
    let entry_names = names(&["POE1 POB/a", "POE1 POB/b"]);
    let (mut run, _) = Extraction::begin("/data/PoeCharm.new", &entry_names, 0).unwrap();
    run.entry_done(false, 1);
    match run.next(true) {
        ExtractNext::Cancelled { report, remove } => {
            assert!(matches!(report, InstallStatus::Cancelled));
            assert_eq!(remove, "/data/PoeCharm.new");
        }
        _ => panic!("expected Cancelled"),
    }
    // Once all entries are dealt with, a late cancellation changes nothing.
    run.entry_done(false, 2);
    assert!(matches!(run.next(true), ExtractNext::Finished { .. }));
}
