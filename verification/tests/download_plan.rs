use nflreadrs::fetch::{
    plan_download, plan_download_fresh, standard_headers, temp_file_name, Destination,
    PlannedWrite,
};
use nflreadrs::Error;

#[test]
fn test_existing_file_without_overwrite_is_refused() {
    for overwrite in [None, Some(false)] {
        let dest = Destination::File { path: String::from("stats.csv"), exists: true };
        let planned = plan_download(Some(dest), overwrite, "id");
        assert_eq!(planned.unwrap_err(), Error::FileExists);
    }
}

#[test]
fn test_existing_file_with_overwrite_truncates_in_place() {
    let dest = Destination::File { path: String::from("stats.csv"), exists: true };
    let planned = plan_download(Some(dest), Some(true), "id").unwrap();
    match planned {
        PlannedWrite::AtPath { path, truncates_existing } => {
            assert_eq!(path, "stats.csv");
            assert!(truncates_existing);
        }
        other => panic!("unexpected plan {:?}", other),
    }
}

#[test]
fn test_fresh_file_needs_no_overwrite() {
    let dest = Destination::File { path: String::from("new.csv"), exists: false };
    let planned = plan_download(Some(dest), None, "id").unwrap();
    match planned {
        PlannedWrite::AtPath { path, truncates_existing } => {
            assert_eq!(path, "new.csv");
            assert!(!truncates_existing);
        }
        other => panic!("unexpected plan {:?}", other),
    }
}

#[test]
fn test_directory_destination_gets_generated_name() {
    let dest = Destination::Directory(String::from("/data"));
    let planned = plan_download(Some(dest), None, "abc").unwrap();
    match planned {
        PlannedWrite::InDirectory { dir, file_name } => {
            assert_eq!(dir, "/data");
            assert_eq!(file_name, "nflreadrs-abc.csv");
        }
        other => panic!("unexpected plan {:?}", other),
    }
}

#[test]
fn test_missing_destination_goes_to_temp_dir() {
    let planned = plan_download(None, None, "abc").unwrap();
    match planned {
        PlannedWrite::TempDir { file_name } => {
            assert_eq!(file_name, "nflreadrs-abc.csv");
        }
        other => panic!("unexpected plan {:?}", other),
    }
}

#[test]
fn test_temp_file_name_wraps_identifier() {
    assert_eq!(temp_file_name("0123"), "nflreadrs-0123.csv");
    assert_eq!(temp_file_name(""), "nflreadrs-.csv");
}

#[test]
fn test_fresh_plans_carry_distinct_generated_names() {
    let name_of = |planned: Result<PlannedWrite, Error>| match planned.unwrap() {
        PlannedWrite::TempDir { file_name } => file_name,
        other => panic!("unexpected plan {:?}", other),
    };
    let a = name_of(plan_download_fresh(None, None));
    let b = name_of(plan_download_fresh(None, None));
    assert!(a.starts_with("nflreadrs-") && a.ends_with(".csv"));
    assert_eq!(a.chars().count(), "nflreadrs-.csv".chars().count() + 36);
    assert_ne!(a, b);

    let refused = plan_download_fresh(
        Some(Destination::File { path: String::from("stats.csv"), exists: true }),
        None,
    );
    assert_eq!(refused.unwrap_err(), Error::FileExists);
}

#[test]
fn test_standard_headers_are_fixed() {
    let headers = standard_headers();
    assert_eq!(
        headers,
        vec![
            ("user-agent", "nflreadrs"),
            ("accept", "application/vnd.github+json"),
            ("x-github-api-version", "2022-11-28"),
        ]
    );
}
