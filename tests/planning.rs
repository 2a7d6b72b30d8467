use chrono::{DateTime, Datelike, Timelike, Utc};
use date_organizer::date::Timestamp;
use date_organizer::file::{
    get_file_date, get_files_to_move, is_inside_ignored, plan_entry, should_move_file, FileDateError,
    FileEntry, FileTimestamps, SkipReason,
};
use date_organizer::model::{Args, FileDateType, GroupBy};
use date_organizer::path::{calculate_dest_path, FsPath, PathError};
use std::path::{Component, Path, PathBuf};

fn utc(text: &str) -> Timestamp {
    let dt = text.parse::<DateTime<Utc>>().unwrap();
    Timestamp::new(
        dt.year(),
        dt.month(),
        dt.day(),
        dt.hour(),
        dt.minute(),
        dt.second(),
        dt.nanosecond(),
    )
    .unwrap()
}

fn components(path: &Path) -> FsPath {
    let mut absolute = false;
    let mut parts = Vec::new();
    for component in path.components() {
        match component {
            Component::RootDir => absolute = true,
            other => parts.push(other.as_os_str().to_string_lossy().into_owned()),
        }
    }
    FsPath { absolute, parts }
}

fn dest_path(source: &Path, source_root: &Path, dest_root: &Path, group: Option<&str>) -> FsPath {
    calculate_dest_path(
        &components(source),
        &components(source_root),
        &components(dest_root),
        group,
    )
    .unwrap()
}

fn same_times(t: Timestamp) -> FileTimestamps {
    FileTimestamps { created: t, modified: t, accessed: t }
}

fn base_args(source: &str, destination: &str) -> Args {
    Args {
        source: components(Path::new(source)),
        destination: components(Path::new(destination)),
        group_by: None,
        previous_period_only: false,
        older_than: None,
        file_date_types: vec![FileDateType::Created, FileDateType::Modified],
        ignored_paths: None,
        min_depth: None,
        max_depth: None,
        keep_empty_folders: false,
        follow_symbolic_links: false,
        dry_run: false,
    }
}

// should_move_file tests
#[test]
fn test_should_move_file_no_filters() {
    let now = utc("2025-06-15T00:00:00Z");
    let file_datetime = utc("2025-01-01T12:00:00Z");
    assert!(should_move_file(file_datetime, None, false, None, now));
}

#[test]
fn test_should_move_file_older_than_filter() {
    let now = utc("2025-06-15T00:00:00Z");
    let cutoff = utc("2025-03-01T00:00:00Z");

    let before_cutoff = utc("2025-02-15T12:00:00Z");
    assert!(should_move_file(before_cutoff, None, false, Some(cutoff), now));

    let after_cutoff = utc("2025-03-15T12:00:00Z");
    assert!(!should_move_file(after_cutoff, None, false, Some(cutoff), now));

    // File exactly at cutoff - should not move (>= comparison)
    let at_cutoff = utc("2025-03-01T00:00:00Z");
    assert!(!should_move_file(at_cutoff, None, false, Some(cutoff), now));
}

#[test]
fn test_should_move_file_previous_period_only_week() {
    let now = utc("2025-06-15T00:00:00Z"); // Week 24

    let previous_week = utc("2025-06-08T12:00:00Z");
    assert!(should_move_file(previous_week, Some(GroupBy::Week), true, None, now));

    let current_week = utc("2025-06-16T12:00:00Z");
    assert!(!should_move_file(current_week, Some(GroupBy::Week), true, None, now));

    let next_week = utc("2025-06-22T12:00:00Z");
    assert!(!should_move_file(next_week, Some(GroupBy::Week), true, None, now));
}

#[test]
fn test_should_move_file_previous_period_only_month() {
    let now = utc("2025-06-15T00:00:00Z"); // June

    let previous_month = utc("2025-05-31T12:00:00Z");
    assert!(should_move_file(previous_month, Some(GroupBy::Month), true, None, now));

    let current_month = utc("2025-06-01T12:00:00Z");
    assert!(!should_move_file(current_month, Some(GroupBy::Month), true, None, now));

    let next_month = utc("2025-07-01T12:00:00Z");
    assert!(!should_move_file(next_month, Some(GroupBy::Month), true, None, now));
}

#[test]
fn test_should_move_file_previous_period_only_year() {
    let now = utc("2025-06-15T00:00:00Z"); // 2025

    let previous_year = utc("2024-12-31T12:00:00Z");
    assert!(should_move_file(previous_year, Some(GroupBy::Year), true, None, now));

    let current_year = utc("2025-01-01T12:00:00Z");
    assert!(!should_move_file(current_year, Some(GroupBy::Year), true, None, now));

    let next_year = utc("2026-01-01T12:00:00Z");
    assert!(!should_move_file(next_year, Some(GroupBy::Year), true, None, now));
}

#[test]
fn test_should_move_file_previous_period_only_semester() {
    let now = utc("2025-08-15T00:00:00Z"); // H2

    let previous_semester = utc("2025-06-30T12:00:00Z");
    assert!(should_move_file(previous_semester, Some(GroupBy::Semester), true, None, now));

    let current_semester = utc("2025-08-01T12:00:00Z");
    assert!(!should_move_file(current_semester, Some(GroupBy::Semester), true, None, now));
}

#[test]
fn test_should_move_file_previous_period_only_trimester() {
    let now = utc("2025-05-15T00:00:00Z"); // Q2

    let previous_trimester = utc("2025-03-31T12:00:00Z");
    assert!(should_move_file(previous_trimester, Some(GroupBy::Trimester), true, None, now));

    let current_trimester = utc("2025-05-01T12:00:00Z");
    assert!(!should_move_file(current_trimester, Some(GroupBy::Trimester), true, None, now));
}

#[test]
fn test_should_move_file_previous_period_only_quadrimester() {
    let now = utc("2025-06-15T00:00:00Z"); // QD2

    let previous_qd = utc("2025-04-30T12:00:00Z");
    assert!(should_move_file(previous_qd, Some(GroupBy::Quadrimester), true, None, now));

    let current_qd = utc("2025-05-01T12:00:00Z");
    assert!(!should_move_file(current_qd, Some(GroupBy::Quadrimester), true, None, now));
}

#[test]
fn test_should_move_file_previous_period_only_biweekly() {
    let now = utc("2025-06-15T00:00:00Z"); // Week 24 -> BW12

    let previous_bw = utc("2025-06-01T12:00:00Z");
    assert!(should_move_file(previous_bw, Some(GroupBy::Biweekly), true, None, now));

    let current_bw = utc("2025-06-16T12:00:00Z");
    assert!(!should_move_file(current_bw, Some(GroupBy::Biweekly), true, None, now));
}

#[test]
fn test_should_move_file_combined_filters() {
    let now = utc("2025-06-15T00:00:00Z"); // Week 24
    let cutoff = utc("2025-06-10T00:00:00Z");

    // Passes both filters: before cutoff (June 8) AND previous period (Week 23)
    let passes_both = utc("2025-06-08T12:00:00Z");
    assert!(should_move_file(passes_both, Some(GroupBy::Week), true, Some(cutoff), now));

    let now_month = utc("2025-06-15T00:00:00Z"); // June
    let cutoff_month = utc("2025-05-15T00:00:00Z");

    // Fails older_than: after cutoff (May 20) but in previous period (May)
    let fails_older_than = utc("2025-05-20T12:00:00Z");
    assert!(!should_move_file(
        fails_older_than,
        Some(GroupBy::Month),
        true,
        Some(cutoff_month),
        now_month
    ));

    // Fails previous_period_only: before cutoff (June 5) but in current period (June)
    let fails_period = utc("2025-06-05T12:00:00Z");
    assert!(!should_move_file(fails_period, Some(GroupBy::Month), true, Some(cutoff_month), now_month));

    // Fails both filters: after cutoff AND in current period
    let fails_both = utc("2025-06-16T12:00:00Z");
    assert!(!should_move_file(fails_both, Some(GroupBy::Month), true, Some(cutoff_month), now_month));
}

#[test]
fn test_should_move_file_previous_period_only_without_group_by() {
    let now = utc("2025-06-15T00:00:00Z");
    let file_datetime = utc("2025-01-01T12:00:00Z");
    assert!(should_move_file(file_datetime, None, true, None, now));
}

#[test]
fn cutoff_one_nanosecond_later_lets_the_file_through() {
    let now = utc("2025-06-15T00:00:00Z");
    let file_datetime = utc("2025-03-01T00:00:00Z");
    let cutoff = Timestamp::new(2025, 3, 1, 0, 0, 0, 1).unwrap();
    assert!(should_move_file(file_datetime, None, false, Some(cutoff), now));
    assert!(!should_move_file(file_datetime, None, false, Some(file_datetime), now));
}

// calculate_dest_path tests
#[test]
fn test_calculate_dest_path_without_grouping() {
    let source_root = PathBuf::from("/source");
    let dest_root = PathBuf::from("/dest");
    let source_path = source_root.join("file.md");

    let result = dest_path(&source_path, &source_root, &dest_root, None);
    assert_eq!(result, components(&dest_root.join("file.md")));

    let nested_source = source_root.join("folder1").join("folder2").join("file.md");
    let result = dest_path(&nested_source, &source_root, &dest_root, None);
    assert_eq!(result, components(&dest_root.join("folder1").join("folder2").join("file.md")));
}

#[test]
fn test_calculate_dest_path_with_grouping() {
    let source_root = PathBuf::from("/source");
    let dest_root = PathBuf::from("/dest");
    let group_folder = "2025-24";

    let source_path = source_root.join("file.md");
    let result = dest_path(&source_path, &source_root, &dest_root, Some(group_folder));
    assert_eq!(result, components(&dest_root.join(group_folder).join("file.md")));

    let nested_source = source_root.join("folder1").join("folder2").join("file.md");
    let result = dest_path(&nested_source, &source_root, &dest_root, Some(group_folder));
    assert_eq!(
        result,
        components(&dest_root.join(group_folder).join("folder1").join("folder2").join("file.md"))
    );
}

#[test]
fn test_calculate_dest_path_preserves_structure() {
    let source_root = PathBuf::from("/notes");
    let dest_root = PathBuf::from("/archive");

    let paths = vec![
        "daily.md",
        "work/meeting.md",
        "work/projects/project1.md",
        "personal/journal/2025/january.md",
    ];

    for path in paths {
        let source_path = source_root.join(path);
        let result = dest_path(&source_path, &source_root, &dest_root, None);
        assert_eq!(result, components(&dest_root.join(path)));
    }
}

#[test]
fn test_calculate_dest_path_with_grouping_preserves_structure() {
    let source_root = PathBuf::from("/notes");
    let dest_root = PathBuf::from("/archive");
    let group = "2025-W24";

    let paths = vec!["daily.md", "work/meeting.md", "work/projects/project1.md"];

    for path in paths {
        let source_path = source_root.join(path);
        let result = dest_path(&source_path, &source_root, &dest_root, Some(group));
        assert_eq!(result, components(&dest_root.join(group).join(path)));
    }
}

#[test]
fn test_calculate_dest_path_different_group_formats() {
    let source_root = PathBuf::from("/source");
    let dest_root = PathBuf::from("/dest");
    let source_path = source_root.join("file.md");

    let groups = vec!["2025-24", "2025-06", "2025", "2025-H1", "2025-Q2", "2025-QD2", "2025-BW12"];

    for group in groups {
        let result = dest_path(&source_path, &source_root, &dest_root, Some(group));
        assert_eq!(result, components(&dest_root.join(group).join("file.md")));
    }
}

#[test]
fn dest_path_outside_the_source_root_fails() {
    let outside = components(Path::new("/elsewhere/file.md"));
    let sibling = components(Path::new("/sourcedir/file.md"));
    let relative = components(Path::new("source/file.md"));
    let root = components(Path::new("/source"));
    let dest = components(Path::new("/dest"));
    assert_eq!(calculate_dest_path(&outside, &root, &dest, None), Err(PathError::NotUnderRoot));
    assert_eq!(calculate_dest_path(&sibling, &root, &dest, None), Err(PathError::NotUnderRoot));
    assert_eq!(calculate_dest_path(&relative, &root, &dest, Some("2025")), Err(PathError::NotUnderRoot));
}

#[test]
fn ignored_paths_match_whole_components() {
    let ignored = Some(vec![components(Path::new("/src/private")), components(Path::new("/src/tmp.md"))]);
    assert!(is_inside_ignored(&components(Path::new("/src/private/a.md")), &ignored));
    assert!(is_inside_ignored(&components(Path::new("/src/tmp.md")), &ignored));
    assert!(!is_inside_ignored(&components(Path::new("/src/private2/a.md")), &ignored));
    assert!(!is_inside_ignored(&components(Path::new("/src/a.md")), &ignored));
    assert!(!is_inside_ignored(&components(Path::new("/src/a.md")), &None));
}

#[test]
fn file_date_is_the_latest_selected_timestamp() {
    let times = FileTimestamps {
        created: utc("2025-01-01T00:00:00Z"),
        modified: utc("2025-03-01T00:00:00Z"),
        accessed: utc("2025-02-01T00:00:00Z"),
    };
    assert_eq!(get_file_date(&times, &vec![FileDateType::Created]), Ok(times.created));
    assert_eq!(
        get_file_date(&times, &vec![FileDateType::Created, FileDateType::Modified]),
        Ok(times.modified)
    );
    assert_eq!(
        get_file_date(&times, &vec![FileDateType::Accessed, FileDateType::Created]),
        Ok(times.accessed)
    );
    assert_eq!(
        get_file_date(
            &times,
            &vec![FileDateType::Accessed, FileDateType::Modified, FileDateType::Created]
        ),
        Ok(times.modified)
    );
    assert_eq!(get_file_date(&times, &vec![]), Err(FileDateError::NoDateTypes));
}

#[test]
fn plan_groups_a_previous_month_file() {
    let mut args = base_args("/src", "/dest");
    args.group_by = Some(GroupBy::Month);
    args.previous_period_only = true;
    let now = utc("2025-06-15T00:00:00Z");
    let entries = vec![FileEntry {
        path: components(Path::new("/src/a/note.md")),
        timestamps: Some(same_times(utc("2025-05-01T00:00:00Z"))),
    }];
    let plan = get_files_to_move(&args, &entries, now);
    assert_eq!(plan.len(), 1);
    assert_eq!(plan[0].source, components(Path::new("/src/a/note.md")));
    assert_eq!(plan[0].destination, components(Path::new("/dest/2025-05/a/note.md")));
}

#[test]
fn plan_is_empty_in_the_current_month() {
    let mut args = base_args("/src", "/dest");
    args.group_by = Some(GroupBy::Month);
    args.previous_period_only = true;
    let now = utc("2025-05-20T00:00:00Z");
    let entries = vec![FileEntry {
        path: components(Path::new("/src/a/note.md")),
        timestamps: Some(same_times(utc("2025-05-01T00:00:00Z"))),
    }];
    let plan = get_files_to_move(&args, &entries, now);
    assert!(plan.is_empty());
}

#[test]
fn plan_keeps_order_and_skips_what_it_must() {
    let mut args = base_args("/src", "/dest");
    args.group_by = Some(GroupBy::Year);
    args.older_than = Some(utc("2025-01-01T00:00:00Z"));
    args.ignored_paths = Some(vec![components(Path::new("/src/keep"))]);
    let now = utc("2025-06-15T00:00:00Z");
    let old = Some(same_times(utc("2023-07-04T09:00:00Z")));
    let entries = vec![
        FileEntry { path: components(Path::new("/src/z.md")), timestamps: old },
        FileEntry { path: components(Path::new("/src/keep/x.md")), timestamps: old },
        FileEntry { path: components(Path::new("/src/unreadable.md")), timestamps: None },
        FileEntry {
            path: components(Path::new("/src/new.md")),
            timestamps: Some(same_times(utc("2025-01-01T00:00:00Z"))),
        },
        FileEntry { path: components(Path::new("/other/y.md")), timestamps: old },
        FileEntry { path: components(Path::new("/src/b/a.md")), timestamps: old },
    ];
    assert_eq!(plan_entry(&args, &entries[1], now).unwrap_err(), SkipReason::Ignored);
    assert_eq!(plan_entry(&args, &entries[2], now).unwrap_err(), SkipReason::MetadataUnavailable);
    assert_eq!(plan_entry(&args, &entries[3], now).unwrap_err(), SkipReason::Filtered);
    assert_eq!(plan_entry(&args, &entries[4], now).unwrap_err(), SkipReason::NotUnderSource);
    let plan = get_files_to_move(&args, &entries, now);
    assert_eq!(plan.len(), 2);
    assert_eq!(plan[0].source, components(Path::new("/src/z.md")));
    assert_eq!(plan[0].destination, components(Path::new("/dest/2023/z.md")));
    assert_eq!(plan[1].source, components(Path::new("/src/b/a.md")));
    assert_eq!(plan[1].destination, components(Path::new("/dest/2023/b/a.md")));
}

#[test]
fn plan_without_date_types_moves_nothing() {
    let mut args = base_args("/src", "/dest");
    args.file_date_types = vec![];
    let now = utc("2025-06-15T00:00:00Z");
    let entry = FileEntry {
        path: components(Path::new("/src/a.md")),
        timestamps: Some(same_times(utc("2020-01-01T00:00:00Z"))),
    };
    assert_eq!(plan_entry(&args, &entry, now).unwrap_err(), SkipReason::NoDateTypes);
    assert!(get_files_to_move(&args, &vec![entry], now).is_empty());
}

#[test]
fn plan_without_grouping_keeps_the_relative_path() {
    let args = base_args("/src", "/dest");
    let now = utc("2025-06-15T00:00:00Z");
    let entries = vec![FileEntry {
        path: components(Path::new("/src/a/b/c.txt")),
        timestamps: Some(same_times(utc("2025-06-14T00:00:00Z"))),
    }];
    let plan = get_files_to_move(&args, &entries, now);
    assert_eq!(plan.len(), 1);
    assert_eq!(plan[0].destination, components(Path::new("/dest/a/b/c.txt")));
}
