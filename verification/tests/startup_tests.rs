use aul2madb::layout::{archive_kind, layout, ArchiveKind};
use aul2madb::startup::{preflight, OutputFormat, Refusal};

#[test]
fn run_starts_on_a_directory_and_a_free_output() {
    assert_eq!(preflight(true, false), Ok(()));
}

#[test]
fn existing_output_is_refused_with_status_one() {
    let verdict = preflight(true, true);
    assert_eq!(verdict, Err(Refusal::OutputExists));
    assert_eq!(verdict.unwrap_err().exit_code(), 1);
}

#[test]
fn input_that_is_no_directory_is_refused_with_status_one() {
    let verdict = preflight(false, false);
    assert_eq!(verdict, Err(Refusal::InputNotDirectory));
    assert_eq!(verdict.unwrap_err().exit_code(), 1);
}

#[test]
fn input_is_judged_before_output() {
    assert_eq!(preflight(false, true), Err(Refusal::InputNotDirectory));
}

#[test]
fn output_formats_differ() {
    assert_ne!(OutputFormat::Sqlite, OutputFormat::Tsv);
}

#[test]
fn kind_is_told_by_the_end_of_the_path() {
    assert_eq!(archive_kind("/cases/system_logs.logarchive"), ArchiveKind::LogArchive);
    assert_eq!(archive_kind("/cases/export"), ArchiveKind::Exported);
    assert_eq!(archive_kind("/cases/system_logs.logarchive/"), ArchiveKind::Exported);
    assert_eq!(archive_kind("/cases/.logarchive.d"), ArchiveKind::Exported);
    assert_eq!(archive_kind(".logarchive"), ArchiveKind::LogArchive);
    assert_eq!(archive_kind(""), ArchiveKind::Exported);
}

#[test]
fn layout_of_a_bundle() {
    let places = layout(ArchiveKind::LogArchive);
    assert_eq!(places.strings, Vec::<String>::new());
    assert_eq!(places.shared_strings, vec!["dsc"]);
    assert_eq!(places.timesync, vec!["timesync"]);
    assert_eq!(places.traces, Vec::<String>::new());
}

#[test]
fn layout_of_exported_logs() {
    let places = layout(ArchiveKind::Exported);
    assert_eq!(places.strings, vec!["uuidtext"]);
    assert_eq!(places.shared_strings, vec!["uuidtext", "dsc"]);
    assert_eq!(places.timesync, vec!["diagnostics", "timesync"]);
    assert_eq!(places.traces, vec!["diagnostics"]);
}

#[test]
fn layout_is_the_same_each_time() {
    let a = layout(ArchiveKind::Exported);
    let b = layout(ArchiveKind::Exported);
    assert_eq!(a.strings, b.strings);
    assert_eq!(a.shared_strings, b.shared_strings);
    assert_eq!(a.timesync, b.timesync);
    assert_eq!(a.traces, b.traces);
}

#[test]
fn defaults_of_a_run() {
    assert_eq!(OutputFormat::default(), OutputFormat::Sqlite);
    assert_eq!(aul2madb::startup::default_output(), "./UnifiedLogs.db");
}
