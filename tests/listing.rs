use better_ls::date::{modified_date, EpochOffset};
use better_ls::entry::{get_files, get_meta, make_entry, EntryMeta, EntryType, FileEntry};
use better_ls::json::{entries_json, entry_json};
use better_ls::present::{plan, render, PathCheck, Plan};
use better_ls::table::{display_table, entry_cells, table_rows};
use better_ls::text::decimal_text;

fn after(secs: u64) -> Option<EpochOffset> {
    Some(EpochOffset { before: false, secs, nanos: 0 })
}

fn meta(name: Option<&str>, is_dir: bool, len_bytes: u64, secs: Option<u64>) -> EntryMeta {
    EntryMeta {
        name: name.map(|n| n.to_string()),
        is_dir,
        len_bytes,
        modified: secs.and_then(after),
    }
}

fn entry(name: &str, e_type: EntryType, len_bytes: u64, modified: &str) -> FileEntry {
    FileEntry { name: name.to_string(), e_type, len_bytes, modified: modified.to_string() }
}

#[test]
fn decimal_text_values() {
    assert_eq!(decimal_text(0), "0");
    assert_eq!(decimal_text(7), "7");
    assert_eq!(decimal_text(10), "10");
    assert_eq!(decimal_text(120), "120");
    assert_eq!(decimal_text(u64::MAX), "18446744073709551615");
}

#[test]
fn whole_seconds_after_epoch() {
    let o = EpochOffset { before: false, secs: 5, nanos: 999_999_999 };
    assert_eq!(o.whole_seconds(), Some(5));
    let o = EpochOffset { before: false, secs: 5, nanos: 2_500_000_000 };
    assert_eq!(o.whole_seconds(), Some(7));
    let o = EpochOffset { before: false, secs: i64::MAX as u64, nanos: 0 };
    assert_eq!(o.whole_seconds(), Some(i64::MAX));
    let o = EpochOffset { before: false, secs: i64::MAX as u64 + 1, nanos: 0 };
    assert_eq!(o.whole_seconds(), None);
    let o = EpochOffset { before: false, secs: u64::MAX, nanos: 1_000_000_000 };
    assert_eq!(o.whole_seconds(), None);
}

#[test]
fn whole_seconds_before_epoch_rounds_to_the_past() {
    let o = EpochOffset { before: true, secs: 5, nanos: 0 };
    assert_eq!(o.whole_seconds(), Some(-5));
    let o = EpochOffset { before: true, secs: 5, nanos: 1 };
    assert_eq!(o.whole_seconds(), Some(-6));
    let o = EpochOffset { before: true, secs: 0, nanos: 1 };
    assert_eq!(o.whole_seconds(), Some(-1));
    let o = EpochOffset { before: true, secs: 1u64 << 63, nanos: 0 };
    assert_eq!(o.whole_seconds(), Some(i64::MIN));
    let o = EpochOffset { before: true, secs: 1u64 << 63, nanos: 1 };
    assert_eq!(o.whole_seconds(), None);
}

#[test]
fn modified_date_of_known_times() {
    assert_eq!(modified_date(after(0)), "Thu Jan  1 1970");
    assert_eq!(modified_date(after(1_700_000_000)), "Tue Nov 14 2023");
    let o = EpochOffset { before: true, secs: 0, nanos: 1 };
    assert_eq!(modified_date(Some(o)), "Wed Dec 31 1969");
}

#[test]
fn modified_date_is_empty_when_unknown() {
    assert_eq!(modified_date(None), "");
}

#[test]
fn modified_date_is_empty_beyond_the_calendar() {
    let o = EpochOffset { before: false, secs: i64::MAX as u64, nanos: 0 };
    assert_eq!(modified_date(Some(o)), "");
    let o = EpochOffset { before: false, secs: u64::MAX, nanos: 0 };
    assert_eq!(modified_date(Some(o)), "");
}

#[test]
fn modified_date_parses_as_a_calendar_date() {
    for secs in [0u64, 86_399, 951_782_400, 1_234_567_890, 4_102_444_800] {
        let text = modified_date(after(secs));
        assert!(!text.is_empty());
        let parsed = chrono::NaiveDate::parse_from_str(&text, "%a %b %e %Y");
        assert!(parsed.is_ok(), "{text}");
    }
}

#[test]
fn directory_child_is_a_dir() {
    let e = make_entry(meta(Some("src"), true, 4096, Some(0)));
    assert_eq!(e.e_type, EntryType::Dir);
    assert_eq!(e.name, "src");
    assert_eq!(e.len_bytes, 4096);
    assert_eq!(e.modified, "Thu Jan  1 1970");
}

#[test]
fn plain_child_is_a_file() {
    let e = make_entry(meta(Some("a.txt"), false, 12, None));
    assert_eq!(e.e_type, EntryType::File);
    assert_eq!(e.name, "a.txt");
    assert_eq!(e.len_bytes, 12);
    assert_eq!(e.modified, "");
}

#[test]
fn type_names() {
    assert_eq!(EntryType::File.name(), "File");
    assert_eq!(EntryType::Dir.name(), "Dir");
}

#[test]
fn undecodable_name_gets_placeholder() {
    let e = make_entry(meta(None, false, 3, None));
    assert_eq!(e.name, "unknown name");
}

#[test]
fn get_meta_pushes_or_skips() {
    let mut data = vec![entry("x", EntryType::File, 1, "")];
    get_meta(None, &mut data);
    assert_eq!(data.len(), 1);
    get_meta(Some(meta(Some("y"), true, 2, None)), &mut data);
    assert_eq!(data.len(), 2);
    assert_eq!(data[0].name, "x");
    assert_eq!(data[1].name, "y");
    assert_eq!(data[1].e_type, EntryType::Dir);
}

#[test]
fn one_record_per_readable_child() {
    let listing = vec![
        Some(meta(Some("b"), false, 1, None)),
        Some(meta(Some("a"), true, 2, None)),
        Some(meta(Some("c"), false, 3, Some(0))),
    ];
    let records = get_files(listing);
    assert_eq!(records.len(), 3);
    let names: Vec<&str> = records.iter().map(|r| r.name.as_str()).collect();
    assert_eq!(names, vec!["b", "a", "c"]);
    assert_eq!(records[1].e_type, EntryType::Dir);
    assert_eq!(records[2].modified, "Thu Jan  1 1970");
}

#[test]
fn unreadable_children_are_skipped() {
    let listing = vec![None, Some(meta(Some("kept"), false, 1, None)), None];
    let records = get_files(listing);
    assert_eq!(records.len(), 1);
    assert_eq!(records[0].name, "kept");
}

#[test]
fn empty_listing_gives_no_records() {
    assert!(get_files(Vec::new()).is_empty());
}

#[test]
fn undecodable_name_does_not_stop_collection() {
    let listing = vec![
        Some(meta(Some("first"), false, 1, None)),
        Some(meta(None, false, 2, None)),
        Some(meta(Some("last"), true, 3, None)),
    ];
    let records = get_files(listing);
    assert_eq!(records.len(), 3);
    assert_eq!(records[0].name, "first");
    assert_eq!(records[1].name, "unknown name");
    assert_eq!(records[2].name, "last");
}

#[test]
fn entry_json_exact() {
    let e = entry("a.txt", EntryType::File, 12, "Thu Jan  1 1970");
    assert_eq!(
        entry_json(&e).unwrap(),
        "{\"name\":\"a.txt\",\"e_type\":\"File\",\"len_bytes\":12,\"modified\":\"Thu Jan  1 1970\"}"
    );
}

#[test]
fn entries_json_exact() {
    let es = vec![entry("d", EntryType::Dir, 0, ""), entry("f", EntryType::File, 7, "")];
    assert_eq!(
        entries_json(&es),
        "[{\"name\":\"d\",\"e_type\":\"Dir\",\"len_bytes\":0,\"modified\":\"\"},\
         {\"name\":\"f\",\"e_type\":\"File\",\"len_bytes\":7,\"modified\":\"\"}]"
    );
}

#[test]
fn entries_json_escapes_names() {
    let es = vec![entry("a\"b\\c", EntryType::File, 1, "")];
    assert_eq!(
        entries_json(&es),
        "[{\"name\":\"a\\\"b\\\\c\",\"e_type\":\"File\",\"len_bytes\":1,\"modified\":\"\"}]"
    );
}

#[test]
fn empty_listing_as_json() {
    assert_eq!(entries_json(&Vec::new()), "[]");
    assert_eq!(render(&Vec::new(), true), "[]");
}

#[test]
fn json_round_trip_keeps_every_field() {
    let es = vec![
        entry("plain.txt", EntryType::File, 0, "Thu Jan  1 1970"),
        entry("dir with \"quotes\"", EntryType::Dir, 4096, ""),
        entry("tab\tand\\slash", EntryType::File, u64::MAX, "Tue Nov 14 2023"),
        entry("ünïcødé ✓", EntryType::File, 42, ""),
        entry("unknown name", EntryType::File, 5, ""),
    ];
    let text = entries_json(&es);
    let parsed: serde_json::Value = serde_json::from_str(&text).unwrap();
    let items = parsed.as_array().unwrap();
    assert_eq!(items.len(), es.len());
    for (item, e) in items.iter().zip(es.iter()) {
        let obj = item.as_object().unwrap();
        assert_eq!(obj.len(), 4);
        assert_eq!(obj["name"].as_str().unwrap(), e.name);
        assert_eq!(obj["e_type"].as_str().unwrap(), e.e_type.name());
        assert_eq!(obj["len_bytes"].as_u64().unwrap(), e.len_bytes);
        assert_eq!(obj["modified"].as_str().unwrap(), e.modified);
    }
}

#[test]
fn entry_cells_in_column_order() {
    let e = entry("a", EntryType::Dir, 1024, "Thu Jan  1 1970");
    assert_eq!(entry_cells(&e), vec!["a", "Dir", "1024", "Thu Jan  1 1970"]);
}

#[test]
fn table_rows_header_first() {
    let es = vec![entry("a", EntryType::File, 1, ""), entry("b", EntryType::Dir, 2, "")];
    let rows = table_rows(&es);
    assert_eq!(rows.len(), 3);
    assert_eq!(rows[0], vec!["Name", "Type", "Size", "Modified"]);
    assert_eq!(rows[1], vec!["a", "File", "1", ""]);
    assert_eq!(rows[2], vec!["b", "Dir", "2", ""]);
}

#[test]
fn empty_listing_as_table() {
    assert_eq!(table_rows(&Vec::new()), vec![vec!["Name", "Type", "Size", "Modified"]]);
    let text = display_table(&Vec::new());
    let lines: Vec<&str> = text.lines().collect();
    assert_eq!(lines.len(), 3);
    assert!(lines[0].starts_with('╭'));
    for title in ["Name", "Type", "Size", "Modified"] {
        assert!(lines[1].contains(title));
    }
    assert!(!lines[0].chars().any(|c| c.is_alphanumeric()));
    assert!(!lines[2].chars().any(|c| c.is_alphanumeric()));
}

#[test]
fn table_has_a_row_per_record() {
    let es = vec![
        entry("alpha", EntryType::File, 12345, "Tue Nov 14 2023"),
        entry("beta", EntryType::Dir, 4096, ""),
    ];
    let text = display_table(&es);
    assert_eq!(text.lines().count(), 6);
    for cell in ["alpha", "12345", "Tue Nov 14 2023", "beta", "Dir", "4096"] {
        assert!(text.contains(cell), "{cell}");
    }
}

#[test]
fn json_flag_selects_exactly_one_form() {
    let es = vec![entry("a", EntryType::File, 1, "")];
    let json = render(&es, true);
    assert_eq!(json, entries_json(&es));
    assert!(!json.contains('╭'));
    let table = render(&es, false);
    assert_eq!(table, display_table(&es));
    assert!(table.contains('╭'));
    assert!(!table.contains("\"e_type\""));
}

#[test]
fn missing_path_reports_only_a_notice() {
    match plan(PathCheck::Absent) {
        Plan::Report(m) => assert_eq!(m, "\u{1b}[31mPath does not exist.\u{1b}[39m"),
        Plan::Collect => panic!("a missing path must not be listed"),
    }
}

#[test]
fn failed_check_reports_only_a_notice() {
    match plan(PathCheck::Failed) {
        Plan::Report(m) => assert_eq!(m, "\u{1b}[31mError reading directory.\u{1b}[39m"),
        Plan::Collect => panic!("an unchecked path must not be listed"),
    }
}

#[test]
fn present_path_is_listed() {
    assert!(matches!(plan(PathCheck::Present), Plan::Collect));
}
