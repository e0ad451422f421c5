use aul2madb::row::{rows_of, LogEntry, RowError, COLUMN_COUNT};
use aul2madb::schema::{
    create_table_sql, header, insert_sql, join, journal_mode, kinds, table_name, ColumnKind,
    TSV_DELIMITER,
};
use aul2madb::text::{decimal_text, ends_with, last_segment};
use aul2madb::time::time_utc;
use aul2madb::tsv::{tsv_header, tsv_lines, tsv_of};
use aul2madb::uuid::{is_uuid_text, render_uuid};

fn entry() -> LogEntry {
    LogEntry {
        time_nanos: 1_642_302_326_434_850_816,
        thread_id: 3523,
        log_type: "Default".to_string(),
        activity_id: 45,
        pid: 112,
        euid: 501,
        process: "/usr/libexec/opendirectoryd".to_string(),
        library: "/usr/lib/system/libsystem_info.dylib".to_string(),
        process_uuid: "B736DF1625F538248E9527A8CEC4991E".to_string(),
        library_uuid: "5f4a1fbcfbf13d0fa8e4ac6c5eb6f8a1".to_string(),
        subsystem: "com.apple.opendirectoryd".to_string(),
        category: "auth".to_string(),
        message: "ODRecordVerifyPassword completed".to_string(),
    }
}

#[test]
fn row_of_an_entry() {
    let row = entry().to_row().unwrap();
    assert_eq!(row.len(), COLUMN_COUNT);
    assert_eq!(
        row,
        vec![
            "",
            "0",
            "0",
            "2022-01-16T03:05:26.434850Z",
            "3523",
            "Default",
            "45",
            "0",
            "112",
            "501",
            "0",
            "opendirectoryd",
            "libsystem_info.dylib",
            "com.apple.opendirectoryd",
            "auth",
            "",
            "",
            "0",
            "5f4a1fbc-fbf1-3d0f-a8e4-ac6c5eb6f8a1",
            "B736DF16-25F5-3824-8E95-27A8CEC4991E",
            "/usr/lib/system/libsystem_info.dylib",
            "/usr/libexec/opendirectoryd",
            "ODRecordVerifyPassword completed",
        ]
    );
}

#[test]
fn row_has_one_value_for_each_column() {
    assert_eq!(entry().to_row().unwrap().len(), header().len());
    assert_eq!(header().len(), 23);
    assert_eq!(kinds().len(), 23);
}

#[test]
fn row_with_empty_fields() {
    let e = LogEntry {
        time_nanos: 0,
        thread_id: 0,
        log_type: String::new(),
        activity_id: 0,
        pid: 0,
        euid: 0,
        process: String::new(),
        library: String::new(),
        process_uuid: String::new(),
        library_uuid: String::new(),
        subsystem: String::new(),
        category: String::new(),
        message: String::new(),
    };
    assert_eq!(
        e.to_row().unwrap(),
        vec![
            "",
            "0",
            "0",
            "1970-01-01T00:00:00.000000Z",
            "0",
            "",
            "0",
            "0",
            "0",
            "0",
            "0",
            "",
            "",
            "",
            "",
            "",
            "",
            "0",
            "",
            "",
            "",
            "",
            "",
        ]
    );
}

#[test]
fn placeholder_columns_do_not_depend_on_the_entry() {
    let a = entry().to_row().unwrap();
    let mut other = entry();
    other.time_nanos = 5;
    other.thread_id = 1;
    other.message = "x".to_string();
    other.process = "p".to_string();
    let b = other.to_row().unwrap();
    for i in [0usize, 1, 2, 7, 10, 15, 16, 17] {
        assert_eq!(a[i], b[i]);
    }
    for i in [0usize, 15, 16] {
        assert_eq!(a[i], "");
    }
    for i in [1usize, 2, 7, 10, 17] {
        assert_eq!(a[i], "0");
    }
}

#[test]
fn assemble_row_takes_the_time_as_given() {
    let row = entry().assemble_row("then".to_string()).unwrap();
    assert_eq!(row[3], "then");
    assert_eq!(row[4], "3523");
    assert_eq!(row.len(), 23);
}

#[test]
fn bad_sender_uuid_is_reported_first() {
    let mut e = entry();
    e.library_uuid = "5f4a".to_string();
    assert_eq!(e.to_row(), Err(RowError::BadSenderUuid));
    e.process_uuid = "zz".to_string();
    assert_eq!(e.to_row(), Err(RowError::BadSenderUuid));
    assert_eq!(e.assemble_row(String::new()), Err(RowError::BadSenderUuid));
}

#[test]
fn bad_process_uuid_is_reported() {
    let mut e = entry();
    e.process_uuid = "B736DF1625F538248E9527A8CEC4991".to_string();
    assert_eq!(e.to_row(), Err(RowError::BadProcessUuid));
    e.library_uuid = String::new();
    assert_eq!(e.to_row(), Err(RowError::BadProcessUuid));
}

#[test]
fn time_is_rfc3339_with_microseconds() {
    assert_eq!(time_utc(0), "1970-01-01T00:00:00.000000Z");
    assert_eq!(time_utc(999), "1970-01-01T00:00:00.000000Z");
    assert_eq!(time_utc(1000), "1970-01-01T00:00:00.000001Z");
    assert_eq!(time_utc(1_674_757_809_453_829_000), "2023-01-26T18:30:09.453829Z");
    assert_eq!(time_utc(1_674_757_809_453_829_999), "2023-01-26T18:30:09.453829Z");
    assert_eq!(time_utc(-1), "1969-12-31T23:59:59.999999Z");
    assert_eq!(time_utc(-1_000_000_000), "1969-12-31T23:59:59.000000Z");
    assert_eq!(time_utc(i64::MAX), "2262-04-11T23:47:16.854775Z");
}

#[test]
fn later_entries_have_later_time_columns() {
    let times = [
        1_642_302_326_434_850_816i64,
        1_642_302_326_434_851_816,
        1_642_302_327_000_000_000,
        1_642_388_726_000_000_000,
        1_674_757_809_453_829_000,
    ];
    let mut previous = String::new();
    for t in times {
        let mut e = entry();
        e.time_nanos = t;
        let row = e.to_row().unwrap();
        assert!(previous < row[3], "{} is not before {}", previous, row[3]);
        previous = row[3].clone();
    }
}

#[test]
fn uuid_is_rendered_in_five_groups() {
    assert_eq!(
        render_uuid("0123456789abcdefABCDEF0123456789"),
        Some("01234567-89ab-cdef-ABCD-EF0123456789".to_string())
    );
    assert_eq!(
        render_uuid("B736DF1625F538248E9527A8CEC4991E"),
        Some("B736DF16-25F5-3824-8E95-27A8CEC4991E".to_string())
    );
    assert_eq!(
        render_uuid("00000000000000000000000000000000"),
        Some("00000000-0000-0000-0000-000000000000".to_string())
    );
}

#[test]
fn empty_uuid_stays_empty() {
    assert_eq!(render_uuid(""), Some(String::new()));
}

#[test]
fn malformed_uuid_has_no_rendering() {
    assert_eq!(render_uuid("B736DF1625F538248E9527A8CEC4991"), None);
    assert_eq!(render_uuid("B736DF1625F538248E9527A8CEC4991E0"), None);
    assert_eq!(render_uuid("B736DF1625F538248E9527A8CEC4991G"), None);
    assert_eq!(render_uuid("B736DF16-25F5-3824-8E95-27A8CEC4991E"), None);
    assert_eq!(render_uuid("B736DF1625F538248E95"), None);
    assert_eq!(render_uuid(" "), None);
    assert_eq!(render_uuid("B736DF1625F538248E9527A8CEC499\u{e9}"), None);
    assert_eq!(render_uuid("\u{ff10}123456789abcdefABCDEF0123456789"), None);
    assert_eq!(render_uuid("/123456789abcdefABCDEF0123456789"), None);
    assert_eq!(render_uuid(":123456789abcdefABCDEF0123456789"), None);
    assert_eq!(render_uuid("@123456789abcdefABCDEF0123456789"), None);
    assert_eq!(render_uuid("`123456789abcdefABCDEF0123456789"), None);
    assert_eq!(render_uuid("g123456789abcdefABCDEF0123456789"), None);
}

#[test]
fn uuid_text_is_recognised() {
    assert!(is_uuid_text("0123456789abcdefABCDEF0123456789"));
    assert!(!is_uuid_text(""));
    assert!(!is_uuid_text("0123456789abcdefABCDEF012345678"));
    assert!(!is_uuid_text("0123456789abcdefABCDEF012345678x"));
}

#[test]
fn decimal_numerals() {
    assert_eq!(decimal_text(0), "0");
    assert_eq!(decimal_text(7), "7");
    assert_eq!(decimal_text(9), "9");
    assert_eq!(decimal_text(10), "10");
    assert_eq!(decimal_text(1234567890), "1234567890");
    assert_eq!(decimal_text(u64::MAX), "18446744073709551615");
    for n in [0u64, 5, 19, 100, 101, 4096, 999_999, u32::MAX as u64] {
        assert_eq!(decimal_text(n), n.to_string());
    }
}

#[test]
fn last_segment_of_a_path() {
    assert_eq!(last_segment("/usr/libexec/opendirectoryd"), "opendirectoryd");
    assert_eq!(last_segment("kernel"), "kernel");
    assert_eq!(last_segment(""), "");
    assert_eq!(last_segment("/"), "");
    assert_eq!(last_segment("/usr/lib/"), "");
    assert_eq!(last_segment("a/b"), "b");
    assert_eq!(last_segment("//x"), "x");
    assert_eq!(last_segment("/Applications/Caf\u{e9}.app/Contents/MacOS/Caf\u{e9}"), "Caf\u{e9}");
    assert_eq!(last_segment("/Applications/\u{65e5}\u{672c}/"), "");
    assert_eq!(last_segment("\u{65e5}\u{672c}"), "\u{65e5}\u{672c}");
    for p in ["/a/b/c", "x", "", "a//", "/System/Library/\u{fc}ber/tool"] {
        assert_eq!(last_segment(p), p.split('/').last().unwrap());
    }
}

#[test]
fn suffix_of_a_text() {
    assert!(ends_with("/cases/system_logs.logarchive", ".logarchive"));
    assert!(ends_with(".logarchive", ".logarchive"));
    assert!(!ends_with("logarchive", ".logarchive"));
    assert!(!ends_with("/cases/system_logs.logarchive/", ".logarchive"));
    assert!(!ends_with("/cases/system_logs.LOGARCHIVE", ".logarchive"));
    assert!(ends_with("anything", ""));
    assert!(ends_with("", ""));
    assert!(!ends_with("", "x"));
    assert!(ends_with("/cases/\u{65e5}\u{672c}.logarchive", ".logarchive"));
    assert!(ends_with("caf\u{e9}", "f\u{e9}"));
    assert!(!ends_with("cafe", "f\u{e9}"));
}

#[test]
fn header_names_the_columns_in_order() {
    assert_eq!(
        header(),
        vec![
            "File",
            "DecompFilePos",
            "ContinuousTime",
            "TimeUtc",
            "Thread",
            "Type",
            "ActivityID",
            "ParentActivityID",
            "ProcessID",
            "EffectiveUID",
            "TTL",
            "ProcessName",
            "SenderName",
            "Subsystem",
            "Category",
            "SignpostName",
            "SignpostInfo",
            "ImageOffset",
            "SenderUUID",
            "ProcessImageUUID",
            "SenderImagePath",
            "ProcessImagePath",
            "Message",
        ]
    );
}

#[test]
fn kinds_of_the_columns() {
    let t = ColumnKind::Text;
    let n = ColumnKind::Integer;
    assert_eq!(
        kinds(),
        vec![t, n, t, t, n, t, n, n, n, n, n, t, t, t, t, t, t, n, t, t, t, t, t]
    );
    assert_eq!(t.sql_name(), "TEXT");
    assert_eq!(n.sql_name(), "INTEGER");
}

#[test]
fn statement_that_creates_the_table() {
    assert_eq!(
        create_table_sql(),
        "CREATE TABLE UnifiedLogs (File TEXT, DecompFilePos INTEGER, ContinuousTime TEXT, \
         TimeUtc TEXT, Thread INTEGER, Type TEXT, ActivityID INTEGER, ParentActivityID INTEGER, \
         ProcessID INTEGER, EffectiveUID INTEGER, TTL INTEGER, ProcessName TEXT, SenderName TEXT, \
         Subsystem TEXT, Category TEXT, SignpostName TEXT, SignpostInfo TEXT, ImageOffset INTEGER, \
         SenderUUID TEXT, ProcessImageUUID TEXT, SenderImagePath TEXT, ProcessImagePath TEXT, \
         Message TEXT);"
    );
}

#[test]
fn statement_that_inserts_a_row() {
    assert_eq!(
        insert_sql(),
        "INSERT INTO UnifiedLogs (File, DecompFilePos, ContinuousTime, TimeUtc, Thread, Type, \
         ActivityID, ParentActivityID, ProcessID, EffectiveUID, TTL, ProcessName, SenderName, \
         Subsystem, Category, SignpostName, SignpostInfo, ImageOffset, SenderUUID, \
         ProcessImageUUID, SenderImagePath, ProcessImagePath, Message) VALUES (?1, ?2, ?3, ?4, \
         ?5, ?6, ?7, ?8, ?9, ?10, ?11, ?12, ?13, ?14, ?15, ?16, ?17, ?18, ?19, ?20, ?21, ?22, \
         ?23);"
    );
}

#[test]
fn table_and_journal_and_delimiter() {
    assert_eq!(table_name(), "UnifiedLogs");
    assert_eq!(journal_mode(), "WAL");
    assert_eq!(TSV_DELIMITER, b'\t');
}

#[test]
fn joining_texts() {
    assert_eq!(join(&vec![], ", "), "");
    assert_eq!(join(&vec!["a".to_string()], ", "), "a");
    assert_eq!(join(&vec!["a".to_string(), "b".to_string(), "".to_string()], "-"), "a-b-");
    assert_eq!(join(&vec!["".to_string(), "".to_string()], ";"), ";");
    assert_eq!(join(&vec!["x".to_string(), "y".to_string()], ""), "xy");
}

fn strings(fields: &[&str]) -> Vec<String> {
    fields.iter().map(|f| f.to_string()).collect()
}

#[test]
fn header_line_of_tab_separated_output() {
    assert_eq!(
        String::from_utf8(tsv_header()).unwrap(),
        "File\tDecompFilePos\tContinuousTime\tTimeUtc\tThread\tType\tActivityID\t\
         ParentActivityID\tProcessID\tEffectiveUID\tTTL\tProcessName\tSenderName\tSubsystem\t\
         Category\tSignpostName\tSignpostInfo\tImageOffset\tSenderUUID\tProcessImageUUID\t\
         SenderImagePath\tProcessImagePath\tMessage\n"
    );
}

#[test]
fn lines_of_tab_separated_values() {
    let rows = vec![strings(&["a", "b", ""]), strings(&["", "1", "x y"])];
    assert_eq!(tsv_lines(&rows), Some(b"a\tb\t\n\t1\tx y\n".to_vec()));
}

#[test]
fn fields_are_quoted_where_necessary() {
    let rows = vec![strings(&["a\tb", "say \"hi\"", "two\nlines", "plain, with comma"])];
    assert_eq!(
        String::from_utf8(tsv_lines(&rows).unwrap()).unwrap(),
        "\"a\tb\"\t\"say \"\"hi\"\"\"\t\"two\nlines\"\tplain, with comma\n"
    );
}

#[test]
fn no_rows_give_no_lines() {
    assert_eq!(tsv_lines(&vec![]), Some(Vec::new()));
    assert_eq!(tsv_of(&vec![]), Ok(Vec::new()));
    assert_eq!(rows_of(&vec![]), Ok(Vec::new()));
}

#[test]
fn ragged_rows_are_refused() {
    assert_eq!(tsv_lines(&vec![strings(&["a", "b"]), strings(&["c"])]), None);
    assert_eq!(tsv_lines(&vec![strings(&["a"]), strings(&["b"]), strings(&["c", "d"])]), None);
    assert_eq!(tsv_lines(&vec![strings(&[]), strings(&["c"])]), None);
}

#[test]
fn rows_of_a_batch() {
    let mut second = entry();
    second.message = "second".to_string();
    second.thread_id = 7;
    let rows = rows_of(&vec![entry(), second]).unwrap();
    assert_eq!(rows.len(), 2);
    assert_eq!(rows[0], entry().to_row().unwrap());
    assert_eq!(rows[1][22], "second");
    assert_eq!(rows[1][4], "7");
}

#[test]
fn batch_with_a_bad_entry_has_no_rows() {
    let mut bad_process = entry();
    bad_process.process_uuid = "12".to_string();
    let mut bad_sender = entry();
    bad_sender.library_uuid = "34".to_string();
    assert_eq!(rows_of(&vec![entry(), bad_process, bad_sender]), Err(RowError::BadProcessUuid));
    let mut bad_process = entry();
    bad_process.process_uuid = "12".to_string();
    let mut bad_sender = entry();
    bad_sender.library_uuid = "34".to_string();
    assert_eq!(tsv_of(&vec![bad_sender, bad_process, entry()]), Err(RowError::BadSenderUuid));
}

#[test]
fn batch_as_tab_separated_lines() {
    let mut second = entry();
    second.message = "tab\there".to_string();
    second.time_nanos = 0;
    let bytes = tsv_of(&vec![entry(), second]).unwrap();
    assert_eq!(
        String::from_utf8(bytes).unwrap(),
        "\t0\t0\t2022-01-16T03:05:26.434850Z\t3523\tDefault\t45\t0\t112\t501\t0\t\
         opendirectoryd\tlibsystem_info.dylib\tcom.apple.opendirectoryd\tauth\t\t\t0\t\
         5f4a1fbc-fbf1-3d0f-a8e4-ac6c5eb6f8a1\tB736DF16-25F5-3824-8E95-27A8CEC4991E\t\
         /usr/lib/system/libsystem_info.dylib\t/usr/libexec/opendirectoryd\t\
         ODRecordVerifyPassword completed\n\
         \t0\t0\t1970-01-01T00:00:00.000000Z\t3523\tDefault\t45\t0\t112\t501\t0\t\
         opendirectoryd\tlibsystem_info.dylib\tcom.apple.opendirectoryd\tauth\t\t\t0\t\
         5f4a1fbc-fbf1-3d0f-a8e4-ac6c5eb6f8a1\tB736DF16-25F5-3824-8E95-27A8CEC4991E\t\
         /usr/lib/system/libsystem_info.dylib\t/usr/libexec/opendirectoryd\t\"tab\there\"\n"
    );
}

#[test]
fn time_text_has_its_shape() {
    for t in [i64::MIN, -1, 0, 1, 1_642_302_326_434_850_816, i64::MAX] {
        let text = time_utc(t);
        let chars: Vec<char> = text.chars().collect();
        assert_eq!(chars.len(), 27, "{}", text);
        for (i, c) in chars.iter().enumerate() {
            match i {
                4 | 7 => assert_eq!(*c, '-'),
                10 => assert_eq!(*c, 'T'),
                13 | 16 => assert_eq!(*c, ':'),
                19 => assert_eq!(*c, '.'),
                26 => assert_eq!(*c, 'Z'),
                _ => assert!(c.is_ascii_digit(), "{}", text),
            }
        }
    }
    assert_eq!(time_utc(i64::MIN), "1677-09-21T00:12:43.145224Z");
}
