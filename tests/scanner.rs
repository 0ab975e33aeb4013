use files_scanner::category::{category_for_extension, is_target_file, Category};
use files_scanner::config::{get_default_exclude_dirs, Platform};
use files_scanner::filter::{
    is_hidden_entry, keep_entry, lower_all, matches_any_fragment, should_skip_dir, skip_by_rules,
};
use files_scanner::report::{decimal_text, join, summary_text};
use files_scanner::results::{email_profiles, file_record, process_file, FileMeta};
use files_scanner::scan::ScanResults;
use files_scanner::text::{chars_of, contains_chars};

fn strings(items: &[&str]) -> Vec<String> {
    items.iter().map(|s| s.to_string()).collect()
}

fn meta(size: u64) -> FileMeta {
    FileMeta { size, modified: Some("2024-01-02T03:04:05+00:00".to_string()), created: None }
}

fn counts(r: &ScanResults) -> Vec<usize> {
    r.category_counts().into_iter().map(|(_, n)| n).collect()
}

#[test]
fn csv_extension_any_case() {
    assert_eq!(is_target_file("/data/a.csv"), Some(Category::Csv));
    assert_eq!(is_target_file("/data/b.CSV"), Some(Category::Csv));
    assert_eq!(is_target_file("/data/c.CsV"), Some(Category::Csv));
}

#[test]
fn excel_extensions_any_case() {
    for p in ["x.xlsx", "x.xls", "x.xlsm", "x.xlsb", "x.XLSX", "x.Xls", "x.XLSM", "x.xlsB"] {
        assert_eq!(is_target_file(p), Some(Category::Excel), "{}", p);
    }
}

#[test]
fn text_and_json_extensions() {
    for p in ["n.txt", "n.md", "n.log", "n.rtf", "n.TXT", "n.Md"] {
        assert_eq!(is_target_file(p), Some(Category::Text), "{}", p);
    }
    assert_eq!(is_target_file("d/x.json"), Some(Category::Json));
    assert_eq!(is_target_file("d/x.JSON"), Some(Category::Json));
}

#[test]
fn unmatched_extensions_give_none() {
    for p in ["a.pdf", "noext", ".bashrc", "a.csvx", "a.cs", "dir.csv/file", "a.", "a.xlsx.bak"] {
        assert_eq!(is_target_file(p), None, "{}", p);
    }
    assert_eq!(category_for_extension(""), None);
    assert_eq!(category_for_extension("jsonl"), None);
    assert_eq!(category_for_extension("RtF"), Some(Category::Text));
}

#[test]
fn extension_is_taken_from_the_last_dot() {
    assert_eq!(is_target_file("/home/u/report.2024.csv"), Some(Category::Csv));
    assert_eq!(is_target_file("/home/u/.hidden.json"), Some(Category::Json));
}

#[test]
fn category_names() {
    assert_eq!(Category::Csv.name(), "csv");
    assert_eq!(Category::Excel.name(), "excel");
    assert_eq!(Category::Text.name(), "text");
    assert_eq!(Category::Json.name(), "json");
}

#[test]
fn substring_search() {
    let hay = chars_of("/home/user/node_modules/x");
    assert!(contains_chars(&hay, &chars_of("node_modules")));
    assert!(contains_chars(&hay, &chars_of("")));
    assert!(contains_chars(&hay, &chars_of("/x")));
    assert!(!contains_chars(&hay, &chars_of("modules/y")));
    assert!(!contains_chars(&chars_of("ab"), &chars_of("abc")));
    assert_eq!(chars_of("héllo"), vec!['h', 'é', 'l', 'l', 'o']);
}

#[test]
fn hidden_names() {
    assert!(is_hidden_entry(".git"));
    assert!(is_hidden_entry("."));
    assert!(!is_hidden_entry("git."));
    assert!(!is_hidden_entry(""));
}

#[test]
fn hidden_directory_is_skipped() {
    assert!(should_skip_dir("/home/u/.git", &[]));
    assert!(should_skip_dir("/home/u/.cache", &strings(&["zzz"])));
    assert!(!should_skip_dir("/home/u/docs", &[]));
}

#[test]
fn hidden_root_is_kept() {
    assert!(keep_entry(true, "/home/u/.config", &[]));
    assert!(!keep_entry(false, "/home/u/.config", &[]));
    assert!(keep_entry(true, "/home/u/cache", &strings(&["cache"])));
    assert!(!keep_entry(false, "/home/u/cache", &strings(&["cache"])));
}

#[test]
fn exclusion_is_case_insensitive_substring() {
    let ex = strings(&["AppData", "env"]);
    assert!(should_skip_dir("C:\\Users\\u\\appdata", &ex));
    assert!(should_skip_dir("/home/u/APPDATA/Local", &ex));
    assert!(should_skip_dir("/home/u/environment", &ex));
    assert!(should_skip_dir("/home/u/Endeavour/x.csv", &strings(&["ENDEAV"])));
    assert!(!should_skip_dir("/home/u/documents", &ex));
}

#[test]
fn nested_path_under_excluded_directory_is_skipped() {
    let ex = strings(&["node_modules"]);
    assert!(should_skip_dir("/p/node_modules/pkg/data.json", &ex));
    assert!(!keep_entry(false, "/p/node_modules/pkg/data.json", &ex));
}

#[test]
fn rules_on_lowered_values() {
    let lowered = lower_all(&strings(&["TMP", "Cache"]));
    assert_eq!(lowered, strings(&["tmp", "cache"]));
    assert!(skip_by_rules("x", "/a/tmp/x", &lowered));
    assert!(skip_by_rules(".x", "/a/b/.x", &lowered));
    assert!(!skip_by_rules("x", "/a/b/x", &lowered));
    assert!(matches_any_fragment("/a/cache", &lowered));
    assert!(!matches_any_fragment("/a/b", &lowered));
}

#[test]
fn record_marks_missing_times_unknown() {
    let info = file_record("/d/a.csv", meta(42));
    assert_eq!(info.path, "/d/a.csv");
    assert_eq!(info.size, 42);
    assert_eq!(info.modified, "2024-01-02T03:04:05+00:00");
    assert_eq!(info.created, "unknown");
    let both = file_record("/d/b.csv", FileMeta { size: 0, modified: None, created: None });
    assert_eq!(both.modified, "unknown");
    assert_eq!(both.created, "unknown");
}

#[test]
fn process_file_outcomes() {
    let (c, info) = process_file("/d/notes.TXT", Some(meta(7))).unwrap();
    assert_eq!(c, Category::Text);
    assert_eq!(info.size, 7);
    assert!(process_file("/d/notes.TXT", None).is_none());
    assert!(process_file("/d/image.png", Some(meta(7))).is_none());
}

#[test]
fn scenario_mixed_root() {
    let root = "/r";
    let ex = strings(&["cache"]);
    // each file with the directories the walk passes on the way to it
    let entries: [&[&str]; 5] = [
        &["/r/a.csv"],
        &["/r/b.CSV"],
        &["/r/notes.txt"],
        &["/r/cache", "/r/cache/x.json"],
        &["/r/.git", "/r/.git/config.json"],
    ];
    let mut results = ScanResults::new();
    assert!(keep_entry(true, root, &ex));
    assert!(!keep_entry(false, "/r/cache", &ex));
    assert!(!keep_entry(false, "/r/.git", &ex));
    for chain in entries {
        if chain.iter().all(|p| keep_entry(false, p, &ex)) {
            results.record_file(chain[chain.len() - 1], Some(meta(1)));
        }
    }
    assert_eq!(results.files(Category::Csv).len(), 2);
    assert_eq!(results.files(Category::Text).len(), 1);
    assert_eq!(results.files(Category::Json).len(), 0);
    assert_eq!(results.files(Category::Excel).len(), 0);
    assert_eq!(results.file_count(), 3);
}

#[test]
fn missing_root_contributes_nothing() {
    let mut total = ScanResults::new();
    total.absorb(ScanResults::new());
    let summary = total.summarize(strings(&["/does/not/exist"]));
    assert_eq!(summary.file_count, 0);
    assert_eq!(summary.scan_dirs, strings(&["/does/not/exist"]));
    assert!(summary.categories.iter().all(|(_, n)| *n == 0));
}

#[test]
fn unreadable_file_is_left_out() {
    let mut results = ScanResults::new();
    assert!(results.record_file("/r/a.csv", Some(meta(3))));
    assert!(!results.record_file("/r/locked.csv", None));
    assert!(results.record_file("/r/b.json", Some(meta(4))));
    assert_eq!(results.file_count(), 2);
    assert_eq!(results.files(Category::Csv).len(), 1);
    assert_eq!(results.files(Category::Csv)[0].path, "/r/a.csv");
    assert_eq!(results.files(Category::Json)[0].size, 4);
}

#[test]
fn merge_order_does_not_change_counts() {
    let paths = ["/r/a.csv", "/r/b.md", "/r/c.json", "/r/d.csv", "/r/e.xls"];
    let mut forward = ScanResults::new();
    for p in paths {
        forward.record_file(p, Some(meta(1)));
    }
    let mut backward = ScanResults::new();
    for p in paths.iter().rev() {
        backward.record_file(p, Some(meta(1)));
    }
    assert_eq!(counts(&forward), counts(&backward));
    assert_eq!(counts(&forward), vec![2, 1, 1, 1, 0]);
    assert_eq!(forward.file_count(), backward.file_count());
}

#[test]
fn count_equals_sum_of_tallies() {
    let mut results = ScanResults::new();
    let (c, info) = process_file("/r/a.xlsb", Some(meta(9))).unwrap();
    results.merge(c, info);
    results.record_file("/r/b.log", Some(meta(2)));
    results.set_email(email_profiles(&strings(&["Outlook", "Work"])));
    let summary = results.summarize(strings(&["/r"]));
    let names: Vec<String> = summary.categories.iter().map(|(n, _)| n.clone()).collect();
    assert_eq!(names, strings(&["csv", "excel", "text", "json", "email"]));
    let sum: usize = summary.categories.iter().map(|(_, n)| *n).sum();
    assert_eq!(summary.file_count, 4);
    assert_eq!(summary.file_count, sum);
}

#[test]
fn absorb_concatenates_partial_results() {
    let mut a = ScanResults::new();
    a.record_file("/r1/a.csv", Some(meta(1)));
    let mut b = ScanResults::new();
    b.record_file("/r2/b.csv", Some(meta(2)));
    b.record_file("/r2/c.txt", Some(meta(3)));
    a.absorb(b);
    assert_eq!(a.file_count(), 3);
    let csv = a.files(Category::Csv);
    assert_eq!(csv.len(), 2);
    assert_eq!(csv[0].path, "/r1/a.csv");
    assert_eq!(csv[1].path, "/r2/b.csv");
}

#[test]
fn replacing_profiles_keeps_count() {
    let mut r = ScanResults::new();
    r.record_file("/r/a.csv", Some(meta(1)));
    r.set_email(email_profiles(&strings(&["A", "B", "C"])));
    assert_eq!(r.file_count(), 4);
    r.set_email(email_profiles(&strings(&["Z"])));
    assert_eq!(r.file_count(), 2);
    assert_eq!(r.email()[0].name, "Z");
    assert!(r.email()[0].folders.is_empty());
}

#[test]
fn default_exclusions_per_platform() {
    let linux = get_default_exclude_dirs(Platform::Linux);
    assert_eq!(linux.len(), 26);
    assert_eq!(linux[0], "Windows");
    assert_eq!(linux[16], ".git");
    assert_eq!(linux[17], "bin");
    assert_eq!(linux[25], "var");
    let mac = get_default_exclude_dirs(Platform::MacOs);
    assert_eq!(&mac[17..], &strings(&["Library", "System"])[..]);
    assert_eq!(get_default_exclude_dirs(Platform::Windows).len(), 17);
    assert_eq!(get_default_exclude_dirs(Platform::Other).len(), 17);
}

#[test]
fn platform_names() {
    assert_eq!(Platform::from_os_name("linux"), Platform::Linux);
    assert_eq!(Platform::from_os_name("macos"), Platform::MacOs);
    assert_eq!(Platform::from_os_name("windows"), Platform::Windows);
    assert_eq!(Platform::from_os_name("freebsd"), Platform::Other);
    assert_eq!(Platform::from_os_name("Linux"), Platform::Other);
}

#[test]
fn decimal_numbers() {
    assert_eq!(decimal_text(0), "0");
    assert_eq!(decimal_text(7), "7");
    assert_eq!(decimal_text(10), "10");
    assert_eq!(decimal_text(1234567890), "1234567890");
    assert_eq!(decimal_text(usize::MAX), usize::MAX.to_string());
}

#[test]
fn joining_roots() {
    assert_eq!(join(&[], ", "), "");
    assert_eq!(join(&strings(&["/home"]), ", "), "/home");
    assert_eq!(join(&strings(&["C:\\", "D:\\", "E:\\"]), ", "), "C:\\, D:\\, E:\\");
}

#[test]
fn digest_text() {
    let tallies = vec![("csv".to_string(), 2), ("email".to_string(), 0)];
    let text = summary_text(
        "2024-05-01T10:00:00+02:00",
        "linux",
        &strings(&["/home", "/data"]),
        2,
        &tallies,
        "/out/scan_results_20240501_100000.json",
    );
    let expected = "File Scanner Summary\n==================\n\n\
Scan completed: 2024-05-01T10:00:00+02:00\n\
Platform: linux\n\
Directories scanned: /home, /data\n\
Total files found: 2\n\n\
Files by category:\n  - csv: 2\n  - email: 0\n\
\nFull results saved to: /out/scan_results_20240501_100000.json\n";
    assert_eq!(text, expected);
}
