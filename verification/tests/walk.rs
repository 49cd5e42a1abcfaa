use kagirfilelists::path::PathSegments;
use kagirfilelists::record::{Entry, ScanError};
use kagirfilelists::walk::{report_file_as_csv, Notice, Walker};
use kagirfilelists::{FileInfo, FileMeta};

const HASH: &str = "ba7816bf8f01cfea414140de5dae2223b00361a396177a9cb410ff61f20015ad";

fn path(parts: &[&str]) -> PathSegments {
    PathSegments::new(parts.iter().map(|s| s.to_string()).collect())
}

fn file(parts: &[&str]) -> Entry {
    Entry::File {
        path: path(parts),
        meta: Ok(FileMeta::from_metadata(3, Ok(10), Ok(20), Ok(30))),
        sha256: Ok(HASH.to_string()),
        resolved: Ok(path(parts)),
    }
}

fn unreadable_file(parts: &[&str]) -> Entry {
    Entry::File {
        path: path(parts),
        meta: Ok(FileMeta::from_metadata(3, Ok(10), Ok(20), Ok(30))),
        sha256: Err("Permission denied (os error 13)".to_string()),
        resolved: Ok(path(parts)),
    }
}

fn dir(parts: &[&str]) -> Entry {
    Entry::Dir { path: path(parts) }
}

fn row(parts: &[&str], root: &[&str]) -> Vec<u8> {
    let info = FileInfo::from_entry(file(parts)).unwrap();
    let mut bytes = info.csv_line(&Some(path(root)), ",").into_bytes();
    bytes.push(b'\n');
    bytes
}

#[test]
fn report_of_a_file_is_its_line() {
    let root = Some(path(&["/", "r"]));
    let bytes = report_file_as_csv(file(&["/", "r", "a.txt"]), &root, ",").unwrap();
    assert_eq!(
        String::from_utf8(bytes).unwrap(),
        format!("\"a.txt\",\"a.txt\",\"3\",\"10\",\"20\",\"30\",\"{HASH}\",\"r\",\"/\",\"/r/a.txt\"\n")
    );
}

#[test]
fn report_of_a_directory_is_an_error() {
    let root = Some(path(&["/", "r"]));
    assert!(matches!(
        report_file_as_csv(dir(&["/", "r", "sub"]), &root, ","),
        Err(ScanError::IsADirectory)
    ));
}

#[test]
fn walk_header_is_the_header_line() {
    let (_walker, header) = Walker::start(path(&["/", "r"]), ";");
    let mut expected = FileInfo::header(";").into_bytes();
    expected.push(b'\n');
    assert_eq!(header, expected);
}

#[test]
fn walk_starts_with_its_root() {
    let (mut walker, _header) = Walker::start(path(&["/", "r"]), ",");
    assert_eq!(walker.next_dir().unwrap().to_text(), "/r");
    assert!(walker.next_dir().is_none());
    assert!(walker.next_dir().is_none());
    assert!(walker.finish().is_ok());
}

#[test]
fn files_come_before_subdirectories() {
    // root/{a.txt, sub/{b.txt}}
    let (mut walker, mut stream) = Walker::start(path(&["/", "root"]), ",");
    assert_eq!(walker.next_dir().unwrap().to_text(), "/root");
    // The listing names the directory first; its file's row still comes first.
    let report = walker.absorb(vec![dir(&["/", "root", "sub"]), file(&["/", "root", "a.txt"])]);
    assert_eq!(report.rows.len(), 1);
    stream.extend_from_slice(&report.bytes());
    assert_eq!(walker.next_dir().unwrap().to_text(), "/root/sub");
    let report = walker.absorb(vec![file(&["/", "root", "sub", "b.txt"])]);
    stream.extend_from_slice(&report.bytes());
    assert!(walker.next_dir().is_none());
    assert!(walker.finish().is_ok());

    let text = String::from_utf8(stream).unwrap();
    let lines: Vec<&str> = text.lines().collect();
    assert_eq!(lines.len(), 3);
    assert_eq!(lines[0], FileInfo::header(","));
    assert!(lines[1].starts_with("\"a.txt\",\"a.txt\","));
    assert!(lines[2].starts_with("\"sub/b.txt\",\"b.txt\","));
}

#[test]
fn subdirectories_are_visited_in_listing_order_and_depth_first() {
    let (mut walker, _header) = Walker::start(path(&["/", "r"]), ",");
    assert_eq!(walker.next_dir().unwrap().to_text(), "/r");
    walker.absorb(vec![dir(&["/", "r", "x"]), dir(&["/", "r", "y"]), dir(&["/", "r", "z"])]);
    assert_eq!(walker.next_dir().unwrap().to_text(), "/r/x");
    walker.absorb(vec![dir(&["/", "r", "x", "x1"]), dir(&["/", "r", "x", "x2"])]);
    assert_eq!(walker.next_dir().unwrap().to_text(), "/r/x/x1");
    walker.absorb(vec![]);
    assert_eq!(walker.next_dir().unwrap().to_text(), "/r/x/x2");
    walker.absorb(vec![]);
    assert_eq!(walker.next_dir().unwrap().to_text(), "/r/y");
    walker.absorb(vec![]);
    assert_eq!(walker.next_dir().unwrap().to_text(), "/r/z");
    walker.absorb(vec![]);
    assert!(walker.next_dir().is_none());
}

#[test]
fn only_regular_files_give_one_row_each() {
    let (mut walker, _header) = Walker::start(path(&["/", "r"]), ",");
    walker.next_dir();
    let names = ["a", "b", "c", "d", "e"];
    let listing: Vec<Entry> = names.iter().map(|n| file(&["/", "r", n])).collect();
    let report = walker.absorb(listing);
    assert_eq!(report.rows.len(), names.len());
    assert!(report.failures.is_empty());
    assert!(report.notices.is_empty());
    for (i, n) in names.iter().enumerate() {
        assert_eq!(report.rows[i], row(&["/", "r", n], &["/", "r"]));
    }
    assert!(walker.next_dir().is_none());
    assert!(walker.finish().is_ok());
}

#[test]
fn one_unreadable_file_costs_one_row() {
    let (mut walker, _header) = Walker::start(path(&["/", "r"]), ",");
    walker.next_dir();
    let report = walker.absorb(vec![
        file(&["/", "r", "a"]),
        unreadable_file(&["/", "r", "b"]),
        file(&["/", "r", "c"]),
        file(&["/", "r", "d"]),
    ]);
    assert_eq!(report.rows.len(), 3);
    assert_eq!(report.rows[0], row(&["/", "r", "a"], &["/", "r"]));
    assert_eq!(report.rows[1], row(&["/", "r", "c"], &["/", "r"]));
    assert_eq!(report.rows[2], row(&["/", "r", "d"], &["/", "r"]));
    assert_eq!(report.failures.len(), 1);
    assert_eq!(report.failures[0].path.to_text(), "/r/b");
    assert_eq!(report.failures[0].error.message(), "Permission denied (os error 13)");
    assert!(report.notices.is_empty());
    match walker.finish() {
        Err(failures) => {
            assert_eq!(failures.len(), 1);
            assert_eq!(failures[0].path.to_text(), "/r/b");
            assert!(matches!(failures[0].error, ScanError::Io(_)));
        }
        Ok(()) => panic!("the failure was lost"),
    }
}

#[test]
fn failures_of_all_directories_are_kept() {
    let (mut walker, _header) = Walker::start(path(&["/", "r"]), ",");
    walker.next_dir();
    walker.absorb(vec![unreadable_file(&["/", "r", "a"]), dir(&["/", "r", "s"])]);
    walker.next_dir();
    let report = walker.absorb(vec![unreadable_file(&["/", "r", "s", "b"]), file(&["/", "r", "s", "c"])]);
    assert_eq!(report.failures.len(), 1);
    assert_eq!(report.rows.len(), 1);
    let failures = walker.finish().unwrap_err();
    assert_eq!(failures.len(), 2);
    assert_eq!(failures[0].path.to_text(), "/r/a");
    assert_eq!(failures[1].path.to_text(), "/r/s/b");
}

#[test]
fn symlink_gives_one_warning_and_nothing_else() {
    let (mut walker, _header) = Walker::start(path(&["/", "r"]), ",");
    walker.next_dir();
    let report = walker.absorb(vec![Entry::Other { path: path(&["/", "r", "link"]) }]);
    assert!(report.rows.is_empty());
    assert!(report.failures.is_empty());
    assert_eq!(report.notices.len(), 1);
    match &report.notices[0] {
        Notice::Skipped { path } => assert_eq!(path.to_text(), "/r/link"),
        other => panic!("unexpected: {other:?}"),
    }
    // It is not visited either, and the walk ends without failure.
    assert!(walker.next_dir().is_none());
    assert!(walker.finish().is_ok());
}

#[test]
fn unreadable_listing_items_are_warnings() {
    let (mut walker, _header) = Walker::start(path(&["/", "r"]), ",");
    walker.next_dir();
    let report = walker.absorb(vec![
        Entry::Unreadable { error: "bad entry".to_string() },
        file(&["/", "r", "a"]),
        Entry::Unclassified { path: path(&["/", "r", "q"]), error: "no type".to_string() },
    ]);
    assert_eq!(report.rows.len(), 1);
    assert!(report.failures.is_empty());
    assert_eq!(report.notices.len(), 2);
    assert!(matches!(&report.notices[0], Notice::Unlisted { error } if error == "bad entry"));
    assert!(matches!(
        &report.notices[1],
        Notice::Unclassified { path, error } if path.to_text() == "/r/q" && error == "no type"
    ));
    assert!(walker.finish().is_ok());
}

#[test]
fn empty_listing_gives_nothing() {
    let (mut walker, _header) = Walker::start(path(&["/", "r"]), ",");
    walker.next_dir();
    let report = walker.absorb(vec![]);
    assert!(report.rows.is_empty());
    assert!(report.failures.is_empty());
    assert!(report.notices.is_empty());
    assert!(walker.next_dir().is_none());
}

#[test]
fn report_bytes_are_the_rows_one_after_the_other() {
    let (mut walker, _header) = Walker::start(path(&["/", "r"]), ",");
    walker.next_dir();
    let report = walker.absorb(vec![file(&["/", "r", "a"]), file(&["/", "r", "b"])]);
    let mut expected = row(&["/", "r", "a"], &["/", "r"]);
    expected.extend_from_slice(&row(&["/", "r", "b"], &["/", "r"]));
    assert_eq!(report.bytes(), expected);
    let nothing = walker.absorb(vec![]);
    assert!(nothing.bytes().is_empty());
}
