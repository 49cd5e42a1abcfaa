use kagirfilelists::path::PathSegments;
use kagirfilelists::record::Entry;
use kagirfilelists::scan::DirSnapshot;
use kagirfilelists::walk::Notice;
use kagirfilelists::{FileInfo, FileMeta};

const HASH: &str = "ba7816bf8f01cfea414140de5dae2223b00361a396177a9cb410ff61f20015ad";

fn path(parts: &[&str]) -> PathSegments {
    PathSegments::new(parts.iter().map(|s| s.to_string()).collect())
}

fn file(parts: &[&str]) -> Entry {
    Entry::File {
        path: path(parts),
        meta: Ok(FileMeta::from_metadata(3, Ok(10), Err("not available".to_string()), Ok(30))),
        sha256: Ok(HASH.to_string()),
        resolved: Ok(path(parts)),
    }
}

fn unreadable_file(parts: &[&str]) -> Entry {
    Entry::File {
        path: path(parts),
        meta: Err("Permission denied (os error 13)".to_string()),
        sha256: Err("Permission denied (os error 13)".to_string()),
        resolved: Ok(path(parts)),
    }
}

fn lines(csv: &[u8]) -> Vec<String> {
    String::from_utf8(csv.to_vec()).unwrap().lines().map(|l| l.to_string()).collect()
}

fn small_tree() -> DirSnapshot {
    // root/{a.txt, sub/{b.txt}}
    let sub = DirSnapshot::new().with_entry(file(&["/", "root", "sub", "b.txt"]));
    DirSnapshot::new()
        .with_dir(path(&["/", "root", "sub"]), sub)
        .with_entry(file(&["/", "root", "a.txt"]))
}

#[test]
fn scan_of_an_empty_directory_is_the_header_alone() {
    let outcome = DirSnapshot::new().scan(path(&["/", "root"]), ",");
    let mut expected = FileInfo::header(",").into_bytes();
    expected.push(b'\n');
    assert_eq!(outcome.csv, expected);
    assert!(outcome.failures.is_empty());
    assert!(outcome.notices.is_empty());
}

#[test]
fn scan_emits_header_then_file_then_file_below() {
    let outcome = small_tree().scan(path(&["/", "root"]), ",");
    let got = lines(&outcome.csv);
    assert_eq!(got.len(), 3);
    assert_eq!(got[0], FileInfo::header(","));
    assert_eq!(
        got[1],
        format!("\"a.txt\",\"a.txt\",\"3\",\"10\",\"\",\"30\",\"{HASH}\",\"root\",\"/\",\"/root/a.txt\"")
    );
    assert_eq!(
        got[2],
        format!(
            "\"sub/b.txt\",\"b.txt\",\"3\",\"10\",\"\",\"30\",\"{HASH}\",\"sub\",\"root\",\"/root/sub/b.txt\""
        )
    );
    assert!(outcome.failures.is_empty());
}

#[test]
fn scanning_twice_gives_the_same_bytes() {
    let tree = small_tree();
    let first = tree.scan(path(&["/", "root"]), ",");
    let second = tree.scan(path(&["/", "root"]), ",");
    assert_eq!(first.csv, second.csv);
    let again = small_tree().scan(path(&["/", "root"]), ",");
    assert_eq!(first.csv, again.csv);
}

#[test]
fn another_order_of_the_listing_gives_the_same_rows() {
    let one = DirSnapshot::new()
        .with_entry(file(&["/", "r", "a"]))
        .with_entry(file(&["/", "r", "b"]))
        .with_entry(file(&["/", "r", "c"]))
        .scan(path(&["/", "r"]), ",");
    let other = DirSnapshot::new()
        .with_entry(file(&["/", "r", "c"]))
        .with_entry(file(&["/", "r", "a"]))
        .with_entry(file(&["/", "r", "b"]))
        .scan(path(&["/", "r"]), ",");
    let mut first = lines(&one.csv);
    let mut second = lines(&other.csv);
    assert_eq!(first[0], second[0]);
    assert_ne!(first, second);
    first.sort();
    second.sort();
    assert_eq!(first, second);
}

#[test]
fn directory_of_regular_files_has_one_line_per_file_after_the_header() {
    let mut tree = DirSnapshot::new();
    for i in 0..7 {
        tree = tree.with_entry(file(&["/", "r", &format!("f{i}")]));
    }
    let outcome = tree.scan(path(&["/", "r"]), ",");
    let got = lines(&outcome.csv);
    assert_eq!(got.len(), 1 + 7);
    assert_eq!(got[0], FileInfo::header(","));
    assert_eq!(got.iter().filter(|l| **l == FileInfo::header(",")).count(), 1);
    for i in 0..7 {
        assert!(got[1 + i].starts_with(&format!("\"f{i}\",\"f{i}\",")));
    }
}

#[test]
fn scan_with_one_unreadable_file_still_emits_the_other_rows() {
    let tree = DirSnapshot::new()
        .with_entry(file(&["/", "r", "a"]))
        .with_entry(file(&["/", "r", "b"]))
        .with_entry(unreadable_file(&["/", "r", "c"]))
        .with_entry(file(&["/", "r", "d"]));
    let outcome = tree.scan(path(&["/", "r"]), ",");
    let got = lines(&outcome.csv);
    assert_eq!(got.len(), 1 + 3);
    assert!(got[1].starts_with("\"a\","));
    assert!(got[2].starts_with("\"b\","));
    assert!(got[3].starts_with("\"d\","));
    assert_eq!(outcome.failures.len(), 1);
    assert_eq!(outcome.failures[0].path.to_text(), "/r/c");
    assert_eq!(outcome.failures[0].error.message(), "Permission denied (os error 13)");
}

#[test]
fn scan_passes_over_a_symlink_with_one_warning() {
    let tree = DirSnapshot::new()
        .with_entry(Entry::Other { path: path(&["/", "r", "link"]) })
        .with_entry(file(&["/", "r", "a"]));
    let outcome = tree.scan(path(&["/", "r"]), ",");
    assert_eq!(lines(&outcome.csv).len(), 2);
    assert!(outcome.failures.is_empty());
    assert_eq!(outcome.notices.len(), 1);
    assert!(matches!(&outcome.notices[0], Notice::Skipped { path } if path.to_text() == "/r/link"));
}

#[test]
fn scan_goes_through_a_deep_tree_depth_first() {
    // r/{1, x/{2, p/{3}, q/{4}}, y/{5}}
    let p = DirSnapshot::new().with_entry(file(&["/", "r", "x", "p", "3"]));
    let q = DirSnapshot::new().with_entry(file(&["/", "r", "x", "q", "4"]));
    let x = DirSnapshot::new()
        .with_dir(path(&["/", "r", "x", "p"]), p)
        .with_entry(file(&["/", "r", "x", "2"]))
        .with_dir(path(&["/", "r", "x", "q"]), q);
    let y = DirSnapshot::new().with_entry(file(&["/", "r", "y", "5"]));
    let r = DirSnapshot::new()
        .with_dir(path(&["/", "r", "x"]), x)
        .with_dir(path(&["/", "r", "y"]), y)
        .with_entry(file(&["/", "r", "1"]));
    let outcome = r.scan(path(&["/", "r"]), ",");
    let got = lines(&outcome.csv);
    let firsts: Vec<&str> = got[1..].iter().map(|l| l.split(',').next().unwrap()).collect();
    assert_eq!(firsts, vec!["\"1\"", "\"x/2\"", "\"x/p/3\"", "\"x/q/4\"", "\"y/5\""]);
}

#[test]
fn a_directory_entry_without_content_is_scanned_as_empty() {
    let tree = DirSnapshot::new()
        .with_entry(Entry::Dir { path: path(&["/", "r", "empty"]) })
        .with_entry(file(&["/", "r", "a"]));
    let outcome = tree.scan(path(&["/", "r"]), ",");
    assert_eq!(lines(&outcome.csv).len(), 2);
    assert_eq!(tree.listing().len(), 2);
}
