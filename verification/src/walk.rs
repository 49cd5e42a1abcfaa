//! The walk over a directory tree.
//!
//! The walk keeps a list of the directories that still have to be listed.
//! The caller takes the next directory from it, lists that directory, reads
//! what it needs of each entry, and hands the listing back; the walk turns
//! the listing into rows, failures and warnings and notes the directories
//! found in it. The rows of a directory's files come before anything of its
//! subdirectories, and the subdirectories are visited in the order in which
//! they were listed.

use crate::path::PathSegments;
use crate::record::{
    append_bytes, build, csv_row, header_line, Entry, EntryView, FileInfo, ScanError,
    ScanErrorView, LINE_END,
};
use vstd::prelude::*;

verus! {

/// The views of the items of `items`.
pub open spec fn views<T: View>(items: Seq<T>) -> Seq<T::V> {
    Seq::new(items.len(), |i: int| items[i]@)
}

/// The views of a sequence with one more item are the views of the sequence
/// and the view of that item.
pub proof fn views_push<T: View>(items: Seq<T>, item: T)
    ensures
        views(items.push(item)) == views(items).push(item@),
{
}

/// A file that gave no row, and why.
#[derive(Debug)]
pub struct Failure {
    pub path: PathSegments,
    pub error: ScanError,
}

/// A `Failure`, as mathematical values.
pub struct FailureView {
    pub path: Seq<Seq<char>>,
    pub error: ScanErrorView,
}

impl View for Failure {
    type V = FailureView;

    open spec fn view(&self) -> FailureView {
        FailureView { path: self.path@, error: self.error@ }
    }
}

/// Something that the walk passes over with a warning. None of these is a
/// failure of the scan.
#[derive(Debug)]
pub enum Notice {
    /// An entry that is neither a regular file nor a directory.
    Skipped { path: PathSegments },
    /// An entry whose kind could not be read.
    Unclassified { path: PathSegments, error: String },
    /// An item of a listing that could not be read.
    Unlisted { error: String },
}

/// A `Notice`, as mathematical values.
pub enum NoticeView {
    Skipped { path: Seq<Seq<char>> },
    Unclassified { path: Seq<Seq<char>>, error: Seq<char> },
    Unlisted { error: Seq<char> },
}

impl View for Notice {
    type V = NoticeView;

    open spec fn view(&self) -> NoticeView {
        match *self {
            Notice::Skipped { path } => NoticeView::Skipped { path: path@ },
            Notice::Unclassified { path, error } => NoticeView::Unclassified {
                path: path@,
                error: error@,
            },
            Notice::Unlisted { error } => NoticeView::Unlisted { error: error@ },
        }
    }
}

/// What entries give: rows (each the bytes of one line), failures and
/// warnings, each in the order in which they arose.
#[verifier::ext_equal]
pub struct Harvest {
    pub rows: Seq<Seq<u8>>,
    pub failures: Seq<FailureView>,
    pub notices: Seq<NoticeView>,
}

impl Harvest {
    /// Nothing.
    pub open spec fn nothing() -> Harvest {
        Harvest { rows: Seq::empty(), failures: Seq::empty(), notices: Seq::empty() }
    }

    /// This harvest, and `later` after it.
    pub open spec fn followed_by(self, later: Harvest) -> Harvest {
        Harvest {
            rows: self.rows + later.rows,
            failures: self.failures + later.failures,
            notices: self.notices + later.notices,
        }
    }
}

/// The row of an entry as written, or why the entry has none.
pub open spec fn entry_row(entry: EntryView, root: Option<Seq<Seq<char>>>, sep: Seq<char>) -> Result<
    Seq<u8>,
    ScanErrorView,
> {
    match build(entry) {
        Ok(info) => Ok(csv_row(info, root, sep)),
        Err(error) => Err(error),
    }
}

/// What one entry of a listing gives. A regular file gives its row, or a
/// failure where its record could not be built. A directory gives nothing
/// here (it is visited later). Any other entry gives one warning, and
/// neither a row nor a failure.
pub open spec fn entry_harvest(entry: EntryView, root: Option<Seq<Seq<char>>>, sep: Seq<char>) -> Harvest {
    match entry {
        EntryView::File { path, .. } => match entry_row(entry, root, sep) {
            Ok(row) => Harvest { rows: seq![row], ..Harvest::nothing() },
            Err(error) => Harvest {
                failures: seq![FailureView { path, error }],
                ..Harvest::nothing()
            },
        },
        EntryView::Dir { .. } => Harvest::nothing(),
        EntryView::Other { path } => Harvest {
            notices: seq![NoticeView::Skipped { path }],
            ..Harvest::nothing()
        },
        EntryView::Unclassified { path, error } => Harvest {
            notices: seq![NoticeView::Unclassified { path, error }],
            ..Harvest::nothing()
        },
        EntryView::Unreadable { error } => Harvest {
            notices: seq![NoticeView::Unlisted { error }],
            ..Harvest::nothing()
        },
    }
}

/// What the entries of one listing give, entry after entry.
pub open spec fn listing_harvest(
    listing: Seq<EntryView>,
    root: Option<Seq<Seq<char>>>,
    sep: Seq<char>,
) -> Harvest
    decreases listing.len(),
{
    if listing.len() == 0 {
        Harvest::nothing()
    } else {
        listing_harvest(listing.drop_last(), root, sep).followed_by(
            entry_harvest(listing.last(), root, sep),
        )
    }
}

/// The directories of a listing, in the order of the listing.
pub open spec fn dirs_of(listing: Seq<EntryView>) -> Seq<Seq<Seq<char>>>
    decreases listing.len(),
{
    if listing.len() == 0 {
        Seq::empty()
    } else {
        match listing.last() {
            EntryView::Dir { path } => dirs_of(listing.drop_last()).push(path),
            _ => dirs_of(listing.drop_last()),
        }
    }
}

/// The header as written: the header line in UTF-8 and a line feed.
pub open spec fn header_row(sep: Seq<char>) -> Seq<u8> {
    vstd::utf8::encode_utf8(header_line(sep)).push(LINE_END)
}

/// What one listing gave.
#[derive(Debug)]
pub struct DirReport {
    /// The rows, each the bytes of one line.
    pub rows: Vec<Vec<u8>>,
    pub failures: Vec<Failure>,
    pub notices: Vec<Notice>,
}

impl View for DirReport {
    type V = Harvest;

    open spec fn view(&self) -> Harvest {
        Harvest {
            rows: views(self.rows@),
            failures: views(self.failures@),
            notices: views(self.notices@),
        }
    }
}

/// The rows, one after the other, as one stream of bytes.
pub open spec fn joined(rows: Seq<Seq<u8>>) -> Seq<u8>
    decreases rows.len(),
{
    if rows.len() == 0 {
        Seq::empty()
    } else {
        joined(rows.drop_last()) + rows.last()
    }
}

/// Rows in two groups are joined group after group.
pub proof fn joined_of_parts(first: Seq<Seq<u8>>, second: Seq<Seq<u8>>)
    ensures
        joined(first + second) == joined(first) + joined(second),
    decreases second.len(),
{
    if second.len() > 0 {
        assert((first + second).drop_last() =~= first + second.drop_last());
        joined_of_parts(first, second.drop_last());
    }
}

impl DirReport {
    /// The rows as they are written: one after the other.
    pub fn bytes(&self) -> (bytes: Vec<u8>)
        ensures
            bytes@ == joined(self@.rows),
    {
        let mut bytes: Vec<u8> = Vec::new();
        let mut i: usize = 0;
        while i < self.rows.len()
            invariant
                i <= self.rows@.len(),
                bytes@ == joined(views(self.rows@).take(i as int)),
            decreases self.rows@.len() - i,
        {
            assert(views(self.rows@).take(i + 1).drop_last() =~= views(self.rows@).take(i as int));
            append_bytes(&mut bytes, self.rows[i].as_slice());
            i = i + 1;
        }
        assert(views(self.rows@).take(i as int) =~= views(self.rows@));
        bytes
    }
}

/// Builds the record of an entry and renders its row, as the bytes of one
/// line.
pub fn report_file_as_csv(f: Entry, root: &Option<PathSegments>, sep: &str) -> (row: Result<
    Vec<u8>,
    ScanError,
>)
    ensures
        row_view(row) == entry_row(f@, crate::path::option_view(*root), sep@),
{
    let mut s: Vec<u8> = Vec::new();
    match FileInfo::from_entry(f) {
        Ok(fil) => {
            fil.write_csvline(&mut s, root, sep);
            Ok(s)
        },
        Err(error) => Err(error),
    }
}

/// The view of the outcome of rendering a row.
pub open spec fn row_view(row: Result<Vec<u8>, ScanError>) -> Result<Seq<u8>, ScanErrorView> {
    match row {
        Ok(bytes) => Ok(bytes@),
        Err(error) => Err(error@),
    }
}

/// A walk in progress.
#[derive(Debug)]
pub struct Walker {
    root: PathSegments,
    sep: String,
    pending: Vec<PathSegments>,
    failures: Vec<Failure>,
}

impl Walker {
    /// The scan root: the directory the walk started from, and the base of
    /// every relative path in the rows.
    pub closed spec fn root(&self) -> Seq<Seq<char>> {
        self.root@
    }

    /// The separator between the fields of a row.
    pub closed spec fn sep(&self) -> Seq<char> {
        self.sep@
    }

    /// The directories that still have to be listed. The last one is the
    /// next.
    pub closed spec fn pending(&self) -> Seq<Seq<Seq<char>>> {
        views(self.pending@)
    }

    /// The failures so far.
    pub closed spec fn failures(&self) -> Seq<FailureView> {
        views(self.failures@)
    }

    /// Starts a walk at `root`. The walk has only its root to list, and the
    /// header, as written, comes with it: a walk gives its header once, here,
    /// before any row.
    pub fn start(root: PathSegments, sep: &str) -> (started: (Self, Vec<u8>))
        ensures
            started.0.root() == root@,
            started.0.sep() == sep@,
            started.0.pending() == seq![root@],
            started.0.failures() == Seq::<FailureView>::empty(),
            started.1@ == header_row(sep@),
    {
        let mut header: Vec<u8> = Vec::new();
        let line = FileInfo::header(sep);
        crate::record::append_line(&mut header, line.as_str());
        let mut pending: Vec<PathSegments> = Vec::new();
        pending.push(root.duplicate());
        let walker = Walker { root, sep: String::from_str(sep), pending, failures: Vec::new() };
        (walker, header)
    }

    /// Takes the next directory to list off the walk, or says that none is
    /// left.
    pub fn next_dir(&mut self) -> (dir: Option<PathSegments>)
        ensures
            final(self).root() == old(self).root(),
            final(self).sep() == old(self).sep(),
            final(self).failures() == old(self).failures(),
            old(self).pending().len() == 0 ==> dir is None && final(self).pending() == old(
                self,
            ).pending(),
            old(self).pending().len() > 0 ==> (dir matches Some(d) && d@ == old(
                self,
            ).pending().last()) && final(self).pending() == old(self).pending().drop_last(),
    {
        self.pending.pop()
    }

    /// Takes the listing of the directory that `next_dir` gave: renders the
    /// rows of its regular files, records the failures, and notes its
    /// directories, so that the first one listed is the next to be visited.
    pub fn absorb(&mut self, listing: Vec<Entry>) -> (report: DirReport)
        ensures
            final(self).root() == old(self).root(),
            final(self).sep() == old(self).sep(),
            report@ == listing_harvest(views(listing@), Some(old(self).root()), old(self).sep()),
            final(self).failures() == old(self).failures() + report@.failures,
            final(self).pending() == old(self).pending() + dirs_of(views(listing@)).reverse(),
    {
        let ghost all = views(listing@);
        let ghost root = Some(self.root());
        let ghost sep = self.sep();
        let base = Some(self.root.duplicate());
        let mut report = DirReport { rows: Vec::new(), failures: Vec::new(), notices: Vec::new() };
        let mut dirs: Vec<PathSegments> = Vec::new();
        for entry in it: listing
            invariant
                views(it.seq()) == all,
                crate::path::option_view(base) == root,
                self.root() == old(self).root(),
                self.sep() == sep,
                self.pending() == old(self).pending(),
                report@ == listing_harvest(all.take(it.index() as int), root, sep),
                self.failures() == old(self).failures() + report@.failures,
                views(dirs@) == dirs_of(all.take(it.index() as int)),
        {
            assert(all.take(it.index() + 1).drop_last() =~= all.take(it.index() as int));
            match entry {
                Entry::File { .. } => {
                    let path = entry.path();
                    match report_file_as_csv(entry, &base, self.sep.as_str()) {
                        Ok(row) => {
                            report.rows.push(row);
                        },
                        Err(error) => {
                            let kept = Failure { path: path.duplicate(), error: error.duplicate() };
                            let told = Failure { path, error };
                            proof {
                                views_push(self.failures@, kept);
                            }
                            report.failures.push(told);
                            self.failures.push(kept);
                        },
                    }
                },
                Entry::Dir { path } => {
                    dirs.push(path);
                },
                Entry::Other { path } => {
                    let notice = Notice::Skipped { path };
                    report.notices.push(notice);
                },
                Entry::Unclassified { path, error } => {
                    let notice = Notice::Unclassified { path, error };
                    report.notices.push(notice);
                },
                Entry::Unreadable { error } => {
                    let notice = Notice::Unlisted { error };
                    report.notices.push(notice);
                },
            }
        }
        assert(all.take(all.len() as int) =~= all);
        let ghost found = views(dirs@);
        while dirs.len() > 0
            invariant
                self.root() == old(self).root(),
                self.sep() == sep,
                self.failures() == old(self).failures() + report@.failures,
                dirs@.len() <= found.len(),
                views(dirs@) == found.take(dirs@.len() as int),
                self.pending() == old(self).pending() + found.skip(dirs@.len() as int).reverse(),
            decreases dirs@.len(),
        {
            let ghost before = dirs@;
            let ghost stack = self.pending@;
            let dir = dirs.pop().unwrap();
            proof {
                views_push(stack, dir);
                assert(views(before)[before.len() - 1] == dir@);
            }
            self.pending.push(dir);
        }
        report
    }

    /// Ends the walk: `Ok` if every regular file gave its row, and the
    /// failures otherwise.
    pub fn finish(self) -> (outcome: Result<(), Vec<Failure>>)
        ensures
            outcome is Ok == (self.failures().len() == 0),
            outcome matches Err(failures) ==> views(failures@) == self.failures(),
    {
        if self.failures.len() == 0 {
            Ok(())
        } else {
            Err(self.failures)
        }
    }
}

} // verus!
