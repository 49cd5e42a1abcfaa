//! The scan of a whole directory tree that is held in memory.

use crate::path::PathSegments;
use crate::record::{append_bytes, build, csv_row, Entry, EntryView};
use crate::walk::{
    dirs_of, entry_harvest, header_row, joined, joined_of_parts, listing_harvest, views,
    views_push, Failure, FailureView, Harvest, Notice, NoticeView, Walker,
};
use vstd::prelude::*;

verus! {

/// A directory as read: its listing, and for each directory of the listing,
/// in the order of the listing, that directory as read.
#[derive(Debug)]
pub struct DirSnapshot {
    listing: Vec<Entry>,
    below: Vec<DirSnapshot>,
}

/// A `DirSnapshot`, as mathematical values.
pub struct DirTree {
    pub listing: Seq<EntryView>,
    pub below: Seq<DirTree>,
}

impl View for DirSnapshot {
    type V = DirTree;

    closed spec fn view(&self) -> DirTree
        decreases self, 1nat,
    {
        DirTree { listing: views(self.listing@), below: trees_of(self.below@) }
    }
}

/// The views of several directories as read.
pub closed spec fn trees_of(dirs: Seq<DirSnapshot>) -> Seq<DirTree>
    decreases dirs, 0nat,
{
    if dirs.len() == 0 {
        Seq::empty()
    } else {
        trees_of(dirs.drop_last()).push(dirs.last()@)
    }
}

/// `trees_of` takes the view of each directory, in order.
proof fn trees_of_is_views(dirs: Seq<DirSnapshot>)
    ensures
        trees_of(dirs) == views(dirs),
    decreases dirs.len(),
{
    if dirs.len() > 0 {
        trees_of_is_views(dirs.drop_last());
        assert(trees_of(dirs) == trees_of(dirs.drop_last()).push(dirs.last()@));
    }
}

/// What a scan of a directory gives: what its own listing gives, and then
/// what each of its directories gives, in the order of the listing.
pub open spec fn tree_harvest(tree: DirTree, root: Option<Seq<Seq<char>>>, sep: Seq<char>) -> Harvest
    decreases tree, 1nat,
{
    listing_harvest(tree.listing, root, sep).followed_by(forest_harvest(tree.below, root, sep))
}

/// What the scans of several directories give, one directory after the
/// other.
pub open spec fn forest_harvest(
    trees: Seq<DirTree>,
    root: Option<Seq<Seq<char>>>,
    sep: Seq<char>,
) -> Harvest
    decreases trees, 0nat,
{
    if trees.len() == 0 {
        Harvest::nothing()
    } else {
        forest_harvest(trees.drop_last(), root, sep).followed_by(
            tree_harvest(trees.last(), root, sep),
        )
    }
}

/// The number of directories in a tree, itself included.
pub open spec fn tree_size(tree: DirTree) -> nat
    decreases tree, 1nat,
{
    1 + forest_size(tree.below)
}

/// The number of directories in several trees.
pub open spec fn forest_size(trees: Seq<DirTree>) -> nat
    decreases trees, 0nat,
{
    if trees.len() == 0 {
        0
    } else {
        forest_size(trees.drop_last()) + tree_size(trees.last())
    }
}

/// The CSV stream of a scan: the header, then the rows.
pub open spec fn scan_csv(tree: DirTree, root: Seq<Seq<char>>, sep: Seq<char>) -> Seq<u8> {
    header_row(sep) + joined(tree_harvest(tree, Some(root), sep).rows)
}

/// A listing in two parts gives what the first part gives and then what the
/// second part gives.
pub proof fn listing_harvest_of_parts(
    first: Seq<EntryView>,
    second: Seq<EntryView>,
    root: Option<Seq<Seq<char>>>,
    sep: Seq<char>,
)
    ensures
        listing_harvest(first + second, root, sep) == listing_harvest(first, root, sep).followed_by(
            listing_harvest(second, root, sep),
        ),
    decreases second.len(),
{
    if second.len() > 0 {
        assert((first + second).drop_last() =~= first + second.drop_last());
        listing_harvest_of_parts(first, second.drop_last(), root, sep);
    }
}

/// Several directories in two groups give what the first group gives and
/// then what the second group gives.
pub proof fn forest_harvest_of_parts(
    first: Seq<DirTree>,
    second: Seq<DirTree>,
    root: Option<Seq<Seq<char>>>,
    sep: Seq<char>,
)
    ensures
        forest_harvest(first + second, root, sep) == forest_harvest(first, root, sep).followed_by(
            forest_harvest(second, root, sep),
        ),
        forest_size(first + second) == forest_size(first) + forest_size(second),
    decreases second.len(),
{
    if second.len() > 0 {
        assert((first + second).drop_last() =~= first + second.drop_last());
        forest_harvest_of_parts(first, second.drop_last(), root, sep);
    }
}

/// One directory alone gives what its tree gives.
proof fn forest_of_one(tree: DirTree, root: Option<Seq<Seq<char>>>, sep: Seq<char>)
    ensures
        forest_harvest(seq![tree], root, sep) == tree_harvest(tree, root, sep),
        forest_size(seq![tree]) == tree_size(tree),
{
    let none = seq![tree].drop_last();
    assert(forest_harvest(none, root, sep) == Harvest::nothing());
    assert(forest_size(none) == 0);
}

/// Turning the order of several directories round does not change how many
/// directories they hold.
proof fn forest_size_of_reverse(trees: Seq<DirTree>)
    ensures
        forest_size(trees.reverse()) == forest_size(trees),
    decreases trees.len(),
{
    if trees.len() > 0 {
        let rest = trees.drop_last();
        assert(trees.reverse() =~= seq![trees.last()] + rest.reverse());
        forest_size_of_reverse(rest);
        forest_harvest_of_parts(seq![trees.last()], rest.reverse(), None, Seq::empty());
        forest_of_one(trees.last(), None, Seq::empty());
    }
}

/// Every entry of a listing is accounted for exactly once: it gives a row, a
/// failure or a warning, or it is a directory to visit.
pub proof fn every_entry_is_accounted_for(
    listing: Seq<EntryView>,
    root: Option<Seq<Seq<char>>>,
    sep: Seq<char>,
)
    ensures
        ({
            let found = listing_harvest(listing, root, sep);
            found.rows.len() + found.failures.len() + found.notices.len() + dirs_of(
                listing,
            ).len() == listing.len()
        }),
    decreases listing.len(),
{
    if listing.len() > 0 {
        every_entry_is_accounted_for(listing.drop_last(), root, sep);
    }
}

/// A listing of regular files that could all be read gives one row for each
/// file, in the order of the listing, and nothing else.
pub proof fn readable_files_give_one_row_each(
    listing: Seq<EntryView>,
    root: Option<Seq<Seq<char>>>,
    sep: Seq<char>,
)
    requires
        forall|i: int| 0 <= i < listing.len() ==> listing[i] is File && build(listing[i]) is Ok,
    ensures
        ({
            let found = listing_harvest(listing, root, sep);
            &&& found.rows.len() == listing.len()
            &&& forall|i: int|
                0 <= i < listing.len() ==> found.rows[i] == csv_row(
                    build(listing[i])->Ok_0,
                    root,
                    sep,
                )
            &&& found.failures.len() == 0
            &&& found.notices.len() == 0
            &&& dirs_of(listing).len() == 0
        }),
    decreases listing.len(),
{
    if listing.len() > 0 {
        readable_files_give_one_row_each(listing.drop_last(), root, sep);
    }
}

/// The stream of a scan is the header followed by the rows and nothing
/// else, so the header is its first line, whatever the tree holds. For a
/// directory that holds only regular files that could be read, the rows are
/// as many as the files.
pub proof fn header_comes_first(tree: DirTree, root: Seq<Seq<char>>, sep: Seq<char>)
    ensures
        ({
            let stream = scan_csv(tree, root, sep);
            let header = header_row(sep);
            &&& header.len() <= stream.len()
            &&& stream.take(header.len() as int) == header
            &&& stream.skip(header.len() as int) == joined(
                tree_harvest(tree, Some(root), sep).rows,
            )
        }),
        (forall|i: int|
            0 <= i < tree.listing.len() ==> tree.listing[i] is File && build(tree.listing[i]) is Ok)
            && tree.below.len() == 0 ==> tree_harvest(tree, Some(root), sep).rows.len()
            == tree.listing.len(),
{
    if (forall|i: int|
        0 <= i < tree.listing.len() ==> tree.listing[i] is File && build(tree.listing[i]) is Ok)
        && tree.below.len() == 0 {
        readable_files_give_one_row_each(tree.listing, Some(root), sep);
    }
}

/// One file that cannot be read among files that can costs one row and
/// gives one failure: the other files still give their rows, in order.
pub proof fn one_failure_costs_one_row(
    listing: Seq<EntryView>,
    failed: int,
    root: Option<Seq<Seq<char>>>,
    sep: Seq<char>,
)
    requires
        0 <= failed < listing.len(),
        forall|i: int| 0 <= i < listing.len() ==> listing[i] is File,
        build(listing[failed]) is Err,
        forall|i: int| 0 <= i < listing.len() && i != failed ==> build(listing[i]) is Ok,
    ensures
        ({
            let found = listing_harvest(listing, root, sep);
            &&& found.rows.len() == listing.len() - 1
            &&& found.failures == seq![
                FailureView {
                    path: listing[failed].path(),
                    error: build(listing[failed])->Err_0,
                },
            ]
            &&& found.notices.len() == 0
            &&& found.rows == listing_harvest(listing.remove(failed), root, sep).rows
        }),
{
    let before = listing.take(failed);
    let after = listing.skip(failed + 1);
    let one = seq![listing[failed]];
    assert(listing =~= before + one + after);
    listing_harvest_of_parts(before + one, after, root, sep);
    listing_harvest_of_parts(before, one, root, sep);
    listing_harvest_of_parts(before, after, root, sep);
    readable_files_give_one_row_each(before, root, sep);
    readable_files_give_one_row_each(after, root, sep);
    assert(listing_harvest(one.drop_last(), root, sep) == Harvest::nothing());
}

/// An entry that is neither a regular file nor a directory (a symbolic link,
/// say) gives one warning, and neither a row nor a failure; in a listing it
/// changes nothing of what the other entries give.
pub proof fn special_entry_gives_one_warning(
    listing: Seq<EntryView>,
    path: Seq<Seq<char>>,
    root: Option<Seq<Seq<char>>>,
    sep: Seq<char>,
)
    ensures
        entry_harvest(EntryView::Other { path }, root, sep) == (Harvest {
            rows: Seq::empty(),
            failures: Seq::empty(),
            notices: seq![NoticeView::Skipped { path }],
        }),
        ({
            let without = listing_harvest(listing, root, sep);
            let with = listing_harvest(listing.push(EntryView::Other { path }), root, sep);
            &&& with.rows == without.rows
            &&& with.failures == without.failures
            &&& with.notices == without.notices.push(NoticeView::Skipped { path })
            &&& dirs_of(listing.push(EntryView::Other { path })) == dirs_of(listing)
        }),
{
    assert(listing.push(EntryView::Other { path }).drop_last() =~= listing);
}

/// Two scans of trees that read the same give the same stream, byte for
/// byte, and the same failures and warnings.
pub proof fn same_tree_same_outcome(
    first: DirTree,
    second: DirTree,
    root: Seq<Seq<char>>,
    sep: Seq<char>,
)
    requires
        first == second,
    ensures
        scan_csv(first, root, sep) == scan_csv(second, root, sep),
        tree_harvest(first, Some(root), sep) == tree_harvest(second, Some(root), sep),
{
}

/// What a listing gives is, but for the order, what the listing without one
/// of its entries gives and what that entry gives.
proof fn harvest_apart(
    listing: Seq<EntryView>,
    at: int,
    root: Option<Seq<Seq<char>>>,
    sep: Seq<char>,
)
    requires
        0 <= at < listing.len(),
    ensures
        listing_harvest(listing, root, sep).rows.to_multiset() == listing_harvest(
            listing.remove(at),
            root,
            sep,
        ).rows.to_multiset().add(entry_harvest(listing[at], root, sep).rows.to_multiset()),
        listing_harvest(listing, root, sep).failures.to_multiset() == listing_harvest(
            listing.remove(at),
            root,
            sep,
        ).failures.to_multiset().add(entry_harvest(listing[at], root, sep).failures.to_multiset()),
{
    let before = listing.take(at);
    let after = listing.skip(at + 1);
    let one = seq![listing[at]];
    assert(listing =~= before + one + after);
    listing_harvest_of_parts(before + one, after, root, sep);
    listing_harvest_of_parts(before, one, root, sep);
    listing_harvest_of_parts(before, after, root, sep);
    assert(listing_harvest(one.drop_last(), root, sep) == Harvest::nothing());
    let a = listing_harvest(before, root, sep);
    let x = entry_harvest(listing[at], root, sep);
    let c = listing_harvest(after, root, sep);
    vstd::seq_lib::lemma_multiset_commutative(a.rows + x.rows, c.rows);
    vstd::seq_lib::lemma_multiset_commutative(a.rows, x.rows);
    vstd::seq_lib::lemma_multiset_commutative(a.rows, c.rows);
    vstd::seq_lib::lemma_multiset_commutative(a.failures + x.failures, c.failures);
    vstd::seq_lib::lemma_multiset_commutative(a.failures, x.failures);
    vstd::seq_lib::lemma_multiset_commutative(a.failures, c.failures);
}

/// The order in which the entries of a directory are handled changes the
/// order of its rows and failures, and nothing else: two listings with the
/// same entries give the same rows and the same failures, each as many times.
pub proof fn rows_do_not_depend_on_order(
    first: Seq<EntryView>,
    second: Seq<EntryView>,
    root: Option<Seq<Seq<char>>>,
    sep: Seq<char>,
)
    requires
        first.to_multiset() == second.to_multiset(),
    ensures
        listing_harvest(first, root, sep).rows.to_multiset() == listing_harvest(
            second,
            root,
            sep,
        ).rows.to_multiset(),
        listing_harvest(first, root, sep).failures.to_multiset() == listing_harvest(
            second,
            root,
            sep,
        ).failures.to_multiset(),
    decreases first.len(),
{
    first.to_multiset_ensures();
    second.to_multiset_ensures();
    if first.len() > 0 {
        let last = first.len() - 1;
        let entry = first[last];
        assert(first.to_multiset().count(entry) > 0);
        let at = choose|at: int| 0 <= at < second.len() && second[at] == entry;
        rows_do_not_depend_on_order(first.remove(last), second.remove(at), root, sep);
        harvest_apart(first, last, root, sep);
        harvest_apart(second, at, root, sep);
    }
}

/// The walk visits directories depth first, in the order of the listings.
///
/// `stack` holds the directories that are still to be listed, the next one
/// last. Taking the next one off, listing it, and putting its directories on
/// the stack in reverse order gives, in the end, what the directories give
/// when each is scanned whole, the next one first: the rows of a directory's
/// files, then everything of its first directory, then of its second, and
/// only then what was on the stack before. The step also makes the work that
/// is left smaller, so the walk ends.
pub proof fn walk_is_depth_first(stack: Seq<DirTree>, root: Option<Seq<Seq<char>>>, sep: Seq<char>)
    requires
        stack.len() > 0,
    ensures
        forest_harvest(stack.reverse(), root, sep) == listing_harvest(
            stack.last().listing,
            root,
            sep,
        ).followed_by(
            forest_harvest(
                (stack.drop_last() + stack.last().below.reverse()).reverse(),
                root,
                sep,
            ),
        ),
        forest_size(stack.drop_last() + stack.last().below.reverse()) < forest_size(stack),
{
    let top = stack.last();
    let rest = stack.drop_last();
    let next = rest + top.below.reverse();
    assert(stack.reverse() =~= seq![top] + rest.reverse());
    assert(next.reverse() =~= top.below + rest.reverse());
    forest_harvest_of_parts(seq![top], rest.reverse(), root, sep);
    forest_of_one(top, root, sep);
    forest_harvest_of_parts(top.below, rest.reverse(), root, sep);
    forest_harvest_of_parts(rest, top.below.reverse(), root, sep);
    forest_size_of_reverse(top.below);
}

/// The outcome of a scan: the CSV stream, the files that gave no row, and
/// what was passed over with a warning. Rows and failures stand side by
/// side: a scan with failures still holds every row that could be rendered.
#[derive(Debug)]
pub struct ScanOutcome {
    pub csv: Vec<u8>,
    pub failures: Vec<Failure>,
    pub notices: Vec<Notice>,
}

/// The tree of a directory with an empty listing.
pub open spec fn empty_tree() -> DirTree {
    DirTree { listing: Seq::empty(), below: Seq::empty() }
}

impl DirSnapshot {
    #[verifier::type_invariant]
    spec fn paired(self) -> bool {
        self.below@.len() == dirs_of(views(self.listing@)).len()
    }

    /// The view, field by field.
    proof fn view_unfolded(&self)
        ensures
            self@.listing == views(self.listing@),
            self@.below == views(self.below@),
            self@.below.len() == self.below@.len(),
            forall|i: int| 0 <= i < self.below@.len() ==> self@.below[i] == self.below@[i]@,
    {
        trees_of_is_views(self.below@);
    }

    /// A directory with an empty listing.
    pub fn new() -> (dir: Self)
        ensures
            dir@ == empty_tree(),
    {
        let dir = DirSnapshot { listing: Vec::new(), below: Vec::new() };
        assert(dir@.listing =~= Seq::<EntryView>::empty());
        dir
    }

    /// The directory with one more entry at the end of its listing. An entry
    /// that is a directory comes with an empty listing of its own; use
    /// `with_dir` to give it one.
    pub fn with_entry(self, entry: Entry) -> (dir: Self)
        ensures
            dir@.listing == self@.listing.push(entry@),
            dir@.below == if entry@ is Dir {
                self@.below.push(empty_tree())
            } else {
                self@.below
            },
    {
        proof {
            use_type_invariant(&self);
        }
        let DirSnapshot { mut listing, mut below } = self;
        proof {
            views_push(listing@, entry);
            assert(views(listing@).push(entry@).drop_last() =~= views(listing@));
        }
        let is_dir = match &entry {
            Entry::Dir { .. } => true,
            _ => false,
        };
        listing.push(entry);
        if is_dir {
            below.push(DirSnapshot::new());
        }
        let dir = DirSnapshot { listing, below };
        proof {
            self.view_unfolded();
            dir.view_unfolded();
        }
        dir
    }

    /// The directory with one more entry at the end of its listing: the
    /// directory at `path`, which was read as `content`.
    pub fn with_dir(self, path: PathSegments, content: DirSnapshot) -> (dir: Self)
        ensures
            dir@.listing == self@.listing.push(EntryView::Dir { path: path@ }),
            dir@.below == self@.below.push(content@),
    {
        proof {
            use_type_invariant(&self);
        }
        let DirSnapshot { mut listing, mut below } = self;
        let entry = Entry::Dir { path };
        proof {
            views_push(listing@, entry);
            assert(views(listing@).push(entry@).drop_last() =~= views(listing@));
        }
        listing.push(entry);
        below.push(content);
        let dir = DirSnapshot { listing, below };
        proof {
            self.view_unfolded();
            dir.view_unfolded();
        }
        dir
    }

    /// A copy of the listing.
    pub fn listing(&self) -> (listing: Vec<Entry>)
        ensures
            views(listing@) == self@.listing,
    {
        let mut listing: Vec<Entry> = Vec::new();
        let mut i: usize = 0;
        while i < self.listing.len()
            invariant
                i <= self.listing@.len(),
                listing@.len() == i,
                views(listing@) == views(self.listing@).take(i as int),
            decreases self.listing@.len() - i,
        {
            let entry = self.listing[i].duplicate();
            listing.push(entry);
            i = i + 1;
        }
        listing
    }

    /// Scans the tree: walks it from `root`, which is the path of this
    /// directory, and gathers the CSV stream, the failures and the warnings.
    /// The stream starts with the header; then come the rows of this
    /// directory's files, then everything below its first directory, then
    /// below its second, and so on.
    pub fn scan(&self, root: PathSegments, sep: &str) -> (outcome: ScanOutcome)
        ensures
            outcome.csv@ == scan_csv(self@, root@, sep@),
            views(outcome.failures@) == tree_harvest(self@, Some(root@), sep@).failures,
            views(outcome.notices@) == tree_harvest(self@, Some(root@), sep@).notices,
    {
        let ghost base = Some(root@);
        let ghost sep_text = sep@;
        let ghost total = tree_harvest(self@, base, sep_text);
        let (mut walker, mut csv) = Walker::start(root, sep);
        let mut notices: Vec<Notice> = Vec::new();
        let mut stack: Vec<&DirSnapshot> = Vec::new();
        stack.push(self);
        let ghost mut done = Harvest::nothing();
        proof {
            assert(views(stack@).reverse() =~= seq![self@]);
            forest_of_one(self@, base, sep_text);
        }
        loop
            invariant
                walker.root() == root@,
                walker.sep() == sep_text,
                base == Some(root@),
                walker.pending().len() == stack@.len(),
                walker.failures() == done.failures,
                views(notices@) == done.notices,
                csv@ == header_row(sep_text) + joined(done.rows),
                done.followed_by(forest_harvest(views(stack@).reverse(), base, sep_text)) == total,
                total == tree_harvest(self@, base, sep_text),
            ensures
                walker.failures() == total.failures,
                views(notices@) == total.notices,
                csv@ == header_row(sep_text) + joined(total.rows),
            decreases forest_size(views(stack@)),
        {
            let next = walker.next_dir();
            if next.is_none() {
                break;
            }
            let ghost trees = views(stack@);
            let dir = stack.pop().unwrap();
            proof {
                use_type_invariant(dir);
                dir.view_unfolded();
                walk_is_depth_first(trees, base, sep_text);
            }
            let mut report = walker.absorb(dir.listing());
            let ghost found = report@;
            let bytes = report.bytes();
            append_bytes(&mut csv, bytes.as_slice());
            proof {
                joined_of_parts(done.rows, found.rows);
            }
            notices.append(&mut report.notices);
            let mut k: usize = dir.below.len();
            while k > 0
                invariant
                    k <= dir.below@.len(),
                    trees.len() > 0,
                    dir@.below.len() == dir.below@.len(),
                    forall|i: int| 0 <= i < dir.below@.len() ==> dir@.below[i] == dir.below@[i]@,
                    views(stack@) == trees.drop_last() + dir@.below.skip(k as int).reverse(),
                decreases k,
            {
                k = k - 1;
                proof {
                    views_push(stack@, &dir.below[k as int]);
                }
                stack.push(&dir.below[k]);
            }
            proof {
                assert(dir@.below.skip(0) =~= dir@.below);
                done = done.followed_by(found);
            }
        }
        let failures = match walker.finish() {
            Ok(_) => Vec::new(),
            Err(failures) => failures,
        };
        ScanOutcome { csv, failures, notices }
    }
}

} // verus!
