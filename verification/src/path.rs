//! Paths as sequences of components.
//!
//! A path is held as the list of its components, in order, the way a
//! directory listing names them: the root `/` (if the path is absolute) is a
//! component of its own, and every other component is one name. All rules on
//! paths (what lies under a root, what the relative path is, which directory
//! is the parent) are rules on whole components.

use crate::conv::ConvToString;
use crate::text::texts;
use vstd::prelude::*;

verus! {

/// The character between two components of a rendered path.
pub const SEPARATOR: char = '/';

/// A path, as its components.
#[derive(Debug)]
pub struct PathSegments {
    parts: Vec<String>,
}

impl View for PathSegments {
    type V = Seq<Seq<char>>;

    /// The components, each as its characters.
    open spec fn view(&self) -> Seq<Seq<char>> {
        texts(self.parts())
    }
}

/// The text of a path: its components in order, with a separator between two
/// neighbours unless the text so far already ends in one (as it does after
/// the root).
pub open spec fn render(path: Seq<Seq<char>>) -> Seq<char>
    decreases path.len(),
{
    if path.len() == 0 {
        Seq::empty()
    } else {
        let head = render(path.drop_last());
        if is_open(head) {
            head + path.last()
        } else {
            head.push(SEPARATOR) + path.last()
        }
    }
}

/// `path` joined onto `base`.
pub open spec fn join(base: Seq<Seq<char>>, path: Seq<Seq<char>>) -> Seq<Seq<char>> {
    base + path
}

/// What is left of `path` below `base`, if `base` is a prefix of it by whole
/// components.
pub open spec fn strip_prefix(path: Seq<Seq<char>>, base: Seq<Seq<char>>) -> Option<
    Seq<Seq<char>>,
> {
    if base.is_prefix_of(path) {
        Some(path.skip(base.len() as int))
    } else {
        None
    }
}

/// The path of an entry relative to a scan root: the entry's path without the
/// root in front where the entry lies under the root, and the entry's path
/// unchanged where it does not or where no root is given.
pub open spec fn relative_path(path: Seq<Seq<char>>, root: Option<Seq<Seq<char>>>) -> Seq<
    Seq<char>,
> {
    match root {
        Some(base) => match strip_prefix(path, base) {
            Some(rest) => rest,
            None => path,
        },
        None => path,
    }
}

/// The last component of a path, or nothing for the empty path.
pub open spec fn last_name(path: Seq<Seq<char>>) -> Seq<char> {
    if path.len() == 0 {
        Seq::empty()
    } else {
        path.last()
    }
}

/// The component `back` places before the end of `path` (1 for the last), if
/// the path is that long.
pub open spec fn name_from_end(path: Seq<Seq<char>>, back: nat) -> Option<Seq<char>> {
    if 1 <= back <= path.len() {
        Some(path[path.len() - back])
    } else {
        None
    }
}

/// The name of the directory that holds the entry at `path`.
pub open spec fn parent_name(path: Seq<Seq<char>>) -> Option<Seq<char>> {
    name_from_end(path, 2)
}

/// The name of the directory above the one that holds the entry at `path`.
pub open spec fn grandparent_name(path: Seq<Seq<char>>) -> Option<Seq<char>> {
    name_from_end(path, 3)
}

impl PathSegments {
    /// The component strings.
    pub closed spec fn parts(&self) -> Seq<String> {
        self.parts@
    }

    /// The path with the given components.
    pub fn new(parts: Vec<String>) -> (p: Self)
        ensures
            p@ == texts(parts@),
    {
        PathSegments { parts }
    }

    /// The number of components.
    pub fn len(&self) -> (n: usize)
        ensures
            n == self@.len(),
    {
        self.parts.len()
    }

    /// The component at `index`.
    pub fn part(&self, index: usize) -> (name: &String)
        requires
            index < self@.len(),
        ensures
            name@ == self@[index as int],
    {
        &self.parts[index]
    }

    /// A copy of the components from `from` on.
    pub fn tail(&self, from: usize) -> (rest: Self)
        requires
            from <= self@.len(),
        ensures
            rest@ == self@.skip(from as int),
    {
        let mut parts: Vec<String> = Vec::new();
        let mut i: usize = from;
        while i < self.parts.len()
            invariant
                from <= i <= self.parts@.len(),
                parts@.len() == i - from,
                texts(parts@) == self@.subrange(from as int, i as int),
            decreases self.parts@.len() - i,
        {
            parts.push(self.parts[i].clone());
            i = i + 1;
        }
        PathSegments { parts }
    }

    /// A copy of the path.
    pub fn duplicate(&self) -> (copy: Self)
        ensures
            copy@ == self@,
    {
        self.tail(0)
    }

    /// Whether `base` is a prefix of the path by whole components.
    pub fn starts_with(&self, base: &PathSegments) -> (yes: bool)
        ensures
            yes == base@.is_prefix_of(self@),
    {
        if base.parts.len() > self.parts.len() {
            return false;
        }
        let mut i: usize = 0;
        while i < base.parts.len()
            invariant
                base.parts@.len() <= self.parts@.len(),
                i <= base.parts@.len(),
                forall|k: int| 0 <= k < i ==> self@[k] == base@[k],
            decreases base.parts@.len() - i,
        {
            if self.parts[i] != base.parts[i] {
                assert(self@.subrange(0, base@.len() as int)[i as int] != base@[i as int]);
                return false;
            }
            i = i + 1;
        }
        true
    }

    /// What is left of the path below `base`; `None` where `base` is not a
    /// prefix of it.
    pub fn strip_prefix(&self, base: &PathSegments) -> (rest: Option<PathSegments>)
        ensures
            rest is Some == base@.is_prefix_of(self@),
            rest matches Some(r) ==> Some(r@) == strip_prefix(self@, base@),
    {
        if self.starts_with(base) {
            Some(self.tail(base.parts.len()))
        } else {
            None
        }
    }

    /// The path relative to `root`: see `relative_path`.
    pub fn relative_to(&self, root: &Option<PathSegments>) -> (rel: PathSegments)
        ensures
            rel@ == relative_path(self@, option_view(*root)),
    {
        match root {
            Some(base) => match self.strip_prefix(base) {
                Some(rest) => rest,
                None => self.duplicate(),
            },
            None => self.duplicate(),
        }
    }

    /// `path` joined onto this path.
    pub fn join(&self, path: &PathSegments) -> (joined: PathSegments)
        ensures
            joined@ == join(self@, path@),
    {
        let mut parts: Vec<String> = self.duplicate().parts;
        let mut i: usize = 0;
        while i < path.parts.len()
            invariant
                i <= path.parts@.len(),
                parts@.len() == self@.len() + i,
                texts(parts@) == self@ + path@.take(i as int),
            decreases path.parts@.len() - i,
        {
            let ghost before = texts(parts@);
            parts.push(path.parts[i].clone());
            i = i + 1;
            assert(texts(parts@) =~= before.push(path@[i - 1]));
        }
        PathSegments { parts }
    }

    /// The last component, or the empty string for the empty path.
    pub fn file_name(&self) -> (name: String)
        ensures
            name@ == last_name(self@),
    {
        let n: usize = self.parts.len();
        if n == 0 {
            String::new()
        } else {
            self.parts[n - 1].clone()
        }
    }

    /// The component `back` places before the end (1 for the last), if the
    /// path is that long.
    pub fn name_from_end(&self, back: usize) -> (name: Option<String>)
        ensures
            option_text(name) == name_from_end(self@, back as nat),
    {
        let n: usize = self.parts.len();
        if 1 <= back && back <= n {
            Some(self.parts[n - back].clone())
        } else {
            None
        }
    }

    /// The text of the path: see `render`.
    pub fn to_text(&self) -> (s: String)
        ensures
            s@ == render(self@),
    {
        let mut s = String::new();
        let mut open = true;
        let mut i: usize = 0;
        while i < self.parts.len()
            invariant
                i <= self.parts@.len(),
                s@ == render(self@.take(i as int)),
                open == is_open(s@),
            decreases self.parts@.len() - i,
        {
            assert(self@.take(i + 1).drop_last() =~= self@.take(i as int));
            if !open {
                s.append("/");
                proof {
                    reveal_strlit("/");
                }
            }
            let part = self.parts[i].as_str();
            s.append(part);
            open = ends_open(part);
            i = i + 1;
        }
        assert(self@.take(i as int) =~= self@);
        s
    }
}

/// The view of an optional path.
pub open spec fn option_view(path: Option<PathSegments>) -> Option<Seq<Seq<char>>> {
    match path {
        Some(p) => Some(p@),
        None => None,
    }
}

/// The characters of an optional string.
pub open spec fn option_text(name: Option<String>) -> Option<Seq<char>> {
    match name {
        Some(s) => Some(s@),
        None => None,
    }
}

/// Whether a component can follow `text` directly: `text` is empty or ends in
/// the separator.
pub open spec fn is_open(text: Seq<char>) -> bool {
    text.len() == 0 || text.last() == SEPARATOR
}

/// Whether `text` is empty or ends in the separator.
fn ends_open(text: &str) -> (open: bool)
    ensures
        open == is_open(text@),
{
    let n: usize = text.unicode_len();
    if n == 0 {
        true
    } else {
        text.get_char(n - 1) == SEPARATOR
    }
}

impl<'a> ConvToString for &'a PathSegments {
    open spec fn text(self) -> Seq<char> {
        render(self@)
    }

    fn conv_to_string(self) -> (s: String) {
        self.to_text()
    }
}

/// A path that lies under a root is the root joined with its relative path,
/// and a path that does not lie under the root is its own relative path.
pub proof fn relative_path_rejoins(path: Seq<Seq<char>>, root: Seq<Seq<char>>)
    ensures
        root.is_prefix_of(path) ==> join(root, relative_path(path, Some(root))) == path,
        !root.is_prefix_of(path) ==> relative_path(path, Some(root)) == path,
        relative_path(path, None) == path,
{
    if root.is_prefix_of(path) {
    }
}

/// Joining a path onto a root and taking the relative path gives the path
/// back.
pub proof fn relative_path_of_joined(root: Seq<Seq<char>>, rest: Seq<Seq<char>>)
    ensures
        root.is_prefix_of(join(root, rest)),
        relative_path(join(root, rest), Some(root)) == rest,
{
    let whole = root + rest;
}

} // verus!
