//! The record of one file and its row.

use crate::conv::ConvToString;
use crate::path::{
    grandparent_name, last_name, option_text, option_view, parent_name, relative_path, render,
    PathSegments,
};
use crate::text::{decimal, join_quoted, join_quoted_fields, u64_to_decimal};
use vstd::prelude::*;

verus! {

/// Metadata of a file. Each time is in whole seconds since the Unix epoch,
/// and absent where the file system does not report it.
#[derive(Clone, Copy, Debug)]
pub struct FileMeta {
    /// The size of the file in bytes
    pub len: u64,
    pub created: Option<u64>,
    pub last_modified: Option<u64>,
    pub accessed: Option<u64>,
}

/// The time that a read of the file system gave: absent where the read
/// failed.
pub open spec fn time_read(read: Result<u64, String>) -> Option<u64> {
    match read {
        Ok(seconds) => Some(seconds),
        Err(_) => None,
    }
}

impl FileMeta {
    /// The metadata of a file from what the file system gave: the size, and
    /// for each time either its seconds or the failure to read it. A time that
    /// could not be read is absent and leaves the others as they are.
    pub fn from_metadata(
        len: u64,
        created: Result<u64, String>,
        last_modified: Result<u64, String>,
        accessed: Result<u64, String>,
    ) -> (meta: Self)
        ensures
            meta.len == len,
            meta.created == time_read(created),
            meta.last_modified == time_read(last_modified),
            meta.accessed == time_read(accessed),
    {
        FileMeta {
            len,
            created: created.ok(),
            last_modified: last_modified.ok(),
            accessed: accessed.ok(),
        }
    }
}

/// Why an entry gave no record.
#[derive(Debug)]
pub enum ScanError {
    /// The entry is a directory.
    IsADirectory,
    /// The entry is neither a regular file nor a directory.
    NotAFileOrDirectory,
    /// Reading the entry failed; the text is the system's.
    Io(String),
}

/// A `ScanError`, with text as characters.
pub enum ScanErrorView {
    IsADirectory,
    NotAFileOrDirectory,
    Io(Seq<char>),
}

impl View for ScanError {
    type V = ScanErrorView;

    open spec fn view(&self) -> ScanErrorView {
        match *self {
            ScanError::IsADirectory => ScanErrorView::IsADirectory,
            ScanError::NotAFileOrDirectory => ScanErrorView::NotAFileOrDirectory,
            ScanError::Io(text) => ScanErrorView::Io(text@),
        }
    }
}

/// The message of an error.
pub open spec fn error_message(error: ScanErrorView) -> Seq<char> {
    match error {
        ScanErrorView::IsADirectory => "Is a directory"@,
        ScanErrorView::NotAFileOrDirectory => "Not a file or directory"@,
        ScanErrorView::Io(text) => text,
    }
}

impl ScanError {
    /// The message of the error.
    pub fn message(&self) -> (text: String)
        ensures
            text@ == error_message(self@),
    {
        match self {
            ScanError::IsADirectory => String::from_str("Is a directory"),
            ScanError::NotAFileOrDirectory => String::from_str("Not a file or directory"),
            ScanError::Io(text) => text.clone(),
        }
    }

    /// A copy of the error.
    pub fn duplicate(&self) -> (copy: Self)
        ensures
            copy@ == self@,
    {
        match self {
            ScanError::IsADirectory => ScanError::IsADirectory,
            ScanError::NotAFileOrDirectory => ScanError::NotAFileOrDirectory,
            ScanError::Io(text) => ScanError::Io(text.clone()),
        }
    }
}

/// One entry of a directory listing, with what was read for it: its path,
/// its kind as the listing reports it (links are not followed), and for a
/// regular file the outcome of reading its metadata, of hashing its content
/// and of resolving its path. A failed read is held as the system's text.
#[derive(Debug)]
pub enum Entry {
    /// A regular file.
    File {
        path: PathSegments,
        meta: Result<FileMeta, String>,
        sha256: Result<String, String>,
        resolved: Result<PathSegments, String>,
    },
    /// A directory.
    Dir { path: PathSegments },
    /// Anything else: a symbolic link, a device, a socket, a pipe.
    Other { path: PathSegments },
    /// An entry whose kind could not be read.
    Unclassified { path: PathSegments, error: String },
    /// An item of the listing that could not be read at all, so that not even
    /// its path is known.
    Unreadable { error: String },
}

/// An `Entry`, as mathematical values.
pub enum EntryView {
    File {
        path: Seq<Seq<char>>,
        meta: Result<FileMeta, Seq<char>>,
        sha256: Result<Seq<char>, Seq<char>>,
        resolved: Result<Seq<Seq<char>>, Seq<char>>,
    },
    Dir { path: Seq<Seq<char>> },
    Other { path: Seq<Seq<char>> },
    Unclassified { path: Seq<Seq<char>>, error: Seq<char> },
    Unreadable { error: Seq<char> },
}

/// The view of the outcome of resolving a path.
pub open spec fn resolved_view(resolved: Result<PathSegments, String>) -> Result<
    Seq<Seq<char>>,
    Seq<char>,
> {
    match resolved {
        Ok(path) => Ok(path@),
        Err(text) => Err(text@),
    }
}

/// The view of the outcome of reading metadata.
pub open spec fn meta_view(meta: Result<FileMeta, String>) -> Result<FileMeta, Seq<char>> {
    match meta {
        Ok(m) => Ok(m),
        Err(text) => Err(text@),
    }
}

/// The view of the outcome of hashing.
pub open spec fn hash_view(sha256: Result<String, String>) -> Result<Seq<char>, Seq<char>> {
    match sha256 {
        Ok(hex) => Ok(hex@),
        Err(text) => Err(text@),
    }
}

impl View for Entry {
    type V = EntryView;

    open spec fn view(&self) -> EntryView {
        match *self {
            Entry::File { path, meta, sha256, resolved } => EntryView::File {
                path: path@,
                meta: meta_view(meta),
                sha256: hash_view(sha256),
                resolved: resolved_view(resolved),
            },
            Entry::Dir { path } => EntryView::Dir { path: path@ },
            Entry::Other { path } => EntryView::Other { path: path@ },
            Entry::Unclassified { path, error } => EntryView::Unclassified {
                path: path@,
                error: error@,
            },
            Entry::Unreadable { error } => EntryView::Unreadable { error: error@ },
        }
    }
}

impl EntryView {
    /// The path of the entry; the empty path where it is not known.
    pub open spec fn path(self) -> Seq<Seq<char>> {
        match self {
            EntryView::File { path, .. } => path,
            EntryView::Dir { path } => path,
            EntryView::Other { path } => path,
            EntryView::Unclassified { path, .. } => path,
            EntryView::Unreadable { .. } => Seq::empty(),
        }
    }
}

impl Entry {
    /// A copy of the entry.
    pub fn duplicate(&self) -> (copy: Self)
        ensures
            copy@ == self@,
    {
        match self {
            Entry::File { path, meta, sha256, resolved } => Entry::File {
                path: path.duplicate(),
                meta: match meta {
                    Ok(m) => Ok(*m),
                    Err(text) => Err(text.clone()),
                },
                sha256: match sha256 {
                    Ok(hex) => Ok(hex.clone()),
                    Err(text) => Err(text.clone()),
                },
                resolved: match resolved {
                    Ok(p) => Ok(p.duplicate()),
                    Err(text) => Err(text.clone()),
                },
            },
            Entry::Dir { path } => Entry::Dir { path: path.duplicate() },
            Entry::Other { path } => Entry::Other { path: path.duplicate() },
            Entry::Unclassified { path, error } => Entry::Unclassified {
                path: path.duplicate(),
                error: error.clone(),
            },
            Entry::Unreadable { error } => Entry::Unreadable { error: error.clone() },
        }
    }

    /// A copy of the entry's path.
    pub fn path(&self) -> (path: PathSegments)
        ensures
            path@ == self@.path(),
    {
        match self {
            Entry::File { path, .. } => path.duplicate(),
            Entry::Dir { path } => path.duplicate(),
            Entry::Other { path } => path.duplicate(),
            Entry::Unclassified { path, .. } => path.duplicate(),
            Entry::Unreadable { .. } => PathSegments::new(Vec::new()),
        }
    }
}

/// File information: the path as listed, the outcome of resolving it, the
/// metadata and the SHA-256 digest string. It also renders the CSV row.
#[derive(Debug)]
pub struct FileInfo {
    path: PathSegments,
    resolved: Result<PathSegments, String>,
    meta: FileMeta,
    sha256: String,
}

/// A `FileInfo`, as mathematical values.
pub struct FileInfoView {
    pub path: Seq<Seq<char>>,
    pub resolved: Result<Seq<Seq<char>>, Seq<char>>,
    pub meta: FileMeta,
    pub sha256: Seq<char>,
}

impl View for FileInfo {
    type V = FileInfoView;

    closed spec fn view(&self) -> FileInfoView {
        FileInfoView {
            path: self.path@,
            resolved: resolved_view(self.resolved),
            meta: self.meta,
            sha256: self.sha256@,
        }
    }
}

/// The record that an entry gives, or why it gives none. Only a regular file
/// whose metadata and content were both read gives a record; where both
/// failed, the metadata's failure is the one reported.
pub open spec fn build(entry: EntryView) -> Result<FileInfoView, ScanErrorView> {
    match entry {
        EntryView::File { path, meta, sha256, resolved } => match meta {
            Err(text) => Err(ScanErrorView::Io(text)),
            Ok(m) => match sha256 {
                Err(text) => Err(ScanErrorView::Io(text)),
                Ok(hex) => Ok(FileInfoView { path, resolved, meta: m, sha256: hex }),
            },
        },
        EntryView::Dir { .. } => Err(ScanErrorView::IsADirectory),
        EntryView::Other { .. } => Err(ScanErrorView::NotAFileOrDirectory),
        EntryView::Unclassified { error, .. } => Err(ScanErrorView::Io(error)),
        EntryView::Unreadable { error } => Err(ScanErrorView::Io(error)),
    }
}

/// A record exists only for a regular file whose metadata and content were
/// both read, and then it holds exactly what was read: nothing of a record is
/// made up, and no entry gives half a record.
pub proof fn record_only_of_regular_file(entry: EntryView)
    ensures
        build(entry) is Ok <==> (entry matches EntryView::File { meta, sha256, .. } && meta is Ok
            && sha256 is Ok),
        build(entry) matches Ok(info) ==> (entry matches EntryView::File {
            path,
            meta,
            sha256,
            resolved,
        } && info.path == path && meta == Ok::<FileMeta, Seq<char>>(info.meta) && sha256 == Ok::<
            Seq<char>,
            Seq<char>,
        >(info.sha256) && info.resolved == resolved),
{
}

/// The view of the outcome of building a record.
pub open spec fn built_view(built: Result<FileInfo, ScanError>) -> Result<
    FileInfoView,
    ScanErrorView,
> {
    match built {
        Ok(info) => Ok(info@),
        Err(error) => Err(error@),
    }
}

/// The names of the fields of a row, in order.
pub open spec fn header_names() -> Seq<Seq<char>> {
    seq![
        "rel_path"@,
        "file_name"@,
        "size"@,
        "created"@,
        "modified"@,
        "accessed"@,
        "sha256"@,
        "parent_dir"@,
        "parent_parent"@,
        "full_path"@,
    ]
}

/// The header line: the field names, quoted and joined by `sep`.
pub open spec fn header_line(sep: Seq<char>) -> Seq<char> {
    join_quoted(header_names(), sep)
}

/// A time as a field: its seconds in decimal, or nothing where it is absent.
pub open spec fn time_field(time: Option<u64>) -> Seq<char> {
    match time {
        Some(seconds) => decimal(seconds as nat),
        None => Seq::empty(),
    }
}

/// An optional name as a field: the name, or nothing where it is absent.
pub open spec fn name_field(name: Option<Seq<char>>) -> Seq<char> {
    match name {
        Some(text) => text,
        None => Seq::empty(),
    }
}

/// The names of the parent and the grandparent directory, taken from the
/// resolved path; both absent where the path could not be resolved.
pub open spec fn parent_names(resolved: Result<Seq<Seq<char>>, Seq<char>>) -> (
    Option<Seq<char>>,
    Option<Seq<char>>,
) {
    match resolved {
        Ok(path) => (parent_name(path), grandparent_name(path)),
        Err(_) => (None, None),
    }
}

/// The resolved path as a field: its text, or the failure's text where the
/// path could not be resolved.
pub open spec fn full_path_field(resolved: Result<Seq<Seq<char>>, Seq<char>>) -> Seq<char> {
    match resolved {
        Ok(path) => render(path),
        Err(text) => text,
    }
}

/// The fields of a record's row, in the order of `header_names`.
pub open spec fn fields(info: FileInfoView, root: Option<Seq<Seq<char>>>) -> Seq<Seq<char>> {
    seq![
        render(relative_path(info.path, root)),
        last_name(info.path),
        decimal(info.meta.len as nat),
        time_field(info.meta.created),
        time_field(info.meta.last_modified),
        time_field(info.meta.accessed),
        info.sha256,
        name_field(parent_names(info.resolved).0),
        name_field(parent_names(info.resolved).1),
        full_path_field(info.resolved),
    ]
}

/// A row has one field for each name of the header, in the same order.
pub proof fn row_has_a_field_for_each_name(info: FileInfoView, root: Option<Seq<Seq<char>>>)
    ensures
        fields(info, root).len() == header_names().len(),
        header_names().len() == 10,
{
}

/// The row of a record: its fields, quoted and joined by `sep`.
pub open spec fn csv_line(info: FileInfoView, root: Option<Seq<Seq<char>>>, sep: Seq<char>) -> Seq<
    char,
> {
    join_quoted(fields(info, root), sep)
}

/// The byte that ends a row.
pub const LINE_END: u8 = 0x0a;

/// The bytes of a record's row as written: the row in UTF-8 and a line feed.
pub open spec fn csv_row(info: FileInfoView, root: Option<Seq<Seq<char>>>, sep: Seq<char>) -> Seq<
    u8,
> {
    vstd::utf8::encode_utf8(csv_line(info, root, sep)).push(LINE_END)
}

/// Renders an optional time as a field.
fn time_text(time: Option<u64>) -> (text: String)
    ensures
        text@ == time_field(time),
{
    match time {
        Some(seconds) => u64_to_decimal(seconds),
        None => String::new(),
    }
}

/// Renders an optional name as a field.
fn name_text(name: Option<String>) -> (text: String)
    ensures
        text@ == name_field(option_text(name)),
{
    match name {
        Some(text) => text,
        None => String::new(),
    }
}

impl FileInfo {
    /// Builds the record of an entry: see `build`.
    pub fn from_entry(e: Entry) -> (built: Result<Self, ScanError>)
        ensures
            built_view(built) == build(e@),
    {
        match e {
            Entry::File { path, meta, sha256, resolved } => match meta {
                Err(text) => Err(ScanError::Io(text)),
                Ok(m) => match sha256 {
                    Err(text) => Err(ScanError::Io(text)),
                    Ok(hex) => Ok(FileInfo { path, resolved, meta: m, sha256: hex }),
                },
            },
            Entry::Dir { .. } => Err(ScanError::IsADirectory),
            Entry::Other { .. } => Err(ScanError::NotAFileOrDirectory),
            Entry::Unclassified { error, .. } => Err(ScanError::Io(error)),
            Entry::Unreadable { error } => Err(ScanError::Io(error)),
        }
    }

    /// The file's name: the last component of its path.
    pub fn file_name(&self) -> (name: String)
        ensures
            name@ == last_name(self@.path),
    {
        self.path.file_name()
    }

    /// The resolved path, or the text of the failure to resolve it.
    pub fn full_path(&self) -> (resolved: Result<PathSegments, String>)
        ensures
            resolved_view(resolved) == self@.resolved,
    {
        match &self.resolved {
            Ok(path) => Ok(path.duplicate()),
            Err(text) => Err(text.clone()),
        }
    }

    /// The names of the parent and the grandparent directory, in this order.
    pub fn parent_and_parent_parent(&self) -> (names: (Option<String>, Option<String>))
        ensures
            option_text(names.0) == parent_names(self@.resolved).0,
            option_text(names.1) == parent_names(self@.resolved).1,
    {
        match &self.resolved {
            Ok(path) => (path.name_from_end(2), path.name_from_end(3)),
            Err(_) => (None, None),
        }
    }

    /// The header line for the CSV file.
    pub fn header(sep: &str) -> (line: String)
        ensures
            line@ == header_line(sep@),
    {
        let mut names: Vec<String> = Vec::new();
        names.push(String::from_str("rel_path"));
        names.push(String::from_str("file_name"));
        names.push(String::from_str("size"));
        names.push(String::from_str("created"));
        names.push(String::from_str("modified"));
        names.push(String::from_str("accessed"));
        names.push(String::from_str("sha256"));
        names.push(String::from_str("parent_dir"));
        names.push(String::from_str("parent_parent"));
        names.push(String::from_str("full_path"));
        assert(crate::text::texts(names@) =~= header_names());
        join_quoted_fields(&names, sep)
    }

    /// The row of the record, with its path taken relative to
    /// `path_relative_to`.
    pub fn csv_line(&self, path_relative_to: &Option<PathSegments>, sep: &str) -> (line: String)
        ensures
            line@ == csv_line(self@, option_view(*path_relative_to), sep@),
    {
        let mut values: Vec<String> = Vec::new();
        let path = self.path.relative_to(path_relative_to);
        values.push((&path).conv_to_string());
        values.push(self.file_name().conv_to_string());
        values.push(u64_to_decimal(self.meta.len));
        values.push(time_text(self.meta.created));
        values.push(time_text(self.meta.last_modified));
        values.push(time_text(self.meta.accessed));
        values.push(self.sha256.clone());
        let (parent, grandparent) = self.parent_and_parent_parent();
        values.push(name_text(parent));
        values.push(name_text(grandparent));
        values.push(
            match &self.resolved {
                Ok(full_path) => full_path.conv_to_string(),
                Err(text) => text.clone(),
            },
        );
        assert(crate::text::texts(values@) =~= fields(
            self@,
            option_view(*path_relative_to),
        ));
        join_quoted_fields(&values, sep)
    }

    /// Writes the row of the record at the end of `paper`, as a line.
    pub fn write_csvline(
        &self,
        paper: &mut Vec<u8>,
        path_relative_to: &Option<PathSegments>,
        sep: &str,
    )
        ensures
            final(paper)@ == old(paper)@ + csv_row(self@, option_view(*path_relative_to), sep@),
    {
        let line = self.csv_line(path_relative_to, sep);
        append_line(paper, line.as_str());
    }
}

/// Writes `bytes` at the end of `paper`.
pub fn append_bytes(paper: &mut Vec<u8>, bytes: &[u8])
    ensures
        final(paper)@ == old(paper)@ + bytes@,
{
    paper.extend_from_slice(bytes);
}

/// Writes `line` in UTF-8 at the end of `paper`, and a line feed after it.
pub fn append_line(paper: &mut Vec<u8>, line: &str)
    ensures
        final(paper)@ == old(paper)@ + vstd::utf8::encode_utf8(line@).push(LINE_END),
{
    append_bytes(paper, line.as_bytes());
    paper.push(LINE_END);
}

} // verus!
