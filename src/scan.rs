use std::rc::Rc;
use vstd::prelude::*;

use crate::path::{
    extension_spec, file_extension, join_path, lemma_no_dot_no_extension, path_join, str_equal,
};
use crate::vertex::{opt_view, DirectoryVertex, FileVertex, FilesystemVertex};

verus! {

/// What the metadata of a directory entry says it is.
#[derive(Debug, Clone, Copy, PartialEq, Eq, Structural)]
pub enum EntryKind {
    RegularFile,
    Directory,
    /// Neither a regular file nor a directory (a symbolic link, a socket, ...).
    Other,
    /// The entry's metadata could not be read.
    Unreadable,
}

/// One entry of a directory listing, as the operating system reported it.
#[derive(Debug)]
pub struct DirEntryInfo {
    pub name: String,
    pub kind: EntryKind,
}

/// Names of directories that are treated as absent from the tree.
pub open spec fn is_excluded_spec(name: Seq<char>) -> bool {
    name == ".git"@ || name == ".vscode"@ || name == "target"@
}

/// Whether a directory of this name is left out of every subdirectory scan.
pub fn is_excluded_directory(name: &str) -> (r: bool)
    ensures
        r == is_excluded_spec(name@),
{
    str_equal(name, ".git") || str_equal(name, ".vscode") || str_equal(name, "target")
}

/// `f` is the file vertex for the entry `name` of the directory at `dir_path`.
pub open spec fn is_file_vertex_for(f: FileVertex, dir_path: Seq<char>, name: Seq<char>) -> bool {
    &&& f.name@ == name
    &&& opt_view(f.extension) == extension_spec(name)
    &&& f.path@ == path_join(dir_path, name)
}

/// `d` is the directory vertex for the entry `name` of the directory at `dir_path`.
pub open spec fn is_directory_vertex_for(
    d: DirectoryVertex,
    dir_path: Seq<char>,
    name: Seq<char>,
) -> bool {
    &&& d.name@ == name
    &&& d.path@ == path_join(dir_path, name)
}

/// The vertex that the file scan of the directory at `dir_path` yields for
/// `entry`, if any: regular files only.
pub open spec fn yields_file(r: Option<FilesystemVertex>, dir_path: Seq<char>, entry: DirEntryInfo) -> bool {
    if entry.kind == EntryKind::RegularFile {
        r matches Some(FilesystemVertex::File(f)) && is_file_vertex_for(f, dir_path, entry.name@)
    } else {
        r is None
    }
}

/// The vertex that the subdirectory scan of the directory at `dir_path`
/// yields for `entry`, if any: directories whose name is not excluded.
pub open spec fn yields_subdirectory(
    r: Option<FilesystemVertex>,
    dir_path: Seq<char>,
    entry: DirEntryInfo,
) -> bool {
    if entry.kind == EntryKind::Directory && !is_excluded_spec(entry.name@) {
        r matches Some(FilesystemVertex::Directory(d)) && is_directory_vertex_for(
            d,
            dir_path,
            entry.name@,
        )
    } else {
        r is None
    }
}

/// A file that a scan yields has its directory's path, a `/`, and its name
/// as its path; directly inside the root, whose path is empty, the name alone.
pub proof fn lemma_file_path_is_joined(
    r: Option<FilesystemVertex>,
    dir_path: Seq<char>,
    entry: DirEntryInfo,
)
    requires
        yields_file(r, dir_path, entry),
    ensures
        r matches Some(FilesystemVertex::File(f)) ==> (dir_path.len() > 0 ==> f.path@ == dir_path
            + seq!['/'] + f.name@) && (dir_path.len() == 0 ==> f.path@ == f.name@),
{
}

/// A file that a scan yields has no extension when its name holds no `.`.
pub proof fn lemma_file_without_dot_has_no_extension(
    r: Option<FilesystemVertex>,
    dir_path: Seq<char>,
    entry: DirEntryInfo,
)
    requires
        yields_file(r, dir_path, entry),
    ensures
        r matches Some(FilesystemVertex::File(f)) ==> (!f.name@.contains('.')
            ==> f.extension is None),
{
    if let Some(FilesystemVertex::File(f)) = r {
        if !f.name@.contains('.') {
            lemma_no_dot_no_extension(f.name@);
        }
    }
}

/// A subdirectory scan never yields `.git`, `.vscode` or `target`, whatever
/// the listing holds.
pub proof fn lemma_subdirectory_scan_skips_excluded(
    r: Option<FilesystemVertex>,
    dir_path: Seq<char>,
    entry: DirEntryInfo,
)
    requires
        yields_subdirectory(r, dir_path, entry),
    ensures
        r matches Some(FilesystemVertex::Directory(d)) ==> d.name@ != ".git"@ && d.name@
            != ".vscode"@ && d.name@ != "target"@,
{
}

/// The scan of the files directly inside one directory. It knows where the
/// directory lies on disk and turns each listed entry into a file vertex or
/// passes over it.
#[derive(Debug)]
pub struct DirectoryContainsFileIterator {
    origin: Rc<String>,
    directory: DirectoryVertex,
}

impl DirectoryContainsFileIterator {
    pub closed spec fn origin_spec(&self) -> Seq<char> {
        (*self.origin)@
    }

    pub closed spec fn directory_spec(&self) -> DirectoryVertex {
        self.directory
    }

    pub fn new(origin: Rc<String>, directory: &DirectoryVertex) -> (r: Self)
        ensures
            r.origin_spec() == (*origin)@,
            r.directory_spec() == *directory,
    {
        DirectoryContainsFileIterator { origin, directory: directory.clone() }
    }

    /// The directory whose files are listed.
    pub fn directory(&self) -> (r: &DirectoryVertex)
        ensures
            *r == self.directory_spec(),
    {
        &self.directory
    }

    /// Where the directory lies on disk: the origin joined with its path.
    pub fn listing_path(&self) -> (r: String)
        ensures
            r@ == path_join(self.origin_spec(), self.directory_spec().path@),
    {
        join_path(self.origin.as_str(), self.directory.path.as_str())
    }

    /// The vertex for one listed entry: a file vertex for a regular file,
    /// nothing for any other entry.
    pub fn vertex_for_entry(&self, entry: &DirEntryInfo) -> (r: Option<FilesystemVertex>)
        ensures
            yields_file(r, self.directory_spec().path@, *entry),
    {
        match entry.kind {
            EntryKind::RegularFile => {
                let name = entry.name.as_str();
                let extension = file_extension(name);
                let path = join_path(self.directory.path.as_str(), name);
                Some(
                    FilesystemVertex::File(
                        FileVertex { name: name.to_owned(), extension, path },
                    ),
                )
            },
            _ => None,
        }
    }
}

/// The scan of the subdirectories directly inside one directory, leaving out
/// the excluded names.
#[derive(Debug)]
pub struct SubdirectoryIterator {
    origin: Rc<String>,
    directory: DirectoryVertex,
}

impl SubdirectoryIterator {
    pub closed spec fn origin_spec(&self) -> Seq<char> {
        (*self.origin)@
    }

    pub closed spec fn directory_spec(&self) -> DirectoryVertex {
        self.directory
    }

    pub fn new(origin: Rc<String>, directory: &DirectoryVertex) -> (r: Self)
        ensures
            r.origin_spec() == (*origin)@,
            r.directory_spec() == *directory,
    {
        SubdirectoryIterator { origin, directory: directory.clone() }
    }

    /// The directory whose subdirectories are listed.
    pub fn directory(&self) -> (r: &DirectoryVertex)
        ensures
            *r == self.directory_spec(),
    {
        &self.directory
    }

    /// Where the directory lies on disk: the origin joined with its path.
    pub fn listing_path(&self) -> (r: String)
        ensures
            r@ == path_join(self.origin_spec(), self.directory_spec().path@),
    {
        join_path(self.origin.as_str(), self.directory.path.as_str())
    }

    /// The vertex for one listed entry: a directory vertex for a directory
    /// that is not excluded, nothing for any other entry.
    pub fn vertex_for_entry(&self, entry: &DirEntryInfo) -> (r: Option<FilesystemVertex>)
        ensures
            yields_subdirectory(r, self.directory_spec().path@, *entry),
            r matches Some(v) ==> v matches FilesystemVertex::Directory(d) && !is_excluded_spec(
                d.name@,
            ),
    {
        match entry.kind {
            EntryKind::Directory => {
                let name = entry.name.as_str();
                if is_excluded_directory(name) {
                    return None;
                }
                let path = join_path(self.directory.path.as_str(), name);
                Some(FilesystemVertex::Directory(DirectoryVertex { name: name.to_owned(), path }))
            },
            _ => None,
        }
    }
}

} // verus!
