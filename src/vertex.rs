use vstd::prelude::*;

verus! {

/// A directory of the tree, named `name`, at `path` relative to the root.
#[derive(Debug)]
pub struct DirectoryVertex {
    pub name: String,
    pub path: String,
}

/// A file of the tree. `extension` is absent when the name has none.
#[derive(Debug)]
pub struct FileVertex {
    pub name: String,
    pub extension: Option<String>,
    pub path: String,
}

/// A vertex of the filesystem graph: a directory or a file.
#[derive(Debug)]
pub enum FilesystemVertex {
    Directory(DirectoryVertex),
    File(FileVertex),
}

/// What an optional string holds, as characters.
pub open spec fn opt_view(s: Option<String>) -> Option<Seq<char>> {
    match s {
        Some(t) => Some(t@),
        None => None,
    }
}

impl DirectoryVertex {
    pub open spec fn same_as(&self, o: &DirectoryVertex) -> bool {
        self.name@ == o.name@ && self.path@ == o.path@
    }
}

impl FileVertex {
    pub open spec fn same_as(&self, o: &FileVertex) -> bool {
        &&& self.name@ == o.name@
        &&& opt_view(self.extension) == opt_view(o.extension)
        &&& self.path@ == o.path@
    }
}

impl FilesystemVertex {
    /// Structural equality: same variant, same fields.
    pub open spec fn same_as(&self, o: &FilesystemVertex) -> bool {
        match (self, o) {
            (FilesystemVertex::Directory(a), FilesystemVertex::Directory(b)) => a.same_as(b),
            (FilesystemVertex::File(a), FilesystemVertex::File(b)) => a.same_as(b),
            _ => false,
        }
    }
}

impl Clone for DirectoryVertex {
    fn clone(&self) -> (r: Self)
        ensures
            r == *self,
    {
        DirectoryVertex { name: self.name.clone(), path: self.path.clone() }
    }
}

impl Clone for FileVertex {
    fn clone(&self) -> (r: Self)
        ensures
            r == *self,
    {
        let extension = match &self.extension {
            Some(e) => Some(e.clone()),
            None => None,
        };
        FileVertex { name: self.name.clone(), extension, path: self.path.clone() }
    }
}

impl Clone for FilesystemVertex {
    fn clone(&self) -> (r: Self)
        ensures
            r == *self,
    {
        match self {
            FilesystemVertex::Directory(d) => FilesystemVertex::Directory(d.clone()),
            FilesystemVertex::File(f) => FilesystemVertex::File(f.clone()),
        }
    }
}

fn opt_string_eq(a: &Option<String>, b: &Option<String>) -> (r: bool)
    ensures
        r == (opt_view(*a) == opt_view(*b)),
{
    match (a, b) {
        (Some(x), Some(y)) => *x == *y,
        (None, None) => true,
        _ => false,
    }
}

impl PartialEq for DirectoryVertex {
    fn eq(&self, o: &DirectoryVertex) -> (r: bool) {
        self.name == o.name && self.path == o.path
    }
}

impl vstd::std_specs::cmp::PartialEqSpecImpl for DirectoryVertex {
    open spec fn obeys_eq_spec() -> bool {
        true
    }

    open spec fn eq_spec(&self, o: &DirectoryVertex) -> bool {
        self.same_as(o)
    }
}

impl Eq for DirectoryVertex {}

impl PartialEq for FileVertex {
    fn eq(&self, o: &FileVertex) -> (r: bool) {
        self.name == o.name && opt_string_eq(&self.extension, &o.extension) && self.path
            == o.path
    }
}

impl vstd::std_specs::cmp::PartialEqSpecImpl for FileVertex {
    open spec fn obeys_eq_spec() -> bool {
        true
    }

    open spec fn eq_spec(&self, o: &FileVertex) -> bool {
        self.same_as(o)
    }
}

impl Eq for FileVertex {}

impl PartialEq for FilesystemVertex {
    fn eq(&self, o: &FilesystemVertex) -> (r: bool) {
        match (self, o) {
            (FilesystemVertex::Directory(a), FilesystemVertex::Directory(b)) => a == b,
            (FilesystemVertex::File(a), FilesystemVertex::File(b)) => a == b,
            _ => false,
        }
    }
}

impl vstd::std_specs::cmp::PartialEqSpecImpl for FilesystemVertex {
    open spec fn obeys_eq_spec() -> bool {
        true
    }

    open spec fn eq_spec(&self, o: &FilesystemVertex) -> bool {
        self.same_as(o)
    }
}

impl Eq for FilesystemVertex {}

} // verus!
