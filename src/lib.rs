//! A filesystem directory tree seen as a graph of `Directory` and `File`
//! vertices, for a query interpreter that pulls starting vertices, property
//! values and neighbors one context at a time.
//!
//! The library decides everything but the reading of the disk: which listed
//! entries become vertices, their names, paths and extensions, how contexts
//! are paired with their neighbors, and what each property holds. Reading a
//! directory's entries is left to the caller, who hands each entry to the
//! scan that asked for it.
use vstd::prelude::*;

pub mod adapter;
pub mod path;
pub mod resolver;
pub mod scan;
pub mod vertex;

pub use adapter::{FieldValue, FilesystemInterpreter, OriginIterator};
pub use resolver::{
    directory_contains_file_handler, directory_subdirectory_handler, DirectoryEdge,
    EdgeResolverIterator, Neighbors, QueryContext,
};
pub use scan::{DirEntryInfo, DirectoryContainsFileIterator, EntryKind, SubdirectoryIterator};
pub use vertex::{DirectoryVertex, FileVertex, FilesystemVertex};

verus! {

} // verus!
