use std::collections::VecDeque;
use std::rc::Rc;
use vstd::prelude::*;

use crate::scan::{DirectoryContainsFileIterator, SubdirectoryIterator};
use crate::vertex::FilesystemVertex;

verus! {

/// One in-flight row of a query: its active vertex, absent when an earlier
/// stage excluded the row, and whatever else the interpreter threads along.
#[derive(Debug)]
pub struct QueryContext<T> {
    pub active_vertex: Option<FilesystemVertex>,
    pub row: T,
}

/// The two edges that leave a directory.
#[derive(Debug, Clone, Copy, PartialEq, Eq, Structural)]
pub enum DirectoryEdge {
    /// `out_Directory_ContainsFile`: the files directly inside.
    ContainsFile,
    /// `out_Directory_Subdirectory`: the subdirectories directly inside.
    Subdirectory,
}

/// The neighbors of one context across an edge, not yet listed: nothing, or
/// a scan that yields them when pulled.
#[derive(Debug)]
pub enum Neighbors {
    Empty,
    Files(DirectoryContainsFileIterator),
    Subdirectories(SubdirectoryIterator),
}

/// `n` is the scan of `edge` from `vertex`, for the tree rooted at `origin`.
pub open spec fn is_scan_of(
    n: Neighbors,
    origin: Seq<char>,
    edge: DirectoryEdge,
    vertex: FilesystemVertex,
) -> bool {
    match (edge, vertex) {
        (DirectoryEdge::ContainsFile, FilesystemVertex::Directory(d)) => n matches Neighbors::Files(
            s,
        ) && s.origin_spec() == origin && s.directory_spec() == d,
        (DirectoryEdge::Subdirectory, FilesystemVertex::Directory(d)) => n matches Neighbors::Subdirectories(
            s,
        ) && s.origin_spec() == origin && s.directory_spec() == d,
        _ => false,
    }
}

/// `n` is what a context whose active vertex is `active` is paired with:
/// the scan of its vertex, or nothing when the vertex is absent.
pub open spec fn is_neighbors_of(
    n: Neighbors,
    origin: Seq<char>,
    edge: DirectoryEdge,
    active: Option<FilesystemVertex>,
) -> bool {
    match active {
        Some(v) => is_scan_of(n, origin, edge, v),
        None => n is Empty,
    }
}

/// An active vertex, where there is one, is a directory.
pub open spec fn active_is_directory(active: Option<FilesystemVertex>) -> bool {
    match active {
        Some(v) => v is Directory,
        None => true,
    }
}

/// Every present active vertex is a directory.
pub open spec fn all_directories<T>(contexts: Seq<QueryContext<T>>) -> bool {
    forall|i: int| 0 <= i < contexts.len() ==> active_is_directory(#[trigger] contexts[i].active_vertex)
}

/// The files directly inside a directory vertex.
pub fn directory_contains_file_handler(origin: Rc<String>, vertex: &FilesystemVertex) -> (r:
    Neighbors)
    requires
        vertex is Directory,
    ensures
        is_scan_of(r, (*origin)@, DirectoryEdge::ContainsFile, *vertex),
{
    match vertex {
        FilesystemVertex::Directory(dir) => Neighbors::Files(
            DirectoryContainsFileIterator::new(origin, dir),
        ),
        FilesystemVertex::File(_) => Neighbors::Empty,
    }
}

/// The subdirectories directly inside a directory vertex.
pub fn directory_subdirectory_handler(origin: Rc<String>, vertex: &FilesystemVertex) -> (r:
    Neighbors)
    requires
        vertex is Directory,
    ensures
        is_scan_of(r, (*origin)@, DirectoryEdge::Subdirectory, *vertex),
{
    match vertex {
        FilesystemVertex::Directory(dir) => Neighbors::Subdirectories(
            SubdirectoryIterator::new(origin, dir),
        ),
        FilesystemVertex::File(_) => Neighbors::Empty,
    }
}

/// Pairs each incoming context, in order, with its neighbors across one
/// edge. Pairs are made one at a time, as they are pulled, and no scan is
/// listed while pairing.
#[derive(Debug)]
pub struct EdgeResolverIterator<T> {
    origin: Rc<String>,
    contexts: VecDeque<QueryContext<T>>,
    edge: DirectoryEdge,
}

impl<T> EdgeResolverIterator<T> {
    pub closed spec fn origin_spec(&self) -> Seq<char> {
        (*self.origin)@
    }

    /// The contexts that are still to be paired, in order.
    pub closed spec fn pending(&self) -> Seq<QueryContext<T>> {
        self.contexts@
    }

    pub closed spec fn edge_spec(&self) -> DirectoryEdge {
        self.edge
    }

    pub open spec fn wf(&self) -> bool {
        all_directories(self.pending())
    }

    pub fn new(origin: Rc<String>, contexts: VecDeque<QueryContext<T>>, edge: DirectoryEdge) -> (r:
        Self)
        ensures
            r.origin_spec() == (*origin)@,
            r.pending() == contexts@,
            r.edge_spec() == edge,
    {
        EdgeResolverIterator { origin, contexts, edge }
    }

    /// The next context with its neighbors, or `None` once every context has
    /// been paired.
    pub fn next(&mut self) -> (r: Option<(QueryContext<T>, Neighbors)>)
        requires
            old(self).wf(),
        ensures
            final(self).wf(),
            final(self).origin_spec() == old(self).origin_spec(),
            final(self).edge_spec() == old(self).edge_spec(),
            old(self).pending().len() == 0 ==> r is None && final(self).pending() == old(
                self,
            ).pending(),
            old(self).pending().len() > 0 ==> (r matches Some(p) && p.0 == old(self).pending()[0]
                && is_neighbors_of(p.1, old(self).origin_spec(), old(self).edge_spec(), p.0.active_vertex)
                && final(self).pending() == old(self).pending().drop_first()),
    {
        match self.contexts.pop_front() {
            None => None,
            Some(context) => {
                proof {
                    assert(old(self).pending()[0] == context);
                }
                let neighbors = match &context.active_vertex {
                    Some(vertex) => match self.edge {
                        DirectoryEdge::ContainsFile => directory_contains_file_handler(
                            self.origin.clone(),
                            vertex,
                        ),
                        DirectoryEdge::Subdirectory => directory_subdirectory_handler(
                            self.origin.clone(),
                            vertex,
                        ),
                    },
                    None => Neighbors::Empty,
                };
                proof {
                    assert(self.contexts@ =~= old(self).pending().drop_first());
                    assert forall|i: int| 0 <= i < self.contexts@.len() implies active_is_directory(
                        #[trigger] self.contexts@[i].active_vertex,
                    ) by {
                        assert(self.contexts@[i] == old(self).pending()[i + 1]);
                    }
                }
                Some((context, neighbors))
            },
        }
    }

    /// Pulls every pair. There is exactly one pair per pending context, in
    /// the order of the contexts, whatever each scan later yields.
    pub fn into_pairs(self) -> (r: Vec<(QueryContext<T>, Neighbors)>)
        requires
            self.wf(),
        ensures
            r@.len() == self.pending().len(),
            forall|i: int|
                0 <= i < r@.len() ==> (#[trigger] r@[i]).0 == self.pending()[i] && is_neighbors_of(
                    r@[i].1,
                    self.origin_spec(),
                    self.edge_spec(),
                    r@[i].0.active_vertex,
                ),
    {
        let ghost all = self.pending();
        let mut rest = self;
        let mut out: Vec<(QueryContext<T>, Neighbors)> = Vec::new();
        loop
            invariant
                rest.wf(),
                rest.origin_spec() == self.origin_spec(),
                rest.edge_spec() == self.edge_spec(),
                all == self.pending(),
                out@.len() + rest.pending().len() == all.len(),
                rest.pending() == all.subrange(out@.len() as int, all.len() as int),
                forall|i: int|
                    0 <= i < out@.len() ==> (#[trigger] out@[i]).0 == all[i] && is_neighbors_of(
                        out@[i].1,
                        self.origin_spec(),
                        self.edge_spec(),
                        out@[i].0.active_vertex,
                    ),
            ensures
                rest.pending().len() == 0,
                out@.len() == all.len(),
            decreases rest.pending().len(),
        {
            let ghost before = rest.pending();
            match rest.next() {
                Some(pair) => {
                    proof {
                        assert(before[0] == all[out@.len() as int]);
                    }
                    out.push(pair);
                    proof {
                        assert(rest.pending() =~= all.subrange(out@.len() as int, all.len() as int));
                    }
                },
                None => {
                    break ;
                },
            }
        }
        out
    }
}

} // verus!
