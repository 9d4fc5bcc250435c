use std::collections::VecDeque;
use std::rc::Rc;
use vstd::prelude::*;

use crate::path::str_equal;
use crate::resolver::{all_directories, DirectoryEdge, EdgeResolverIterator, QueryContext};
use crate::vertex::{opt_view, DirectoryVertex, FilesystemVertex};

verus! {

/// A scalar value handed back to the interpreter.
#[derive(Debug)]
pub enum FieldValue {
    Null,
    String(String),
}

impl View for FieldValue {
    type V = Option<Seq<char>>;

    /// `None` for null, else the characters of the string.
    open spec fn view(&self) -> Option<Seq<char>> {
        match self {
            FieldValue::Null => None,
            FieldValue::String(s) => Some(s@),
        }
    }
}

impl Clone for FieldValue {
    fn clone(&self) -> (r: Self)
        ensures
            r == *self,
    {
        match self {
            FieldValue::Null => FieldValue::Null,
            FieldValue::String(s) => FieldValue::String(s.clone()),
        }
    }
}

impl PartialEq for FieldValue {
    fn eq(&self, o: &FieldValue) -> (r: bool) {
        match (self, o) {
            (FieldValue::Null, FieldValue::Null) => true,
            (FieldValue::String(a), FieldValue::String(b)) => *a == *b,
            _ => false,
        }
    }
}

impl vstd::std_specs::cmp::PartialEqSpecImpl for FieldValue {
    open spec fn obeys_eq_spec() -> bool {
        true
    }

    open spec fn eq_spec(&self, o: &FieldValue) -> bool {
        self@ == o@
    }
}

impl Eq for FieldValue {}

/// The single vertex that every traversal starts from.
pub open spec fn is_origin_vertex(d: DirectoryVertex) -> bool {
    d.name@ == "<origin>"@ && d.path@ == Seq::<char>::empty()
}

/// Yields one directory vertex once, then nothing.
#[derive(Debug)]
pub struct OriginIterator {
    origin_vertex: DirectoryVertex,
    produced: bool,
}

impl OriginIterator {
    /// What is still to be yielded.
    pub closed spec fn remaining(&self) -> Seq<FilesystemVertex> {
        if self.produced {
            Seq::empty()
        } else {
            seq![FilesystemVertex::Directory(self.origin_vertex)]
        }
    }

    pub fn new(vertex: DirectoryVertex) -> (r: OriginIterator)
        ensures
            r.remaining() == seq![FilesystemVertex::Directory(vertex)],
    {
        OriginIterator { origin_vertex: vertex, produced: false }
    }

    pub fn next(&mut self) -> (r: Option<FilesystemVertex>)
        ensures
            old(self).remaining().len() == 0 ==> r is None && final(self).remaining() == old(
                self,
            ).remaining(),
            old(self).remaining().len() > 0 ==> r == Some(old(self).remaining()[0])
                && final(self).remaining() == old(self).remaining().drop_first(),
    {
        if self.produced {
            None
        } else {
            self.produced = true;
            proof {
                assert(self.remaining() =~= old(self).remaining().drop_first());
            }
            Some(FilesystemVertex::Directory(self.origin_vertex.clone()))
        }
    }
}

/// The properties that each vertex type declares.
pub open spec fn is_declared_property(vertex_type: Seq<char>, property: Seq<char>) -> bool {
    ||| vertex_type == "Directory"@ && (property == "name"@ || property == "path"@ || property
        == "__typename"@)
    ||| vertex_type == "File"@ && (property == "name"@ || property == "path"@ || property
        == "extension"@ || property == "__typename"@)
}

/// A present active vertex has the declared type.
pub open spec fn vertex_fits(active: Option<FilesystemVertex>, vertex_type: Seq<char>) -> bool {
    match active {
        None => true,
        Some(v) => (vertex_type == "Directory"@ && v is Directory) || (vertex_type == "File"@
            && v is File),
    }
}

/// The value of `property` of the active vertex, for a vertex declared of
/// type `vertex_type`: null when the vertex is absent or the file has no
/// extension.
pub open spec fn property_spec(
    active: Option<FilesystemVertex>,
    vertex_type: Seq<char>,
    property: Seq<char>,
) -> Option<Seq<char>> {
    match active {
        None => None,
        Some(v) => if property == "__typename"@ {
            if vertex_type == "Directory"@ {
                Some("Directory"@)
            } else {
                Some("File"@)
            }
        } else {
            match v {
                FilesystemVertex::Directory(d) => if property == "name"@ {
                    Some(d.name@)
                } else {
                    Some(d.path@)
                },
                FilesystemVertex::File(f) => if property == "name"@ {
                    Some(f.name@)
                } else if property == "path"@ {
                    Some(f.path@)
                } else {
                    opt_view(f.extension)
                },
            }
        },
    }
}

/// The value of one property of one context's active vertex.
pub fn property_value(
    active: &Option<FilesystemVertex>,
    vertex_type: &str,
    property_name: &str,
) -> (r: FieldValue)
    requires
        is_declared_property(vertex_type@, property_name@),
        vertex_fits(*active, vertex_type@),
    ensures
        r@ == property_spec(*active, vertex_type@, property_name@),
{
    match active {
        None => FieldValue::Null,
        Some(v) => {
            if str_equal(property_name, "__typename") {
                if str_equal(vertex_type, "Directory") {
                    FieldValue::String("Directory".to_owned())
                } else {
                    FieldValue::String("File".to_owned())
                }
            } else {
                match v {
                    FilesystemVertex::Directory(d) => {
                        if str_equal(property_name, "name") {
                            FieldValue::String(d.name.clone())
                        } else {
                            FieldValue::String(d.path.clone())
                        }
                    },
                    FilesystemVertex::File(f) => {
                        if str_equal(property_name, "name") {
                            FieldValue::String(f.name.clone())
                        } else if str_equal(property_name, "path") {
                            FieldValue::String(f.path.clone())
                        } else {
                            match &f.extension {
                                Some(e) => FieldValue::String(e.clone()),
                                None => FieldValue::Null,
                            }
                        }
                    },
                }
            }
        },
    }
}

/// A context without an active vertex gets null for every declared property
/// of every declared type.
pub proof fn lemma_absent_vertex_is_null(vertex_type: Seq<char>, property: Seq<char>)
    requires
        is_declared_property(vertex_type, property),
    ensures
        property_spec(None, vertex_type, property) is None,
{
}

/// Asking a present vertex for `__typename` gives the declared type's name:
/// `Directory` for a directory, `File` for a file.
pub proof fn lemma_typename_is_declared_type(v: FilesystemVertex, vertex_type: Seq<char>)
    requires
        vertex_type == "Directory"@ || vertex_type == "File"@,
    ensures
        property_spec(Some(v), vertex_type, "__typename"@) == Some(vertex_type),
{
}

/// The edge that a directory edge name stands for.
pub open spec fn edge_of_name(edge_name: Seq<char>) -> Option<DirectoryEdge> {
    if edge_name == "out_Directory_ContainsFile"@ {
        Some(DirectoryEdge::ContainsFile)
    } else if edge_name == "out_Directory_Subdirectory"@ {
        Some(DirectoryEdge::Subdirectory)
    } else {
        None
    }
}

/// Answers the interpreter's requests on the tree rooted at one origin path.
#[derive(Debug)]
pub struct FilesystemInterpreter {
    origin: Rc<String>,
}

impl Clone for FilesystemInterpreter {
    fn clone(&self) -> (r: Self)
        ensures
            r.origin_spec() == self.origin_spec(),
    {
        FilesystemInterpreter { origin: self.origin.clone() }
    }
}

impl FilesystemInterpreter {
    /// The root of the tree on disk.
    pub closed spec fn origin_spec(&self) -> Seq<char> {
        (*self.origin)@
    }

    pub fn new(origin: String) -> (r: FilesystemInterpreter)
        ensures
            r.origin_spec() == origin@,
    {
        FilesystemInterpreter { origin: Rc::new(origin) }
    }

    /// The vertices that the start edge `OriginDirectory`, which takes no
    /// parameters, leads to: the root directory alone.
    pub fn resolve_starting_vertices(
        &self,
        edge_name: &str,
        parameters: &Vec<(String, FieldValue)>,
    ) -> (r: OriginIterator)
        requires
            edge_name@ == "OriginDirectory"@,
            parameters@.len() == 0,
        ensures
            r.remaining().len() == 1,
            r.remaining()[0] matches FilesystemVertex::Directory(d) && is_origin_vertex(d),
    {
        let vertex = DirectoryVertex { name: "<origin>".to_owned(), path: "".to_owned() };
        proof {
            reveal_strlit("");
            assert(vertex.path@ =~= Seq::<char>::empty());
        }
        OriginIterator::new(vertex)
    }

    /// Each context with the value of `property_name` of its active vertex,
    /// in the order of the contexts.
    pub fn resolve_property<T>(
        &self,
        contexts: VecDeque<QueryContext<T>>,
        vertex_type: &str,
        property_name: &str,
    ) -> (r: Vec<(QueryContext<T>, FieldValue)>)
        requires
            is_declared_property(vertex_type@, property_name@),
            forall|i: int|
                0 <= i < contexts@.len() ==> vertex_fits((#[trigger] contexts@[i]).active_vertex, vertex_type@),
        ensures
            r@.len() == contexts@.len(),
            forall|i: int|
                0 <= i < r@.len() ==> (#[trigger] r@[i]).0 == contexts@[i] && r@[i].1@
                    == property_spec(r@[i].0.active_vertex, vertex_type@, property_name@),
    {
        let ghost all = contexts@;
        let mut rest = contexts;
        let mut out: Vec<(QueryContext<T>, FieldValue)> = Vec::new();
        while rest.len() > 0
            invariant
                out@.len() + rest@.len() == all.len(),
                rest@ == all.subrange(out@.len() as int, all.len() as int),
                is_declared_property(vertex_type@, property_name@),
                forall|i: int|
                    0 <= i < all.len() ==> vertex_fits((#[trigger] all[i]).active_vertex, vertex_type@),
                forall|i: int|
                    0 <= i < out@.len() ==> (#[trigger] out@[i]).0 == all[i] && out@[i].1@
                        == property_spec(out@[i].0.active_vertex, vertex_type@, property_name@),
            decreases rest@.len(),
        {
            let ghost k = out@.len() as int;
            match rest.pop_front() {
                Some(context) => {
                    assert(context == all[k]);
                    let value = property_value(&context.active_vertex, vertex_type, property_name);
                    out.push((context, value));
                    assert(rest@ =~= all.subrange(out@.len() as int, all.len() as int));
                },
                None => {},
            }
        }
        out
    }

    /// Each context paired with its neighbors across `edge_name`, an edge of
    /// `Directory`. The parameters are not used by either edge.
    pub fn resolve_neighbors<T>(
        &self,
        contexts: VecDeque<QueryContext<T>>,
        vertex_type: &str,
        edge_name: &str,
        parameters: &Vec<(String, FieldValue)>,
    ) -> (r: EdgeResolverIterator<T>)
        requires
            vertex_type@ == "Directory"@,
            edge_of_name(edge_name@) is Some,
            all_directories(contexts@),
        ensures
            r.wf(),
            r.pending() == contexts@,
            r.origin_spec() == self.origin_spec(),
            Some(r.edge_spec()) == edge_of_name(edge_name@),
    {
        let edge = if str_equal(edge_name, "out_Directory_ContainsFile") {
            DirectoryEdge::ContainsFile
        } else {
            DirectoryEdge::Subdirectory
        };
        EdgeResolverIterator::new(self.origin.clone(), contexts, edge)
    }
}

} // verus!
