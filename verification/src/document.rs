//! The mesh document: what a mesh file holds, how a mesh is loaded from it
//! and saved to it.
//!
//! A document names the same ten fields as a [`Geometry`]. The vertices and
//! the edges must be there; each of the others may be absent, and then has
//! its default. Loading checks the invariant of the mesh, so that no edge of
//! a loaded mesh refers to a vertex that is not there.

use vstd::prelude::*;
use vstd::string::*;
use crate::fixed::{within, UNIT};
use crate::geometry::{point_in_range, Geometry, GeometryView};

verus! {

/// The angle about either axis of a document that names none.
pub const DEFAULT_ANGLE: i64 = 0;

/// The scale of a document that names none: one.
pub const DEFAULT_SCALE: i64 = UNIT;

/// The distance of a document that names none.
pub const DEFAULT_DISTANCE: i64 = 0;

/// The pan offset, along either axis, of a document that names none.
pub const DEFAULT_PAN: i64 = 0;

/// What a mesh file holds. A field that the file does not name is `None`.
#[derive(Clone, Debug, PartialEq, Eq)]
pub struct Document {
    pub vertex: Option<Vec<[i64; 3]>>,
    pub edges: Option<Vec<[usize; 2]>>,
    pub user_angle_x: Option<i64>,
    pub user_angle_y: Option<i64>,
    pub user_scale: Option<i64>,
    pub user_distance: Option<i64>,
    pub user_x: Option<i64>,
    pub user_y: Option<i64>,
    pub vertex_editing: Option<bool>,
    pub selected_vertex: Option<usize>,
}

/// The mathematical value of a [`Document`].
pub struct DocumentView {
    pub vertex: Option<Seq<[i64; 3]>>,
    pub edges: Option<Seq<[usize; 2]>>,
    pub user_angle_x: Option<int>,
    pub user_angle_y: Option<int>,
    pub user_scale: Option<int>,
    pub user_distance: Option<int>,
    pub user_x: Option<int>,
    pub user_y: Option<int>,
    pub vertex_editing: Option<bool>,
    pub selected_vertex: Option<int>,
}

/// The value of a number that may be absent.
pub open spec fn number(field: Option<i64>) -> Option<int> {
    match field {
        Some(v) => Some(v as int),
        None => None,
    }
}

impl View for Document {
    type V = DocumentView;

    open spec fn view(&self) -> DocumentView {
        DocumentView {
            vertex: match self.vertex {
                Some(v) => Some(v@),
                None => None,
            },
            edges: match self.edges {
                Some(e) => Some(e@),
                None => None,
            },
            user_angle_x: number(self.user_angle_x),
            user_angle_y: number(self.user_angle_y),
            user_scale: number(self.user_scale),
            user_distance: number(self.user_distance),
            user_x: number(self.user_x),
            user_y: number(self.user_y),
            vertex_editing: self.vertex_editing,
            selected_vertex: match self.selected_vertex {
                Some(k) => Some(k as int),
                None => None,
            },
        }
    }
}

/// Why a document is not loaded.
#[derive(Clone, Copy, Debug, PartialEq, Eq)]
pub enum LoadError {
    /// The document names no vertices.
    MissingVertex,
    /// The document names no edges.
    MissingEdges,
    /// A coordinate, an angle, the scale, the distance or the pan offset
    /// lies outside the range of stored values.
    OutOfRange,
    /// An edge refers to a vertex that the mesh does not have.
    EdgeOutOfRange,
    /// The selected index names no vertex, though the mesh has vertices.
    SelectedOutOfRange,
}

impl LoadError {
    /// The error in words.
    pub open spec fn text(self) -> Seq<char> {
        match self {
            LoadError::MissingVertex => "missing field `vertex`"@,
            LoadError::MissingEdges => "missing field `edges`"@,
            LoadError::OutOfRange => "a number is out of range"@,
            LoadError::EdgeOutOfRange => "an edge refers to a vertex that is not there"@,
            LoadError::SelectedOutOfRange => "the selected vertex is not there"@,
        }
    }

    /// Says the error in words.
    pub fn message(&self) -> (words: String)
        ensures
            words@ == self.text(),
    {
        match self {
            LoadError::MissingVertex => String::from_str("missing field `vertex`"),
            LoadError::MissingEdges => String::from_str("missing field `edges`"),
            LoadError::OutOfRange => String::from_str("a number is out of range"),
            LoadError::EdgeOutOfRange => String::from_str(
                "an edge refers to a vertex that is not there",
            ),
            LoadError::SelectedOutOfRange => String::from_str("the selected vertex is not there"),
        }
    }
}

/// The field `field`, or `default` where it is absent.
pub open spec fn or_default(field: Option<int>, default: int) -> int {
    match field {
        Some(v) => v,
        None => default,
    }
}

impl GeometryView {
    /// The first part of the invariant that the mesh breaks, if it breaks one.
    pub open spec fn fault(self) -> Option<LoadError> {
        if !self.numbers_in_range() {
            Some(LoadError::OutOfRange)
        } else if !self.edges_in_range() {
            Some(LoadError::EdgeOutOfRange)
        } else if !self.selection_in_range() {
            Some(LoadError::SelectedOutOfRange)
        } else {
            None
        }
    }

    /// The document that holds the mesh: every field is there.
    pub open spec fn saved(self) -> DocumentView {
        DocumentView {
            vertex: Some(self.vertex),
            edges: Some(self.edges),
            user_angle_x: Some(self.user_angle_x),
            user_angle_y: Some(self.user_angle_y),
            user_scale: Some(self.user_scale),
            user_distance: Some(self.user_distance),
            user_x: Some(self.user_x),
            user_y: Some(self.user_y),
            vertex_editing: Some(self.vertex_editing),
            selected_vertex: Some(self.selected_vertex),
        }
    }
}

impl DocumentView {
    /// The mesh that the document describes, with the default for every
    /// absent field: zero for the angles, the distance and the pan offset,
    /// one for the scale, view mode, and the first vertex selected.
    pub open spec fn filled(self) -> GeometryView {
        GeometryView {
            vertex: match self.vertex {
                Some(v) => v,
                None => Seq::empty(),
            },
            edges: match self.edges {
                Some(e) => e,
                None => Seq::empty(),
            },
            user_angle_x: or_default(self.user_angle_x, DEFAULT_ANGLE as int),
            user_angle_y: or_default(self.user_angle_y, DEFAULT_ANGLE as int),
            user_scale: or_default(self.user_scale, DEFAULT_SCALE as int),
            user_distance: or_default(self.user_distance, DEFAULT_DISTANCE as int),
            user_x: or_default(self.user_x, DEFAULT_PAN as int),
            user_y: or_default(self.user_y, DEFAULT_PAN as int),
            vertex_editing: match self.vertex_editing {
                Some(editing) => editing,
                None => false,
            },
            selected_vertex: or_default(self.selected_vertex, 0),
        }
    }

    /// Why the document is not loaded, if it is not: the vertices are
    /// absent, or else the edges are, or else the mesh that it describes
    /// breaks its invariant.
    pub open spec fn fault(self) -> Option<LoadError> {
        if self.vertex is None {
            Some(LoadError::MissingVertex)
        } else if self.edges is None {
            Some(LoadError::MissingEdges)
        } else {
            self.filled().fault()
        }
    }

    /// The result of loading the document.
    pub open spec fn loaded(self) -> Result<GeometryView, LoadError> {
        match self.fault() {
            Some(error) => Err(error),
            None => Ok(self.filled()),
        }
    }
}

/// A mesh is well formed exactly if it breaks no part of its invariant.
pub proof fn well_formed_means_no_fault(g: GeometryView)
    ensures
        g.wf() <==> g.fault() is None,
{
}

/// Saving a well-formed mesh and loading the document gives the same mesh
/// back, field for field.
pub proof fn saved_then_loaded_is_same(g: GeometryView)
    requires
        g.wf(),
    ensures
        g.saved().loaded() == Ok::<GeometryView, LoadError>(g),
{
}

/// A document with an edge that refers to a vertex which it does not have
/// is not loaded.
pub proof fn edge_to_missing_vertex_is_rejected(doc: DocumentView, i: int)
    requires
        doc.vertex is Some,
        doc.edges is Some,
        0 <= i < doc.edges.unwrap().len(),
        doc.edges.unwrap()[i][0] >= doc.vertex.unwrap().len() || doc.edges.unwrap()[i][1]
            >= doc.vertex.unwrap().len(),
    ensures
        doc.loaded() is Err,
{
    assert(doc.filled().edges[i] == doc.edges.unwrap()[i]);
}

/// A document that names nothing but vertices and edges loads, if it
/// loads, with the default for every other field.
pub proof fn absent_fields_take_defaults(doc: DocumentView)
    requires
        doc.user_angle_x is None,
        doc.user_angle_y is None,
        doc.user_scale is None,
        doc.user_distance is None,
        doc.user_x is None,
        doc.user_y is None,
        doc.vertex_editing is None,
        doc.selected_vertex is None,
        doc.loaded() is Ok,
    ensures
        doc.loaded().unwrap().user_angle_x == 0,
        doc.loaded().unwrap().user_angle_y == 0,
        doc.loaded().unwrap().user_scale == UNIT,
        doc.loaded().unwrap().user_distance == 0,
        doc.loaded().unwrap().user_x == 0,
        doc.loaded().unwrap().user_y == 0,
        !doc.loaded().unwrap().vertex_editing,
        doc.loaded().unwrap().selected_vertex == 0,
        Some(doc.loaded().unwrap().vertex) == doc.vertex,
        Some(doc.loaded().unwrap().edges) == doc.edges,
{
}

/// Says whether the three coordinates of `p` lie in the range of stored values.
fn point_within(p: &[i64; 3]) -> (r: bool)
    ensures
        r == point_in_range(*p),
{
    within(p[0]) && within(p[1]) && within(p[2])
}

/// Copies a list of vertices.
fn copy_vertices(vertex: &Vec<[i64; 3]>) -> (copy: Vec<[i64; 3]>)
    ensures
        copy@ == vertex@,
{
    let mut copy: Vec<[i64; 3]> = Vec::new();
    let mut i: usize = 0;
    while i < vertex.len()
        invariant
            i <= vertex.len(),
            copy@ =~= vertex@.take(i as int),
        decreases vertex.len() - i,
    {
        copy.push(vertex[i]);
        i += 1;
    }
    assert(vertex@.take(vertex.len() as int) =~= vertex@);
    copy
}

/// Copies a list of edges.
fn copy_edges(edges: &Vec<[usize; 2]>) -> (copy: Vec<[usize; 2]>)
    ensures
        copy@ == edges@,
{
    let mut copy: Vec<[usize; 2]> = Vec::new();
    let mut i: usize = 0;
    while i < edges.len()
        invariant
            i <= edges.len(),
            copy@ =~= edges@.take(i as int),
        decreases edges.len() - i,
    {
        copy.push(edges[i]);
        i += 1;
    }
    assert(edges@.take(edges.len() as int) =~= edges@);
    copy
}

impl Geometry {
    /// Says whether every number of the mesh lies in the range of stored values.
    fn numbers_within(&self) -> (r: bool)
        ensures
            r == self@.numbers_in_range(),
    {
        let mut i: usize = 0;
        while i < self.vertex.len()
            invariant
                i <= self.vertex.len(),
                forall|j: int| 0 <= j < i ==> point_in_range(#[trigger] self.vertex@[j]),
            decreases self.vertex.len() - i,
        {
            if !point_within(&self.vertex[i]) {
                assert(!point_in_range(self@.vertex[i as int]));
                return false;
            }
            i += 1;
        }
        within(self.user_angle_x) && within(self.user_angle_y) && within(self.user_scale) && within(
            self.user_distance,
        ) && within(self.user_x) && within(self.user_y)
    }

    /// Says whether every edge joins two vertices that the mesh has.
    fn edges_within(&self) -> (r: bool)
        ensures
            r == self@.edges_in_range(),
    {
        let len: usize = self.vertex.len();
        let mut i: usize = 0;
        while i < self.edges.len()
            invariant
                i <= self.edges.len(),
                len == self.vertex.len(),
                forall|j: int|
                    0 <= j < i ==> (#[trigger] self.edges@[j])[0] < len && self.edges@[j][1] < len,
            decreases self.edges.len() - i,
        {
            let edge: [usize; 2] = self.edges[i];
            if edge[0] >= len || edge[1] >= len {
                assert(self@.edges[i as int][0] >= len || self@.edges[i as int][1] >= len);
                return false;
            }
            i += 1;
        }
        true
    }

    /// Finds the first part of the invariant that the mesh breaks, if it
    /// breaks one: `None` means that the mesh is well formed.
    pub fn fault(&self) -> (r: Option<LoadError>)
        ensures
            r == self@.fault(),
            r is None <==> self.wf(),
    {
        if !self.numbers_within() {
            Some(LoadError::OutOfRange)
        } else if !self.edges_within() {
            Some(LoadError::EdgeOutOfRange)
        } else if self.vertex.len() > 0 && self.selected_vertex >= self.vertex.len() {
            Some(LoadError::SelectedOutOfRange)
        } else {
            None
        }
    }

    /// Loads the mesh that `doc` describes.
    ///
    /// Absent fields take their defaults. The document is refused if it
    /// names no vertices or no edges, or if the mesh would break its
    /// invariant: a number out of range, an edge to a vertex that is not
    /// there, a selected index beyond the last vertex.
    pub fn from_document(doc: Document) -> (r: Result<Geometry, LoadError>)
        ensures
            match r {
                Ok(g) => doc@.loaded() == Ok::<GeometryView, LoadError>(g@) && g.wf(),
                Err(error) => doc@.loaded() == Err::<GeometryView, LoadError>(error),
            },
    {
        let vertex: Vec<[i64; 3]> = match doc.vertex {
            Some(v) => v,
            None => {
                return Err(LoadError::MissingVertex);
            },
        };
        let edges: Vec<[usize; 2]> = match doc.edges {
            Some(e) => e,
            None => {
                return Err(LoadError::MissingEdges);
            },
        };
        let g = Geometry {
            vertex,
            edges,
            user_angle_x: match doc.user_angle_x {
                Some(v) => v,
                None => DEFAULT_ANGLE,
            },
            user_angle_y: match doc.user_angle_y {
                Some(v) => v,
                None => DEFAULT_ANGLE,
            },
            user_scale: match doc.user_scale {
                Some(v) => v,
                None => DEFAULT_SCALE,
            },
            user_distance: match doc.user_distance {
                Some(v) => v,
                None => DEFAULT_DISTANCE,
            },
            user_x: match doc.user_x {
                Some(v) => v,
                None => DEFAULT_PAN,
            },
            user_y: match doc.user_y {
                Some(v) => v,
                None => DEFAULT_PAN,
            },
            vertex_editing: match doc.vertex_editing {
                Some(editing) => editing,
                None => false,
            },
            selected_vertex: match doc.selected_vertex {
                Some(k) => k,
                None => 0,
            },
        };
        assert(g@ == doc@.filled());
        match g.fault() {
            Some(error) => Err(error),
            None => Ok(g),
        }
    }

    /// Saves the mesh to a document that names every field.
    pub fn to_document(&self) -> (doc: Document)
        ensures
            doc@ == self@.saved(),
    {
        Document {
            vertex: Some(copy_vertices(&self.vertex)),
            edges: Some(copy_edges(&self.edges)),
            user_angle_x: Some(self.user_angle_x),
            user_angle_y: Some(self.user_angle_y),
            user_scale: Some(self.user_scale),
            user_distance: Some(self.user_distance),
            user_x: Some(self.user_x),
            user_y: Some(self.user_y),
            vertex_editing: Some(self.vertex_editing),
            selected_vertex: Some(self.selected_vertex),
        }
    }
}

} // verus!
