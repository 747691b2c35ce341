use rsrender::document::{Document, LoadError};
use rsrender::fixed::LIMIT;
use rsrender::geometry::Geometry;

fn bare(vertex: Vec<[i64; 3]>, edges: Vec<[usize; 2]>) -> Document {
    Document {
        vertex: Some(vertex),
        edges: Some(edges),
        user_angle_x: None,
        user_angle_y: None,
        user_scale: None,
        user_distance: None,
        user_x: None,
        user_y: None,
        vertex_editing: None,
        selected_vertex: None,
    }
}

fn triangle() -> Document {
    bare(vec![[0, 0, 0], [1_000, 0, 0], [0, 1_000, 0]], vec![[0, 1], [1, 2], [2, 0]])
}

#[test]
fn absent_fields_take_their_defaults() {
    let g = Geometry::from_document(triangle()).unwrap();
    assert_eq!(g.vertex, vec![[0, 0, 0], [1_000, 0, 0], [0, 1_000, 0]]);
    assert_eq!(g.edges, vec![[0, 1], [1, 2], [2, 0]]);
    assert_eq!(g.user_scale, 1_000);
    assert_eq!(g.user_distance, 0);
    assert_eq!(g.user_angle_x, 0);
    assert_eq!(g.user_angle_y, 0);
    assert_eq!(g.user_x, 0);
    assert_eq!(g.user_y, 0);
    assert!(!g.vertex_editing);
    assert_eq!(g.selected_vertex, 0);
}

#[test]
fn named_fields_are_taken() {
    let mut doc = triangle();
    doc.user_angle_x = Some(12_500);
    doc.user_angle_y = Some(-45_000);
    doc.user_scale = Some(250_000);
    doc.user_distance = Some(-3_000);
    doc.user_x = Some(7);
    doc.user_y = Some(-8);
    doc.vertex_editing = Some(true);
    doc.selected_vertex = Some(2);
    let g = Geometry::from_document(doc).unwrap();
    assert_eq!(g.user_angle_x, 12_500);
    assert_eq!(g.user_angle_y, -45_000);
    assert_eq!(g.user_scale, 250_000);
    assert_eq!(g.user_distance, -3_000);
    assert_eq!(g.user_x, 7);
    assert_eq!(g.user_y, -8);
    assert!(g.vertex_editing);
    assert_eq!(g.selected_vertex, 2);
}

#[test]
fn save_then_load_gives_the_same_mesh() {
    let mut g = Geometry::cube();
    g.user_angle_x = 30_000;
    g.user_angle_y = 361_000;
    g.user_scale = 123_456;
    g.user_distance = 654_321;
    g.user_x = -17_000;
    g.user_y = 42_000;
    g.vertex_editing = true;
    g.selected_vertex = 5;
    g.vertex[5] = [100_500, 99_250, 100_001];
    let doc = g.to_document();
    assert_eq!(doc.vertex.as_ref().unwrap().len(), 8);
    assert_eq!(doc.edges.as_ref().unwrap().len(), 12);
    assert_eq!(doc.user_angle_x, Some(30_000));
    assert_eq!(doc.user_angle_y, Some(361_000));
    assert_eq!(doc.user_scale, Some(123_456));
    assert_eq!(doc.user_distance, Some(654_321));
    assert_eq!(doc.user_x, Some(-17_000));
    assert_eq!(doc.user_y, Some(42_000));
    assert_eq!(doc.vertex_editing, Some(true));
    assert_eq!(doc.selected_vertex, Some(5));
    assert_eq!(Geometry::from_document(doc), Ok(g));
}

#[test]
fn save_then_load_gives_the_cube() {
    let doc = Geometry::cube().to_document();
    assert_eq!(Geometry::from_document(doc), Ok(Geometry::cube()));
}

#[test]
fn document_without_vertices_is_refused() {
    let mut doc = triangle();
    doc.vertex = None;
    assert_eq!(Geometry::from_document(doc), Err(LoadError::MissingVertex));
    let mut doc = triangle();
    doc.vertex = None;
    doc.edges = None;
    assert_eq!(Geometry::from_document(doc), Err(LoadError::MissingVertex));
}

#[test]
fn document_without_edges_is_refused() {
    let mut doc = triangle();
    doc.edges = None;
    assert_eq!(Geometry::from_document(doc), Err(LoadError::MissingEdges));
}

#[test]
fn edge_to_a_missing_vertex_is_refused() {
    let doc = bare(vec![[0, 0, 0], [1_000, 0, 0]], vec![[0, 1], [1, 2]]);
    assert_eq!(Geometry::from_document(doc), Err(LoadError::EdgeOutOfRange));
    let doc = bare(vec![[0, 0, 0], [1_000, 0, 0]], vec![[2, 0]]);
    assert_eq!(Geometry::from_document(doc), Err(LoadError::EdgeOutOfRange));
    let doc = bare(Vec::new(), vec![[0, 0]]);
    assert_eq!(Geometry::from_document(doc), Err(LoadError::EdgeOutOfRange));
    let doc = bare(vec![[0, 0, 0], [1_000, 0, 0]], vec![[0, usize::MAX]]);
    assert_eq!(Geometry::from_document(doc), Err(LoadError::EdgeOutOfRange));
}

#[test]
fn edge_to_the_last_vertex_is_taken() {
    let doc = bare(vec![[0, 0, 0], [1_000, 0, 0]], vec![[1, 1], [0, 0]]);
    assert!(Geometry::from_document(doc).is_ok());
}

#[test]
fn number_out_of_range_is_refused() {
    let doc = bare(vec![[0, 0, LIMIT + 1]], Vec::new());
    assert_eq!(Geometry::from_document(doc), Err(LoadError::OutOfRange));
    let doc = bare(vec![[0, -LIMIT - 1, 0]], Vec::new());
    assert_eq!(Geometry::from_document(doc), Err(LoadError::OutOfRange));
    let mut doc = triangle();
    doc.user_scale = Some(LIMIT + 1);
    assert_eq!(Geometry::from_document(doc), Err(LoadError::OutOfRange));
    let mut doc = triangle();
    doc.user_angle_y = Some(i64::MIN);
    assert_eq!(Geometry::from_document(doc), Err(LoadError::OutOfRange));
    let mut doc = triangle();
    doc.user_y = Some(-LIMIT - 1);
    assert_eq!(Geometry::from_document(doc), Err(LoadError::OutOfRange));
}

#[test]
fn numbers_at_the_limit_are_taken() {
    let mut doc = bare(vec![[LIMIT, -LIMIT, LIMIT]], Vec::new());
    doc.user_distance = Some(-LIMIT);
    doc.user_x = Some(LIMIT);
    assert!(Geometry::from_document(doc).is_ok());
}

#[test]
fn selected_index_beyond_the_vertices_is_refused() {
    let mut doc = triangle();
    doc.selected_vertex = Some(3);
    assert_eq!(Geometry::from_document(doc), Err(LoadError::SelectedOutOfRange));
    let mut doc = triangle();
    doc.selected_vertex = Some(2);
    assert!(Geometry::from_document(doc).is_ok());
}

#[test]
fn empty_mesh_is_loaded() {
    let g = Geometry::from_document(bare(Vec::new(), Vec::new())).unwrap();
    assert!(g.vertex.is_empty());
    assert!(g.edges.is_empty());
    let mut doc = bare(Vec::new(), Vec::new());
    doc.selected_vertex = Some(9);
    assert_eq!(Geometry::from_document(doc).unwrap().selected_vertex, 9);
}

#[test]
fn first_broken_rule_is_reported() {
    let mut doc = bare(vec![[0, 0, LIMIT + 1]], vec![[0, 5]]);
    doc.selected_vertex = Some(4);
    assert_eq!(Geometry::from_document(doc), Err(LoadError::OutOfRange));
    let mut doc = bare(vec![[0, 0, 0]], vec![[0, 5]]);
    doc.selected_vertex = Some(4);
    assert_eq!(Geometry::from_document(doc), Err(LoadError::EdgeOutOfRange));
}

#[test]
fn fault_finds_what_a_mesh_breaks() {
    let mut g = Geometry::cube();
    assert_eq!(g.fault(), None);
    g.selected_vertex = 8;
    assert_eq!(g.fault(), Some(LoadError::SelectedOutOfRange));
    g.edges[3] = [3, 8];
    assert_eq!(g.fault(), Some(LoadError::EdgeOutOfRange));
    g.user_x = LIMIT + 1;
    assert_eq!(g.fault(), Some(LoadError::OutOfRange));
}

#[test]
fn errors_say_what_is_wrong() {
    assert_eq!(LoadError::MissingVertex.message(), "missing field `vertex`");
    assert_eq!(LoadError::MissingEdges.message(), "missing field `edges`");
    assert_eq!(LoadError::OutOfRange.message(), "a number is out of range");
    assert_eq!(
        LoadError::EdgeOutOfRange.message(),
        "an edge refers to a vertex that is not there"
    );
    assert_eq!(LoadError::SelectedOutOfRange.message(), "the selected vertex is not there");
}
