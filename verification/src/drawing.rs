//! What a mesh puts on the canvas: its wireframe and the two overlays of text.

use vstd::prelude::*;
use vstd::string::*;
use crate::canvas::{label, lemma_views_push, views, white, white_text, Color, Shape, ShapeView};
use crate::fixed::quotient;
use crate::geometry::{Geometry, GeometryView};
use crate::math::{
    project, projected_offset, projects, rotate, rotated_x, rotated_y, rotated_z, Turn,
};

verus! {

/// The thickness of the lines of the wireframe, two pixels.
pub const LINE_THICKNESS: i64 = 2_000;

/// The size of the text of the overlays.
pub const FONT_SIZE: i64 = 23_400;

/// The number of vertices that the overlay of the vertex editor lists at most.
pub const LISTED_VERTICES: usize = 7;

impl GeometryView {
    /// The place on a screen of the given size at which vertex `k` appears,
    /// after the rotation by the two angles, the projection and the pan; or
    /// nothing where the rotated vertex has no place on the screen.
    pub open spec fn screen_point(
        self,
        k: int,
        angle_x: Turn,
        angle_y: Turn,
        width: int,
        height: int,
    ) -> Option<(int, int)> {
        let p = self.vertex[k];
        let x = rotated_x(p[0] as int, p[2] as int, angle_y);
        let y = rotated_y(p[0] as int, p[1] as int, p[2] as int, angle_x, angle_y);
        let z = rotated_z(p[0] as int, p[1] as int, p[2] as int, angle_x, angle_y);
        if projects(x, y, z, self.user_scale, self.user_distance) {
            Some(
                (
                    projected_offset(x, z, self.user_scale, self.user_distance) + quotient(width, 2)
                        + self.user_x,
                    projected_offset(y, z, self.user_scale, self.user_distance) + quotient(
                        height,
                        2,
                    ) + self.user_y,
                ),
            )
        } else {
            None
        }
    }

    /// The line that edge `i` puts on the screen, or nothing where one of its
    /// two ends has no place there.
    pub open spec fn edge_line(
        self,
        i: int,
        angle_x: Turn,
        angle_y: Turn,
        width: int,
        height: int,
    ) -> Option<ShapeView> {
        let from = self.screen_point(self.edges[i][0] as int, angle_x, angle_y, width, height);
        let to = self.screen_point(self.edges[i][1] as int, angle_x, angle_y, width, height);
        match (from, to) {
            (Some((x1, y1)), Some((x2, y2))) => Some(
                ShapeView::Line {
                    x1,
                    y1,
                    x2,
                    y2,
                    thickness: LINE_THICKNESS as int,
                    color: white(),
                },
            ),
            _ => None,
        }
    }

    /// The lines that the first `n` edges put on the screen, in the order of the edges.
    pub open spec fn lines(
        self,
        n: int,
        angle_x: Turn,
        angle_y: Turn,
        width: int,
        height: int,
    ) -> Seq<ShapeView>
        decreases n,
    {
        if n <= 0 {
            Seq::empty()
        } else {
            let before = self.lines(n - 1, angle_x, angle_y, width, height);
            match self.edge_line(n - 1, angle_x, angle_y, width, height) {
                Some(line) => before.push(line),
                None => before,
            }
        }
    }
}

impl Geometry {
    /// Computes where vertex `k` appears on the screen.
    fn screen_point(&self, k: usize, angle_x: Turn, angle_y: Turn, width: i64, height: i64) -> (p:
        Option<[i64; 2]>)
        requires
            self.wf(),
            k < self.vertex.len(),
            angle_x.wf(),
            angle_y.wf(),
        ensures
            p is Some == self@.screen_point(k as int, angle_x, angle_y, width as int, height as int)
                is Some,
            p matches Some(q) ==> Some((q[0] as int, q[1] as int)) == self@.screen_point(
                k as int,
                angle_x,
                angle_y,
                width as int,
                height as int,
            ),
    {
        let vertex: [i64; 3] = self.vertex[k];
        assert(crate::geometry::point_in_range(self@.vertex[k as int]));
        let turned: [i64; 3] = rotate(vertex[0], vertex[1], vertex[2], angle_x, angle_y);
        match project(
            turned[0],
            turned[1],
            turned[2],
            self.user_scale,
            self.user_distance,
            width,
            height,
        ) {
            Some(q) => Some([q[0] + self.user_x, q[1] + self.user_y]),
            None => None,
        }
    }

    /// The wireframe: for every edge whose two ends have a place on the
    /// screen, the line between them, in the order of the edges.
    ///
    /// Each end is rotated about the y axis by `angle_y` and about the x axis
    /// by `angle_x`, projected with the scale and the distance of the view to
    /// a screen `width` wide and `height` high, and moved by the pan offset.
    /// The two angles are meant to be the cosine and sine of `user_angle_x`
    /// and `user_angle_y`. An edge with an end at depth zero from the eye, or
    /// with an end too far off the screen to be stored, is left out.
    pub fn draw(&self, angle_x: Turn, angle_y: Turn, width: i64, height: i64) -> (shapes: Vec<
        Shape,
    >)
        requires
            self.wf(),
            angle_x.wf(),
            angle_y.wf(),
        ensures
            views(shapes@) == self@.lines(
                self.edges.len() as int,
                angle_x,
                angle_y,
                width as int,
                height as int,
            ),
    {
        let mut shapes: Vec<Shape> = Vec::new();
        let mut i: usize = 0;
        while i < self.edges.len()
            invariant
                self.wf(),
                angle_x.wf(),
                angle_y.wf(),
                i <= self.edges.len(),
                views(shapes@) =~= self@.lines(
                    i as int,
                    angle_x,
                    angle_y,
                    width as int,
                    height as int,
                ),
            decreases self.edges.len() - i,
        {
            let edge: [usize; 2] = self.edges[i];
            assert(self@.edges[i as int][0] < self.vertex.len() && self@.edges[i as int][1]
                < self.vertex.len());
            let from = self.screen_point(edge[0], angle_x, angle_y, width, height);
            let to = self.screen_point(edge[1], angle_x, angle_y, width, height);
            if let Some(start) = from {
                if let Some(end) = to {
                    shapes.push(
                        Shape::Line {
                            x1: start[0],
                            y1: start[1],
                            x2: end[0],
                            y2: end[1],
                            thickness: LINE_THICKNESS,
                            color: Color::white(),
                        },
                    );
                }
            }
            i += 1;
        }
        shapes
    }
}

/// The decimal digit `i` of an index that the vertex editor lists, as text.
pub open spec fn digit(i: int) -> Seq<char> {
    if i == 0 {
        "0"@
    } else if i == 1 {
        "1"@
    } else if i == 2 {
        "2"@
    } else if i == 3 {
        "3"@
    } else if i == 4 {
        "4"@
    } else if i == 5 {
        "5"@
    } else {
        "6"@
    }
}

/// The line of the vertex editor for vertex `i`: a marker that shows whether
/// the vertex is selected, then its index.
pub open spec fn row_label(selected: bool, i: int) -> Seq<char> {
    (if selected {
        "(>)"@
    } else {
        "()"@
    }) + " - "@ + digit(i) + " Vertex Point"@
}

/// The last line of the vertex editor, which names the key that changes the mode.
pub open spec fn mode_hint(editing: bool) -> Seq<char> {
    if editing {
        "Press (V) to edit vertex!"@
    } else {
        "Press (V) to quit vertex editor!"@
    }
}

/// The overlay of the vertex editor for a mesh of `len` vertices: a line for
/// each of the first seven vertices, then the hint on the mode key.
pub open spec fn vertex_editor(len: int, selected: int, editing: bool) -> Seq<ShapeView> {
    let rows = if len < LISTED_VERTICES {
        len
    } else {
        LISTED_VERTICES as int
    };
    Seq::new(
        rows as nat,
        |i: int| white_text(row_label(selected == i, i), 10_000, 20_000 + i * 20_000, FONT_SIZE as int),
    ).push(white_text(mode_hint(editing), 10_000, 160_000, FONT_SIZE as int))
}

/// The key help that is shown in view mode.
pub open spec fn view_help() -> Seq<ShapeView> {
    seq![
        white_text("(^) To up"@, 675_000, 500_000, FONT_SIZE as int),
        white_text("(v) To Down"@, 675_000, 525_000, FONT_SIZE as int),
        white_text("(>) To Right"@, 675_000, 550_000, FONT_SIZE as int),
        white_text("(<) To Left"@, 675_000, 575_000, FONT_SIZE as int),
        white_text("(O >-) Rotate X"@, 510_000, 500_000, FONT_SIZE as int),
        white_text("(L -<) Rotate Y"@, 510_000, 525_000, FONT_SIZE as int),
        white_text("(-) Zoom out"@, 510_000, 550_000, FONT_SIZE as int),
        white_text("(+) Zoom in"@, 510_000, 575_000, FONT_SIZE as int),
    ]
}

/// The key help that is shown in edit mode.
pub open spec fn edit_help() -> Seq<ShapeView> {
    seq![
        white_text("(^) vertex to up"@, 605_000, 500_000, FONT_SIZE as int),
        white_text("(v) vertex to down"@, 605_000, 525_000, FONT_SIZE as int),
        white_text("(>) vertex to right"@, 605_000, 550_000, FONT_SIZE as int),
        white_text("(<) vertex left"@, 605_000, 575_000, FONT_SIZE as int),
        white_text("(-) vertex zoom out"@, 415_000, 550_000, FONT_SIZE as int),
        white_text("(+) vertex zoom in"@, 415_000, 575_000, FONT_SIZE as int),
    ]
}

/// Writes the decimal digit `i`.
fn digit_text(i: usize) -> (words: &'static str)
    requires
        i < LISTED_VERTICES,
    ensures
        words@ == digit(i as int),
{
    if i == 0 {
        "0"
    } else if i == 1 {
        "1"
    } else if i == 2 {
        "2"
    } else if i == 3 {
        "3"
    } else if i == 4 {
        "4"
    } else if i == 5 {
        "5"
    } else {
        "6"
    }
}

impl Geometry {
    /// The overlay of the vertex editor: one line for each of the first seven
    /// vertices, with a marker on the selected one, and below them the hint
    /// on the key that changes the mode.
    pub fn draw_vertex_editor(&self) -> (shapes: Vec<Shape>)
        ensures
            views(shapes@) == vertex_editor(
                self.vertex.len() as int,
                self.selected_vertex as int,
                self.vertex_editing,
            ),
    {
        let mut shapes: Vec<Shape> = Vec::new();
        let mut i: usize = 0;
        while i < self.vertex.len() && i < LISTED_VERTICES
            invariant
                i <= self.vertex.len(),
                i <= LISTED_VERTICES,
                shapes.len() == i,
                views(shapes@) =~= Seq::new(
                    i as nat,
                    |k: int|
                        white_text(
                            row_label(self.selected_vertex as int == k, k),
                            10_000,
                            20_000 + k * 20_000,
                            FONT_SIZE as int,
                        ),
                ),
            decreases LISTED_VERTICES - i,
        {
            let mut words: String = String::from_str(
                if self.selected_vertex == i {
                    "(>)"
                } else {
                    "()"
                },
            );
            words.append(" - ");
            words.append(digit_text(i));
            words.append(" Vertex Point");
            let row: i64 = 20_000 + 20_000 * (i as i64);
            let shape = label(words.as_str(), 10_000, row, FONT_SIZE);
            proof {
                lemma_views_push(shapes@, shape);
            }
            shapes.push(shape);
            i += 1;
        }
        let toggle_vertex_mode: &str = if self.vertex_editing {
            "Press (V) to edit vertex!"
        } else {
            "Press (V) to quit vertex editor!"
        };
        let hint = label(toggle_vertex_mode, 10_000, 160_000, FONT_SIZE);
        proof {
            lemma_views_push(shapes@, hint);
        }
        shapes.push(hint);
        assert(views(shapes@) =~= vertex_editor(
            self.vertex.len() as int,
            self.selected_vertex as int,
            self.vertex_editing,
        ));
        shapes
    }

    /// The key help for the current mode.
    pub fn draw_use(&self) -> (shapes: Vec<Shape>)
        ensures
            views(shapes@) == if self.vertex_editing {
                edit_help()
            } else {
                view_help()
            },
    {
        let mut shapes: Vec<Shape> = Vec::new();
        if self.vertex_editing {
            shapes.push(label("(^) vertex to up", 605_000, 500_000, FONT_SIZE));
            shapes.push(label("(v) vertex to down", 605_000, 525_000, FONT_SIZE));
            shapes.push(label("(>) vertex to right", 605_000, 550_000, FONT_SIZE));
            shapes.push(label("(<) vertex left", 605_000, 575_000, FONT_SIZE));
            shapes.push(label("(-) vertex zoom out", 415_000, 550_000, FONT_SIZE));
            shapes.push(label("(+) vertex zoom in", 415_000, 575_000, FONT_SIZE));
            assert(views(shapes@) =~= edit_help());
            return shapes;
        }
        shapes.push(label("(^) To up", 675_000, 500_000, FONT_SIZE));
        shapes.push(label("(v) To Down", 675_000, 525_000, FONT_SIZE));
        shapes.push(label("(>) To Right", 675_000, 550_000, FONT_SIZE));
        shapes.push(label("(<) To Left", 675_000, 575_000, FONT_SIZE));
        shapes.push(label("(O >-) Rotate X", 510_000, 500_000, FONT_SIZE));
        shapes.push(label("(L -<) Rotate Y", 510_000, 525_000, FONT_SIZE));
        shapes.push(label("(-) Zoom out", 510_000, 550_000, FONT_SIZE));
        shapes.push(label("(+) Zoom in", 510_000, 575_000, FONT_SIZE));
        assert(views(shapes@) =~= view_help());
        shapes
    }
}

} // verus!
