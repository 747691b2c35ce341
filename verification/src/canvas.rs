//! What the crate asks a canvas to draw.
//!
//! The crate draws nothing itself. Its drawing functions return lists of
//! [`Shape`]s, in the order in which they are to be painted, and the caller
//! hands them to whatever canvas it has. Positions and sizes are in
//! thousandths of a pixel.

use vstd::prelude::*;
use vstd::string::*;

verus! {

/// A colour, by its red, green, blue and opacity bytes.
#[derive(Clone, Copy, Debug, PartialEq, Eq)]
pub struct Color {
    pub r: u8,
    pub g: u8,
    pub b: u8,
    pub a: u8,
}

/// Opaque white.
pub open spec fn white() -> Color {
    Color { r: 255, g: 255, b: 255, a: 255 }
}

impl Color {
    /// The opaque colour with the given red, green and blue.
    pub fn opaque(r: u8, g: u8, b: u8) -> (color: Color)
        ensures
            color == (Color { r, g, b, a: 255 }),
    {
        Color { r, g, b, a: 255 }
    }

    /// Opaque white.
    pub fn white() -> (color: Color)
        ensures
            color == white(),
    {
        Color { r: 255, g: 255, b: 255, a: 255 }
    }
}

/// One thing to paint.
#[derive(Clone, Debug, PartialEq, Eq)]
pub enum Shape {
    /// A straight line from `(x1, y1)` to `(x2, y2)`.
    Line { x1: i64, y1: i64, x2: i64, y2: i64, thickness: i64, color: Color },
    /// A filled rectangle with its upper left corner at `(x, y)`.
    Rectangle { x: i64, y: i64, w: i64, h: i64, color: Color },
    /// A line of text with the left end of its baseline at `(x, y)`.
    Text { text: String, x: i64, y: i64, size: i64, color: Color },
}

/// The mathematical value of a [`Shape`].
pub enum ShapeView {
    Line { x1: int, y1: int, x2: int, y2: int, thickness: int, color: Color },
    Rectangle { x: int, y: int, w: int, h: int, color: Color },
    Text { text: Seq<char>, x: int, y: int, size: int, color: Color },
}

impl View for Shape {
    type V = ShapeView;

    open spec fn view(&self) -> ShapeView {
        match *self {
            Shape::Line { x1, y1, x2, y2, thickness, color } => ShapeView::Line {
                x1: x1 as int,
                y1: y1 as int,
                x2: x2 as int,
                y2: y2 as int,
                thickness: thickness as int,
                color,
            },
            Shape::Rectangle { x, y, w, h, color } => ShapeView::Rectangle {
                x: x as int,
                y: y as int,
                w: w as int,
                h: h as int,
                color,
            },
            Shape::Text { text, x, y, size, color } => ShapeView::Text {
                text: text@,
                x: x as int,
                y: y as int,
                size: size as int,
                color,
            },
        }
    }
}

/// The values of a list of shapes, in order.
pub open spec fn views(shapes: Seq<Shape>) -> Seq<ShapeView> {
    Seq::new(shapes.len(), |i: int| shapes[i]@)
}

/// Appending a shape to a list appends its value to the values of the list.
pub proof fn lemma_views_push(shapes: Seq<Shape>, shape: Shape)
    ensures
        views(shapes.push(shape)) == views(shapes).push(shape@),
{
    assert forall|i: int| 0 <= i < shapes.len() + 1 implies views(shapes.push(shape))[i] == views(
        shapes,
    ).push(shape@)[i] by {
        if i < shapes.len() {
            assert(shapes.push(shape)[i] == shapes[i]);
        }
    }
    assert(views(shapes.push(shape)) =~= views(shapes).push(shape@));
}

/// A line of white text.
pub open spec fn white_text(text: Seq<char>, x: int, y: int, size: int) -> ShapeView {
    ShapeView::Text { text, x, y, size, color: white() }
}

/// Makes a line of white text.
pub fn label(words: &str, x: i64, y: i64, size: i64) -> (shape: Shape)
    ensures
        shape@ == white_text(words@, x as int, y as int, size as int),
{
    Shape::Text { text: String::from_str(words), x, y, size, color: Color::white() }
}

} // verus!
