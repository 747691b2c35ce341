//! The viewer as a whole: the mesh, the file browser, and the bridge that
//! takes a file which the browser selected into the mesh.
//!
//! The viewer opens no file. The caller reads the file that the browser
//! selected and reports what came of it as a [`Reading`]; [`Viewer::load`]
//! decides what that means for the mesh.

use vstd::prelude::*;
use vstd::string::*;
use crate::canvas::{label, views, white_text, Shape, ShapeView};
use crate::document::{Document, DocumentView, LoadError};
use crate::fixed::quotient;
use crate::geometry::{cube, Geometry, GeometryView, Keys};
use crate::menu::{Menu, MenuView};

verus! {

/// What came of reading the file that the browser selected.
#[derive(Clone, Debug, PartialEq, Eq)]
pub enum Reading {
    /// The file could not be opened.
    OpenFailed,
    /// The file was opened, but what it holds is not text.
    ReadFailed,
    /// The text is not a mesh document; the parser's own words say why.
    ParseFailed(String),
    /// The text is this document.
    Parsed(Document),
}

/// The mathematical value of a [`Reading`].
pub enum ReadingView {
    OpenFailed,
    ReadFailed,
    ParseFailed(Seq<char>),
    Parsed(DocumentView),
}

impl View for Reading {
    type V = ReadingView;

    open spec fn view(&self) -> ReadingView {
        match *self {
            Reading::OpenFailed => ReadingView::OpenFailed,
            Reading::ReadFailed => ReadingView::ReadFailed,
            Reading::ParseFailed(words) => ReadingView::ParseFailed(words@),
            Reading::Parsed(doc) => ReadingView::Parsed(doc@),
        }
    }
}

/// The viewer: the mesh that is shown, the file browser, whether the mesh
/// or the browser has the screen, and the message of the last load that failed.
#[derive(Clone, Debug, PartialEq, Eq)]
pub struct Viewer {
    pub geometry: Geometry,
    pub menu: Menu,
    pub apply_render: bool,
    pub loading_message: Option<String>,
}

/// The mathematical value of a [`Viewer`].
pub struct ViewerView {
    pub geometry: GeometryView,
    pub menu: MenuView,
    pub apply_render: bool,
    pub loading_message: Option<Seq<char>>,
}

impl View for Viewer {
    type V = ViewerView;

    open spec fn view(&self) -> ViewerView {
        ViewerView {
            geometry: self.geometry@,
            menu: self.menu@,
            apply_render: self.apply_render,
            loading_message: match self.loading_message {
                Some(words) => Some(words@),
                None => None,
            },
        }
    }
}

/// The message that a reading leaves if the mesh is not loaded from it.
pub open spec fn failure(reading: ReadingView) -> Option<Seq<char>> {
    match reading {
        ReadingView::OpenFailed => Some("Erro to open the file."@),
        ReadingView::ReadFailed => Some("Error to read."@),
        ReadingView::ParseFailed(words) => Some("Error to deserialize JSON: "@ + words),
        ReadingView::Parsed(doc) => match doc.fault() {
            Some(error) => Some("Error to deserialize JSON: "@ + error.text()),
            None => None,
        },
    }
}

impl ViewerView {
    /// The viewer after the attempt to load the selected file.
    ///
    /// A document that loads replaces the whole mesh, view and edit state
    /// included; the mesh takes the screen, the browser closes, and the
    /// message goes. After any failure the mesh, and who has the screen,
    /// stay as they were, and the message says what failed. Either way the
    /// selection is taken off the browser, so that no file is tried twice.
    pub open spec fn loaded(self, reading: ReadingView) -> ViewerView {
        match failure(reading) {
            Some(words) => ViewerView {
                loading_message: Some(words),
                menu: MenuView { selected_file: None, ..self.menu },
                ..self
            },
            None => ViewerView {
                geometry: reading->Parsed_0.filled(),
                menu: MenuView { opened_file_menu: false, selected_file: None, ..self.menu },
                apply_render: true,
                loading_message: None,
            },
        }
    }

    /// The viewer after one tick of the keys: they act on the mesh while
    /// that has the screen, and the escape key then gives the screen back
    /// to the browser.
    pub open spec fn updated(self, keys: Keys, escape: bool) -> ViewerView {
        if self.apply_render {
            ViewerView {
                geometry: self.geometry.step(keys),
                apply_render: !escape,
                ..self
            }
        } else {
            self
        }
    }

    /// The message of the last failed load, written left of the middle of
    /// a screen of the given size; nothing where there is no message.
    pub open spec fn message_shapes(self, width: int, height: int) -> Seq<ShapeView> {
        match self.loading_message {
            Some(words) => seq![
                white_text(words, quotient(width, 2) - 100_000, quotient(height, 2), 30_000),
            ],
            None => Seq::empty(),
        }
    }
}

/// A load that fails leaves the mesh as it was, and so does a load of a
/// document with an edge to a vertex that it does not have.
pub proof fn failed_load_keeps_the_mesh(viewer: ViewerView, reading: ReadingView)
    requires
        !(reading is Parsed) || reading->Parsed_0.loaded() is Err,
    ensures
        viewer.loaded(reading).geometry == viewer.geometry,
        viewer.loaded(reading).apply_render == viewer.apply_render,
        viewer.loaded(reading).loading_message is Some,
        viewer.loaded(reading).menu.selected_file is None,
{
}

/// A document that loads replaces the mesh by the one that it describes,
/// and the new mesh is well formed.
pub proof fn good_load_replaces_the_mesh(viewer: ViewerView, doc: DocumentView)
    requires
        doc.loaded() is Ok,
    ensures
        Ok::<GeometryView, LoadError>(viewer.loaded(ReadingView::Parsed(doc)).geometry)
            == doc.loaded(),
        viewer.loaded(ReadingView::Parsed(doc)).geometry.wf(),
        viewer.loaded(ReadingView::Parsed(doc)).apply_render,
        viewer.loaded(ReadingView::Parsed(doc)).loading_message is None,
{
}

/// Puts the heading of a parse failure before the words that say why.
fn parse_failure(words: &str) -> (message: String)
    ensures
        message@ == "Error to deserialize JSON: "@ + words@,
{
    let mut message: String = String::from_str("Error to deserialize JSON: ");
    message.append(words);
    message
}

impl Viewer {
    /// The invariant of the viewer: that of its mesh.
    pub open spec fn wf(&self) -> bool {
        self.geometry.wf()
    }

    /// The viewer as it starts: the cube, the browser on its start screen,
    /// which has the screen, and no message.
    pub fn new() -> (viewer: Viewer)
        ensures
            viewer@ == (ViewerView {
                geometry: cube(),
                menu: MenuView {
                    opened_file_menu: false,
                    current_path: "."@,
                    files: Seq::empty(),
                    selected_file: None,
                    scroll_offset: 0,
                },
                apply_render: false,
                loading_message: None,
            }),
            viewer.wf(),
    {
        Viewer {
            geometry: Geometry::cube(),
            menu: Menu::new(),
            apply_render: false,
            loading_message: None,
        }
    }

    /// Records a load that failed with the given message.
    fn fail(&mut self, message: String)
        ensures
            final(self)@ == (ViewerView {
                loading_message: Some(message@),
                menu: MenuView { selected_file: None, ..old(self)@.menu },
                ..old(self)@
            }),
            final(self).geometry == old(self).geometry,
    {
        self.loading_message = Some(message);
        self.menu.selected_file = None;
    }

    /// Takes what came of reading the selected file, see [`ViewerView::loaded`].
    pub fn load(&mut self, reading: Reading)
        requires
            old(self).wf(),
        ensures
            final(self)@ == old(self)@.loaded(reading@),
            final(self).wf(),
    {
        match reading {
            Reading::OpenFailed => {
                self.fail(String::from_str("Erro to open the file."));
            },
            Reading::ReadFailed => {
                self.fail(String::from_str("Error to read."));
            },
            Reading::ParseFailed(words) => {
                self.fail(parse_failure(words.as_str()));
            },
            Reading::Parsed(doc) => {
                match Geometry::from_document(doc) {
                    Ok(new_geometry) => {
                        self.geometry = new_geometry;
                        self.loading_message = None;
                        self.apply_render = true;
                        self.menu.opened_file_menu = false;
                        self.menu.selected_file = None;
                    },
                    Err(error) => {
                        let words: String = error.message();
                        self.fail(parse_failure(words.as_str()));
                    },
                }
            },
        }
    }

    /// Applies one tick of the keys, see [`ViewerView::updated`].
    pub fn update(&mut self, keys: &Keys, escape: bool)
        requires
            old(self).wf(),
        ensures
            final(self)@ == old(self)@.updated(*keys, escape),
            final(self).wf(),
    {
        if self.apply_render {
            self.geometry.movement(keys);
            if escape {
                self.apply_render = false;
            }
        }
    }

    /// Lists the message of the last failed load for a screen of the given
    /// size, see [`ViewerView::message_shapes`].
    pub fn draw_message(&self, width: i64, height: i64) -> (shapes: Vec<Shape>)
        ensures
            views(shapes@) == self@.message_shapes(width as int, height as int),
    {
        let mut shapes: Vec<Shape> = Vec::new();
        match &self.loading_message {
            Some(message) => {
                shapes.push(label(message.as_str(), width / 2 - 100_000, height / 2, 30_000));
                assert(views(shapes@) =~= self@.message_shapes(width as int, height as int));
            },
            None => {
                assert(views(shapes@) =~= self@.message_shapes(width as int, height as int));
            },
        }
        shapes
    }
}

} // verus!
