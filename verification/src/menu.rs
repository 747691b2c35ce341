//! The file browser: a start screen with one button, and behind it a list of
//! the entries of a directory, which scrolls and from which a file is picked.
//!
//! The browser reads no directory itself. [`Menu::wanted`] says what a tick
//! needs to know of the file system, the caller finds it out, and
//! [`Menu::handle_click`] makes the transition with what was [`Found`].

use vstd::prelude::*;
use vstd::string::*;
use crate::canvas::{label, lemma_views_push, views, white_text, Color, Shape, ShapeView};
use crate::fixed::{clamp, clamped};

verus! {

/// The left edge of the button column.
pub const COLUMN_LEFT: i64 = 275_000;

/// The right edge of the button column.
pub const COLUMN_RIGHT: i64 = 545_000;

/// The upper edge of the import button on the start screen.
pub const IMPORT_TOP: i64 = 475_000;

/// The lower edge of the import button on the start screen.
pub const IMPORT_BOTTOM: i64 = 520_000;

/// The upper edge of the back button below the list.
pub const BACK_TOP: i64 = 500_000;

/// The lower edge of the back button below the list.
pub const BACK_BOTTOM: i64 = 545_000;

/// The baseline of the first entry of an unscrolled list.
pub const LIST_TOP: i64 = 160_000;

/// The height of one entry of the list.
pub const ROW_HEIGHT: i64 = 25_000;

/// The height of the panel behind the list.
pub const PANEL_HEIGHT: i64 = 340_000;

/// The state of the mouse in one tick: where the pointer is, whether the
/// left button went down in this tick, and how far the wheel was turned.
#[derive(Clone, Copy, Debug, PartialEq, Eq)]
pub struct Pointer {
    pub x: i64,
    pub y: i64,
    pub pressed: bool,
    pub wheel_y: i64,
}

/// What a tick needs to know of the file system before it can be handled.
#[derive(Clone, Debug, PartialEq, Eq)]
pub enum Wanted {
    /// Nothing.
    Nothing,
    /// The entries of the directory at this path.
    Listing(String),
    /// Whether this path is a directory, and its entries if it is.
    Probe(String),
}

/// The mathematical value of a [`Wanted`].
pub enum WantedView {
    Nothing,
    Listing(Seq<char>),
    Probe(Seq<char>),
}

impl View for Wanted {
    type V = WantedView;

    open spec fn view(&self) -> WantedView {
        match *self {
            Wanted::Nothing => WantedView::Nothing,
            Wanted::Listing(path) => WantedView::Listing(path@),
            Wanted::Probe(path) => WantedView::Probe(path@),
        }
    }
}

/// What the caller found in the file system: whether the probed path is a
/// directory, and the entries of the directory that was asked for. A
/// directory that cannot be read has no entries.
#[derive(Clone, Debug, PartialEq, Eq)]
pub struct Found {
    pub directory: bool,
    pub listing: Vec<String>,
}

/// The mathematical value of a [`Found`].
pub struct FoundView {
    pub directory: bool,
    pub listing: Seq<Seq<char>>,
}

/// The texts of a list of strings, in order.
pub open spec fn texts(strings: Seq<String>) -> Seq<Seq<char>> {
    Seq::new(strings.len(), |i: int| strings[i]@)
}

impl View for Found {
    type V = FoundView;

    open spec fn view(&self) -> FoundView {
        FoundView { directory: self.directory, listing: texts(self.listing@) }
    }
}

/// The file browser.
#[derive(Clone, Debug, PartialEq, Eq)]
pub struct Menu {
    pub opened_file_menu: bool,
    pub current_path: String,
    pub files: Vec<String>,
    pub selected_file: Option<String>,
    pub scroll_offset: i64,
}

/// The mathematical value of a [`Menu`].
pub struct MenuView {
    pub opened_file_menu: bool,
    pub current_path: Seq<char>,
    pub files: Seq<Seq<char>>,
    pub selected_file: Option<Seq<char>>,
    pub scroll_offset: int,
}

impl View for Menu {
    type V = MenuView;

    open spec fn view(&self) -> MenuView {
        MenuView {
            opened_file_menu: self.opened_file_menu,
            current_path: self.current_path@,
            files: texts(self.files@),
            selected_file: match self.selected_file {
                Some(path) => Some(path@),
                None => None,
            },
            scroll_offset: self.scroll_offset as int,
        }
    }
}

/// What the pointer is on in an open browser.
pub enum Target {
    /// Neither the back button nor an entry.
    Nothing,
    /// The entry with this index.
    Entry(int),
    /// The back button.
    Back,
}

/// Whether the pointer is within the button column.
pub open spec fn in_column(pointer: Pointer) -> bool {
    COLUMN_LEFT <= pointer.x <= COLUMN_RIGHT
}

/// Whether the pointer is over the import button of the start screen.
pub open spec fn over_import(pointer: Pointer) -> bool {
    in_column(pointer) && IMPORT_TOP <= pointer.y <= IMPORT_BOTTOM
}

/// Whether the pointer is over the back button.
pub open spec fn over_back(pointer: Pointer) -> bool {
    in_column(pointer) && BACK_TOP <= pointer.y <= BACK_BOTTOM
}

/// The baseline of entry `i` of a list that is scrolled by `scroll`.
pub open spec fn row_bottom(scroll: int, i: int) -> int {
    LIST_TOP - scroll + ROW_HEIGHT * i
}

/// Whether the height `y` lies in the row of entry `i`: between its baseline
/// and one row height above it, both ends included.
pub open spec fn in_row(scroll: int, y: int, i: int) -> bool {
    row_bottom(scroll, i) - ROW_HEIGHT <= y <= row_bottom(scroll, i)
}

/// The last of the first `n` entries whose row holds the height `y`. Rows
/// that follow each other share an end, and there the later row has it.
pub open spec fn last_row_at(scroll: int, y: int, n: int) -> Option<int>
    decreases n,
{
    if n <= 0 {
        None
    } else if in_row(scroll, y, n - 1) {
        Some(n - 1)
    } else {
        last_row_at(scroll, y, n - 1)
    }
}

/// The scroll offset after the wheel was turned by `wheel` over a list of
/// `len` entries: ten times the turn is taken off, then the offset is kept
/// from falling below zero, then from exceeding the height of the list
/// less the height of the panel. A list shorter than the panel therefore
/// ends at a negative offset. The result saturates at the ends of the range
/// of stored values.
pub open spec fn scrolled(scroll: int, wheel: int, len: int) -> int {
    let moved = scroll - 10 * wheel;
    let raised = if moved < 0 {
        0
    } else {
        moved
    };
    let most = ROW_HEIGHT * len - PANEL_HEIGHT;
    clamped(
        if raised > most {
            most
        } else {
            raised
        },
    )
}

impl MenuView {
    /// What the pointer is on in an open browser. Only a press of the button
    /// counts. The back button, which is there unless the current path is
    /// `"."`, comes before an entry that lies under it.
    pub open spec fn target(self, pointer: Pointer) -> Target {
        if pointer.pressed && self.current_path != "."@ && over_back(pointer) {
            Target::Back
        } else if pointer.pressed && in_column(pointer) {
            match last_row_at(self.scroll_offset, pointer.y as int, self.files.len() as int) {
                Some(i) => Target::Entry(i),
                None => Target::Nothing,
            }
        } else {
            Target::Nothing
        }
    }

    /// What [`Menu::handle_click`] needs to know of the file system.
    pub open spec fn wanted(self, pointer: Pointer) -> WantedView {
        if !self.opened_file_menu {
            if over_import(pointer) {
                WantedView::Listing(self.current_path)
            } else {
                WantedView::Nothing
            }
        } else {
            match self.target(pointer) {
                Target::Back => WantedView::Listing(".."@),
                Target::Entry(i) => WantedView::Probe(self.files[i]),
                Target::Nothing => WantedView::Nothing,
            }
        }
    }

    /// The browser after the pointer acted on what it is on.
    pub open spec fn acted(self, pointer: Pointer, found: FoundView) -> MenuView {
        match self.target(pointer) {
            Target::Back => MenuView {
                current_path: ".."@,
                files: found.listing,
                scroll_offset: 0,
                ..self
            },
            Target::Entry(i) => if found.directory {
                MenuView {
                    current_path: self.files[i],
                    files: found.listing,
                    scroll_offset: 0,
                    ..self
                }
            } else {
                MenuView { selected_file: Some(self.files[i]), ..self }
            },
            Target::Nothing => self,
        }
    }

    /// The browser after one tick of the mouse.
    ///
    /// On the start screen the browser opens, with the entries that were
    /// found, as soon as the pointer is over the import button. An open
    /// browser goes up to `".."` on the back button, enters the entry under
    /// the pointer if that is a directory, and selects it as the file
    /// otherwise; then the wheel scrolls the list that is now shown.
    pub open spec fn clicked(self, pointer: Pointer, found: FoundView) -> MenuView {
        if !self.opened_file_menu {
            if over_import(pointer) {
                MenuView { opened_file_menu: true, files: found.listing, ..self }
            } else {
                self
            }
        } else {
            let acted = self.acted(pointer, found);
            MenuView {
                scroll_offset: scrolled(
                    acted.scroll_offset,
                    pointer.wheel_y as int,
                    acted.files.len() as int,
                ),
                ..acted
            }
        }
    }
}

/// The largest of the first `n` widths, and zero where none is positive.
pub open spec fn widest(widths: Seq<i64>, n: int) -> int
    decreases n,
{
    if n <= 0 {
        0
    } else {
        let before = widest(widths, n - 1);
        if widths[n - 1] > before {
            widths[n - 1] as int
        } else {
            before
        }
    }
}

/// The start screen: the two lines of the title, the import button, which
/// is darker while the pointer is over it, and its caption.
pub open spec fn start_screen(pointer: Pointer) -> Seq<ShapeView> {
    seq![
        white_text("RSRender"@, 315_000, 200_000, 45_000),
        white_text("by Neomin"@, 305_000, 245_000, 45_000),
        ShapeView::Rectangle {
            x: COLUMN_LEFT as int,
            y: IMPORT_TOP as int,
            w: COLUMN_RIGHT - COLUMN_LEFT,
            h: IMPORT_BOTTOM - IMPORT_TOP,
            color: if over_import(pointer) {
                Color { r: 200, g: 50, b: 50, a: 255 }
            } else {
                Color { r: 250, g: 50, b: 50, a: 255 }
            },
        },
        white_text("Click to Import json"@, 295_000, 500_000, 25_000),
    ]
}

/// The panel behind the list, `width` wide.
pub open spec fn panel(width: int) -> ShapeView {
    ShapeView::Rectangle {
        x: COLUMN_LEFT as int,
        y: 150_000,
        w: width,
        h: PANEL_HEIGHT as int,
        color: Color { r: 50, g: 50, b: 50, a: 255 },
    }
}

/// The line of entry `i` of the list.
pub open spec fn entry_row(files: Seq<Seq<char>>, scroll: int, i: int) -> ShapeView {
    white_text(files[i], 280_000, clamped(row_bottom(scroll, i)), 20_000)
}

/// The back button, `width` wide, and its caption.
pub open spec fn back_button(width: int) -> Seq<ShapeView> {
    seq![
        ShapeView::Rectangle {
            x: COLUMN_LEFT as int,
            y: BACK_TOP as int,
            w: width,
            h: BACK_BOTTOM - BACK_TOP,
            color: Color { r: 100, g: 100, b: 250, a: 255 },
        },
        white_text("Back"@, 380_000, 525_000, 25_000),
    ]
}

impl MenuView {
    /// The width of the panel and of the back button: forty pixels more
    /// than the widest of the measured entries.
    pub open spec fn panel_width(widths: Seq<i64>) -> int {
        clamped(widest(widths, widths.len() as int) + 40_000)
    }

    /// What the browser puts on the canvas. On the start screen that is
    /// [`start_screen`]. An open browser shows the panel, on it one line
    /// for every entry at its scrolled height, and the back button unless
    /// the current path is `"."`.
    pub open spec fn shapes(self, pointer: Pointer, widths: Seq<i64>) -> Seq<ShapeView> {
        if !self.opened_file_menu {
            start_screen(pointer)
        } else {
            seq![panel(Self::panel_width(widths))] + Seq::new(
                self.files.len(),
                |i: int| entry_row(self.files, self.scroll_offset, i),
            ) + if self.current_path != "."@ {
                back_button(Self::panel_width(widths))
            } else {
                Seq::empty()
            }
        }
    }
}

/// What the pointer is on in an open browser, with the index as a machine integer.
enum Hit {
    Nothing,
    Entry(usize),
    Back,
}

impl Hit {
    /// The same, with the index as a mathematical integer.
    spec fn target(self) -> Target {
        match self {
            Hit::Nothing => Target::Nothing,
            Hit::Entry(i) => Target::Entry(i as int),
            Hit::Back => Target::Back,
        }
    }
}

/// Says whether the pointer is within the button column.
fn is_in_column(pointer: &Pointer) -> (r: bool)
    ensures
        r == in_column(*pointer),
{
    COLUMN_LEFT <= pointer.x && pointer.x <= COLUMN_RIGHT
}

/// Says whether the pointer is over the import button of the start screen.
fn is_over_import(pointer: &Pointer) -> (r: bool)
    ensures
        r == over_import(*pointer),
{
    is_in_column(pointer) && IMPORT_TOP <= pointer.y && pointer.y <= IMPORT_BOTTOM
}

/// Says whether the pointer is over the back button.
fn is_over_back(pointer: &Pointer) -> (r: bool)
    ensures
        r == over_back(*pointer),
{
    is_in_column(pointer) && BACK_TOP <= pointer.y && pointer.y <= BACK_BOTTOM
}

/// Says whether `path` is `"."`, the directory in which the browser starts.
fn is_start(path: &String) -> (r: bool)
    ensures
        r == (path@ == "."@),
{
    let start: String = String::from_str(".");
    *path == start
}

impl Menu {
    /// The browser on its start screen, in the directory `"."`.
    pub fn new() -> (menu: Menu)
        ensures
            menu@ == (MenuView {
                opened_file_menu: false,
                current_path: "."@,
                files: Seq::empty(),
                selected_file: None,
                scroll_offset: 0,
            }),
    {
        let menu = Menu {
            opened_file_menu: false,
            current_path: String::from_str("."),
            files: Vec::new(),
            selected_file: None,
            scroll_offset: 0,
        };
        assert(menu@.files =~= Seq::empty());
        menu
    }

    /// Replaces the list by the entries that were read from the current directory.
    pub fn list_files(&mut self, entries: Vec<String>)
        ensures
            final(self)@ == (MenuView { files: texts(entries@), ..old(self)@ }),
    {
        self.files = entries;
    }

    /// Finds what the pointer is on in an open browser.
    fn target(&self, pointer: &Pointer) -> (hit: Hit)
        ensures
            hit.target() == self@.target(*pointer),
            hit matches Hit::Entry(i) ==> i < self.files.len(),
    {
        if pointer.pressed && !is_start(&self.current_path) && is_over_back(pointer) {
            return Hit::Back;
        }
        let mut hit: Hit = Hit::Nothing;
        if pointer.pressed && is_in_column(pointer) {
            let base: i128 = LIST_TOP as i128 - self.scroll_offset as i128;
            let y: i128 = pointer.y as i128;
            let mut i: usize = 0;
            while i < self.files.len()
                invariant
                    i <= self.files.len(),
                    base == LIST_TOP - self.scroll_offset,
                    y == pointer.y,
                    hit matches Hit::Entry(k) ==> k < i,
                    !(hit is Back),
                    match last_row_at(self.scroll_offset as int, pointer.y as int, i as int) {
                        Some(k) => hit.target() == Target::Entry(k),
                        None => hit.target() == Target::Nothing,
                    },
                decreases self.files.len() - i,
            {
                let y_offset: i128 = base + ROW_HEIGHT as i128 * i as i128;
                if y >= y_offset - ROW_HEIGHT as i128 && y <= y_offset {
                    hit = Hit::Entry(i);
                }
                i += 1;
            }
        }
        hit
    }

    /// Says what [`Menu::handle_click`] needs to know of the file system
    /// before it can handle this tick of the mouse.
    pub fn wanted(&self, pointer: &Pointer) -> (wanted: Wanted)
        ensures
            wanted@ == self@.wanted(*pointer),
    {
        if !self.opened_file_menu {
            if is_over_import(pointer) {
                Wanted::Listing(self.current_path.clone())
            } else {
                Wanted::Nothing
            }
        } else {
            match self.target(pointer) {
                Hit::Back => Wanted::Listing(String::from_str("..")),
                Hit::Entry(i) => Wanted::Probe(self.files[i].clone()),
                Hit::Nothing => Wanted::Nothing,
            }
        }
    }

    /// Handles one tick of the mouse, see [`MenuView::clicked`].
    ///
    /// `found` is to hold what [`Menu::wanted`] asked for. Whatever it holds,
    /// the transition is made with it: a listing that was not asked for is
    /// not looked at.
    pub fn handle_click(&mut self, pointer: &Pointer, found: Found)
        ensures
            final(self)@ == old(self)@.clicked(*pointer, found@),
    {
        if !self.opened_file_menu {
            if is_over_import(pointer) {
                self.opened_file_menu = true;
                self.list_files(found.listing);
            }
        } else {
            match self.target(pointer) {
                Hit::Back => {
                    self.current_path = String::from_str("..");
                    self.list_files(found.listing);
                    self.scroll_offset = 0;
                },
                Hit::Entry(i) => {
                    let file: String = self.files[i].clone();
                    if found.directory {
                        self.current_path = file;
                        self.list_files(found.listing);
                        self.scroll_offset = 0;
                    } else {
                        self.selected_file = Some(file);
                    }
                },
                Hit::Nothing => {},
            }
            let moved: i128 = self.scroll_offset as i128 - 10 * pointer.wheel_y as i128;
            let raised: i128 = if moved < 0 {
                0
            } else {
                moved
            };
            let max_scroll: i128 = ROW_HEIGHT as i128 * self.files.len() as i128
                - PANEL_HEIGHT as i128;
            self.scroll_offset = clamp(
                if raised > max_scroll {
                    max_scroll
                } else {
                    raised
                },
            );
        }
    }

    /// Finds the width of the panel from the measured widths of the entries.
    fn panel_width(widths: &Vec<i64>) -> (width: i64)
        ensures
            width == MenuView::panel_width(widths@),
    {
        let mut max_width: i64 = 0;
        let mut i: usize = 0;
        while i < widths.len()
            invariant
                i <= widths.len(),
                max_width == widest(widths@, i as int),
            decreases widths.len() - i,
        {
            if widths[i] > max_width {
                max_width = widths[i];
            }
            i += 1;
        }
        clamp(max_width as i128 + 40_000)
    }

    /// Lists what the browser puts on the canvas, see [`MenuView::shapes`].
    ///
    /// `widths` holds the width that each entry takes when it is written
    /// at the size of the list, twenty pixels.
    pub fn draw(&self, pointer: &Pointer, widths: &Vec<i64>) -> (shapes: Vec<Shape>)
        ensures
            views(shapes@) == self@.shapes(*pointer, widths@),
    {
        let mut shapes: Vec<Shape> = Vec::new();
        if !self.opened_file_menu {
            shapes.push(label("RSRender", 315_000, 200_000, 45_000));
            shapes.push(label("by Neomin", 305_000, 245_000, 45_000));
            let button_color: Color = if is_over_import(pointer) {
                Color::opaque(200, 50, 50)
            } else {
                Color::opaque(250, 50, 50)
            };
            shapes.push(
                Shape::Rectangle {
                    x: COLUMN_LEFT,
                    y: IMPORT_TOP,
                    w: COLUMN_RIGHT - COLUMN_LEFT,
                    h: IMPORT_BOTTOM - IMPORT_TOP,
                    color: button_color,
                },
            );
            shapes.push(label("Click to Import json", 295_000, 500_000, 25_000));
            assert(views(shapes@) =~= start_screen(*pointer));
        } else {
            let rect_width: i64 = Self::panel_width(widths);
            shapes.push(
                Shape::Rectangle {
                    x: COLUMN_LEFT,
                    y: 150_000,
                    w: rect_width,
                    h: PANEL_HEIGHT,
                    color: Color::opaque(50, 50, 50),
                },
            );
            assert(views(shapes@) =~= seq![panel(rect_width as int)]);
            let base: i128 = LIST_TOP as i128 - self.scroll_offset as i128;
            let mut i: usize = 0;
            while i < self.files.len()
                invariant
                    i <= self.files.len(),
                    base == LIST_TOP - self.scroll_offset,
                    views(shapes@) =~= seq![panel(rect_width as int)] + Seq::new(
                        i as nat,
                        |k: int| entry_row(self@.files, self.scroll_offset as int, k),
                    ),
                decreases self.files.len() - i,
            {
                let y_offset: i64 = clamp(base + ROW_HEIGHT as i128 * i as i128);
                let row = label(self.files[i].as_str(), 280_000, y_offset, 20_000);
                proof {
                    lemma_views_push(shapes@, row);
                }
                shapes.push(row);
                i += 1;
            }
            if !is_start(&self.current_path) {
                let button = Shape::Rectangle {
                    x: COLUMN_LEFT,
                    y: BACK_TOP,
                    w: rect_width,
                    h: BACK_BOTTOM - BACK_TOP,
                    color: Color::opaque(100, 100, 250),
                };
                proof {
                    lemma_views_push(shapes@, button);
                }
                shapes.push(button);
                let caption = label("Back", 380_000, 525_000, 25_000);
                proof {
                    lemma_views_push(shapes@, caption);
                }
                shapes.push(caption);
            }
            assert(views(shapes@) =~= self@.shapes(*pointer, widths@));
        }
        shapes
    }
}

} // verus!
