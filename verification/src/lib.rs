//! A wireframe viewer without a window.
//!
//! The crate holds the logic of an interactive viewer for meshes of
//! vertices and edges: the rotation and projection that take a vertex to
//! the screen, the mesh with its view and edit state and the transition
//! that a tick of the keyboard makes on it, the mesh document, the file
//! browser, and the bridge from a selected file to the mesh. It opens no
//! window and no file. Input comes in as plain values, and what is to be
//! drawn goes out as lists of shapes.
//!
//! Lengths, angles and factors are `i64`s that count thousandths, see
//! [`fixed`]; cosines and sines count millionths, see [`math::Turn`].

pub mod canvas;
pub mod document;
pub mod drawing;
pub mod fixed;
pub mod geometry;
pub mod math;
pub mod menu;
pub mod viewer;

pub use crate::geometry::Geometry;
pub use crate::math::{project, rotate, transform};
pub use crate::menu::Menu;
