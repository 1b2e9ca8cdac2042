//! The Sierpinski carpet as a raster image.
//!
//! A square is cut into nine cells, the middle one is painted, and the same
//! is done to each of the eight cells around it, as many levels down as
//! asked for. [`pattern`] says which pixel gets which colour; [`carpet`] and
//! [`recursive`] paint accordingly, one from a work list and one by
//! recursion; [`laws`] and [`order`] hold what follows for every carpet.
//! [`palette`] is the table of colour schemes, [`side`] the size of the
//! image, [`render`] the two together. [`input`], [`path`] and [`bench`]
//! serve a program around the painter: its command line, the name of its
//! output file and the timing of the painting.

pub mod bench;
pub mod canvas;
pub mod carpet;
pub mod cells;
pub mod color;
pub mod input;
pub mod laws;
pub mod order;
pub mod paint;
pub mod palette;
pub mod path;
pub mod pattern;
pub mod recursive;
pub mod render;
pub mod side;
pub mod square;
