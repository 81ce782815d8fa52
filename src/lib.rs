//! Scene graph, property store and expression engine of a retained-mode UI
//! toolkit, with a keyed draw-call registry that composes frames.
//!
//! Numeric values are fixed-point: an `i64` counts millionths of a unit
//! (see [`fixed::UNIT`]).
use vstd::prelude::*;

pub mod fixed;
pub mod text;
pub mod expr;
pub mod lexer;
pub mod parser;
pub mod gfx;
pub mod prop;
pub mod draw;
pub mod scene;
pub mod mesh;
pub mod shape;
pub mod visual;
pub mod picker;
pub mod observer;
pub mod logfilter;
pub mod paths;
pub mod laws;

verus! {

} // verus!
