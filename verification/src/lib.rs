//! A small textual drawing language and its geometry interpreter.
//!
//! Source text such as `MOVE 0,0,LINE 10,10,END` is tokenized and parsed
//! into a `Program` of drawing commands, which an interpreter replays into
//! polylines (ordered point lists) under a composable stack of 3x3
//! transforms.  Coordinates are fixed-point numbers: an `i64` counting
//! millionths of a unit (see `fixed`).

pub mod any_data;
pub mod data_src;
pub mod fixed;
pub mod gen;
pub mod interfaces;
pub mod matrix;
pub mod ops;
pub mod parser;
pub mod syntax;
pub mod text;
pub mod trig;
