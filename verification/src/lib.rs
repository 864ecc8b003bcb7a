//! A data model and codec for the JSON Canvas interchange format: a document
//! of positioned nodes (text, file, link, group) connected by directional
//! edges, written to and read from a compact JSON wire format.
//!
//! The wire format, its printer and its parser are specified and verified in
//! the `json` and `codec` modules; the data model lives in `node`, `edge`,
//! `color` and `jsoncanvas`.

pub mod codec;
pub mod color;
pub mod edge;
mod error;
mod id;
pub mod json;
pub mod jsoncanvas;
pub mod node;
mod text;

pub use error::ParseError;
pub use id::{EdgeId, EmptyId, NodeId};
pub use jsoncanvas::{JsonCanvas, JsonCanvasError};
pub use node::{Background, BackgroundStyle, FileNode, GroupNode, LinkNode, Node, TextNode};

use vstd::prelude::*;

verus! {

/// A signed pixel coordinate: canvases may extend left and up from the origin.
pub type PixelCoordinate = i64;

/// An unsigned pixel dimension; zero is permitted (a degenerate node).
pub type PixelDimension = u64;

/// The view of an optional string: the character sequence of its content.
pub open spec fn opt_str_view(s: Option<String>) -> Option<Seq<char>> {
    match s {
        Some(x) => Some(x@),
        None => None,
    }
}

} // verus!
