//! The node model: one shared positional record, four payload variants.
//!
//! Every node kind embeds the same generic record (identifier, position,
//! size, optional color) by composition; the shared accessors are offered
//! once, through [`GenericNodeInfo`], and implemented per variant.

use vstd::prelude::*;

use crate::color::{color_wf, opt_color_view, Color, ColorV};
use crate::id::NodeId;
use crate::{PixelCoordinate, PixelDimension};

mod file;
mod group;
mod link;
mod text;

pub use file::{FileNode, FileNodeV};
pub use group::{Background, BackgroundStyle, BackgroundV, GroupNode, GroupNodeV};
pub use link::{is_valid_url, LinkNode, LinkNodeV};
pub use text::{TextNode, TextNodeV};

verus! {

/// Ghost mirror of [`GenericNode`].
#[verifier::ext_equal]
pub struct GenericNodeV {
    pub id: Seq<char>,
    pub x: i64,
    pub y: i64,
    pub width: u64,
    pub height: u64,
    pub color: Option<ColorV>,
}

/// A well-formed generic record: a non-empty identifier and, when a color is
/// set, a well-formed color.
pub open spec fn generic_wf(g: GenericNodeV) -> bool {
    g.id.len() > 0 && match g.color {
        Some(c) => color_wf(c),
        None => true,
    }
}

/// The positional and visual attributes every node kind shares.
#[derive(Debug)]
pub struct GenericNode {
    pub id: NodeId,
    pub(crate) x: PixelCoordinate,
    pub(crate) y: PixelCoordinate,
    pub(crate) width: PixelDimension,
    pub(crate) height: PixelDimension,
    pub(crate) color: Option<Color>,
}

impl View for GenericNode {
    type V = GenericNodeV;

    closed spec fn view(&self) -> GenericNodeV {
        GenericNodeV {
            id: self.id@,
            x: self.x,
            y: self.y,
            width: self.width,
            height: self.height,
            color: opt_color_view(self.color),
        }
    }
}

impl GenericNode {
    pub fn new(
        id: NodeId,
        x: PixelCoordinate,
        y: PixelCoordinate,
        width: PixelDimension,
        height: PixelDimension,
        color: Option<Color>,
    ) -> (g: GenericNode)
        ensures
            g@ == (GenericNodeV {
                id: id@,
                x,
                y,
                width,
                height,
                color: opt_color_view(color),
            }),
    {
        GenericNode { id, x, y, width, height, color }
    }
}

/// The attributes shared by every node kind, offered once per variant.
pub trait GenericNodeInfo {
    /// The generic record of this node, as a ghost value.
    spec fn generic_view(&self) -> GenericNodeV;

    /// The node's identifier.
    fn id(&self) -> (r: &NodeId)
        ensures
            r@ == self.generic_view().id,
    ;

    fn get_x(&self) -> (r: PixelCoordinate)
        ensures
            r == self.generic_view().x,
    ;

    fn get_y(&self) -> (r: PixelCoordinate)
        ensures
            r == self.generic_view().y,
    ;

    fn get_width(&self) -> (r: PixelDimension)
        ensures
            r == self.generic_view().width,
    ;

    fn get_height(&self) -> (r: PixelDimension)
        ensures
            r == self.generic_view().height,
    ;

    /// The node's color, if one is set.
    fn color(&self) -> (r: &Option<Color>)
        ensures
            opt_color_view(*r) == self.generic_view().color,
    ;
}

impl GenericNodeInfo for GenericNode {
    open spec fn generic_view(&self) -> GenericNodeV {
        self@
    }

    fn id(&self) -> (r: &NodeId) {
        &self.id
    }

    fn get_x(&self) -> (r: PixelCoordinate) {
        self.x
    }

    fn get_y(&self) -> (r: PixelCoordinate) {
        self.y
    }

    fn get_width(&self) -> (r: PixelDimension) {
        self.width
    }

    fn get_height(&self) -> (r: PixelDimension) {
        self.height
    }

    fn color(&self) -> (r: &Option<Color>) {
        &self.color
    }
}

/// Ghost mirror of [`Node`].
#[verifier::ext_equal]
pub enum NodeV {
    Text(TextNodeV),
    File(FileNodeV),
    Link(LinkNodeV),
    Group(GroupNodeV),
}

/// The generic record of a node value, whatever its variant.
pub open spec fn node_generic(n: NodeV) -> GenericNodeV {
    match n {
        NodeV::Text(t) => t.generic,
        NodeV::File(f) => f.generic,
        NodeV::Link(l) => l.generic,
        NodeV::Group(g) => g.generic,
    }
}

/// A well-formed node: its generic record is well formed and a link node's
/// URL is valid.
pub open spec fn node_wf(n: NodeV) -> bool {
    generic_wf(node_generic(n)) && match n {
        NodeV::Link(l) => is_valid_url(l.url),
        _ => true,
    }
}

/// A positioned visual element of one of four kinds, each carrying the
/// shared generic record plus its own payload.
#[derive(Debug)]
pub enum Node {
    Text(TextNode),
    File(FileNode),
    Link(LinkNode),
    Group(GroupNode),
}

impl View for Node {
    type V = NodeV;

    open spec fn view(&self) -> NodeV {
        match self {
            Node::Text(t) => NodeV::Text(t@),
            Node::File(f) => NodeV::File(f@),
            Node::Link(l) => NodeV::Link(l@),
            Node::Group(g) => NodeV::Group(g@),
        }
    }
}

impl GenericNodeInfo for Node {
    open spec fn generic_view(&self) -> GenericNodeV {
        node_generic(self@)
    }

    fn id(&self) -> (r: &NodeId) {
        match self {
            Node::Text(t) => t.id(),
            Node::File(f) => f.id(),
            Node::Link(l) => l.id(),
            Node::Group(g) => g.id(),
        }
    }

    fn get_x(&self) -> (r: PixelCoordinate) {
        match self {
            Node::Text(t) => t.get_x(),
            Node::File(f) => f.get_x(),
            Node::Link(l) => l.get_x(),
            Node::Group(g) => g.get_x(),
        }
    }

    fn get_y(&self) -> (r: PixelCoordinate) {
        match self {
            Node::Text(t) => t.get_y(),
            Node::File(f) => f.get_y(),
            Node::Link(l) => l.get_y(),
            Node::Group(g) => g.get_y(),
        }
    }

    fn get_width(&self) -> (r: PixelDimension) {
        match self {
            Node::Text(t) => t.get_width(),
            Node::File(f) => f.get_width(),
            Node::Link(l) => l.get_width(),
            Node::Group(g) => g.get_width(),
        }
    }

    fn get_height(&self) -> (r: PixelDimension) {
        match self {
            Node::Text(t) => t.get_height(),
            Node::File(f) => f.get_height(),
            Node::Link(l) => l.get_height(),
            Node::Group(g) => g.get_height(),
        }
    }

    fn color(&self) -> (r: &Option<Color>) {
        match self {
            Node::Text(t) => t.color(),
            Node::File(f) => f.color(),
            Node::Link(l) => l.color(),
            Node::Group(g) => g.color(),
        }
    }
}

impl From<TextNode> for Node {
    fn from(node: TextNode) -> (r: Node) {
        Node::Text(node)
    }
}

impl vstd::std_specs::convert::FromSpecImpl<TextNode> for Node {
    open spec fn obeys_from_spec() -> bool {
        true
    }

    open spec fn from_spec(node: TextNode) -> Node {
        Node::Text(node)
    }
}

impl From<FileNode> for Node {
    fn from(node: FileNode) -> (r: Node) {
        Node::File(node)
    }
}

impl vstd::std_specs::convert::FromSpecImpl<FileNode> for Node {
    open spec fn obeys_from_spec() -> bool {
        true
    }

    open spec fn from_spec(node: FileNode) -> Node {
        Node::File(node)
    }
}

impl From<LinkNode> for Node {
    fn from(node: LinkNode) -> (r: Node) {
        Node::Link(node)
    }
}

impl vstd::std_specs::convert::FromSpecImpl<LinkNode> for Node {
    open spec fn obeys_from_spec() -> bool {
        true
    }

    open spec fn from_spec(node: LinkNode) -> Node {
        Node::Link(node)
    }
}

impl From<GroupNode> for Node {
    fn from(node: GroupNode) -> (r: Node) {
        Node::Group(node)
    }
}

impl vstd::std_specs::convert::FromSpecImpl<GroupNode> for Node {
    open spec fn obeys_from_spec() -> bool {
        true
    }

    open spec fn from_spec(node: GroupNode) -> Node {
        Node::Group(node)
    }
}

} // verus!
