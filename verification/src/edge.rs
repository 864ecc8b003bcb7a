//! The edge model: a directed connection between two node identifiers, each
//! end optionally annotated with an attachment side and an arrowhead style,
//! plus an optional color and label.

use vstd::prelude::*;

use crate::color::{color_wf, opt_color_view, Color, ColorV};
use crate::id::{EdgeId, NodeId};
use crate::opt_str_view;

verus! {

/// The side of a node's bounding box an edge attaches to.
#[derive(Debug, Clone, Copy, PartialEq, Eq, Structural)]
pub enum Side {
    Top,
    Left,
    Right,
    Bottom,
}

/// The terminal decoration of an edge endpoint: a bare line end (the wire
/// token `none`) or an arrowhead.
#[derive(Debug, Clone, Copy, PartialEq, Eq, Structural)]
pub enum End {
    NoArrow,
    Arrow,
}

/// Ghost mirror of [`Edge`].
#[verifier::ext_equal]
pub struct EdgeV {
    pub id: Seq<char>,
    pub from_node: Seq<char>,
    pub from_side: Option<Side>,
    pub from_end: Option<End>,
    pub to_node: Seq<char>,
    pub to_side: Option<Side>,
    pub to_end: Option<End>,
    pub color: Option<ColorV>,
    pub label: Option<Seq<char>>,
}

/// A well-formed edge: non-empty identifiers and, when a color is set, a
/// well-formed color.
pub open spec fn edge_wf(e: EdgeV) -> bool {
    e.id.len() > 0 && e.from_node.len() > 0 && e.to_node.len() > 0 && match e.color {
        Some(c) => color_wf(c),
        None => true,
    }
}

/// A directed connection between two nodes.
#[derive(Debug)]
pub struct Edge {
    pub id: EdgeId,
    pub from_node: NodeId,
    pub(crate) from_side: Option<Side>,
    pub(crate) from_end: Option<End>,
    pub to_node: NodeId,
    pub(crate) to_side: Option<Side>,
    pub(crate) to_end: Option<End>,
    pub(crate) color: Option<Color>,
    pub(crate) label: Option<String>,
}

/// What an endpoint update hands back: the previous node, side and end.
pub type Terminus = (NodeId, Option<Side>, Option<End>);

impl View for Edge {
    type V = EdgeV;

    closed spec fn view(&self) -> EdgeV {
        EdgeV {
            id: self.id@,
            from_node: self.from_node@,
            from_side: self.from_side,
            from_end: self.from_end,
            to_node: self.to_node@,
            to_side: self.to_side,
            to_end: self.to_end,
            color: opt_color_view(self.color),
            label: opt_str_view(self.label),
        }
    }
}

impl Edge {
    pub fn new(
        id: EdgeId,
        from_node: NodeId,
        from_side: Option<Side>,
        from_end: Option<End>,
        to_node: NodeId,
        to_side: Option<Side>,
        to_end: Option<End>,
        color: Option<Color>,
        label: Option<String>,
    ) -> (e: Edge)
        ensures
            e@ == (EdgeV {
                id: id@,
                from_node: from_node@,
                from_side,
                from_end,
                to_node: to_node@,
                to_side,
                to_end,
                color: opt_color_view(color),
                label: opt_str_view(label),
            }),
    {
        Edge {
            id,
            from_node,
            from_side,
            from_end,
            to_node,
            to_side,
            to_end,
            color,
            label,
        }
    }

    pub fn id(&self) -> (r: &EdgeId)
        ensures
            r@ == self@.id,
    {
        &self.id
    }

    pub fn from_node(&self) -> (r: &NodeId)
        ensures
            r@ == self@.from_node,
    {
        &self.from_node
    }

    pub fn from_side(&self) -> (r: Option<&Side>)
        ensures
            match r {
                Some(s) => self@.from_side == Some(*s),
                None => self@.from_side is None,
            },
    {
        self.from_side.as_ref()
    }

    pub fn from_end(&self) -> (r: Option<&End>)
        ensures
            match r {
                Some(e) => self@.from_end == Some(*e),
                None => self@.from_end is None,
            },
    {
        self.from_end.as_ref()
    }

    pub fn to_node(&self) -> (r: &NodeId)
        ensures
            r@ == self@.to_node,
    {
        &self.to_node
    }

    pub fn to_side(&self) -> (r: Option<&Side>)
        ensures
            match r {
                Some(s) => self@.to_side == Some(*s),
                None => self@.to_side is None,
            },
    {
        self.to_side.as_ref()
    }

    pub fn to_end(&self) -> (r: Option<&End>)
        ensures
            match r {
                Some(e) => self@.to_end == Some(*e),
                None => self@.to_end is None,
            },
    {
        self.to_end.as_ref()
    }

    pub fn color(&self) -> (r: Option<&Color>)
        ensures
            match r {
                Some(c) => self@.color == Some(c@),
                None => self@.color is None,
            },
    {
        self.color.as_ref()
    }

    pub fn label(&self) -> (r: Option<&String>)
        ensures
            match r {
                Some(s) => self@.label == Some(s@),
                None => self@.label is None,
            },
    {
        self.label.as_ref()
    }

    pub fn set_color(&mut self, color: Color)
        ensures
            final(self)@ == (EdgeV { color: Some(color@), ..old(self)@ }),
    {
        self.color = Some(color);
    }

    pub fn remove_color(&mut self) -> (r: Option<Color>)
        ensures
            final(self)@ == (EdgeV { color: None, ..old(self)@ }),
            opt_color_view(r) == old(self)@.color,
    {
        let mut taken: Option<Color> = None;
        core::mem::swap(&mut taken, &mut self.color);
        taken
    }

    pub fn set_label(&mut self, label: String)
        ensures
            final(self)@ == (EdgeV { label: Some(label@), ..old(self)@ }),
    {
        self.label = Some(label);
    }

    pub fn remove_label(&mut self) -> (r: Option<String>)
        ensures
            final(self)@ == (EdgeV { label: None, ..old(self)@ }),
            opt_str_view(r) == old(self)@.label,
    {
        let mut taken: Option<String> = None;
        core::mem::swap(&mut taken, &mut self.label);
        taken
    }

    /// Replaces the source endpoint, returning the previous one.
    pub fn set_from(&mut self, node: NodeId, side: Option<Side>, end: Option<End>) -> (r:
        Terminus)
        ensures
            final(self)@ == (EdgeV {
                from_node: node@,
                from_side: side,
                from_end: end,
                ..old(self)@
            }),
            r.0@ == old(self)@.from_node,
            r.1 == old(self)@.from_side,
            r.2 == old(self)@.from_end,
    {
        let mut n = node;
        let mut s = side;
        let mut e = end;
        core::mem::swap(&mut n, &mut self.from_node);
        core::mem::swap(&mut s, &mut self.from_side);
        core::mem::swap(&mut e, &mut self.from_end);
        (n, s, e)
    }

    /// Replaces the target endpoint, returning the previous one.
    pub fn set_to(&mut self, node: NodeId, side: Option<Side>, end: Option<End>) -> (r: Terminus)
        ensures
            final(self)@ == (EdgeV {
                to_node: node@,
                to_side: side,
                to_end: end,
                ..old(self)@
            }),
            r.0@ == old(self)@.to_node,
            r.1 == old(self)@.to_side,
            r.2 == old(self)@.to_end,
    {
        let mut n = node;
        let mut s = side;
        let mut e = end;
        core::mem::swap(&mut n, &mut self.to_node);
        core::mem::swap(&mut s, &mut self.to_side);
        core::mem::swap(&mut e, &mut self.to_end);
        (n, s, e)
    }
}

} // verus!
