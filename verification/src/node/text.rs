use vstd::prelude::*;

use crate::color::{opt_color_view, Color};
use crate::id::NodeId;
use crate::{PixelCoordinate, PixelDimension};

use super::{GenericNode, GenericNodeInfo, GenericNodeV};

verus! {

/// Ghost mirror of [`TextNode`].
#[verifier::ext_equal]
pub struct TextNodeV {
    pub generic: GenericNodeV,
    pub text: Seq<char>,
}

/// A node holding plain text.
#[derive(Debug)]
pub struct TextNode {
    pub(crate) generic: GenericNode,
    pub(crate) text: String,
}

impl View for TextNode {
    type V = TextNodeV;

    closed spec fn view(&self) -> TextNodeV {
        TextNodeV { generic: self.generic@, text: self.text@ }
    }
}

impl TextNode {
    pub fn new(
        id: NodeId,
        x: PixelCoordinate,
        y: PixelCoordinate,
        width: PixelDimension,
        height: PixelDimension,
        color: Option<Color>,
        text: String,
    ) -> (n: TextNode)
        ensures
            n@ == (TextNodeV {
                generic: GenericNodeV {
                    id: id@,
                    x,
                    y,
                    width,
                    height,
                    color: opt_color_view(color),
                },
                text: text@,
            }),
    {
        TextNode { generic: GenericNode::new(id, x, y, width, height, color), text }
    }

    pub fn text(&self) -> (r: &str)
        ensures
            r@ == self@.text,
    {
        self.text.as_str()
    }
}

impl GenericNodeInfo for TextNode {
    open spec fn generic_view(&self) -> GenericNodeV {
        self@.generic
    }

    fn id(&self) -> (r: &NodeId) {
        self.generic.id()
    }

    fn get_x(&self) -> (r: PixelCoordinate) {
        self.generic.get_x()
    }

    fn get_y(&self) -> (r: PixelCoordinate) {
        self.generic.get_y()
    }

    fn get_width(&self) -> (r: PixelDimension) {
        self.generic.get_width()
    }

    fn get_height(&self) -> (r: PixelDimension) {
        self.generic.get_height()
    }

    fn color(&self) -> (r: &Option<Color>) {
        self.generic.color()
    }
}

} // verus!
