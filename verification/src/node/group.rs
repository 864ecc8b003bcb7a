use vstd::prelude::*;

use crate::color::{opt_color_view, Color};
use crate::id::NodeId;
use crate::{opt_str_view, PixelCoordinate, PixelDimension};

use super::{GenericNode, GenericNodeInfo, GenericNodeV};

verus! {

/// How a group's background image fills its box.
#[derive(Debug, Clone, Copy, PartialEq, Eq, Structural)]
pub enum BackgroundStyle {
    Cover,
    Ratio,
    Repeat,
}

/// Ghost mirror of [`Background`].
#[verifier::ext_equal]
pub struct BackgroundV {
    pub image: Seq<char>,
    pub background_style: Option<BackgroundStyle>,
}

/// A group's background: an image path, optionally with a fill style.
#[derive(Debug)]
pub struct Background {
    pub(crate) image: String,
    pub(crate) background_style: Option<BackgroundStyle>,
}

impl View for Background {
    type V = BackgroundV;

    closed spec fn view(&self) -> BackgroundV {
        BackgroundV { image: self.image@, background_style: self.background_style }
    }
}

impl Background {
    pub fn new(image: String, background_style: Option<BackgroundStyle>) -> (b: Background)
        ensures
            b@ == (BackgroundV { image: image@, background_style }),
    {
        Background { image, background_style }
    }

    pub fn image(&self) -> (r: &str)
        ensures
            r@ == self@.image,
    {
        self.image.as_str()
    }

    pub fn background_style(&self) -> (r: Option<&BackgroundStyle>)
        ensures
            match r {
                Some(s) => self@.background_style == Some(*s),
                None => self@.background_style is None,
            },
    {
        self.background_style.as_ref()
    }
}

/// The view of an optional background.
pub open spec fn opt_background_view(b: Option<Background>) -> Option<BackgroundV> {
    match b {
        Some(x) => Some(x@),
        None => None,
    }
}

/// Ghost mirror of [`GroupNode`].
#[verifier::ext_equal]
pub struct GroupNodeV {
    pub generic: GenericNodeV,
    pub label: Option<Seq<char>>,
    pub background: Option<BackgroundV>,
}

/// A node grouping others visually, optionally labelled, optionally with a
/// background image.
#[derive(Debug)]
pub struct GroupNode {
    pub(crate) generic: GenericNode,
    pub(crate) label: Option<String>,
    pub(crate) background: Option<Background>,
}

impl View for GroupNode {
    type V = GroupNodeV;

    closed spec fn view(&self) -> GroupNodeV {
        GroupNodeV {
            generic: self.generic@,
            label: opt_str_view(self.label),
            background: opt_background_view(self.background),
        }
    }
}

impl GroupNode {
    pub fn new(
        id: NodeId,
        x: PixelCoordinate,
        y: PixelCoordinate,
        width: PixelDimension,
        height: PixelDimension,
        color: Option<Color>,
        label: Option<String>,
        background: Option<Background>,
    ) -> (n: GroupNode)
        ensures
            n@ == (GroupNodeV {
                generic: GenericNodeV {
                    id: id@,
                    x,
                    y,
                    width,
                    height,
                    color: opt_color_view(color),
                },
                label: opt_str_view(label),
                background: opt_background_view(background),
            }),
    {
        GroupNode {
            generic: GenericNode::new(id, x, y, width, height, color),
            label,
            background,
        }
    }

    pub fn label(&self) -> (r: Option<&String>)
        ensures
            match r {
                Some(s) => self@.label == Some(s@),
                None => self@.label is None,
            },
    {
        self.label.as_ref()
    }

    pub fn background(&self) -> (r: Option<&Background>)
        ensures
            match r {
                Some(b) => self@.background == Some(b@),
                None => self@.background is None,
            },
    {
        self.background.as_ref()
    }
}

impl GenericNodeInfo for GroupNode {
    open spec fn generic_view(&self) -> GenericNodeV {
        self@.generic
    }

    fn id(&self) -> (r: &NodeId) {
        self.generic.id()
    }

    fn get_x(&self) -> (r: PixelCoordinate) {
        self.generic.get_x()
    }

    fn get_y(&self) -> (r: PixelCoordinate) {
        self.generic.get_y()
    }

    fn get_width(&self) -> (r: PixelDimension) {
        self.generic.get_width()
    }

    fn get_height(&self) -> (r: PixelDimension) {
        self.generic.get_height()
    }

    fn color(&self) -> (r: &Option<Color>) {
        self.generic.color()
    }
}

} // verus!
