use vstd::prelude::*;

use crate::color::{opt_color_view, Color};
use crate::error::{ParseError, ParseErrorV};
use crate::id::NodeId;
use crate::{PixelCoordinate, PixelDimension};

use super::{GenericNode, GenericNodeInfo, GenericNodeV};

verus! {

/// Whether a string parses as a valid URL. The verdict depends on the
/// characters of the string alone.
pub uninterp spec fn is_valid_url(s: Seq<char>) -> bool;

/// Relies on `url::Url::parse`: it accepts exactly the well-formed absolute
/// URLs, deciding from the characters of the string alone.
#[verifier::external_body]
pub(crate) fn url_accepts(s: &str) -> (r: bool)
    ensures
        r == is_valid_url(s@),
{
    url::Url::parse(s).is_ok()
}

/// Ghost mirror of [`LinkNode`].
#[verifier::ext_equal]
pub struct LinkNodeV {
    pub generic: GenericNodeV,
    pub url: Seq<char>,
}

/// A node referencing a URL. The URL string is validated at construction and
/// at decode time, and kept verbatim.
#[derive(Debug)]
pub struct LinkNode {
    pub(crate) generic: GenericNode,
    pub(crate) url: String,
}

impl View for LinkNode {
    type V = LinkNodeV;

    closed spec fn view(&self) -> LinkNodeV {
        LinkNodeV { generic: self.generic@, url: self.url@ }
    }
}

impl LinkNode {
    /// Builds a link node if `url` is a valid URL, keeping the string
    /// byte for byte; fails with `MalformedUrl` otherwise.
    pub fn new(
        id: NodeId,
        x: PixelCoordinate,
        y: PixelCoordinate,
        width: PixelDimension,
        height: PixelDimension,
        color: Option<Color>,
        url: String,
    ) -> (res: Result<LinkNode, ParseError>)
        ensures
            is_valid_url(url@) ==> (res matches Ok(n) && n@ == (LinkNodeV {
                generic: GenericNodeV {
                    id: id@,
                    x,
                    y,
                    width,
                    height,
                    color: opt_color_view(color),
                },
                url: url@,
            })),
            !is_valid_url(url@) ==> (res matches Err(e) && e@ == ParseErrorV::MalformedUrl(
                url@,
            )),
    {
        if url_accepts(url.as_str()) {
            Ok(LinkNode { generic: GenericNode::new(id, x, y, width, height, color), url })
        } else {
            Err(ParseError::MalformedUrl(url))
        }
    }

    pub fn url(&self) -> (r: &str)
        ensures
            r@ == self@.url,
    {
        self.url.as_str()
    }
}

impl GenericNodeInfo for LinkNode {
    open spec fn generic_view(&self) -> GenericNodeV {
        self@.generic
    }

    fn id(&self) -> (r: &NodeId) {
        self.generic.id()
    }

    fn get_x(&self) -> (r: PixelCoordinate) {
        self.generic.get_x()
    }

    fn get_y(&self) -> (r: PixelCoordinate) {
        self.generic.get_y()
    }

    fn get_width(&self) -> (r: PixelDimension) {
        self.generic.get_width()
    }

    fn get_height(&self) -> (r: PixelDimension) {
        self.generic.get_height()
    }

    fn color(&self) -> (r: &Option<Color>) {
        self.generic.color()
    }
}

} // verus!
