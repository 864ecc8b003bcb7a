use vstd::prelude::*;

use crate::color::{opt_color_view, Color};
use crate::id::NodeId;
use crate::{opt_str_view, PixelCoordinate, PixelDimension};

use super::{GenericNode, GenericNodeInfo, GenericNodeV};

verus! {

/// Ghost mirror of [`FileNode`].
#[verifier::ext_equal]
pub struct FileNodeV {
    pub generic: GenericNodeV,
    pub file: Seq<char>,
    pub subpath: Option<Seq<char>>,
}

/// A node referencing a file by path, optionally with an in-file anchor.
#[derive(Debug)]
pub struct FileNode {
    pub(crate) generic: GenericNode,
    pub(crate) file: String,
    pub(crate) subpath: Option<String>,
}

impl View for FileNode {
    type V = FileNodeV;

    closed spec fn view(&self) -> FileNodeV {
        FileNodeV {
            generic: self.generic@,
            file: self.file@,
            subpath: opt_str_view(self.subpath),
        }
    }
}

impl FileNode {
    pub fn new(
        id: NodeId,
        x: PixelCoordinate,
        y: PixelCoordinate,
        width: PixelDimension,
        height: PixelDimension,
        color: Option<Color>,
        file: String,
        subpath: Option<String>,
    ) -> (n: FileNode)
        ensures
            n@ == (FileNodeV {
                generic: GenericNodeV {
                    id: id@,
                    x,
                    y,
                    width,
                    height,
                    color: opt_color_view(color),
                },
                file: file@,
                subpath: opt_str_view(subpath),
            }),
    {
        FileNode { generic: GenericNode::new(id, x, y, width, height, color), file, subpath }
    }

    pub fn file(&self) -> (r: &str)
        ensures
            r@ == self@.file,
    {
        self.file.as_str()
    }

    pub fn subpath(&self) -> (r: Option<&String>)
        ensures
            match r {
                Some(s) => self@.subpath == Some(s@),
                None => self@.subpath is None,
            },
    {
        self.subpath.as_ref()
    }
}

impl GenericNodeInfo for FileNode {
    open spec fn generic_view(&self) -> GenericNodeV {
        self@.generic
    }

    fn id(&self) -> (r: &NodeId) {
        self.generic.id()
    }

    fn get_x(&self) -> (r: PixelCoordinate) {
        self.generic.get_x()
    }

    fn get_y(&self) -> (r: PixelCoordinate) {
        self.generic.get_y()
    }

    fn get_width(&self) -> (r: PixelDimension) {
        self.generic.get_width()
    }

    fn get_height(&self) -> (r: PixelDimension) {
        self.generic.get_height()
    }

    fn color(&self) -> (r: &Option<Color>) {
        self.generic.color()
    }
}

} // verus!
