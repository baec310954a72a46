//! Views of a part of an image.

use crate::traits::GenericImageView;
use vstd::prelude::*;

verus! {

/// Sub image view into another image
///
/// The view shows the pixels of a rectangle of its parent. It has its own width and height,
/// and its pixel at the top left is the pixel of the parent at the offset of the rectangle.
pub struct SubImageView<'a, I> {
    parent: &'a I,
    x: u32,
    y: u32,
    width: u32,
    height: u32,
}

impl<'a, I: GenericImageView> SubImageView<'a, I> {
    /// The image that the view shows a part of.
    pub closed spec fn parent(&self) -> &'a I {
        self.parent
    }

    /// The place of the left edge of the view in the parent.
    pub closed spec fn offset_x(&self) -> u32 {
        self.x
    }

    /// The place of the top edge of the view in the parent.
    pub closed spec fn offset_y(&self) -> u32 {
        self.y
    }

    /// Width in pixels
    pub closed spec fn spec_width(&self) -> u32 {
        self.width
    }

    /// Height in pixels
    pub closed spec fn spec_height(&self) -> u32 {
        self.height
    }

    /// The invariant of the view: the rectangle lies within the parent.
    pub open spec fn wf(&self) -> bool {
        &&& self.parent().valid()
        &&& self.offset_x() + self.spec_width() <= self.parent().width_spec()
        &&& self.offset_y() + self.spec_height() <= self.parent().height_spec()
    }

    /// Returns a new read-only view into another image.
    ///
    /// None is returned where the rectangle does not lie within the parent.
    ///
    /// # Arguments
    ///
    /// * `parent` - Parent image backing the sub image
    /// * `x` - X offset
    /// * `y` - Y offset
    /// * `width` - Width in pixels
    /// * `height` - Height in pixels
    pub fn new(parent: &'a I, x: u32, y: u32, width: u32, height: u32) -> (view: Option<Self>)
        requires
            parent.valid(),
        ensures
            view is Some <==> x + width <= parent.width_spec() && y + height
                <= parent.height_spec(),
            view is Some ==> {
                let view = view->0;
                &&& view.wf()
                &&& view.parent() == parent
                &&& view.offset_x() == x
                &&& view.offset_y() == y
                &&& view.spec_width() == width
                &&& view.spec_height() == height
            },
    {
        if x as u64 + width as u64 > parent.width() as u64 || y as u64 + height as u64
            > parent.height() as u64 {
            return None;
        }
        Some(SubImageView { parent, x, y, width, height })
    }
}

impl<'a, I: GenericImageView> GenericImageView for SubImageView<'a, I> {
    type T = I::T;

    open spec fn valid(&self) -> bool {
        self.wf()
    }

    open spec fn width_spec(&self) -> u32 {
        self.spec_width()
    }

    open spec fn height_spec(&self) -> u32 {
        self.spec_height()
    }

    open spec fn pixel_spec(&self, x: u32, y: u32) -> Option<I::T> {
        if x < self.spec_width() && y < self.spec_height() {
            self.parent().pixel_spec((x + self.offset_x()) as u32, (y + self.offset_y()) as u32)
        } else {
            None
        }
    }

    proof fn lemma_pixel_in_bounds(&self, x: u32, y: u32) {
    }

    fn width(&self) -> (width: u32) {
        self.width
    }

    fn height(&self) -> (height: u32) {
        self.height
    }

    fn pixel(&self, x: u32, y: u32) -> (pix: Option<I::T>) {
        if x >= self.width || y >= self.height {
            return None;
        }
        self.parent.pixel(x + self.x, y + self.y)
    }
}

} // verus!
