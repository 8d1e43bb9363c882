use vstd::prelude::*;

verus! {

/// Simplified 2D graphics: the presentation surface that frames are shown
/// on.
///
/// A surface is always initialized with some width and height, in physical
/// pixels. A resize replaces both, whatever they were.
#[derive(Debug, Clone, Copy, PartialEq, Eq, Structural)]
pub struct S2D {
    width: u32,
    height: u32,
}

impl S2D {
    /// The width and the height of the surface.
    pub closed spec fn dimensions(self) -> (u32, u32) {
        (self.width, self.height)
    }

    /// The surface that a resize to the given dimensions leaves.
    pub closed spec fn resized(self, new_width: u32, new_height: u32) -> S2D {
        S2D { width: new_width, height: new_height }
    }

    /// A surface with the given dimensions.
    pub fn new(width: u32, height: u32) -> (surface: S2D)
        ensures
            surface.dimensions() == (width, height),
    {
        S2D { width, height }
    }

    pub fn width(&self) -> (width: u32)
        ensures
            width == self.dimensions().0,
    {
        self.width
    }

    pub fn height(&self) -> (height: u32)
        ensures
            height == self.dimensions().1,
    {
        self.height
    }

    /// Gives the surface new dimensions.
    pub fn resize(&mut self, new_width: u32, new_height: u32)
        ensures
            *final(self) == old(self).resized(new_width, new_height),
            final(self).dimensions() == (new_width, new_height),
    {
        self.width = new_width;
        self.height = new_height;
    }

    /// A surface is known by its dimensions alone.
    pub proof fn lemma_dimensions_decide(a: S2D, b: S2D)
        ensures
            a == b <==> a.dimensions() == b.dimensions(),
    {
    }

    /// A resize gives the dimensions it was asked for, from whatever surface.
    pub proof fn lemma_resized_dimensions(surface: S2D, width: u32, height: u32)
        ensures
            surface.resized(width, height).dimensions() == (width, height),
    {
    }

    /// Resizing is idempotent: the same resize, made twice in a row, leaves
    /// the surface that making it once leaves.
    pub proof fn lemma_resize_idempotent(surface: S2D, width: u32, height: u32)
        ensures
            surface.resized(width, height).resized(width, height) == surface.resized(
                width,
                height,
            ),
    {
    }
}

} // verus!
