//! Handles to the surfaces of a graphics context.
use crate::graphics::transformation::Transformation;
use vstd::prelude::*;

verus! {

/// What a handle names: the surface that a context allocated as its `id`-th,
/// `width` by `height` texels.
pub struct Handle {
    pub id: nat,
    pub width: u16,
    pub height: u16,
}

/// A handle to a surface that can be sampled.
#[derive(Debug, Clone, Copy, PartialEq, Eq)]
pub struct Texture {
    id: usize,
    width: u16,
    height: u16,
}

impl View for Texture {
    type V = Handle;

    closed spec fn view(&self) -> Handle {
        Handle { id: self.id as nat, width: self.width, height: self.height }
    }
}

impl Texture {
    /// The place of the surface among those of its context.
    pub(crate) fn id(&self) -> (id: usize)
        ensures
            id == self@.id,
    {
        self.id
    }

    /// The width of the surface, in texels.
    pub fn width(&self) -> (width: u16)
        ensures
            width == self@.width,
    {
        self.width
    }

    /// The height of the surface, in texels.
    pub fn height(&self) -> (height: u16)
        ensures
            height == self@.height,
    {
        self.height
    }
}

/// A handle to a surface that can be drawn on.
#[derive(Debug, Clone, Copy, PartialEq, Eq)]
pub struct TargetView {
    id: usize,
    width: u16,
    height: u16,
}

impl View for TargetView {
    type V = Handle;

    closed spec fn view(&self) -> Handle {
        Handle { id: self.id as nat, width: self.width, height: self.height }
    }
}

impl TargetView {
    /// The place of the surface among those of its context.
    pub(crate) fn id(&self) -> (id: usize)
        ensures
            id == self@.id,
    {
        self.id
    }

    /// The width of the surface, in texels.
    pub fn width(&self) -> (width: u16)
        ensures
            width == self@.width,
    {
        self.width
    }

    /// The height of the surface, in texels.
    pub fn height(&self) -> (height: u16)
        ensures
            height == self@.height,
    {
        self.height
    }
}

/// A surface that can be both sampled and drawn on: a texture and a target
/// view of the same memory.
pub struct Drawable {
    texture: Texture,
    target: TargetView,
}

impl View for Drawable {
    type V = Handle;

    closed spec fn view(&self) -> Handle {
        self.texture@
    }
}

impl Clone for Drawable {
    /// Copies the handles. The copy names the same surface.
    fn clone(&self) -> (copy: Drawable)
        ensures
            copy@ == self@,
    {
        proof {
            use_type_invariant(self);
        }
        Drawable { texture: self.texture, target: self.target }
    }
}

impl Drawable {
    /// The two handles name one surface.
    #[verifier::type_invariant]
    spec fn paired(&self) -> bool {
        self.texture@ == self.target@
    }

    /// The handles to the `id`-th surface of a context.
    pub(crate) fn new(id: usize, width: u16, height: u16) -> (drawable: Drawable)
        ensures
            drawable@ == (Handle { id: id as nat, width, height }),
    {
        Drawable {
            texture: Texture { id, width, height },
            target: TargetView { id, width, height },
        }
    }

    /// The surface as a texture.
    pub fn texture(&self) -> (texture: &Texture)
        ensures
            texture@ == self@,
    {
        &self.texture
    }

    /// The surface as a target.
    pub fn target(&self) -> (target: &TargetView)
        ensures
            target@ == self@,
    {
        proof {
            use_type_invariant(self);
        }
        &self.target
    }

    /// The transformation that a target of a drawable surface applies after
    /// its projection, so that what is drawn on the surface is sampled from
    /// it the way up it was drawn. It is the same for every surface: it
    /// exchanges up and down, as normalized device space points up and the
    /// rows of a texture are counted downwards.
    pub fn render_transformation() -> (transformation: Transformation)
        ensures
            transformation == Transformation::spec_vertical_flip(),
    {
        Transformation::vertical_flip()
    }
}

} // verus!
