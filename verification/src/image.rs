//! The builder for an image whose texture is known from the start.

use vstd::prelude::*;
use crate::draw::{ImageDraw, ImageParams, Setting};
use crate::texture::ImTexture;
use crate::vector::{ImVec2, ImVec4};

verus! {

/// An image about to be drawn.
///
/// Make one with [`Image::new`], change what differs from the defaults with
/// the setters, and end with [`Image::build`]. Every step takes the builder by
/// value, so a built image cannot be used again.
#[must_use]
pub struct Image {
    texture_id: ImTexture,
    params: ImageParams,
}

impl View for Image {
    type V = ImageDraw;

    /// The draw that [`Image::build`] would give now.
    closed spec fn view(&self) -> ImageDraw {
        ImageDraw { texture_id: self.texture_id, params: self.params }
    }
}

impl Image {
    /// An image of the given texture and size: the whole texture, untinted
    /// and without a frame.
    pub fn new(texture_id: ImTexture, size: ImVec2) -> (image: Self)
        ensures
            image@ == (ImageDraw { texture_id, params: ImageParams::initial(size) }),
    {
        Image { texture_id, params: ImageParams::new(size) }
    }

    /// Sets the size of the rectangle to fill.
    pub fn size(self, size: ImVec2) -> (image: Self)
        ensures
            image@ == self@.with(Setting::Size(size)),
    {
        Image { params: ImageParams { size, ..self.params }, ..self }
    }

    /// Sets the first corner of the source rectangle (default: 0, 0).
    pub fn uv0(self, uv0: ImVec2) -> (image: Self)
        ensures
            image@ == self@.with(Setting::Uv0(uv0)),
    {
        Image { params: ImageParams { uv0, ..self.params }, ..self }
    }

    /// Sets the second corner of the source rectangle (default: 1, 1).
    pub fn uv1(self, uv1: ImVec2) -> (image: Self)
        ensures
            image@ == self@.with(Setting::Uv1(uv1)),
    {
        Image { params: ImageParams { uv1, ..self.params }, ..self }
    }

    /// Sets the tint colour (default: opaque white, which leaves the texture
    /// as it is).
    pub fn tint_col(self, tint_col: ImVec4) -> (image: Self)
        ensures
            image@ == self@.with(Setting::TintCol(tint_col)),
    {
        Image { params: ImageParams { tint_col, ..self.params }, ..self }
    }

    /// Sets the colour of the frame (default: fully transparent, no frame).
    pub fn border_col(self, border_col: ImVec4) -> (image: Self)
        ensures
            image@ == self@.with(Setting::BorderCol(border_col)),
    {
        Image { params: ImageParams { border_col, ..self.params }, ..self }
    }

    /// Ends the builder and gives the draw to issue: the texture and the
    /// value last set for each parameter.
    pub fn build(self) -> (draw: ImageDraw)
        ensures
            draw == self@,
    {
        ImageDraw { texture_id: self.texture_id, params: self.params }
    }
}

} // verus!
