//! The builder for an image whose texture may have failed to resolve.
//!
//! Looking a texture up can fail before there is anything to draw. This
//! builder takes the outcome of the lookup as it is and keeps a failure until
//! [`Image::build`], so that a chain of setters reads the same either way.

use vstd::prelude::*;
use crate::draw::{ImageDraw, ImageParams, Setting};
use crate::texture::ImTexture;
use crate::vector::{ImVec2, ImVec4};

verus! {

/// What a deferred builder stands for: the outcome of the texture lookup and
/// the parameters set so far.
pub struct Pending<E> {
    pub texture: Result<ImTexture, E>,
    pub params: ImageParams,
}

impl<E> Pending<E> {
    /// This state after one setting. The lookup's outcome stays.
    pub open spec fn with(self, setting: Setting) -> Pending<E> {
        Pending { texture: self.texture, params: self.params.with(setting) }
    }

    /// This state after the given settings, applied first to last. The
    /// lookup's outcome stays.
    pub open spec fn with_all(self, settings: Seq<Setting>) -> Pending<E> {
        Pending { texture: self.texture, params: self.params.with_all(settings) }
    }

    /// What building gives: the draw if the texture resolved, else the error
    /// of the lookup.
    pub open spec fn outcome(self) -> Result<ImageDraw, E> {
        match self.texture {
            Ok(texture_id) => Ok(ImageDraw { texture_id, params: self.params }),
            Err(e) => Err(e),
        }
    }
}

/// An image about to be drawn, or the reason why its texture is missing.
///
/// Make one with [`Image::new`], change what differs from the defaults with
/// the setters, and end with [`Image::build`], which is where a failed lookup
/// comes to light.
#[must_use]
pub struct Image<E> {
    texture_id: Result<ImTexture, E>,
    params: ImageParams,
}

impl<E> View for Image<E> {
    type V = Pending<E>;

    closed spec fn view(&self) -> Pending<E> {
        Pending { texture: self.texture_id, params: self.params }
    }
}

impl<E> Image<E> {
    /// An image of the given size from the outcome of a texture lookup: the
    /// whole texture, untinted and without a frame.
    pub fn new(texture: Result<ImTexture, E>, size: ImVec2) -> (image: Image<E>)
        ensures
            image@ == (Pending { texture, params: ImageParams::initial(size) }),
    {
        Image { texture_id: texture, params: ImageParams::new(size) }
    }

    /// Sets the first corner of the source rectangle (default: 0, 0).
    pub fn uv0(self, uv0: ImVec2) -> (image: Self)
        ensures
            image@ == self@.with(Setting::Uv0(uv0)),
    {
        Image { params: ImageParams { uv0, ..self.params }, ..self }
    }

    /// Sets the second corner of the source rectangle (default: 1, 1).
    pub fn uv1(self, uv1: ImVec2) -> (image: Self)
        ensures
            image@ == self@.with(Setting::Uv1(uv1)),
    {
        Image { params: ImageParams { uv1, ..self.params }, ..self }
    }

    /// Sets the tint colour (default: opaque white, which leaves the texture
    /// as it is).
    pub fn tint_col(self, tint_col: ImVec4) -> (image: Self)
        ensures
            image@ == self@.with(Setting::TintCol(tint_col)),
    {
        Image { params: ImageParams { tint_col, ..self.params }, ..self }
    }

    /// Sets the colour of the frame (default: fully transparent, no frame).
    pub fn border_col(self, border_col: ImVec4) -> (image: Self)
        ensures
            image@ == self@.with(Setting::BorderCol(border_col)),
    {
        Image { params: ImageParams { border_col, ..self.params }, ..self }
    }

    /// Ends the builder. Gives the draw to issue if the texture resolved, and
    /// the lookup's own error, with nothing to draw, if it did not.
    pub fn build(self) -> (result: Result<ImageDraw, E>)
        ensures
            result == self@.outcome(),
    {
        match self.texture_id {
            Ok(texture_id) => Ok(ImageDraw { texture_id, params: self.params }),
            Err(e) => Err(e),
        }
    }
}

/// A failed lookup stays failed: whatever is set on a builder that holds an
/// error, building it gives that error and no draw.
pub proof fn lemma_error_outlives_settings<E>(start: Pending<E>, settings: Seq<Setting>, e: E)
    requires
        start.texture == Err::<ImTexture, E>(e),
    ensures
        start.with_all(settings).outcome() == Err::<ImageDraw, E>(e),
{
}

/// A resolved texture is drawn with the parameters as the settings left
/// them: building after any settings gives the draw of that texture whose
/// parameters are the start's after the same settings.
pub proof fn lemma_resolved_builds_settings<E>(
    start: Pending<E>,
    settings: Seq<Setting>,
    texture_id: ImTexture,
)
    requires
        start.texture == Ok::<ImTexture, E>(texture_id),
    ensures
        start.with_all(settings).outcome() == Ok::<ImageDraw, E>(
            ImageDraw { texture_id, params: start.params.with_all(settings) },
        ),
{
}

} // verus!
