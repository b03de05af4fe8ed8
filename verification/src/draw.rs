//! What an image draw is made of, and how settings change it.
//!
//! The builders of this crate are described by the records here: a builder's
//! view is such a record, each setter is one [`Setting`] applied to it, and a
//! chain of setters is a sequence of settings applied in order.

use vstd::prelude::*;
use crate::texture::ImTexture;
use crate::vector::{ImVec2, ImVec4, ONE, ZERO};

verus! {

/// Everything about an image draw but the texture.
#[derive(Copy, Clone, Debug, PartialEq, Eq, Structural)]
pub struct ImageParams {
    /// Width and height of the rectangle to fill.
    pub size: ImVec2,
    /// The corner of the source rectangle that lands top left.
    pub uv0: ImVec2,
    /// The corner of the source rectangle that lands bottom right.
    pub uv1: ImVec2,
    /// The colour every texel is multiplied with.
    pub tint_col: ImVec4,
    /// The colour of the frame around the image.
    pub border_col: ImVec4,
}

/// One complete image draw: the arguments of the renderer's draw call.
#[derive(Copy, Clone, Debug, PartialEq, Eq, Structural)]
pub struct ImageDraw {
    pub texture_id: ImTexture,
    pub params: ImageParams,
}

/// The parameters that a setter can change.
#[derive(Copy, Clone, Debug, PartialEq, Eq, Structural)]
pub enum Field {
    Size,
    Uv0,
    Uv1,
    TintCol,
    BorderCol,
}

/// One call of a setter: a parameter together with its new value.
#[derive(Copy, Clone, Debug, PartialEq, Eq, Structural)]
pub enum Setting {
    Size(ImVec2),
    Uv0(ImVec2),
    Uv1(ImVec2),
    TintCol(ImVec4),
    BorderCol(ImVec4),
}

impl ImageDraw {
    /// This draw after one setting. The texture stays.
    pub open spec fn with(self, setting: Setting) -> ImageDraw {
        ImageDraw { texture_id: self.texture_id, params: self.params.with(setting) }
    }

    /// This draw after the given settings, applied first to last. The texture
    /// stays.
    pub open spec fn with_all(self, settings: Seq<Setting>) -> ImageDraw {
        ImageDraw { texture_id: self.texture_id, params: self.params.with_all(settings) }
    }
}

impl Setting {
    /// The parameter that this setting writes.
    pub open spec fn field(self) -> Field {
        match self {
            Setting::Size(_) => Field::Size,
            Setting::Uv0(_) => Field::Uv0,
            Setting::Uv1(_) => Field::Uv1,
            Setting::TintCol(_) => Field::TintCol,
            Setting::BorderCol(_) => Field::BorderCol,
        }
    }
}

/// Whether no setting after position `i` of `settings` writes the parameter
/// that the one at `i` writes.
pub open spec fn is_last_write(settings: Seq<Setting>, i: int) -> bool {
    forall|j: int| i < j < settings.len() ==> (#[trigger] settings[j]).field() != settings[i].field()
}

/// Whether no setting in `settings` writes the parameter `field`.
pub open spec fn never_written(settings: Seq<Setting>, field: Field) -> bool {
    forall|j: int| 0 <= j < settings.len() ==> (#[trigger] settings[j]).field() != field
}

impl ImageParams {
    /// The parameters of an image of the given size on which nothing else was
    /// set: the whole texture, untinted, without a frame.
    pub open spec fn initial(size: ImVec2) -> ImageParams {
        ImageParams {
            size,
            uv0: ImVec2 { x: ZERO, y: ZERO },
            uv1: ImVec2 { x: ONE, y: ONE },
            tint_col: ImVec4 { x: ONE, y: ONE, z: ONE, w: ONE },
            border_col: ImVec4 { x: ZERO, y: ZERO, z: ZERO, w: ZERO },
        }
    }

    /// These parameters after one setting: the parameter it names has the new
    /// value, the other four are as before.
    pub open spec fn with(self, setting: Setting) -> ImageParams {
        match setting {
            Setting::Size(v) => ImageParams { size: v, ..self },
            Setting::Uv0(v) => ImageParams { uv0: v, ..self },
            Setting::Uv1(v) => ImageParams { uv1: v, ..self },
            Setting::TintCol(c) => ImageParams { tint_col: c, ..self },
            Setting::BorderCol(c) => ImageParams { border_col: c, ..self },
        }
    }

    /// These parameters after the given settings, applied first to last.
    pub open spec fn with_all(self, settings: Seq<Setting>) -> ImageParams
        decreases settings.len(),
    {
        if settings.len() == 0 {
            self
        } else {
            self.with_all(settings.drop_last()).with(settings.last())
        }
    }

    /// Whether the parameter that `setting` names has the value that `setting`
    /// gives.
    pub open spec fn holds(self, setting: Setting) -> bool {
        match setting {
            Setting::Size(v) => self.size == v,
            Setting::Uv0(v) => self.uv0 == v,
            Setting::Uv1(v) => self.uv1 == v,
            Setting::TintCol(c) => self.tint_col == c,
            Setting::BorderCol(c) => self.border_col == c,
        }
    }

    /// Whether `self` and `other` have the same value for `field`.
    pub open spec fn agrees_on(self, other: ImageParams, field: Field) -> bool {
        match field {
            Field::Size => self.size == other.size,
            Field::Uv0 => self.uv0 == other.uv0,
            Field::Uv1 => self.uv1 == other.uv1,
            Field::TintCol => self.tint_col == other.tint_col,
            Field::BorderCol => self.border_col == other.border_col,
        }
    }

    /// The executable form of [`ImageParams::initial`].
    pub fn new(size: ImVec2) -> (p: ImageParams)
        ensures
            p == ImageParams::initial(size),
    {
        ImageParams {
            size,
            uv0: ImVec2 { x: ZERO, y: ZERO },
            uv1: ImVec2 { x: ONE, y: ONE },
            tint_col: ImVec4 { x: ONE, y: ONE, z: ONE, w: ONE },
            border_col: ImVec4 { x: ZERO, y: ZERO, z: ZERO, w: ZERO },
        }
    }
}

/// The last write to a parameter wins, and a parameter that is never written
/// keeps its value.
///
/// After any sequence of settings, each setting that is the last one for its
/// parameter is what the parameter holds, and every parameter that no setting
/// names is as it was at the start.
pub proof fn lemma_last_write_wins(start: ImageParams, settings: Seq<Setting>)
    ensures
        forall|i: int|
            0 <= i < settings.len() && is_last_write(settings, i) ==> start.with_all(
                settings,
            ).holds(#[trigger] settings[i]),
        forall|field: Field| #[trigger]
            never_written(settings, field) ==> start.with_all(settings).agrees_on(start, field),
    decreases settings.len(),
{
    if settings.len() > 0 {
        let front = settings.drop_last();
        let last = settings.last();
        lemma_last_write_wins(start, front);
        let before = start.with_all(front);
        let after = start.with_all(settings);
        assert(after == before.with(last));
        assert forall|i: int|
            0 <= i < settings.len() && is_last_write(settings, i) implies after.holds(
            #[trigger] settings[i],
        ) by {
            if i < settings.len() - 1 {
                assert(settings[settings.len() - 1].field() != settings[i].field());
                assert(front[i] == settings[i]);
                assert forall|j: int| i < j < front.len() implies (#[trigger] front[j]).field()
                    != front[i].field() by {
                    assert(front[j] == settings[j]);
                }
                assert(is_last_write(front, i));
                assert(before.holds(front[i]));
            }
        }
        assert forall|field: Field| #[trigger]
            never_written(settings, field) implies after.agrees_on(start, field) by {
            assert(settings[settings.len() - 1].field() != field);
            assert forall|j: int| 0 <= j < front.len() implies (#[trigger] front[j]).field()
                != field by {
                assert(front[j] == settings[j]);
            }
            assert(never_written(front, field));
            assert(before.agrees_on(start, field));
        }
    }
}

} // verus!
