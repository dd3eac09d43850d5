//! The compositing plan of the presenter: which quads are drawn, in which
//! order, sampling which texture, under which fixed-function blend state.
//! The drawing itself (and the floating-point geometry of each quad) is the
//! caller's.

use vstd::prelude::*;
use crate::cursor::{CursorType, SpriteState};

verus! {

/// A fixed-function blend factor.
#[derive(Clone, Copy, Debug, PartialEq, Eq, Structural)]
pub enum BlendFactor {
    Zero,
    One,
    SrcColor,
    InvSrcColor,
    SrcAlpha,
    InvSrcAlpha,
    InvDestColor,
    InvDestAlpha,
}

/// A blend configuration: colour is `src * src_factor + dst * dst_factor`,
/// alpha likewise with the alpha factors.
#[derive(Clone, Copy, Debug, PartialEq, Eq, Structural)]
pub struct BlendConfig {
    pub src: BlendFactor,
    pub dst: BlendFactor,
    pub src_alpha: BlendFactor,
    pub dst_alpha: BlendFactor,
}

/// The blend states the presenter uses.
#[derive(Clone, Copy, Debug, PartialEq, Eq, Structural)]
pub enum BlendState {
    /// The frame replaces what is below.
    Replace,
    /// Premultiplied alpha: a colour cursor.
    Color,
    /// First pass of a monochrome cursor: the AND mask multiplies.
    MonochromeNorm,
    /// Second pass of a monochrome cursor: the XOR mask inverts.
    MonochromeMask,
    /// First pass of a masked-colour cursor.
    MaskedNorm,
    /// Second pass of a masked-colour cursor: inverts where masked.
    MaskedMask,
}

/// The factors of each blend state. Alpha always accumulates coverage:
/// `src_alpha * (1 - dst_alpha) + dst_alpha`.
pub open spec fn blend_config_spec(b: BlendState) -> BlendConfig {
    let (src, dst) = match b {
        BlendState::Replace => (BlendFactor::One, BlendFactor::Zero),
        BlendState::Color => (BlendFactor::One, BlendFactor::InvSrcAlpha),
        BlendState::MonochromeNorm => (BlendFactor::Zero, BlendFactor::SrcColor),
        BlendState::MonochromeMask => (BlendFactor::InvDestColor, BlendFactor::InvSrcColor),
        BlendState::MaskedNorm => (BlendFactor::SrcAlpha, BlendFactor::InvSrcAlpha),
        BlendState::MaskedMask => (BlendFactor::InvDestColor, BlendFactor::InvSrcColor),
    };
    BlendConfig { src, dst, src_alpha: BlendFactor::InvDestAlpha, dst_alpha: BlendFactor::One }
}

pub fn blend_config(b: BlendState) -> (r: BlendConfig)
    ensures
        r == blend_config_spec(b),
{
    let (src, dst) = match b {
        BlendState::Replace => (BlendFactor::One, BlendFactor::Zero),
        BlendState::Color => (BlendFactor::One, BlendFactor::InvSrcAlpha),
        BlendState::MonochromeNorm => (BlendFactor::Zero, BlendFactor::SrcColor),
        BlendState::MonochromeMask => (BlendFactor::InvDestColor, BlendFactor::InvSrcColor),
        BlendState::MaskedNorm => (BlendFactor::SrcAlpha, BlendFactor::InvSrcAlpha),
        BlendState::MaskedMask => (BlendFactor::InvDestColor, BlendFactor::InvSrcColor),
    };
    BlendConfig { src, dst, src_alpha: BlendFactor::InvDestAlpha, dst_alpha: BlendFactor::One }
}

/// The texture a quad samples.
#[derive(Clone, Copy, Debug, PartialEq, Eq, Structural)]
pub enum QuadTexture {
    /// The captured frame, drawn with the frame transform.
    Frame,
    /// The cursor's `norm` texture, drawn with the cursor transform.
    CursorNorm,
    /// The cursor's `mask` texture, drawn with the cursor transform.
    CursorMask,
}

/// One quad of the plan.
#[derive(Clone, Copy, Debug, PartialEq, Eq, Structural)]
pub struct DrawPass {
    pub blend: BlendState,
    pub texture: QuadTexture,
}

/// The cursor quads of an encoding: one for colour, a `norm` pass then a
/// `mask` pass for the other two (the mask pass's factors read what the norm
/// pass left).
pub open spec fn cursor_passes_spec(t: CursorType) -> Seq<DrawPass> {
    match t {
        CursorType::Color => seq![DrawPass { blend: BlendState::Color, texture: QuadTexture::CursorNorm }],
        CursorType::Monochrome => seq![
            DrawPass { blend: BlendState::MonochromeNorm, texture: QuadTexture::CursorNorm },
            DrawPass { blend: BlendState::MonochromeMask, texture: QuadTexture::CursorMask },
        ],
        CursorType::MaskedColor => seq![
            DrawPass { blend: BlendState::MaskedNorm, texture: QuadTexture::CursorNorm },
            DrawPass { blend: BlendState::MaskedMask, texture: QuadTexture::CursorMask },
        ],
    }
}

/// The quads of one composited image, after clearing the target: the frame,
/// then the cursor if it is on screen and a sprite has been captured. With
/// no frame there is nothing to draw.
pub open spec fn composite_plan_spec(has_frame: bool, cursor_visible: bool, sprite: SpriteState) -> Seq<
    DrawPass,
> {
    if !has_frame {
        Seq::empty()
    } else if cursor_visible && sprite.valid {
        seq![DrawPass { blend: BlendState::Replace, texture: QuadTexture::Frame }]
            + cursor_passes_spec(sprite.cursor_type)
    } else {
        seq![DrawPass { blend: BlendState::Replace, texture: QuadTexture::Frame }]
    }
}

pub fn cursor_passes(t: CursorType) -> (r: Vec<DrawPass>)
    ensures
        r@ == cursor_passes_spec(t),
{
    let mut out: Vec<DrawPass> = Vec::new();
    match t {
        CursorType::Color => {
            out.push(DrawPass { blend: BlendState::Color, texture: QuadTexture::CursorNorm });
        },
        CursorType::Monochrome => {
            out.push(DrawPass { blend: BlendState::MonochromeNorm, texture: QuadTexture::CursorNorm });
            out.push(DrawPass { blend: BlendState::MonochromeMask, texture: QuadTexture::CursorMask });
        },
        CursorType::MaskedColor => {
            out.push(DrawPass { blend: BlendState::MaskedNorm, texture: QuadTexture::CursorNorm });
            out.push(DrawPass { blend: BlendState::MaskedMask, texture: QuadTexture::CursorMask });
        },
    }
    assert(out@ =~= cursor_passes_spec(t));
    out
}

pub fn composite_plan(has_frame: bool, cursor_visible: bool, sprite: &SpriteState) -> (r: Vec<
    DrawPass,
>)
    ensures
        r@ == composite_plan_spec(has_frame, cursor_visible, *sprite),
{
    if !has_frame {
        return Vec::new();
    }
    let mut out: Vec<DrawPass> = Vec::new();
    out.push(DrawPass { blend: BlendState::Replace, texture: QuadTexture::Frame });
    if cursor_visible && sprite.valid {
        let mut cursor = cursor_passes(sprite.cursor_type);
        out.append(&mut cursor);
    }
    assert(out@ =~= composite_plan_spec(has_frame, cursor_visible, *sprite));
    out
}

/// In every plan the frame comes first, each cursor `norm` pass comes right
/// before its `mask` pass, and a `mask` pass is drawn only for the encodings
/// that have a mask.
pub proof fn lemma_plan_order(has_frame: bool, cursor_visible: bool, sprite: SpriteState)
    ensures
        ({
            let p = composite_plan_spec(has_frame, cursor_visible, sprite);
            &&& has_frame ==> p.len() >= 1 && p[0].texture == QuadTexture::Frame
            &&& !has_frame ==> p.len() == 0
            &&& forall|i: int|
                0 <= i < p.len() && (#[trigger] p[i]).texture == QuadTexture::CursorMask ==> i >= 1 && p[i
                    - 1].texture == QuadTexture::CursorNorm && sprite.cursor_type != CursorType::Color
            &&& forall|i: int| 1 <= i < p.len() ==> (#[trigger] p[i]).texture != QuadTexture::Frame
        }),
{
    let p = composite_plan_spec(has_frame, cursor_visible, sprite);
    if has_frame && cursor_visible && sprite.valid {
        let c = cursor_passes_spec(sprite.cursor_type);
        assert forall|i: int| 1 <= i < p.len() implies p[i] == c[i - 1] by {}
    }
}

} // verus!
