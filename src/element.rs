//! The blur element drawn below a translucent surface, and the per-surface
//! cache that decides when it has to be rebuilt or damaged.
use vstd::prelude::*;

use crate::config::{BlurConfig, FloatBits};
use crate::counter::{increment, wrapping_inc};
use crate::effects::{EffectsState, TextureRef};
use crate::geometry::{can_expand, expanded, rect_tuple, Point, Rect, Size};
use crate::kawase::{blur_spread, spread_spec};

verus! {

/// Time between two real-time refreshes of a true blur: 150 ms, in nanoseconds.
pub const TRUE_BLUR_RERENDER_INTERVAL_NS: u64 = 150_000_000;

/// A point with floating-point coordinates, carried by their bits.
#[derive(Clone, Copy, Debug, PartialEq, Eq, Structural)]
pub struct FloatPoint {
    pub x: FloatBits,
    pub y: FloatBits,
}

/// A rectangle with floating-point coordinates, carried by their bits.
#[derive(Clone, Copy, Debug, PartialEq, Eq, Structural)]
pub struct FloatRect {
    pub x: FloatBits,
    pub y: FloatBits,
    pub w: FloatBits,
    pub h: FloatBits,
}

/// The radii of the four corners, carried by their bits.
#[derive(Clone, Copy, Debug, PartialEq, Eq, Structural)]
pub struct CornerRadius {
    pub top_left: FloatBits,
    pub top_right: FloatBits,
    pub bottom_right: FloatBits,
    pub bottom_left: FloatBits,
}

/// The identity of a blur element: the cache that made it, and which of that
/// cache's elements it is.
#[derive(Clone, Copy, Debug, PartialEq, Eq, Structural)]
pub struct ElementId {
    pub owner: u64,
    pub serial: u64,
}

/// How a blur element gets its blurred picture.
#[derive(Clone, Copy, Debug, PartialEq, Eq, Structural)]
pub enum BlurVariant {
    /// Samples the output's shared pre-blurred texture.
    Optimized { texture: TextureRef },
    /// Blurs what lies below it while drawing, into a texture of its own,
    /// at most once per refresh interval.
    True { texture: TextureRef, config: BlurConfig, rerender_at: Option<u64> },
}

/// What the finishing shader is given besides the picture: the values it
/// reads, from which its transform matrix and scalars are computed.
#[derive(Clone, Copy, Debug, PartialEq, Eq, Structural)]
pub struct BlurUniforms {
    pub corner_radius: CornerRadius,
    pub scale: FloatBits,
    pub noise: FloatBits,
    /// The configured amount when a second, opaque rendering is bound; zero
    /// otherwise.
    pub ignore_alpha: FloatBits,
    /// 1 when a second, opaque rendering is bound to the second texture unit.
    pub alpha_tex: i32,
    pub sample_area: Rect,
    pub geometry: FloatRect,
    pub buffer_size: Size,
}

/// The element that draws blur below a surface.
#[derive(Clone, Copy, Debug, PartialEq, Eq, Structural)]
pub struct BlurRenderElement {
    pub id: ElementId,
    pub uniforms: BlurUniforms,
    /// The area to blur, in logical pixels of the output.
    pub sample_area: Rect,
    pub alpha_tex: Option<TextureRef>,
    pub scale: FloatBits,
    /// Grows whenever the element's picture changes.
    pub commit: u64,
    pub corner_radius: CornerRadius,
    pub geometry: FloatRect,
    pub variant: BlurVariant,
    pub render_loc: FloatPoint,
}

/// The bits of 0.0.
pub open spec fn zero_bits() -> FloatBits {
    FloatBits { bits: 0 }
}

pub open spec fn uniforms_spec(
    sample_area: Rect,
    geometry: FloatRect,
    scale: FloatBits,
    corner_radius: CornerRadius,
    has_alpha_tex: bool,
    config: BlurConfig,
    buffer_size: Size,
) -> BlurUniforms {
    BlurUniforms {
        corner_radius,
        scale,
        noise: config.noise,
        ignore_alpha: if has_alpha_tex { config.ignore_alpha } else { zero_bits() },
        alpha_tex: if has_alpha_tex { 1 } else { 0 },
        sample_area,
        geometry,
        buffer_size,
    }
}

/// The shader inputs for an element: the ignore-alpha amount and toggle are
/// only set when a second, opaque rendering is bound.
pub fn build_uniforms(
    sample_area: Rect,
    geometry: FloatRect,
    scale: FloatBits,
    corner_radius: CornerRadius,
    has_alpha_tex: bool,
    config: &BlurConfig,
    buffer_size: Size,
) -> (r: BlurUniforms)
    ensures
        r == uniforms_spec(sample_area, geometry, scale, corner_radius, has_alpha_tex, *config, buffer_size),
{
    BlurUniforms {
        corner_radius,
        scale,
        noise: config.noise,
        ignore_alpha: if has_alpha_tex { config.ignore_alpha } else { FloatBits { bits: 0 } },
        alpha_tex: if has_alpha_tex { 1 } else { 0 },
        sample_area,
        geometry,
        buffer_size,
    }
}

impl BlurVariant {
    pub open spec fn is_true_spec(self) -> bool {
        self is True
    }

    /// Whether this is a true blur.
    pub fn is_true(&self) -> (r: bool)
        ensures
            r == self.is_true_spec(),
    {
        match self {
            BlurVariant::True { .. } => true,
            BlurVariant::Optimized { .. } => false,
        }
    }
}

/// Whether the element's picture is out of date at `now`: a pre-blurred
/// texture of another size than the output, or a true blur whose deadline has
/// passed or was never set.
pub open spec fn needs_rerender(v: BlurVariant, fx: EffectsState, now: u64) -> bool {
    match v {
        BlurVariant::Optimized { texture } => texture.size != fx.output_size,
        BlurVariant::True { rerender_at, .. } => rerender_at is None || rerender_at->0 < now,
    }
}

/// Whether the element samples a pre-blurred texture that is no longer the
/// output's.
pub open spec fn needs_reconfigure(v: BlurVariant, fx: EffectsState) -> bool {
    match v {
        BlurVariant::Optimized { texture } => texture.id != fx.optimized_blur.id,
        BlurVariant::True { .. } => false,
    }
}

impl BlurRenderElement {
    pub open spec fn damage_all_spec(self) -> BlurRenderElement {
        BlurRenderElement { commit: wrapping_inc(self.commit), ..self }
    }

    /// Whether the cached values are those of a request.
    pub open spec fn matches_request(
        self,
        sample_area: Rect,
        corner_radius: CornerRadius,
        scale: FloatBits,
        geometry: FloatRect,
        render_loc: FloatPoint,
    ) -> bool {
        &&& self.sample_area == sample_area
        &&& self.geometry == geometry
        &&& self.scale == scale
        &&& self.corner_radius == corner_radius
        &&& self.render_loc == render_loc
    }

    /// Mark the whole element as changed.
    pub fn damage_all(&mut self)
        ensures
            *final(self) == old(self).damage_all_spec(),
    {
        self.commit = increment(self.commit);
    }

    pub fn id(&self) -> (r: ElementId)
        ensures
            r == self.id,
    {
        self.id
    }

    pub fn current_commit(&self) -> (r: u64)
        ensures
            r == self.commit,
    {
        self.commit
    }

    /// The area that changes when the element's picture changes, in logical
    /// pixels: a true blur reaches `2^(passes + 1) * radius` beyond its sample
    /// area on every side; a pre-blurred one covers its sample area.
    pub open spec fn damage_spec(self) -> (int, int, int, int) {
        match self.variant {
            BlurVariant::True { config, .. } => expanded(self.sample_area, spread_spec(config.passes, config.radius)),
            BlurVariant::Optimized { .. } => rect_tuple(self.sample_area),
        }
    }

    pub open spec fn damage_fits(self) -> bool {
        match self.variant {
            BlurVariant::True { config, .. } => can_expand(self.sample_area, spread_spec(config.passes, config.radius)),
            BlurVariant::Optimized { .. } => true,
        }
    }

    /// The damaged area of the element; see `damage_spec`.
    pub fn damage(&self) -> (r: Rect)
        requires
            self.damage_fits(),
        ensures
            rect_tuple(r) == self.damage_spec(),
    {
        match &self.variant {
            BlurVariant::True { config, .. } => {
                let spread = blur_spread(config.passes, config.radius);
                self.sample_area.expand(spread as i64)
            },
            BlurVariant::Optimized { .. } => self.sample_area,
        }
    }

    /// The part of the element that is fully opaque, for an element of
    /// `size` physical pixels whose corner radii, scaled and rounded up, are
    /// given. A true blur, or one over a second opaque rendering, has none;
    /// otherwise it is the interior inset by the largest radius on every side,
    /// when that leaves anything.
    pub fn opaque_region(
        &self,
        size: Size,
        top_left: i32,
        top_right: i32,
        bottom_right: i32,
        bottom_left: i32,
    ) -> (r: Option<Rect>)
        requires
            0 <= top_left,
            0 <= top_right,
            0 <= bottom_right,
            0 <= bottom_left,
        ensures
            r == opaque_region_spec(self.variant, self.alpha_tex, size, max4(top_left, top_right, bottom_right, bottom_left)),
    {
        if self.alpha_tex.is_some() || self.variant.is_true() {
            return None;
        }
        let mut largest = top_left;
        if top_right > largest {
            largest = top_right;
        }
        if bottom_right > largest {
            largest = bottom_right;
        }
        if bottom_left > largest {
            largest = bottom_left;
        }
        let w = size.w as i64 - 2 * largest as i64;
        let h = size.h as i64 - 2 * largest as i64;
        if w <= 0 || h <= 0 {
            None
        } else {
            Some(Rect { loc: Point { x: largest, y: largest }, size: Size { w: w as i32, h: h as i32 } })
        }
    }
}

pub open spec fn max4(a: i32, b: i32, c: i32, d: i32) -> i32 {
    let ab = if b > a { b } else { a };
    let abc = if c > ab { c } else { ab };
    if d > abc { d } else { abc }
}

pub open spec fn opaque_region_spec(variant: BlurVariant, alpha_tex: Option<TextureRef>, size: Size, largest: i32) -> Option<Rect> {
    if alpha_tex is Some || variant is True {
        None
    } else if size.w - 2 * largest <= 0 || size.h - 2 * largest <= 0 {
        None
    } else {
        Some(Rect {
            loc: Point { x: largest, y: largest },
            size: Size { w: (size.w - 2 * largest) as i32, h: (size.h - 2 * largest) as i32 },
        })
    }
}

} // verus!
