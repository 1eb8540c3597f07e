//! The blur of one surface: its settings, and the element it last drew,
//! kept so that an unchanged surface is not blurred again.
use vstd::prelude::*;

use crate::commit_tracker::CommitTracker;
use crate::config::{BlurConfig, FloatBits};
use crate::counter::{increment, wrapping_inc};
use crate::effects::{EffectsFramebuffers, EffectsState, TextureRef};
use crate::element::{
    build_uniforms, needs_reconfigure, needs_rerender, uniforms_spec, BlurRenderElement, BlurVariant,
    CornerRadius, ElementId, FloatPoint, FloatRect, TRUE_BLUR_RERENDER_INTERVAL_NS,
};
use crate::geometry::Rect;

verus! {

/// What a blur holds, as plain values.
pub struct BlurState {
    pub config: BlurConfig,
    /// The element drawn last, if it is still valid.
    pub inner: Option<BlurRenderElement>,
    /// A second, opaque rendering of the surface, when one is bound.
    pub alpha_tex: Option<TextureRef>,
    pub commit_tracker: Seq<(u64, u64)>,
    /// Tells this blur's elements apart from those of other blurs.
    pub owner: u64,
    /// The serial that the next element built will carry.
    pub next_serial: u64,
}

/// The blur of one surface.
#[derive(Debug)]
pub struct Blur {
    config: BlurConfig,
    inner: Option<BlurRenderElement>,
    alpha_tex: Option<TextureRef>,
    commit_tracker: CommitTracker,
    owner: u64,
    next_serial: u64,
}

impl View for Blur {
    type V = BlurState;

    closed spec fn view(&self) -> BlurState {
        BlurState {
            config: self.config,
            inner: self.inner,
            alpha_tex: self.alpha_tex,
            commit_tracker: self.commit_tracker@,
            owner: self.owner,
            next_serial: self.next_serial,
        }
    }
}

/// Whether true blur is drawn when asked for: not on quarter-turned outputs.
pub open spec fn effective_true_blur(requested: bool, fx: EffectsState) -> bool {
    requested && !fx.transform.swaps_axes()
}

/// The variant that a newly built or switched element takes.
pub open spec fn new_variant(true_blur: bool, fx: EffectsState, config: BlurConfig, private_texture: Option<TextureRef>) -> BlurVariant {
    if true_blur {
        BlurVariant::True { texture: private_texture->Some_0, config, rerender_at: None }
    } else {
        BlurVariant::Optimized { texture: fx.optimized_blur }
    }
}

/// The variant after the geometry changed: a true blur is due at once, a
/// pre-blurred one samples the output's present texture.
pub open spec fn reset_variant(v: BlurVariant, fx: EffectsState) -> BlurVariant {
    match v {
        BlurVariant::True { texture, config, .. } => BlurVariant::True { texture, config, rerender_at: None },
        BlurVariant::Optimized { .. } => BlurVariant::Optimized { texture: fx.optimized_blur },
    }
}

/// Whether a call has to build a true blur and has no texture for it.
pub open spec fn lacks_texture(b: BlurState, true_blur: bool, private_texture: Option<TextureRef>) -> bool {
    true_blur && private_texture is None && (b.inner is None || !(b.inner->0.variant is True))
}

/// What one render call does: the new state and the element drawn.
///
/// Nothing is drawn while blur is disabled, or when a true blur has to be
/// built without a texture for it. Without a cached element, one is built
/// with commit zero. Otherwise a change of variant damages the element; then,
/// if the request matches the cached values and the pre-blurred texture is
/// still the output's, the element is returned as it is, damaged only if its
/// picture is out of date; else the new values are taken, the uniforms are
/// rebuilt and the element is damaged.
pub open spec fn render_spec(
    b: BlurState,
    fx: EffectsState,
    sample_area: Rect,
    corner_radius: CornerRadius,
    scale: FloatBits,
    geometry: FloatRect,
    true_blur: bool,
    render_loc: FloatPoint,
    now: u64,
    private_texture: Option<TextureRef>,
) -> (BlurState, Option<BlurRenderElement>) {
    let tb = effective_true_blur(true_blur, fx);
    if b.config.is_disabled_spec() || lacks_texture(b, tb, private_texture) {
        (b, None)
    } else if b.inner is None {
        let e = BlurRenderElement {
            id: ElementId { owner: b.owner, serial: b.next_serial },
            uniforms: uniforms_spec(sample_area, geometry, scale, corner_radius, b.alpha_tex is Some, b.config, fx.output_size),
            sample_area,
            alpha_tex: b.alpha_tex,
            scale,
            commit: 0,
            corner_radius,
            geometry,
            variant: new_variant(tb, fx, b.config, private_texture),
            render_loc,
        };
        (BlurState { inner: Some(e), next_serial: wrapping_inc(b.next_serial), ..b }, Some(e))
    } else {
        let e0 = b.inner->0;
        let e1 = if tb != (e0.variant is True) {
            BlurRenderElement { variant: new_variant(tb, fx, b.config, private_texture), ..e0 }.damage_all_spec()
        } else {
            e0
        };
        let e2 = if e1.matches_request(sample_area, corner_radius, scale, geometry, render_loc)
            && !needs_reconfigure(e1.variant, fx) {
            if needs_rerender(e1.variant, fx, now) {
                e1.damage_all_spec()
            } else {
                e1
            }
        } else {
            BlurRenderElement {
                variant: reset_variant(e1.variant, fx),
                render_loc,
                sample_area,
                alpha_tex: b.alpha_tex,
                scale,
                geometry,
                corner_radius,
                uniforms: uniforms_spec(sample_area, geometry, scale, corner_radius, b.alpha_tex is Some, b.config, fx.output_size),
                ..e1
            }.damage_all_spec()
        };
        (BlurState { inner: Some(e2), ..b }, Some(e2))
    }
}

/// Whether drawing the cached element at `now` has to blur again: it is a
/// true blur whose deadline has passed or was never set.
pub open spec fn true_blur_due(b: BlurState, now: u64) -> bool {
    match b.inner {
        Some(e) => match e.variant {
            BlurVariant::True { rerender_at, .. } => rerender_at is None || rerender_at->0 < now,
            BlurVariant::Optimized { .. } => false,
        },
        None => false,
    }
}

/// The state once a due true blur has been blurred again at `now`: its next
/// deadline is 150 ms later.
pub open spec fn true_blur_rescheduled(b: BlurState, now: u64) -> BlurState {
    match b.inner {
        Some(e) => match e.variant {
            BlurVariant::True { texture, config, .. } => BlurState {
                inner: Some(BlurRenderElement {
                    variant: BlurVariant::True {
                        texture,
                        config,
                        rerender_at: Some((now + TRUE_BLUR_RERENDER_INTERVAL_NS) as u64),
                    },
                    ..e
                }),
                ..b
            },
            BlurVariant::Optimized { .. } => b,
        },
        None => b,
    }
}

impl Blur {
    /// A blur with these settings and nothing cached. `owner` tells this
    /// blur's elements apart from those of other blurs.
    pub fn new(config: BlurConfig, owner: u64) -> (r: Self)
        ensures
            r@.config == config,
            r@.inner is None,
            r@.alpha_tex is None,
            r@.commit_tracker == Seq::<(u64, u64)>::empty(),
            r@.owner == owner,
            r@.next_serial == 0,
    {
        Blur { config, inner: None, alpha_tex: None, commit_tracker: CommitTracker::new(), owner, next_serial: 0 }
    }

    /// Take the counters `other` in place of the recorded ones; returns whether
    /// they differed, that is whether the opaque rendering is out of date.
    pub fn maybe_update_commit_tracker(&mut self, other: CommitTracker) -> (r: bool)
        ensures
            r == (old(self)@.commit_tracker != other@),
            final(self)@ == (BlurState { commit_tracker: other@, ..old(self)@ }),
    {
        if self.commit_tracker.same_as(&other) {
            proof {
                assert(other@ == self.commit_tracker@);
            }
            false
        } else {
            self.commit_tracker = other;
            true
        }
    }

    /// New settings; a change of them drops the cached element.
    pub fn update_config(&mut self, config: BlurConfig)
        ensures
            final(self)@ == (BlurState {
                config,
                inner: if config == old(self)@.config { old(self)@.inner } else { None },
                ..old(self)@
            }),
    {
        if self.config != config {
            self.inner = None;
        }
        self.config = config;
    }

    /// Unbind the opaque rendering; the cached element is damaged when one was
    /// bound.
    pub fn clear_alpha_tex(&mut self)
        ensures
            final(self)@ == (BlurState {
                alpha_tex: None,
                inner: if old(self)@.alpha_tex is Some && old(self)@.inner is Some {
                    Some(old(self)@.inner->0.damage_all_spec())
                } else {
                    old(self)@.inner
                },
                ..old(self)@
            }),
    {
        if self.alpha_tex.is_some() {
            match &mut self.inner {
                Some(e) => e.damage_all(),
                None => {},
            }
        }
        self.alpha_tex = None;
    }

    /// Bind an opaque rendering of the surface; the cached element is dropped.
    pub fn set_alpha_tex(&mut self, alpha_tex: TextureRef)
        ensures
            final(self)@ == (BlurState { alpha_tex: Some(alpha_tex), inner: None, ..old(self)@ }),
    {
        self.alpha_tex = Some(alpha_tex);
        self.inner = None;
    }

    /// Turn the blur on or off.
    pub fn update_render_elements(&mut self, is_active: bool)
        ensures
            final(self)@ == (BlurState { config: BlurConfig { on: is_active, ..old(self)@.config }, ..old(self)@ }),
    {
        self.config.on = is_active;
    }

    /// Produce the element that blurs below a surface, reusing the cached one
    /// where the request allows; see `render_spec`. `sample_area` is the area
    /// to blur, `true_blur` asks for real-time blur, which quarter-turned
    /// outputs do not get, and `private_texture` is a texture of the effects'
    /// size, used only when a true blur is built.
    pub fn render(
        &mut self,
        fx: &EffectsFramebuffers,
        sample_area: Rect,
        corner_radius: CornerRadius,
        scale: FloatBits,
        geometry: FloatRect,
        true_blur: bool,
        render_loc: FloatPoint,
        now: u64,
        private_texture: Option<TextureRef>,
    ) -> (r: Option<BlurRenderElement>)
        ensures
            (final(self)@, r) == render_spec(
                old(self)@,
                fx@,
                sample_area,
                corner_radius,
                scale,
                geometry,
                true_blur,
                render_loc,
                now,
                private_texture,
            ),
    {
        if self.config.is_disabled() {
            return None;
        }
        let tb = true_blur && fx.transform().allows_true_blur();
        let inner_is_true = match &self.inner {
            Some(e) => e.variant.is_true(),
            None => false,
        };
        if tb && private_texture.is_none() && !inner_is_true {
            return None;
        }
        let optimized = fx.optimized_blur();
        let output_size = fx.output_size();
        let fresh_variant = match private_texture {
            Some(texture) if tb => BlurVariant::True { texture, config: self.config, rerender_at: None },
            _ => BlurVariant::Optimized { texture: optimized },
        };
        match self.inner {
            None => {
                let has_alpha = self.alpha_tex.is_some();
                let e = BlurRenderElement {
                    id: ElementId { owner: self.owner, serial: self.next_serial },
                    uniforms: build_uniforms(sample_area, geometry, scale, corner_radius, has_alpha, &self.config, output_size),
                    sample_area,
                    alpha_tex: self.alpha_tex,
                    scale,
                    commit: 0,
                    corner_radius,
                    geometry,
                    variant: fresh_variant,
                    render_loc,
                };
                self.inner = Some(e);
                self.next_serial = increment(self.next_serial);
                Some(e)
            },
            Some(e0) => {
                let mut e = e0;
                if tb != e.variant.is_true() {
                    e.variant = fresh_variant;
                    e.damage_all();
                }
                let rerender = match e.variant {
                    BlurVariant::Optimized { texture } => texture.size != output_size,
                    BlurVariant::True { rerender_at, .. } => match rerender_at {
                        None => true,
                        Some(at) => at < now,
                    },
                };
                let reconfigure = match e.variant {
                    BlurVariant::Optimized { texture } => texture.id != optimized.id,
                    BlurVariant::True { .. } => false,
                };
                if e.sample_area == sample_area && e.geometry == geometry && e.scale == scale
                    && e.corner_radius == corner_radius && e.render_loc == render_loc && !reconfigure {
                    if rerender {
                        e.damage_all();
                    }
                } else {
                    e.variant = match e.variant {
                        BlurVariant::True { texture, config, .. } => BlurVariant::True { texture, config, rerender_at: None },
                        BlurVariant::Optimized { .. } => BlurVariant::Optimized { texture: optimized },
                    };
                    e.render_loc = render_loc;
                    e.sample_area = sample_area;
                    e.alpha_tex = self.alpha_tex;
                    e.scale = scale;
                    e.geometry = geometry;
                    e.corner_radius = corner_radius;
                    e.uniforms = build_uniforms(
                        sample_area,
                        geometry,
                        scale,
                        corner_radius,
                        self.alpha_tex.is_some(),
                        &self.config,
                        output_size,
                    );
                    e.damage_all();
                }
                self.inner = Some(e);
                Some(e)
            },
        }
    }

    /// Called when the cached element is drawn at `now`: returns whether its
    /// true blur has to be computed again, and if so sets its next deadline.
    pub fn take_true_blur_refresh(&mut self, now: u64) -> (r: bool)
        requires
            now + TRUE_BLUR_RERENDER_INTERVAL_NS <= u64::MAX,
        ensures
            r == true_blur_due(old(self)@, now),
            r ==> final(self)@ == true_blur_rescheduled(old(self)@, now),
            !r ==> final(self)@ == old(self)@,
    {
        match self.inner {
            Some(e) => match e.variant {
                BlurVariant::True { texture, config, rerender_at } => {
                    let due = match rerender_at {
                        None => true,
                        Some(at) => at < now,
                    };
                    if due {
                        let mut e1 = e;
                        e1.variant = BlurVariant::True {
                            texture,
                            config,
                            rerender_at: Some(now + TRUE_BLUR_RERENDER_INTERVAL_NS),
                        };
                        self.inner = Some(e1);
                    }
                    due
                },
                BlurVariant::Optimized { .. } => false,
            },
            None => false,
        }
    }

    /// The element drawn last, if still valid.
    pub fn cached(&self) -> (r: Option<BlurRenderElement>)
        ensures
            r == self@.inner,
    {
        self.inner
    }

    pub fn config(&self) -> (r: BlurConfig)
        ensures
            r == self@.config,
    {
        self.config
    }
}

} // verus!
