//! Per-output effect buffers: the pre-blurred texture, the two working textures
//! that the Kawase passes alternate between, and the refresh schedule.
use vstd::prelude::*;

use crate::config::BlurConfig;
use crate::counter::{increment, wrapping_inc};
use crate::geometry::{can_expand, expanded, rect_tuple, Rect, Size, Transform};
use crate::kawase::{blur_spread, pass_at, plan_passes, spread_spec, BlurPass, CurrentBuffer, Slot};

verus! {

/// Time between two refreshes when no rate is asked for: 150 ms, in nanoseconds.
pub const DEFAULT_RERENDER_INTERVAL_NS: u64 = 150_000_000;

/// Nanoseconds in a thousand seconds: a rate in millihertz divides this.
pub const NANOS_PER_KILOSECOND: u64 = 1_000_000_000_000;

/// A texture as the library sees it: its handle and its size in pixels.
#[derive(Clone, Copy, Debug, PartialEq, Eq, Structural)]
pub struct TextureRef {
    pub id: u32,
    pub size: Size,
}

/// Why buffers could not be set up.
#[derive(Clone, Copy, Debug, PartialEq, Eq, Structural)]
pub enum FxError {
    /// A texture or framebuffer could not be created.
    Allocation,
}

/// Whether a refresh rate (in millihertz) asks for a rate at all.
pub open spec fn rate_active(rate: Option<u64>) -> bool {
    rate is Some && rate->0 > 0
}

/// Nanoseconds between two refreshes at `rate` millihertz, or the default.
pub open spec fn interval_spec(rate: Option<u64>) -> nat {
    if rate_active(rate) {
        (NANOS_PER_KILOSECOND / rate->0) as nat
    } else {
        DEFAULT_RERENDER_INTERVAL_NS as nat
    }
}

/// Whether a deadline `interval_spec(rate)` after `now` is still a time stamp.
pub open spec fn deadline_fits(now: u64, rate: Option<u64>) -> bool {
    now + interval_spec(rate) <= u64::MAX
}

/// The time stamp `interval_spec(rate)` after `now`.
pub open spec fn deadline_after(now: u64, rate: Option<u64>) -> u64 {
    (now + interval_spec(rate)) as u64
}

/// Whether a refresh asked for at `now` does work, given the pending deadline.
/// With a rate, a deadline further away than one interval is pulled in to now.
pub open spec fn refresh_due(at: Option<u64>, now: u64, rate: Option<u64>) -> bool {
    match at {
        None => true,
        Some(next) => if rate_active(rate) {
            !(now < next && next <= now + interval_spec(rate))
        } else {
            next <= now
        },
    }
}

/// Time between two refreshes at `rate` millihertz; without a positive rate,
/// the default of 150 ms.
pub fn rerender_interval(rate: Option<u64>) -> (r: u64)
    ensures
        r == interval_spec(rate),
{
    match rate {
        Some(mhz) if mhz > 0 => NANOS_PER_KILOSECOND / mhz,
        _ => DEFAULT_RERENDER_INTERVAL_NS,
    }
}

/// The next refresh deadline for a refresh done at `now`.
pub fn get_rerender_at(now: u64, rate: Option<u64>) -> (r: Option<u64>)
    requires
        deadline_fits(now, rate),
    ensures
        r == Some(deadline_after(now, rate)),
{
    Some(now + rerender_interval(rate))
}

/// What the buffers of one output hold, as plain values.
pub struct EffectsState {
    pub optimized_blur: TextureRef,
    pub rerender_at: Option<u64>,
    pub generation: u64,
    pub effects: TextureRef,
    pub effects_swapped: TextureRef,
    pub current_buffer: CurrentBuffer,
    pub output_size: Size,
    pub transform: Transform,
}

impl EffectsState {
    /// All three textures have the output's size.
    pub open spec fn wf(self) -> bool {
        &&& self.optimized_blur.size == self.output_size
        &&& self.effects.size == self.output_size
        &&& self.effects_swapped.size == self.output_size
    }

    pub open spec fn texture_in(self, slot: Slot) -> TextureRef {
        match slot {
            Slot::Effects => self.effects,
            Slot::EffectsSwapped => self.effects_swapped,
        }
    }
}

/// The effect buffers of one output.
pub struct EffectsFramebuffers {
    optimized_blur: TextureRef,
    optimized_blur_rerender_at: Option<u64>,
    optimized_blur_generation: u64,
    effects: TextureRef,
    effects_swapped: TextureRef,
    current_buffer: CurrentBuffer,
    output_size: Size,
    transform: Transform,
}

impl View for EffectsFramebuffers {
    type V = EffectsState;

    closed spec fn view(&self) -> EffectsState {
        EffectsState {
            optimized_blur: self.optimized_blur,
            rerender_at: self.optimized_blur_rerender_at,
            generation: self.optimized_blur_generation,
            effects: self.effects,
            effects_swapped: self.effects_swapped,
            current_buffer: self.current_buffer,
            output_size: self.output_size,
            transform: self.transform,
        }
    }
}


/// The transform that the buffers follow: the one asked for, else the output's.
pub open spec fn resolved_transform(orientation: Option<Transform>, current: Transform) -> Transform {
    match orientation {
        Some(t) => t,
        None => current,
    }
}

/// The state of freshly allocated buffers for an output whose mode has size
/// `mode_size`: the given textures, roles reset, generation zero, and a first
/// refresh due 150 ms after `now`.
pub open spec fn fresh_state(
    mode_size: Size,
    transform: Transform,
    optimized_blur: TextureRef,
    effects: TextureRef,
    effects_swapped: TextureRef,
    now: u64,
) -> EffectsState {
    EffectsState {
        optimized_blur,
        rerender_at: Some(deadline_after(now, None)),
        generation: 0,
        effects,
        effects_swapped,
        current_buffer: CurrentBuffer::Normal,
        output_size: transform.transform_size_spec(mode_size),
        transform,
    }
}

/// The texture size for an output whose mode has size `mode_size`.
pub open spec fn texture_size_spec(mode_size: Size, orientation: Option<Transform>, current: Transform) -> Size {
    resolved_transform(orientation, current).transform_size_spec(mode_size)
}

/// The state after a refresh that did work at `now`.
pub open spec fn refreshed(s: EffectsState, now: u64, rate: Option<u64>) -> EffectsState {
    EffectsState {
        rerender_at: Some(deadline_after(now, rate)),
        current_buffer: CurrentBuffer::Normal,
        ..s
    }
}

/// The area that true blur reads and writes around a destination `dst`: the
/// spread of the blur eight times over on every side.
pub open spec fn true_blur_region(dst: Rect, config: BlurConfig) -> (int, int, int, int) {
    expanded(dst, 8 * spread_spec(config.passes, config.radius))
}

/// The work of one true-blur draw: the area copied in and blurred, and the
/// passes over the working textures. The result ends in the effects texture.
pub struct TrueBlurPlan {
    pub region: Rect,
    pub passes: Vec<BlurPass>,
}

/// The size that the effect textures of an output need.
pub fn texture_size_for(mode_size: Size, orientation: Option<Transform>, current: Transform) -> (r: Size)
    ensures
        r == texture_size_spec(mode_size, orientation, current),
{
    let t = match orientation {
        Some(t) => t,
        None => current,
    };
    t.transform_size(mode_size)
}

impl EffectsFramebuffers {
    /// Buffers for an output, from three textures allocated at
    /// `texture_size_for(mode_size, orientation, current_transform)`.
    pub fn init_for_output(
        mode_size: Size,
        orientation: Option<Transform>,
        current_transform: Transform,
        optimized_blur: TextureRef,
        effects: TextureRef,
        effects_swapped: TextureRef,
        now: u64,
    ) -> (r: Self)
        requires
            optimized_blur.size == texture_size_spec(mode_size, orientation, current_transform),
            effects.size == texture_size_spec(mode_size, orientation, current_transform),
            effects_swapped.size == texture_size_spec(mode_size, orientation, current_transform),
            deadline_fits(now, None),
        ensures
            r@ == fresh_state(
                mode_size,
                resolved_transform(orientation, current_transform),
                optimized_blur,
                effects,
                effects_swapped,
                now,
            ),
            r@.wf(),
    {
        let transform = match orientation {
            Some(t) => t,
            None => current_transform,
        };
        EffectsFramebuffers {
            optimized_blur,
            optimized_blur_rerender_at: get_rerender_at(now, None),
            optimized_blur_generation: 0,
            effects,
            effects_swapped,
            current_buffer: CurrentBuffer::Normal,
            output_size: transform.transform_size(mode_size),
            transform,
        }
    }

    /// Replace all three textures after the output's size, scale or transform
    /// changed. The first failed allocation is returned and leaves the buffers
    /// as they were; handles handed out before are stale after a success.
    pub fn update_for_output(
        &mut self,
        mode_size: Size,
        orientation: Option<Transform>,
        current_transform: Transform,
        optimized_blur: Result<TextureRef, FxError>,
        effects: Result<TextureRef, FxError>,
        effects_swapped: Result<TextureRef, FxError>,
        now: u64,
    ) -> (r: Result<(), FxError>)
        requires
            optimized_blur is Ok ==> optimized_blur->Ok_0.size == texture_size_spec(mode_size, orientation, current_transform),
            effects is Ok ==> effects->Ok_0.size == texture_size_spec(mode_size, orientation, current_transform),
            effects_swapped is Ok ==> effects_swapped->Ok_0.size == texture_size_spec(mode_size, orientation, current_transform),
            deadline_fits(now, None),
        ensures
            optimized_blur is Err ==> r == Err::<(), FxError>(optimized_blur->Err_0),
            optimized_blur is Ok && effects is Err ==> r == Err::<(), FxError>(effects->Err_0),
            optimized_blur is Ok && effects is Ok && effects_swapped is Err
                ==> r == Err::<(), FxError>(effects_swapped->Err_0),
            r is Err ==> final(self)@ == old(self)@,
            r is Ok <==> (optimized_blur is Ok && effects is Ok && effects_swapped is Ok),
            r is Ok ==> final(self)@ == fresh_state(
                mode_size,
                resolved_transform(orientation, current_transform),
                optimized_blur->Ok_0,
                effects->Ok_0,
                effects_swapped->Ok_0,
                now,
            ),
            r is Ok ==> final(self)@.wf(),
    {
        let o = match optimized_blur {
            Ok(t) => t,
            Err(e) => return Err(e),
        };
        let e = match effects {
            Ok(t) => t,
            Err(err) => return Err(err),
        };
        let s = match effects_swapped {
            Ok(t) => t,
            Err(err) => return Err(err),
        };
        *self = EffectsFramebuffers::init_for_output(mode_size, orientation, current_transform, o, e, s, now);
        Ok(())
    }

    /// Note outside damage: when no refresh is pending, make one due at once.
    /// A pending deadline is left as it is.
    pub fn set_dirty(&mut self, now: u64)
        ensures
            old(self)@.rerender_at is None ==> final(self)@ == (EffectsState { rerender_at: Some(now), ..old(self)@ }),
            old(self)@.rerender_at is Some ==> final(self)@ == old(self)@,
    {
        if self.optimized_blur_rerender_at.is_none() {
            self.optimized_blur_rerender_at = Some(now);
        }
    }

    /// Ask for a refresh of the pre-blurred texture at `now`, at most once per
    /// interval of `rate` millihertz (150 ms without a rate). Returns `None` when
    /// the deadline has not come. Otherwise schedules the next one and returns the
    /// passes to run, after the scene has been drawn into the effects texture;
    /// the result then lies in the effects texture, to be copied into the
    /// pre-blurred one, after which `complete_optimized_blur_update` is called.
    pub fn update_optimized_blur_buffer(&mut self, now: u64, rate: Option<u64>, config: &BlurConfig) -> (r: Option<Vec<BlurPass>>)
        requires
            deadline_fits(now, rate),
        ensures
            r is Some <==> refresh_due(old(self)@.rerender_at, now, rate),
            r is None ==> final(self)@ == old(self)@,
            r is Some ==> final(self)@ == refreshed(old(self)@, now, rate),
            r is Some ==> r->0@.len() == 2 * config.passes,
            r is Some ==> forall|i: int| 0 <= i < r->0@.len() ==> r->0@[i] == pass_at(
                CurrentBuffer::Normal,
                config.passes,
                old(self)@.output_size,
                config.radius,
                i,
            ),
    {
        let interval = rerender_interval(rate);
        let active = match rate {
            Some(mhz) => mhz > 0,
            None => false,
        };
        if active {
            match self.optimized_blur_rerender_at {
                Some(next) => {
                    if next > now && next <= now + interval {
                        return None;
                    }
                },
                None => {},
            }
        } else {
            match self.optimized_blur_rerender_at {
                Some(next) => {
                    if next > now {
                        return None;
                    }
                },
                None => {},
            }
        }
        self.optimized_blur_rerender_at = get_rerender_at(now, rate);
        self.current_buffer = CurrentBuffer::Normal;
        let passes = plan_passes(&mut self.current_buffer, config.passes, self.output_size, config.radius);
        Some(passes)
    }

    /// Record that the pre-blurred texture was rebuilt: the generation moves on.
    pub fn complete_optimized_blur_update(&mut self)
        ensures
            final(self)@ == (EffectsState { generation: wrapping_inc(old(self)@.generation), ..old(self)@ }),
    {
        self.optimized_blur_generation = increment(self.optimized_blur_generation);
    }

    /// Plan one true-blur draw into `dst` (physical pixels) at integer `scale`:
    /// the roles are reset, and the passes are sized for the effects texture at
    /// that scale.
    pub fn plan_true_blur(&mut self, config: &BlurConfig, scale: i32, dst: Rect) -> (r: TrueBlurPlan)
        requires
            0 <= scale,
            old(self)@.output_size.w * scale <= i32::MAX,
            old(self)@.output_size.h * scale <= i32::MAX,
            old(self)@.output_size.w * scale >= i32::MIN,
            old(self)@.output_size.h * scale >= i32::MIN,
            can_expand(dst, 8 * spread_spec(config.passes, config.radius)),
        ensures
            rect_tuple(r.region) == true_blur_region(dst, *config),
            final(self)@ == (EffectsState { current_buffer: CurrentBuffer::Normal, ..old(self)@ }),
            r.passes@.len() == 2 * config.passes,
            forall|i: int| 0 <= i < r.passes@.len() ==> r.passes@[i] == pass_at(
                CurrentBuffer::Normal,
                config.passes,
                Size { w: (old(self)@.output_size.w * scale) as i32, h: (old(self)@.output_size.h * scale) as i32 },
                config.radius,
                i,
            ),
    {
        let spread = blur_spread(config.passes, config.radius);
        let region = dst.expand(8 * spread as i64);
        self.current_buffer = CurrentBuffer::Normal;
        let tex = Size { w: self.output_size.w * scale, h: self.output_size.h * scale };
        let passes = plan_passes(&mut self.current_buffer, config.passes, tex, config.radius);
        TrueBlurPlan { region, passes }
    }

    /// The sampled and the rendered working texture.
    pub fn buffers(&self) -> (r: (TextureRef, TextureRef))
        ensures
            r.0 == self@.texture_in(self@.current_buffer.sample_slot()),
            r.1 == self@.texture_in(self@.current_buffer.render_slot()),
    {
        match self.current_buffer {
            CurrentBuffer::Normal => (self.effects, self.effects_swapped),
            CurrentBuffer::Swapped => (self.effects_swapped, self.effects),
        }
    }

    pub fn output_size(&self) -> (r: Size)
        ensures
            r == self@.output_size,
    {
        self.output_size
    }

    pub fn transform(&self) -> (r: Transform)
        ensures
            r == self@.transform,
    {
        self.transform
    }

    pub fn optimized_blur_generation(&self) -> (r: u64)
        ensures
            r == self@.generation,
    {
        self.optimized_blur_generation
    }

    /// The pre-blurred texture.
    pub fn optimized_blur(&self) -> (r: TextureRef)
        ensures
            r == self@.optimized_blur,
    {
        self.optimized_blur
    }

    /// When the pre-blurred texture is next due for a refresh.
    pub fn rerender_at(&self) -> (r: Option<u64>)
        ensures
            r == self@.rerender_at,
    {
        self.optimized_blur_rerender_at
    }
}

} // verus!
