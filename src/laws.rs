//! Properties that hold across calls, proved over the contracts' own terms.
use vstd::prelude::*;

use crate::blur::{effective_true_blur, lacks_texture, render_spec, BlurState};
use crate::commit_tracker::{lemma_records_unique, records};
use crate::config::FloatBits;
use crate::counter::wrapping_inc;
use crate::effects::{deadline_fits, interval_spec, refresh_due, refreshed, EffectsState, TextureRef};
use crate::element::{needs_rerender, BlurRenderElement, CornerRadius, FloatPoint, FloatRect};
use crate::geometry::Rect;
use crate::kawase::{lemma_swapped_n_parity, swapped_n, two_pow, CurrentBuffer};

verus! {

/// A full blur run of `n` down and `n` up passes swaps the roles `2 * n`
/// times and so leaves them as they were.
pub proof fn law_full_run_restores_roles(start: CurrentBuffer, n: u32)
    ensures
        swapped_n(start, (2 * n) as nat) == start,
{
    lemma_swapped_n_parity(start, (2 * n) as nat);
}

/// With no pass or a zero radius, no element is drawn.
pub proof fn law_no_element_without_passes_or_radius(
    b: BlurState,
    fx: EffectsState,
    sample_area: Rect,
    corner_radius: CornerRadius,
    scale: FloatBits,
    geometry: FloatRect,
    true_blur: bool,
    render_loc: FloatPoint,
    now: u64,
    private_texture: Option<TextureRef>,
)
    requires
        b.config.passes == 0 || b.config.radius == 0,
    ensures
        render_spec(b, fx, sample_area, corner_radius, scale, geometry, true_blur, render_loc, now, private_texture).1 is None,
        render_spec(b, fx, sample_area, corner_radius, scale, geometry, true_blur, render_loc, now, private_texture).0 == b,
{
}

/// Rendering twice with the same request returns the same element the second
/// time, with the same commit, unless its picture is out of date by then (a
/// true blur past its deadline); then it is damaged once.
pub proof fn law_repeated_render_is_cached(
    b: BlurState,
    fx: EffectsState,
    sample_area: Rect,
    corner_radius: CornerRadius,
    scale: FloatBits,
    geometry: FloatRect,
    true_blur: bool,
    render_loc: FloatPoint,
    now1: u64,
    now2: u64,
    private_texture: Option<TextureRef>,
)
    requires
        fx.wf(),
    ensures
        ({
            let (b1, r1) = render_spec(b, fx, sample_area, corner_radius, scale, geometry, true_blur, render_loc, now1, private_texture);
            let (b2, r2) = render_spec(b1, fx, sample_area, corner_radius, scale, geometry, true_blur, render_loc, now2, private_texture);
            &&& r1 is None ==> r2 is None
            &&& r1 is Some && !needs_rerender(r1->0.variant, fx, now2) ==> r2 == r1
            &&& r1 is Some && needs_rerender(r1->0.variant, fx, now2) ==> r2 == Some(r1->0.damage_all_spec())
        }),
{
}

/// A true-blur element damages `2^(passes + 1) * radius` pixels beyond its
/// sample area on each of its four sides.
pub proof fn law_true_blur_damage_spread(e: BlurRenderElement)
    requires
        e.variant is True,
    ensures
        ({
            let config = e.variant->True_config;
            let s = two_pow((config.passes + 1) as nat) * (config.radius as nat);
            let d = e.damage_spec();
            &&& d.0 == e.sample_area.loc.x - s
            &&& d.1 == e.sample_area.loc.y - s
            &&& d.0 + d.2 == e.sample_area.loc.x + e.sample_area.size.w + s
            &&& d.1 + d.3 == e.sample_area.loc.y + e.sample_area.size.h + s
        }),
{
}

/// Switching a cached element between the two variants always changes its
/// commit, whatever the geometry.
pub proof fn law_variant_switch_damages(
    b: BlurState,
    fx: EffectsState,
    sample_area: Rect,
    corner_radius: CornerRadius,
    scale: FloatBits,
    geometry: FloatRect,
    true_blur: bool,
    render_loc: FloatPoint,
    now: u64,
    private_texture: Option<TextureRef>,
)
    requires
        b.inner is Some,
        effective_true_blur(true_blur, fx) != (b.inner->0.variant is True),
        !b.config.is_disabled_spec(),
        !lacks_texture(b, effective_true_blur(true_blur, fx), private_texture),
    ensures
        ({
            let r = render_spec(b, fx, sample_area, corner_radius, scale, geometry, true_blur, render_loc, now, private_texture).1;
            &&& r is Some
            &&& r->0.variant is True == effective_true_blur(true_blur, fx)
            &&& r->0.commit != b.inner->0.commit
        }),
{
    let c = b.inner->0.commit;
    assert(wrapping_inc(c) != c);
    assert(wrapping_inc(wrapping_inc(c)) != c);
}

/// Of two refresh requests less than one interval apart, at most one does
/// work; after one that did work, the next does work exactly when at least one
/// interval has passed.
pub proof fn law_refresh_throttle(s: EffectsState, t1: u64, t2: u64, rate: Option<u64>)
    requires
        t1 <= t2,
        deadline_fits(t1, rate),
        deadline_fits(t2, rate),
    ensures
        ({
            let due1 = refresh_due(s.rerender_at, t1, rate);
            let s1 = if due1 { refreshed(s, t1, rate) } else { s };
            let due2 = refresh_due(s1.rerender_at, t2, rate);
            &&& due1 ==> (due2 <==> t2 >= t1 + interval_spec(rate))
            &&& t2 < t1 + interval_spec(rate) ==> !(due1 && due2)
            &&& (s.rerender_at is None || s.rerender_at->0 <= t1) ==> due1
        }),
{
}

/// On a quarter-turned output, an element drawn is never a true blur.
pub proof fn law_no_true_blur_when_quarter_turned(
    b: BlurState,
    fx: EffectsState,
    sample_area: Rect,
    corner_radius: CornerRadius,
    scale: FloatBits,
    geometry: FloatRect,
    true_blur: bool,
    render_loc: FloatPoint,
    now: u64,
    private_texture: Option<TextureRef>,
)
    requires
        fx.transform.swaps_axes(),
    ensures
        ({
            let r = render_spec(b, fx, sample_area, corner_radius, scale, geometry, true_blur, render_loc, now, private_texture).1;
            r is Some ==> r->0.variant is Optimized
        }),
{
}

/// Counters recorded from the same elements twice are the same record: the
/// opaque rendering of a surface is not rebuilt while no element's commit
/// changes.
pub proof fn law_unchanged_commits_keep_the_record(b: BlurState, other: Seq<(u64, u64)>, elems: Seq<(u64, u64)>)
    requires
        records(b.commit_tracker, elems),
        records(other, elems),
    ensures
        !(b.commit_tracker != other),
{
    lemma_records_unique(b.commit_tracker, other, elems);
}

} // verus!
