use niri_blur::blur::Blur;
use niri_blur::commit_tracker::CommitTracker;
use niri_blur::config::{BlurConfig, FloatBits};
use niri_blur::effects::{
    get_rerender_at, rerender_interval, texture_size_for, EffectsFramebuffers, FxError, TextureRef,
};
use niri_blur::element::{BlurVariant, CornerRadius, FloatPoint, FloatRect};
use niri_blur::geometry::{Point, Rect, Size, Transform};
use niri_blur::kawase::{blur_spread, plan_passes, CurrentBuffer, PassDirection, Slot};
use niri_blur::kde_blur::{BlurAction, BlurRequest, ManagerRequest, OrgKdeKwinBlurManagerState};

const MS: u64 = 1_000_000;

fn bits(v: f64) -> FloatBits {
    FloatBits { bits: v.to_bits() }
}

fn config(passes: u32, radius: u32) -> BlurConfig {
    BlurConfig {
        on: true,
        passes,
        radius,
        noise: bits(0.03),
        ignore_alpha: bits(0.5),
        x_ray: false,
    }
}

fn tex(id: u32, w: i32, h: i32) -> TextureRef {
    TextureRef { id, size: Size { w, h } }
}

fn fx_at(w: i32, h: i32, transform: Transform, now: u64) -> EffectsFramebuffers {
    let size = texture_size_for(Size { w, h }, Some(transform), Transform::Normal);
    EffectsFramebuffers::init_for_output(
        Size { w, h },
        Some(transform),
        Transform::Normal,
        tex(1, size.w, size.h),
        tex(2, size.w, size.h),
        tex(3, size.w, size.h),
        now,
    )
}

fn rect(x: i32, y: i32, w: i32, h: i32) -> Rect {
    Rect { loc: Point { x, y }, size: Size { w, h } }
}

fn radius(v: f64) -> CornerRadius {
    CornerRadius { top_left: bits(v), top_right: bits(v), bottom_right: bits(v), bottom_left: bits(v) }
}

fn frect(x: f64, y: f64, w: f64, h: f64) -> FloatRect {
    FloatRect { x: bits(x), y: bits(y), w: bits(w), h: bits(h) }
}

fn fpoint(x: f64, y: f64) -> FloatPoint {
    FloatPoint { x: bits(x), y: bits(y) }
}

fn render(
    blur: &mut Blur,
    fx: &EffectsFramebuffers,
    area: Rect,
    true_blur: bool,
    now: u64,
    private: Option<TextureRef>,
) -> Option<niri_blur::element::BlurRenderElement> {
    blur.render(
        fx,
        area,
        radius(4.0),
        bits(1.0),
        frect(area.loc.x as f64, area.loc.y as f64, area.size.w as f64, area.size.h as f64),
        true_blur,
        fpoint(area.loc.x as f64, area.loc.y as f64),
        now,
        private,
    )
}

#[test]
fn current_buffer_swap_toggles() {
    let mut c = CurrentBuffer::Normal;
    c.swap();
    assert_eq!(c, CurrentBuffer::Swapped);
    c.swap();
    assert_eq!(c, CurrentBuffer::Normal);
}

#[test]
fn full_run_swaps_twice_per_pass_and_restores_roles() {
    for start in [CurrentBuffer::Normal, CurrentBuffer::Swapped] {
        for n in 1..6u32 {
            let mut c = start;
            let passes = plan_passes(&mut c, n, Size { w: 64, h: 32 }, 5);
            assert_eq!(passes.len(), 2 * n as usize);
            assert_eq!(c, start);
            for (i, p) in passes.iter().enumerate() {
                assert_ne!(p.sample, p.render);
                if i > 0 {
                    assert_eq!(p.sample, passes[i - 1].render);
                }
            }
        }
    }
}

#[test]
fn refresh_at_full_hd_runs_three_down_and_three_up_passes() {
    let mut fx = fx_at(1920, 1080, Transform::Normal, 0);
    assert_eq!(fx.optimized_blur_generation(), 0);
    let passes = fx.update_optimized_blur_buffer(150 * MS, None, &config(3, 5)).expect("refresh due");
    assert_eq!(passes.len(), 6);
    for p in &passes[..3] {
        assert_eq!(p.direction, PassDirection::Down);
        assert_eq!((p.half_pixel_den_w, p.half_pixel_den_h), (1920, 1080));
        assert!(p.draws);
    }
    for p in &passes[3..] {
        assert_eq!(p.direction, PassDirection::Up);
        assert_eq!((p.half_pixel_den_w, p.half_pixel_den_h), (7680, 4320));
    }
    assert_eq!(passes[0].sample, Slot::Effects);
    assert_eq!(passes[0].render, Slot::EffectsSwapped);
    assert_eq!(passes[5].render, Slot::Effects);
    assert_eq!(fx.buffers().0.id, 2);
    fx.complete_optimized_blur_update();
    assert_eq!(fx.optimized_blur_generation(), 1);
    assert_eq!(fx.rerender_at(), Some(300 * MS));
}

#[test]
fn refresh_before_the_first_deadline_does_nothing() {
    let mut fx = fx_at(800, 600, Transform::Normal, 0);
    assert!(fx.update_optimized_blur_buffer(100 * MS, None, &config(2, 5)).is_none());
    assert_eq!(fx.rerender_at(), Some(150 * MS));
}

#[test]
fn refresh_rate_throttles_calls_closer_than_one_interval() {
    let rate = Some(60_000);
    assert_eq!(rerender_interval(rate), 16_666_666);
    assert_eq!(rerender_interval(None), 150 * MS);
    assert_eq!(rerender_interval(Some(0)), 150 * MS);

    let mut fx = fx_at(800, 600, Transform::Normal, 0);
    let t1 = 200 * MS;
    assert!(fx.update_optimized_blur_buffer(t1, rate, &config(2, 5)).is_some());
    assert!(fx.update_optimized_blur_buffer(t1 + 10 * MS, rate, &config(2, 5)).is_none());

    let mut fx = fx_at(800, 600, Transform::Normal, 0);
    assert!(fx.update_optimized_blur_buffer(t1, rate, &config(2, 5)).is_some());
    assert!(fx.update_optimized_blur_buffer(t1 + 20 * MS, rate, &config(2, 5)).is_some());
}

#[test]
fn far_deadline_is_pulled_in_by_a_rate() {
    let mut fx = fx_at(800, 600, Transform::Normal, 0);
    // The default deadline lies 150 ms ahead, beyond one 60 Hz interval.
    assert!(fx.update_optimized_blur_buffer(MS, Some(60_000), &config(1, 5)).is_some());
    assert_eq!(fx.rerender_at(), Some(MS + 16_666_666));
}

#[test]
fn set_dirty_only_fills_a_missing_deadline() {
    let mut fx = fx_at(800, 600, Transform::Normal, 0);
    fx.set_dirty(5 * MS);
    assert_eq!(fx.rerender_at(), Some(150 * MS));
    assert_eq!(get_rerender_at(7, None), Some(7 + 150 * MS));
}

#[test]
fn quarter_turned_output_swaps_texture_size() {
    let fx = fx_at(1920, 1080, Transform::Rot90, 0);
    assert_eq!(fx.output_size(), Size { w: 1080, h: 1920 });
    assert_eq!(fx.transform(), Transform::Rot90);
    assert_eq!(Transform::Rot180.transform_size(Size { w: 3, h: 4 }), Size { w: 3, h: 4 });
    assert_eq!(Transform::Flipped270.transform_size(Size { w: 3, h: 4 }), Size { w: 4, h: 3 });
}

#[test]
fn failed_reallocation_keeps_the_buffers() {
    let mut fx = fx_at(800, 600, Transform::Normal, 0);
    fx.update_optimized_blur_buffer(150 * MS, None, &config(1, 5)).unwrap();
    fx.complete_optimized_blur_update();
    let r = fx.update_for_output(
        Size { w: 1024, h: 768 },
        None,
        Transform::Normal,
        Ok(tex(7, 1024, 768)),
        Err(FxError::Allocation),
        Ok(tex(9, 1024, 768)),
        MS,
    );
    assert_eq!(r, Err(FxError::Allocation));
    assert_eq!(fx.output_size(), Size { w: 800, h: 600 });
    assert_eq!(fx.optimized_blur_generation(), 1);

    let r = fx.update_for_output(
        Size { w: 1024, h: 768 },
        None,
        Transform::Normal,
        Ok(tex(7, 1024, 768)),
        Ok(tex(8, 1024, 768)),
        Ok(tex(9, 1024, 768)),
        MS,
    );
    assert_eq!(r, Ok(()));
    assert_eq!(fx.output_size(), Size { w: 1024, h: 768 });
    assert_eq!(fx.optimized_blur_generation(), 0);
    assert_eq!(fx.optimized_blur().id, 7);
}

#[test]
fn no_element_without_passes_or_radius() {
    let fx = fx_at(800, 600, Transform::Normal, 0);
    let mut b = Blur::new(config(0, 5), 1);
    assert!(render(&mut b, &fx, rect(0, 0, 10, 10), false, 0, None).is_none());
    let mut b = Blur::new(config(3, 0), 1);
    assert!(render(&mut b, &fx, rect(0, 0, 10, 10), false, 0, None).is_none());
    let mut off = config(3, 5);
    off.on = false;
    let mut b = Blur::new(off, 1);
    assert!(render(&mut b, &fx, rect(0, 0, 10, 10), false, 0, None).is_none());
}

#[test]
fn repeated_render_keeps_the_commit() {
    let fx = fx_at(800, 600, Transform::Normal, 0);
    let mut b = Blur::new(config(2, 5), 1);
    let e1 = render(&mut b, &fx, rect(10, 20, 100, 50), false, 0, None).unwrap();
    let e2 = render(&mut b, &fx, rect(10, 20, 100, 50), false, 5 * MS, None).unwrap();
    assert_eq!(e1.current_commit(), 0);
    assert_eq!(e2.current_commit(), 0);
    assert_eq!(e1.id(), e2.id());
    let e3 = render(&mut b, &fx, rect(11, 20, 100, 50), false, 5 * MS, None).unwrap();
    assert_eq!(e3.current_commit(), 1);
}

#[test]
fn true_blur_is_damaged_only_when_its_deadline_passes() {
    let fx = fx_at(800, 600, Transform::Normal, 0);
    let mut b = Blur::new(config(2, 5), 1);
    let private = Some(tex(40, 800, 600));
    let e1 = render(&mut b, &fx, rect(10, 20, 100, 50), true, 0, private).unwrap();
    assert!(e1.variant.is_true());
    assert_eq!(e1.current_commit(), 0);
    // Never blurred yet: due at once.
    let e2 = render(&mut b, &fx, rect(10, 20, 100, 50), true, MS, private).unwrap();
    assert_eq!(e2.current_commit(), 1);
    assert!(b.take_true_blur_refresh(MS));
    assert!(!b.take_true_blur_refresh(2 * MS));
    let e3 = render(&mut b, &fx, rect(10, 20, 100, 50), true, 100 * MS, private).unwrap();
    assert_eq!(e3.current_commit(), 1);
    let e4 = render(&mut b, &fx, rect(10, 20, 100, 50), true, 200 * MS, private).unwrap();
    assert_eq!(e4.current_commit(), 2);
}

#[test]
fn true_blur_without_texture_draws_nothing() {
    let fx = fx_at(800, 600, Transform::Normal, 0);
    let mut b = Blur::new(config(2, 5), 1);
    assert!(render(&mut b, &fx, rect(0, 0, 10, 10), true, 0, None).is_none());
    assert!(b.cached().is_none());
}

#[test]
fn switching_variant_always_damages() {
    let fx = fx_at(800, 600, Transform::Normal, 0);
    let mut b = Blur::new(config(2, 5), 1);
    let private = Some(tex(40, 800, 600));
    let e1 = render(&mut b, &fx, rect(10, 20, 100, 50), false, 0, private).unwrap();
    let e2 = render(&mut b, &fx, rect(10, 20, 100, 50), true, 0, private).unwrap();
    assert!(e2.variant.is_true());
    assert_ne!(e2.current_commit(), e1.current_commit());
    let e3 = render(&mut b, &fx, rect(10, 20, 100, 50), false, 0, private).unwrap();
    assert!(!e3.variant.is_true());
    assert_ne!(e3.current_commit(), e2.current_commit());
}

#[test]
fn true_blur_damage_spreads_by_eighty_pixels() {
    let fx = fx_at(1920, 1080, Transform::Normal, 0);
    let mut b = Blur::new(config(2, 10), 1);
    let e = b
        .render(
            &fx,
            rect(300, 200, 200, 100),
            radius(0.0),
            bits(2.0),
            frect(300.0, 200.0, 200.0, 100.0),
            true,
            fpoint(300.0, 200.0),
            0,
            Some(tex(40, 1920, 1080)),
        )
        .unwrap();
    assert_eq!(blur_spread(2, 10), 80);
    let d = e.damage();
    assert_eq!(d.size, Size { w: 360, h: 260 });
    assert_eq!(d.loc, Point { x: 220, y: 120 });
}

#[test]
fn optimized_damage_is_the_sample_area() {
    let fx = fx_at(1920, 1080, Transform::Normal, 0);
    let mut b = Blur::new(config(2, 10), 1);
    let e = render(&mut b, &fx, rect(5, 6, 70, 80), false, 0, None).unwrap();
    assert_eq!(e.damage(), rect(5, 6, 70, 80));
}

#[test]
fn quarter_turned_output_falls_back_to_optimized() {
    let fx = fx_at(1920, 1080, Transform::Rot90, 0);
    let mut b = Blur::new(config(2, 10), 1);
    let e = render(&mut b, &fx, rect(0, 0, 50, 50), true, 0, Some(tex(40, 1080, 1920))).unwrap();
    assert!(!e.variant.is_true());
    assert_eq!(e.variant, BlurVariant::Optimized { texture: fx.optimized_blur() });
    assert!(!Transform::Flipped90.allows_true_blur());
    assert!(Transform::Rot180.allows_true_blur());
}

#[test]
fn opaque_region_insets_by_largest_radius() {
    let fx = fx_at(800, 600, Transform::Normal, 0);
    let mut b = Blur::new(config(2, 10), 1);
    let e = render(&mut b, &fx, rect(0, 0, 100, 80), false, 0, None).unwrap();
    assert_eq!(e.opaque_region(Size { w: 100, h: 80 }, 2, 9, 4, 0), Some(rect(9, 9, 82, 62)));
    assert_eq!(e.opaque_region(Size { w: 100, h: 80 }, 40, 0, 0, 0), None);
    let t = render(&mut b, &fx, rect(0, 0, 100, 80), true, 0, Some(tex(40, 800, 600))).unwrap();
    assert_eq!(t.opaque_region(Size { w: 100, h: 80 }, 2, 2, 2, 2), None);
}

#[test]
fn alpha_texture_sets_ignore_alpha_uniforms() {
    let fx = fx_at(800, 600, Transform::Normal, 0);
    let mut b = Blur::new(config(2, 10), 1);
    let e = render(&mut b, &fx, rect(0, 0, 100, 80), false, 0, None).unwrap();
    assert_eq!(e.uniforms.alpha_tex, 0);
    assert_eq!(e.uniforms.ignore_alpha, bits(0.0));
    b.set_alpha_tex(tex(50, 100, 80));
    assert!(b.cached().is_none());
    let e2 = render(&mut b, &fx, rect(0, 0, 100, 80), false, 0, None).unwrap();
    assert_ne!(e2.id(), e.id());
    assert_eq!(e2.uniforms.alpha_tex, 1);
    assert_eq!(e2.uniforms.ignore_alpha, bits(0.5));
    assert_eq!(e2.uniforms.buffer_size, Size { w: 800, h: 600 });
    b.clear_alpha_tex();
    assert_eq!(b.cached().unwrap().current_commit(), e2.current_commit() + 1);
}

#[test]
fn config_change_drops_the_cached_element() {
    let fx = fx_at(800, 600, Transform::Normal, 0);
    let mut b = Blur::new(config(2, 10), 1);
    render(&mut b, &fx, rect(0, 0, 100, 80), false, 0, None).unwrap();
    b.update_config(config(2, 10));
    assert!(b.cached().is_some());
    b.update_config(config(3, 10));
    assert!(b.cached().is_none());
    b.update_render_elements(false);
    assert!(!b.config().on);
    assert!(render(&mut b, &fx, rect(0, 0, 100, 80), false, 0, None).is_none());
}

#[test]
fn reallocated_optimized_texture_rebuilds_the_element() {
    let mut fx = fx_at(800, 600, Transform::Normal, 0);
    let mut b = Blur::new(config(2, 10), 1);
    let e1 = render(&mut b, &fx, rect(0, 0, 100, 80), false, 0, None).unwrap();
    fx.update_for_output(
        Size { w: 800, h: 600 },
        None,
        Transform::Normal,
        Ok(tex(11, 800, 600)),
        Ok(tex(12, 800, 600)),
        Ok(tex(13, 800, 600)),
        0,
    )
    .unwrap();
    let e2 = render(&mut b, &fx, rect(0, 0, 100, 80), false, 0, None).unwrap();
    assert_eq!(e2.current_commit(), e1.current_commit() + 1);
    assert_eq!(e2.variant, BlurVariant::Optimized { texture: tex(11, 800, 600) });
}

#[test]
fn commit_tracker_reports_changes_only() {
    let mut b = Blur::new(config(2, 10), 1);
    let t = CommitTracker::from_elements(&vec![(3, 1), (1, 4), (3, 2)]);
    assert!(b.maybe_update_commit_tracker(t));
    let same = CommitTracker::from_elements(&vec![(1, 4), (3, 2)]);
    assert!(!b.maybe_update_commit_tracker(same));
    let changed = CommitTracker::from_elements(&vec![(1, 4), (3, 5)]);
    assert!(b.maybe_update_commit_tracker(changed));
    let mut empty = CommitTracker::new();
    assert!(!empty.same_as(&CommitTracker::from_elements(&vec![(1, 1)])));
    empty.update(&vec![(1, 1)]);
    assert!(empty.same_as(&CommitTracker::from_elements(&vec![(1, 1)])));
}

#[test]
fn true_blur_plan_expands_region_and_scales_texture() {
    let mut fx = fx_at(800, 600, Transform::Normal, 0);
    let plan = fx.plan_true_blur(&config(1, 3), 2, rect(100, 100, 50, 40));
    // spread 2^2 * 3 = 12, eight times over on every side
    assert_eq!(plan.region, rect(4, 4, 242, 232));
    assert_eq!(plan.passes.len(), 2);
    assert_eq!((plan.passes[0].half_pixel_den_w, plan.passes[0].half_pixel_den_h), (1600, 1200));
    assert_eq!((plan.passes[1].half_pixel_den_w, plan.passes[1].half_pixel_den_h), (6400, 4800));
}

#[test]
fn empty_texture_passes_draw_nothing() {
    let mut c = CurrentBuffer::Normal;
    let passes = plan_passes(&mut c, 2, Size { w: 0, h: 10 }, 5);
    assert_eq!(passes.len(), 4);
    assert!(passes.iter().all(|p| !p.draws && p.half_pixel_den_w == 0));
}

#[test]
fn blur_protocol_actions() {
    let _state = OrgKdeKwinBlurManagerState::new();
    assert_eq!(OrgKdeKwinBlurManagerState::manager_action(ManagerRequest::Create), BlurAction::InitBlurObject);
    assert_eq!(OrgKdeKwinBlurManagerState::manager_action(ManagerRequest::Unset), BlurAction::DisableBlur);
    assert_eq!(OrgKdeKwinBlurManagerState::blur_action(BlurRequest::Commit), BlurAction::EnableBlur);
    assert_eq!(OrgKdeKwinBlurManagerState::blur_action(BlurRequest::SetRegion), BlurAction::Nothing);
    assert_eq!(OrgKdeKwinBlurManagerState::blur_action(BlurRequest::Unknown), BlurAction::Unsupported);
}

#[test]
fn counters_wrap_instead_of_overflowing() {
    assert_eq!(niri_blur::counter::increment(u64::MAX), 0);
    assert_eq!(niri_blur::counter::increment(41), 42);
}

#[test]
fn spread_doubles_with_each_pass() {
    assert_eq!(blur_spread(1, 5), 20);
    assert_eq!(blur_spread(3, 5), 80);
    assert_eq!(blur_spread(7, 0), 0);
}
