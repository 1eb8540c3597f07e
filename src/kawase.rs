//! The dual-pass Kawase blur as a schedule of passes over two ping-pong
//! textures: first as many downscale passes as asked for, then as many upscale
//! passes, with the textures trading roles after every pass.
use vstd::prelude::*;

use crate::geometry::Size;

verus! {

/// Which of the two working textures is sampled; the other is rendered into.
#[derive(Clone, Copy, Debug, PartialEq, Eq, Structural)]
pub enum CurrentBuffer {
    /// Sample the normal texture, render into the swapped one.
    Normal,
    /// Sample the swapped texture, render into the normal one.
    Swapped,
}

/// One of the two working textures of an output.
#[derive(Clone, Copy, Debug, PartialEq, Eq, Structural)]
pub enum Slot {
    Effects,
    EffectsSwapped,
}

/// Whether a pass halves or doubles the picture.
#[derive(Clone, Copy, Debug, PartialEq, Eq, Structural)]
pub enum PassDirection {
    Down,
    Up,
}

impl CurrentBuffer {
    pub open spec fn swapped(self) -> CurrentBuffer {
        match self {
            CurrentBuffer::Normal => CurrentBuffer::Swapped,
            CurrentBuffer::Swapped => CurrentBuffer::Normal,
        }
    }

    pub open spec fn sample_slot(self) -> Slot {
        match self {
            CurrentBuffer::Normal => Slot::Effects,
            CurrentBuffer::Swapped => Slot::EffectsSwapped,
        }
    }

    pub open spec fn render_slot(self) -> Slot {
        match self {
            CurrentBuffer::Normal => Slot::EffectsSwapped,
            CurrentBuffer::Swapped => Slot::Effects,
        }
    }

    /// Trade the roles of the two working textures.
    pub fn swap(&mut self)
        ensures
            *final(self) == old(self).swapped(),
    {
        *self = match self {
            CurrentBuffer::Normal => CurrentBuffer::Swapped,
            CurrentBuffer::Swapped => CurrentBuffer::Normal,
        };
    }

    /// The texture that is sampled.
    pub fn sample_slot_exec(&self) -> (r: Slot)
        ensures
            r == self.sample_slot(),
    {
        match self {
            CurrentBuffer::Normal => Slot::Effects,
            CurrentBuffer::Swapped => Slot::EffectsSwapped,
        }
    }

    /// The texture that is rendered into.
    pub fn render_slot_exec(&self) -> (r: Slot)
        ensures
            r == self.render_slot(),
    {
        match self {
            CurrentBuffer::Normal => Slot::EffectsSwapped,
            CurrentBuffer::Swapped => Slot::Effects,
        }
    }
}

/// The roles after `n` swaps starting from `c`.
pub open spec fn swapped_n(c: CurrentBuffer, n: nat) -> CurrentBuffer
    decreases n,
{
    if n == 0 {
        c
    } else {
        swapped_n(c, (n - 1) as nat).swapped()
    }
}

/// Swapping twice restores the roles.
pub proof fn lemma_swapped_n_parity(c: CurrentBuffer, n: nat)
    ensures
        swapped_n(c, n) == (if n % 2 == 0 { c } else { c.swapped() }),
    decreases n,
{
    if n > 0 {
        lemma_swapped_n_parity(c, (n - 1) as nat);
    }
}

/// One blur pass: read `sample`, write `render`. The half-pixel offset of the
/// pass is `1 / half_pixel_den_w` across and `1 / half_pixel_den_h` down; a
/// pass on an empty texture draws nothing.
#[derive(Clone, Copy, Debug, PartialEq, Eq, Structural)]
pub struct BlurPass {
    pub direction: PassDirection,
    pub sample: Slot,
    pub render: Slot,
    pub half_pixel_den_w: u64,
    pub half_pixel_den_h: u64,
    pub radius: u32,
    pub draws: bool,
}

/// The denominator of a half-pixel offset along an axis of `len` pixels:
/// `0.5 / (len / 2)` downwards and `0.5 / (len * 2)` upwards.
pub open spec fn half_pixel_den(len: i32, down: bool) -> u64 {
    if down {
        len as u64
    } else {
        (4 * len) as u64
    }
}

/// Pass `i` of a run of `passes` down and `passes` up passes over textures of
/// size `tex`, the roles starting at `start`.
pub open spec fn pass_at(start: CurrentBuffer, passes: u32, tex: Size, radius: u32, i: int) -> BlurPass {
    let cur = swapped_n(start, i as nat);
    let down = i < passes;
    let draws = !tex.is_empty_spec();
    BlurPass {
        direction: if down { PassDirection::Down } else { PassDirection::Up },
        sample: cur.sample_slot(),
        render: cur.render_slot(),
        half_pixel_den_w: if draws { half_pixel_den(tex.w, down) } else { 0 },
        half_pixel_den_h: if draws { half_pixel_den(tex.h, down) } else { 0 },
        radius,
        draws,
    }
}

fn make_pass(cur: CurrentBuffer, down: bool, tex: Size, radius: u32) -> (r: BlurPass)
    ensures
        r.direction == (if down { PassDirection::Down } else { PassDirection::Up }),
        r.sample == cur.sample_slot(),
        r.render == cur.render_slot(),
        r.draws == !tex.is_empty_spec(),
        r.half_pixel_den_w == (if r.draws { half_pixel_den(tex.w, down) } else { 0 }),
        r.half_pixel_den_h == (if r.draws { half_pixel_den(tex.h, down) } else { 0 }),
        r.radius == radius,
{
    let draws = !tex.is_empty();
    let (dw, dh): (u64, u64) = if !draws {
        (0, 0)
    } else if down {
        (tex.w as u64, tex.h as u64)
    } else {
        (4 * (tex.w as u64), 4 * (tex.h as u64))
    };
    BlurPass {
        direction: if down { PassDirection::Down } else { PassDirection::Up },
        sample: cur.sample_slot_exec(),
        render: cur.render_slot_exec(),
        half_pixel_den_w: dw,
        half_pixel_den_h: dh,
        radius,
        draws,
    }
}

/// Plan a full blur run: `passes` downscale passes, then `passes` upscale
/// passes, swapping the roles in `current` after each one. The run makes
/// `2 * passes` swaps, so `current` ends as it started.
pub fn plan_passes(current: &mut CurrentBuffer, passes: u32, tex: Size, radius: u32) -> (r: Vec<BlurPass>)
    ensures
        r@.len() == 2 * passes,
        forall|i: int| 0 <= i < r@.len() ==> r@[i] == pass_at(*old(current), passes, tex, radius, i),
        *final(current) == swapped_n(*old(current), (2 * passes) as nat),
        *final(current) == *old(current),
{
    let ghost start = *current;
    let mut out: Vec<BlurPass> = Vec::new();
    let mut i: u32 = 0;
    while i < passes
        invariant
            i <= passes,
            out@.len() == i,
            *current == swapped_n(start, i as nat),
            forall|j: int| 0 <= j < out@.len() ==> out@[j] == pass_at(start, passes, tex, radius, j),
        decreases passes - i,
    {
        out.push(make_pass(*current, true, tex, radius));
        current.swap();
        i = i + 1;
    }
    let mut k: u32 = 0;
    while k < passes
        invariant
            k <= passes,
            out@.len() == passes + k,
            *current == swapped_n(start, (passes + k) as nat),
            forall|j: int| 0 <= j < out@.len() ==> out@[j] == pass_at(start, passes, tex, radius, j),
        decreases passes - k,
    {
        out.push(make_pass(*current, false, tex, radius));
        current.swap();
        k = k + 1;
    }
    proof {
        lemma_swapped_n_parity(start, (2 * passes) as nat);
    }
    out
}

/// `2^n`.
pub open spec fn two_pow(n: nat) -> nat
    decreases n,
{
    if n == 0 {
        1
    } else {
        2 * two_pow((n - 1) as nat)
    }
}

pub proof fn lemma_two_pow_monotone(a: nat, b: nat)
    requires
        a <= b,
    ensures
        1 <= two_pow(a) <= two_pow(b),
    decreases b,
{
    if b > 0 {
        if a < b {
            lemma_two_pow_monotone(a, (b - 1) as nat);
        } else {
            lemma_two_pow_monotone((a - 1) as nat, (b - 1) as nat);
        }
    }
}

/// How far blur spreads beyond the blurred area: `2^(passes + 1) * radius`
/// pixels, the offset reached by the last of the successively wider passes.
pub open spec fn spread_spec(passes: u32, radius: u32) -> int {
    (two_pow((passes + 1) as nat) * (radius as nat)) as int
}

/// Compute `spread_spec(passes, radius)`.
pub fn blur_spread(passes: u32, radius: u32) -> (r: u64)
    requires
        spread_spec(passes, radius) <= u64::MAX,
    ensures
        r == spread_spec(passes, radius),
{
    if radius == 0 {
        assert(spread_spec(passes, radius) == 0) by (nonlinear_arith)
            requires spread_spec(passes, radius) == two_pow((passes + 1) as nat) * (radius as nat), radius == 0;
        return 0;
    }
    assert(two_pow(0) == 1);
    let mut v: u64 = radius as u64;
    let mut i: u64 = 0;
    let n: u64 = passes as u64 + 1;
    while i < n
        invariant
            n == passes + 1,
            i <= n,
            v == two_pow(i as nat) * (radius as nat),
            radius >= 1,
            spread_spec(passes, radius) <= u64::MAX,
        decreases n - i,
    {
        proof {
            lemma_two_pow_monotone((i + 1) as nat, n as nat);
            assert(two_pow((i + 1) as nat) == 2 * two_pow(i as nat));
            assert(two_pow((i + 1) as nat) * (radius as nat) <= two_pow(n as nat) * (radius as nat))
                by (nonlinear_arith)
                requires two_pow((i + 1) as nat) <= two_pow(n as nat), radius >= 1;
            assert(2 * (two_pow(i as nat) * (radius as nat)) == (2 * two_pow(i as nat)) * (radius as nat))
                by (nonlinear_arith);
        }
        v = v * 2;
        i = i + 1;
    }
    v
}

} // verus!
