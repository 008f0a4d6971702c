//! Concrete animation strategies: a hypotrochoid motion path for rectangles
//! and a hue-cycling tint for images.
//!
//! All angle arithmetic is exact and integral. Angles are measured in
//! thousandths of a degree, and the sine of an angle is represented as an
//! integer scaled by one million, computed with Bhaskara's rational
//! approximation — exact at every multiple of 90 degrees and within about
//! 0.2 percent everywhere else.

use vstd::prelude::*;
use crate::color::{channel_of, clamp_int, hue_nums, round_half_away, ColorRGBA, ColorU8};
use crate::error::GameError;
use crate::rect::{half, Rect};
use crate::sprite::{ImageAnimation, RectAnimation};
use crate::surface::Surface;

verus! {

/// Truncating division, matching what `/` computes on machine integers.
pub open spec fn tdiv(p: int, q: int) -> int
    recommends
        q > 0,
{
    if p >= 0 {
        p / q
    } else {
        -((-p) / q)
    }
}

/// Bhaskara's rational sine approximation for an angle `x` in thousandths of
/// a degree within the first half turn, scaled by one million: zero at 0
/// and 180 degrees, exactly one million at 90 degrees.
pub open spec fn sine_half_turn(x: int) -> int
    recommends
        0 <= x <= 180000,
{
    (x * (180000 - x) * 4000000) / (40500000000 - x * (180000 - x))
}

/// The sine of an angle in thousandths of a degree, scaled by one million:
/// the angle is reduced to one turn, and the second half turn mirrors the
/// first below zero.
pub open spec fn sine_scaled(x: int) -> int {
    let m = x % 360000;
    if m < 180000 {
        sine_half_turn(m)
    } else {
        -sine_half_turn(m - 180000)
    }
}

/// The cosine of an angle in thousandths of a degree, scaled by one
/// million: the sine a quarter turn ahead.
pub open spec fn cosine_scaled(x: int) -> int {
    sine_scaled(x % 360000 + 90000)
}

/// The sine and cosine approximations are exact at every quarter turn.
pub proof fn lemma_trig_exact_at_quadrants()
    ensures
        sine_scaled(0) == 0,
        sine_scaled(90000) == 1000000,
        sine_scaled(180000) == 0,
        sine_scaled(270000) == -1000000,
        cosine_scaled(0) == 1000000,
        cosine_scaled(90000) == 0,
        cosine_scaled(180000) == -1000000,
        cosine_scaled(270000) == 0,
{
    assert(sine_half_turn(0) == 0) by (nonlinear_arith);
    assert(sine_half_turn(90000) == 1000000) by (nonlinear_arith);
    assert(sine_half_turn(180000) == 0) by (nonlinear_arith);
}

/// The angle reduced to `0..360000` thousandths of a degree.
fn euclid_mod_turn(x: i64) -> (r: i64)
    ensures
        r == (x as int) % 360000,
        0 <= r < 360000,
{
    let m = x % 360000;
    if m < 0 {
        m + 360000
    } else {
        m
    }
}

/// Executable Bhaskara sine for the first half turn.
fn sine_half_turn_exec(x: i64) -> (r: i64)
    requires
        0 <= x <= 180000,
    ensures
        r == sine_half_turn(x as int),
        0 <= r <= 1000000,
{
    proof {
        assert(0 <= x * (180000 - x) <= 8100000000) by (nonlinear_arith)
            requires
                0 <= x <= 180000,
        ;
    }
    let p = x * (180000 - x);
    let num = p * 4000000;
    let denom = 40500000000 - p;
    proof {
        assert(num <= denom * 1000000) by (nonlinear_arith)
            requires
                0 <= p <= 8100000000 && num == p * 4000000 && denom == 40500000000 - p,
        ;
        assert(num / denom <= 1000000) by (nonlinear_arith)
            requires
                num <= denom * 1000000 && denom > 0 && num >= 0,
        ;
        assert(num / denom >= 0) by (nonlinear_arith)
            requires
                num >= 0 && denom > 0,
        ;
    }
    num / denom
}

/// Executable sine for any angle in thousandths of a degree.
fn sine_mdeg(x: i64) -> (r: i64)
    ensures
        r == sine_scaled(x as int),
        -1000000 <= r <= 1000000,
{
    let m = euclid_mod_turn(x);
    if m < 180000 {
        sine_half_turn_exec(m)
    } else {
        -sine_half_turn_exec(m - 180000)
    }
}

/// Executable cosine for any angle in thousandths of a degree.
fn cosine_mdeg(x: i64) -> (r: i64)
    ensures
        r == cosine_scaled(x as int),
        -1000000 <= r <= 1000000,
{
    let m = euclid_mod_turn(x);
    let r = sine_mdeg(m + 90000);
    proof {
        assert((m + 90000) as int % 360000 == ((x as int) % 360000 + 90000) % 360000);
    }
    r
}

/// A scaled value rounded to the nearest integer, halves away from zero.
fn round_scaled(v: i64) -> (r: i64)
    requires
        -4000000000000 <= v <= 4000000000000,
    ensures
        r == round_half_away(v as int, 1000000),
        -4000001 <= r <= 4000001,
{
    if v >= 0 {
        (2 * v + 1000000) / 2000000
    } else {
        let n = -v;
        -((2 * n + 1000000) / 2000000)
    }
}

/// The center of a hypotrochoid-placed rectangle: the curve's fixed center
/// plus the curve point for the angular cursor `t` (thousandths of a
/// degree), rounded to the nearest pixel and kept within a gigapixel range.
/// The parameters (`a`, `b`, `h`) are the outer radius, the rolling radius
/// and the pen offset, in pixels.
pub open spec fn hypotrochoid_center(center: (i32, i32), parameter: (i64, i64, i64), t: int) -> (
    int,
    int,
) {
    let a = parameter.0 as int;
    let b = parameter.1 as int;
    let h = parameter.2 as int;
    let t2 = tdiv(t * (a - b), b);
    let vx = (a - b) * cosine_scaled(t) + h * cosine_scaled(t2);
    let vy = (a - b) * sine_scaled(t) - h * sine_scaled(t2);
    (
        clamp_int(center.0 + round_half_away(vx, 1000000), -1073741823, 1073741823),
        clamp_int(center.1 + round_half_away(vy, 1000000), -1073741823, 1073741823),
    )
}

/// `v` clamped into `lo..=hi` on `i64`.
fn clamp_i64_exec(v: i64, lo: i64, hi: i64) -> (r: i64)
    requires
        lo <= hi,
    ensures
        r == clamp_int(v as int, lo as int, hi as int),
{
    if v < lo {
        lo
    } else if v > hi {
        hi
    } else {
        v
    }
}

/// The executable hypotrochoid curve point.
fn hypotrochoid_point(center: (i32, i32), parameter: (i64, i64, i64), t: i64) -> (r: (i32, i32))
    requires
        0 <= parameter.0 <= 1000000,
        1 <= parameter.1 <= 1000000,
        0 <= parameter.2 <= 1000000,
    ensures
        (r.0 as int, r.1 as int) == hypotrochoid_center(center, parameter, t as int),
        -1073741823 <= r.0 <= 1073741823,
        -1073741823 <= r.1 <= 1073741823,
{
    let a = parameter.0;
    let b = parameter.1;
    let h = parameter.2;
    let diff = a - b;
    proof {
        assert((t as int) * (diff as int) <= 0x8000_0000_0000_0000 * 1000000 && (t as int) * (
        diff as int) >= -0x8000_0000_0000_0000 * 1000000) by (nonlinear_arith)
            requires
                i64::MIN <= t <= i64::MAX && -1000000 <= diff <= 1000000,
        ;
    }
    let prod: i128 = (t as i128) * (diff as i128);
    let t2_full: i128 = prod / (b as i128);
    let ghost t2_spec: int = tdiv(t as int * (diff as int), b as int);
    proof {
        assert(t2_full == t2_spec);
    }
    let t2_rem: i128 = t2_full % 360000;
    let t2m: i64 = if t2_rem < 0 {
        (t2_rem + 360000) as i64
    } else {
        t2_rem as i64
    };
    proof {
        assert(t2m == t2_spec % 360000);
    }
    let c1 = cosine_mdeg(t);
    let s1 = sine_mdeg(t);
    let c2 = cosine_mdeg(t2m);
    let s2 = sine_mdeg(t2m);
    proof {
        assert(cosine_scaled(t2m as int) == cosine_scaled(t2_spec));
        assert(sine_scaled(t2m as int) == sine_scaled(t2_spec));
        assert(-1000000000000 <= diff * c1 <= 1000000000000) by (nonlinear_arith)
            requires
                -1000000 <= diff <= 1000000 && -1000000 <= c1 <= 1000000,
        ;
        assert(-1000000000000 <= h * c2 <= 1000000000000) by (nonlinear_arith)
            requires
                0 <= h <= 1000000 && -1000000 <= c2 <= 1000000,
        ;
        assert(-1000000000000 <= diff * s1 <= 1000000000000) by (nonlinear_arith)
            requires
                -1000000 <= diff <= 1000000 && -1000000 <= s1 <= 1000000,
        ;
        assert(-1000000000000 <= h * s2 <= 1000000000000) by (nonlinear_arith)
            requires
                0 <= h <= 1000000 && -1000000 <= s2 <= 1000000,
        ;
    }
    let vx = diff * c1 + h * c2;
    let vy = diff * s1 - h * s2;
    let x = clamp_i64_exec(center.0 as i64 + round_scaled(vx), -1073741823, 1073741823);
    let y = clamp_i64_exec(center.1 as i64 + round_scaled(vy), -1073741823, 1073741823);
    (x as i32, y as i32)
}

/// A rectangle animation that moves a rectangle's center along a
/// hypotrochoid: the curve a pen draws when fixed at distance `h` from the
/// center of a circle of radius `b` rolling inside a circle of radius `a`.
/// The angular cursor starts at `start` and grows by `step` after every
/// frame, both in thousandths of a degree; radii are in pixels.
pub struct HypotrochoidAnimation {
    pos: i64,
    step: i64,
    center: (i32, i32),
    parameter: (i64, i64, i64),
}

impl HypotrochoidAnimation {
    /// The radii stay small enough that every intermediate of the curve
    /// evaluation fits in machine integers.
    #[verifier::type_invariant]
    pub closed spec fn wf(&self) -> bool {
        &&& 0 <= self.parameter.0 <= 1000000
        &&& 1 <= self.parameter.1 <= 1000000
        &&& 0 <= self.parameter.2 <= 1000000
    }

    /// The angular cursor, in thousandths of a degree.
    pub closed spec fn pos_spec(&self) -> i64 {
        self.pos
    }

    /// The per-frame cursor advance, in thousandths of a degree.
    pub closed spec fn step_spec(&self) -> i64 {
        self.step
    }

    /// The fixed center of the curve.
    pub closed spec fn center_spec(&self) -> (i32, i32) {
        self.center
    }

    /// The curve radii (`a`, `b`, `h`), in pixels.
    pub closed spec fn parameter_spec(&self) -> (i64, i64, i64) {
        self.parameter
    }

    pub fn new(start: i64, step: i64, center: (i32, i32), parameter: (i64, i64, i64)) -> (s:
        HypotrochoidAnimation)
        requires
            0 <= parameter.0 <= 1000000,
            1 <= parameter.1 <= 1000000,
            0 <= parameter.2 <= 1000000,
        ensures
            s.pos_spec() == start,
            s.step_spec() == step,
            s.center_spec() == center,
            s.parameter_spec() == parameter,
    {
        HypotrochoidAnimation { pos: start, step, center, parameter }
    }
}

impl RectAnimation for HypotrochoidAnimation {
    /// The cursor advances by `step`, wrapping on overflow.
    closed spec fn stepped(&self) -> Self {
        HypotrochoidAnimation { pos: self.pos.wrapping_add(self.step), ..*self }
    }

    /// A rectangle of the input's size centered on the curve point for the
    /// current cursor.
    closed spec fn rect_for(&self, rect: Rect) -> Rect {
        let c = hypotrochoid_center(self.center, self.parameter, self.pos as int);
        Rect {
            x: (c.0 - half(rect.w as int)) as i32,
            y: (c.1 - half(rect.h as int)) as i32,
            w: rect.w,
            h: rect.h,
        }
    }

    fn update_rectangle(&mut self, rect: &Rect) -> (r: Rect) {
        proof {
            use_type_invariant(&*self);
        }
        let point = hypotrochoid_point(self.center, self.parameter, self.pos);
        self.pos = self.pos.wrapping_add(self.step);
        Rect::new_center((point.0, point.1), rect.get_size())
    }
}

/// The cursor of `anim` advanced `n` times.
pub open spec fn hypotrochoid_stepped_n(anim: HypotrochoidAnimation, n: nat) -> HypotrochoidAnimation
    decreases n,
{
    if n == 0 {
        anim
    } else {
        hypotrochoid_stepped_n(anim, (n - 1) as nat).stepped()
    }
}

/// Cursor-advance determinism: as long as the cursor arithmetic stays in
/// range, `n` steps from `start` land the cursor exactly at
/// `start + n * step`, and leave the center and radii untouched — so the
/// rectangle produced by the `n`-th call is a pure function of
/// `start + n * step`.
pub proof fn lemma_hypotrochoid_cursor(anim: HypotrochoidAnimation, n: nat)
    requires
        forall|i: nat|
            i <= n ==> i64::MIN <= anim.pos_spec() + #[trigger] (i * anim.step_spec())
                <= i64::MAX,
    ensures
        hypotrochoid_stepped_n(anim, n).pos_spec() == anim.pos_spec() + n * anim.step_spec(),
        hypotrochoid_stepped_n(anim, n).step_spec() == anim.step_spec(),
        hypotrochoid_stepped_n(anim, n).center_spec() == anim.center_spec(),
        hypotrochoid_stepped_n(anim, n).parameter_spec() == anim.parameter_spec(),
    decreases n,
{
    if n > 0 {
        assert(forall|i: nat|
            i <= (n - 1) as nat ==> i64::MIN <= anim.pos_spec() + #[trigger] (i
                * anim.step_spec()) <= i64::MAX);
        lemma_hypotrochoid_cursor(anim, (n - 1) as nat);
        assert((n - 1) as nat * anim.step_spec() + anim.step_spec() == n * anim.step_spec())
            by (nonlinear_arith)
            requires
                n >= 1,
        ;
        assert(i64::MIN <= anim.pos_spec() + n * anim.step_spec() <= i64::MAX);
        let prev = hypotrochoid_stepped_n(anim, (n - 1) as nat);
        assert(hypotrochoid_stepped_n(anim, n) == prev.stepped());
        assert(prev.stepped().pos_spec() == prev.pos_spec().wrapping_add(prev.step_spec()));
        assert(prev.pos_spec() + prev.step_spec() == anim.pos_spec() + n * anim.step_spec());
        assert(prev.stepped().pos_spec() == anim.pos_spec() + n * anim.step_spec());
    } else {
        assert(n * anim.step_spec() == 0) by (nonlinear_arith)
            requires
                n == 0,
        ;
    }
}

/// The rectangle a `HypotrochoidAnimation` produces, in full: the input's
/// size, centered on `hypotrochoid_center` for the current cursor; and one
/// cursor step adds `step` (wrapping on overflow) while center and radii
/// stay fixed.
pub proof fn lemma_hypotrochoid_rect_for(anim: HypotrochoidAnimation, rect: Rect)
    ensures
        anim.rect_for(rect) == (Rect {
            x: (hypotrochoid_center(
                anim.center_spec(),
                anim.parameter_spec(),
                anim.pos_spec() as int,
            ).0 - half(rect.w as int)) as i32,
            y: (hypotrochoid_center(
                anim.center_spec(),
                anim.parameter_spec(),
                anim.pos_spec() as int,
            ).1 - half(rect.h as int)) as i32,
            w: rect.w,
            h: rect.h,
        }),
        anim.stepped().pos_spec() == anim.pos_spec().wrapping_add(anim.step_spec()),
        anim.stepped().step_spec() == anim.step_spec(),
        anim.stepped().center_spec() == anim.center_spec(),
        anim.stepped().parameter_spec() == anim.parameter_spec(),
{
}

/// The rectangle an animation produces depends only on its cursor, center
/// and radii, and always keeps the input rectangle's size.
pub proof fn lemma_hypotrochoid_rect(a1: HypotrochoidAnimation, a2: HypotrochoidAnimation,
    rect: Rect)
    requires
        a1.pos_spec() == a2.pos_spec(),
        a1.center_spec() == a2.center_spec(),
        a1.parameter_spec() == a2.parameter_spec(),
    ensures
        a1.rect_for(rect) == a2.rect_for(rect),
        a1.rect_for(rect).w == rect.w,
        a1.rect_for(rect).h == rect.h,
{
}

/// A strategy mapping a frame number to the color to tint with.
pub trait ToColor<T>: Sized {
    /// The color this strategy yields for `frame` in its current state.
    spec fn color_spec(&self, frame: T) -> ColorU8;

    /// The strategy's state after being asked for `frame`.
    spec fn stepped(&self, frame: T) -> Self;

    fn get_color(&mut self, frame: T) -> (c: ColorU8)
        ensures
            c == old(self).color_spec(frame),
            *final(self) == old(self).stepped(frame),
    ;
}

/// A stateless `ToColor` strategy cycling through the fully saturated hues:
/// frame `n` maps to the opaque color at hue `n` degrees.
pub struct HueCycle;

impl ToColor<u32> for HueCycle {
    open spec fn color_spec(&self, frame: u32) -> ColorU8 {
        ColorRGBA {
            red: channel_of(hue_nums(frame as int % 360).0 * 255, 60) as u8,
            green: channel_of(hue_nums(frame as int % 360).1 * 255, 60) as u8,
            blue: channel_of(hue_nums(frame as int % 360).2 * 255, 60) as u8,
            alpha: 255u8,
        }
    }

    open spec fn stepped(&self, frame: u32) -> Self {
        HueCycle
    }

    fn get_color(&mut self, frame: u32) -> (c: ColorU8) {
        let c = ColorRGBA::from_hue((frame % 360) as u16);
        proof {
            assert(((frame % 360) as u16) as int % 360 == frame as int % 360);
        }
        c
    }
}

/// The frame counter after one image-animation step: it wraps modulo 360.
pub open spec fn next_frame(f: u32) -> u32 {
    ((f + 1) % 360) as u32
}

/// An image animation that tints the source image with a color derived from
/// a frame counter, advancing the counter by one (modulo 360) per frame.
pub struct ColorAnimation<TC: ToColor<u32>> {
    frame: u32,
    frame_to_color: TC,
}

impl<TC: ToColor<u32>> ColorAnimation<TC> {
    /// The current frame counter.
    pub closed spec fn frame_spec(&self) -> u32 {
        self.frame
    }

    /// The color strategy in its current state.
    pub closed spec fn strategy_spec(&self) -> TC {
        self.frame_to_color
    }

    pub fn new(frame: u32, frame_to_color: TC) -> (a: ColorAnimation<TC>)
        ensures
            a.frame_spec() == frame,
            a.strategy_spec() == frame_to_color,
    {
        ColorAnimation { frame, frame_to_color }
    }
}

impl<S: Surface, TC: ToColor<u32>> ImageAnimation<S> for ColorAnimation<TC> {
    /// The frame counter wraps modulo 360 and the color strategy steps.
    closed spec fn stepped(&self) -> Self {
        ColorAnimation {
            frame: next_frame(self.frame),
            frame_to_color: self.frame_to_color.stepped(self.frame),
        }
    }

    /// The source tinted by the color for the current frame.
    closed spec fn image_for(&self, image: S) -> S::V {
        image.modulated(self.frame_to_color.color_spec(self.frame))
    }

    fn transform_image(&mut self, image: &S) -> (r: Result<S, GameError>) {
        let color = self.frame_to_color.get_color(self.frame);
        self.frame = (self.frame % 360 + 1) % 360;
        proof {
            vstd::arithmetic::div_mod::lemma_add_mod_noop(old(self).frame_spec() as int, 1, 360);
        }
        let out = image.modulate_surface_and_color(&color)?;
        Ok(out)
    }
}

/// What one `ColorAnimation` step does, in full: the produced image is the
/// source modulated by the strategy's color for the frame read at entry; the
/// frame counter wraps forward by one and the strategy steps once.
pub proof fn lemma_color_animation_transform<S: Surface, TC: ToColor<u32>>(
    anim: ColorAnimation<TC>,
    image: S,
)
    ensures
        anim.image_for(image) == image.modulated(
            anim.strategy_spec().color_spec(anim.frame_spec()),
        ),
        <ColorAnimation<TC> as ImageAnimation<S>>::stepped(&anim).frame_spec() == next_frame(
            anim.frame_spec(),
        ),
        <ColorAnimation<TC> as ImageAnimation<S>>::stepped(&anim).strategy_spec()
            == anim.strategy_spec().stepped(anim.frame_spec()),
{
}

/// The frame counter after `n` image-animation steps.
pub open spec fn frame_after(f: u32, n: nat) -> u32
    decreases n,
{
    if n == 0 {
        f
    } else {
        next_frame(frame_after(f, (n - 1) as nat))
    }
}

/// Frame wrap-around: starting from frame 0, the counter after `n` steps is
/// `n` modulo 360.
pub proof fn lemma_frame_wraps(n: nat)
    ensures
        frame_after(0, n) == n % 360,
    decreases n,
{
    if n > 0 {
        lemma_frame_wraps((n - 1) as nat);
        vstd::arithmetic::div_mod::lemma_add_mod_noop((n - 1) as int, 1, 360);
    }
}

/// After exactly 360 steps from frame 0, the frame counter is 0 again.
pub proof fn lemma_frame_full_cycle()
    ensures
        frame_after(0, 360) == 0,
{
    lemma_frame_wraps(360);
}

/// A `ColorAnimation` advanced `n` times.
pub open spec fn color_animation_stepped_n<S: Surface, TC: ToColor<u32>>(
    anim: ColorAnimation<TC>,
    n: nat,
) -> ColorAnimation<TC>
    decreases n,
{
    if n == 0 {
        anim
    } else {
        ImageAnimation::<S>::stepped(&color_animation_stepped_n::<S, TC>(anim, (n - 1) as nat))
    }
}

/// The frame counter of a `ColorAnimation` evolves independently of its
/// color strategy: `n` steps take frame `f` to `frame_after(f, n)`, so a
/// counter that starts at 0 returns to 0 after exactly 360 steps.
pub proof fn lemma_color_animation_frames<S: Surface, TC: ToColor<u32>>(
    anim: ColorAnimation<TC>,
    n: nat,
)
    ensures
        color_animation_stepped_n::<S, TC>(anim, n).frame_spec() == frame_after(
            anim.frame_spec(),
            n,
        ),
    decreases n,
{
    if n > 0 {
        lemma_color_animation_frames::<S, TC>(anim, (n - 1) as nat);
    }
}

} // verus!
