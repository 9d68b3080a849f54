//! Fixed-point scaling, interpolation and easing used by every frame of the
//! render pipeline.

use vstd::prelude::*;

verus! {

/// Number of selectable hue steps, plus the warm-white entry at index 0.
pub const COLOR_STEPS: u8 = 37;
/// Hue distance between two adjacent color indices.
pub const COLOR_MUL: u8 = 7;
/// Largest legal color index; indices wrap within `[0, COLOR_MAX]`.
pub const COLOR_MAX: u8 = COLOR_STEPS;
/// Divisor of the remaining distance used when easing a color channel.
pub const COLOR_EASE_STEP: u8 = 11;

/// What `scale8` computes: `i` scaled by `scale / 256`, where a scale of 255
/// keeps the value (nearly) unchanged.
pub open spec fn spec_scale8(i: u8, scale: u8) -> int {
    (i * (1 + scale)) / 256
}

/// Scale `i` by the fraction `scale / 256` (a video-style 8-bit multiply).
pub fn scale8(i: u8, scale: u8) -> (r: u8)
    ensures
        r == spec_scale8(i, scale),
        r <= i,
{
    proof {
        assert(i * (1 + scale) <= i * 256 && i * 256 == 256 * i) by (nonlinear_arith)
            requires
                scale <= 255,
                0 <= i,
        ;
    }
    (((i as u16) * (1 + scale as u16)) / 256) as u8
}

/// What `lerp8` computes: the point `pct / 256` of the way from `a` to `b`,
/// rounded toward `a`.
pub open spec fn spec_lerp8(a: u8, b: u8, pct: u8) -> int {
    if b > a {
        a + spec_scale8((b - a) as u8, pct)
    } else {
        a - spec_scale8((a - b) as u8, pct)
    }
}

/// Linear interpolation from `a` (at `pct == 0`) toward `b` (approached as
/// `pct` nears 255); the result never leaves the segment between the two.
pub fn lerp8(a: u8, b: u8, pct: u8) -> (r: u8)
    ensures
        r == spec_lerp8(a, b, pct),
        a <= b ==> a <= r <= b,
        b <= a ==> b <= r <= a,
{
    if b > a {
        let delta = b - a;
        let scaled = scale8(delta, pct);
        a + scaled
    } else {
        let delta = a - b;
        let scaled = scale8(delta, pct);
        a - scaled
    }
}

/// The per-tick step `eased_step` takes: a `factor`-th of the remaining
/// distance `d`, but always at least one unit.
pub open spec fn spec_ease_amount(d: int, factor: u8) -> int {
    if d / (factor as int) < 1 {
        1
    } else {
        d / (factor as int)
    }
}

/// What `eased_step` computes: `current` moved toward `target` by
/// `spec_ease_amount` of the gap, landing exactly on `target` when they meet.
pub open spec fn spec_eased_step(current: u8, target: u8, factor: u8) -> int {
    if current == target {
        target as int
    } else if target > current {
        current + spec_ease_amount(target - current, factor)
    } else {
        current - spec_ease_amount(current - target, factor)
    }
}

/// Move `current` one eased step toward `target`: the step closes the gap in
/// roughly `factor` ticks but never stalls below one unit per tick, and the
/// result never overshoots `target`.
pub fn eased_step(current: u8, target: u8, factor: u8) -> (r: u8)
    requires
        factor >= 1,
    ensures
        r == spec_eased_step(current, target, factor),
        current < target ==> current < r <= target,
        target < current ==> target <= r < current,
        current == target ==> r == target,
{
    if current == target {
        return target;
    }
    if target > current {
        let delta = target - current;
        let mut step = delta / factor;
        if step == 0 {
            step = 1;
        }
        current + step
    } else {
        let delta = current - target;
        let mut step = delta / factor;
        if step == 0 {
            step = 1;
        }
        current - step
    }
}

/// A scaled byte stays within `[0, i]`: scaling only ever dims.
pub proof fn lemma_scale8_bounds(i: u8, scale: u8)
    ensures
        0 <= spec_scale8(i, scale) <= i,
{
    assert(i * (1 + scale) <= i * 256 && 0 <= i * (1 + scale) && i * 256 == 256 * i)
        by (nonlinear_arith)
        requires
            scale <= 255,
            0 <= i,
    ;
    vstd::arithmetic::div_mod::lemma_div_pos_is_pos(i * (1 + scale), 256);
    vstd::arithmetic::div_mod::lemma_div_is_ordered(i * (1 + scale), 256 * i, 256);
    vstd::arithmetic::div_mod::lemma_div_multiples_vanish(i as int, 256);
}

/// An interpolated byte never leaves the segment between its two endpoints.
pub proof fn lemma_lerp8_bounds(a: u8, b: u8, pct: u8)
    ensures
        a <= b ==> a <= spec_lerp8(a, b, pct) <= b,
        b <= a ==> b <= spec_lerp8(a, b, pct) <= a,
{
    if b > a {
        lemma_scale8_bounds((b - a) as u8, pct);
    } else {
        lemma_scale8_bounds((a - b) as u8, pct);
    }
}

/// One eased step keeps the value on the segment between where it was and
/// the target, and — whenever the two still differ — moves it strictly
/// closer by at least one unit: easing is monotone and never overshoots.
pub proof fn lemma_eased_step_progress(current: u8, target: u8, factor: u8)
    requires
        factor >= 1,
    ensures
        current < target ==> current < spec_eased_step(current, target, factor) <= target,
        target < current ==> target <= spec_eased_step(current, target, factor) < current,
        current == target ==> spec_eased_step(current, target, factor) == target,
{
    if current < target {
        vstd::arithmetic::div_mod::lemma_div_nonincreasing(
            target - current,
            factor as int,
        );
        vstd::arithmetic::div_mod::lemma_div_pos_is_pos(target - current, factor as int);
    } else if target < current {
        vstd::arithmetic::div_mod::lemma_div_nonincreasing(
            current - target,
            factor as int,
        );
        vstd::arithmetic::div_mod::lemma_div_pos_is_pos(current - target, factor as int);
    }
}

/// The value after `n` eased ticks toward a fixed target.
pub open spec fn spec_ease_iter(current: u8, target: u8, factor: u8, n: nat) -> u8
    decreases n,
{
    if n == 0 {
        current
    } else {
        spec_ease_iter(
            spec_eased_step(current, target, factor) as u8,
            target,
            factor,
            (n - 1) as nat,
        )
    }
}

/// Easing converges: every tick closes at least one unit of the remaining
/// gap without overshooting, so after as many ticks as the initial distance
/// the value sits exactly on the target — and stays there.
pub proof fn lemma_easing_convergence(current: u8, target: u8, factor: u8, n: nat)
    requires
        factor >= 1,
        n >= (if target >= current {
            target - current
        } else {
            current - target
        }),
    ensures
        spec_ease_iter(current, target, factor, n) == target,
    decreases n,
{
    if current == target {
        if n > 0 {
            lemma_easing_convergence(current, target, factor, (n - 1) as nat);
        }
    } else {
        lemma_eased_step_progress(current, target, factor);
        let next = spec_eased_step(current, target, factor) as u8;
        lemma_easing_convergence(next, target, factor, (n - 1) as nat);
    }
}

/// One pixel: red, green, blue and a warm-white channel.
#[derive(PartialEq, Eq, Structural, Clone, Copy, Debug)]
pub struct Rgba8 {
    pub r: u8,
    pub g: u8,
    pub b: u8,
    pub a: u8,
}

impl Default for Rgba8 {
    /// A pixel that is fully off.
    fn default() -> (r: Self)
        ensures
            r == (Rgba8 { r: 0, g: 0, b: 0, a: 0 }),
    {
        Rgba8 { r: 0, g: 0, b: 0, a: 0 }
    }
}

/// The red, green and blue values that the HSV-to-RGB conversion yields for
/// a hue, saturation and value triple.
pub uninterp spec fn rgb_of_hsv(hue: u8, sat: u8, val: u8) -> (u8, u8, u8);

/// Relies on smart_leds::hsv::hsv2rgb: a pure function of its hue,
/// saturation and value bytes alone.
#[verifier::external_body]
fn hsv_to_rgb(hue: u8, sat: u8, val: u8) -> (rgb: (u8, u8, u8))
    ensures
        rgb == rgb_of_hsv(hue, sat, val),
{
    let c = smart_leds::hsv::hsv2rgb(smart_leds::hsv::Hsv { hue, sat, val });
    (c.r, c.g, c.b)
}

/// The pixel a color index decodes to: index 0 is pure warm white, any other
/// index is a fully saturated hue `COLOR_MUL` steps further around the wheel.
pub open spec fn spec_color_of_index(value: u8) -> Rgba8 {
    if value == 0 {
        Rgba8 { r: 0, g: 0, b: 0, a: 255 }
    } else {
        let rgb = rgb_of_hsv(((value - 1) * COLOR_MUL) as u8, 255, 255);
        Rgba8 { r: rgb.0, g: rgb.1, b: rgb.2, a: 0 }
    }
}

impl Rgba8 {
    /// Decode a color index from the shared store into this pixel.
    pub fn from_u16(&mut self, value: u8)
        requires
            value <= COLOR_MAX,
        ensures
            *final(self) == spec_color_of_index(value),
    {
        if value == 0 {
            self.r = 0;
            self.g = 0;
            self.b = 0;
            self.a = 255;
            return ;
        }
        let rgb = hsv_to_rgb((value - 1) * COLOR_MUL, 255, 255);
        self.r = rgb.0;
        self.g = rgb.1;
        self.b = rgb.2;
        self.a = 0;
    }

    /// Ease every channel one step toward the same channel of `other`.
    pub fn walk_toward(&mut self, other: &Rgba8)
        ensures
            *final(self) == spec_walk_toward(*old(self), *other),
    {
        self.r = eased_step(self.r, other.r, COLOR_EASE_STEP);
        self.g = eased_step(self.g, other.g, COLOR_EASE_STEP);
        self.b = eased_step(self.b, other.b, COLOR_EASE_STEP);
        self.a = eased_step(self.a, other.a, COLOR_EASE_STEP);
    }

    /// Blend each channel from `other` toward its current value: at
    /// `pct == 0` the result is `other`, and it approaches the current pixel
    /// as `pct` nears 255.
    pub fn lerp_from(&mut self, other: &Rgba8, pct: u8)
        ensures
            *final(self) == spec_lerp_from(*old(self), *other, pct),
    {
        self.r = lerp8(other.r, self.r, pct);
        self.g = lerp8(other.g, self.g, pct);
        self.b = lerp8(other.b, self.b, pct);
        self.a = lerp8(other.a, self.a, pct);
    }

    /// Overwrite this pixel with `other` scaled by the fade fraction
    /// `pct / 256`; no channel ever exceeds its value in `other`.
    pub fn fade_from(&mut self, other: &Rgba8, pct: u8)
        ensures
            *final(self) == spec_fade_from(*other, pct),
    {
        self.r = scale8(other.r, pct);
        self.g = scale8(other.g, pct);
        self.b = scale8(other.b, pct);
        self.a = scale8(other.a, pct);
    }

    /// Overwrite this pixel with `other` scaled by the brightness fraction
    /// `pct / 256` and then pushed through the gamma lookup table.
    pub fn post_process(&mut self, other: &Rgba8, pct: u8, gamma: &[u8; 256])
        ensures
            *final(self) == spec_post_process(*other, pct, gamma@),
    {
        self.r = gamma[scale8(other.r, pct) as usize];
        self.g = gamma[scale8(other.g, pct) as usize];
        self.b = gamma[scale8(other.b, pct) as usize];
        self.a = gamma[scale8(other.a, pct) as usize];
    }
}

/// The pixel `walk_toward` produces: every channel of `c` moved one eased
/// step toward the same channel of `t`.
pub open spec fn spec_walk_toward(c: Rgba8, t: Rgba8) -> Rgba8 {
    Rgba8 {
        r: spec_eased_step(c.r, t.r, COLOR_EASE_STEP) as u8,
        g: spec_eased_step(c.g, t.g, COLOR_EASE_STEP) as u8,
        b: spec_eased_step(c.b, t.b, COLOR_EASE_STEP) as u8,
        a: spec_eased_step(c.a, t.a, COLOR_EASE_STEP) as u8,
    }
}

/// The pixel `lerp_from` produces: every channel interpolated from `other`
/// toward the same channel of `c` by `pct / 256`.
pub open spec fn spec_lerp_from(c: Rgba8, other: Rgba8, pct: u8) -> Rgba8 {
    Rgba8 {
        r: spec_lerp8(other.r, c.r, pct) as u8,
        g: spec_lerp8(other.g, c.g, pct) as u8,
        b: spec_lerp8(other.b, c.b, pct) as u8,
        a: spec_lerp8(other.a, c.a, pct) as u8,
    }
}

/// The pixel `fade_from` produces: every channel of `c` scaled by
/// `pct / 256`.
pub open spec fn spec_fade_from(c: Rgba8, pct: u8) -> Rgba8 {
    Rgba8 {
        r: spec_scale8(c.r, pct) as u8,
        g: spec_scale8(c.g, pct) as u8,
        b: spec_scale8(c.b, pct) as u8,
        a: spec_scale8(c.a, pct) as u8,
    }
}

/// The pixel `post_process` produces: every channel of `c` scaled by the
/// brightness fraction `pct / 256` and gamma-corrected by table lookup.
pub open spec fn spec_post_process(c: Rgba8, pct: u8, gamma: Seq<u8>) -> Rgba8 {
    Rgba8 {
        r: gamma[spec_scale8(c.r, pct)],
        g: gamma[spec_scale8(c.g, pct)],
        b: gamma[spec_scale8(c.b, pct)],
        a: gamma[spec_scale8(c.a, pct)],
    }
}

/// The pixel the demo color wheel yields: a position on a red-green-blue
/// transition wheel together with a fixed white channel.
pub open spec fn spec_wheel(wheel_pos: u8, white_pos: u8) -> Rgba8 {
    let p = (255 - wheel_pos) as u8;
    if p < 85 {
        Rgba8 { r: (255 - p * 3) as u8, g: 0, b: (p * 3) as u8, a: white_pos }
    } else if p < 170 {
        Rgba8 {
            r: 0,
            g: ((p - 85) * 3) as u8,
            b: (255 - (p - 85) * 3) as u8,
            a: white_pos,
        }
    } else {
        Rgba8 {
            r: ((p - 170) * 3) as u8,
            g: (255 - (p - 170) * 3) as u8,
            b: 0,
            a: white_pos,
        }
    }
}

/// Map a position 0..=255 to a color on the transition wheel
/// red → green → blue → red, keeping the given white channel.
pub fn wheel(wheel_pos: u8, white_pos: u8) -> (r: Rgba8)
    ensures
        r == spec_wheel(wheel_pos, white_pos),
{
    let p = 255 - wheel_pos;
    if p < 85 {
        return Rgba8 { r: 255 - p * 3, g: 0, b: p * 3, a: white_pos };
    }
    if p < 170 {
        let q = p - 85;
        return Rgba8 { r: 0, g: q * 3, b: 255 - q * 3, a: white_pos };
    }
    let q = p - 170;
    Rgba8 { r: q * 3, g: 255 - q * 3, b: 0, a: white_pos }
}

} // verus!
