//! Colors for the three cell roles, in exact fixed point.
//!
//! A channel is stored in thousandths of full intensity, so the valid range
//! `[0, 1]` of a normalized channel becomes `0 ..= COLOR_SCALE`. Every
//! constant of the animation (per-tick step, retarget epsilon, random-walk
//! radius) is a whole number of thousandths, so the blend arithmetic is
//! exact. The device edge converts a channel to a normalized float by
//! dividing by `COLOR_SCALE`.

use vstd::prelude::*;
use crate::rng::random_in;

verus! {

/// Full intensity of a channel: the fixed-point image of 1.0.
pub const COLOR_SCALE: u32 = 1000;

/// Per-tick movement of a channel toward its target, and the distance below
/// which a color counts as having reached its target: the image of 0.01.
pub const BLEND_STEP: u32 = 10;

/// Radius of the random perturbation that picks a fresh target around the
/// old one: the image of 0.5.
pub const TARGET_RADIUS: u32 = 500;

/// A three-channel color with each channel in thousandths of full intensity.
#[derive(Clone, Copy, PartialEq, Eq, Structural, Debug)]
pub struct Color {
    pub r: u32,
    pub g: u32,
    pub b: u32,
}

/// Magnitude of the difference of two channel values.
pub open spec fn abs_diff(a: int, b: int) -> int {
    if a >= b {
        a - b
    } else {
        b - a
    }
}

/// One channel moved toward its target: snap exactly onto the target when
/// the remaining distance is below the step, else move by the full step.
pub open spec fn blend_channel(c: int, t: int, amt: int) -> int {
    if abs_diff(c, t) < amt {
        t
    } else if t > c {
        c + amt
    } else {
        c - amt
    }
}

impl Color {
    /// Every channel lies inside the valid normalized range.
    pub open spec fn wf(self) -> bool {
        self.r <= COLOR_SCALE && self.g <= COLOR_SCALE && self.b <= COLOR_SCALE
    }

    /// Builds a color from its three channels.
    pub fn new(r: u32, g: u32, b: u32) -> (c: Color)
        requires
            r <= COLOR_SCALE,
            g <= COLOR_SCALE,
            b <= COLOR_SCALE,
        ensures
            c == (Color { r, g, b }),
            c.wf(),
    {
        Color { r, g, b }
    }

    /// The distance between two colors: the sum of the absolute per-channel
    /// differences.
    pub open spec fn dist_spec(self, other: Color) -> int {
        abs_diff(self.r as int, other.r as int) + abs_diff(self.g as int, other.g as int)
            + abs_diff(self.b as int, other.b as int)
    }

    /// Computes the distance to `other`.
    pub fn dist(&self, other: &Color) -> (d: u32)
        requires
            self.wf(),
            other.wf(),
        ensures
            d == self.dist_spec(*other),
    {
        let dr = if self.r >= other.r {
            self.r - other.r
        } else {
            other.r - self.r
        };
        let dg = if self.g >= other.g {
            self.g - other.g
        } else {
            other.g - self.g
        };
        let db = if self.b >= other.b {
            self.b - other.b
        } else {
            other.b - self.b
        };
        dr + dg + db
    }

    /// This color moved one step toward `target`, channel by channel.
    pub open spec fn blend_spec(self, target: Color, amt: int) -> Color {
        Color {
            r: blend_channel(self.r as int, target.r as int, amt) as u32,
            g: blend_channel(self.g as int, target.g as int, amt) as u32,
            b: blend_channel(self.b as int, target.b as int, amt) as u32,
        }
    }

    /// Moves this color one step of size `amt` toward `target`: each channel
    /// snaps exactly onto the target when its remaining distance is below
    /// `amt`, else moves by `amt`, so no channel ever overshoots.
    pub fn blend_to_target(&mut self, target: &Color, amt: u32)
        requires
            old(self).wf(),
            target.wf(),
            amt <= COLOR_SCALE,
        ensures
            *final(self) == old(self).blend_spec(*target, amt as int),
            final(self).wf(),
    {
        let diff_r = if target.r >= self.r {
            target.r - self.r
        } else {
            self.r - target.r
        };
        if diff_r < amt {
            self.r = target.r;
        } else if target.r > self.r {
            self.r = self.r + amt;
        } else {
            self.r = self.r - amt;
        }
        let diff_g = if target.g >= self.g {
            target.g - self.g
        } else {
            self.g - target.g
        };
        if diff_g < amt {
            self.g = target.g;
        } else if target.g > self.g {
            self.g = self.g + amt;
        } else {
            self.g = self.g - amt;
        }
        let diff_b = if target.b >= self.b {
            target.b - self.b
        } else {
            self.b - target.b
        };
        if diff_b < amt {
            self.b = target.b;
        } else if target.b > self.b {
            self.b = self.b + amt;
        } else {
            self.b = self.b - amt;
        }
    }
    /// Draws a fresh color with each channel sampled independently from the
    /// interval of radius `amt` around this color's channel, clamped to the
    /// valid range. The outcome is random; every channel is nevertheless
    /// bounded by the clamped interval.
    pub fn rand_within(&self, amt: u32) -> (c: Color)
        requires
            self.wf(),
            amt <= COLOR_SCALE,
        ensures
            c.wf(),
            clamp_low(self.r as int, amt as int) <= c.r <= clamp_high(self.r as int, amt as int),
            clamp_low(self.g as int, amt as int) <= c.g <= clamp_high(self.g as int, amt as int),
            clamp_low(self.b as int, amt as int) <= c.b <= clamp_high(self.b as int, amt as int),
    {
        let r_min = if self.r >= amt {
            self.r - amt
        } else {
            0
        };
        let r_max = if self.r + amt <= COLOR_SCALE {
            self.r + amt
        } else {
            COLOR_SCALE
        };
        let g_min = if self.g >= amt {
            self.g - amt
        } else {
            0
        };
        let g_max = if self.g + amt <= COLOR_SCALE {
            self.g + amt
        } else {
            COLOR_SCALE
        };
        let b_min = if self.b >= amt {
            self.b - amt
        } else {
            0
        };
        let b_max = if self.b + amt <= COLOR_SCALE {
            self.b + amt
        } else {
            COLOR_SCALE
        };
        Color { r: random_in(r_min, r_max), g: random_in(g_min, g_max), b: random_in(b_min, b_max) }
    }
}

/// The lower end of the perturbation interval around a channel: `c - amt`,
/// floored at the bottom of the valid range.
pub open spec fn clamp_low(c: int, amt: int) -> int {
    if c - amt >= 0 {
        c - amt
    } else {
        0
    }
}

/// The upper end of the perturbation interval around a channel: `c + amt`,
/// capped at full intensity.
pub open spec fn clamp_high(c: int, amt: int) -> int {
    if c + amt <= COLOR_SCALE {
        c + amt
    } else {
        COLOR_SCALE as int
    }
}

/// The device color buffer layout: nine contiguous channels, grouped as
/// three triples in role order, rock first, each triple red, green, blue.
/// The device edge turns each packed channel into a normalized float.
pub fn pack_channels(colors: (Color, Color, Color)) -> (v: Vec<u32>)
    ensures
        v@ =~= seq![
            colors.0.r,
            colors.0.g,
            colors.0.b,
            colors.1.r,
            colors.1.g,
            colors.1.b,
            colors.2.r,
            colors.2.g,
            colors.2.b,
        ],
{
    let (rock, paper, scissors) = colors;
    let mut v: Vec<u32> = Vec::new();
    v.push(rock.r);
    v.push(rock.g);
    v.push(rock.b);
    v.push(paper.r);
    v.push(paper.g);
    v.push(paper.b);
    v.push(scissors.r);
    v.push(scissors.g);
    v.push(scissors.b);
    v
}

/// A color after `k` blend steps of size `amt` toward a fixed target.
pub open spec fn iter_blend(c: Color, t: Color, amt: int, k: nat) -> Color
    decreases k,
{
    if k == 0 {
        c
    } else {
        iter_blend(c, t, amt, (k - 1) as nat).blend_spec(t, amt)
    }
}

/// One blend step leaves a channel exactly `amt` closer to its target, or
/// on it: the new distance is `|c - t| - amt`, floored at zero.
pub proof fn lemma_blend_channel_progress(c: int, t: int, amt: int)
    requires
        amt > 0,
    ensures
        abs_diff(blend_channel(c, t, amt), t) == if abs_diff(c, t) <= amt {
            0int
        } else {
            abs_diff(c, t) - amt
        },
        abs_diff(blend_channel(c, t, amt), t) <= abs_diff(c, t),
{
}

/// After `k` steps a channel's distance to its target is its starting
/// distance less `k` steps, floored at zero.
proof fn lemma_iter_blend_channel(c: Color, t: Color, amt: int, k: nat)
    requires
        amt > 0,
    ensures
        abs_diff(iter_blend(c, t, amt, k).r as int, t.r as int) == if abs_diff(
            c.r as int,
            t.r as int,
        ) <= k * amt {
            0int
        } else {
            abs_diff(c.r as int, t.r as int) - k * amt
        },
        abs_diff(iter_blend(c, t, amt, k).g as int, t.g as int) == if abs_diff(
            c.g as int,
            t.g as int,
        ) <= k * amt {
            0int
        } else {
            abs_diff(c.g as int, t.g as int) - k * amt
        },
        abs_diff(iter_blend(c, t, amt, k).b as int, t.b as int) == if abs_diff(
            c.b as int,
            t.b as int,
        ) <= k * amt {
            0int
        } else {
            abs_diff(c.b as int, t.b as int) - k * amt
        },
    decreases k,
{
    if k == 0 {
    } else {
        let prev = iter_blend(c, t, amt, (k - 1) as nat);
        lemma_iter_blend_channel(c, t, amt, (k - 1) as nat);
        lemma_blend_channel_progress(prev.r as int, t.r as int, amt);
        lemma_blend_channel_progress(prev.g as int, t.g as int, amt);
        lemma_blend_channel_progress(prev.b as int, t.b as int, amt);
        assert((k - 1) * amt == k * amt - amt) by (nonlinear_arith);
    }
}

/// Blend convergence, first half: the distance to a fixed target is
/// monotonically non-increasing over repeated steps, so the walk never
/// overshoots its target.
pub proof fn lemma_blend_monotone(c: Color, t: Color, amt: int, k: nat)
    requires
        amt > 0,
    ensures
        iter_blend(c, t, amt, (k + 1) as nat).dist_spec(t) <= iter_blend(c, t, amt, k).dist_spec(t),
{
    let prev = iter_blend(c, t, amt, k);
    lemma_blend_channel_progress(prev.r as int, t.r as int, amt);
    lemma_blend_channel_progress(prev.g as int, t.g as int, amt);
    lemma_blend_channel_progress(prev.b as int, t.b as int, amt);
    assert(iter_blend(c, t, amt, (k + 1) as nat) == prev.blend_spec(t, amt));
}

/// Blend convergence, second half: from any start the walk lands exactly on
/// a fixed target within `ceil(distance / amt)` steps — any `k` with
/// `k * amt >= distance` suffices.
pub proof fn lemma_blend_convergence(c: Color, t: Color, amt: int, k: nat)
    requires
        amt > 0,
        k * amt >= c.dist_spec(t),
    ensures
        iter_blend(c, t, amt, k) == t,
{
    lemma_iter_blend_channel(c, t, amt, k);
    let result = iter_blend(c, t, amt, k);
    assert(result.r == t.r && result.g == t.g && result.b == t.b);
}

} // verus!
