//! The random-walk color blender.
//!
//! While enabled, each of the three color roles drifts continuously: a role
//! whose color has come within one step of its target is given a fresh
//! random target inside a clamped radius around the old one, and every role
//! then moves one exact step toward its target. The walk never overshoots:
//! a channel snaps onto its target when the remaining distance is below the
//! step.

use vstd::prelude::*;
use crate::color::{clamp_high, clamp_low, Color, COLOR_SCALE, TARGET_RADIUS};

verus! {

/// An alternate palette source: per role a current color and the target it
/// is walking toward.
pub struct ColorBlender {
    /// The rock role's current color.
    pub rock: Color,
    /// The paper role's current color.
    pub paper: Color,
    /// The scissors role's current color.
    pub scissors: Color,
    /// The target the rock color walks toward.
    pub rock_target: Color,
    /// The target the paper color walks toward.
    pub paper_target: Color,
    /// The target the scissors color walks toward.
    pub scissors_target: Color,
    /// Whether device-resident color data is stale relative to this state.
    pub dirty: bool,
    /// Whether the walk has moved since the last reset.
    pub has_done_step: bool,
    /// Per-tick step size of the walk, in channel thousandths.
    pub blend_amt: u32,
}

/// `to` lies inside the clamped perturbation interval of radius `amt`
/// around `from`, channel by channel.
pub open spec fn perturbed_within(from: Color, to: Color, amt: int) -> bool {
    &&& to.wf()
    &&& clamp_low(from.r as int, amt) <= to.r <= clamp_high(from.r as int, amt)
    &&& clamp_low(from.g as int, amt) <= to.g <= clamp_high(from.g as int, amt)
    &&& clamp_low(from.b as int, amt) <= to.b <= clamp_high(from.b as int, amt)
}

/// The blender after a reset to the given colors: currents and targets
/// coincide, so the walk resumes from exactly these colors with no visible
/// jump. The state counts as stale only when the walk had moved since the
/// last reset.
pub open spec fn reset_spec(pre: ColorBlender, to_r: Color, to_p: Color, to_s: Color) -> ColorBlender {
    ColorBlender {
        rock: to_r,
        paper: to_p,
        scissors: to_s,
        rock_target: to_r,
        paper_target: to_p,
        scissors_target: to_s,
        dirty: pre.dirty || pre.has_done_step,
        has_done_step: false,
        blend_amt: pre.blend_amt,
    }
}

/// What one tick of the walk does. The fresh targets are random, so this
/// relates a pre-state to every possible post-state: a role retargets
/// exactly when its color sits within one step of its target, the new
/// target lies in the clamped radius around the old, and each current color
/// moves one exact blend step toward the (possibly fresh) target.
pub open spec fn step_relation(pre: ColorBlender, post: ColorBlender) -> bool {
    &&& post.wf()
    &&& post.blend_amt == pre.blend_amt
    &&& post.dirty
    &&& post.has_done_step
    &&& (pre.rock.dist_spec(pre.rock_target) < pre.blend_amt ==> perturbed_within(
        pre.rock_target,
        post.rock_target,
        TARGET_RADIUS as int,
    ))
    &&& (pre.rock.dist_spec(pre.rock_target) >= pre.blend_amt ==> post.rock_target
        == pre.rock_target)
    &&& (pre.paper.dist_spec(pre.paper_target) < pre.blend_amt ==> perturbed_within(
        pre.paper_target,
        post.paper_target,
        TARGET_RADIUS as int,
    ))
    &&& (pre.paper.dist_spec(pre.paper_target) >= pre.blend_amt ==> post.paper_target
        == pre.paper_target)
    &&& (pre.scissors.dist_spec(pre.scissors_target) < pre.blend_amt ==> perturbed_within(
        pre.scissors_target,
        post.scissors_target,
        TARGET_RADIUS as int,
    ))
    &&& (pre.scissors.dist_spec(pre.scissors_target) >= pre.blend_amt ==> post.scissors_target
        == pre.scissors_target)
    &&& post.rock == pre.rock.blend_spec(post.rock_target, pre.blend_amt as int)
    &&& post.paper == pre.paper.blend_spec(post.paper_target, pre.blend_amt as int)
    &&& post.scissors == pre.scissors.blend_spec(post.scissors_target, pre.blend_amt as int)
}

impl ColorBlender {
    /// All colors are valid and the step size is positive and within scale.
    pub open spec fn wf(self) -> bool {
        &&& self.rock.wf()
        &&& self.paper.wf()
        &&& self.scissors.wf()
        &&& self.rock_target.wf()
        &&& self.paper_target.wf()
        &&& self.scissors_target.wf()
        &&& 0 < self.blend_amt <= COLOR_SCALE
    }

    /// Builds a blender at the primary red/green/blue colors, at rest on its
    /// targets, with nothing pending.
    pub fn new(blend_amt: u32) -> (b: ColorBlender)
        requires
            0 < blend_amt <= COLOR_SCALE,
        ensures
            b.wf(),
            b.blend_amt == blend_amt,
            !b.dirty,
            !b.has_done_step,
            b.rock == (Color { r: COLOR_SCALE, g: 0, b: 0 }),
            b.paper == (Color { r: 0, g: COLOR_SCALE, b: 0 }),
            b.scissors == (Color { r: 0, g: 0, b: COLOR_SCALE }),
            b.rock_target == b.rock,
            b.paper_target == b.paper,
            b.scissors_target == b.scissors,
    {
        ColorBlender {
            rock: Color { r: COLOR_SCALE, g: 0, b: 0 },
            paper: Color { r: 0, g: COLOR_SCALE, b: 0 },
            scissors: Color { r: 0, g: 0, b: COLOR_SCALE },
            rock_target: Color { r: COLOR_SCALE, g: 0, b: 0 },
            paper_target: Color { r: 0, g: COLOR_SCALE, b: 0 },
            scissors_target: Color { r: 0, g: 0, b: COLOR_SCALE },
            dirty: false,
            has_done_step: false,
            blend_amt,
        }
    }

    /// The three blended colors, in role order.
    pub fn colors(&self) -> (c: (Color, Color, Color))
        ensures
            c.0 == self.rock,
            c.1 == self.paper,
            c.2 == self.scissors,
    {
        (self.rock, self.paper, self.scissors)
    }

    /// Restarts the walk from the given colors, targets included, so the
    /// handoff from another color source shows no jump.
    pub fn reset(&mut self, to_r: Color, to_p: Color, to_s: Color)
        requires
            old(self).wf(),
            to_r.wf(),
            to_p.wf(),
            to_s.wf(),
        ensures
            *final(self) == reset_spec(*old(self), to_r, to_p, to_s),
            final(self).wf(),
    {
        self.rock = to_r;
        self.paper = to_p;
        self.scissors = to_s;
        self.rock_target = to_r;
        self.paper_target = to_p;
        self.scissors_target = to_s;
        if self.has_done_step {
            self.has_done_step = false;
            self.dirty = true;
        }
    }

    /// One tick of the walk: retarget every role that has reached its
    /// target, then move each role one step toward its target, and mark the
    /// state stale.
    pub fn step(&mut self)
        requires
            old(self).wf(),
        ensures
            step_relation(*old(self), *final(self)),
    {
        self.has_done_step = true;
        if self.rock.dist(&self.rock_target) < self.blend_amt {
            self.rock_target = self.rock_target.rand_within(TARGET_RADIUS);
        }
        if self.paper.dist(&self.paper_target) < self.blend_amt {
            self.paper_target = self.paper_target.rand_within(TARGET_RADIUS);
        }
        if self.scissors.dist(&self.scissors_target) < self.blend_amt {
            self.scissors_target = self.scissors_target.rand_within(TARGET_RADIUS);
        }
        let rock_target = self.rock_target;
        let paper_target = self.paper_target;
        let scissors_target = self.scissors_target;
        self.rock.blend_to_target(&rock_target, self.blend_amt);
        self.paper.blend_to_target(&paper_target, self.blend_amt);
        self.scissors.blend_to_target(&scissors_target, self.blend_amt);
        self.dirty = true;
    }
}

} // verus!
