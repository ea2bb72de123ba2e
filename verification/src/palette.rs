//! The palette store, the mode switch between the two color sources, and
//! the per-tick sync decision.
//!
//! Exactly four fixed palettes exist; one is active at a time, selected by
//! an index that cycles with wraparound. The alternate source is the
//! random-walk blender. Each tick, color data is handed out for a device
//! write only when the active source reports itself stale; a static palette
//! is pushed once, on a mode change, and never again.

use vstd::prelude::*;
use crate::blend::{reset_spec, step_relation, ColorBlender};
use crate::color::{Color, BLEND_STEP};

verus! {

/// How many fixed palettes exist.
pub const PALETTE_COUNT: usize = 4;

/// A fixed ordered triple of colors for the three cell roles.
#[derive(Clone, Copy, PartialEq, Eq, Structural, Debug)]
pub struct Palette {
    /// The color rock cells are drawn in.
    pub rock: Color,
    /// The color paper cells are drawn in.
    pub paper: Color,
    /// The color scissors cells are drawn in.
    pub scissors: Color,
}

impl Palette {
    /// All three colors are valid.
    pub open spec fn wf(self) -> bool {
        self.rock.wf() && self.paper.wf() && self.scissors.wf()
    }
}

/// The fixed palette table: standard RGB, complementary CMY, a darkened
/// RGB, and grayscale.
pub open spec fn default_palettes() -> Seq<Palette> {
    seq![
        Palette {
            rock: Color { r: 1000, g: 0, b: 0 },
            paper: Color { r: 0, g: 1000, b: 0 },
            scissors: Color { r: 0, g: 0, b: 1000 },
        },
        Palette {
            rock: Color { r: 0, g: 1000, b: 1000 },
            paper: Color { r: 1000, g: 0, b: 1000 },
            scissors: Color { r: 1000, g: 1000, b: 0 },
        },
        Palette {
            rock: Color { r: 800, g: 0, b: 0 },
            paper: Color { r: 0, g: 800, b: 0 },
            scissors: Color { r: 0, g: 0, b: 800 },
        },
        Palette {
            rock: Color { r: 0, g: 0, b: 0 },
            paper: Color { r: 500, g: 500, b: 500 },
            scissors: Color { r: 1000, g: 1000, b: 1000 },
        },
    ]
}

/// The active index after one forward cycle.
pub open spec fn next_index(m: int) -> int {
    (m + 1) % (PALETTE_COUNT as int)
}

/// The active index after one backward cycle.
pub open spec fn prev_index(m: int) -> int {
    (m + PALETTE_COUNT - 1) % (PALETTE_COUNT as int)
}

/// The color sources and the flags that drive the per-tick sync decision.
pub struct ColorModes {
    /// Which fixed palette is active.
    pub mode: usize,
    /// The fixed palette table, immutable once built.
    pub palettes: Vec<Palette>,
    /// The alternate, continuously drifting color source.
    pub blender: ColorBlender,
    /// Whether the blender, rather than the palette table, is authoritative.
    pub blender_enabled: bool,
    /// Whether palette data must still be pushed to the device.
    pub should_push: bool,
}

/// What a tick does while the palette source is active: the blender is kept
/// in step with the active palette so a later handoff shows no jump, and
/// nothing else changes. In particular no new push is made pending.
pub open spec fn palette_tick_spec(m: ColorModes) -> ColorModes {
    ColorModes {
        blender: reset_spec(
            m.blender,
            m.active_spec().rock,
            m.active_spec().paper,
            m.active_spec().scissors,
        ),
        ..m
    }
}

/// The state after `k` palette-mode ticks with no cycle or toggle calls.
pub open spec fn iterate_palette_ticks(m: ColorModes, k: nat) -> ColorModes
    decreases k,
{
    if k == 0 {
        m
    } else {
        palette_tick_spec(iterate_palette_ticks(m, (k - 1) as nat))
    }
}

impl ColorModes {
    /// The palette table is the fixed one, the active index is in range,
    /// and the blender is valid.
    pub open spec fn wf(self) -> bool {
        &&& self.palettes@ == default_palettes()
        &&& self.mode < PALETTE_COUNT
        &&& self.blender.wf()
    }

    /// The palette the active index selects.
    pub open spec fn active_spec(self) -> Palette {
        self.palettes@[self.mode as int]
    }

    /// Whether the active color source reports device-resident color data
    /// stale: the blender by its own flag, the palette by the push flag.
    pub open spec fn sync_pending(self) -> bool {
        if self.blender_enabled {
            self.blender.dirty
        } else {
            self.should_push
        }
    }

    /// The colors the active source currently shows, in role order.
    pub open spec fn colors_spec(self) -> (Color, Color, Color) {
        if self.blender_enabled {
            (self.blender.rock, self.blender.paper, self.blender.scissors)
        } else {
            (self.active_spec().rock, self.active_spec().paper, self.active_spec().scissors)
        }
    }

    /// Builds the store: the four fixed palettes with the first active, the
    /// blender at rest and disabled, and the initial palette push pending.
    pub fn new() -> (m: ColorModes)
        ensures
            m.wf(),
            m.mode == 0,
            !m.blender_enabled,
            m.should_push,
            !m.blender.dirty,
            !m.blender.has_done_step,
            m.blender.blend_amt == BLEND_STEP,
    {
        let mut palettes: Vec<Palette> = Vec::new();
        palettes.push(
            Palette {
                rock: Color { r: 1000, g: 0, b: 0 },
                paper: Color { r: 0, g: 1000, b: 0 },
                scissors: Color { r: 0, g: 0, b: 1000 },
            },
        );
        palettes.push(
            Palette {
                rock: Color { r: 0, g: 1000, b: 1000 },
                paper: Color { r: 1000, g: 0, b: 1000 },
                scissors: Color { r: 1000, g: 1000, b: 0 },
            },
        );
        palettes.push(
            Palette {
                rock: Color { r: 800, g: 0, b: 0 },
                paper: Color { r: 0, g: 800, b: 0 },
                scissors: Color { r: 0, g: 0, b: 800 },
            },
        );
        palettes.push(
            Palette {
                rock: Color { r: 0, g: 0, b: 0 },
                paper: Color { r: 500, g: 500, b: 500 },
                scissors: Color { r: 1000, g: 1000, b: 1000 },
            },
        );
        proof {
            assert(palettes@ =~= default_palettes());
        }
        ColorModes {
            mode: 0,
            palettes,
            blender: ColorBlender::new(BLEND_STEP),
            blender_enabled: false,
            should_push: true,
        }
    }

    /// Reads the active palette.
    pub fn active(&self) -> (p: Palette)
        requires
            self.wf(),
        ensures
            p == self.active_spec(),
    {
        self.palettes[self.mode]
    }

    /// The triple of the active palette, whatever the mode.
    pub fn active_colors(&self) -> (c: (Color, Color, Color))
        requires
            self.wf(),
        ensures
            c.0 == self.active_spec().rock,
            c.1 == self.active_spec().paper,
            c.2 == self.active_spec().scissors,
    {
        let p = self.active();
        (p.rock, p.paper, p.scissors)
    }

    /// The colors the device should currently show, from the active source.
    pub fn colors(&self) -> (c: (Color, Color, Color))
        requires
            self.wf(),
        ensures
            c == self.colors_spec(),
    {
        if self.blender_enabled {
            self.blender.colors()
        } else {
            self.active_colors()
        }
    }

    /// Cycles the active palette forward, wrapping past the last palette,
    /// and makes a push pending.
    pub fn next(&mut self)
        requires
            old(self).wf(),
        ensures
            final(self).wf(),
            final(self).mode == next_index(old(self).mode as int),
            final(self).should_push,
            final(self).palettes == old(self).palettes,
            final(self).blender == old(self).blender,
            final(self).blender_enabled == old(self).blender_enabled,
    {
        self.mode = (self.mode + 1) % PALETTE_COUNT;
        self.should_push = true;
    }

    /// Cycles the active palette backward, wrapping past the first palette,
    /// and makes a push pending.
    pub fn prev(&mut self)
        requires
            old(self).wf(),
        ensures
            final(self).wf(),
            final(self).mode == prev_index(old(self).mode as int),
            final(self).should_push,
            final(self).palettes == old(self).palettes,
            final(self).blender == old(self).blender,
            final(self).blender_enabled == old(self).blender_enabled,
    {
        self.mode = (self.mode + PALETTE_COUNT - 1) % PALETTE_COUNT;
        self.should_push = true;
    }

    /// Switches between the two color sources. Enabling captures the active
    /// palette as both current and target of every role, a seamless
    /// handoff; disabling returns authority to the palette and makes its
    /// push pending, since the device still shows blended colors.
    pub fn toggle_blender(&mut self)
        requires
            old(self).wf(),
        ensures
            final(self).wf(),
            final(self).blender_enabled == !old(self).blender_enabled,
            final(self).mode == old(self).mode,
            final(self).palettes == old(self).palettes,
            !old(self).blender_enabled ==> final(self).blender == reset_spec(
                old(self).blender,
                old(self).active_spec().rock,
                old(self).active_spec().paper,
                old(self).active_spec().scissors,
            ),
            !old(self).blender_enabled ==> final(self).should_push == old(self).should_push,
            old(self).blender_enabled ==> final(self).blender == old(self).blender,
            old(self).blender_enabled ==> final(self).should_push,
    {
        if !self.blender_enabled {
            let (r, p, s) = self.active_colors();
            self.blender.reset(r, p, s);
            self.blender_enabled = true;
        } else {
            self.blender_enabled = false;
            self.should_push = true;
        }
    }

    /// Advances the color animation one tick: steps the walk while the
    /// blender is authoritative, else keeps the blender aligned with the
    /// active palette without making a push pending.
    pub fn tick(&mut self)
        requires
            old(self).wf(),
        ensures
            final(self).wf(),
            !old(self).blender_enabled ==> *final(self) == palette_tick_spec(*old(self)),
            old(self).blender_enabled ==> {
                &&& final(self).mode == old(self).mode
                &&& final(self).palettes == old(self).palettes
                &&& final(self).blender_enabled
                &&& final(self).should_push == old(self).should_push
                &&& step_relation(old(self).blender, final(self).blender)
            },
    {
        if self.blender_enabled {
            self.blender.step();
        } else {
            let (r, p, s) = self.active_colors();
            self.blender.reset(r, p, s);
        }
    }

    /// The per-tick sync decision: hands out the colors to write to the
    /// device exactly when the active source reports stale data, clearing
    /// the flag; otherwise no device write is owed and nothing changes.
    pub fn sync(&mut self) -> (r: Option<(Color, Color, Color)>)
        requires
            old(self).wf(),
        ensures
            final(self).wf(),
            r is Some <==> old(self).sync_pending(),
            !final(self).sync_pending(),
            r matches Some(c) ==> c == old(self).colors_spec(),
            r is None ==> *final(self) == *old(self),
            final(self).mode == old(self).mode,
            final(self).palettes == old(self).palettes,
            final(self).blender_enabled == old(self).blender_enabled,
            old(self).blender_enabled ==> {
                &&& !final(self).blender.dirty
                &&& final(self).blender == (ColorBlender { dirty: false, ..old(self).blender })
                &&& final(self).should_push == old(self).should_push
            },
            !old(self).blender_enabled ==> {
                &&& final(self).blender == old(self).blender
                &&& !final(self).should_push
            },
    {
        if self.blender_enabled {
            if self.blender.dirty {
                self.blender.dirty = false;
                Some(self.blender.colors())
            } else {
                None
            }
        } else {
            if self.should_push {
                self.should_push = false;
                Some(self.active_colors())
            } else {
                None
            }
        }
    }
}

/// Palette cycling closes: from any starting index one forward then one
/// backward cycle, or one backward then one forward cycle, returns to the
/// original palette, and both directions wrap at the ends of the table.
pub proof fn lemma_palette_cycle_roundtrip(m: int)
    requires
        0 <= m < PALETTE_COUNT,
    ensures
        prev_index(next_index(m)) == m,
        next_index(prev_index(m)) == m,
        next_index(PALETTE_COUNT - 1) == 0,
        prev_index(0) == PALETTE_COUNT - 1,
{
}

/// Dirty-sync minimality: while the palette source is active and already
/// synced, any number of ticks with no cycle or toggle calls leaves no sync
/// pending, so the device color buffer is written at most once per mode
/// entry and never on subsequent ticks.
pub proof fn lemma_dirty_sync_minimality(m: ColorModes, k: nat)
    requires
        !m.blender_enabled,
        !m.should_push,
    ensures
        !iterate_palette_ticks(m, k).blender_enabled,
        !iterate_palette_ticks(m, k).should_push,
        !iterate_palette_ticks(m, k).sync_pending(),
    decreases k,
{
    if k > 0 {
        lemma_dirty_sync_minimality(m, (k - 1) as nat);
    }
}

} // verus!
