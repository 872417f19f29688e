//! Scrolling multi-tile waterfall state: write head, view head, ping-pong
//! roles, and the per-frame tile selections handed to the render passes.

use vstd::prelude::*;

verus! {

use vstd::arithmetic::div_mod::lemma_add_mod_noop;
use vstd::arithmetic::div_mod::lemma_fundamental_div_mod;
use vstd::arithmetic::div_mod::lemma_fundamental_div_mod_converse_div;
use vstd::arithmetic::div_mod::lemma_mod_self_0;
use vstd::arithmetic::div_mod::lemma_small_mod;

/// Width of one history tile, in frequency bins.
pub const TEXTURE_WIDTH: u32 = 2048;
/// Height of one history tile, in spectrum rows.
pub const TEXTURE_HEIGHT: u32 = 1024;
/// Number of history tiles; a scratch tile exists beyond these.
pub const NUM_TILES: u32 = 8;
/// Total number of rows the tiled history can hold; the write head wraps here.
pub const MAX_HEIGHT: u32 = NUM_TILES * TEXTURE_HEIGHT;
/// Index of the scratch tile used as the alternating render target.
pub const SCRATCH_TILE: u32 = NUM_TILES;
/// Largest lag, in rows, that the view head may take behind the write head.
/// One tile of slack is reserved so the view never reaches the tile being
/// written.
pub const MAX_TIME_POSITION: u32 = (NUM_TILES - 1) * TEXTURE_HEIGHT - 1;

/// One row-injection render pass: shift `back` by one row, paint the new row,
/// and write the result into `front`. `target` is the tile that logically owns
/// the newest row; `row_in_tile` is that row's index inside it.
#[derive(Clone, Copy, PartialEq, Eq, Structural, Debug)]
pub struct InjectPass {
    pub target: u32,
    pub front: u32,
    pub back: u32,
    pub row_in_tile: u32,
}

/// One composite render pass: draw `tex0` over `tex1`, split `offset` rows
/// into the pair, through the colormap, onto the screen.
#[derive(Clone, Copy, PartialEq, Eq, Structural, Debug)]
pub struct CompositePass {
    pub tex0: u32,
    pub tex1: u32,
    pub offset: u32,
}

/// Both render passes of one display tick.
#[derive(Clone, Copy, PartialEq, Eq, Structural, Debug)]
pub struct FrameUpdate {
    pub inject: InjectPass,
    pub composite: CompositePass,
}

/// Index state of the scrolling waterfall: the write head (`y_offset`), the
/// view head (`time_position`, a lag in rows behind the write head), the
/// ping-pong bit choosing front/back roles, and the follow flag.
#[derive(Clone, Copy, PartialEq, Eq, Structural, Debug)]
pub struct WaterfallPlot {
    /// Row index of the most recently injected spectrum row, modulo `MAX_HEIGHT`.
    pub y_offset: u32,
    /// How many rows behind the live edge the view currently sits.
    pub time_position: u32,
    /// Alternates 0/1 every injection so one pass's render target is the next
    /// pass's render source.
    pub pingpong: u32,
    /// True while the view follows the live edge (`time_position == 0`).
    pub scroll_advance: bool,
    /// Screen viewport width, in pixels.
    pub window_width: u32,
    /// Screen viewport height, in pixels.
    pub window_height: u32,
}

impl WaterfallPlot {
    /// Well-formedness: both heads in range, the ping-pong bit a bit, and the
    /// follow flag in step with the view head.
    pub open spec fn wf(self) -> bool {
        &&& self.y_offset < MAX_HEIGHT
        &&& self.time_position <= MAX_TIME_POSITION
        &&& self.pingpong < 2
        &&& (self.scroll_advance <==> self.time_position == 0)
    }

    /// The freshly created state: both heads at zero, following the live edge.
    pub open spec fn spec_init() -> WaterfallPlot {
        WaterfallPlot {
            y_offset: 0,
            time_position: 0,
            pingpong: 0,
            scroll_advance: true,
            window_width: 1024,
            window_height: 1024,
        }
    }

    /// The tile that owns the row `y_offset`: the current write target.
    pub open spec fn spec_target_tile(self) -> u32 {
        self.y_offset / TEXTURE_HEIGHT
    }

    /// The tile written by the most recent injection, already finalized: the
    /// target tile after an odd-numbered injection, the scratch tile after an
    /// even-numbered one.
    pub open spec fn spec_front_tile(self) -> u32 {
        if self.pingpong == 1 {
            self.spec_target_tile()
        } else {
            SCRATCH_TILE
        }
    }

    /// State after injecting one row: the write head advances by one, wrapping
    /// modulo `MAX_HEIGHT`, and the ping-pong roles flip.
    pub open spec fn spec_inject(self) -> WaterfallPlot {
        WaterfallPlot {
            y_offset: (((self.y_offset + 1) % (MAX_HEIGHT as int)) as u32),
            pingpong: if self.pingpong == 0 { 1u32 } else { 0u32 },
            ..self
        }
    }

    /// The injection pass issued while moving to `self.spec_inject()`: the
    /// pre-flip ping-pong bit decides which of target and scratch is read and
    /// which is written.
    pub open spec fn spec_inject_pass(self) -> InjectPass {
        let next = self.spec_inject();
        InjectPass {
            target: next.spec_target_tile(),
            front: if self.pingpong == 0 { next.spec_target_tile() } else { SCRATCH_TILE },
            back: if self.pingpong == 0 { SCRATCH_TILE } else { next.spec_target_tile() },
            row_in_tile: ((next.y_offset % TEXTURE_HEIGHT) as u32),
        }
    }

    /// State after one display tick's view-head aging: a paused view keeps its
    /// distance from the live edge growing by one row per injected row, up to
    /// the clamp.
    pub open spec fn spec_advance(self) -> WaterfallPlot {
        if !self.scroll_advance && self.time_position < MAX_TIME_POSITION {
            WaterfallPlot { time_position: (self.time_position + 1) as u32, ..self }
        } else {
            self
        }
    }

    /// A view-head position clamped into `[0, MAX_TIME_POSITION]`.
    pub open spec fn spec_clamp_time(pos: int) -> int {
        if pos < 0 {
            0
        } else if pos > MAX_TIME_POSITION {
            MAX_TIME_POSITION as int
        } else {
            pos
        }
    }

    /// The absolute row the view is anchored at: the write head minus the view
    /// lag, wrapped modulo `MAX_HEIGHT`.
    pub open spec fn spec_scroll_offset(self) -> int {
        (self.y_offset + MAX_HEIGHT - self.time_position) % (MAX_HEIGHT as int)
    }

    /// Row offset of the view anchor inside the tile that holds it.
    pub open spec fn spec_sub_tile_offset(self) -> int {
        self.spec_scroll_offset() % (TEXTURE_HEIGHT as int)
    }

    /// The tile holding the view anchor.
    pub open spec fn spec_tex_idx0(self) -> int {
        self.spec_scroll_offset() / (TEXTURE_HEIGHT as int)
    }

    /// The tile just above it in history, adjacent modulo `NUM_TILES`.
    pub open spec fn spec_tex_idx1(self) -> int {
        (self.spec_tex_idx0() - 1) % (NUM_TILES as int)
    }

    /// The composite pass for the current state: the two tiles straddling the
    /// view window, with the write target substituted by the just-finalized
    /// front tile so the pass never reads a torn buffer.
    pub open spec fn spec_composite(self) -> CompositePass {
        let target = self.spec_target_tile();
        let front = self.spec_front_tile();
        CompositePass {
            tex0: if self.spec_tex_idx0() == target {
                front
            } else {
                self.spec_tex_idx0() as u32
            },
            tex1: if self.spec_tex_idx1() == target {
                front
            } else {
                self.spec_tex_idx1() as u32
            },
            offset: self.spec_sub_tile_offset() as u32,
        }
    }

    /// Fresh plot state, following the live edge.
    pub fn new() -> (plot: WaterfallPlot)
        ensures
            plot == WaterfallPlot::spec_init(),
            plot.wf(),
    {
        WaterfallPlot {
            y_offset: 0,
            time_position: 0,
            pingpong: 0,
            scroll_advance: true,
            window_width: 1024,
            window_height: 1024,
        }
    }

    /// Advance the write head by one row and flip the ping-pong roles; the
    /// returned pass reads one of (target tile, scratch tile) and writes the
    /// other, so a pass never reads its own render target.
    pub fn inject(&mut self) -> (pass: InjectPass)
        requires
            old(self).wf(),
        ensures
            final(self).wf(),
            *final(self) == old(self).spec_inject(),
            pass == old(self).spec_inject_pass(),
            pass.target < NUM_TILES,
            pass.front <= NUM_TILES,
            pass.back <= NUM_TILES,
            pass.front != pass.back,
            pass.front == final(self).spec_front_tile(),
            pass.row_in_tile < TEXTURE_HEIGHT,
    {
        self.y_offset = (self.y_offset + 1) % MAX_HEIGHT;
        let target = self.y_offset / TEXTURE_HEIGHT;
        let (front, back) = if self.pingpong == 0 {
            (target, SCRATCH_TILE)
        } else {
            (SCRATCH_TILE, target)
        };
        let row_in_tile = self.y_offset % TEXTURE_HEIGHT;
        self.pingpong = if self.pingpong == 0 { 1 } else { 0 };
        InjectPass { target, front, back, row_in_tile }
    }

    /// Age the view head one row when it is not following the live edge, so a
    /// paused view keeps a constant position in history while new rows arrive
    /// underneath.
    pub fn advance_if_following(&mut self)
        requires
            old(self).wf(),
        ensures
            final(self).wf(),
            *final(self) == old(self).spec_advance(),
    {
        if !self.scroll_advance && self.time_position < MAX_TIME_POSITION {
            self.time_position = self.time_position + 1;
        }
    }

    /// Whether the view follows the live edge.
    pub fn is_following(&self) -> (following: bool)
        requires
            self.wf(),
        ensures
            following == self.scroll_advance,
            following == (self.time_position == 0),
    {
        self.scroll_advance
    }

    /// Move the view head by `delta` rows, clamped into
    /// `[0, MAX_TIME_POSITION]`; the view follows the live edge again exactly
    /// when the clamped position is zero. No delta can push the view head out
    /// of range.
    pub fn scroll(&mut self, delta: i32)
        requires
            old(self).wf(),
        ensures
            final(self).wf(),
            final(self).time_position == WaterfallPlot::spec_clamp_time(
                old(self).time_position + delta,
            ),
            final(self).scroll_advance == (final(self).time_position == 0),
            final(self).y_offset == old(self).y_offset,
            final(self).pingpong == old(self).pingpong,
            final(self).window_width == old(self).window_width,
            final(self).window_height == old(self).window_height,
    {
        let moved: i64 = self.time_position as i64 + delta as i64;
        let clamped: i64 = if moved < 0 {
            0
        } else if moved > MAX_TIME_POSITION as i64 {
            MAX_TIME_POSITION as i64
        } else {
            moved
        };
        self.time_position = clamped as u32;
        self.scroll_advance = self.time_position == 0;
    }

    /// Pick the two tiles straddling the current view window and the sub-tile
    /// row offset between them. A pure function of the state: repeated calls
    /// with no intervening mutation return the same pass.
    pub fn composite_plan(&self) -> (pass: CompositePass)
        requires
            self.wf(),
        ensures
            pass == self.spec_composite(),
            pass.tex0 <= NUM_TILES,
            pass.tex1 <= NUM_TILES,
            pass.offset < TEXTURE_HEIGHT,
    {
        let target = self.y_offset / TEXTURE_HEIGHT;
        let front = if self.pingpong == 1 { target } else { SCRATCH_TILE };
        let scroll_offset = (self.y_offset + MAX_HEIGHT - self.time_position) % MAX_HEIGHT;
        let offset = scroll_offset % TEXTURE_HEIGHT;
        let tex_idx0 = scroll_offset / TEXTURE_HEIGHT;
        let tex_idx1 = (tex_idx0 + NUM_TILES - 1) % NUM_TILES;
        proof {
            assert(self.spec_tex_idx1() == ((tex_idx0 + NUM_TILES - 1) % (NUM_TILES as int)))
                by {
                lemma_add_mod_noop(
                    self.spec_tex_idx0() - 1,
                    NUM_TILES as int,
                    NUM_TILES as int,
                );
                lemma_small_mod((NUM_TILES - 1) as nat, NUM_TILES as nat);
            };
        }
        let tex0 = if tex_idx0 == target { front } else { tex_idx0 };
        let tex1 = if tex_idx1 == target { front } else { tex_idx1 };
        CompositePass { tex0, tex1, offset }
    }

    /// One full display tick: inject the new row, age a paused view, and plan
    /// the composite that paints the result.
    pub fn update_plot(&mut self) -> (update: FrameUpdate)
        requires
            old(self).wf(),
        ensures
            final(self).wf(),
            *final(self) == old(self).spec_inject().spec_advance(),
            update.inject == old(self).spec_inject_pass(),
            update.composite == old(self).spec_inject().spec_advance().spec_composite(),
    {
        let inject = self.inject();
        self.advance_if_following();
        let composite = self.composite_plan();
        FrameUpdate { inject, composite }
    }

    /// Record a new screen viewport size.
    pub fn set_window_size(&mut self, width: u32, height: u32)
        requires
            old(self).wf(),
        ensures
            final(self).wf(),
            *final(self) == (WaterfallPlot {
                window_width: width,
                window_height: height,
                ..*old(self)
            }),
    {
        self.window_width = width;
        self.window_height = height;
    }
}

/// The state after `k` row injections from `plot`, with no scrolling between
/// them.
pub open spec fn spec_inject_n(plot: WaterfallPlot, k: nat) -> WaterfallPlot
    decreases k,
{
    if k == 0 {
        plot
    } else {
        spec_inject_n(plot, (k - 1) as nat).spec_inject()
    }
}

/// The view head can never leave `[0, MAX_TIME_POSITION]`: every scroll delta,
/// however large, lands inside the range after clamping, and neither injecting
/// a row nor aging the view takes a well-formed state out of well-formedness.
pub proof fn lemma_view_head_bounded(plot: WaterfallPlot, delta: int)
    requires
        plot.wf(),
    ensures
        0 <= WaterfallPlot::spec_clamp_time(plot.time_position + delta) <= MAX_TIME_POSITION,
        plot.spec_inject().wf(),
        plot.spec_advance().wf(),
{
}

/// Injection alone never disturbs the view: after `k` injections from the
/// initial state the write head equals `k` modulo the history height, while
/// the view head still follows the live edge at lag zero.
pub proof fn lemma_injections_follow(k: nat)
    ensures
        spec_inject_n(WaterfallPlot::spec_init(), k).wf(),
        spec_inject_n(WaterfallPlot::spec_init(), k).y_offset == k % (MAX_HEIGHT as nat),
        spec_inject_n(WaterfallPlot::spec_init(), k).time_position == 0,
        spec_inject_n(WaterfallPlot::spec_init(), k).scroll_advance,
    decreases k,
{
    if k == 0 {
        lemma_small_mod(0, MAX_HEIGHT as nat);
    } else {
        lemma_injections_follow((k - 1) as nat);
        let prev = spec_inject_n(WaterfallPlot::spec_init(), (k - 1) as nat);
        lemma_view_head_bounded(prev, 0);
        assert(((prev.y_offset + 1) % (MAX_HEIGHT as int)) == k % (MAX_HEIGHT as nat)) by {
            lemma_add_mod_noop((k - 1) as int, 1, MAX_HEIGHT as int);
            lemma_small_mod(1, MAX_HEIGHT as nat);
        };
    }
}

/// Redrawing is idempotent: any two composite passes computed from the same
/// state, with no injection or scroll between them, are identical.
pub proof fn lemma_draw_idempotent(
    plot: WaterfallPlot,
    first: CompositePass,
    second: CompositePass,
)
    requires
        first == plot.spec_composite(),
        second == plot.spec_composite(),
    ensures
        first == second,
{
}

/// Crossing a tile boundary is seamless: when the scroll offset advances by
/// one row and lands on a tile boundary, the leading composite tile advances
/// by exactly one modulo `NUM_TILES` and the sub-tile offset resets to zero.
pub proof fn lemma_tile_boundary(before: WaterfallPlot, after: WaterfallPlot)
    requires
        before.wf(),
        after.wf(),
        after.spec_scroll_offset() == (before.spec_scroll_offset() + 1) % (MAX_HEIGHT as int),
        after.spec_sub_tile_offset() == 0,
    ensures
        after.spec_tex_idx0() == (before.spec_tex_idx0() + 1) % (NUM_TILES as int),
{
    let o = before.spec_scroll_offset();
    let o2 = after.spec_scroll_offset();
    let h = TEXTURE_HEIGHT as int;
    assert(0 <= o < MAX_HEIGHT);
    if o == MAX_HEIGHT - 1 {
        assert(o2 == 0) by {
            lemma_mod_self_0(MAX_HEIGHT as int);
        };
        assert(before.spec_tex_idx0() == NUM_TILES - 1) by {
            lemma_fundamental_div_mod_converse_div(o, h, (NUM_TILES - 1) as int, h - 1);
        };
        assert(after.spec_tex_idx0() == 0) by {
            lemma_fundamental_div_mod_converse_div(0, h, 0, 0);
        };
        assert((before.spec_tex_idx0() + 1) % (NUM_TILES as int) == 0) by {
            lemma_mod_self_0(NUM_TILES as int);
        };
    } else {
        assert(o2 == o + 1) by {
            lemma_small_mod((o + 1) as nat, MAX_HEIGHT as nat);
        };
        let d2 = after.spec_tex_idx0();
        assert(o2 == h * d2) by {
            lemma_fundamental_div_mod(o2, h);
        };
        assert(1 <= d2 <= NUM_TILES - 1) by {
            lemma_fundamental_div_mod(o2, h);
        };
        assert(before.spec_tex_idx0() == d2 - 1) by {
            lemma_fundamental_div_mod_converse_div(o, h, d2 - 1, h - 1);
        };
        assert((d2 - 1 + 1) % (NUM_TILES as int) == d2) by {
            lemma_small_mod(d2 as nat, NUM_TILES as nat);
        };
    }
}

} // verus!

