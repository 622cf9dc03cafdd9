//! The frame orchestrator: an explicit state machine that sequences per-frame
//! work — simulate when the tick interval elapsed, plan the presentation pass,
//! classify acquisition failures — and owns the selected-buffer index.
//!
//! The plumbing around the library performs the returned dispatch and render
//! plans against the GPU and feeds window signals and acquisition outcomes
//! back in; every decision is taken here.

use vstd::prelude::*;
use crate::binding::{BindingSet, BindingTable};
use crate::clock::SimClock;
use crate::geometry::quad_vertex_count;
use crate::geometry::unit_quad_tenths_spec;

verus! {

/// Side of the square compute tile a single workgroup covers.
pub const SIM_TILE: usize = 8;

/// Default grid extent, cells per side.
pub const DEFAULT_GRID_SIZE: usize = 512;

/// Default simulation tick interval in milliseconds.
pub const DEFAULT_TICK_INTERVAL_MS: u64 = 8;

/// Default initial alive probability, as a ratio: 2 / 5.
pub const DEFAULT_ALIVE_NUMERATOR: u32 = 2;

/// Denominator of the default initial alive probability.
pub const DEFAULT_ALIVE_DENOMINATOR: u32 = 5;

/// Buffer id of the first grid buffer, the one seeded at start.
pub const GRID_BUFFER_A: usize = 0;

/// Buffer id of the second grid buffer.
pub const GRID_BUFFER_B: usize = 1;

/// Buffer id of the dimensions uniform.
pub const UNIFORM_BUFFER: usize = 2;

/// Lifecycle of the frame loop.
#[derive(Clone, Copy, PartialEq, Eq, Structural, Debug)]
pub enum Phase {
    Ready,
    SurfaceLost,
    Fatal,
    Closed,
}

/// A signal handed in from the windowing collaborator.
#[derive(Clone, Copy, PartialEq, Eq, Structural, Debug)]
pub enum WindowSignal {
    CloseRequested,
    EscapePressed,
    RedrawRequested,
    Resized { width: u32, height: u32 },
    Other,
}

/// What the loop must do with a window signal.
#[derive(Clone, Copy, PartialEq, Eq, Structural, Debug)]
pub enum EventAction {
    Exit,
    RunFrame,
    Reconfigure,
    Ignore,
}

/// How acquiring the presentation target failed.
#[derive(Clone, Copy, PartialEq, Eq, Structural, Debug)]
pub enum AcquireError {
    Lost,
    Outdated,
    OutOfMemory,
    Other,
}

/// What the loop must do after a failed acquisition.
#[derive(Clone, Copy, PartialEq, Eq, Structural, Debug)]
pub enum FrameAction {
    ReconfigureAndSkip,
    Stop,
    SkipFrame,
}

/// The fixed background colour, channels in thousandths.
#[derive(Clone, Copy, PartialEq, Eq, Structural, Debug)]
pub struct ClearColor {
    pub red: u32,
    pub green: u32,
    pub blue: u32,
    pub alpha: u32,
}

/// The background the target is cleared to: a dark blue.
pub open spec fn background_colour() -> ClearColor {
    ClearColor { red: 0, green: 50, blue: 200, alpha: 1000 }
}

/// One simulation dispatch: which binding set to bind and how many workgroups
/// cover the grid.
#[derive(Clone, Copy, PartialEq, Eq, Structural, Debug)]
pub struct SimDispatch {
    pub binding: BindingSet,
    pub binding_index: usize,
    pub workgroups_x: usize,
    pub workgroups_y: usize,
}

/// One presentation pass: which binding set to read, how many instances to
/// draw with how many vertices each, and the clear colour.
#[derive(Clone, Copy, PartialEq, Eq, Structural, Debug)]
pub struct RenderPlan {
    pub binding: BindingSet,
    pub binding_index: usize,
    pub instances: usize,
    pub vertices: usize,
    pub clear: ClearColor,
}

/// Number of tiles of width `tile` needed to cover `extent` cells: enough
/// that every cell falls in a tile, and no entirely superfluous tile.
pub fn tiles_to_cover(extent: usize, tile: usize) -> (r: usize)
    requires
        tile > 0,
        extent + tile <= usize::MAX,
    ensures
        r * tile >= extent,
        extent > 0 ==> (r - 1) * tile < extent,
        extent == 0 ==> r == 0,
{
    let r = (extent + tile - 1) / tile;
    proof {
        let n = extent as int;
        let t = tile as int;
        vstd::arithmetic::div_mod::lemma_fundamental_div_mod(n + t - 1, t);
        vstd::arithmetic::div_mod::lemma_mod_bound(n + t - 1, t);
        let q = (n + t - 1) / t;
        let m = (n + t - 1) % t;
        assert(q * t == n + t - 1 - m) by (nonlinear_arith)
            requires
                n + t - 1 == t * q + m,
        ;
        assert((q - 1) * t == q * t - t) by (nonlinear_arith);
    }
    r
}

/// The orchestrator context: the single owned bundle of mutable frame state.
pub struct Orchestrator {
    pub grid_width: usize,
    pub grid_height: usize,
    pub table: BindingTable,
    pub selected: usize,
    pub tick_count: u64,
    pub clock: SimClock,
    pub surface_width: u32,
    pub surface_height: u32,
    pub phase: Phase,
}

impl Orchestrator {
    /// Invariants the frame loop maintains: the selected index is a bit tied
    /// to the tick parity, the binding table is the mirrored pair, the clock
    /// interval is positive and the grid is non-degenerate.
    pub open spec fn wf(self) -> bool {
        &&& self.selected < 2
        &&& self.selected as int == self.tick_count as int % 2
        &&& self.table.wf()
        &&& self.clock.interval > 0
        &&& 0 < self.grid_width
        &&& 0 < self.grid_height
        &&& self.grid_width * self.grid_height <= usize::MAX
        &&& self.grid_width + SIM_TILE <= usize::MAX
        &&& self.grid_height + SIM_TILE <= usize::MAX
    }

    /// The same context with another phase.
    pub open spec fn with_phase(self, phase: Phase) -> Orchestrator {
        Orchestrator { phase, ..self }
    }

    /// The same context with another surface size.
    pub open spec fn with_surface(self, width: u32, height: u32) -> Orchestrator {
        Orchestrator { surface_width: width, surface_height: height, ..self }
    }

    /// Set up the context once: binding set 0 reads the seeded buffer, the
    /// selected index starts at 0, no tick has run yet.
    pub fn new(
        grid_width: usize,
        grid_height: usize,
        tick_interval: u64,
        start_time: u64,
        surface_width: u32,
        surface_height: u32,
    ) -> (r: Orchestrator)
        requires
            0 < grid_width,
            0 < grid_height,
            grid_width * grid_height <= usize::MAX,
            grid_width + SIM_TILE <= usize::MAX,
            grid_height + SIM_TILE <= usize::MAX,
            0 < tick_interval,
        ensures
            r.wf(),
            r.grid_width == grid_width,
            r.grid_height == grid_height,
            r.selected == 0,
            r.tick_count == 0,
            r.clock.interval == tick_interval,
            r.clock.last_tick == start_time,
            r.surface_width == surface_width,
            r.surface_height == surface_height,
            r.phase == Phase::Ready,
            r.table.spec_select(0) == (BindingSet {
                uniform: UNIFORM_BUFFER,
                read: GRID_BUFFER_A,
                write: GRID_BUFFER_B,
            }),
            r.table.spec_select(1) == (BindingSet {
                uniform: UNIFORM_BUFFER,
                read: GRID_BUFFER_B,
                write: GRID_BUFFER_A,
            }),
    {
        Orchestrator {
            grid_width,
            grid_height,
            table: BindingTable::build(UNIFORM_BUFFER, GRID_BUFFER_A, GRID_BUFFER_B),
            selected: 0,
            tick_count: 0,
            clock: SimClock::new(tick_interval, start_time),
            surface_width,
            surface_height,
            phase: Phase::Ready,
        }
    }

    /// Per-frame simulation decision: dispatch exactly when a full tick
    /// interval has elapsed — never more than once per frame — using the
    /// currently selected binding set, then toggle the selection and record
    /// the tick; otherwise leave everything untouched.
    pub fn maybe_simulate(&mut self, now: u64) -> (d: Option<SimDispatch>)
        requires
            old(self).wf(),
            old(self).phase == Phase::Ready,
            now >= old(self).clock.last_tick,
            old(self).tick_count < u64::MAX,
        ensures
            final(self).wf(),
            d is Some <==> old(self).clock.due(now),
            match d {
                Some(sd) => {
                    &&& sd.binding_index == old(self).selected
                    &&& sd.binding == old(self).table.spec_select(old(self).selected as int)
                    &&& sd.workgroups_x * SIM_TILE >= old(self).grid_width
                    &&& (sd.workgroups_x - 1) * SIM_TILE < old(self).grid_width
                    &&& sd.workgroups_y * SIM_TILE >= old(self).grid_height
                    &&& (sd.workgroups_y - 1) * SIM_TILE < old(self).grid_height
                    &&& final(self).selected == 1 - old(self).selected
                    &&& final(self).tick_count == old(self).tick_count + 1
                    &&& final(self).clock.last_tick == now
                },
                None => *final(self) == *old(self),
            },
            final(self).grid_width == old(self).grid_width,
            final(self).grid_height == old(self).grid_height,
            final(self).table == old(self).table,
            final(self).phase == old(self).phase,
            final(self).surface_width == old(self).surface_width,
            final(self).surface_height == old(self).surface_height,
            final(self).clock.interval == old(self).clock.interval,
    {
        if !self.clock.should_tick(now) {
            return None;
        }
        let wx = tiles_to_cover(self.grid_width, SIM_TILE);
        let wy = tiles_to_cover(self.grid_height, SIM_TILE);
        let d = SimDispatch {
            binding: self.table.select(self.selected),
            binding_index: self.selected,
            workgroups_x: wx,
            workgroups_y: wy,
        };
        self.clock.record_tick(now);
        self.selected = 1 - self.selected;
        self.tick_count = self.tick_count + 1;
        Some(d)
    }

    /// Plan this frame's presentation pass: read through the currently
    /// selected binding set, draw one quad instance per grid cell over the
    /// fixed background.
    pub fn plan_render(&self) -> (p: RenderPlan)
        requires
            self.wf(),
            self.phase == Phase::Ready,
        ensures
            p.binding_index == self.selected,
            p.binding == self.table.spec_select(self.selected as int),
            p.instances == self.grid_width * self.grid_height,
            p.vertices == 6,
            p.vertices * 2 == unit_quad_tenths_spec().len(),
            p.clear == background_colour(),
    {
        RenderPlan {
            binding: self.table.select(self.selected),
            binding_index: self.selected,
            instances: self.grid_width * self.grid_height,
            vertices: quad_vertex_count(),
            clear: ClearColor { red: 0, green: 50, blue: 200, alpha: 1000 },
        }
    }

    /// A resize signal updates the surface dimensions; the caller
    /// reconfigures the surface before the next acquisition.
    pub fn resize(&mut self, width: u32, height: u32)
        ensures
            *final(self) == old(self).with_surface(width, height),
    {
        self.surface_width = width;
        self.surface_height = height;
    }

    /// Transition on a window signal: close or escape tears the loop down, a
    /// redraw request runs a frame, a resize reconfigures, anything else is
    /// ignored.
    pub fn handle_signal(&mut self, signal: WindowSignal) -> (a: EventAction)
        ensures
            match signal {
                WindowSignal::CloseRequested | WindowSignal::EscapePressed => {
                    &&& a == EventAction::Exit
                    &&& *final(self) == old(self).with_phase(Phase::Closed)
                },
                WindowSignal::RedrawRequested => {
                    &&& a == EventAction::RunFrame
                    &&& *final(self) == *old(self)
                },
                WindowSignal::Resized { width, height } => {
                    &&& a == EventAction::Reconfigure
                    &&& *final(self) == old(self).with_surface(width, height)
                },
                WindowSignal::Other => {
                    &&& a == EventAction::Ignore
                    &&& *final(self) == *old(self)
                },
            },
    {
        match signal {
            WindowSignal::CloseRequested | WindowSignal::EscapePressed => {
                self.phase = Phase::Closed;
                EventAction::Exit
            },
            WindowSignal::RedrawRequested => EventAction::RunFrame,
            WindowSignal::Resized { width, height } => {
                self.resize(width, height);
                EventAction::Reconfigure
            },
            WindowSignal::Other => EventAction::Ignore,
        }
    }

    /// Classify a failed target acquisition: a lost or outdated surface is
    /// reconfigured and the frame skipped; out of memory is fatal; any other
    /// error is logged by the caller and the frame skipped.
    pub fn on_acquire_error(&mut self, error: AcquireError) -> (a: FrameAction)
        requires
            old(self).phase == Phase::Ready,
        ensures
            match error {
                AcquireError::Lost | AcquireError::Outdated => {
                    &&& a == FrameAction::ReconfigureAndSkip
                    &&& *final(self) == old(self).with_phase(Phase::SurfaceLost)
                },
                AcquireError::OutOfMemory => {
                    &&& a == FrameAction::Stop
                    &&& *final(self) == old(self).with_phase(Phase::Fatal)
                },
                AcquireError::Other => {
                    &&& a == FrameAction::SkipFrame
                    &&& *final(self) == *old(self)
                },
            },
    {
        match error {
            AcquireError::Lost | AcquireError::Outdated => {
                self.phase = Phase::SurfaceLost;
                FrameAction::ReconfigureAndSkip
            },
            AcquireError::OutOfMemory => {
                self.phase = Phase::Fatal;
                FrameAction::Stop
            },
            AcquireError::Other => FrameAction::SkipFrame,
        }
    }

    /// The caller reconfigured the surface after a loss: back to ready.
    pub fn surface_reconfigured(&mut self)
        requires
            old(self).phase == Phase::SurfaceLost,
        ensures
            *final(self) == old(self).with_phase(Phase::Ready),
    {
        self.phase = Phase::Ready;
    }
}

/// One toggle of the selected-buffer bit.
pub open spec fn toggled(sel: int) -> int {
    1 - sel
}

/// The selected-buffer bit after `n` ticks, starting from 0.
pub open spec fn toggled_n(n: nat) -> int
    decreases n,
{
    if n == 0 {
        0
    } else {
        toggled(toggled_n((n - 1) as nat))
    }
}

/// Across `n` consecutive ticks the selected index, toggled once per tick
/// from 0, equals `n % 2`.
pub proof fn lemma_toggle_parity(n: nat)
    ensures
        toggled_n(n) == n % 2,
    decreases n,
{
    if n > 0 {
        lemma_toggle_parity((n - 1) as nat);
    }
}

/// A well-formed orchestrator keeps the selected index equal to its tick
/// count modulo 2; `maybe_simulate` both toggles it and advances the count,
/// so the equality survives every tick.
pub proof fn lemma_selected_parity(o: Orchestrator)
    requires
        o.wf(),
    ensures
        o.selected as int == o.tick_count as int % 2,
{
}

} // verus!
