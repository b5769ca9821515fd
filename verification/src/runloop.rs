//! The main loop's state: Init with its warm-up batch, then the
//! Running tick of sample, push, scale, compose.  The surrounding
//! process performs the outside work of each tick (the flush and the
//! fixed delay) and hands the outcomes back in as plain values.

use vstd::prelude::*;
use crate::chart::{frame_matches, ChartFrame, RenderError};
use crate::sample::Sample;
use crate::scale::{scale, spec_bounds};
use crate::source::{fresh_rng, random_below, SAMPLE_MAX_TENTHS};
use crate::window::{push_model, Window};

verus! {

/// Fixed capacity of the sliding window.
pub const WINDOW_CAPACITY: usize = 50;

/// Fixed x advance per tick, in tenths (0.2 units).
pub const X_STEP_TENTHS: u64 = 2;

/// Number of warm-up samples pushed before the first render, so the
/// first frame is not empty.
pub const WARMUP_SAMPLES: usize = 20;

/// Fixed tick interval the caller blocks for between ticks.
pub const TICK_INTERVAL_MS: u32 = 100;

/// A fatal failure while acquiring an external collaborator during
/// Init.  Each aborts startup; none is retried.
#[derive(Clone, Copy, PartialEq, Eq, Structural, Debug)]
pub enum InitError {
    Bus,
    Display,
    SampleSource,
}

/// The sample the next tick appends when the source hands back `y`.
pub open spec fn tick_sample(next_x: u64, y: u64) -> Sample {
    Sample { x: next_x, y }
}

/// The Running state: the window of recent samples and the x position
/// the next sample will take.
pub struct App {
    data: Window,
    x_offset: u64,
}

impl App {
    /// The samples currently held, oldest first.
    pub closed spec fn samples(&self) -> Seq<Sample> {
        self.data@
    }

    /// The x position the next pushed sample will take, in tenths.
    pub closed spec fn next_x(&self) -> u64 {
        self.x_offset
    }

    /// The Running-state invariant: the window is well formed at the
    /// fixed capacity, and every held sample lies before the next x
    /// position.
    pub closed spec fn wf(&self) -> bool {
        &&& self.data.wf()
        &&& self.data.capacity() == WINDOW_CAPACITY as nat
        &&& self.samples().len() > 0 ==> self.samples().last().x < self.next_x()
    }

    /// An empty Running state at the start of the x axis.
    pub fn new() -> (a: App)
        ensures
            a.wf(),
            a.samples() == Seq::<Sample>::empty(),
            a.next_x() == 0,
    {
        App { data: Window::new(WINDOW_CAPACITY), x_offset: 0 }
    }

    /// The x position the next pushed sample will take, for callers
    /// that must test it before a tick.
    pub fn x_position(&self) -> (x: u64)
        ensures
            x == self.next_x(),
    {
        self.x_offset
    }

    /// How many samples the window currently holds.
    pub fn sample_count(&self) -> (n: usize)
        ensures
            n == self.samples().len(),
    {
        self.data.len()
    }

    /// One tick's window mutation with an injected magnitude: appends
    /// the sample at the current x position, evicting the oldest when
    /// the window is full, and advances x by the fixed step.
    pub fn update_with(&mut self, y: u64)
        requires
            old(self).wf(),
            old(self).next_x() + X_STEP_TENTHS <= u64::MAX,
        ensures
            final(self).wf(),
            final(self).samples() == push_model(
                old(self).samples(),
                tick_sample(old(self).next_x(), y),
                WINDOW_CAPACITY as nat,
            ),
            final(self).next_x() == old(self).next_x() + X_STEP_TENTHS,
    {
        let s = Sample { x: self.x_offset, y };
        self.data.push(s);
        self.x_offset = self.x_offset + X_STEP_TENTHS;
    }

    /// One tick's window mutation with a freshly generated magnitude.
    pub fn update(&mut self)
        requires
            old(self).wf(),
            old(self).next_x() + X_STEP_TENTHS <= u64::MAX,
        ensures
            final(self).wf(),
            final(self).next_x() == old(self).next_x() + X_STEP_TENTHS,
            exists|y: u64|
                y < SAMPLE_MAX_TENTHS && final(self).samples() == push_model(
                    old(self).samples(),
                    tick_sample(old(self).next_x(), y),
                    WINDOW_CAPACITY as nat,
                ),
    {
        let mut rng = fresh_rng();
        let y = random_below(&mut rng, SAMPLE_MAX_TENTHS);
        self.update_with(y);
        proof {
            assert(y < SAMPLE_MAX_TENTHS && self.samples() == push_model(
                old(self).samples(),
                tick_sample(old(self).next_x(), y),
                WINDOW_CAPACITY as nat,
            ));
        }
    }

    /// One Running tick given the outcome of a fallible sample read:
    /// a reading is pushed as `update_with` does; a failed read is
    /// only reported by the caller and skipped — the window does not
    /// advance and no sentinel value is pushed.
    pub fn take_reading(&mut self, reading: Option<u64>)
        requires
            old(self).wf(),
            old(self).next_x() + X_STEP_TENTHS <= u64::MAX,
        ensures
            final(self).wf(),
            reading matches Some(y) ==> final(self).samples() == push_model(
                old(self).samples(),
                tick_sample(old(self).next_x(), y),
                WINDOW_CAPACITY as nat,
            ) && final(self).next_x() == old(self).next_x() + X_STEP_TENTHS,
            reading is None ==> *final(self) == *old(self),
    {
        match reading {
            Some(y) => self.update_with(y),
            None => (),
        }
    }

    /// One frame's pure composition: snapshot, bounds, labels, clipped
    /// trace.  Requires a non-empty window; the warm-up batch
    /// guarantees that before the first call.
    pub fn draw(&self) -> (f: ChartFrame)
        requires
            self.wf(),
            self.samples().len() > 0,
        ensures
            frame_matches(f, self.samples(), spec_bounds(self.samples())),
    {
        let snap = self.data.snapshot();
        let b = scale(&snap);
        crate::chart::compose_frame(&snap, b)
    }

    /// The Running state's treatment of one render outcome: a failed
    /// flush is transient, so the caller only reports it; the loop
    /// goes on and the window is untouched either way.
    pub fn note_render(&mut self, outcome: &Result<(), RenderError>) -> (fatal: bool)
        ensures
            *final(self) == *old(self),
            fatal == false,
    {
        match outcome {
            Ok(_) => false,
            Err(RenderError::Flush) => false,
        }
    }
}

/// The Init state: the caller brings up each collaborator and reports
/// the outcomes; any failure is fatal, and Running is never entered.
/// On success the window is pre-filled with the warm-up batch: one
/// freshly generated sample per warm-up tick, at x positions
/// `0, X_STEP_TENTHS, 2 * X_STEP_TENTHS, ...`.
pub fn start(bus_ok: bool, display_ok: bool, source_ok: bool) -> (r: Result<App, InitError>)
    ensures
        r is Ok <==> bus_ok && display_ok && source_ok,
        !bus_ok ==> r == Result::<App, InitError>::Err(InitError::Bus),
        bus_ok && !display_ok ==> r == Result::<App, InitError>::Err(InitError::Display),
        bus_ok && display_ok && !source_ok ==> r == Result::<App, InitError>::Err(
            InitError::SampleSource,
        ),
        r is Ok ==> r->Ok_0.wf() && r->Ok_0.samples().len() == WARMUP_SAMPLES
            && r->Ok_0.next_x() == WARMUP_SAMPLES * X_STEP_TENTHS,
        r is Ok ==> forall|i: int|
            0 <= i < WARMUP_SAMPLES ==> (#[trigger] r->Ok_0.samples()[i]).x == i * X_STEP_TENTHS
                && r->Ok_0.samples()[i].y < SAMPLE_MAX_TENTHS,
{
    if !bus_ok {
        return Err(InitError::Bus);
    }
    if !display_ok {
        return Err(InitError::Display);
    }
    if !source_ok {
        return Err(InitError::SampleSource);
    }
    let mut app = App::new();
    let mut i: usize = 0;
    while i < WARMUP_SAMPLES
        invariant
            app.wf(),
            i <= WARMUP_SAMPLES,
            app.samples().len() == i,
            app.next_x() == i * X_STEP_TENTHS,
            forall|j: int|
                0 <= j < i ==> (#[trigger] app.samples()[j]).x == j * X_STEP_TENTHS
                    && app.samples()[j].y < SAMPLE_MAX_TENTHS,
        decreases WARMUP_SAMPLES - i,
    {
        let ghost pre = app;
        app.update();
        proof {
            let y = choose|y: u64|
                y < SAMPLE_MAX_TENTHS && app.samples() == push_model(
                    pre.samples(),
                    tick_sample(pre.next_x(), y),
                    WINDOW_CAPACITY as nat,
                );
            assert(app.samples() == pre.samples().push(tick_sample(pre.next_x(), y)));
            assert forall|j: int|
                0 <= j < i + 1 implies (#[trigger] app.samples()[j]).x == j * X_STEP_TENTHS
                    && app.samples()[j].y < SAMPLE_MAX_TENTHS by {
                if j < i {
                    assert(app.samples()[j] == pre.samples()[j]);
                } else {
                    assert(app.samples()[j] == tick_sample(pre.next_x(), y));
                }
            }
        }
        i += 1;
    }
    Ok(app)
}

/// What one render outcome does to the window: nothing, per
/// `App::note_render`'s contract — a flush failure is transient.
pub open spec fn render_step(w: Seq<Sample>, render_ok: bool) -> Seq<Sample> {
    w
}

/// The window a run of Running ticks leaves behind, given the sample
/// pushed and the render outcome of each tick.
pub open spec fn ticks_window(
    w: Seq<Sample>,
    pushed: Seq<Sample>,
    outcomes: Seq<bool>,
    cap: nat,
) -> Seq<Sample>
    decreases pushed.len(),
{
    if pushed.len() == 0 {
        w
    } else {
        ticks_window(
            render_step(push_model(w, pushed[0], cap), outcomes[0]),
            pushed.subrange(1, pushed.len() as int),
            outcomes.subrange(1, outcomes.len() as int),
            cap,
        )
    }
}

/// Transient-failure isolation: the render outcomes of a run of ticks
/// never affect the window's length or contents; only the pushed
/// samples do, and the next tick starts from the same state either
/// way.
pub proof fn lemma_render_outcomes_immaterial(
    w: Seq<Sample>,
    pushed: Seq<Sample>,
    outcomes_a: Seq<bool>,
    outcomes_b: Seq<bool>,
    cap: nat,
)
    ensures
        ticks_window(w, pushed, outcomes_a, cap) == ticks_window(w, pushed, outcomes_b, cap),
    decreases pushed.len(),
{
    if pushed.len() > 0 {
        lemma_render_outcomes_immaterial(
            push_model(w, pushed[0], cap),
            pushed.subrange(1, pushed.len() as int),
            outcomes_a.subrange(1, outcomes_a.len() as int),
            outcomes_b.subrange(1, outcomes_b.len() as int),
            cap,
        );
    }
}

} // verus!
