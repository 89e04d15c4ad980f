//! The state every progress indicator carries: counters, timer, rate
//! estimate, width, ramp and row.

use crate::styles::{Ramp, RampModel};
use vstd::prelude::*;

verus! {

/// Largest rate an indicator can hold, in thousandths of an iteration per
/// second: the largest count gained within one millisecond.
pub const MAX_RATE: u128 = 0xFFFF_FFFF_FFFF_FFFF * 1_000_000;

/// Terminal width assumed until the owner reports another one.
pub const DEFAULT_COLUMNS: u16 = 80;

/// Mathematical content of a [`BarInternal`]. Times are in milliseconds.
pub struct InternalModel {
    /// Whether an update has latched the start of the timer.
    pub started: bool,
    /// The clock reading at which the timer started.
    pub start_instant: nat,
    /// Time accumulated since the start, as far as the indicator has seen.
    pub elapsed_time: nat,
    /// Smoothed rate in thousandths of an iteration per second.
    pub rate: Option<nat>,
    /// Current progress.
    pub count: nat,
    /// Target of the progress; `None` for an indefinite indicator.
    pub total: Option<nat>,
    /// `-1` to follow the terminal width, else a fixed number of columns.
    pub configured_width: int,
    /// Terminal width as last reported by the owner.
    pub columns: nat,
    /// Glyphs the bar is drawn with.
    pub ramp: RampModel,
    /// `-1` while unassigned, else the row given by a coordinator.
    pub row: int,
    /// Whether redraws go to a coordinator instead of the terminal.
    pub linked: bool,
    /// Progress at the last rate sample.
    pub sample_count: nat,
    /// Elapsed time at the last rate sample.
    pub sample_time: nat,
    /// Whether the indicator was drawn since it was created or reset.
    pub drawn: bool,
    /// Elapsed time at the last redraw.
    pub drawn_at: nat,
    /// Progress at the last redraw.
    pub drawn_count: nat,
}

impl InternalModel {
    /// Invariant of the indicator state.
    pub open spec fn wf(self) -> bool {
        &&& self.ramp.wf()
        &&& -1 <= self.configured_width <= i16::MAX
        &&& -1 <= self.row <= i16::MAX
        &&& self.linked <==> self.row >= 0
        &&& !self.started ==> self.elapsed_time == 0 && self.start_instant == 0
        &&& self.sample_time <= self.elapsed_time
        &&& self.drawn_at <= self.elapsed_time
        &&& self.rate matches Some(r) ==> r <= MAX_RATE
    }

    /// A new indicator: not started, nothing counted, no row, eighth-block
    /// ramp, width following the terminal.
    pub open spec fn fresh() -> InternalModel {
        InternalModel {
            started: false,
            start_instant: 0,
            elapsed_time: 0,
            rate: None,
            count: 0,
            total: None,
            configured_width: -1,
            columns: DEFAULT_COLUMNS as nat,
            ramp: RampModel::blocks(),
            row: -1,
            linked: false,
            sample_count: 0,
            sample_time: 0,
            drawn: false,
            drawn_at: 0,
            drawn_count: 0,
        }
    }

    /// The state after a look at the clock: once started, the elapsed time
    /// follows the clock forwards and never goes back.
    pub open spec fn observe(self, now: nat) -> InternalModel {
        if self.started && now >= self.start_instant + self.elapsed_time {
            InternalModel { elapsed_time: (now - self.start_instant) as nat, ..self }
        } else {
            self
        }
    }

    /// The state after the look at the clock that comes with an update: the
    /// first one latches the start, later ones advance the elapsed time.
    pub open spec fn tick(self, now: nat) -> InternalModel {
        if self.started {
            self.observe(now)
        } else {
            InternalModel { started: true, start_instant: now, ..self }
        }
    }

    /// The state with counters, timer, rate and redraw history cleared and
    /// the total replaced if one is given; width, ramp and row stay.
    pub open spec fn reset(self, total: Option<nat>) -> InternalModel {
        InternalModel {
            started: false,
            start_instant: 0,
            elapsed_time: 0,
            rate: None,
            count: 0,
            total: if total is Some { total } else { self.total },
            sample_count: 0,
            sample_time: 0,
            drawn: false,
            drawn_at: 0,
            drawn_count: 0,
            ..self
        }
    }

    /// The state with the present count and time recorded as drawn.
    pub open spec fn mark_drawn(self) -> InternalModel {
        InternalModel {
            drawn: true,
            drawn_at: self.elapsed_time,
            drawn_count: self.count,
            ..self
        }
    }

    /// Number of cells of the bar: the configured width, or the terminal
    /// width where none is configured.
    pub open spec fn effective_width(self) -> nat {
        if self.configured_width < 0 {
            self.columns
        } else {
            self.configured_width as nat
        }
    }
}

/// Per-indicator state. Times are in milliseconds of a monotonic clock that
/// the owner reads and hands in.
#[derive(Debug)]
pub struct BarInternal {
    pub(crate) started: bool,
    pub(crate) start_instant: u64,
    pub(crate) elapsed_time: u64,
    pub(crate) rate: Option<u128>,
    pub(crate) count: usize,
    pub(crate) total: Option<usize>,
    pub(crate) configured_width: i16,
    pub(crate) columns: u16,
    pub(crate) ramp: Ramp,
    pub(crate) row: i16,
    pub(crate) linked: bool,
    pub(crate) sample_count: usize,
    pub(crate) sample_time: u64,
    pub(crate) drawn: bool,
    pub(crate) drawn_at: u64,
    pub(crate) drawn_count: usize,
}

/// A count as a mathematical number, where there is one.
pub open spec fn count_model(v: Option<usize>) -> Option<nat> {
    match v {
        Some(n) => Some(n as nat),
        None => None,
    }
}

/// A rate as a mathematical number, where there is one.
pub open spec fn rate_model(v: Option<u128>) -> Option<nat> {
    match v {
        Some(n) => Some(n as nat),
        None => None,
    }
}

impl View for BarInternal {
    type V = InternalModel;

    open(crate) spec fn view(&self) -> InternalModel {
        InternalModel {
            started: self.started,
            start_instant: self.start_instant as nat,
            elapsed_time: self.elapsed_time as nat,
            rate: rate_model(self.rate),
            count: self.count as nat,
            total: count_model(self.total),
            configured_width: self.configured_width as int,
            columns: self.columns as nat,
            ramp: self.ramp@,
            row: self.row as int,
            linked: self.linked,
            sample_count: self.sample_count as nat,
            sample_time: self.sample_time as nat,
            drawn: self.drawn,
            drawn_at: self.drawn_at as nat,
            drawn_count: self.drawn_count as nat,
        }
    }
}

impl Default for BarInternal {
    /// The state of a new indicator.
    fn default() -> (out: BarInternal)
        ensures
            out.wf(),
            out@ == InternalModel::fresh(),
    {
        BarInternal {
            started: false,
            start_instant: 0,
            elapsed_time: 0,
            rate: None,
            count: 0,
            total: None,
            configured_width: -1,
            columns: DEFAULT_COLUMNS,
            ramp: Ramp::blocks(),
            row: -1,
            linked: false,
            sample_count: 0,
            sample_time: 0,
            drawn: false,
            drawn_at: 0,
            drawn_count: 0,
        }
    }
}

impl BarInternal {
    /// Well-formedness: the model satisfies the state invariant.
    pub open spec fn wf(&self) -> bool {
        self@.wf()
    }

    /// Looks at the clock without starting the timer.
    pub fn observe(&mut self, now: u64)
        requires
            old(self).wf(),
        ensures
            final(self).wf(),
            final(self)@ == old(self)@.observe(now as nat),
    {
        if self.started && now >= self.start_instant && now - self.start_instant
            >= self.elapsed_time {
            self.elapsed_time = now - self.start_instant;
        }
    }

    /// Looks at the clock on behalf of an update: starts the timer if it is
    /// not running, else advances the elapsed time.
    pub fn tick(&mut self, now: u64)
        requires
            old(self).wf(),
        ensures
            final(self).wf(),
            final(self)@ == old(self)@.tick(now as nat),
    {
        if self.started {
            self.observe(now);
        } else {
            self.started = true;
            self.start_instant = now;
        }
    }

    /// Clears counters, timer, rate and redraw history; replaces the total
    /// if one is given. Width, ramp and row are kept.
    pub fn reset(&mut self, total: Option<usize>)
        requires
            old(self).wf(),
        ensures
            final(self).wf(),
            final(self)@ == old(self)@.reset(count_model(total)),
    {
        self.started = false;
        self.start_instant = 0;
        self.elapsed_time = 0;
        self.rate = None;
        self.count = 0;
        if total.is_some() {
            self.total = total;
        }
        self.sample_count = 0;
        self.sample_time = 0;
        self.drawn = false;
        self.drawn_at = 0;
        self.drawn_count = 0;
    }

    /// Records the present count and time as drawn.
    pub fn mark_drawn(&mut self)
        requires
            old(self).wf(),
        ensures
            final(self).wf(),
            final(self)@ == old(self)@.mark_drawn(),
    {
        self.drawn = true;
        self.drawn_at = self.elapsed_time;
        self.drawn_count = self.count;
    }

    /// Number of cells of the bar.
    pub fn effective_width(&self) -> (out: u16)
        requires
            self.wf(),
        ensures
            out == self@.effective_width(),
    {
        if self.configured_width < 0 {
            self.columns
        } else {
            self.configured_width as u16
        }
    }
    /// Whether an update has started the timer.
    pub fn started(&self) -> (out: bool)
        ensures
            out == self@.started,
    {
        self.started
    }

    /// The clock reading at which the timer started; zero while it has not.
    pub fn start_instant(&self) -> (out: u64)
        ensures
            out == self@.start_instant,
    {
        self.start_instant
    }

    /// Milliseconds since the start, as far as the indicator has seen.
    pub fn elapsed_time(&self) -> (out: u64)
        ensures
            out == self@.elapsed_time,
    {
        self.elapsed_time
    }

    /// The smoothed rate in thousandths of an iteration per second, once a
    /// sample was taken.
    pub fn rate(&self) -> (out: Option<u128>)
        ensures
            rate_model(out) == self@.rate,
    {
        self.rate
    }

    /// The current progress.
    pub fn count(&self) -> (out: usize)
        ensures
            out == self@.count,
    {
        self.count
    }

    /// The target of the progress, if there is one.
    pub fn total(&self) -> (out: Option<usize>)
        ensures
            count_model(out) == self@.total,
    {
        self.total
    }

    /// The configured width: `-1` to follow the terminal, else the number of
    /// cells of the bar.
    pub fn configured_width(&self) -> (out: i16)
        ensures
            out == self@.configured_width,
    {
        self.configured_width
    }

    /// The terminal width as last reported.
    pub fn columns(&self) -> (out: u16)
        ensures
            out == self@.columns,
    {
        self.columns
    }

    /// The glyphs the bar is drawn with.
    pub fn ramp(&self) -> (out: &Ramp)
        ensures
            out@ == self@.ramp,
    {
        &self.ramp
    }

    /// The row given by a coordinator; `-1` while there is none.
    pub fn row(&self) -> (out: i16)
        ensures
            out == self@.row,
    {
        self.row
    }

    /// Whether redraws go to a coordinator.
    pub fn linked(&self) -> (out: bool)
        ensures
            out == self@.linked,
    {
        self.linked
    }
}

} // verus!
