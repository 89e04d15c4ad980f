//! The plain progress indicator.

use crate::extension::{
    blend, distance, messages, sample_rate, BarExt, BarModel, InputError, Message, MessageModel,
    Redraw, Reply,
};
use crate::internal::{count_model, rate_model, BarInternal, InternalModel, MAX_RATE};
use crate::render::render_line;
use crate::styles::{Ramp, RampModel};
use crate::term::{cmds, Cmd, TermOp};
use vstd::prelude::*;
use vstd::utf8::encode_utf8;

verus! {

/// Least time between two throttled redraws unless configured otherwise.
pub const DEFAULT_MIN_INTERVAL: u64 = 100;

/// Least change of the count between two throttled redraws unless configured
/// otherwise.
pub const DEFAULT_MIN_DELTA: usize = 1;

/// Weight of a new rate sample, in thousandths, unless configured otherwise.
pub const DEFAULT_SMOOTHING: u16 = 300;

impl BarModel {
    /// This indicator with another configured width; a negative one stands
    /// for following the terminal.
    pub open spec fn with_width(self, width: int) -> BarModel {
        self.with(
            InternalModel {
                configured_width: if width < 0 {
                    -1
                } else {
                    width
                },
                ..self.internal
            },
        )
    }

    /// This indicator with another terminal width.
    pub open spec fn with_columns(self, columns: nat) -> BarModel {
        self.with(InternalModel { columns, ..self.internal })
    }

    /// This indicator with another ramp.
    pub open spec fn with_ramp(self, ramp: RampModel) -> BarModel {
        self.with(InternalModel { ramp, ..self.internal })
    }

    /// A new indicator for the given total with the default configuration.
    pub open spec fn fresh(total: Option<nat>) -> BarModel {
        BarModel {
            internal: InternalModel { total, ..InternalModel::fresh() },
            desc: Seq::empty(),
            min_interval: DEFAULT_MIN_INTERVAL as nat,
            min_delta: DEFAULT_MIN_DELTA as nat,
            smoothing: DEFAULT_SMOOTHING as nat,
            colour: false,
            leave: true,
        }
    }
}

/// A progress indicator: state, description, throttle and style.
///
/// An indicator cannot be copied: a copy of a registered indicator would
/// share its row.
#[derive(Debug)]
pub struct Bar {
    pub(crate) internal: BarInternal,
    pub(crate) desc: String,
    pub(crate) min_interval: u64,
    pub(crate) min_delta: usize,
    pub(crate) smoothing: u16,
    pub(crate) colour: bool,
    pub(crate) leave: bool,
}

impl View for Bar {
    type V = BarModel;

    open(crate) spec fn view(&self) -> BarModel {
        BarModel {
            internal: self.internal@,
            desc: self.desc@,
            min_interval: self.min_interval as nat,
            min_delta: self.min_delta as nat,
            smoothing: self.smoothing as nat,
            colour: self.colour,
            leave: self.leave,
        }
    }
}

/// Distance between two counts.
fn count_distance(a: usize, b: usize) -> (out: usize)
    ensures
        out == distance(a as nat, b as nat),
{
    if a >= b {
        a - b
    } else {
        b - a
    }
}

/// Rate, in thousandths of an iteration per second, of `gained` iterations
/// in `dt` milliseconds.
fn rate_sample(gained: usize, dt: u64) -> (out: u128)
    requires
        dt > 0,
    ensures
        out == sample_rate(gained as nat, dt as nat),
        out <= MAX_RATE,
{
    let scaled: u128 = (gained as u128) * 1_000_000;
    let out = scaled / (dt as u128);
    assert(out <= scaled) by (nonlinear_arith)
        requires
            out == scaled / (dt as u128),
            dt > 0,
    ;
    out
}

/// The rate after a new sample entered the moving average.
fn rate_blend(rate: Option<u128>, sample: u128, smoothing: u16) -> (out: u128)
    requires
        smoothing <= 1000,
        sample <= MAX_RATE,
        rate matches Some(r) ==> r <= MAX_RATE,
    ensures
        out == blend(rate_model(rate), sample as nat, smoothing as nat),
        out <= MAX_RATE,
{
    match rate {
        Some(r) => {
            let s = smoothing as u128;
            assert(s * sample + (1000 - s) * r <= 1000 * MAX_RATE) by (nonlinear_arith)
                requires
                    s <= 1000,
                    sample <= MAX_RATE,
                    r <= MAX_RATE,
            ;
            (s * sample + (1000 - s) * r) / 1000
        },
        None => sample,
    }
}

/// Appends the UTF-8 encoding of `text` to `sink`.
pub fn append_utf8(sink: &mut Vec<u8>, text: &String)
    ensures
        final(sink)@ == old(sink)@ + encode_utf8(text@),
{
    sink.extend_from_slice(text.as_str().as_bytes());
    assert(sink@ =~= old(sink)@ + encode_utf8(text@));
}

impl Bar {
    /// A new indicator for the given total: not started, nothing counted,
    /// no description, default throttle, smoothing and ramp, width following
    /// the terminal, no colour, bar left visible at the end.
    pub fn new(total: Option<usize>) -> (out: Bar)
        ensures
            out.wf(),
            out@ == BarModel::fresh(count_model(total)),
    {
        let mut internal = BarInternal::default();
        internal.total = total;
        Bar {
            internal,
            desc: String::new(),
            min_interval: DEFAULT_MIN_INTERVAL,
            min_delta: DEFAULT_MIN_DELTA,
            smoothing: DEFAULT_SMOOTHING,
            colour: false,
            leave: true,
        }
    }

    /// Moves the count to `target` at clock reading `now`; returns whether a
    /// redraw is triggered.
    fn advance(&mut self, target: usize, now: u64) -> (due: bool)
        requires
            old(self).wf(),
        ensures
            final(self).wf(),
            final(self)@ == old(self)@.advance(target as nat, now as nat),
            due == old(self)@.triggers(target as nat, now as nat),
    {
        self.internal.tick(now);
        if target == self.internal.count {
            return false;
        }
        let elapsed = self.internal.elapsed_time;
        let due = !self.internal.drawn || (elapsed - self.internal.drawn_at >= self.min_interval
            && count_distance(target, self.internal.drawn_count) >= self.min_delta);
        let dt = elapsed - self.internal.sample_time;
        if dt > 0 {
            let gained = if target > self.internal.sample_count {
                target - self.internal.sample_count
            } else {
                0
            };
            let rate = rate_blend(self.internal.rate, rate_sample(gained, dt), self.smoothing);
            self.internal.rate = Some(rate);
            self.internal.sample_count = target;
            self.internal.sample_time = elapsed;
        }
        self.internal.count = target;
        if due {
            self.internal.drawn = true;
            self.internal.drawn_at = elapsed;
            self.internal.drawn_count = target;
        }
        due
    }

    /// What to carry out to get `text` onto the indicator's line.
    fn paint(&self, text: String, force: bool) -> (out: Redraw)
        ensures
            out@ == self@.paint(text@, force),
    {
        if self.internal.linked {
            let mut ms: Vec<Message> = Vec::new();
            ms.push(Message { row: self.internal.row, text, force });
            assert(messages(ms@) =~= seq![
                MessageModel { row: self@.internal.row, text: text@, force },
            ]);
            Redraw::Channel(ms)
        } else {
            let mut ops: Vec<TermOp> = Vec::new();
            ops.push(TermOp::Return);
            ops.push(TermOp::ClearLine);
            ops.push(TermOp::Print(text));
            assert(cmds(ops@) =~= seq![Cmd::Return, Cmd::ClearLine, Cmd::Print(text@)]);
            Redraw::Terminal(ops)
        }
    }

    /// Takes the indicator off the display when its owner is done with it.
    /// The bar is drawn a last time if it is to stay visible, else erased;
    /// an indicator that owns the terminal then shows the cursor again and
    /// ends the line, so that later output does not overwrite the bar.
    pub fn finish(&self) -> (out: Redraw)
        requires
            self.wf(),
        ensures
            out@ == self@.farewell(),
    {
        let text = if self.leave {
            self.render()
        } else {
            String::new()
        };
        if self.internal.linked {
            self.paint(text, true)
        } else {
            let mut ops: Vec<TermOp> = Vec::new();
            ops.push(TermOp::Return);
            ops.push(TermOp::ClearLine);
            ops.push(TermOp::Print(text));
            ops.push(TermOp::ShowCursor);
            ops.push(TermOp::Feed(1));
            assert(cmds(ops@) =~= seq![
                Cmd::Return,
                Cmd::ClearLine,
                Cmd::Print(text@),
                Cmd::ShowCursor,
                Cmd::Feed(1),
            ]);
            Redraw::Terminal(ops)
        }
    }
    /// Sets the description shown in front of the bar.
    pub fn with_description(self, desc: String) -> (out: Bar)
        requires
            self.wf(),
        ensures
            out.wf(),
            out@ == (BarModel { desc: desc@, ..self@ }),
    {
        let mut out = self;
        out.desc = desc;
        out
    }

    /// Sets the number of cells of the bar; a negative width lets the bar
    /// follow the terminal width.
    pub fn with_width(self, width: i16) -> (out: Bar)
        requires
            self.wf(),
        ensures
            out.wf(),
            out@ == self@.with_width(width as int),
    {
        let mut out = self;
        out.internal.configured_width = if width < 0 {
            -1
        } else {
            width
        };
        out
    }

    /// Sets the glyphs the bar is drawn with.
    pub fn with_ramp(self, ramp: Ramp) -> (out: Bar)
        requires
            self.wf(),
            ramp.wf(),
        ensures
            out.wf(),
            out@ == self@.with_ramp(ramp@),
    {
        let mut out = self;
        out.internal.ramp = ramp;
        out
    }

    /// Sets the throttle: the least time in milliseconds and the least
    /// change of the count between two redraws that updates trigger.
    pub fn with_throttle(self, min_interval: u64, min_delta: usize) -> (out: Bar)
        requires
            self.wf(),
        ensures
            out.wf(),
            out@ == (BarModel {
                min_interval: min_interval as nat,
                min_delta: min_delta as nat,
                ..self@
            }),
    {
        let mut out = self;
        out.min_interval = min_interval;
        out.min_delta = min_delta;
        out
    }

    /// Sets the weight of a new rate sample in thousandths; a weight above
    /// one thousand counts as one thousand.
    pub fn with_smoothing(self, permille: u16) -> (out: Bar)
        requires
            self.wf(),
        ensures
            out.wf(),
            out@ == (BarModel {
                smoothing: if permille > 1000 {
                    1000
                } else {
                    permille as nat
                },
                ..self@
            }),
    {
        let mut out = self;
        out.smoothing = if permille > 1000 {
            1000
        } else {
            permille
        };
        out
    }

    /// Switches the colouring of the bar cells on or off.
    pub fn with_colour(self, colour: bool) -> (out: Bar)
        requires
            self.wf(),
        ensures
            out.wf(),
            out@ == (BarModel { colour, ..self@ }),
    {
        let mut out = self;
        out.colour = colour;
        out
    }

    /// Sets whether the bar stays visible when the indicator is finished.
    pub fn with_leave(self, leave: bool) -> (out: Bar)
        requires
            self.wf(),
        ensures
            out.wf(),
            out@ == (BarModel { leave, ..self@ }),
    {
        let mut out = self;
        out.leave = leave;
        out
    }

    /// Reports the present width of the terminal, which a bar without a
    /// configured width follows.
    pub fn set_columns(&mut self, columns: u16)
        requires
            old(self).wf(),
        ensures
            final(self).wf(),
            final(self)@ == old(self)@.with_columns(columns as nat),
    {
        self.internal.columns = columns;
    }

    /// The state of the indicator.
    pub fn internal(&self) -> (out: &BarInternal)
        ensures
            out@ == self@.internal,
            self.wf() ==> out.wf(),
    {
        &self.internal
    }

    /// The current progress.
    pub fn count(&self) -> (out: usize)
        ensures
            out == self@.internal.count,
    {
        self.internal.count
    }

    /// The target of the progress, if there is one.
    pub fn total(&self) -> (out: Option<usize>)
        ensures
            count_model(out) == self@.internal.total,
    {
        self.internal.total
    }

    /// The row given by a coordinator; `-1` while there is none.
    pub fn row(&self) -> (out: i16)
        ensures
            out == self@.internal.row,
    {
        self.internal.row
    }
}

impl BarExt for Bar {
    open spec fn model(&self) -> BarModel {
        self@
    }

    open spec fn wf(&self) -> bool {
        self@.wf()
    }

    proof fn model_is_wf(&self) {
    }

    fn clear(&mut self) -> (out: Redraw) {
        if self.internal.linked {
            self.paint(String::new(), true)
        } else {
            let mut ops: Vec<TermOp> = Vec::new();
            ops.push(TermOp::Return);
            ops.push(TermOp::ClearLine);
            assert(cmds(ops@) =~= seq![Cmd::Return, Cmd::ClearLine]);
            Redraw::Terminal(ops)
        }
    }

    fn input(&mut self, text: String) -> (out: Redraw) {
        self.paint(text, true)
    }

    fn input_done(&mut self, reply: Reply) -> (out: Result<(String, Redraw), InputError>) {
        match reply {
            Reply::Line(text) => {
                if text.as_str().is_empty() {
                    Err(InputError::Exhausted)
                } else {
                    let redraw = self.paint(self.render(), true);
                    self.internal.mark_drawn();
                    Ok((text, redraw))
                }
            },
            Reply::Failed => Err(InputError::Failed),
        }
    }

    fn refresh(&mut self, now: u64) -> (out: Redraw) {
        self.internal.observe(now);
        self.internal.mark_drawn();
        self.paint(self.render(), true)
    }

    fn render(&self) -> (out: String) {
        render_line(&self.internal, &self.desc, self.colour)
    }

    fn reset(&mut self, total: Option<usize>) {
        self.internal.reset(total);
    }

    fn update(&mut self, n: usize, now: u64) -> (out: (bool, Redraw)) {
        let target = self.internal.count + n;
        self.update_to(target, now)
    }

    fn update_to(&mut self, n: usize, now: u64) -> (out: (bool, Redraw)) {
        if self.advance(n, now) {
            (true, self.paint(self.render(), false))
        } else {
            (false, Redraw::Idle)
        }
    }

    fn write(&mut self, text: String) -> (out: Redraw) {
        let bar = self.render();
        let out = if self.internal.linked {
            let mut ms: Vec<Message> = Vec::new();
            ms.push(Message { row: self.internal.row, text, force: true });
            ms.push(Message { row: self.internal.row, text: bar, force: true });
            assert(messages(ms@) =~= seq![
                MessageModel { row: self@.internal.row, text: text@, force: true },
                MessageModel { row: self@.internal.row, text: bar@, force: true },
            ]);
            Redraw::Channel(ms)
        } else {
            let mut ops: Vec<TermOp> = Vec::new();
            ops.push(TermOp::Return);
            ops.push(TermOp::ClearLine);
            ops.push(TermOp::Print(text));
            ops.push(TermOp::Feed(1));
            ops.push(TermOp::Return);
            ops.push(TermOp::ClearLine);
            ops.push(TermOp::Print(bar));
            assert(cmds(ops@) =~= seq![
                Cmd::Return,
                Cmd::ClearLine,
                Cmd::Print(text@),
                Cmd::Feed(1),
                Cmd::Return,
                Cmd::ClearLine,
                Cmd::Print(bar@),
            ]);
            Redraw::Terminal(ops)
        };
        self.internal.mark_drawn();
        out
    }

    fn write_to(&mut self, sink: &mut Vec<u8>, n: Option<usize>, now: u64) -> (out: bool) {
        match n {
            Some(target) => {
                let due = self.advance(target, now);
                if due {
                    let text = self.render();
                    append_utf8(sink, &text);
                }
                due
            },
            None => {
                let text = self.render();
                append_utf8(sink, &text);
                true
            },
        }
    }
}

} // verus!
