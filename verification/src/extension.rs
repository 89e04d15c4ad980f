//! The operations every kind of progress indicator offers, stated over a
//! mathematical model of the indicator.
//!
//! An operation never performs output. It returns a [`Redraw`]: the terminal
//! operations to carry out, or the messages to post to a coordinator.

use crate::internal::{count_model, InternalModel};
use crate::render::line;
use crate::term::{cmds, run_concat, Cmd, Screen, TermOp};
use vstd::prelude::*;
use vstd::utf8::encode_utf8;

verus! {

/// Mathematical content of a [`Message`].
pub struct MessageModel {
    /// The row the text is for.
    pub row: int,
    /// The text to show on that row.
    pub text: Seq<char>,
    /// Whether to draw even if the row already shows this text.
    pub force: bool,
}

/// A redraw request from an indicator to its coordinator.
#[derive(Debug, Clone, PartialEq, Eq)]
pub struct Message {
    /// The row the text is for.
    pub row: i16,
    /// The text to show on that row.
    pub text: String,
    /// Whether to draw even if the row already shows this text.
    pub force: bool,
}

impl View for Message {
    type V = MessageModel;

    open spec fn view(&self) -> MessageModel {
        MessageModel { row: self.row as int, text: self.text@, force: self.force }
    }
}

/// The content of a sequence of messages.
pub open spec fn messages(ms: Seq<Message>) -> Seq<MessageModel> {
    ms.map_values(|m: Message| m@)
}

/// Mathematical content of a [`Redraw`].
pub enum RedrawModel {
    /// Nothing to do.
    Idle,
    /// Commands for the terminal the indicator owns.
    Terminal(Seq<Cmd>),
    /// Messages for the coordinator, to be posted in order.
    Channel(Seq<MessageModel>),
}

/// What the caller of an indicator operation has to carry out.
#[derive(Debug, Clone, PartialEq, Eq)]
pub enum Redraw {
    /// Nothing to do.
    Idle,
    /// Operations for the terminal the indicator owns.
    Terminal(Vec<TermOp>),
    /// Messages for the coordinator, to be posted in order.
    Channel(Vec<Message>),
}

impl View for Redraw {
    type V = RedrawModel;

    open spec fn view(&self) -> RedrawModel {
        match self {
            Redraw::Idle => RedrawModel::Idle,
            Redraw::Terminal(ops) => RedrawModel::Terminal(cmds(ops@)),
            Redraw::Channel(ms) => RedrawModel::Channel(messages(ms@)),
        }
    }
}

/// Mathematical content of a [`Reply`].
pub enum ReplyModel {
    /// The read succeeded and left this text in the buffer.
    Line(Seq<char>),
    /// The read failed.
    Failed,
}

/// What reading one line from the input stream gave.
#[derive(Debug, Clone, PartialEq, Eq)]
pub enum Reply {
    /// The read succeeded and left this text in the buffer; an empty buffer
    /// means that the stream has ended.
    Line(String),
    /// The read failed.
    Failed,
}

impl View for Reply {
    type V = ReplyModel;

    open spec fn view(&self) -> ReplyModel {
        match self {
            Reply::Line(t) => ReplyModel::Line(t@),
            Reply::Failed => ReplyModel::Failed,
        }
    }
}

/// Why no input could be had.
#[derive(Debug, Clone, Copy, PartialEq, Eq)]
pub enum InputError {
    /// The input stream has ended.
    Exhausted,
    /// Reading from the input stream failed.
    Failed,
}

/// Distance between two counts.
pub open spec fn distance(a: nat, b: nat) -> nat {
    if a >= b {
        (a - b) as nat
    } else {
        (b - a) as nat
    }
}

/// Rate, in thousandths of an iteration per second, of `gained` iterations
/// in `dt` milliseconds.
pub open spec fn sample_rate(gained: nat, dt: nat) -> nat {
    gained * 1_000_000 / dt
}

/// Exponential moving average: the first sample is taken as it is, a later
/// one enters with weight `smoothing / 1000`.
pub open spec fn blend(rate: Option<nat>, sample: nat, smoothing: nat) -> nat {
    match rate {
        Some(r) => ((smoothing * sample + (1000 - smoothing) * r) / 1000) as nat,
        None => sample,
    }
}

/// Mathematical content of a plain indicator: its state and configuration.
pub struct BarModel {
    /// Counters, timer, rate, width, ramp and row.
    pub internal: InternalModel,
    /// Description shown in front of the bar.
    pub desc: Seq<char>,
    /// Least time between two throttled redraws, in milliseconds.
    pub min_interval: nat,
    /// Least change of the count between two throttled redraws.
    pub min_delta: nat,
    /// Weight of a new rate sample, in thousandths.
    pub smoothing: nat,
    /// Whether the bar cells are coloured.
    pub colour: bool,
    /// Whether the bar stays visible when the indicator is finished.
    pub leave: bool,
}

impl BarModel {
    /// Invariant of an indicator.
    pub open spec fn wf(self) -> bool {
        &&& self.internal.wf()
        &&& self.smoothing <= 1000
    }

    /// Whether two indicators agree in everything that is configured rather
    /// than counted or timed: width, terminal width, ramp, row, description,
    /// throttle, smoothing, colour and whether the bar is left visible.
    pub open spec fn same_configuration(self, other: BarModel) -> bool {
        &&& self.internal.configured_width == other.internal.configured_width
        &&& self.internal.columns == other.internal.columns
        &&& self.internal.ramp == other.internal.ramp
        &&& self.internal.row == other.internal.row
        &&& self.internal.linked == other.internal.linked
        &&& self.desc == other.desc
        &&& self.min_interval == other.min_interval
        &&& self.min_delta == other.min_delta
        &&& self.smoothing == other.smoothing
        &&& self.colour == other.colour
        &&& self.leave == other.leave
    }

    /// This indicator with another state.
    pub open spec fn with(self, internal: InternalModel) -> BarModel {
        BarModel { internal, ..self }
    }

    /// The display line.
    pub open spec fn line(self) -> Seq<char> {
        line(self.internal, self.desc, self.colour)
    }

    /// Whether the throttle lets a redraw at count `target` pass: always for
    /// the first drawing, later only once both the least interval and the
    /// least change since the last redraw are reached.
    pub open spec fn throttle_open(self, target: nat) -> bool {
        !self.internal.drawn || (self.internal.elapsed_time - self.internal.drawn_at
            >= self.min_interval && distance(target, self.internal.drawn_count) >= self.min_delta)
    }

    /// Whether moving the count to `target` at clock reading `now` triggers
    /// a redraw: the count has to change and the throttle has to be open.
    pub open spec fn triggers(self, target: nat, now: nat) -> bool {
        target != self.internal.count && self.with(self.internal.tick(now)).throttle_open(target)
    }

    /// The indicator after its count moved to `target` at clock reading `now`.
    ///
    /// The clock is looked at in any case. If the count changes, it is
    /// recorded; if time has passed since the last rate sample, the rate
    /// takes in the iterations gained since then; if a redraw is triggered,
    /// it is recorded as the last one.
    pub open spec fn advance(self, target: nat, now: nat) -> BarModel {
        let t = self.internal.tick(now);
        if target == t.count {
            self.with(t)
        } else {
            let dt = (t.elapsed_time - t.sample_time) as nat;
            let gained = if target > t.sample_count {
                (target - t.sample_count) as nat
            } else {
                0
            };
            let due = self.triggers(target, now);
            self.with(
                InternalModel {
                    count: target,
                    rate: if dt > 0 {
                        Some(blend(t.rate, sample_rate(gained, dt), self.smoothing))
                    } else {
                        t.rate
                    },
                    sample_count: if dt > 0 {
                        target
                    } else {
                        t.sample_count
                    },
                    sample_time: if dt > 0 {
                        t.elapsed_time
                    } else {
                        t.sample_time
                    },
                    drawn: t.drawn || due,
                    drawn_at: if due {
                        t.elapsed_time
                    } else {
                        t.drawn_at
                    },
                    drawn_count: if due {
                        target
                    } else {
                        t.drawn_count
                    },
                    ..t
                },
            )
        }
    }

    /// How `text` gets onto the indicator's line: over the owned terminal by
    /// returning to the first column, erasing the line and printing; through
    /// a coordinator by one message for the indicator's row.
    pub open spec fn paint(self, text: Seq<char>, force: bool) -> RedrawModel {
        if self.internal.linked {
            RedrawModel::Channel(seq![MessageModel { row: self.internal.row, text, force }])
        } else {
            RedrawModel::Terminal(seq![Cmd::Return, Cmd::ClearLine, Cmd::Print(text)])
        }
    }

    /// How the indicator's line is erased.
    pub open spec fn wipe(self) -> RedrawModel {
        if self.internal.linked {
            RedrawModel::Channel(
                seq![MessageModel { row: self.internal.row, text: Seq::empty(), force: true }],
            )
        } else {
            RedrawModel::Terminal(seq![Cmd::Return, Cmd::ClearLine])
        }
    }

    /// How `text` is shown without damage to the bar: the line is erased,
    /// the text printed and ended with a line feed, then the bar is drawn
    /// again. Through a coordinator the text and then the bar go to the
    /// indicator's own row, in this order.
    pub open spec fn interleave(self, text: Seq<char>) -> RedrawModel {
        if self.internal.linked {
            RedrawModel::Channel(
                seq![
                    MessageModel { row: self.internal.row, text, force: true },
                    MessageModel { row: self.internal.row, text: self.line(), force: true },
                ],
            )
        } else {
            RedrawModel::Terminal(
                seq![
                    Cmd::Return,
                    Cmd::ClearLine,
                    Cmd::Print(text),
                    Cmd::Feed(1),
                    Cmd::Return,
                    Cmd::ClearLine,
                    Cmd::Print(self.line()),
                ],
            )
        }
    }

    /// How the indicator leaves the display: the bar is drawn a last time if
    /// it is to stay, else erased; an indicator that owns the terminal then
    /// shows the cursor again and ends the line.
    pub open spec fn farewell(self) -> RedrawModel {
        let text = if self.leave {
            self.line()
        } else {
            Seq::empty()
        };
        if self.internal.linked {
            RedrawModel::Channel(seq![MessageModel { row: self.internal.row, text, force: true }])
        } else {
            RedrawModel::Terminal(
                seq![Cmd::Return, Cmd::ClearLine, Cmd::Print(text), Cmd::ShowCursor, Cmd::Feed(1)],
            )
        }
    }

    /// Result of `update(n)` at clock reading `now`: the new indicator,
    /// whether a redraw was triggered, and what to carry out.
    pub open spec fn update(self, n: nat, now: nat) -> (BarModel, bool, RedrawModel) {
        self.update_to(self.internal.count + n, now)
    }

    /// Result of `update_to(n)` at clock reading `now`.
    pub open spec fn update_to(self, n: nat, now: nat) -> (BarModel, bool, RedrawModel) {
        let next = self.advance(n, now);
        if self.triggers(n, now) {
            (next, true, next.paint(next.line(), false))
        } else {
            (next, false, RedrawModel::Idle)
        }
    }

    /// Result of `reset(total)`.
    pub open spec fn reset(self, total: Option<nat>) -> BarModel {
        self.with(self.internal.reset(total))
    }

    /// Result of `refresh()` at clock reading `now`: the elapsed time is
    /// brought up to date and the bar drawn whatever the throttle says.
    pub open spec fn refresh(self, now: nat) -> (BarModel, RedrawModel) {
        let next = self.with(self.internal.observe(now).mark_drawn());
        (next, next.paint(next.line(), true))
    }

    /// Result of `write(text)`.
    pub open spec fn write(self, text: Seq<char>) -> (BarModel, RedrawModel) {
        (self.with(self.internal.mark_drawn()), self.interleave(text))
    }

    /// Result of handing a line read from the input stream to the indicator.
    pub open spec fn input_done(self, reply: ReplyModel) -> (
        BarModel,
        Result<(Seq<char>, RedrawModel), InputError>,
    ) {
        match reply {
            ReplyModel::Line(t) => if t.len() == 0 {
                (self, Err(InputError::Exhausted))
            } else {
                (self.with(self.internal.mark_drawn()), Ok((t, self.paint(self.line(), true))))
            },
            ReplyModel::Failed => (self, Err(InputError::Failed)),
        }
    }

    /// Result of `write_to(sink, n)` at clock reading `now`: the new
    /// indicator, whether the line was written, and the new content of the
    /// sink.
    pub open spec fn write_to(self, sink: Seq<u8>, n: Option<nat>, now: nat) -> (
        BarModel,
        bool,
        Seq<u8>,
    ) {
        match n {
            Some(target) => {
                let next = self.advance(target, now);
                if self.triggers(target, now) {
                    (next, true, sink + encode_utf8(next.line()))
                } else {
                    (next, false, sink)
                }
            },
            None => (self, true, sink + encode_utf8(self.line())),
        }
    }
}

/// Operations shared by all kinds of progress indicators.
///
/// Clock readings are milliseconds of a monotonic clock; the caller reads
/// the clock and carries out the returned [`Redraw`].
pub trait BarExt {
    /// The indicator as a mathematical value.
    spec fn model(&self) -> BarModel;

    /// Invariant of the implementing type.
    spec fn wf(&self) -> bool;

    /// The invariant of the type carries the invariant of the model.
    proof fn model_is_wf(&self)
        requires
            self.wf(),
        ensures
            self.model().wf(),
    ;

    /// Erases the indicator's line; state and counters stay as they are.
    fn clear(&mut self) -> (out: Redraw)
        requires
            old(self).wf(),
        ensures
            final(self).wf(),
            final(self).model() == old(self).model(),
            out@ == old(self).model().wipe(),
    ;

    /// Begins taking input: puts the prompt `text` in place of the bar. The
    /// caller then reads one line and hands it to [`BarExt::input_done`].
    fn input(&mut self, text: String) -> (out: Redraw)
        requires
            old(self).wf(),
        ensures
            final(self).wf(),
            final(self).model() == old(self).model(),
            out@ == old(self).model().paint(text@, true),
    ;

    /// Ends taking input: an empty buffer means the stream was exhausted, a
    /// failed read is reported as such; else the bar is drawn again and the
    /// text that was read is returned with what to carry out.
    fn input_done(&mut self, reply: Reply) -> (out: Result<(String, Redraw), InputError>)
        requires
            old(self).wf(),
        ensures
            final(self).wf(),
            final(self).model() == old(self).model().input_done(reply@).0,
            match old(self).model().input_done(reply@).1 {
                Ok((text, redraw)) => out matches Ok(got) && got.0@ == text && got.1@ == redraw,
                Err(e) => out == Err::<(String, Redraw), InputError>(e),
            },
    ;

    /// Draws the bar whatever the throttle says.
    fn refresh(&mut self, now: u64) -> (out: Redraw)
        requires
            old(self).wf(),
        ensures
            final(self).wf(),
            final(self).model() == old(self).model().refresh(now as nat).0,
            out@ == old(self).model().refresh(now as nat).1,
            final(self).model().internal.elapsed_time >= old(self).model().internal.elapsed_time,
    ;

    /// The display line for the present state.
    fn render(&self) -> (out: String)
        requires
            self.wf(),
        ensures
            out@ == self.model().line(),
    ;

    /// Starts over: count and timer are cleared, the total is replaced if
    /// one is given, the configuration stays.
    fn reset(&mut self, total: Option<usize>)
        requires
            old(self).wf(),
        ensures
            final(self).wf(),
            final(self).model() == old(self).model().reset(count_model(total)),
            final(self).model().internal.count == 0,
            !final(self).model().internal.started,
            final(self).model().internal.elapsed_time == 0,
            final(self).model().internal.rate is None,
            final(self).model().same_configuration(old(self).model()),
    ;

    /// Counts `n` more iterations. Returns whether a redraw was triggered,
    /// and what to carry out for it.
    fn update(&mut self, n: usize, now: u64) -> (out: (bool, Redraw))
        requires
            old(self).wf(),
            old(self).model().internal.count + n <= usize::MAX,
        ensures
            final(self).wf(),
            final(self).model() == old(self).model().update(n as nat, now as nat).0,
            out.0 == old(self).model().update(n as nat, now as nat).1,
            out.1@ == old(self).model().update(n as nat, now as nat).2,
            final(self).model().internal.count == old(self).model().internal.count + n,
            final(self).model().internal.elapsed_time >= old(self).model().internal.elapsed_time,
            n == 0 ==> !out.0 && final(self).model().internal.rate == old(
                self,
            ).model().internal.rate,
    ;

    /// Sets the count to `n`. Returns whether a redraw was triggered, and
    /// what to carry out for it.
    fn update_to(&mut self, n: usize, now: u64) -> (out: (bool, Redraw))
        requires
            old(self).wf(),
        ensures
            final(self).wf(),
            final(self).model() == old(self).model().update_to(n as nat, now as nat).0,
            out.0 == old(self).model().update_to(n as nat, now as nat).1,
            out.1@ == old(self).model().update_to(n as nat, now as nat).2,
            final(self).model().internal.count == n,
            final(self).model().internal.elapsed_time >= old(self).model().internal.elapsed_time,
    ;

    /// Shows `text` on a line of its own and draws the bar again below it.
    fn write(&mut self, text: String) -> (out: Redraw)
        requires
            old(self).wf(),
        ensures
            final(self).wf(),
            final(self).model() == old(self).model().write(text@).0,
            out@ == old(self).model().write(text@).1,
    ;

    /// Writes the display line to `sink` as UTF-8. With a count `n` this is
    /// `update_to(n)` with the sink in place of the display: the line is
    /// written exactly when a redraw is triggered. Without one the present
    /// line is written and the indicator stays as it is.
    fn write_to(&mut self, sink: &mut Vec<u8>, n: Option<usize>, now: u64) -> (out: bool)
        requires
            old(self).wf(),
        ensures
            final(self).wf(),
            final(self).model() == old(self).model().write_to(
                old(sink)@,
                count_model(n),
                now as nat,
            ).0,
            out == old(self).model().write_to(
                old(sink)@,
                count_model(n),
                now as nat,
            ).1,
            final(sink)@ == old(self).model().write_to(
                old(sink)@,
                count_model(n),
                now as nat,
            ).2,
    ;
}

/// An update by zero iterations looks at the clock and does nothing else:
/// no redraw is triggered, count and rate stay, and the elapsed time does
/// not go back.
pub proof fn update_by_zero_is_silent(bar: BarModel, now: nat)
    requires
        bar.wf(),
    ensures
        !bar.update(0, now).1,
        bar.update(0, now).2 == RedrawModel::Idle,
        bar.update(0, now).0 == bar.with(bar.internal.tick(now)),
        bar.update(0, now).0.internal.count == bar.internal.count,
        bar.update(0, now).0.internal.rate == bar.internal.rate,
        bar.update(0, now).0.internal.elapsed_time >= bar.internal.elapsed_time,
{
}

/// No operation but a reset lets the elapsed time go back, whatever the
/// clock readings are.
pub proof fn elapsed_time_never_decreases(bar: BarModel, target: nat, now: nat, text: Seq<char>)
    requires
        bar.wf(),
    ensures
        bar.advance(target, now).internal.elapsed_time >= bar.internal.elapsed_time,
        bar.refresh(now).0.internal.elapsed_time >= bar.internal.elapsed_time,
        bar.write(text).0.internal.elapsed_time == bar.internal.elapsed_time,
        bar.write_to(Seq::empty(), Some(target), now).0.internal.elapsed_time
            >= bar.internal.elapsed_time,
{
}

/// A reset after an update leaves nothing of the update: the count is zero,
/// the timer waits for the next update, no rate is known, and width, ramp
/// and style are what they were before the update.
pub proof fn reset_forgets_update(bar: BarModel, n: nat, now: nat, total: Option<nat>)
    ensures
        bar.update(n, now).0.reset(total) == bar.reset(total),
        bar.reset(total).internal.count == 0,
        !bar.reset(total).internal.started,
        bar.reset(total).internal.elapsed_time == 0,
        bar.reset(total).internal.rate is None,
        bar.reset(total).internal.total == (if total is Some {
            total
        } else {
            bar.internal.total
        }),
        bar.reset(total).same_configuration(bar),
        bar.wf() ==> bar.reset(total).wf(),
{
}

/// Writing to a sink with a count is `update_to` with the sink in place of
/// the display: the indicator ends up the same, the line is written exactly
/// when `update_to` triggers a redraw, and what the sink receives is the
/// UTF-8 encoding of the line as rendered right after the update.
pub proof fn write_to_agrees_with_update_to(bar: BarModel, sink: Seq<u8>, n: nat, now: nat)
    ensures
        bar.write_to(sink, Some(n), now).0 == bar.update_to(n, now).0,
        bar.write_to(sink, Some(n), now).1 == bar.update_to(n, now).1,
        bar.update_to(n, now).1 ==> bar.write_to(sink, Some(n), now).2 == sink + encode_utf8(
            bar.update_to(n, now).0.line(),
        ),
        !bar.update_to(n, now).1 ==> bar.write_to(sink, Some(n), now).2 == sink,
{
}

/// Painting over the owned terminal puts the text on the line the cursor is
/// on and leaves every other line as it was.
pub proof fn paint_changes_one_line(bar: BarModel, text: Seq<char>, force: bool, s: Screen)
    requires
        !bar.internal.linked,
    ensures
        bar.paint(text, force) is Terminal,
        s.run(bar.paint(text, force)->Terminal_0).line == s.line,
        s.run(bar.paint(text, force)->Terminal_0).shown(s.line) == text,
        forall|i: nat|
            i != s.line ==> #[trigger] s.run(bar.paint(text, force)->Terminal_0).shown(i)
                == s.shown(i),
{
    let ops = seq![Cmd::Return, Cmd::ClearLine, Cmd::Print(text)];
    assert(ops.drop_last() =~= seq![Cmd::Return, Cmd::ClearLine]);
    assert(ops.drop_last().drop_last() =~= seq![Cmd::Return]);
    assert(ops.drop_last().drop_last().drop_last() =~= Seq::<Cmd>::empty());
    reveal_with_fuel(Screen::run, 4);
    let s1 = s.step(Cmd::Return);
    let s2 = s1.step(Cmd::ClearLine);
    let s3 = s2.step(Cmd::Print(text));
    assert(s2.shown(s.line) =~= Seq::<char>::empty());
    assert(s3.shown(s.line) =~= text);
}

/// Writing a text over the owned terminal puts the text on the line the
/// cursor is on and the bar on the line below, where the cursor then rests;
/// every other line stays as it was.
pub proof fn write_puts_text_above_bar(bar: BarModel, text: Seq<char>, s: Screen)
    requires
        !bar.internal.linked,
    ensures
        bar.write(text).1 is Terminal,
        s.run(bar.write(text).1->Terminal_0).line == s.line + 1,
        s.run(bar.write(text).1->Terminal_0).shown(s.line) == text,
        s.run(bar.write(text).1->Terminal_0).shown(s.line + 1) == bar.line(),
        forall|i: nat|
            i != s.line && i != s.line + 1 ==> #[trigger] s.run(
                bar.write(text).1->Terminal_0,
            ).shown(i) == s.shown(i),
{
    let first = seq![Cmd::Return, Cmd::ClearLine, Cmd::Print(text)];
    let second = seq![Cmd::Return, Cmd::ClearLine, Cmd::Print(bar.line())];
    let ops = bar.write(text).1->Terminal_0;
    assert(ops =~= first + seq![Cmd::Feed(1)] + second);
    run_concat(s, first + seq![Cmd::Feed(1)], second);
    run_concat(s, first, seq![Cmd::Feed(1)]);
    paint_changes_one_line(bar, text, true, s);
    let s1 = s.run(first);
    assert(seq![Cmd::Feed(1)].drop_last() =~= Seq::<Cmd>::empty());
    reveal_with_fuel(Screen::run, 2);
    let s2 = s1.step(Cmd::Feed(1));
    assert(forall|i: nat| #[trigger] s2.shown(i) == s1.shown(i));
    paint_changes_one_line(bar, bar.line(), true, s2);
}

/// Clearing over the owned terminal empties the line the cursor is on and
/// leaves every other line as it was.
pub proof fn wipe_clears_one_line(bar: BarModel, s: Screen)
    requires
        !bar.internal.linked,
    ensures
        bar.wipe() is Terminal,
        s.run(bar.wipe()->Terminal_0).line == s.line,
        s.run(bar.wipe()->Terminal_0).shown(s.line) == Seq::<char>::empty(),
        forall|i: nat|
            i != s.line ==> #[trigger] s.run(bar.wipe()->Terminal_0).shown(i) == s.shown(i),
{
    let ops = seq![Cmd::Return, Cmd::ClearLine];
    assert(ops.drop_last() =~= seq![Cmd::Return]);
    assert(ops.drop_last().drop_last() =~= Seq::<Cmd>::empty());
    reveal_with_fuel(Screen::run, 3);
    let s1 = s.step(Cmd::Return);
    let s2 = s1.step(Cmd::ClearLine);
    assert(s2.shown(s.line) =~= Seq::<char>::empty());
}

/// An indicator that owns the terminal leaves it in order: its line shows
/// the bar if that is to stay and nothing otherwise, the cursor is visible
/// and rests at the start of the line below, and every other line is as it
/// was.
pub proof fn farewell_ends_the_line(bar: BarModel, s: Screen)
    requires
        !bar.internal.linked,
    ensures
        bar.farewell() is Terminal,
        s.run(bar.farewell()->Terminal_0).cursor_shown,
        s.run(bar.farewell()->Terminal_0).line == s.line + 1,
        s.run(bar.farewell()->Terminal_0).column == 0,
        s.run(bar.farewell()->Terminal_0).shown(s.line) == (if bar.leave {
            bar.line()
        } else {
            Seq::empty()
        }),
        forall|i: nat|
            i != s.line ==> #[trigger] s.run(bar.farewell()->Terminal_0).shown(i) == s.shown(i),
{
    let text = if bar.leave {
        bar.line()
    } else {
        Seq::empty()
    };
    let first = seq![Cmd::Return, Cmd::ClearLine, Cmd::Print(text)];
    let last = seq![Cmd::ShowCursor, Cmd::Feed(1)];
    let ops = bar.farewell()->Terminal_0;
    assert(ops =~= first + last);
    run_concat(s, first, last);
    paint_changes_one_line(bar, text, true, s);
    let s1 = s.run(first);
    assert(last.drop_last() =~= seq![Cmd::ShowCursor]);
    assert(last.drop_last().drop_last() =~= Seq::<Cmd>::empty());
    reveal_with_fuel(Screen::run, 3);
    let s2 = s1.step(Cmd::ShowCursor);
    let s3 = s2.step(Cmd::Feed(1));
    assert(forall|i: nat| #[trigger] s3.shown(i) == s1.shown(i));
}

} // verus!
