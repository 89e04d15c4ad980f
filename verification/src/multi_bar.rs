//! The coordinator of several indicators: the single writer that puts each
//! indicator's text on a row of its own.
//!
//! The rows form a block of lines. Between two messages the cursor rests on
//! the first line of the block. A row is given out once and never again.

use crate::extension::{BarExt, BarModel, Message, MessageModel};
use crate::internal::InternalModel;
use crate::std_bar::Bar;
use crate::term::{cmds, run_concat, Cmd, Screen, TermOp};
use vstd::prelude::*;

verus! {

/// Largest number of rows a coordinator gives out.
pub const MAX_ROWS: usize = 0x8000;

/// Where a coordinator stands in its life.
#[derive(Debug, Clone, Copy, PartialEq, Eq, Structural)]
pub enum Phase {
    /// No indicator was registered yet.
    Uninitialized,
    /// Indicators are registered and their messages are applied.
    Active,
    /// All indicators are gone; what is left of their messages is applied.
    Draining,
    /// The final pass is done; nothing is applied any more.
    Closed,
}

/// Why an indicator could not be registered.
#[derive(Debug, Clone, Copy, PartialEq, Eq, Structural)]
pub enum RegisterError {
    /// The indicator already reports to a coordinator.
    AlreadyLinked,
    /// The coordinator is draining or closed.
    ShutDown,
    /// All rows are given out.
    Full,
}

/// Mathematical content of a [`MultiBar`].
pub struct CoordinatorModel {
    /// Where the coordinator stands in its life.
    pub phase: Phase,
    /// The text each row shows; a row that was never drawn shows nothing.
    pub rows: Seq<Seq<char>>,
}

/// The commands that put `text` on row `row` and bring the cursor back to
/// the first line of the block.
pub open spec fn draw(row: nat, text: Seq<char>) -> Seq<Cmd> {
    seq![Cmd::Feed(row), Cmd::Return, Cmd::ClearLine, Cmd::Print(text), Cmd::Up(row)]
}

/// The commands that draw the first `n` rows, each with its text.
pub open spec fn flush(rows: Seq<Seq<char>>, n: nat) -> Seq<Cmd>
    decreases n,
{
    if n == 0 {
        Seq::empty()
    } else {
        flush(rows, (n - 1) as nat) + draw((n - 1) as nat, rows[n - 1])
    }
}

impl CoordinatorModel {
    /// Invariant of a coordinator.
    pub open spec fn wf(self) -> bool {
        &&& self.rows.len() <= MAX_ROWS
        &&& self.phase is Uninitialized ==> self.rows.len() == 0
        &&& self.phase is Active ==> self.rows.len() >= 1
    }

    /// A coordinator before the first registration.
    pub open spec fn fresh() -> CoordinatorModel {
        CoordinatorModel { phase: Phase::Uninitialized, rows: Seq::empty() }
    }

    /// Whether the coordinator takes messages.
    pub open spec fn listening(self) -> bool {
        self.phase is Active || self.phase is Draining
    }

    /// Whether the coordinator takes registrations.
    pub open spec fn open(self) -> bool {
        self.phase is Uninitialized || self.phase is Active
    }

    /// The row the next registration gets.
    pub open spec fn next_row(self) -> nat {
        self.rows.len()
    }

    /// The coordinator after one registration.
    pub open spec fn register(self) -> CoordinatorModel {
        CoordinatorModel { phase: Phase::Active, rows: self.rows.push(Seq::empty()) }
    }

    /// The coordinator after `k` registrations.
    pub open spec fn register_many(self, k: nat) -> CoordinatorModel
        decreases k,
    {
        if k == 0 {
            self
        } else {
            self.register_many((k - 1) as nat).register()
        }
    }

    /// Result of applying one message: while listening, a message for a row
    /// that was given out sets the text of that row, and draws it if the
    /// text is new or the message insists. Any other message is dropped.
    pub open spec fn apply(self, m: MessageModel) -> (CoordinatorModel, Seq<Cmd>) {
        if self.listening() && 0 <= m.row < self.rows.len() {
            (
                CoordinatorModel { rows: self.rows.update(m.row, m.text), ..self },
                if m.force || self.rows[m.row] != m.text {
                    draw(m.row as nat, m.text)
                } else {
                    Seq::empty()
                },
            )
        } else {
            (self, Seq::empty())
        }
    }

    /// The coordinator after applying messages in their order of arrival.
    pub open spec fn apply_all(self, ms: Seq<MessageModel>) -> CoordinatorModel
        decreases ms.len(),
    {
        if ms.len() == 0 {
            self
        } else {
            self.apply_all(ms.drop_last()).apply(ms.last()).0
        }
    }

    /// The coordinator after it learned that all indicators are gone.
    pub open spec fn drain(self) -> CoordinatorModel {
        if self.open() {
            CoordinatorModel { phase: Phase::Draining, ..self }
        } else {
            self
        }
    }

    /// Result of the final pass: a draining coordinator draws every row with
    /// its last text, moves the cursor below the last row and is closed.
    pub open spec fn close(self) -> (CoordinatorModel, Seq<Cmd>) {
        if self.phase is Draining {
            (
                CoordinatorModel { phase: Phase::Closed, ..self },
                flush(self.rows, self.rows.len()) + seq![Cmd::Feed(self.rows.len())],
            )
        } else {
            (self, Seq::empty())
        }
    }
}

impl BarModel {
    /// This indicator, reporting to a coordinator under the given row.
    pub open spec fn link(self, row: nat) -> BarModel {
        self.with(InternalModel { row: row as int, linked: true, ..self.internal })
    }
}

/// The texts of a sequence of strings.
pub open spec fn texts(rows: Seq<String>) -> Seq<Seq<char>> {
    rows.map_values(|s: String| s@)
}

/// The coordinator of several indicators.
#[derive(Debug)]
pub struct MultiBar {
    pub(crate) phase: Phase,
    pub(crate) rows: Vec<String>,
}

impl View for MultiBar {
    type V = CoordinatorModel;

    open(crate) spec fn view(&self) -> CoordinatorModel {
        CoordinatorModel { phase: self.phase, rows: texts(self.rows@) }
    }
}

/// The operations that put `text` on row `row` and bring the cursor back.
pub fn draw_ops(row: u16, text: String) -> (out: Vec<TermOp>)
    ensures
        cmds(out@) == draw(row as nat, text@),
{
    let mut ops: Vec<TermOp> = Vec::new();
    ops.push(TermOp::Feed(row));
    ops.push(TermOp::Return);
    ops.push(TermOp::ClearLine);
    ops.push(TermOp::Print(text));
    ops.push(TermOp::Up(row));
    assert(cmds(ops@) =~= draw(row as nat, text@));
    ops
}

impl MultiBar {
    /// Well-formedness: the model satisfies the coordinator invariant.
    pub open spec fn wf(&self) -> bool {
        self@.wf()
    }

    /// A coordinator without indicators.
    pub fn new() -> (out: MultiBar)
        ensures
            out.wf(),
            out@ == CoordinatorModel::fresh(),
    {
        let out = MultiBar { phase: Phase::Uninitialized, rows: Vec::new() };
        assert(out@.rows =~= Seq::empty());
        out
    }

    /// Where the coordinator stands in its life.
    pub fn phase(&self) -> (out: Phase)
        ensures
            out == self@.phase,
    {
        self.phase
    }

    /// Number of rows given out.
    pub fn rows(&self) -> (out: usize)
        ensures
            out == self@.rows.len(),
    {
        self.rows.len()
    }

    /// The text that a row shows, for a row that was given out.
    pub fn text(&self, row: i16) -> (out: Option<String>)
        ensures
            out is Some <==> 0 <= row < self@.rows.len(),
            out matches Some(t) ==> t@ == self@.rows[row as int],
    {
        if row >= 0 && (row as usize) < self.rows.len() {
            Some(self.rows[row as usize].clone())
        } else {
            None
        }
    }

    /// Registers an indicator: it gets the next row and from now on reports
    /// to this coordinator. Refused, with nothing changed, for an indicator
    /// that already reports to a coordinator, after the coordinator began to
    /// drain, and when all rows are given out.
    pub fn register(&mut self, bar: &mut Bar) -> (out: Result<i16, RegisterError>)
        requires
            old(self).wf(),
            old(bar).wf(),
        ensures
            final(self).wf(),
            final(bar).wf(),
            out == (if old(bar)@.internal.linked {
                Err::<i16, RegisterError>(RegisterError::AlreadyLinked)
            } else if !old(self)@.open() {
                Err(RegisterError::ShutDown)
            } else if old(self)@.next_row() >= MAX_ROWS {
                Err(RegisterError::Full)
            } else {
                Ok(old(self)@.next_row() as i16)
            }),
            out is Ok ==> final(self)@ == old(self)@.register() && final(bar)@ == old(bar)@.link(
                old(self)@.next_row(),
            ),
            out is Err ==> final(self)@ == old(self)@ && final(bar)@ == old(bar)@,
    {
        if bar.internal.linked {
            return Err(RegisterError::AlreadyLinked);
        }
        match self.phase {
            Phase::Draining | Phase::Closed => {
                return Err(RegisterError::ShutDown);
            },
            _ => {},
        }
        if self.rows.len() >= MAX_ROWS {
            return Err(RegisterError::Full);
        }
        let row = self.rows.len() as i16;
        self.rows.push(String::new());
        self.phase = Phase::Active;
        bar.internal.row = row;
        bar.internal.linked = true;
        assert(self@.rows =~= old(self)@.rows.push(Seq::empty()));
        Ok(row)
    }

    /// Applies one message. Returns the terminal operations it asks for.
    pub fn apply(&mut self, message: Message) -> (out: Vec<TermOp>)
        requires
            old(self).wf(),
        ensures
            final(self).wf(),
            final(self)@ == old(self)@.apply(message@).0,
            cmds(out@) == old(self)@.apply(message@).1,
    {
        let listening = match self.phase {
            Phase::Active | Phase::Draining => true,
            _ => false,
        };
        if listening && message.row >= 0 && (message.row as usize) < self.rows.len() {
            let row = message.row as usize;
            let draws = message.force || self.rows[row] != message.text;
            let ops = if draws {
                draw_ops(message.row as u16, message.text.clone())
            } else {
                Vec::new()
            };
            self.rows.set(row, message.text);
            assert(self@.rows =~= old(self)@.rows.update(row as int, message@.text));
            ops
        } else {
            let ops: Vec<TermOp> = Vec::new();
            ops
        }
    }

    /// Tells the coordinator that all indicators are gone: it takes no more
    /// registrations and waits for the final pass.
    pub fn drain(&mut self)
        requires
            old(self).wf(),
        ensures
            final(self).wf(),
            final(self)@ == old(self)@.drain(),
    {
        match self.phase {
            Phase::Uninitialized | Phase::Active => {
                self.phase = Phase::Draining;
            },
            _ => {},
        }
    }

    /// The final pass of a draining coordinator: every row is drawn with its
    /// last text and the cursor moves below the last row. In any other phase
    /// nothing happens.
    pub fn close(&mut self) -> (out: Vec<TermOp>)
        requires
            old(self).wf(),
        ensures
            final(self).wf(),
            final(self)@ == old(self)@.close().0,
            cmds(out@) == old(self)@.close().1,
    {
        let mut ops: Vec<TermOp> = Vec::new();
        match self.phase {
            Phase::Draining => {
                let n = self.rows.len();
                let mut r: usize = 0;
                while r < n
                    invariant
                        r <= n,
                        n == self.rows.len(),
                        n <= MAX_ROWS,
                        cmds(ops@) == flush(self@.rows, r as nat),
                    decreases n - r,
                {
                    let ghost before = ops@;
                    let mut one = draw_ops(r as u16, self.rows[r].clone());
                    let ghost added = one@;
                    ops.append(&mut one);
                    assert(cmds(ops@) =~= cmds(before) + cmds(added));
                    r = r + 1;
                }
                let ghost pass = ops@;
                ops.push(TermOp::Feed(n as u16));
                assert(cmds(ops@) =~= cmds(pass) + seq![Cmd::Feed(n as nat)]);
                self.phase = Phase::Closed;
            },
            _ => {
                assert(cmds(ops@) =~= Seq::<Cmd>::empty());
            },
        }
        ops
    }
}

/// Registrations get consecutive rows: after `k` registrations on a
/// coordinator that takes them, `k` more rows are given out, the next one
/// is the `k`-th after those given out before, and what the earlier rows
/// show is untouched.
pub proof fn registrations_take_consecutive_rows(c: CoordinatorModel, k: nat)
    requires
        c.wf(),
        c.open(),
        c.rows.len() + k <= MAX_ROWS,
    ensures
        c.register_many(k).wf(),
        c.register_many(k).open(),
        c.register_many(k).next_row() == c.next_row() + k,
        forall|r: int| 0 <= r < c.rows.len() ==> c.register_many(k).rows[r] == c.rows[r],
    decreases k,
{
    if k > 0 {
        registrations_take_consecutive_rows(c, (k - 1) as nat);
    }
}

/// The row that the indicator registered after `i` others gets under a new
/// coordinator.
pub open spec fn row_of_registration(i: nat) -> nat {
    CoordinatorModel::fresh().register_many(i).next_row()
}

/// Under one coordinator, `k` indicators registered one after the other get
/// the rows `0` to `k - 1` in the order of their registration, and no two
/// of them share a row.
pub proof fn sequential_registration_rows(k: nat)
    requires
        k <= MAX_ROWS,
    ensures
        forall|i: nat|
            i < k ==> CoordinatorModel::fresh().register_many(i).open()
                && #[trigger] row_of_registration(i) == i,
        forall|i: nat, j: nat|
            i < k && j < k && i != j ==> #[trigger] row_of_registration(i)
                != #[trigger] row_of_registration(j),
{
    assert forall|i: nat| i < k implies CoordinatorModel::fresh().register_many(i).open()
        && #[trigger] row_of_registration(i) == i by {
        registrations_take_consecutive_rows(CoordinatorModel::fresh(), i);
    }
}

/// A message changes the text of its own row at most: every other row keeps
/// its text, and no row appears or disappears.
pub proof fn apply_keeps_other_rows(c: CoordinatorModel, m: MessageModel)
    ensures
        c.apply(m).0.rows.len() == c.rows.len(),
        c.apply(m).0.phase == c.phase,
        forall|r: int| 0 <= r < c.rows.len() && r != m.row ==> c.apply(m).0.rows[r] == c.rows[r],
        c.listening() && 0 <= m.row < c.rows.len() ==> c.apply(m).0.rows[m.row] == m.text,
        c.wf() ==> c.apply(m).0.wf(),
{
}

/// What an indicator posts for `write(text)` reaches its row in order: once
/// the first message is applied the row shows the text, once the second is
/// applied it shows the bar again, and at either point every other row
/// shows what it showed before.
pub proof fn write_reaches_own_row_in_order(bar: BarModel, text: Seq<char>, c: CoordinatorModel)
    requires
        c.wf(),
        c.listening(),
        bar.internal.linked,
        0 <= bar.internal.row < c.rows.len(),
    ensures
        bar.write(text).1 is Channel,
        bar.write(text).1->Channel_0.len() == 2,
        c.apply(bar.write(text).1->Channel_0[0]).0.rows[bar.internal.row] == text,
        c.apply_all(bar.write(text).1->Channel_0).rows[bar.internal.row] == bar.line(),
        forall|r: int|
            0 <= r < c.rows.len() && r != bar.internal.row ==> c.apply(
                bar.write(text).1->Channel_0[0],
            ).0.rows[r] == c.rows[r] && c.apply_all(bar.write(text).1->Channel_0).rows[r]
                == c.rows[r],
{
    let ms = bar.write(text).1->Channel_0;
    assert(ms.drop_last() =~= seq![ms[0]]);
    assert(ms.drop_last().drop_last() =~= Seq::<MessageModel>::empty());
    reveal_with_fuel(CoordinatorModel::apply_all, 3);
}

/// Drawing a row changes the line that lies `row` lines below the cursor
/// and no other, and brings the cursor back to where it was.
pub proof fn draw_changes_one_line(s: Screen, row: nat, text: Seq<char>)
    ensures
        s.run(draw(row, text)).line == s.line,
        s.run(draw(row, text)).cursor_shown == s.cursor_shown,
        s.run(draw(row, text)).shown(s.line + row) == text,
        forall|i: nat|
            i != s.line + row ==> #[trigger] s.run(draw(row, text)).shown(i) == s.shown(i),
{
    let ops = draw(row, text);
    let d1 = ops.drop_last();
    let d2 = d1.drop_last();
    let d3 = d2.drop_last();
    let d4 = d3.drop_last();
    let d5 = d4.drop_last();
    assert(d5 =~= Seq::<Cmd>::empty());
    reveal_with_fuel(Screen::run, 6);
    let s1 = s.step(Cmd::Feed(row));
    let s2 = s1.step(Cmd::Return);
    let s3 = s2.step(Cmd::ClearLine);
    let s4 = s3.step(Cmd::Print(text));
    let s5 = s4.step(Cmd::Up(row));
    assert(s.run(ops) == s5);
    assert(forall|i: nat| #[trigger] s1.shown(i) == s.shown(i));
    assert(s3.shown(s3.line) =~= Seq::<char>::empty());
    assert(s4.shown(s4.line) =~= text);
}

/// Whether the screen shows the given rows on the lines from `base` on.
pub open spec fn shows(s: Screen, base: nat, rows: Seq<Seq<char>>) -> bool {
    forall|r: nat| r < rows.len() ==> #[trigger] s.shown(base + r) == rows[r as int]
}

/// If the screen shows the rows of a coordinator from the cursor line on,
/// then after the operations of a message are carried out it shows the rows
/// of the coordinator after that message, the cursor rests where it was, and
/// no line but that of the message's row has changed.
pub proof fn apply_keeps_screen_in_step(c: CoordinatorModel, m: MessageModel, s: Screen)
    requires
        shows(s, s.line, c.rows),
    ensures
        s.run(c.apply(m).1).line == s.line,
        shows(s.run(c.apply(m).1), s.line, c.apply(m).0.rows),
        forall|i: nat|
            i != s.line + m.row ==> #[trigger] s.run(c.apply(m).1).shown(i) == s.shown(i),
{
    let after = s.run(c.apply(m).1);
    if c.listening() && 0 <= m.row < c.rows.len() {
        if m.force || c.rows[m.row] != m.text {
            draw_changes_one_line(s, m.row as nat, m.text);
        }
        assert forall|r: nat| r < c.apply(m).0.rows.len() implies #[trigger] after.shown(
            s.line + r,
        ) == c.apply(m).0.rows[r as int] by {
            assert(s.shown(s.line + r) == c.rows[r as int]);
        }
    }
}

/// Carrying out the drawing of the first `n` rows makes each of them show
/// its text, whatever the screen showed before; the cursor rests where it
/// was and no line outside those rows has changed.
pub proof fn flush_shows_rows(s: Screen, rows: Seq<Seq<char>>, n: nat)
    requires
        n <= rows.len(),
    ensures
        s.run(flush(rows, n)).line == s.line,
        s.run(flush(rows, n)).cursor_shown == s.cursor_shown,
        forall|r: nat|
            r < n ==> #[trigger] s.run(flush(rows, n)).shown(s.line + r) == rows[r as int],
        forall|i: nat|
            !(s.line <= i < s.line + n) ==> #[trigger] s.run(flush(rows, n)).shown(i) == s.shown(i),
    decreases n,
{
    if n > 0 {
        let k = (n - 1) as nat;
        flush_shows_rows(s, rows, k);
        run_concat(s, flush(rows, k), draw(k, rows[k as int]));
        let mid = s.run(flush(rows, k));
        draw_changes_one_line(mid, k, rows[k as int]);
        let end = s.run(flush(rows, n));
        assert forall|r: nat| r < n implies #[trigger] end.shown(s.line + r) == rows[r as int] by {
            if r < k {
                assert(mid.shown(s.line + r) == rows[r as int]);
            }
        }
    }
}

/// The final pass leaves every row of the coordinator on the screen with its
/// last text, whatever the screen showed before, changes no line outside
/// the block, and puts the cursor on the line below the last row.
pub proof fn close_shows_every_row(c: CoordinatorModel, s: Screen)
    requires
        c.phase is Draining,
    ensures
        c.close().0.phase is Closed,
        c.close().0.rows == c.rows,
        shows(s.run(c.close().1), s.line, c.rows),
        s.run(c.close().1).line == s.line + c.rows.len(),
        forall|i: nat|
            !(s.line <= i < s.line + c.rows.len()) ==> #[trigger] s.run(c.close().1).shown(i)
                == s.shown(i),
{
    let n = c.rows.len();
    let pass = flush(c.rows, n);
    let feed = seq![Cmd::Feed(n)];
    flush_shows_rows(s, c.rows, n);
    run_concat(s, pass, feed);
    let mid = s.run(pass);
    assert(feed.drop_last() =~= Seq::<Cmd>::empty());
    reveal_with_fuel(Screen::run, 2);
    assert(mid.run(feed) == mid.step(Cmd::Feed(n)));
    let end = mid.step(Cmd::Feed(n));
    assert(forall|i: nat| #[trigger] end.shown(i) == mid.shown(i));
}

} // verus!
