//! Terminal operations, their ANSI encoding, and a model of the screen
//! they act on.

use crate::fmt_data::{decimal, push_decimal, push_repeat, repeat};
use vstd::prelude::*;

verus! {

/// Mathematical content of a [`TermOp`].
pub enum Cmd {
    /// Move the cursor up by the given number of lines.
    Up(nat),
    /// Emit the given number of line feeds.
    Feed(nat),
    /// Move the cursor to the first column.
    Return,
    /// Erase the line the cursor is on.
    ClearLine,
    /// Write text at the cursor.
    Print(Seq<char>),
    /// Make the cursor visible.
    ShowCursor,
}

/// One operation on a terminal that understands ANSI / VT100 sequences.
#[derive(Debug, Clone, PartialEq, Eq)]
pub enum TermOp {
    /// Move the cursor up by the given number of lines.
    Up(u16),
    /// Emit the given number of line feeds.
    Feed(u16),
    /// Move the cursor to the first column.
    Return,
    /// Erase the line the cursor is on.
    ClearLine,
    /// Write text at the cursor.
    Print(String),
    /// Make the cursor visible.
    ShowCursor,
}

impl View for TermOp {
    type V = Cmd;

    open spec fn view(&self) -> Cmd {
        match self {
            TermOp::Up(n) => Cmd::Up(*n as nat),
            TermOp::Feed(n) => Cmd::Feed(*n as nat),
            TermOp::Return => Cmd::Return,
            TermOp::ClearLine => Cmd::ClearLine,
            TermOp::Print(t) => Cmd::Print(t@),
            TermOp::ShowCursor => Cmd::ShowCursor,
        }
    }
}

/// The commands a sequence of operations stands for.
pub open spec fn cmds(ops: Seq<TermOp>) -> Seq<Cmd> {
    ops.map_values(|o: TermOp| o@)
}

/// The characters that carry out one command.
pub open spec fn encode_cmd(c: Cmd) -> Seq<char> {
    match c {
        Cmd::Up(n) => if n == 0 {
            Seq::empty()
        } else {
            seq!['\u{1b}', '['] + decimal(n) + seq!['A']
        },
        Cmd::Feed(n) => repeat('\n', n),
        Cmd::Return => seq!['\r'],
        Cmd::ClearLine => seq!['\u{1b}', '[', '2', 'K'],
        Cmd::Print(t) => t,
        Cmd::ShowCursor => seq!['\u{1b}', '[', '?', '2', '5', 'h'],
    }
}

/// The characters that carry out a sequence of commands, in order.
pub open spec fn encode(cs: Seq<Cmd>) -> Seq<char>
    decreases cs.len(),
{
    if cs.len() == 0 {
        Seq::empty()
    } else {
        encode(cs.drop_last()) + encode_cmd(cs.last())
    }
}

/// Appends the encoding of one operation to `out`.
pub fn push_op(out: &mut String, op: &TermOp)
    ensures
        final(out)@ == old(out)@ + encode_cmd(op@),
{
    match op {
        TermOp::Up(n) => {
            if *n != 0 {
                out.push('\u{1b}');
                out.push('[');
                push_decimal(out, *n as u128);
                out.push('A');
            }
        },
        TermOp::Feed(n) => {
            push_repeat(out, '\n', *n as usize);
        },
        TermOp::Return => {
            out.push('\r');
        },
        TermOp::ClearLine => {
            out.push('\u{1b}');
            out.push('[');
            out.push('2');
            out.push('K');
        },
        TermOp::Print(t) => {
            out.append(t.as_str());
        },
        TermOp::ShowCursor => {
            out.push('\u{1b}');
            out.push('[');
            out.push('?');
            out.push('2');
            out.push('5');
            out.push('h');
        },
    }
}

/// The text to write to the terminal to carry out `ops` in order.
pub fn encode_ops(ops: &Vec<TermOp>) -> (out: String)
    ensures
        out@ == encode(cmds(ops@)),
{
    let mut out = String::new();
    let mut i: usize = 0;
    while i < ops.len()
        invariant
            i <= ops.len(),
            out@ == encode(cmds(ops@.take(i as int))),
        decreases ops.len() - i,
    {
        push_op(&mut out, &ops[i]);
        proof {
            let next = cmds(ops@.take(i + 1));
            assert(next.drop_last() =~= cmds(ops@.take(i as int)));
        }
        i = i + 1;
    }
    assert(ops@.take(ops.len() as int) =~= ops@);
    out
}

/// A terminal screen as an unbounded sheet of lines with a cursor.
///
/// Wrapping and scrolling are not part of the model: a line is as long as
/// what was printed on it, and the sheet grows downwards as line feeds ask.
pub struct Screen {
    /// What each line shows, top to bottom.
    pub lines: Seq<Seq<char>>,
    /// The line the cursor is on.
    pub line: nat,
    /// The column the cursor is in.
    pub column: nat,
    /// Whether the cursor is visible.
    pub cursor_shown: bool,
}

/// `text` printed over `line`, starting at `column`.
pub open spec fn overwrite(line: Seq<char>, column: nat, text: Seq<char>) -> Seq<char> {
    let padded = if line.len() < column {
        line + repeat(' ', (column - line.len()) as nat)
    } else {
        line
    };
    let tail = if padded.len() > column + text.len() {
        padded.subrange((column + text.len()) as int, padded.len() as int)
    } else {
        Seq::empty()
    };
    padded.subrange(0, column as int) + text + tail
}

impl Screen {
    /// What line `i` shows; a line that was never reached shows nothing.
    pub open spec fn shown(self, i: nat) -> Seq<char> {
        if i < self.lines.len() {
            self.lines[i as int]
        } else {
            Seq::empty()
        }
    }

    /// The lines of the sheet, extended with empty lines up to line `i`.
    pub open spec fn reaching(self, i: nat) -> Seq<Seq<char>> {
        if i < self.lines.len() {
            self.lines
        } else {
            Seq::new((i + 1) as nat, |k: int| self.shown(k as nat))
        }
    }

    /// The screen after one command.
    pub open spec fn step(self, c: Cmd) -> Screen {
        match c {
            Cmd::Up(n) => Screen {
                line: if n <= self.line {
                    (self.line - n) as nat
                } else {
                    0
                },
                ..self
            },
            Cmd::Feed(n) => if n == 0 {
                self
            } else {
                Screen {
                    lines: self.reaching(self.line + n),
                    line: self.line + n,
                    column: 0,
                    ..self
                }
            },
            Cmd::Return => Screen { column: 0, ..self },
            Cmd::ClearLine => Screen {
                lines: self.reaching(self.line).update(self.line as int, Seq::empty()),
                ..self
            },
            Cmd::Print(t) => Screen {
                lines: self.reaching(self.line).update(
                    self.line as int,
                    overwrite(self.shown(self.line), self.column, t),
                ),
                column: self.column + t.len(),
                ..self
            },
            Cmd::ShowCursor => Screen { cursor_shown: true, ..self },
        }
    }

    /// The screen after a sequence of commands, in order.
    pub open spec fn run(self, cs: Seq<Cmd>) -> Screen
        decreases cs.len(),
    {
        if cs.len() == 0 {
            self
        } else {
            self.run(cs.drop_last()).step(cs.last())
        }
    }
}

/// Running two command sequences one after the other is running their
/// concatenation.
pub proof fn run_concat(s: Screen, a: Seq<Cmd>, b: Seq<Cmd>)
    ensures
        s.run(a + b) == s.run(a).run(b),
    decreases b.len(),
{
    if b.len() == 0 {
        assert(a + b =~= a);
    } else {
        run_concat(s, a, b.drop_last());
        assert((a + b).drop_last() =~= a + b.drop_last());
    }
}

/// Encoding two command sequences one after the other is encoding their
/// concatenation.
pub proof fn encode_concat(a: Seq<Cmd>, b: Seq<Cmd>)
    ensures
        encode(a + b) == encode(a) + encode(b),
    decreases b.len(),
{
    if b.len() == 0 {
        assert(a + b =~= a);
    } else {
        encode_concat(a, b.drop_last());
        assert((a + b).drop_last() =~= a + b.drop_last());
        assert((a + b).last() == b.last());
        assert(encode(a + b) =~= encode(a) + encode(b));
    }
}

} // verus!
