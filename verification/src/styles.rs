//! Glyph ramps: the characters a bar is drawn with.

use vstd::prelude::*;

verus! {

/// Largest number of partial-fill glyphs a ramp may hold.
pub const MAX_RAMP_LEN: usize = 0xFFFF;

/// Mathematical content of a [`Ramp`].
pub struct RampModel {
    /// Partial-fill glyphs, from the empty cell to the almost-full cell.
    pub cells: Seq<char>,
    /// Glyph of a completely filled cell.
    pub solid: char,
    /// Glyph of a cell that lies beyond the partially filled one.
    pub blank: char,
}

impl RampModel {
    /// A ramp has at least one and at most [`MAX_RAMP_LEN`] partial glyphs.
    pub open spec fn wf(self) -> bool {
        1 <= self.cells.len() <= MAX_RAMP_LEN
    }

    /// The ramp of eighth blocks.
    pub open spec fn blocks() -> RampModel {
        RampModel {
            cells: seq![
                ' ',
                '\u{258F}',
                '\u{258E}',
                '\u{258D}',
                '\u{258C}',
                '\u{258B}',
                '\u{258A}',
                '\u{2589}',
            ],
            solid: '\u{2588}',
            blank: ' ',
        }
    }
}

/// An ordered sequence of glyphs giving sub-cell fill resolution, together
/// with the glyphs for a full cell and for an untouched cell.
///
/// `cells[0]` stands for an empty cell and the last entry for a cell that is
/// almost full; the number of entries is the fill resolution per cell.
#[derive(Debug, Clone)]
pub struct Ramp {
    pub(crate) cells: Vec<char>,
    pub(crate) solid: char,
    pub(crate) blank: char,
}

impl View for Ramp {
    type V = RampModel;

    open(crate) spec fn view(&self) -> RampModel {
        RampModel { cells: self.cells@, solid: self.solid, blank: self.blank }
    }
}

impl Ramp {
    /// Well-formedness: the model is a valid ramp.
    pub open spec fn wf(&self) -> bool {
        self@.wf()
    }

    /// Builds a ramp from its glyphs; refuses an empty or oversized glyph list.
    pub fn new(cells: Vec<char>, solid: char, blank: char) -> (out: Option<Ramp>)
        ensures
            out is Some <==> 1 <= cells@.len() <= MAX_RAMP_LEN,
            out matches Some(r) ==> r.wf() && r@ == (RampModel { cells: cells@, solid, blank }),
    {
        if cells.len() == 0 || cells.len() > MAX_RAMP_LEN {
            None
        } else {
            Some(Ramp { cells, solid, blank })
        }
    }

    /// The ramp of eighth blocks: eight partial glyphs from blank to seven
    /// eighths, and the full block as the solid glyph.
    pub fn blocks() -> (out: Ramp)
        ensures
            out.wf(),
            out@ == RampModel::blocks(),
    {
        let mut cells: Vec<char> = Vec::new();
        cells.push(' ');
        cells.push('\u{258F}');
        cells.push('\u{258E}');
        cells.push('\u{258D}');
        cells.push('\u{258C}');
        cells.push('\u{258B}');
        cells.push('\u{258A}');
        cells.push('\u{2589}');
        assert(cells@ =~= RampModel::blocks().cells);
        Ramp { cells, solid: '\u{2588}', blank: ' ' }
    }

    /// Number of partial-fill glyphs: the fill resolution per cell.
    pub fn len(&self) -> (out: usize)
        ensures
            out == self@.cells.len(),
    {
        self.cells.len()
    }

    /// The partial-fill glyph for `index` filled units within a cell, for an
    /// index below the length of the ramp.
    pub fn cell(&self, index: usize) -> (out: Option<char>)
        ensures
            out == (if index < self@.cells.len() {
                Some(self@.cells[index as int])
            } else {
                None
            }),
    {
        if index < self.cells.len() {
            Some(self.cells[index])
        } else {
            None
        }
    }

    /// The glyph of a completely filled cell.
    pub fn solid(&self) -> (out: char)
        ensures
            out == self@.solid,
    {
        self.solid
    }

    /// The glyph of an untouched cell.
    pub fn blank(&self) -> (out: char)
        ensures
            out == self@.blank,
    {
        self.blank
    }
}

} // verus!
