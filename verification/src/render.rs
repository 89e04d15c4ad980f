//! The render pipeline: from indicator state to the display line.

use crate::fmt_data::{
    clock, decimal, percent_text, push_clock, push_decimal, push_percent, push_rate,
    push_repeat, rate_text, repeat,
};
use crate::internal::{rate_model, BarInternal, InternalModel};
use crate::styles::{Ramp, RampModel};
use vstd::prelude::*;

verus! {

/// Number of fill units shown for `count` out of `total`, on a bar of `width`
/// cells with `len` units per cell: the fraction `count / total`, held to at
/// most one, times `width * len`, rounded down. A total of zero counts as
/// reached.
pub open spec fn filled_units(count: nat, total: nat, width: nat, len: nat) -> nat {
    if total == 0 || count >= total {
        width * len
    } else {
        (count * (width * len)) / total
    }
}

/// Whole percent of `total` that `count` has reached, at most one hundred.
pub open spec fn percent(count: nat, total: nat) -> nat {
    if total == 0 || count >= total {
        100
    } else {
        count * 100 / total
    }
}

/// The cells of a bar with a known total: solid glyphs for the full cells,
/// one partial glyph, blanks for the rest.
pub open spec fn progress_cells(count: nat, total: nat, width: nat, ramp: RampModel) -> Seq<char> {
    let units = filled_units(count, total, width, ramp.cells.len());
    let full = units / ramp.cells.len();
    let part = units % ramp.cells.len();
    if full < width {
        repeat(ramp.solid, full) + seq![ramp.cells[part as int]] + repeat(
            ramp.blank,
            (width - full - 1) as nat,
        )
    } else {
        repeat(ramp.solid, width)
    }
}

/// The cells of a bar without a total: one solid glyph that moves one cell
/// per counted item and starts over at the end of the bar.
pub open spec fn sweep_cells(count: nat, width: nat, ramp: RampModel) -> Seq<char> {
    if width == 0 {
        Seq::empty()
    } else {
        repeat(ramp.blank, count % width) + seq![ramp.solid] + repeat(
            ramp.blank,
            (width - 1 - count % width) as nat,
        )
    }
}

/// The cells of the bar of an indicator.
pub open spec fn bar_cells(i: InternalModel) -> Seq<char> {
    match i.total {
        Some(t) => progress_cells(i.count, t, i.effective_width(), i.ramp),
        None => sweep_cells(i.count, i.effective_width(), i.ramp),
    }
}

/// Seconds left at the present rate; undefined without a total, without a
/// rate, or at rate zero.
pub open spec fn remaining_secs(i: InternalModel) -> Option<nat> {
    match (i.total, i.rate) {
        (Some(t), Some(r)) => if r == 0 {
            None
        } else if i.count >= t {
            Some(0nat)
        } else {
            Some(((t - i.count) * 1000 / (r as int)) as nat)
        },
        _ => None,
    }
}

/// The description and its separator; nothing for an empty description.
pub open spec fn label_field(desc: Seq<char>) -> Seq<char> {
    if desc.len() == 0 {
        Seq::empty()
    } else {
        desc + seq![':', ' ']
    }
}

/// The percentage field; absent without a total.
pub open spec fn percent_field(i: InternalModel) -> Seq<char> {
    match i.total {
        Some(t) => percent_text(percent(i.count, t)) + seq!['%'],
        None => Seq::empty(),
    }
}

/// The count, followed by the total where there is one.
pub open spec fn counter_field(i: InternalModel) -> Seq<char> {
    match i.total {
        Some(t) => decimal(i.count) + seq!['/'] + decimal(t),
        None => decimal(i.count),
    }
}

/// The estimated time remaining, or a question mark where it is undefined.
pub open spec fn eta_field(i: InternalModel) -> Seq<char> {
    match remaining_secs(i) {
        Some(s) => clock(s),
        None => seq!['?'],
    }
}

/// The rate, or a question mark while nothing was counted or no rate is known.
pub open spec fn rate_field(i: InternalModel) -> Seq<char> {
    match i.rate {
        Some(r) => if i.count == 0 {
            seq!['?']
        } else {
            rate_text(r)
        },
        None => seq!['?'],
    }
}

/// What precedes the bar cells when colour is on: select green.
pub open spec fn tint_on(colour: bool) -> Seq<char> {
    if colour {
        seq!['\u{1b}', '[', '3', '2', 'm']
    } else {
        Seq::empty()
    }
}

/// What follows the bar cells when colour is on: back to the default.
pub open spec fn tint_off(colour: bool) -> Seq<char> {
    if colour {
        seq!['\u{1b}', '[', '0', 'm']
    } else {
        Seq::empty()
    }
}

/// The display line of an indicator:
/// `desc: PPP%|cells| count/total [elapsed<remaining, rate it/s]`.
pub open spec fn line(i: InternalModel, desc: Seq<char>, colour: bool) -> Seq<char> {
    label_field(desc) + percent_field(i) + seq!['|'] + tint_on(colour) + bar_cells(i) + tint_off(
        colour,
    ) + seq!['|', ' '] + counter_field(i) + seq![' ', '['] + clock(i.elapsed_time / 1000) + seq![
        '<',
    ] + eta_field(i) + seq![',', ' '] + rate_field(i) + seq!['i', 't', '/', 's', ']']
}

/// The fill of a bar never exceeds all its units; it is all of them once
/// the total is reached and none of them while nothing is counted.
pub proof fn filled_units_bounded(count: nat, total: nat, width: nat, len: nat)
    ensures
        filled_units(count, total, width, len) <= width * len,
        count >= total ==> filled_units(count, total, width, len) == width * len,
        count == 0 && total > 0 ==> filled_units(count, total, width, len) == 0,
{
    let k = width * len;
    if total > 0 && count < total {
        assert((count * k) / total <= k) by (nonlinear_arith)
            requires
                total > 0,
                count < total,
                k >= 0,
        ;
        if count == 0 {
            assert((count * k) / total == 0) by (nonlinear_arith)
                requires
                    total > 0,
                    count == 0,
            ;
        }
    }
}

/// The fill is the fraction rounded down to whole units, so it shows the
/// fraction with a resolution of one in `width * len`: it does not exceed
/// the fraction, and one unit more would.
pub proof fn filled_units_is_floor(count: nat, total: nat, width: nat, len: nat)
    requires
        total > 0,
        count <= total,
    ensures
        filled_units(count, total, width, len) * total <= count * (width * len),
        count * (width * len) < (filled_units(count, total, width, len) + 1) * total,
{
    let k = width * len;
    if count < total {
        let x = (count * k) / total;
        assert(x * total <= count * k < (x + 1) * total) by (nonlinear_arith)
            requires
                total > 0,
                count * k >= 0,
                x == (count * k) / total,
        ;
    } else {
        assert(k * total <= count * k < (k + 1) * total) by (nonlinear_arith)
            requires
                total > 0,
                count == total,
                k >= 0,
        ;
    }
}

/// The bar has as many cells as it is wide, whatever it shows.
pub proof fn bar_cells_fill_the_width(i: InternalModel)
    requires
        i.ramp.wf(),
    ensures
        bar_cells(i).len() == i.effective_width(),
{
    let width = i.effective_width();
    match i.total {
        Some(t) => {
            let units = filled_units(i.count, t, width, i.ramp.cells.len());
            assert(units / i.ramp.cells.len() >= 0) by (nonlinear_arith)
                requires
                    units >= 0,
                    i.ramp.cells.len() > 0,
            ;
        },
        None => {
            if width > 0 {
                assert(0 <= i.count % width < width) by (nonlinear_arith)
                    requires
                        width > 0,
                ;
            }
        },
    }
}

/// For a fixed bar, the fill does not shrink as the fraction grows: if
/// `c1 / t1 <= c2 / t2` then the first fill is at most the second.
pub proof fn filled_units_monotonic(c1: nat, t1: nat, c2: nat, t2: nat, width: nat, len: nat)
    requires
        t1 > 0,
        t2 > 0,
        c1 * t2 <= c2 * t1,
    ensures
        filled_units(c1, t1, width, len) <= filled_units(c2, t2, width, len),
{
    let k = width * len;
    filled_units_bounded(c1, t1, width, len);
    if c2 < t2 {
        assert(c1 < t1) by (nonlinear_arith)
            requires
                t1 > 0,
                c2 < t2,
                c1 * t2 <= c2 * t1,
        ;
        let x = (c1 * k) / t1;
        let y = (c2 * k) / t2;
        assert(x * t1 <= c1 * k) by (nonlinear_arith)
            requires
                t1 > 0,
                c1 * k >= 0,
                x == (c1 * k) / t1,
        ;
        assert(x * t2 <= c2 * k) by (nonlinear_arith)
            requires
                t1 > 0,
                t2 > 0,
                k >= 0,
                x >= 0,
                x * t1 <= c1 * k,
                c1 * t2 <= c2 * t1,
        ;
        assert(x <= y) by (nonlinear_arith)
            requires
                t2 > 0,
                x * t2 <= c2 * k,
                y == (c2 * k) / t2,
        ;
    }
}

/// With one total, the fill does not shrink as the count grows.
pub proof fn filled_units_grows_with_count(c1: nat, c2: nat, total: nat, width: nat, len: nat)
    requires
        c1 <= c2,
    ensures
        filled_units(c1, total, width, len) <= filled_units(c2, total, width, len),
{
    if total > 0 {
        assert(c1 * total <= c2 * total) by (nonlinear_arith)
            requires
                c1 <= c2,
        ;
        filled_units_monotonic(c1, total, c2, total, width, len);
    }
}

/// Number of fill units shown for `count` out of `total` on a bar of `width`
/// cells with `len` units per cell.
pub fn fill(count: usize, total: usize, width: u16, len: u16) -> (out: u64)
    ensures
        out == filled_units(count as nat, total as nat, width as nat, len as nat),
        out <= width * len,
{
    assert(width * len <= 0xFFFF * 0xFFFF) by (nonlinear_arith)
        requires
            width <= 0xFFFF,
            len <= 0xFFFF,
    ;
    let k: u64 = (width as u64) * (len as u64);
    proof {
        filled_units_bounded(count as nat, total as nat, width as nat, len as nat);
    }
    if total == 0 || count >= total {
        k
    } else {
        assert(count * k <= 0xFFFF_FFFF_FFFF_FFFF * 0xFFFF_FFFF) by (nonlinear_arith)
            requires
                count <= 0xFFFF_FFFF_FFFF_FFFF,
                k <= 0xFFFF * 0xFFFF,
        ;
        let units: u128 = (count as u128) * (k as u128) / (total as u128);
        units as u64
    }
}

/// Whole percent of `total` that `count` has reached.
pub fn percentage(count: usize, total: usize) -> (out: u8)
    ensures
        out == percent(count as nat, total as nat),
        out <= 100,
{
    if total == 0 || count >= total {
        100
    } else {
        let p: u128 = (count as u128) * 100 / (total as u128);
        assert(p < 100) by (nonlinear_arith)
            requires
                p == (count * 100) / (total as int),
                count < total,
        ;
        p as u8
    }
}

/// Appends the cells of a bar with a known total to `out`.
pub fn push_progress_cells(out: &mut String, count: usize, total: usize, width: u16, ramp: &Ramp)
    requires
        ramp.wf(),
    ensures
        final(out)@ == old(out)@ + progress_cells(count as nat, total as nat, width as nat, ramp@),
{
    let len = ramp.len();
    let units = fill(count, total, width, len as u16);
    let full = units / (len as u64);
    let part = units % (len as u64);
    assert(full <= width) by (nonlinear_arith)
        requires
            units <= width * len,
            len > 0,
            full == units / (len as u64),
    ;
    if full < width as u64 {
        push_repeat(out, ramp.solid(), full as usize);
        out.push(ramp.cells[part as usize]);
        push_repeat(out, ramp.blank(), width as usize - full as usize - 1);
    } else {
        push_repeat(out, ramp.solid(), width as usize);
    }
}

/// Appends the cells of a bar without a total to `out`.
pub fn push_sweep_cells(out: &mut String, count: usize, width: u16, ramp: &Ramp)
    ensures
        final(out)@ == old(out)@ + sweep_cells(count as nat, width as nat, ramp@),
{
    if width != 0 {
        let at = count % (width as usize);
        push_repeat(out, ramp.blank(), at);
        out.push(ramp.solid());
        push_repeat(out, ramp.blank(), width as usize - 1 - at);
    }
}

/// Seconds left at the present rate, where that is defined.
pub fn remaining(state: &BarInternal) -> (out: Option<u128>)
    ensures
        rate_model(out) == remaining_secs(state@),
{
    match (state.total, state.rate) {
        (Some(t), Some(r)) => {
            if r == 0 {
                None
            } else if state.count >= t {
                Some(0)
            } else {
                Some(((t - state.count) as u128) * 1000 / r)
            }
        },
        _ => None,
    }
}

/// Appends one character to `out`.
fn put(out: &mut String, a: char)
    ensures
        final(out)@ == old(out)@ + seq![a],
{
    out.push(a);
    assert(out@ =~= old(out)@ + seq![a]);
}

/// Appends two characters to `out`.
fn put_pair(out: &mut String, a: char, b: char)
    ensures
        final(out)@ == old(out)@ + seq![a, b],
{
    out.push(a);
    out.push(b);
    assert(out@ =~= old(out)@ + seq![a, b]);
}

/// Appends the description and its separator to `out`.
pub fn push_label_field(out: &mut String, desc: &String)
    ensures
        final(out)@ == old(out)@ + label_field(desc@),
{
    if desc.as_str().unicode_len() != 0 {
        out.append(desc.as_str());
        out.push(':');
        out.push(' ');
    }
    assert(out@ =~= old(out)@ + label_field(desc@));
}

/// Appends the percentage field to `out`.
pub fn push_percent_field(out: &mut String, state: &BarInternal)
    ensures
        final(out)@ == old(out)@ + percent_field(state@),
{
    match state.total {
        Some(t) => {
            push_percent(out, percentage(state.count, t) as u128);
            out.push('%');
        },
        None => {},
    }
    assert(out@ =~= old(out)@ + percent_field(state@));
}

/// Appends the colour selection that precedes the bar cells to `out`.
pub fn push_tint_on(out: &mut String, colour: bool)
    ensures
        final(out)@ == old(out)@ + tint_on(colour),
{
    if colour {
        out.push('\u{1b}');
        out.push('[');
        out.push('3');
        out.push('2');
        out.push('m');
    }
    assert(out@ =~= old(out)@ + tint_on(colour));
}

/// Appends the colour reset that follows the bar cells to `out`.
pub fn push_tint_off(out: &mut String, colour: bool)
    ensures
        final(out)@ == old(out)@ + tint_off(colour),
{
    if colour {
        out.push('\u{1b}');
        out.push('[');
        out.push('0');
        out.push('m');
    }
    assert(out@ =~= old(out)@ + tint_off(colour));
}

/// Appends the cells of the bar to `out`.
pub fn push_bar_cells(out: &mut String, state: &BarInternal)
    requires
        state.wf(),
    ensures
        final(out)@ == old(out)@ + bar_cells(state@),
{
    let width = state.effective_width();
    match state.total {
        Some(t) => push_progress_cells(out, state.count, t, width, &state.ramp),
        None => push_sweep_cells(out, state.count, width, &state.ramp),
    }
}

/// Appends the count, and the total where there is one, to `out`.
pub fn push_counter_field(out: &mut String, state: &BarInternal)
    ensures
        final(out)@ == old(out)@ + counter_field(state@),
{
    push_decimal(out, state.count as u128);
    match state.total {
        Some(t) => {
            out.push('/');
            push_decimal(out, t as u128);
        },
        None => {},
    }
    assert(out@ =~= old(out)@ + counter_field(state@));
}

/// Appends the estimated time remaining, or its placeholder, to `out`.
pub fn push_eta_field(out: &mut String, state: &BarInternal)
    ensures
        final(out)@ == old(out)@ + eta_field(state@),
{
    match remaining(state) {
        Some(s) => push_clock(out, s),
        None => put(out, '?'),
    }
}

/// Appends the rate, or its placeholder, to `out`.
pub fn push_rate_field(out: &mut String, state: &BarInternal)
    ensures
        final(out)@ == old(out)@ + rate_field(state@),
{
    match state.rate {
        Some(r) => {
            if state.count == 0 {
                put(out, '?');
            } else {
                push_rate(out, r);
            }
        },
        None => put(out, '?'),
    }
}

/// Appends the unit of the rate and the closing bracket to `out`.
fn push_unit(out: &mut String)
    ensures
        final(out)@ == old(out)@ + seq!['i', 't', '/', 's', ']'],
{
    out.push('i');
    out.push('t');
    out.push('/');
    out.push('s');
    out.push(']');
    assert(out@ =~= old(out)@ + seq!['i', 't', '/', 's', ']']);
}

/// The display line of an indicator with the given description.
pub fn render_line(state: &BarInternal, desc: &String, colour: bool) -> (out: String)
    requires
        state.wf(),
    ensures
        out@ == line(state@, desc@, colour),
{
    let mut out = String::new();
    push_label_field(&mut out, desc);
    push_percent_field(&mut out, state);
    put(&mut out, '|');
    push_tint_on(&mut out, colour);
    push_bar_cells(&mut out, state);
    push_tint_off(&mut out, colour);
    put_pair(&mut out, '|', ' ');
    push_counter_field(&mut out, state);
    put_pair(&mut out, ' ', '[');
    push_clock(&mut out, (state.elapsed_time / 1000) as u128);
    put(&mut out, '<');
    push_eta_field(&mut out, state);
    put_pair(&mut out, ',', ' ');
    push_rate_field(&mut out, state);
    push_unit(&mut out);
    out
}

} // verus!
