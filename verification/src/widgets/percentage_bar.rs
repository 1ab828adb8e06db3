use crate::units::FULL_SCALE;
use vstd::prelude::*;
use vstd::string::StrSliceExecFns;

verus! {

/// How full a bar is, by the thresholds at which its colour changes.
#[derive(Clone, Copy, Debug, PartialEq, Eq)]
pub enum BarLevel {
    Low,
    Medium,
    MediumHigh,
    High,
}

/// The parts of a bar, in cells: `bar_width` filled cells, then `empty_width`
/// blank ones, then the text, of which the first `colored_text_width`
/// characters lie within the filled share and take its colour.
#[derive(Clone, Copy, Debug, PartialEq, Eq)]
pub struct BarLayout {
    pub level: BarLevel,
    pub bar_width: u16,
    pub empty_width: u16,
    pub colored_text_width: u16,
}

/// The level of a share given in thousandths of a percent: above ninety
/// percent high, above seventy medium-high, above forty medium, else low.
pub open spec fn bar_level(perc: int) -> BarLevel {
    if perc > 90_000 {
        BarLevel::High
    } else if perc > 70_000 {
        BarLevel::MediumHigh
    } else if perc > 40_000 {
        BarLevel::Medium
    } else {
        BarLevel::Low
    }
}

/// The cells that the share `perc` fills of `width`, rounded to the nearest
/// whole cell, halves upward.
pub open spec fn filled_cells(width: int, perc: int) -> int {
    (width * perc + 50_000) / 100_000
}

/// The layout of a bar of `width` cells that is `perc` full and carries a
/// text of `text_width` characters at its right end.
pub open spec fn bar_layout(width: int, perc: int, text_width: int) -> BarLayout {
    let full = filled_cells(width, perc);
    let room = width - text_width;
    let bar = if full < room {
        full
    } else {
        room
    };
    let beyond = width - full;
    BarLayout {
        level: bar_level(perc),
        bar_width: bar as u16,
        empty_width: (room - bar) as u16,
        colored_text_width: (if text_width > beyond {
            text_width - beyond
        } else {
            0
        }) as u16,
    }
}

/// Lays out a bar of `width` cells that is `perc` full, in thousandths of a
/// percent, with `text` written over its right end. The text has to fit in
/// the bar, and the bar cannot be more than full.
pub fn percentage_bar(width: u16, perc: u32, text: &str) -> (layout: BarLayout)
    requires
        text@.len() <= width,
        perc <= FULL_SCALE,
    ensures
        layout == bar_layout(width as int, perc as int, text@.len() as int),
        layout.bar_width + layout.empty_width + text@.len() == width,
        layout.colored_text_width <= text@.len(),
{
    let level = if perc > 90_000 {
        BarLevel::High
    } else if perc > 70_000 {
        BarLevel::MediumHigh
    } else if perc > 40_000 {
        BarLevel::Medium
    } else {
        BarLevel::Low
    };
    assert(width * perc <= 0xffff * 100_000) by (nonlinear_arith)
        requires
            0 <= width <= 0xffff,
            0 <= perc <= 100_000,
    ;
    let scaled: u64 = width as u64 * perc as u64 + 50_000;
    let full: u64 = scaled / 100_000;
    assert(full <= width) by (nonlinear_arith)
        requires
            perc <= 100_000,
            full == (width * perc + 50_000) / 100_000,
    ;
    let full_width: u16 = full as u16;
    let text_width: u16 = text.unicode_len() as u16;
    let room: u16 = width - text_width;
    let bar_width: u16 = if full_width < room {
        full_width
    } else {
        room
    };
    let beyond: u16 = width - full_width;
    let colored_text_width: u16 = if text_width > beyond {
        text_width - beyond
    } else {
        0
    };
    BarLayout { level, bar_width, empty_width: room - bar_width, colored_text_width }
}

} // verus!
