use vstd::prelude::*;

use crate::rect::Rect;

verus! {

/// Which way a scrollbar runs.
#[derive(Clone, Copy, PartialEq, Eq, Structural, Debug)]
pub enum Direction {
    Vertical,
    Horizontal,
}

/// The largest scroll extent the exact thumb arithmetic accepts: with the
/// viewport extent held in sixteen bits, every intermediate product then fits
/// in a 128-bit integer.
pub const SLIDER_TOTAL_MAX: u64 = 0x1_0000_0000_0000;

/// A scrollbar: the current offset into a total extent, the colours to draw
/// with, the direction it runs in and whether it is mirrored.
pub struct Slider {
    pub offset: usize,
    pub total: usize,
    pub slider_color: u32,
    pub color: u32,
    pub direction: Direction,
    pub rev: bool,
}

/// Where the thumb lies, as an exact pair of fractions of a common positive
/// denominator: the thumb spans the columns (or rows) from `start_num / den`
/// to `end_num / den` of the viewport.
#[derive(Clone, Copy, PartialEq, Eq, Structural, Debug)]
pub struct SliderSpan {
    pub start_num: u128,
    pub end_num: u128,
    pub den: u128,
}

/// No thumb at all: the degenerate span.
pub open spec fn empty_span() -> SliderSpan {
    SliderSpan { start_num: 0, end_num: 0, den: 1 }
}

/// No thumb is shown when the offset is at or past the total, or the viewport
/// covers the whole extent.
pub open spec fn slider_degenerate(offset: int, total: int, v: int) -> bool {
    offset >= total || v >= total
}

/// Numerator of the thumb's start over denominator `total * total`: the track
/// left over by the thumb, `v - v*v/total`, times `offset / total`.
pub open spec fn slider_start_num(offset: int, total: int, v: int) -> int {
    offset * v * (total - v)
}

/// Numerator of the thumb's length over denominator `total * total`: the
/// thumb length is `v * (v / total)`.
pub open spec fn slider_len_num(total: int, v: int) -> int {
    v * v * total
}

/// The viewport extent the slider runs along in `area`.
pub open spec fn spec_viewport(s: Slider, area: Rect) -> int {
    match s.direction {
        Direction::Vertical => area.height as int,
        Direction::Horizontal => area.width as int,
    }
}

impl Default for Slider {
    /// A vertical slider over nothing, red thumb on black.
    fn default() -> (r: Slider)
        ensures
            r.offset == 0,
            r.total == 0,
            r.direction == Direction::Vertical,
            r.rev == false,
    {
        Slider {
            offset: 0,
            total: 0,
            slider_color: 1,
            color: 0,
            direction: Direction::Vertical,
            rev: false,
        }
    }
}

impl Slider {
    pub fn new(offset: usize, total: usize) -> (r: Slider)
        ensures
            r.offset == offset,
            r.total == total,
            r.direction == Direction::Vertical,
            r.rev == false,
    {
        Slider { offset, total, ..Default::default() }
    }

    pub fn color(self, color: u32) -> (r: Slider)
        ensures
            r == (Slider { color, ..self }),
    {
        Slider { color, ..self }
    }

    pub fn slider_color(self, slider_color: u32) -> (r: Slider)
        ensures
            r == (Slider { slider_color, ..self }),
    {
        Slider { slider_color, ..self }
    }

    pub fn direction(self, direction: Direction) -> (r: Slider)
        ensures
            r == (Slider { direction, ..self }),
    {
        Slider { direction, ..self }
    }

    pub fn rev(self) -> (r: Slider)
        ensures
            r == (Slider { rev: !self.rev, ..self }),
    {
        let flipped = !self.rev;
        Slider { rev: flipped, ..self }
    }

    /// The exact span of the thumb within `area`, in viewport cells over the
    /// denominator `total * total`. Degenerate inputs (nothing to scroll, the
    /// offset at or past the end, the viewport covering everything) give the
    /// zero-length span. A mirrored slider gets the exact mirror image. The
    /// bound on `total` is what lets the arithmetic stay exact in machine
    /// integers.
    pub fn positon(&self, area: Rect) -> (r: SliderSpan)
        requires
            self.total <= SLIDER_TOTAL_MAX,
        ensures
            r.den >= 1,
            r.start_num <= r.end_num,
            r.end_num <= spec_viewport(*self, area) * r.den,
            slider_degenerate(self.offset as int, self.total as int, spec_viewport(*self, area))
                ==> r == empty_span(),
            !slider_degenerate(self.offset as int, self.total as int, spec_viewport(*self, area))
                ==> {
                let o = self.offset as int;
                let t = self.total as int;
                let v = spec_viewport(*self, area);
                &&& r.den == t * t
                &&& (!self.rev ==> r.start_num == slider_start_num(o, t, v) && r.end_num
                    == slider_start_num(o, t, v) + slider_len_num(t, v))
                &&& (self.rev ==> r.start_num == v * t * t - (slider_start_num(o, t, v)
                    + slider_len_num(t, v)) && r.end_num == v * t * t - slider_start_num(o, t, v))
            },
    {
        let viewport: u16 = match self.direction {
            Direction::Vertical => area.height,
            Direction::Horizontal => area.width,
        };
        if self.offset >= self.total || (viewport as usize) >= self.total {
            return SliderSpan { start_num: 0, end_num: 0, den: 1 };
        }
        let o: u128 = self.offset as u128;
        let t: u128 = self.total as u128;
        let v: u128 = viewport as u128;
        proof {
            assert(t * t <= 0x1_0000_0000_0000_0000_0000_0000) by (nonlinear_arith)
                requires
                    0 < t <= 0x1_0000_0000_0000,
            ;
            assert(o * v <= 0x1_0000_0000_0000_0000) by (nonlinear_arith)
                requires
                    0 <= o <= 0x1_0000_0000_0000,
                    0 <= v <= 0xFFFF,
            ;
            assert((o * v) * (t - v) <= 0x1_0000_0000_0000_0000 * 0x1_0000_0000_0000)
                by (nonlinear_arith)
                requires
                    0 <= o * v <= 0x1_0000_0000_0000_0000,
                    0 <= t - v <= 0x1_0000_0000_0000,
            ;
            assert(v * v <= 0x1_0000_0000) by (nonlinear_arith)
                requires
                    0 <= v <= 0xFFFF,
            ;
            assert((v * v) * t <= 0x1_0000_0000 * 0x1_0000_0000_0000) by (nonlinear_arith)
                requires
                    0 <= v * v <= 0x1_0000_0000,
                    0 <= t <= 0x1_0000_0000_0000,
            ;
        }
        let den: u128 = t * t;
        let start: u128 = o * v * (t - v);
        let len: u128 = v * v * t;
        let end: u128 = start + len;
        proof {
            assert(o * (t - v) + v * t <= t * t) by (nonlinear_arith)
                requires
                    0 <= o < t,
                    0 <= v < t,
            ;
            assert(v * (o * (t - v) + v * t) <= v * (t * t)) by (nonlinear_arith)
                requires
                    0 <= v,
                    o * (t - v) + v * t <= t * t,
            ;
            assert(o * v * (t - v) + v * v * t == v * (o * (t - v) + v * t)) by (nonlinear_arith);
            assert(v * (t * t) == v * t * t) by (nonlinear_arith);
            assert(v * (t * t) <= 0xFFFF * 0x1_0000_0000_0000_0000_0000_0000) by (nonlinear_arith)
                requires
                    0 <= v <= 0xFFFF,
                    0 <= t * t <= 0x1_0000_0000_0000_0000_0000_0000,
            ;
            assert(t * t >= 1) by (nonlinear_arith)
                requires
                    t >= 1,
            ;
        }
        if !self.rev {
            SliderSpan { start_num: start, end_num: end, den }
        } else {
            let vden: u128 = v * den;
            SliderSpan { start_num: vden - end, end_num: vden - start, den }
        }
    }
}

/// Slider monotonicity: at a fixed total and viewport, and short of the
/// degenerate region, a larger offset never moves the thumb's start or end
/// backwards; the mirrored slider is the exact mirror image, each bound being
/// the viewport minus the opposite forward bound.
pub proof fn lemma_slider_monotonic(o1: int, o2: int, t: int, v: int)
    requires
        0 <= o1 <= o2,
        0 <= v <= t,
    ensures
        slider_start_num(o1, t, v) <= slider_start_num(o2, t, v),
        slider_start_num(o1, t, v) + slider_len_num(t, v) <= slider_start_num(o2, t, v)
            + slider_len_num(t, v),
        v * t * t - (slider_start_num(o2, t, v) + slider_len_num(t, v)) <= v * t * t - (
        slider_start_num(o1, t, v) + slider_len_num(t, v)),
{
    assert(o1 * v * (t - v) <= o2 * v * (t - v)) by (nonlinear_arith)
        requires
            0 <= o1 <= o2,
            0 <= v <= t,
    ;
}

/// The nearest number of eighths the fractional part of `num / den` rounds
/// to, halves rounding up: what picks the partial block glyph at a thumb
/// edge.
pub fn frac_eighths(num: u128, den: u128) -> (e: u8)
    requires
        1 <= den <= 0x1_0000_0000_0000_0000_0000_0000,
    ensures
        e as int == ((num % den) * 16 + den) / (2 * den),
        e <= 8,
{
    let frac = num % den;
    proof {
        assert(frac < den);
        assert(frac * 16 + den < den * 18 && den * 18
            <= 0x1_0000_0000_0000_0000_0000_0000u128 * 18 && (frac * 16 + den) / (2 * den) <= 8)
            by (nonlinear_arith)
            requires
                0 <= frac < den,
                1 <= den <= 0x1_0000_0000_0000_0000_0000_0000,
        ;
    }
    let e = (frac * 16 + den) / (2 * den);
    e as u8
}

/// The glyph for a vertically filling cell: a lower block filled to the given
/// number of eighths, a space for zero.
pub open spec fn bar_symbol(eighths: u8) -> Seq<char> {
    match eighths {
        1u8 => "▁"@,
        2u8 => "▂"@,
        3u8 => "▃"@,
        4u8 => "▄"@,
        5u8 => "▅"@,
        6u8 => "▆"@,
        7u8 => "▇"@,
        8u8 => "█"@,
        _ => " "@,
    }
}

/// The glyph for a horizontally filling cell: a left block filled to the
/// given number of eighths, a space for zero.
pub open spec fn block_symbol(eighths: u8) -> Seq<char> {
    match eighths {
        1u8 => "▏"@,
        2u8 => "▎"@,
        3u8 => "▍"@,
        4u8 => "▌"@,
        5u8 => "▋"@,
        6u8 => "▊"@,
        7u8 => "▉"@,
        8u8 => "█"@,
        _ => " "@,
    }
}

/// The lower-block glyph filled to `eighths` eighths of a cell.
pub fn get_unicode_bar(eighths: u8) -> (r: &'static str)
    ensures
        r@ == bar_symbol(eighths),
{
    match eighths {
        1 => "▁",
        2 => "▂",
        3 => "▃",
        4 => "▄",
        5 => "▅",
        6 => "▆",
        7 => "▇",
        8 => "█",
        _ => " ",
    }
}

/// The left-block glyph filled to `eighths` eighths of a cell.
pub fn get_unicode_block(eighths: u8) -> (r: &'static str)
    ensures
        r@ == block_symbol(eighths),
{
    match eighths {
        1 => "▏",
        2 => "▎",
        3 => "▍",
        4 => "▌",
        5 => "▋",
        6 => "▊",
        7 => "▉",
        8 => "█",
        _ => " ",
    }
}

} // verus!
