use filez::rect::Rect;
use filez::slider::{frac_eighths, get_unicode_bar, get_unicode_block, Direction, Slider};

fn area(width: u16, height: u16) -> Rect {
    Rect { x: 0, y: 0, width, height }
}

fn as_pair(span: filez::slider::SliderSpan) -> (f64, f64) {
    (
        span.start_num as f64 / span.den as f64,
        span.end_num as f64 / span.den as f64,
    )
}

#[test]
fn slider_scenario_top_of_hundred() {
    let span = Slider::new(0, 100).positon(area(1, 10));
    let (start, end) = as_pair(span);
    assert_eq!(start, 0.0);
    assert_eq!(end, 1.0);
}

#[test]
fn slider_degenerate_empty_total() {
    let span = Slider::new(0, 0).positon(area(1, 10));
    let (start, end) = as_pair(span);
    assert_eq!(start, 0.0);
    assert_eq!(end, 0.0);
}

#[test]
fn slider_degenerate_offset_at_end() {
    let span = Slider::new(100, 100).positon(area(1, 10));
    assert_eq!(as_pair(span), (0.0, 0.0));
}

#[test]
fn slider_degenerate_viewport_covers_all() {
    let span = Slider::new(0, 8).positon(area(1, 10));
    assert_eq!(as_pair(span), (0.0, 0.0));
}

#[test]
fn slider_moves_with_offset() {
    let a = Slider::new(10, 100).positon(area(1, 10));
    let b = Slider::new(20, 100).positon(area(1, 10));
    let (sa, ea) = as_pair(a);
    let (sb, eb) = as_pair(b);
    assert!(sa < sb);
    assert!(ea < eb);
    // thumb length stays the viewport times viewport-over-total: one cell here
    let a = Slider::new(10, 100).positon(area(1, 10));
    let b = Slider::new(20, 100).positon(area(1, 10));
    assert_eq!(a.end_num - a.start_num, a.den);
    assert_eq!(b.end_num - b.start_num, b.den);
}

#[test]
fn slider_reversed_is_mirror() {
    let fwd = Slider::new(25, 100).positon(area(1, 10));
    let rev = Slider::new(25, 100).rev().positon(area(1, 10));
    let (sf, ef) = as_pair(fwd);
    let (sr, er) = as_pair(rev);
    assert_eq!(sr, 10.0 - ef);
    assert_eq!(er, 10.0 - sf);
}

#[test]
fn slider_horizontal_uses_width() {
    let span = Slider::new(0, 100)
        .direction(Direction::Horizontal)
        .positon(area(20, 1));
    let (start, end) = as_pair(span);
    assert_eq!(start, 0.0);
    assert_eq!(end, 4.0);
}

#[test]
fn eighths_round_to_nearest() {
    // 0.5 of a cell rounds to four eighths.
    assert_eq!(frac_eighths(5, 10), 4);
    // 1/3 is 2.67 eighths, rounding to three.
    assert_eq!(frac_eighths(1, 3), 3);
    // whole numbers have no fractional part
    assert_eq!(frac_eighths(7, 7), 0);
    // 9/10 is 7.2 eighths, rounding to seven.
    assert_eq!(frac_eighths(9, 10), 7);
}

#[test]
fn glyph_ramps() {
    assert_eq!(get_unicode_bar(0), " ");
    assert_eq!(get_unicode_bar(4), "▄");
    assert_eq!(get_unicode_bar(8), "█");
    assert_eq!(get_unicode_block(1), "▏");
    assert_eq!(get_unicode_block(8), "█");
    assert_eq!(get_unicode_block(9), " ");
}
